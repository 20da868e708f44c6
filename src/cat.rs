use vstd::prelude::*;
use crate::radio::Radio;
use crate::receiver::MAX_FREQUENCY;

verus! {

/// A request that the CAT server sends to the application thread.
#[derive(PartialEq, Eq, Structural, Clone, Copy, Debug)]
pub enum CatMessage {
    UpdateMox(bool),
}

/// The CAT server's state.
#[derive(PartialEq, Eq, Structural, Clone, Copy, Debug)]
pub struct CAT {
    pub running: bool,
}

/// The MOX state that a message asks for.
pub open spec fn mox_of(m: CatMessage) -> bool {
    match m {
        CatMessage::UpdateMox(on) => on,
    }
}

/// The identifier that the `ID` command reports (a TS-2000).
pub const RIG_ID: u64 = 19;

/// What CAT commands read and write of the radio state: the frequencies that
/// the two receivers listen on, the first receiver's step and mode, whether the
/// radio transmits for any reason but an external MOX, the external MOX, split,
/// the keyer speed and VOX.
pub struct CatView {
    pub f0: int,
    pub f1: int,
    pub step: int,
    pub mode: nat,
    pub other_tx: bool,
    pub external_mox: bool,
    pub split: bool,
    pub speed: nat,
    pub vox: bool,
}

pub open spec fn cat_view(r: Radio) -> CatView {
    CatView {
        f0: r.receiver@[0].listen_frequency(),
        f1: r.receiver@[1].listen_frequency(),
        step: r.receiver@[0].step as int,
        mode: r.receiver@[0].mode as nat,
        other_tx: r.mox || r.ptt || ((r.dot || r.dash) && (r.receiver@[0].mode
            == crate::receiver::MODE_CWL || r.receiver@[0].mode == crate::receiver::MODE_CWU))
            || r.vox || r.tune,
        external_mox: r.external_mox,
        split: r.split,
        speed: r.cw_keyer_speed as nat,
        vox: r.vox,
    }
}

/// The ASCII code of a decimal digit.
pub open spec fn digit_char(d: int) -> u8 {
    (48 + d) as u8
}

/// The decimal digits of `n`, most significant first.
pub open spec fn digits(n: nat) -> Seq<u8>
    decreases n,
{
    if n < 10 {
        seq![digit_char(n as int)]
    } else {
        digits(n / 10).push(digit_char((n % 10) as int))
    }
}

/// `s` padded on the left with zeros to `width` characters.
pub open spec fn zero_pad(s: Seq<u8>, width: int) -> Seq<u8> {
    if s.len() >= width {
        s
    } else {
        Seq::new((width - s.len()) as nat, |i: int| 48u8) + s
    }
}

/// An integer in decimal, zero-padded to `width` characters with the sign first.
pub open spec fn decimal(v: int, width: int) -> Seq<u8> {
    if v >= 0 {
        zero_pad(digits(v as nat), width)
    } else {
        seq![45u8] + zero_pad(digits((-v) as nat), width - 1)
    }
}

/// Whether a byte is ASCII white space.
pub open spec fn is_space(c: u8) -> bool {
    c == 32 || (9 <= c <= 13)
}

/// `s` without white space at its start.
pub open spec fn trim_start(s: Seq<u8>) -> Seq<u8>
    decreases s.len(),
{
    if s.len() > 0 && is_space(s[0]) {
        trim_start(s.drop_first())
    } else {
        s
    }
}

/// `s` without white space at its end.
pub open spec fn trim_end(s: Seq<u8>) -> Seq<u8>
    decreases s.len(),
{
    if s.len() > 0 && is_space(s.last()) {
        trim_end(s.drop_last())
    } else {
        s
    }
}

/// `s` without white space at either end.
pub open spec fn trim(s: Seq<u8>) -> Seq<u8> {
    trim_end(trim_start(s))
}

/// The pieces of `s` between semicolons.
pub open spec fn split_semicolons(s: Seq<u8>) -> Seq<Seq<u8>>
    decreases s.len(),
{
    if s.len() == 0 {
        seq![Seq::<u8>::empty()]
    } else {
        let p = split_semicolons(s.drop_last());
        if s.last() == 59 {
            p.push(Seq::<u8>::empty())
        } else {
            p.update(p.len() - 1, p.last().push(s.last()))
        }
    }
}

/// The commands of a CAT input: the pieces between semicolons, trimmed, the
/// empty ones left out.
pub open spec fn commands_of(s: Seq<u8>) -> Seq<Seq<u8>> {
    split_semicolons(s).map_values(|p: Seq<u8>| trim(p)).filter(|p: Seq<u8>| p.len() > 0)
}

/// Whether `s` is a number that a command can carry: 1 to 15 decimal digits.
pub open spec fn is_number(s: Seq<u8>) -> bool {
    1 <= s.len() <= 15 && forall|i: int| 0 <= i < s.len() ==> 48 <= #[trigger] s[i] <= 57
}

/// The value of decimal digits.
pub open spec fn number_of(s: Seq<u8>) -> int
    decreases s.len(),
{
    if s.len() == 0 {
        0
    } else {
        number_of(s.drop_last()) * 10 + (s.last() - 48)
    }
}

/// `ab` as bytes.
pub open spec fn code(a: u8, b: u8) -> Seq<u8> {
    seq![a, b]
}

/// The reply to one command, the view after it, and the MOX message it sends,
/// if any. `FA` and `FB` report or set the frequency that a receiver listens
/// on, `IF` reports the state in the TS-2000 layout, `ID`, `KS`, `MD` and `VX`
/// report, `TX` and `RX` set the external MOX; anything else gets `?;`.
pub open spec fn cat_command(v: CatView, cmd: Seq<u8>) -> (Seq<u8>, CatView, Option<bool>) {
    let none = Option::<bool>::None;
    if cmd.len() < 2 {
        (seq![63u8, 59u8], v, none)
    } else {
        let c = cmd.subrange(0, 2);
        let suffix = cmd.subrange(2, cmd.len() as int);
        if c == code(70, 65) || c == code(70, 66) {
            let f = if c == code(70, 65) { v.f0 } else { v.f1 };
            if suffix.len() == 0 {
                (c + decimal(f, 11) + seq![59u8], v, none)
            } else if is_number(suffix) && number_of(suffix) < MAX_FREQUENCY {
                let n = number_of(suffix);
                (Seq::empty(), if c == code(70, 65) { CatView { f0: n, ..v } } else { CatView { f1: n, ..v } }, none)
            } else {
                (seq![63u8, 59u8], v, none)
            }
        } else if c == code(73, 68) {
            (c + decimal(RIG_ID as int, 3) + seq![59u8], v, none)
        } else if c == code(73, 70) {
            (c + decimal(v.f0, 11) + decimal(v.step, 4) + seq![43u8, 48u8, 48u8, 48u8, 48u8, 48u8]
                + seq![48u8, 48u8, 48u8, 48u8, 48u8] + seq![if v.other_tx || v.external_mox { 49u8 } else { 48u8 }]
                + decimal(v.mode as int, 1) + seq![48u8, 48u8] + seq![if v.split { 49u8 } else { 48u8 }]
                + seq![48u8, 48u8, 48u8, 48u8, 59u8], v, none)
        } else if c == code(75, 83) {
            (if suffix.len() == 0 { c + decimal(v.speed as int, 3) + seq![59u8] } else { Seq::empty() }, v, none)
        } else if c == code(77, 68) {
            (if suffix.len() == 0 { c + decimal(v.mode as int, 1) + seq![59u8] } else { Seq::empty() }, v, none)
        } else if c == code(86, 88) {
            (if suffix.len() == 0 {
                c + (if v.vox { seq![116u8, 114u8, 117u8, 101u8] } else { seq![102u8, 97u8, 108u8, 115u8, 101u8] }) + seq![59u8]
            } else {
                Seq::empty()
            }, v, none)
        } else if c == code(84, 88) {
            (Seq::empty(), CatView { external_mox: true, ..v }, Some(true))
        } else if c == code(82, 88) {
            (Seq::empty(), CatView { external_mox: false, ..v }, Some(false))
        } else {
            (seq![63u8, 59u8], v, none)
        }
    }
}

/// The replies, the view after them and the MOX messages of commands run one
/// after another.
pub open spec fn cat_run(v: CatView, cmds: Seq<Seq<u8>>) -> (CatView, Seq<Seq<u8>>, Seq<bool>)
    decreases cmds.len(),
{
    if cmds.len() == 0 {
        (v, Seq::empty(), Seq::empty())
    } else {
        let (v1, rs, ms) = cat_run(v, cmds.drop_last());
        let (reply, v2, m) = cat_command(v1, cmds.last());
        (v2, rs.push(reply), if m is Some { ms.push(m->0) } else { ms })
    }
}

/// Appends the decimal digits of `n`.
fn push_digits(out: &mut Vec<u8>, n: u64)
    ensures
        final(out)@ == old(out)@ + digits(n as nat),
    decreases n,
{
    if n >= 10 {
        push_digits(out, n / 10);
    }
    out.push((48 + n % 10) as u8);
    proof {
        if n >= 10 {
            assert(final(out)@ =~= old(out)@ + digits(n as nat));
        } else {
            assert(final(out)@ =~= old(out)@ + digits(n as nat));
        }
    }
}

/// Appends `v` in decimal, zero-padded to `width` characters.
fn push_unsigned(out: &mut Vec<u8>, v: u64, width: usize)
    requires
        width <= 32,
    ensures
        final(out)@ == old(out)@ + decimal(v as int, width as int),
{
    let mut d: Vec<u8> = Vec::new();
    push_digits(&mut d, v);
    let ghost start = out@;
    let mut k: usize = d.len();
    while k < width
        invariant
            d.len() <= k <= width || (k == d.len() && width <= d.len()),
            out@ == start + Seq::new((k - d@.len()) as nat, |i: int| 48u8),
        decreases width - k,
    {
        out.push(48u8);
        k = k + 1;
        assert(out@ =~= start + Seq::new((k - d@.len()) as nat, |i: int| 48u8));
    }
    let ghost padded = out@;
    let mut j: usize = 0;
    while j < d.len()
        invariant
            j <= d@.len(),
            out@ == padded + d@.subrange(0, j as int),
        decreases d@.len() - j,
    {
        out.push(d[j]);
        j = j + 1;
        assert(out@ =~= padded + d@.subrange(0, j as int));
    }
    assert(out@ =~= start + decimal(v as int, width as int));
}

/// Appends `v` in decimal, zero-padded to `width` characters.
fn push_decimal(out: &mut Vec<u8>, v: i64, width: usize)
    requires
        width <= 32,
    ensures
        final(out)@ == old(out)@ + decimal(v as int, width as int),
{
    let magnitude: u64 = if v >= 0 { v as u64 } else { (-(v + 1)) as u64 + 1 };
    let mut d: Vec<u8> = Vec::new();
    push_digits(&mut d, magnitude);
    assert(d@ =~= digits(magnitude as nat));
    let pad_to: usize = if v >= 0 { width } else {
        if width > 0 { width - 1 } else { 0 }
    };
    let ghost start = out@;
    if v < 0 {
        out.push(45u8);
    }
    let ghost signed = out@;
    let mut k: usize = d.len();
    while k < pad_to
        invariant
            d.len() <= k <= pad_to || (k == d.len() && pad_to <= d.len()),
            out@ == signed + Seq::new((k - d@.len()) as nat, |i: int| 48u8),
        decreases pad_to - k,
    {
        out.push(48u8);
        k = k + 1;
        assert(out@ =~= signed + Seq::new((k - d@.len()) as nat, |i: int| 48u8));
    }
    let ghost padded = out@;
    let mut j: usize = 0;
    while j < d.len()
        invariant
            j <= d@.len(),
            out@ == padded + d@.subrange(0, j as int),
        decreases d@.len() - j,
    {
        out.push(d[j]);
        j = j + 1;
        assert(out@ =~= padded + d@.subrange(0, j as int));
    }
    proof {
        let z = zero_pad(digits(magnitude as nat), pad_to as int);
        if d@.len() >= pad_to {
            assert(out@ =~= signed + z);
        } else {
            assert(out@ =~= signed + z);
        }
        if v >= 0 {
            assert(out@ =~= start + decimal(v as int, width as int));
        } else {
            assert((-v) as nat == magnitude as nat);
            assert(width as int - 1 <= 0 ==> (pad_to as int) <= d@.len());
            assert(out@ =~= start + decimal(v as int, width as int));
        }
    }
}

/// `s` without white space at either end.
pub fn trim_bytes(s: &Vec<u8>) -> (r: Vec<u8>)
    ensures
        r@ == trim(s@),
{
    let mut a: usize = 0;
    assert(s@.subrange(0, s@.len() as int) =~= s@);
    while a < s.len() && (s[a] == 32 || (9 <= s[a] && s[a] <= 13))
        invariant
            a <= s@.len(),
            trim_start(s@.subrange(a as int, s@.len() as int)) == trim_start(s@),
        decreases s@.len() - a,
    {
        assert(s@.subrange(a as int, s@.len() as int).drop_first() =~= s@.subrange(a + 1, s@.len() as int));
        a = a + 1;
    }
    let ghost t = s@.subrange(a as int, s@.len() as int);
    assert(trim_start(t) == t);
    let mut b: usize = s.len();
    while b > a && (s[b - 1] == 32 || (9 <= s[b - 1] && s[b - 1] <= 13))
        invariant
            a <= b <= s@.len(),
            t == s@.subrange(a as int, s@.len() as int),
            trim_end(s@.subrange(a as int, b as int)) == trim_end(t),
        decreases b,
    {
        assert(s@.subrange(a as int, b as int).drop_last() =~= s@.subrange(a as int, b - 1));
        b = b - 1;
    }
    let mut r: Vec<u8> = Vec::new();
    let mut k: usize = a;
    while k < b
        invariant
            a <= k <= b <= s@.len(),
            r@ == s@.subrange(a as int, k as int),
        decreases b - k,
    {
        r.push(s[k]);
        k = k + 1;
        assert(r@ =~= s@.subrange(a as int, k as int));
    }
    assert(trim_end(s@.subrange(a as int, b as int)) == s@.subrange(a as int, b as int));
    r
}

proof fn lemma_commands_push(p: Seq<Seq<u8>>, last: Seq<u8>)
    ensures
        p.push(last).map_values(|q: Seq<u8>| trim(q)).filter(|q: Seq<u8>| q.len() > 0)
            == p.map_values(|q: Seq<u8>| trim(q)).filter(|q: Seq<u8>| q.len() > 0) + (if trim(last).len() > 0 {
            seq![trim(last)]
        } else {
            Seq::<Seq<u8>>::empty()
        }),
{
    let f = |q: Seq<u8>| trim(q);
    let keep = |q: Seq<u8>| q.len() > 0;
    assert(p.push(last).map_values(f) =~= p.map_values(f).push(trim(last)));
    p.map_values(f).lemma_filter_push(trim(last), keep);
    if trim(last).len() > 0 {
        assert(p.map_values(f).filter(keep).push(trim(last)) =~= p.map_values(f).filter(keep) + seq![trim(last)]);
    } else {
        assert(p.map_values(f).filter(keep) =~= p.map_values(f).filter(keep) + Seq::<Seq<u8>>::empty());
    }
}

/// The commands of a CAT input, in order.
pub fn split_commands(input: &Vec<u8>) -> (r: Vec<Vec<u8>>)
    ensures
        r@.map_values(|c: Vec<u8>| c@) == commands_of(input@),
{
    let mut out: Vec<Vec<u8>> = Vec::new();
    let mut cur: Vec<u8> = Vec::new();
    let mut i: usize = 0;
    while i < input.len()
        invariant
            i <= input@.len(),
            split_semicolons(input@.subrange(0, i as int)).len() > 0,
            cur@ == split_semicolons(input@.subrange(0, i as int)).last(),
            out@.map_values(|c: Vec<u8>| c@) == split_semicolons(input@.subrange(0, i as int)).drop_last().map_values(
                |q: Seq<u8>| trim(q),
            ).filter(|q: Seq<u8>| q.len() > 0),
        decreases input@.len() - i,
    {
        let ghost p = split_semicolons(input@.subrange(0, i as int));
        let c = input[i];
        assert(input@.subrange(0, i + 1).drop_last() =~= input@.subrange(0, i as int));
        if c == 59 {
            let t = trim_bytes(&cur);
            proof {
                assert(p =~= p.drop_last().push(p.last()));
                lemma_commands_push(p.drop_last(), p.last());
            }
            if t.len() > 0 {
                let ghost before = out@;
                out.push(t);
                assert(out@.map_values(|c: Vec<u8>| c@) =~= before.map_values(|c: Vec<u8>| c@) + seq![trim(p.last())]);
            } else {
                assert(out@.map_values(|c: Vec<u8>| c@) =~= out@.map_values(|c: Vec<u8>| c@) + Seq::<Seq<u8>>::empty());
            }
            cur = Vec::new();
            proof {
                let next = split_semicolons(input@.subrange(0, i + 1));
                assert(next == p.push(Seq::<u8>::empty()));
                assert(next.drop_last() =~= p);
                assert(cur@ =~= next.last());
            }
        } else {
            cur.push(c);
            proof {
                let next = split_semicolons(input@.subrange(0, i + 1));
                assert(next == p.update(p.len() - 1, p.last().push(c)));
                assert(next.drop_last() =~= p.drop_last());
                assert(cur@ =~= next.last());
            }
        }
        i = i + 1;
    }
    let ghost p = split_semicolons(input@.subrange(0, i as int));
    assert(input@.subrange(0, i as int) =~= input@);
    let t = trim_bytes(&cur);
    proof {
        assert(p =~= p.drop_last().push(p.last()));
        lemma_commands_push(p.drop_last(), p.last());
    }
    if t.len() > 0 {
        let ghost before = out@;
        out.push(t);
        assert(out@.map_values(|c: Vec<u8>| c@) =~= before.map_values(|c: Vec<u8>| c@) + seq![trim(p.last())]);
    } else {
        assert(out@.map_values(|c: Vec<u8>| c@) =~= out@.map_values(|c: Vec<u8>| c@) + Seq::<Seq<u8>>::empty());
    }
    out
}

/// 10 to the power `n`.
pub open spec fn pow10(n: nat) -> nat
    decreases n,
{
    if n == 0 {
        1
    } else {
        10 * pow10((n - 1) as nat)
    }
}

/// Reads the number at `s[from..]`, if it is one that a command can carry and
/// below the frequency bound.
fn parse_number(s: &Vec<u8>, from: usize) -> (r: Option<i64>)
    requires
        from <= s@.len(),
    ensures
        r is Some <==> (is_number(s@.subrange(from as int, s@.len() as int)) && number_of(
            s@.subrange(from as int, s@.len() as int),
        ) < MAX_FREQUENCY),
        r is Some ==> r->0 == number_of(s@.subrange(from as int, s@.len() as int)),
        r is Some ==> 0 <= r->0,
{
    let n = s.len() - from;
    if n < 1 || n > 15 {
        return None;
    }
    let mut acc: i64 = 0;
    let mut k: usize = from;
    proof {
        reveal_with_fuel(pow10, 16);
        assert(s@.subrange(from as int, from as int) =~= Seq::<u8>::empty());
    }
    while k < s.len()
        invariant
            from <= k <= s@.len(),
            s@.len() - from <= 15,
            acc == number_of(s@.subrange(from as int, k as int)),
            0 <= acc < pow10((k - from) as nat),
            pow10(15) == 1_000_000_000_000_000,
            forall|j: int| from <= j < k ==> 48 <= #[trigger] s@[j] <= 57,
        decreases s@.len() - k,
    {
        let c = s[k];
        if c < 48 || c > 57 {
            proof {
                assert(s@.subrange(from as int, s@.len() as int)[k - from] == c);
            }
            return None;
        }
        proof {
            assert(s@.subrange(from as int, k + 1).drop_last() =~= s@.subrange(from as int, k as int));
            lemma_pow10_monotone((k - from) as nat, 15);
        }
        acc = acc * 10 + (c - 48) as i64;
        k = k + 1;
    }
    proof {
        let t = s@.subrange(from as int, s@.len() as int);
        assert forall|i: int| 0 <= i < t.len() implies 48 <= #[trigger] t[i] <= 57 by {
            assert(t[i] == s@[from + i]);
        }
    }
    if acc < MAX_FREQUENCY {
        Some(acc)
    } else {
        None
    }
}

proof fn lemma_pow10_monotone(a: nat, b: nat)
    requires
        a <= b,
    ensures
        pow10(a) <= pow10(b),
    decreases b,
{
    if a < b {
        lemma_pow10_monotone(a, (b - 1) as nat);
    }
}

proof fn lemma_code_eq(a: u8, b: u8, x: u8, y: u8)
    ensures
        (code(a, b) == code(x, y)) == (a == x && b == y),
{
    if code(a, b) == code(x, y) {
        assert(code(a, b)[0] == code(x, y)[0]);
        assert(code(a, b)[1] == code(x, y)[1]);
    }
    if a == x && b == y {
        assert(code(a, b) =~= code(x, y));
    }
}

proof fn lemma_codes(a: u8, b: u8)
    ensures
        (code(a, b) == code(70, 65)) == (a == 70 && b == 65),
        (code(a, b) == code(70, 66)) == (a == 70 && b == 66),
        (code(a, b) == code(73, 68)) == (a == 73 && b == 68),
        (code(a, b) == code(73, 70)) == (a == 73 && b == 70),
        (code(a, b) == code(75, 83)) == (a == 75 && b == 83),
        (code(a, b) == code(77, 68)) == (a == 77 && b == 68),
        (code(a, b) == code(86, 88)) == (a == 86 && b == 88),
        (code(a, b) == code(84, 88)) == (a == 84 && b == 88),
        (code(a, b) == code(82, 88)) == (a == 82 && b == 88),
{
    lemma_code_eq(a, b, 70, 65);
    lemma_code_eq(a, b, 70, 66);
    lemma_code_eq(a, b, 73, 68);
    lemma_code_eq(a, b, 73, 70);
    lemma_code_eq(a, b, 75, 83);
    lemma_code_eq(a, b, 77, 68);
    lemma_code_eq(a, b, 86, 88);
    lemma_code_eq(a, b, 84, 88);
    lemma_code_eq(a, b, 82, 88);
}

impl CAT {
    /// A CAT server that is not running.
    pub fn new() -> (r: CAT)
        ensures
            !r.running,
    {
        CAT { running: false }
    }

    /// Asks the server loop to stop.
    pub fn stop(&mut self)
        ensures
            !final(self).running,
    {
        self.running = false;
    }

    /// `FA` and `FB`: report or set the frequency a receiver listens on.
    fn frequency_command(cmd: &Vec<u8>, radio: &mut Radio) -> (r: (Vec<u8>, Option<CatMessage>))
        requires
            old(radio).wf(),
            cmd@.len() >= 2,
            cmd@[0] == 70 && (cmd@[1] == 65 || cmd@[1] == 66),
        ensures
            final(radio).wf(),
            r.0@ == cat_command(cat_view(*old(radio)), cmd@).0,
            cat_view(*final(radio)) == cat_command(cat_view(*old(radio)), cmd@).1,
            (r.1 is Some) == (cat_command(cat_view(*old(radio)), cmd@).2 is Some),
            r.1 is Some ==> r.1 == Some(CatMessage::UpdateMox(cat_command(cat_view(*old(radio)), cmd@).2->0)),
    {
        proof {
            assert(cmd@.subrange(0, 2) =~= code(cmd@[0], cmd@[1]));
            lemma_codes(cmd@[0], cmd@[1]);
        }
        let c0 = cmd[0];
        let c1 = cmd[1];
        let bare = cmd.len() == 2;
        let mut out: Vec<u8> = Vec::new();
        out.push(c0);
        out.push(c1);
        assert(out@ =~= code(c0, c1));
        let i: usize = if c1 == 65 { 0 } else { 1 };
        if bare {
            let rx = &radio.receiver[i];
            let f = if rx.ctun { rx.ctun_frequency } else { rx.frequency };
            push_decimal(&mut out, f, 11);
            out.push(59u8);
            return (out, None);
        }
        match parse_number(cmd, 2) {
            Some(n) => {
                radio.set_listen_frequency(i, n);
                (Vec::new(), None)
            },
            None => (vec![63u8, 59u8], None),
        }
    }

    /// `IF`: report the state in the TS-2000 layout.
    #[verifier::rlimit(40)]
    fn information_command(cmd: &Vec<u8>, radio: &Radio) -> (r: (Vec<u8>, Option<CatMessage>))
        requires
            radio.wf(),
            cmd@.len() >= 2,
            cmd@[0] == 73 && cmd@[1] == 70,
        ensures
            r.0@ == cat_command(cat_view(*radio), cmd@).0,
            cat_view(*radio) == cat_command(cat_view(*radio), cmd@).1,
            r.1 is None && cat_command(cat_view(*radio), cmd@).2 is None,
    {
        proof {
            assert(cmd@.subrange(0, 2) =~= code(cmd@[0], cmd@[1]));
            lemma_codes(cmd@[0], cmd@[1]);
        }
        let c0 = cmd[0];
        let c1 = cmd[1];
        let bare = cmd.len() == 2;
        let mut out: Vec<u8> = Vec::new();
        out.push(c0);
        out.push(c1);
        assert(out@ =~= code(c0, c1));
        let rx = &radio.receiver[0];
        let f = if rx.ctun { rx.ctun_frequency } else { rx.frequency };
        push_decimal(&mut out, f, 11);
        push_decimal(&mut out, rx.step, 4);
        let mid: Vec<u8> = vec![43u8, 48u8, 48u8, 48u8, 48u8, 48u8, 48u8, 48u8, 48u8, 48u8, 48u8];
        let ghost before = out@;
        let mut j: usize = 0;
        while j < mid.len()
            invariant
                j <= mid@.len(),
                out@ == before + mid@.subrange(0, j as int),
            decreases mid@.len() - j,
        {
            out.push(mid[j]);
            j = j + 1;
            assert(out@ =~= before + mid@.subrange(0, j as int));
        }
        out.push(if radio.is_transmitting() { 49u8 } else { 48u8 });
        push_unsigned(&mut out, rx.mode as u64, 1);
        out.push(48u8);
        out.push(48u8);
        out.push(if radio.split { 49u8 } else { 48u8 });
        out.push(48u8);
        out.push(48u8);
        out.push(48u8);
        out.push(48u8);
        out.push(59u8);
        proof {
            let v = cat_view(*radio);
            assert(mid@ =~= seq![43u8, 48u8, 48u8, 48u8, 48u8, 48u8] + seq![48u8, 48u8, 48u8, 48u8, 48u8]);
            assert(out@ =~= cat_command(v, cmd@).0);
        }
        (out, None)
    }

    /// `KS`, `MD` and `VX`: report the keyer speed, the mode or VOX.
    fn report_command(cmd: &Vec<u8>, radio: &mut Radio) -> (r: (Vec<u8>, Option<CatMessage>))
        requires
            old(radio).wf(),
            cmd@.len() >= 2,
            (cmd@[0] == 75 && cmd@[1] == 83) || (cmd@[0] == 77 && cmd@[1] == 68) || (cmd@[0] == 86 && cmd@[1] == 88),
        ensures
            final(radio).wf(),
            r.0@ == cat_command(cat_view(*old(radio)), cmd@).0,
            cat_view(*final(radio)) == cat_command(cat_view(*old(radio)), cmd@).1,
            (r.1 is Some) == (cat_command(cat_view(*old(radio)), cmd@).2 is Some),
            r.1 is Some ==> r.1 == Some(CatMessage::UpdateMox(cat_command(cat_view(*old(radio)), cmd@).2->0)),
    {
        proof {
            assert(cmd@.subrange(0, 2) =~= code(cmd@[0], cmd@[1]));
            lemma_codes(cmd@[0], cmd@[1]);
        }
        let c0 = cmd[0];
        let c1 = cmd[1];
        let bare = cmd.len() == 2;
        let mut out: Vec<u8> = Vec::new();
        out.push(c0);
        out.push(c1);
        assert(out@ =~= code(c0, c1));
        if !bare {
            return (Vec::new(), None);
        }
        if c0 == 75 {
            push_unsigned(&mut out, radio.cw_keyer_speed as u64, 3);
        } else if c0 == 77 {
            push_unsigned(&mut out, radio.receiver[0].mode as u64, 1);
        } else {
            let word: Vec<u8> = if radio.vox { vec![116u8, 114u8, 117u8, 101u8] } else { vec![102u8, 97u8, 108u8, 115u8, 101u8] };
            let ghost before = out@;
            let mut j: usize = 0;
            while j < word.len()
                invariant
                    j <= word@.len(),
                    out@ == before + word@.subrange(0, j as int),
                decreases word@.len() - j,
            {
                out.push(word[j]);
                j = j + 1;
                assert(out@ =~= before + word@.subrange(0, j as int));
            }
            proof {
                if radio.vox {
                    assert(word@ =~= seq![116u8, 114u8, 117u8, 101u8]);
                } else {
                    assert(word@ =~= seq![102u8, 97u8, 108u8, 115u8, 101u8]);
                }
            }
        }
        out.push(59u8);
        assert(out@ =~= cat_command(cat_view(*radio), cmd@).0);
        (out, None)
    }

    /// `TX` and `RX`: set or clear the external MOX.
    fn mox_command(cmd: &Vec<u8>, radio: &mut Radio) -> (r: (Vec<u8>, Option<CatMessage>))
        requires
            old(radio).wf(),
            cmd@.len() >= 2,
            (cmd@[0] == 84 || cmd@[0] == 82) && cmd@[1] == 88,
        ensures
            final(radio).wf(),
            r.0@ == cat_command(cat_view(*old(radio)), cmd@).0,
            cat_view(*final(radio)) == cat_command(cat_view(*old(radio)), cmd@).1,
            (r.1 is Some) == (cat_command(cat_view(*old(radio)), cmd@).2 is Some),
            r.1 is Some ==> r.1 == Some(CatMessage::UpdateMox(cat_command(cat_view(*old(radio)), cmd@).2->0)),
    {
        proof {
            assert(cmd@.subrange(0, 2) =~= code(cmd@[0], cmd@[1]));
            lemma_codes(cmd@[0], cmd@[1]);
        }
        let c0 = cmd[0];
        let c1 = cmd[1];
        let bare = cmd.len() == 2;
        let mut out: Vec<u8> = Vec::new();
        out.push(c0);
        out.push(c1);
        assert(out@ =~= code(c0, c1));
        let on = c0 == 84;
        radio.set_external_mox(on);
        (Vec::new(), Some(CatMessage::UpdateMox(on)))
    }

    /// Runs one command against the radio state; returns its reply and the MOX
    /// message it sends, if any.
    pub fn command(&self, cmd: &Vec<u8>, radio: &mut Radio) -> (r: (Vec<u8>, Option<CatMessage>))
        requires
            old(radio).wf(),
        ensures
            final(radio).wf(),
            r.0@ == cat_command(cat_view(*old(radio)), cmd@).0,
            cat_view(*final(radio)) == cat_command(cat_view(*old(radio)), cmd@).1,
            (r.1 is Some) == (cat_command(cat_view(*old(radio)), cmd@).2 is Some),
            r.1 is Some ==> r.1 == Some(CatMessage::UpdateMox(cat_command(cat_view(*old(radio)), cmd@).2->0)),
    {
        if cmd.len() < 2 {
            return (vec![63u8, 59u8], None);
        }
        let c0 = cmd[0];
        let c1 = cmd[1];
        if c0 == 70 && (c1 == 65 || c1 == 66) {
            Self::frequency_command(cmd, radio)
        } else if c0 == 73 && c1 == 70 {
            Self::information_command(cmd, radio)
        } else if (c0 == 75 && c1 == 83) || (c0 == 77 && c1 == 68) || (c0 == 86 && c1 == 88) {
            Self::report_command(cmd, radio)
        } else if (c0 == 84 || c0 == 82) && c1 == 88 {
            Self::mox_command(cmd, radio)
        } else if c0 == 73 && c1 == 68 {
            let mut out: Vec<u8> = Vec::new();
            out.push(c0);
            out.push(c1);
            push_unsigned(&mut out, RIG_ID, 3);
            out.push(59u8);
            proof {
                assert(cmd@.subrange(0, 2) =~= code(c0, c1));
                lemma_codes(c0, c1);
                assert(out@ =~= cat_command(cat_view(*radio), cmd@).0);
            }
            (out, None)
        } else {
            proof {
                assert(cmd@.subrange(0, 2) =~= code(c0, c1));
                lemma_codes(c0, c1);
            }
            (vec![63u8, 59u8], None)
        }
    }

    /// Runs the commands of one read from the client, in order; returns their
    /// replies (empty for commands that reply nothing) and the MOX messages to
    /// send.
    pub fn parse_commands(&self, input: &Vec<u8>, radio: &mut Radio) -> (r: (Vec<Vec<u8>>, Vec<CatMessage>))
        requires
            old(radio).wf(),
        ensures
            final(radio).wf(),
            cat_view(*final(radio)) == cat_run(cat_view(*old(radio)), commands_of(input@)).0,
            r.0@.map_values(|x: Vec<u8>| x@) == cat_run(cat_view(*old(radio)), commands_of(input@)).1,
            r.1@.map_values(|m: CatMessage| mox_of(m)) == cat_run(cat_view(*old(radio)), commands_of(input@)).2,
    {
        let commands = split_commands(input);
        let ghost cmds = commands@.map_values(|c: Vec<u8>| c@);
        let ghost v0 = cat_view(*radio);
        let mut replies: Vec<Vec<u8>> = Vec::new();
        let mut messages: Vec<CatMessage> = Vec::new();
        let mut k: usize = 0;
        assert(cmds.subrange(0, 0) =~= Seq::<Seq<u8>>::empty());
        assert(replies@.map_values(|x: Vec<u8>| x@) =~= Seq::<Seq<u8>>::empty());
        assert(messages@.map_values(|m: CatMessage| mox_of(m)) =~= Seq::<bool>::empty());
        while k < commands.len()
            invariant
                k <= commands@.len(),
                replies@.len() == k,
                radio.wf(),
                cmds == commands@.map_values(|c: Vec<u8>| c@),
                cat_view(*radio) == cat_run(v0, cmds.subrange(0, k as int)).0,
                replies@.map_values(|x: Vec<u8>| x@) == cat_run(v0, cmds.subrange(0, k as int)).1,
                messages@.map_values(|m: CatMessage| mox_of(m)) == cat_run(v0, cmds.subrange(0, k as int)).2,
            decreases commands@.len() - k,
        {
            let ghost before_r = replies@;
            let ghost before_m = messages@;
            let (reply, msg) = self.command(&commands[k], radio);
            proof {
                assert(cmds.subrange(0, k + 1).drop_last() =~= cmds.subrange(0, k as int));
                assert(cmds.subrange(0, k + 1).last() == commands@[k as int]@);
            }
            replies.push(reply);
            assert(replies@.map_values(|x: Vec<u8>| x@) =~= before_r.map_values(|x: Vec<u8>| x@).push(replies@[k as int]@));
            match msg {
                Some(m) => {
                    messages.push(m);
                    assert(messages@.map_values(|m: CatMessage| mox_of(m)) =~= before_m.map_values(|m: CatMessage| mox_of(m)).push(mox_of(m)));
                },
                None => {},
            }
            k = k + 1;
        }
        assert(cmds.subrange(0, k as int) =~= cmds);
        (replies, messages)
    }
}

/// `d` with a '.' between each group of three digits, counted from the right.
pub open spec fn with_separators(d: Seq<u8>) -> Seq<u8>
    decreases d.len(),
{
    if d.len() <= 3 {
        d
    } else {
        with_separators(d.subrange(0, d.len() - 3)) + seq![46u8] + d.subrange(
            d.len() - 3,
            d.len() as int,
        )
    }
}

/// A number in decimal with '.' between groups of three digits, as the
/// frequency display shows it (`14.250.000`).
pub fn format_u32_with_separators(value: u32) -> (r: Vec<u8>)
    ensures
        r@ == with_separators(digits(value as nat)),
{
    let mut d: Vec<u8> = Vec::new();
    push_digits(&mut d, value as u64);
    assert(d@ =~= digits(value as nat));
    let len = d.len();
    let mut out: Vec<u8> = Vec::new();
    // the first group holds what is left over after whole groups of three
    let first: usize = if len % 3 == 0 { 3 } else { len % 3 };
    let mut i: usize = 0;
    while i < first && i < len
        invariant
            i <= first,
            i <= len,
            len == d@.len(),
            out@ == d@.subrange(0, i as int),
        decreases len - i,
    {
        out.push(d[i]);
        i = i + 1;
        assert(out@ =~= d@.subrange(0, i as int));
    }
    proof {
        lemma_separators_first_group(d@, first as int);
        assert(len >= first);
        assert((len - first) % 3 == 0);
    }
    while i < len
        invariant
            1 <= first <= i <= len,
            len == d@.len(),
            (len - i) % 3 == 0,
            out@ == with_separators(d@.subrange(0, i as int)),
        decreases len - i,
    {
        let ghost prev = out@;
        out.push(46u8);
        out.push(d[i]);
        out.push(d[i + 1]);
        out.push(d[i + 2]);
        proof {
            let s = d@.subrange(0, i + 3);
            assert(s.subrange(0, s.len() - 3) =~= d@.subrange(0, i as int));
            assert(s.subrange(s.len() - 3, s.len() as int) =~= seq![d@[i as int], d@[i + 1], d@[i + 2]]);
            assert(s.len() > 3);
            assert(with_separators(s) == with_separators(d@.subrange(0, i as int)) + seq![46u8]
                + seq![d@[i as int], d@[i + 1], d@[i + 2]]);
            assert(out@ =~= prev + seq![46u8] + seq![d@[i as int], d@[i + 1], d@[i + 2]]);
        }
        i = i + 3;
    }
    assert(d@.subrange(0, len as int) =~= d@);
    out
}

proof fn lemma_separators_first_group(d: Seq<u8>, first: int)
    requires
        1 <= first <= 3,
        d.len() > 0,
        first == (if d.len() % 3 == 0 { 3 } else { d.len() % 3 }),
    ensures
        with_separators(d.subrange(0, if first <= d.len() { first } else { d.len() as int }))
            == d.subrange(0, if first <= d.len() { first } else { d.len() as int }),
{
}

} // verus!
