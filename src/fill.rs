use vstd::prelude::*;

verus! {

/// One sample into a buffer of `capacity` samples that holds `count`: the new
/// count, and whether the buffer filled (it is then emptied).
pub open spec fn fill_step(count: nat, capacity: nat) -> (nat, bool) {
    if count + 1 >= capacity {
        (0, true)
    } else {
        ((count + 1) as nat, false)
    }
}

/// `n` samples, one after another, into such a buffer: the final count, and how
/// many times the buffer filled.
pub open spec fn fill_feed(count: nat, n: nat, capacity: nat) -> (nat, nat)
    decreases n,
{
    if n == 0 {
        (count, 0)
    } else {
        let (c1, t1) = fill_step(count, capacity);
        let (c2, t2) = fill_feed(c1, (n - 1) as nat, capacity);
        (c2, t2 + if t1 { 1nat } else { 0nat })
    }
}

/// Feeding `n` samples into a buffer that holds `count < capacity` fills it
/// `(count + n) / capacity` times and leaves `(count + n) % capacity` in it.
pub proof fn lemma_fill_feed(count: nat, n: nat, capacity: nat)
    requires
        count < capacity,
    ensures
        fill_feed(count, n, capacity) == ((count + n) % capacity, (count + n) / capacity),
    decreases n,
{
    let c = capacity as int;
    if n == 0 {
        vstd::arithmetic::div_mod::lemma_fundamental_div_mod_converse(count as int, c, 0, count as int);
    } else {
        let (c1, t1) = fill_step(count, capacity);
        lemma_fill_feed(c1, (n - 1) as nat, capacity);
        let (c2, t2) = fill_feed(c1, (n - 1) as nat, capacity);
        let q = (c1 + n - 1) / c;
        let r = (c1 + n - 1) % c;
        vstd::arithmetic::div_mod::lemma_fundamental_div_mod(c1 + n - 1, c);
        assert(c * q == q * c) by (nonlinear_arith);
        assert((q + 1) * c == q * c + c) by (nonlinear_arith);
        if t1 {
            assert(count + 1 == c);
            vstd::arithmetic::div_mod::lemma_fundamental_div_mod_converse(count + n as int, c, q + 1, r);
        } else {
            vstd::arithmetic::div_mod::lemma_fundamental_div_mod_converse(count + n as int, c, q, r);
        }
    }
}

/// Feeding exactly `capacity` samples into an empty buffer fills it once and
/// leaves it empty; one sample fewer fills it no time.
pub proof fn lemma_fill_exactly_once(capacity: nat)
    requires
        capacity > 0,
    ensures
        fill_feed(0, capacity, capacity) == (0nat, 1nat),
        fill_feed(0, (capacity - 1) as nat, capacity) == ((capacity - 1) as nat, 0nat),
{
    lemma_fill_feed(0, capacity, capacity);
    lemma_fill_feed(0, (capacity - 1) as nat, capacity);
    vstd::arithmetic::div_mod::lemma_fundamental_div_mod_converse(capacity as int, capacity as int, 1, 0);
    vstd::arithmetic::div_mod::lemma_fundamental_div_mod_converse(
        capacity - 1,
        capacity as int,
        0,
        capacity - 1,
    );
}

} // verus!
