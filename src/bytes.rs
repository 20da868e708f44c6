use vstd::prelude::*;

verus! {

/// The four bytes of `v`, most significant first.
pub open spec fn be32(v: u32) -> Seq<u8> {
    seq![
        ((v / 0x100_0000) % 256) as u8,
        ((v / 0x1_0000) % 256) as u8,
        ((v / 0x100) % 256) as u8,
        (v % 256) as u8,
    ]
}

/// `s` with the big-endian bytes of `v` written at `at`.
pub open spec fn put_be32(s: Seq<u8>, at: int, v: u32) -> Seq<u8> {
    s.update(at, be32(v)[0]).update(at + 1, be32(v)[1]).update(at + 2, be32(v)[2]).update(
        at + 3,
        be32(v)[3],
    )
}

/// Writes `v` big-endian into `buf[at..at + 4]`.
pub fn write_be32(buf: &mut Vec<u8>, at: usize, v: u32)
    requires
        at + 4 <= old(buf)@.len(),
    ensures
        final(buf)@ == put_be32(old(buf)@, at as int, v),
{
    let _n = buf.len();
    let (a1, a2, a3) = (at + 1, at + 2, at + 3);
    buf[at] = ((v / 0x100_0000) % 256) as u8;
    buf[a1] = ((v / 0x1_0000) % 256) as u8;
    buf[a2] = ((v / 0x100) % 256) as u8;
    buf[a3] = (v % 256) as u8;
}

/// The two bytes of `v`, most significant first.
pub open spec fn be16(v: u16) -> Seq<u8> {
    seq![((v / 0x100) % 256) as u8, (v % 256) as u8]
}

/// `s` with the big-endian bytes of `v` written at `at`.
pub open spec fn put_be16(s: Seq<u8>, at: int, v: u16) -> Seq<u8> {
    s.update(at, be16(v)[0]).update(at + 1, be16(v)[1])
}

/// Writes `v` big-endian into `buf[at..at + 2]`.
pub fn write_be16(buf: &mut Vec<u8>, at: usize, v: u16)
    requires
        at + 2 <= old(buf)@.len(),
    ensures
        final(buf)@ == put_be16(old(buf)@, at as int, v),
{
    let _n = buf.len();
    let a1 = at + 1;
    buf[at] = ((v / 0x100) % 256) as u8;
    buf[a1] = (v % 256) as u8;
}

/// The unsigned value of two big-endian bytes.
pub open spec fn from_be16(hi: u8, lo: u8) -> int {
    hi * 256 + lo
}

/// Reads an unsigned 16-bit value stored big-endian.
pub fn read_be16(hi: u8, lo: u8) -> (r: u16)
    ensures
        r == from_be16(hi, lo),
{
    (hi as u16) * 256 + lo as u16
}

/// A signed 16-bit PCM sample stored big-endian (two's complement).
pub open spec fn pcm16_of(hi: u8, lo: u8) -> int {
    if hi >= 128 {
        from_be16(hi, lo) - 0x1_0000
    } else {
        from_be16(hi, lo)
    }
}

/// Decodes a big-endian signed 16-bit PCM sample.
pub fn decode_pcm16(hi: u8, lo: u8) -> (r: i16)
    ensures
        r == pcm16_of(hi, lo),
{
    let u: i32 = (hi as i32) * 256 + lo as i32;
    if hi >= 128 {
        (u - 0x1_0000) as i16
    } else {
        u as i16
    }
}

/// The two's-complement bytes of a signed 16-bit sample, most significant first.
pub open spec fn pcm16_bytes(v: i16) -> Seq<u8> {
    let u: int = if v < 0 { v + 0x1_0000 } else { v as int };
    seq![(u / 256) as u8, (u % 256) as u8]
}

/// Encodes a signed 16-bit PCM sample big-endian.
pub fn encode_pcm16(v: i16) -> (r: (u8, u8))
    ensures
        seq![r.0, r.1] == pcm16_bytes(v),
{
    let u: i32 = if v < 0 { v as i32 + 0x1_0000 } else { v as i32 };
    ((u / 256) as u8, (u % 256) as u8)
}

/// Smallest and largest values of a 24-bit two's-complement sample.
pub const SAMPLE24_MIN: i32 = -0x80_0000;
pub const SAMPLE24_MAX: i32 = 0x7F_FFFF;

/// The value of a 24-bit two's-complement sample stored big-endian: bit 7 of
/// the first byte is the sign.
pub open spec fn sample24_of(b0: u8, b1: u8, b2: u8) -> int {
    let u = b0 * 0x1_0000 + b1 * 0x100 + b2;
    if b0 >= 128 {
        u - 0x100_0000
    } else {
        u
    }
}

/// Decodes a big-endian 24-bit sample, sign-extending it to 32 bits.
pub fn decode_24bit(b0: u8, b1: u8, b2: u8) -> (r: i32)
    ensures
        r == sample24_of(b0, b1, b2),
        SAMPLE24_MIN <= r <= SAMPLE24_MAX,
{
    let u: i32 = (b0 as i32) * 0x1_0000 + (b1 as i32) * 0x100 + b2 as i32;
    if b0 >= 128 {
        u - 0x100_0000
    } else {
        u
    }
}

/// The three two's-complement bytes of a 24-bit sample, most significant first.
pub open spec fn sample24_bytes(v: int) -> Seq<u8> {
    let u: int = if v < 0 { v + 0x100_0000 } else { v };
    seq![(u / 0x1_0000) as u8, ((u / 0x100) % 0x100) as u8, (u % 0x100) as u8]
}

/// Encodes a 24-bit sample as three big-endian bytes.
pub fn encode_24bit(v: i32) -> (r: (u8, u8, u8))
    requires
        SAMPLE24_MIN <= v <= SAMPLE24_MAX,
    ensures
        seq![r.0, r.1, r.2] == sample24_bytes(v as int),
{
    let u: i32 = if v < 0 { v + 0x100_0000 } else { v };
    ((u / 0x1_0000) as u8, ((u / 0x100) % 0x100) as u8, (u % 0x100) as u8)
}

/// Every 24-bit sample survives encoding and decoding unchanged.
pub proof fn lemma_sample24_round_trip(v: int)
    requires
        SAMPLE24_MIN <= v <= SAMPLE24_MAX,
    ensures
        sample24_of(sample24_bytes(v)[0], sample24_bytes(v)[1], sample24_bytes(v)[2]) == v,
{
    let u: int = if v < 0 { v + 0x100_0000 } else { v };
    assert(0 <= u < 0x100_0000);
    let b0 = u / 0x1_0000;
    let b1 = (u / 0x100) % 0x100;
    let b2 = u % 0x100;
    assert(b0 * 0x1_0000 + b1 * 0x100 + b2 == u) by (nonlinear_arith)
        requires
            0 <= u,
            b0 == u / 0x1_0000,
            b1 == (u / 0x100) % 0x100,
            b2 == u % 0x100,
    ;
    assert(b0 < 256);
    assert(b0 >= 128 <==> v < 0);
}

/// Every 16-bit PCM sample survives encoding and decoding unchanged.
pub proof fn lemma_pcm16_round_trip(v: i16)
    ensures
        pcm16_of(pcm16_bytes(v)[0], pcm16_bytes(v)[1]) == v,
{
    let u: int = if v < 0 { v + 0x1_0000 } else { v as int };
    assert(0 <= u < 0x1_0000);
    assert((u / 256) * 256 + u % 256 == u);
}

} // verus!
