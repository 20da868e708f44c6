use vstd::prelude::*;

verus! {

/// The hardware's reference clock, in Hz.
pub const REFERENCE_CLOCK: u64 = 122_880_000;

/// The phase word of a frequency in Hz: `round(f * 2^32 / clock)`, clamped to
/// the `u32` range (0 below zero, all ones at or above the clock).
pub open spec fn phase_word_of(f: int) -> int {
    if f <= 0 {
        0
    } else if f >= REFERENCE_CLOCK {
        0xFFFF_FFFF
    } else {
        (f * 0x1_0000_0000 + REFERENCE_CLOCK / 2) / (REFERENCE_CLOCK as int)
    }
}

/// The frequency in Hz that a phase word stands for, rounded to the nearest Hz.
pub open spec fn frequency_of_phase(p: int) -> int {
    (p * REFERENCE_CLOCK + 0x8000_0000) / 0x1_0000_0000
}

/// The frequency that the hardware is asked to tune: the tuned frequency less the
/// band's local-oscillator offset and its calibration error.
pub open spec fn hardware_frequency(f: int, lo: int, lo_error: int) -> int {
    f - lo - lo_error
}

/// Converts a frequency in Hz to a 32-bit phase word.
pub fn phase_word(f: i64) -> (r: u32)
    ensures
        r == phase_word_of(f as int),
{
    if f <= 0 {
        0
    } else if f as u64 >= REFERENCE_CLOCK {
        0xFFFF_FFFF
    } else {
        let fu: u64 = f as u64;
        assert(fu * 0x1_0000_0000 < REFERENCE_CLOCK * 0x1_0000_0000) by (nonlinear_arith)
            requires
                fu < REFERENCE_CLOCK,
        ;
        let p: u64 = (fu * 0x1_0000_0000 + REFERENCE_CLOCK / 2) / REFERENCE_CLOCK;
        assert(p < 0x1_0000_0000) by {
            lemma_phase_in_range(fu as int);
        }
        p as u32
    }
}

proof fn lemma_phase_in_range(f: int)
    requires
        0 <= f < REFERENCE_CLOCK,
    ensures
        (f * 0x1_0000_0000 + REFERENCE_CLOCK / 2) / (REFERENCE_CLOCK as int) < 0x1_0000_0000,
{
    let c = REFERENCE_CLOCK as int;
    assert(f * 0x1_0000_0000 + c / 2 < c * 0x1_0000_0000) by (nonlinear_arith)
        requires
            0 <= f < c,
            c == 122_880_000,
    ;
    let n = f * 0x1_0000_0000 + c / 2;
    vstd::arithmetic::div_mod::lemma_fundamental_div_mod(n, c);
    let q = n / c;
    assert(q < 0x1_0000_0000) by (nonlinear_arith)
        requires
            n == c * q + n % c,
            0 <= n % c,
            n < c * 0x1_0000_0000,
            c > 0,
    ;
}

/// Converts a phase word back to a frequency in Hz, rounded to the nearest Hz.
pub fn phase_to_frequency(p: u32) -> (r: u64)
    ensures
        r == frequency_of_phase(p as int),
{
    assert((p as u64) * REFERENCE_CLOCK <= 0xFFFF_FFFF * REFERENCE_CLOCK) by (nonlinear_arith)
        requires
            p <= 0xFFFF_FFFF,
    ;
    ((p as u64) * REFERENCE_CLOCK + 0x8000_0000) / 0x1_0000_0000
}

/// Converts a tuned frequency to the phase word sent to the hardware, after the
/// band's local-oscillator offset and calibration error are taken off.
pub fn tuned_phase_word(f: i64, lo: i64, lo_error: i64) -> (r: u32)
    requires
        -0x1_0000_0000_0000 < f < 0x1_0000_0000_0000,
        -0x1_0000_0000_0000 < lo < 0x1_0000_0000_0000,
        -0x1_0000_0000_0000 < lo_error < 0x1_0000_0000_0000,
    ensures
        r == phase_word_of(hardware_frequency(f as int, lo as int, lo_error as int)),
{
    phase_word(f - lo - lo_error)
}

/// A phase word decodes to the frequency it was made from: every whole-Hz
/// frequency in the tuning range, with any local-oscillator offset and error,
/// comes back exactly (one phase-word step is under 0.03 Hz).
pub proof fn lemma_phase_round_trip(f: int, lo: int, lo_error: int)
    requires
        0 <= hardware_frequency(f, lo, lo_error) < REFERENCE_CLOCK,
    ensures
        frequency_of_phase(phase_word_of(hardware_frequency(f, lo, lo_error))) + lo + lo_error
            == f,
{
    let h = hardware_frequency(f, lo, lo_error);
    let c = REFERENCE_CLOCK as int;
    let two32: int = 0x1_0000_0000;
    let n = h * two32 + c / 2;
    let p = n / c;
    assert(p == phase_word_of(h)) by {
        if h == 0 {
            assert(n / c == 0);
        }
    }
    vstd::arithmetic::div_mod::lemma_fundamental_div_mod(n, c);
    let rem = n % c;
    assert(0 <= rem < c);
    assert(p * c == n - rem);
    // p * c lies within half a clock of h * 2^32
    let m = p * c + 0x8000_0000;
    assert(h * two32 <= m < (h + 1) * two32) by (nonlinear_arith)
        requires
            m == p * c + 0x8000_0000,
            p * c == n - rem,
            n == h * two32 + c / 2,
            0 <= rem < c,
            c == 122_880_000,
            two32 == 0x1_0000_0000,
    ;
    vstd::arithmetic::div_mod::lemma_div_pos_is_pos(m, two32);
    assert(m / two32 == h) by {
        vstd::arithmetic::div_mod::lemma_fundamental_div_mod_converse(m, two32, h, m - h * two32);
    }
}

} // verus!
