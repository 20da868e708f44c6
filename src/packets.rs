use vstd::prelude::*;
use crate::alex::{filter1_of, hpf_bits_of};
use crate::bytes::{
    from_be16, pcm16_of, put_be16, put_be32, sample24_bytes, sample24_of, write_be16, write_be32,
    SAMPLE24_MAX, SAMPLE24_MIN,
};
use crate::phase::{hardware_frequency, phase_word_of};
use crate::radio::{Adc, Keyer, Radio};
use crate::receiver::{Receiver, MODE_CWL, MODE_CWU};
use crate::transmitter::IQ_BUFFER_SIZE;

verus! {

/// Sizes of the outbound packets.
pub const GENERAL_PACKET_SIZE: usize = 60;
pub const HIGH_PRIORITY_PACKET_SIZE: usize = 1444;
pub const RECEIVE_SPECIFIC_PACKET_SIZE: usize = 1444;
pub const TRANSMIT_SPECIFIC_PACKET_SIZE: usize = 60;
pub const TX_IQ_PACKET_SIZE: usize = 1444;

/// `n` zero bytes.
pub open spec fn zeros(n: nat) -> Seq<u8> {
    Seq::new(n, |i: int| 0u8)
}

fn zero_buffer(n: usize) -> (r: Vec<u8>)
    ensures
        r@ == zeros(n as nat),
{
    let v = vec![0u8; n];
    assert(v@ =~= zeros(n as nat));
    v
}

/// The general packet: its sequence number, wideband off (byte 23), phase words
/// rather than frequencies (37), the hardware timer (38), the PA (58), and the
/// ALEX boards enabled (59): both with two ADCs, else the first.
#[verifier::opaque]
pub open spec fn general_packet(seq: u32, adcs: u8) -> Seq<u8> {
    put_be32(zeros(GENERAL_PACKET_SIZE as nat), 0, seq).update(23, 0x00).update(37, 0x08).update(
        38,
        0x01,
    ).update(58, 0x01).update(59, if adcs == 2 { 0x03u8 } else { 0x01u8 })
}

/// Encodes the general packet.
pub fn encode_general(seq: u32, adcs: u8) -> (r: Vec<u8>)
    ensures
        r@ == general_packet(seq, adcs),
        r@.len() == GENERAL_PACKET_SIZE,
{
    reveal(general_packet);
    let mut buf = zero_buffer(GENERAL_PACKET_SIZE);
    write_be32(&mut buf, 0, seq);
    buf[23] = 0x00;
    buf[37] = 0x08;
    buf[38] = 0x01;
    buf[58] = 0x01;
    buf[59] = if adcs == 2 { 0x03 } else { 0x01 };
    buf
}

/// The phase word of a receiver's tuned frequency, offset by its band's LO.
pub open spec fn rx_phase(rx: Receiver) -> u32 {
    phase_word_of(
        hardware_frequency(rx.frequency as int, rx.band_spec().lo as int, rx.band_spec().lo_error as int),
    ) as u32
}

/// The receiver whose VFO the transmitter follows: the second when split.
pub open spec fn tx_receiver(r: Radio) -> Receiver {
    if r.split {
        r.receiver@[1]
    } else {
        r.receiver@[0]
    }
}

/// The phase word of the transmit frequency.
pub open spec fn tx_phase(r: Radio) -> u32 {
    let rx = tx_receiver(r);
    phase_word_of(
        hardware_frequency(rx.listen_frequency(), rx.band_spec().lo as int, rx.band_spec().lo_error as int),
    ) as u32
}

/// The transmit power byte: the drive scaled to 255 and capped there while
/// transmitting, 0 otherwise.
pub open spec fn power_byte(r: Radio) -> u8 {
    if r.transmitting() {
        let p = r.transmitter.drive * 255 / 100;
        if p > 255 {
            255u8
        } else {
            p as u8
        }
    } else {
        0u8
    }
}

/// The first filter-bank word of the high-priority packet.
pub open spec fn filter1_word(r: Radio) -> u32 {
    filter1_of(
        r.transmitting(),
        tx_receiver(r).band_spec().tx_antenna,
        r.receiver@[0].band_spec().antenna,
        r.receiver@[0].frequency as int,
    )
}

/// The second filter-bank word: the high-pass filter for the second receiver.
pub open spec fn filter2_word(r: Radio) -> u16 {
    hpf_bits_of(r.receiver@[1].frequency as int) as u16
}

/// The attenuation byte: 0 while transmitting, else that of the current band of
/// the second receiver when it is the active one, of the first otherwise.
pub open spec fn attenuation_byte(r: Radio) -> u8 {
    if r.transmitting() {
        0u8
    } else if r.receiver@[1].active {
        r.receiver@[1].band_spec().attenuation
    } else {
        r.receiver@[0].band_spec().attenuation
    }
}

/// The high-priority packet: sequence, run and transmit flags (byte 4), the two
/// receivers' phase words (from byte 9), the transmit phase word (329), the power
/// (345), the filter words (1430 and 1432) and the attenuation (1442, 1443).
#[verifier::opaque]
pub open spec fn high_priority_packet(seq: u32, r: Radio) -> Seq<u8> {
    let s0 = put_be32(zeros(HIGH_PRIORITY_PACKET_SIZE as nat), 0, seq).update(
        4,
        if r.transmitting() { 0x03u8 } else { 0x01u8 },
    );
    let s1 = put_be32(put_be32(s0, 9, rx_phase(r.receiver@[0])), 13, rx_phase(r.receiver@[1]));
    let s2 = put_be32(s1, 329, tx_phase(r)).update(345, power_byte(r));
    let s3 = put_be16(put_be32(s2, 1432, filter1_word(r)), 1430, filter2_word(r));
    s3.update(1443, attenuation_byte(r)).update(1442, attenuation_byte(r))
}

fn receiver_phase(rx: &Receiver) -> (r: u32)
    requires
        rx.wf(),
    ensures
        r == rx_phase(*rx),
{
    let b = &rx.band_info[rx.band];
    crate::phase::tuned_phase_word(rx.frequency, b.lo, b.lo_error)
}

/// Encodes the high-priority packet from the radio state.
pub fn encode_high_priority(seq: u32, r: &Radio) -> (out: Vec<u8>)
    requires
        r.wf(),
    ensures
        out@ == high_priority_packet(seq, *r),
        out@.len() == HIGH_PRIORITY_PACKET_SIZE,
{
    reveal(high_priority_packet);
    let transmitting = r.is_transmitting();
    let rx0 = &r.receiver[0];
    let rx1 = &r.receiver[1];
    let mut buf = zero_buffer(HIGH_PRIORITY_PACKET_SIZE);
    write_be32(&mut buf, 0, seq);
    buf[4] = if transmitting { 0x03 } else { 0x01 };
    write_be32(&mut buf, 9, receiver_phase(rx0));
    write_be32(&mut buf, 13, receiver_phase(rx1));

    let txrx = if r.split { rx1 } else { rx0 };
    let tb = &txrx.band_info[txrx.band];
    let f = if txrx.ctun { txrx.ctun_frequency } else { txrx.frequency };
    write_be32(&mut buf, 329, crate::phase::tuned_phase_word(f, tb.lo, tb.lo_error));

    let power: u8 = if transmitting {
        let p = r.transmitter.drive as u64 * 255 / 100;
        if p > 255 { 255 } else { p as u8 }
    } else {
        0
    };
    buf[345] = power;

    let f1 = crate::alex::filter1(
        transmitting,
        tb.tx_antenna,
        rx0.band_info[rx0.band].antenna,
        rx0.frequency,
    );
    write_be32(&mut buf, 1432, f1);
    write_be16(&mut buf, 1430, crate::alex::filter2(rx1.frequency));

    let attenuation: u8 = if transmitting {
        0
    } else if rx1.active {
        rx1.band_info[rx1.band].attenuation
    } else {
        rx0.band_info[rx0.band].attenuation
    };
    buf[1443] = attenuation;
    buf[1442] = attenuation;
    buf
}

/// 2 to the power `i`.
pub open spec fn pow2_of(i: nat) -> nat
    decreases i,
{
    if i == 0 {
        1
    } else {
        2 * pow2_of((i - 1) as nat)
    }
}

/// The mask with bit `i` set for each ADC whose dither (or, with `random`, whose
/// random) setting is on.
pub open spec fn adc_mask(adc: Seq<Adc>, random: bool) -> nat
    decreases adc.len(),
{
    if adc.len() == 0 {
        0
    } else {
        let on = if random { adc.last().random } else { adc.last().dither };
        adc_mask(adc.drop_last(), random) + if on { pow2_of((adc.len() - 1) as nat) } else { 0 }
    }
}

/// Computes an ADC bit mask.
fn adc_bits(adc: &Vec<Adc>, random: bool) -> (r: u8)
    requires
        adc@.len() <= 8,
    ensures
        r == adc_mask(adc@, random),
{
    let mut mask: u16 = 0;
    let mut bit: u16 = 1;
    let mut i: usize = 0;
    while i < adc.len()
        invariant
            i <= adc@.len() <= 8,
            bit == pow2_of(i as nat),
            mask == adc_mask(adc@.subrange(0, i as int), random),
            mask < bit,
        decreases adc@.len() - i,
    {
        proof {
            let s = adc@.subrange(0, i + 1);
            assert(s.drop_last() =~= adc@.subrange(0, i as int));
            assert(s.last() == adc@[i as int]);
            lemma_pow2_small(i as nat);
        }
        let a = adc[i];
        let on = if random { a.random } else { a.dither };
        if on {
            mask = mask + bit;
        }
        bit = bit * 2;
        i = i + 1;
    }
    assert(adc@.subrange(0, adc@.len() as int) =~= adc@);
    proof {
        lemma_pow2_small(i as nat);
    }
    mask as u8
}

proof fn lemma_pow2_small(i: nat)
    requires
        i <= 8,
    ensures
        pow2_of(i) <= 256,
    decreases i,
{
    reveal_with_fuel(pow2_of, 9);
}

/// One receiver's fields of the receive-specific packet: ADC index, sample rate
/// in kHz and 24 bits per sample, from byte `17 + 6 * i`.
pub open spec fn put_receiver_fields(s: Seq<u8>, i: int, rx: Receiver) -> Seq<u8> {
    put_be16(s.update(17 + 6 * i, rx.adc), 18 + 6 * i, (rx.sample_rate / 1000) as u16).update(
        22 + 6 * i,
        24,
    )
}

/// The receive-specific packet: sequence, ADC count (byte 4), dither and random
/// masks (5, 6), both receivers enabled (7), and each receiver's fields.
#[verifier::opaque]
pub open spec fn receive_specific_packet(seq: u32, r: Radio) -> Seq<u8> {
    let s0 = put_be32(zeros(RECEIVE_SPECIFIC_PACKET_SIZE as nat), 0, seq).update(
        4,
        r.adc@.len() as u8,
    ).update(5, adc_mask(r.adc@, false) as u8).update(6, adc_mask(r.adc@, true) as u8).update(
        7,
        0x03,
    );
    put_receiver_fields(put_receiver_fields(s0, 0, r.receiver@[0]), 1, r.receiver@[1])
}

fn write_receiver_fields(buf: &mut Vec<u8>, i: usize, rx: &Receiver)
    requires
        i < 2,
        old(buf)@.len() == RECEIVE_SPECIFIC_PACKET_SIZE,
        rx.wf(),
    ensures
        final(buf)@ == put_receiver_fields(old(buf)@, i as int, *rx),
{
    let at = 17 + 6 * i;
    buf[at] = rx.adc;
    write_be16(buf, at + 1, (rx.sample_rate / 1000) as u16);
    buf[at + 5] = 24;
}

/// Encodes the receive-specific packet.
pub fn encode_receive_specific(seq: u32, r: &Radio) -> (out: Vec<u8>)
    requires
        r.wf(),
    ensures
        out@ == receive_specific_packet(seq, *r),
        out@.len() == RECEIVE_SPECIFIC_PACKET_SIZE,
{
    reveal(receive_specific_packet);
    let mut buf = zero_buffer(RECEIVE_SPECIFIC_PACKET_SIZE);
    write_be32(&mut buf, 0, seq);
    buf[4] = r.adc.len() as u8;
    buf[5] = adc_bits(&r.adc, false);
    buf[6] = adc_bits(&r.adc, true);
    buf[7] = 0x03;
    write_receiver_fields(&mut buf, 0, &r.receiver[0]);
    write_receiver_fields(&mut buf, 1, &r.receiver[1]);
    buf
}

/// The CW and keyer flags of the transmit-specific packet (byte 5).
pub open spec fn keyer_flags(r: Radio) -> u8 {
    let cw = r.transmitter.mode == MODE_CWL || r.transmitter.mode == MODE_CWU;
    (if r.cw_keyer_sidetone_volume != 0 { 0x01u8 } else { 0x00u8 }) | (if cw {
        0x02u8
    } else {
        0x00u8
    }) | (if r.cw_keys_reversed { 0x04u8 } else { 0x00u8 }) | (if r.cw_keyer_mode == Keyer::ModeA {
        0x08u8
    } else {
        0x00u8
    }) | (if r.cw_keyer_mode == Keyer::ModeB { 0x28u8 } else { 0x00u8 }) | (
    if r.cw_keyer_sidetone_volume != 0 {
        0x10u8
    } else {
        0x00u8
    }) | (if r.cw_keyer_spacing != 0 { 0x40u8 } else { 0x00u8 }) | (if r.cw_breakin {
        0x80u8
    } else {
        0x00u8
    })
}

/// The microphone routing flags of the transmit-specific packet (byte 50).
pub open spec fn mic_flags(r: Radio) -> u8 {
    (if r.line_in { 0x01u8 } else { 0x00u8 }) | (if r.mic_boost { 0x02u8 } else { 0x00u8 }) | (
    if !r.mic_ptt {
        0x04u8
    } else {
        0x00u8
    }) | (if r.mic_bias_ring { 0x08u8 } else { 0x00u8 }) | (if r.mic_bias_enable {
        0x10u8
    } else {
        0x00u8
    }) | (if r.mic_saturn_xlr { 0x20u8 } else { 0x00u8 })
}

/// The transmit-specific packet: sequence, one DAC (byte 4), keyer flags (5),
/// sidetone volume and frequency (6..8), keyer speed, weight and hang time
/// (9..12), microphone flags (50) and line-in gain (51).
#[verifier::opaque]
pub open spec fn transmit_specific_packet(seq: u32, r: Radio) -> Seq<u8> {
    let s0 = put_be32(zeros(TRANSMIT_SPECIFIC_PACKET_SIZE as nat), 0, seq).update(4, 1).update(
        5,
        keyer_flags(r),
    ).update(6, r.cw_keyer_sidetone_volume);
    let s1 = put_be16(s0, 7, r.cw_keyer_sidetone_frequency).update(9, r.cw_keyer_speed).update(
        10,
        r.cw_keyer_weight,
    );
    put_be16(s1, 11, r.cw_keyer_hang_time).update(50, mic_flags(r)).update(
        51,
        r.transmitter.lineingain,
    )
}

/// Encodes the transmit-specific packet.
pub fn encode_transmit_specific(seq: u32, r: &Radio) -> (out: Vec<u8>)
    ensures
        out@ == transmit_specific_packet(seq, *r),
        out@.len() == TRANSMIT_SPECIFIC_PACKET_SIZE,
{
    reveal(transmit_specific_packet);
    let mut buf = zero_buffer(TRANSMIT_SPECIFIC_PACKET_SIZE);
    write_be32(&mut buf, 0, seq);
    buf[4] = 1;
    let cw = r.transmitter.mode == MODE_CWL || r.transmitter.mode == MODE_CWU;
    buf[5] = (if r.cw_keyer_sidetone_volume != 0 { 0x01u8 } else { 0x00u8 }) | (if cw {
        0x02u8
    } else {
        0x00u8
    }) | (if r.cw_keys_reversed { 0x04u8 } else { 0x00u8 }) | (if r.cw_keyer_mode == Keyer::ModeA {
        0x08u8
    } else {
        0x00u8
    }) | (if r.cw_keyer_mode == Keyer::ModeB { 0x28u8 } else { 0x00u8 }) | (
    if r.cw_keyer_sidetone_volume != 0 {
        0x10u8
    } else {
        0x00u8
    }) | (if r.cw_keyer_spacing != 0 { 0x40u8 } else { 0x00u8 }) | (if r.cw_breakin {
        0x80u8
    } else {
        0x00u8
    });
    buf[6] = r.cw_keyer_sidetone_volume;
    write_be16(&mut buf, 7, r.cw_keyer_sidetone_frequency);
    buf[9] = r.cw_keyer_speed;
    buf[10] = r.cw_keyer_weight;
    write_be16(&mut buf, 11, r.cw_keyer_hang_time);
    buf[50] = (if r.line_in { 0x01u8 } else { 0x00u8 }) | (if r.mic_boost {
        0x02u8
    } else {
        0x00u8
    }) | (if !r.mic_ptt { 0x04u8 } else { 0x00u8 }) | (if r.mic_bias_ring {
        0x08u8
    } else {
        0x00u8
    }) | (if r.mic_bias_enable { 0x10u8 } else { 0x00u8 }) | (if r.mic_saturn_xlr {
        0x20u8
    } else {
        0x00u8
    });
    buf[51] = r.transmitter.lineingain;
    buf
}

/// The bytes of 24-bit samples, one after another, most significant first.
pub open spec fn iq_payload(samples: Seq<i32>) -> Seq<u8>
    decreases samples.len(),
{
    if samples.len() == 0 {
        Seq::empty()
    } else {
        iq_payload(samples.drop_last()) + sample24_bytes(samples.last() as int)
    }
}

/// Whether every value fits in 24 bits.
pub open spec fn all_24bit(samples: Seq<i32>) -> bool {
    forall|k: int| 0 <= k < samples.len() ==> SAMPLE24_MIN <= #[trigger] samples[k] <= SAMPLE24_MAX
}

/// The transmit-IQ packet: sequence, then the 240 pairs as 24-bit I and Q.
#[verifier::opaque]
pub open spec fn tx_iq_packet(seq: u32, samples: Seq<i32>) -> Seq<u8> {
    put_be32(zeros(4), 0, seq) + iq_payload(samples)
}

pub proof fn lemma_iq_payload_len(samples: Seq<i32>)
    ensures
        iq_payload(samples).len() == 3 * samples.len(),
    decreases samples.len(),
{
    if samples.len() > 0 {
        lemma_iq_payload_len(samples.drop_last());
    }
}

/// Encodes a transmit-IQ packet from 240 interleaved pairs of 24-bit samples.
pub fn encode_tx_iq(seq: u32, samples: &Vec<i32>) -> (out: Vec<u8>)
    requires
        samples@.len() == 2 * IQ_BUFFER_SIZE,
        all_24bit(samples@),
    ensures
        out@ == tx_iq_packet(seq, samples@),
        out@.len() == TX_IQ_PACKET_SIZE,
{
    reveal(tx_iq_packet);
    let mut buf = zero_buffer(4);
    write_be32(&mut buf, 0, seq);
    let ghost header = buf@;
    let mut k: usize = 0;
    while k < samples.len()
        invariant
            k <= samples@.len(),
            all_24bit(samples@),
            buf@ == header + iq_payload(samples@.subrange(0, k as int)),
        decreases samples@.len() - k,
    {
        let (b0, b1, b2) = crate::bytes::encode_24bit(samples[k]);
        buf.push(b0);
        buf.push(b1);
        buf.push(b2);
        proof {
            let s = samples@.subrange(0, k + 1);
            assert(s.drop_last() =~= samples@.subrange(0, k as int));
            assert(s.last() == samples@[k as int]);
            assert(buf@ =~= header + iq_payload(s));
        }
        k = k + 1;
    }
    assert(samples@.subrange(0, samples@.len() as int) =~= samples@);
    proof {
        lemma_iq_payload_len(samples@);
    }
    buf
}

/// A receiver-audio packet: the remote-audio buffer with the sequence number
/// in its first four bytes.
pub fn encode_audio(seq: u32, buffer: &Vec<u8>) -> (out: Vec<u8>)
    requires
        buffer@.len() >= 4,
    ensures
        out@ == put_be32(buffer@, 0, seq),
{
    let mut out = buffer.clone();
    assert(out@ =~= buffer@);
    write_be32(&mut out, 0, seq);
    out
}

/// Telemetry that a high-priority status packet carries.
#[derive(PartialEq, Eq, Structural, Clone, Copy, Debug)]
pub struct Telemetry {
    pub ptt: bool,
    pub dot: bool,
    pub dash: bool,
    pub pll_locked: bool,
    pub forward_power: u16,
    pub reverse_power: u16,
    pub supply_volts: u16,
}

/// Bytes a high-priority status packet needs: its last field ends at byte 50.
pub const STATUS_PACKET_MIN: usize = 51;

/// The telemetry of a status packet: PTT, dot and dash are bits 0..2 of byte 4,
/// PLL lock bit 2 of byte 5; forward power, reverse power and supply voltage are
/// big-endian at bytes 14, 22 and 49.
pub open spec fn telemetry_of(d: Seq<u8>) -> Telemetry {
    Telemetry {
        ptt: d[4] % 2 == 1,
        dot: (d[4] / 2) % 2 == 1,
        dash: (d[4] / 4) % 2 == 1,
        pll_locked: (d[5] / 4) % 2 == 1,
        forward_power: from_be16(d[14], d[15]) as u16,
        reverse_power: from_be16(d[22], d[23]) as u16,
        supply_volts: from_be16(d[49], d[50]) as u16,
    }
}

/// Decodes a high-priority status packet; one too short for its fields is
/// dropped.
pub fn decode_status(d: &Vec<u8>) -> (r: Option<Telemetry>)
    ensures
        r is Some <==> d@.len() >= STATUS_PACKET_MIN,
        r is Some ==> r->0 == telemetry_of(d@),
{
    if d.len() < STATUS_PACKET_MIN {
        return None;
    }
    Some(Telemetry {
        ptt: d[4] % 2 == 1,
        dot: (d[4] / 2) % 2 == 1,
        dash: (d[4] / 4) % 2 == 1,
        pll_locked: (d[5] / 4) % 2 == 1,
        forward_power: crate::bytes::read_be16(d[14], d[15]),
        reverse_power: crate::bytes::read_be16(d[22], d[23]),
        supply_volts: crate::bytes::read_be16(d[49], d[50]),
    })
}

/// Microphone samples per mic/line packet, after a 4-byte sequence header.
pub const MIC_SAMPLES: usize = 64;
pub const MIC_HEADER_SIZE: usize = 4;

/// The samples of a mic/line packet: 64 big-endian 16-bit PCM values.
pub open spec fn mic_samples_of(d: Seq<u8>) -> Seq<i16> {
    Seq::new(MIC_SAMPLES as nat, |k: int| pcm16_of(d[4 + 2 * k], d[5 + 2 * k]) as i16)
}

/// Decodes a mic/line packet; one shorter than its 64 samples is dropped.
pub fn decode_mic_samples(d: &Vec<u8>) -> (r: Option<Vec<i16>>)
    ensures
        r is Some <==> d@.len() >= MIC_HEADER_SIZE + 2 * MIC_SAMPLES,
        r is Some ==> r->0@ == mic_samples_of(d@),
{
    if d.len() < MIC_HEADER_SIZE + 2 * MIC_SAMPLES {
        return None;
    }
    let mut out: Vec<i16> = Vec::new();
    let mut k: usize = 0;
    while k < MIC_SAMPLES
        invariant
            k <= MIC_SAMPLES,
            d@.len() >= MIC_HEADER_SIZE + 2 * MIC_SAMPLES,
            out@ == mic_samples_of(d@).subrange(0, k as int),
        decreases MIC_SAMPLES - k,
    {
        let at = MIC_HEADER_SIZE + 2 * k;
        out.push(crate::bytes::decode_pcm16(d[at], d[at + 1]));
        assert(out@ =~= mic_samples_of(d@).subrange(0, k + 1));
        k = k + 1;
    }
    assert(out@ =~= mic_samples_of(d@));
    Some(out)
}

/// Bytes before the samples of a receiver IQ packet; the sample count is the
/// big-endian value at bytes 14 and 15.
pub const IQ_HEADER_SIZE: usize = 16;

/// The number of IQ pairs a receiver IQ packet declares.
pub open spec fn iq_count_of(d: Seq<u8>) -> int {
    from_be16(d[14], d[15])
}

/// Whether a receiver IQ packet holds all the pairs it declares.
pub open spec fn iq_packet_complete(d: Seq<u8>) -> bool {
    d.len() >= IQ_HEADER_SIZE && d.len() >= IQ_HEADER_SIZE + 6 * iq_count_of(d)
}

/// The samples of a receiver IQ packet, interleaved I then Q, each 24 bits.
pub open spec fn iq_samples_of(d: Seq<u8>) -> Seq<i32> {
    Seq::new(
        (2 * iq_count_of(d)) as nat,
        |k: int| sample24_of(d[16 + 3 * k], d[17 + 3 * k], d[18 + 3 * k]) as i32,
    )
}

/// Decodes a receiver IQ packet; one shorter than its declared sample count is
/// dropped.
pub fn decode_iq_samples(d: &Vec<u8>) -> (r: Option<Vec<i32>>)
    ensures
        r is Some <==> iq_packet_complete(d@),
        r is Some ==> r->0@ == iq_samples_of(d@),
        r is Some ==> all_24bit(r->0@),
{
    if d.len() < IQ_HEADER_SIZE {
        return None;
    }
    let count = crate::bytes::read_be16(d[14], d[15]) as usize;
    if d.len() < IQ_HEADER_SIZE + 6 * count {
        return None;
    }
    let mut out: Vec<i32> = Vec::new();
    let mut k: usize = 0;
    while k < 2 * count
        invariant
            k <= 2 * count,
            count == iq_count_of(d@),
            d@.len() >= IQ_HEADER_SIZE + 6 * count,
            out@ == iq_samples_of(d@).subrange(0, k as int),
            all_24bit(out@),
        decreases 2 * count - k,
    {
        let at = IQ_HEADER_SIZE + 3 * k;
        out.push(crate::bytes::decode_24bit(d[at], d[at + 1], d[at + 2]));
        assert(out@ =~= iq_samples_of(d@).subrange(0, k + 1));
        k = k + 1;
    }
    assert(out@ =~= iq_samples_of(d@));
    Some(out)
}

/// The filter words and the attenuation byte of the high-priority packet are
/// derived from the tuned frequencies, the antenna and attenuation settings and
/// the transmit state alone: two radio states that agree on those give the
/// same words, however often they are derived.
pub proof fn lemma_filter_derivation_deterministic(a: Radio, b: Radio)
    requires
        a.wf(),
        b.wf(),
        a.transmitting() == b.transmitting(),
        a.split == b.split,
        a.receiver@[0].frequency == b.receiver@[0].frequency,
        a.receiver@[1].frequency == b.receiver@[1].frequency,
        a.receiver@[1].active == b.receiver@[1].active,
        a.receiver@[0].band_spec() == b.receiver@[0].band_spec(),
        a.receiver@[1].band_spec() == b.receiver@[1].band_spec(),
    ensures
        filter1_word(a) == filter1_word(b),
        filter2_word(a) == filter2_word(b),
        attenuation_byte(a) == attenuation_byte(b),
{
}

/// A transmit-IQ packet holds the 4-byte sequence number and three bytes per
/// sample; with 240 pairs it is 1444 bytes long.
pub proof fn lemma_tx_iq_packet_len(seq: u32, samples: Seq<i32>)
    ensures
        tx_iq_packet(seq, samples).len() == 4 + 3 * samples.len(),
        samples.len() == 2 * IQ_BUFFER_SIZE ==> tx_iq_packet(seq, samples).len()
            == TX_IQ_PACKET_SIZE,
{
    reveal(tx_iq_packet);
    lemma_iq_payload_len(samples);
}

/// Where the high-priority packet carries what the receivers are tuned to and
/// the filter words: the first receiver's phase word at bytes 9..12, the second's
/// at 13..16, the transmit phase word at 329..332, the first filter word at
/// 1432..1435 and the second at 1430..1431, all big-endian.
pub proof fn lemma_high_priority_layout(seq: u32, r: Radio)
    ensures
        high_priority_packet(seq, r).len() == HIGH_PRIORITY_PACKET_SIZE,
        high_priority_packet(seq, r).subrange(9, 13) == crate::bytes::be32(rx_phase(r.receiver@[0])),
        high_priority_packet(seq, r).subrange(13, 17) == crate::bytes::be32(rx_phase(r.receiver@[1])),
        high_priority_packet(seq, r).subrange(329, 333) == crate::bytes::be32(tx_phase(r)),
        high_priority_packet(seq, r).subrange(1432, 1436) == crate::bytes::be32(filter1_word(r)),
        high_priority_packet(seq, r).subrange(1430, 1432) == crate::bytes::be16(filter2_word(r)),
{
    reveal(high_priority_packet);
    let p = high_priority_packet(seq, r);
    assert(p.subrange(9, 13) =~= crate::bytes::be32(rx_phase(r.receiver@[0])));
    assert(p.subrange(13, 17) =~= crate::bytes::be32(rx_phase(r.receiver@[1])));
    assert(p.subrange(329, 333) =~= crate::bytes::be32(tx_phase(r)));
    assert(p.subrange(1432, 1436) =~= crate::bytes::be32(filter1_word(r)));
    assert(p.subrange(1430, 1432) =~= crate::bytes::be16(filter2_word(r)));
}

} // verus!
