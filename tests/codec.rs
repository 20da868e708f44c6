use rusty_hpsdr::alex::{filter1, filter2, hpf_bits, lpf_bits, Antenna};
use rusty_hpsdr::bytes::{decode_24bit, decode_pcm16, encode_24bit, encode_pcm16};
use rusty_hpsdr::demux::{route, StreamKind};
use rusty_hpsdr::packets::{
    decode_iq_samples, decode_mic_samples, decode_status, encode_general, encode_tx_iq,
};
use rusty_hpsdr::phase::{phase_to_frequency, phase_word, tuned_phase_word};
use rusty_hpsdr::sequence::{SequenceCounters, Stream};

#[test]
fn phase_word_rounds_to_nearest() {
    assert_eq!(phase_word(14_250_000), 498_073_600);
    assert_eq!(phase_word(14_175_000), 495_452_160);
    assert_eq!(phase_word(13_250_000), 463_121_067);
    assert_eq!(phase_word(0), 0);
    assert_eq!(phase_word(-5), 0);
    assert_eq!(phase_word(122_880_000), u32::MAX);
}

#[test]
fn phase_word_takes_off_the_local_oscillator() {
    assert_eq!(tuned_phase_word(14_250_000, 1_000_000, 0), 463_121_067);
    assert_eq!(tuned_phase_word(14_250_000, 999_000, 1_000), 463_121_067);
}

#[test]
fn phase_round_trip_is_exact_in_whole_hz() {
    for f in [1i64, 136_000, 1_850_000, 7_074_000, 14_250_000, 50_313_000, 122_879_999] {
        assert_eq!(phase_to_frequency(phase_word(f)), f as u64);
    }
}

#[test]
fn sample24_round_trip() {
    for v in [0i32, 1, -1, 8_388_607, -8_388_608, 123_456, -654_321] {
        let (a, b, c) = encode_24bit(v);
        assert_eq!(decode_24bit(a, b, c), v);
    }
    assert_eq!(encode_24bit(-1), (0xFF, 0xFF, 0xFF));
    assert_eq!(encode_24bit(8_388_607), (0x7F, 0xFF, 0xFF));
    assert_eq!(decode_24bit(0x80, 0x00, 0x00), -8_388_608);
}

#[test]
fn pcm16_round_trip() {
    for v in [0i16, 1, -1, i16::MAX, i16::MIN, 1234, -4321] {
        let (a, b) = encode_pcm16(v);
        assert_eq!(decode_pcm16(a, b), v);
    }
    assert_eq!(encode_pcm16(-2), (0xFF, 0xFE));
}

#[test]
fn sequence_counters_count_up_and_wrap() {
    let mut c = SequenceCounters::new();
    let values: Vec<u32> = (0..5).map(|_| c.next(Stream::General)).collect();
    assert_eq!(values, vec![0, 1, 2, 3, 4]);
    assert_eq!(c.next(Stream::HighPriority), 0);
    c.tx_iq = u32::MAX - 1;
    assert_eq!(c.next(Stream::TxIq), u32::MAX - 1);
    assert_eq!(c.next(Stream::TxIq), u32::MAX);
    assert_eq!(c.next(Stream::TxIq), 0);
    assert_eq!(c.general, 5);
}

#[test]
fn filter_bits_follow_frequency_breakpoints() {
    assert_eq!(hpf_bits(1_000_000), 0x1000);
    assert_eq!(hpf_bits(1_800_000), 0x40);
    assert_eq!(hpf_bits(3_600_000), 0x20);
    assert_eq!(hpf_bits(7_100_000), 0x10);
    assert_eq!(hpf_bits(14_250_000), 0x02);
    assert_eq!(hpf_bits(28_500_000), 0x04);
    assert_eq!(hpf_bits(50_100_000), 0x08);
    assert_eq!(lpf_bits(1_000_000), 0x2000_0000);
    assert_eq!(lpf_bits(1_800_000), 0x0080_0000);
    assert_eq!(lpf_bits(3_600_000), 0x0040_0000);
    assert_eq!(lpf_bits(7_100_000), 0x0020_0000);
    assert_eq!(lpf_bits(14_250_000), 0x0010_0000);
    assert_eq!(lpf_bits(21_200_000), 0x8000_0000);
    assert_eq!(lpf_bits(28_500_000), 0x4000_0000);
    assert_eq!(lpf_bits(50_100_000), 0x2000_0000);
}

#[test]
fn filter_words_are_deterministic() {
    let a = filter1(false, Antenna::ANT1, Antenna::ANT2, 14_250_000);
    let b = filter1(false, Antenna::ANT1, Antenna::ANT2, 14_250_000);
    assert_eq!(a, b);
    assert_eq!(a, 0x0200_0000 | 0x02 | 0x0010_0000);
    assert_eq!(filter1(true, Antenna::EXT1, Antenna::ANT2, 7_100_000), 0x0800_0000 | 0x0100_0000 | 0x10 | 0x0020_0000);
    assert_eq!(filter1(false, Antenna::XVTR, Antenna::XVTR, 1_000_000), 0x900 | 0x1000 | 0x2000_0000);
    assert_eq!(filter2(3_600_000), 0x20);
    assert_eq!(filter2(3_600_000), filter2(3_600_000));
}

#[test]
fn demultiplexer_routes_by_port() {
    assert_eq!(route(1024), StreamKind::CommandResponse);
    assert_eq!(route(1025), StreamKind::HighPriorityStatus);
    assert_eq!(route(1026), StreamKind::MicLine);
    assert_eq!(route(1027), StreamKind::Wideband);
    assert_eq!(route(1035), StreamKind::ReceiverIq(0));
    assert_eq!(route(1042), StreamKind::ReceiverIq(7));
    assert_eq!(route(1043), StreamKind::Unknown);
    assert_eq!(route(80), StreamKind::Unknown);
}

#[test]
fn general_packet_layout() {
    let p = encode_general(0x0102_0304, 2);
    assert_eq!(p.len(), 60);
    assert_eq!(&p[0..4], &[1, 2, 3, 4]);
    assert_eq!(p[23], 0);
    assert_eq!(p[37], 0x08);
    assert_eq!(p[38], 0x01);
    assert_eq!(p[58], 0x01);
    assert_eq!(p[59], 0x03);
    assert_eq!(encode_general(0, 1)[59], 0x01);
}

#[test]
fn tx_iq_packet_layout() {
    let mut samples = vec![0i32; 480];
    samples[0] = 8_388_607;
    samples[1] = -8_388_608;
    samples[479] = -1;
    let p = encode_tx_iq(7, &samples);
    assert_eq!(p.len(), 1444);
    assert_eq!(&p[0..4], &[0, 0, 0, 7]);
    assert_eq!(&p[4..10], &[0x7F, 0xFF, 0xFF, 0x80, 0x00, 0x00]);
    assert_eq!(&p[1441..1444], &[0xFF, 0xFF, 0xFF]);
}

#[test]
fn status_packet_decodes_and_short_one_is_dropped() {
    let mut d = vec![0u8; 60];
    d[4] = 0b101;
    d[5] = 0b100;
    d[14] = 0x01;
    d[15] = 0x02;
    d[22] = 0x03;
    d[23] = 0x04;
    d[49] = 0x05;
    d[50] = 0x06;
    let t = decode_status(&d).unwrap();
    assert!(t.ptt && !t.dot && t.dash && t.pll_locked);
    assert_eq!(t.forward_power, 0x0102);
    assert_eq!(t.reverse_power, 0x0304);
    assert_eq!(t.supply_volts, 0x0506);
    assert!(decode_status(&vec![0u8; 50]).is_none());
}

#[test]
fn mic_packet_decodes_and_short_one_is_dropped() {
    let mut d = vec![0u8; 132];
    d[4] = 0xFF;
    d[5] = 0xFE;
    d[130] = 0x12;
    d[131] = 0x34;
    let s = decode_mic_samples(&d).unwrap();
    assert_eq!(s.len(), 64);
    assert_eq!(s[0], -2);
    assert_eq!(s[63], 0x1234);
    assert!(decode_mic_samples(&vec![0u8; 131]).is_none());
}

#[test]
fn iq_packet_decodes_and_short_one_is_dropped() {
    let mut d = vec![0u8; 16 + 12];
    d[15] = 2;
    d[16] = 0xFF;
    d[17] = 0xFF;
    d[18] = 0xFE;
    d[19] = 0x00;
    d[20] = 0x00;
    d[21] = 0x05;
    let s = decode_iq_samples(&d).unwrap();
    assert_eq!(s.len(), 4);
    assert_eq!(s[0], -2);
    assert_eq!(s[1], 5);
    d.pop();
    assert!(decode_iq_samples(&d).is_none());
    assert!(decode_iq_samples(&vec![0u8; 10]).is_none());
}
