use rusty_hpsdr::discovery::{Boards, Device};
use rusty_hpsdr::engine::{Action, Protocol2};
use rusty_hpsdr::radio::{FilterBoards, Keyer, Radio, RadioModels};
use rusty_hpsdr::receiver::{AudioOutput, BandInfo, Receiver};
use rusty_hpsdr::transmitter::{mic_peak, IqStaging, Transmitter};

fn device() -> Device {
    Device {
        address: [192, 168, 1, 10],
        mac: [0, 1, 2, 3, 4, 5],
        device: 5,
        board: Boards::Saturn,
        protocol: 2,
        adcs: 2,
        supported_receivers: 2,
    }
}

fn sends(actions: &[Action]) -> Vec<(u16, Vec<u8>)> {
    actions
        .iter()
        .filter_map(|a| match a {
            Action::Send { port, data } => Some((*port, data.clone())),
            _ => None,
        })
        .collect()
}

fn iq_packet(pairs: &[(i32, i32)]) -> Vec<u8> {
    let mut d = vec![0u8; 16];
    d[14] = (pairs.len() >> 8) as u8;
    d[15] = pairs.len() as u8;
    for (i, q) in pairs {
        for v in [*i, *q] {
            let u = (v as u32) & 0xFF_FFFF;
            d.push((u >> 16) as u8);
            d.push((u >> 8) as u8);
            d.push(u as u8);
        }
    }
    d
}

#[test]
fn tune_change_reaches_the_high_priority_packet() {
    let mut radio = Radio::new(device());
    let mut engine = Protocol2::new(device());
    radio.receiver[0].frequency = 14_250_000;
    let p = engine.send_high_priority(&radio);
    assert_eq!(p.len(), 1444);
    assert_eq!(&p[9..13], &498_073_600u32.to_be_bytes());

    let band = radio.receiver[0].band;
    radio.receiver[0].band_info[band].lo = 1_000_000;
    let p = engine.send_high_priority(&radio);
    assert_eq!(&p[0..4], &[0, 0, 0, 1]);
    assert_eq!(&p[9..13], &463_121_067u32.to_be_bytes());
}

#[test]
fn high_priority_packet_fields() {
    let mut radio = Radio::new(device());
    let mut engine = Protocol2::new(device());
    let p = engine.send_high_priority(&radio);
    assert_eq!(p[4], 0x01);
    assert_eq!(p[345], 0);
    assert_eq!(&p[13..17], &phase(14_175_000));
    assert_eq!(&p[329..333], &phase(14_175_000));
    // receive antenna 1, 13 MHz high-pass, 30/20 m low-pass
    assert_eq!(&p[1432..1436], &(0x0100_0000u32 | 0x02 | 0x0010_0000).to_be_bytes());
    assert_eq!(&p[1430..1432], &[0x00, 0x02]);
    radio.mox = true;
    radio.transmitter.drive = 50;
    radio.receiver[0].band_info[7].attenuation = 12;
    let p = engine.send_high_priority(&radio);
    assert_eq!(p[4], 0x03);
    assert_eq!(p[345], 127);
    assert_eq!(p[1442], 0);
    assert_eq!(&p[1432..1436], &(0x0800_0000u32 | 0x0100_0000 | 0x02 | 0x0010_0000).to_be_bytes());
    radio.mox = false;
    radio.transmitter.drive = 200;
    let p = engine.send_high_priority(&radio);
    assert_eq!(p[345], 0);
    assert_eq!(p[1442], 12);
    assert_eq!(p[1443], 12);
}

fn phase(f: u64) -> [u8; 4] {
    ((((f << 32) + 61_440_000) / 122_880_000) as u32).to_be_bytes()
}

#[test]
fn receive_and_transmit_specific_packets() {
    let mut radio = Radio::new(device());
    let mut engine = Protocol2::new(device());
    radio.adc[1].dither = true;
    radio.adc[0].random = true;
    let p = engine.send_receive_specific(&radio);
    assert_eq!(p.len(), 1444);
    assert_eq!(p[4], 2);
    assert_eq!(p[5], 0b10);
    assert_eq!(p[6], 0b01);
    assert_eq!(p[7], 0x03);
    assert_eq!(&p[17..20], &[0, 0x01, 0x80]);
    assert_eq!(p[22], 24);
    assert_eq!(p[28], 24);

    radio.cw_keyer_mode = Keyer::ModeB;
    radio.cw_breakin = true;
    let p = engine.send_transmit_specific(&radio);
    assert_eq!(p.len(), 60);
    assert_eq!(p[4], 1);
    assert_eq!(p[5], 0x01 | 0x28 | 0x10 | 0x80);
    assert_eq!(p[6], 20);
    assert_eq!(&p[7..9], &650u16.to_be_bytes());
    assert_eq!(p[9], 12);
    assert_eq!(p[10], 30);
    assert_eq!(&p[11..13], &300u16.to_be_bytes());
    assert_eq!(p[50], 0x02 | 0x10);
}

#[test]
fn start_sends_the_configuration_packets() {
    let radio = Radio::new(device());
    let mut engine = Protocol2::new(device());
    let actions = engine.start(&radio);
    let ports: Vec<u16> = sends(&actions).iter().map(|(p, _)| *p).collect();
    assert_eq!(ports, vec![1024, 1026, 1025, 1025, 1027]);
    assert_eq!(engine.sequence.general, 1);
    assert_eq!(engine.sequence.receive_specific, 1);
}

#[test]
fn buffer_fill_triggers_exactly_once() {
    let mut rx = Receiver::new(0, BandInfo::default_table());
    let iq: Vec<i32> = (0..2 * 1023).collect();
    assert_eq!(rx.add_iq_samples(&iq).len(), 0);
    assert_eq!(rx.samples, 1023);
    let full = rx.add_iq_samples(&vec![7, 8]);
    assert_eq!(full.len(), 1);
    assert_eq!(rx.samples, 0);
    assert_eq!(full[0].len(), 2048);
    assert_eq!(full[0][2046], 7);
    assert_eq!(full[0][5], 5);

    let mut rx = Receiver::new(0, BandInfo::default_table());
    let full = rx.add_iq_samples(&vec![1; 2 * 1024]);
    assert_eq!(full.len(), 1);
    assert_eq!(rx.samples, 0);
}

#[test]
fn audio_flush_boundary() {
    let mut rx = Receiver::new(0, BandInfo::default_table());
    for k in 0..63 {
        assert!(rx.add_remote_audio(k, -k).is_none());
    }
    assert_eq!(rx.remote_audio_buffer_offset, 256);
    let full = rx.add_remote_audio(0x0102, -2).unwrap();
    assert_eq!(rx.remote_audio_buffer_offset, 4);
    assert_eq!(full.len(), 260);
    assert_eq!(&full[256..260], &[0x01, 0x02, 0xFF, 0xFE]);
    assert!(rx.add_remote_audio(1, 1).is_none());
    assert_eq!(rx.remote_audio_buffer_offset, 8);
}

#[test]
fn local_audio_follows_the_routing_mode() {
    let mut rx = Receiver::new(0, BandInfo::default_table());
    rx.audio_output = AudioOutput::Left;
    assert!(rx.add_local_audio(5, 6).is_none());
    assert_eq!(&rx.local_audio_buffer[0..2], &[5, 0]);
    rx.audio_output = AudioOutput::Right;
    rx.add_local_audio(5, 6);
    assert_eq!(&rx.local_audio_buffer[2..4], &[0, 6]);
    rx.audio_output = AudioOutput::Mute;
    rx.add_local_audio(5, 6);
    assert_eq!(&rx.local_audio_buffer[4..6], &[0, 0]);
    assert_eq!(rx.local_audio_buffer_offset, 3);
}

#[test]
fn iq_datagram_asks_for_processing_when_the_buffer_fills() {
    let mut radio = Radio::new(device());
    let mut engine = Protocol2::new(device());
    let pairs: Vec<(i32, i32)> = (0..200).map(|k| (k, -k)).collect();
    let mut processed = 0;
    for _ in 0..5 {
        let actions = engine.handle_datagram(&mut radio, 1035, &iq_packet(&pairs));
        processed += actions.iter().filter(|a| matches!(a, Action::ProcessRx { ddc: 0, .. })).count();
    }
    assert_eq!(processed, 0);
    assert_eq!(radio.receiver[0].samples, 1000);
    let actions = engine.handle_datagram(&mut radio, 1035, &iq_packet(&pairs));
    assert_eq!(actions.len(), 1);
    match &actions[0] {
        Action::ProcessRx { ddc, iq } => {
            assert_eq!(*ddc, 0);
            assert_eq!(iq.len(), 2048);
            assert_eq!(iq[2000], 0);
            assert_eq!(iq[2047], -23);
        },
        other => panic!("unexpected {:?}", other),
    }
    assert_eq!(radio.receiver[0].samples, 176);
    assert!(radio.received);
}

#[test]
fn malformed_datagrams_are_dropped() {
    let mut radio = Radio::new(device());
    let mut engine = Protocol2::new(device());
    let mut d = iq_packet(&[(1, 2), (3, 4)]);
    d.pop();
    assert!(engine.handle_datagram(&mut radio, 1035, &d).is_empty());
    assert_eq!(radio.receiver[0].samples, 0);
    assert!(engine.handle_datagram(&mut radio, 1026, &vec![0u8; 100]).is_empty());
    assert_eq!(radio.transmitter.microphone_samples, 0);
    assert!(engine.handle_datagram(&mut radio, 1025, &vec![1u8; 20]).is_empty());
    assert!(!radio.ptt);
    assert_eq!(engine.sequence.high_priority, 0);
}

#[test]
fn unknown_port_is_reported() {
    let mut radio = Radio::new(device());
    let mut engine = Protocol2::new(device());
    let actions = engine.handle_datagram(&mut radio, 9999, &vec![0u8; 10]);
    assert!(matches!(actions[..], [Action::UnknownPort { port: 9999 }]));
    assert!(engine.handle_datagram(&mut radio, 1027, &vec![0u8; 10]).is_empty());
}

#[test]
fn second_ddc_is_ignored_when_disabled() {
    let mut radio = Radio::new(device());
    let mut engine = Protocol2::new(device());
    radio.rx2_enabled = false;
    engine.handle_datagram(&mut radio, 1036, &iq_packet(&[(1, 1)]));
    assert_eq!(radio.receiver[1].samples, 0);
    radio.rx2_enabled = true;
    engine.handle_datagram(&mut radio, 1036, &iq_packet(&[(1, 1)]));
    assert_eq!(radio.receiver[1].samples, 1);
}

#[test]
fn status_change_moves_channels_and_replies() {
    let mut radio = Radio::new(device());
    let mut engine = Protocol2::new(device());
    let mut d = vec![0u8; 60];
    d[4] = 1;
    d[50] = 0x99;
    let actions = engine.handle_datagram(&mut radio, 1025, &d);
    assert!(radio.ptt);
    assert_eq!(radio.supply_volts, 0x99);
    assert_eq!(actions.len(), 2);
    match &actions[0] {
        Action::SetChannelStates { states } => {
            assert_eq!(states.len(), 3);
            assert_eq!((states[2].channel, states[2].state), (8, 1));
        },
        other => panic!("unexpected {:?}", other),
    }
    let s = sends(&actions);
    assert_eq!(s[0].0, 1027);
    assert_eq!(s[0].1[4], 0x03);
    let actions = engine.handle_datagram(&mut radio, 1025, &d);
    assert_eq!(actions.len(), 1);
    assert_eq!(sends(&actions)[0].1[0..4], [0, 0, 0, 1]);
}

#[test]
fn tx_staging_flush() {
    let mut radio = Radio::new(device());
    let mut engine = Protocol2::new(device());
    engine.sequence.tx_iq = 41;
    let iq: Vec<i32> = (0..480).map(|k| k - 240).collect();
    assert!(engine.transmit_iq(&radio, &iq).is_empty());
    assert_eq!(engine.tx_iq.offset, 0);
    radio.mox = true;
    let actions = engine.transmit_iq(&radio, &iq);
    let s = sends(&actions);
    assert_eq!(s.len(), 1);
    assert_eq!(s[0].0, 1029);
    assert_eq!(s[0].1.len(), 1444);
    assert_eq!(&s[0].1[0..4], &[0, 0, 0, 41]);
    assert_eq!(&s[0].1[4..7], &[0xFF, 0xFF, 0x10]);
    assert_eq!(engine.tx_iq.offset, 0);
    assert!(engine.transmit_iq(&radio, &vec![1, 2]).is_empty());
    assert_eq!(engine.tx_iq.offset, 1);
    assert_eq!(engine.sequence.tx_iq, 42);
}

#[test]
fn mic_frames_are_handed_to_the_dsp_engine() {
    let mut radio = Radio::new(device());
    let mut engine = Protocol2::new(device());
    let mut d = vec![0u8; 132];
    d[4] = 0x01;
    let mut frames = 0;
    for _ in 0..16 {
        let actions = engine.handle_datagram(&mut radio, 1026, &d);
        frames += actions.len();
    }
    assert_eq!(frames, 1);
    assert_eq!(radio.transmitter.microphone_samples, 0);
    radio.transmitter.local_input = true;
    assert!(engine.handle_datagram(&mut radio, 1026, &d).is_empty());
    assert_eq!(radio.transmitter.microphone_samples, 0);
    assert!(engine.handle_local_mic(&mut radio, &vec![3i16; 10]).is_empty());
    assert_eq!(radio.transmitter.microphone_samples, 10);
}

#[test]
fn receive_audio_sends_full_buffers_with_sequence_numbers() {
    let mut radio = Radio::new(device());
    let mut engine = Protocol2::new(device());
    radio.receiver[0].local_output = true;
    let audio: Vec<i16> = (0..256).map(|k| k as i16).collect();
    let actions = engine.receive_audio(&mut radio, 0, &audio);
    let s = sends(&actions);
    assert_eq!(s.len(), 2);
    assert_eq!(s[0].0, 1028);
    assert_eq!(&s[0].1[0..4], &[0, 0, 0, 0]);
    assert_eq!(&s[1].1[0..4], &[0, 0, 0, 1]);
    assert_eq!(&s[0].1[4..8], &[0, 0, 0, 1]);
    assert_eq!(radio.receiver[0].local_audio_buffer_offset, 128);
    radio.receiver[1].active = false;
    let actions = engine.receive_audio(&mut radio, 1, &audio);
    assert!(sends(&actions).is_empty());
    assert_eq!(radio.receiver[1].remote_audio_buffer_offset, 4);
}

#[test]
fn housekeeping_resends_configuration_and_applies_flags() {
    let mut radio = Radio::new(device());
    let mut engine = Protocol2::new(device());
    let flags = Protocol2::take_flags(&mut radio);
    assert!(engine.housekeeping(&radio, flags).is_empty());
    radio.keepalive = true;
    radio.transmitter.local_input = true;
    radio.transmitter.local_input_changed = true;
    radio.receiver[1].local_output_changed = true;
    radio.receiver[1].local_output_changed_to = true;
    let flags = Protocol2::take_flags(&mut radio);
    assert!(!radio.keepalive && !radio.transmitter.local_input_changed);
    assert!(radio.receiver[1].local_output && !radio.receiver[1].local_output_changed);
    let actions = engine.housekeeping(&radio, flags);
    assert_eq!(actions.len(), 7);
    assert!(matches!(actions[5], Action::OpenInput));
    assert!(matches!(actions[6], Action::OpenOutput { output: 1 }));
}

#[test]
fn radio_defaults_follow_the_board() {
    let radio = Radio::new(device());
    assert_eq!(radio.model, RadioModels::AnanG1);
    assert!(radio.mk2bpf);
    assert!(radio.filter_board == FilterBoards::ALEX);
    assert_eq!(radio.adc.len(), 2);
    assert!(!radio.is_transmitting());
    let mut d = device();
    d.board = Boards::HermesLite2;
    let radio = Radio::new(d);
    assert!(radio.filter_board == FilterBoards::N2ADR);
    assert_eq!(radio.model, RadioModels::HermesLite2);
}

#[test]
fn cw_key_transmits_only_in_cw_modes() {
    let mut radio = Radio::new(device());
    radio.dot = true;
    assert!(!radio.is_transmitting());
    radio.receiver[0].mode = 4;
    assert!(radio.is_transmitting());
    let states = radio.set_state();
    assert_eq!(states.len(), 3);
    assert_eq!((states[0].channel, states[0].state, states[0].dmp), (0, 0, 0));
}

#[test]
fn enum_numbers_round_trip() {
    for v in 0..13 {
        assert_eq!(RadioModels::from_u32(v).to_u32(), v);
    }
    assert_eq!(RadioModels::from_u32(99), RadioModels::Undefined);
    assert!(FilterBoards::from_u32(4).is_none());
    assert_eq!(FilterBoards::from_u32(3).unwrap().to_u32(), 3);
    assert!(Keyer::from_u32(3).is_none());
    assert!(Keyer::from_u32(1).unwrap() == Keyer::ModeA);
}

#[test]
fn transmitter_defaults_and_tone() {
    let tx = Transmitter::new(8, 2, Boards::Orion2);
    assert_eq!(tx.output_samples, 4096);
    assert_eq!((tx.c1, tx.c2), (5000, 80));
    assert_eq!(tx.tune_tone_frequency(), 1500);
    let tx = Transmitter::new(8, 1, Boards::Hermes);
    assert_eq!(tx.output_samples, 1024);
    assert_eq!(tx.dsp_rate, 48000);
    assert_eq!(mic_peak(&vec![3, -7, 100, -2]), 7);
    assert_eq!(mic_peak(&vec![]), 0);
    let mut s = IqStaging::new();
    assert!(s.push(1, 2).is_none());
    assert_eq!(s.offset, 1);
}

#[test]
fn receiver_offsets() {
    let mut rx = Receiver::new(1, BandInfo::default_table());
    assert_eq!(rx.subrx_channel, 17);
    assert_eq!(rx.subrx_offset(), 75_000);
    rx.mode = 3;
    rx.ctun = true;
    rx.ctun_frequency = 14_176_000;
    assert_eq!(rx.ctun_offset(), 1_200);
    assert_eq!(rx.passband(), (-100, 2_900));
    rx.sample_rate_changed(192_000);
    assert_eq!(rx.output_samples, 256);
}
