use rusty_hpsdr::cat::{format_u32_with_separators, split_commands, CatMessage, CAT};
use rusty_hpsdr::discovery::{Boards, Device};
use rusty_hpsdr::midi::{MidiFunction, MidiMessage, MidiType, MIDI};
use rusty_hpsdr::radio::Radio;

fn radio() -> Radio {
    Radio::new(Device {
        address: [10, 0, 0, 2],
        mac: [0; 6],
        device: 1,
        board: Boards::Orion2,
        protocol: 2,
        adcs: 2,
        supported_receivers: 2,
    })
}

fn run(cat: &CAT, radio: &mut Radio, input: &str) -> (Vec<String>, Vec<CatMessage>) {
    let (replies, messages) = cat.parse_commands(&input.as_bytes().to_vec(), radio);
    (replies.into_iter().map(|r| String::from_utf8(r).unwrap()).collect(), messages)
}

#[test]
fn cat_new_is_stopped() {
    let mut cat = CAT::new();
    assert!(!cat.running);
    cat.running = true;
    cat.stop();
    assert!(!cat.running);
}

#[test]
fn cat_splits_commands() {
    let c = split_commands(&b" FA; ;IF;\nID ;".to_vec());
    assert_eq!(c, vec![b"FA".to_vec(), b"IF".to_vec(), b"ID".to_vec()]);
    assert!(split_commands(&b";;  ;".to_vec()).is_empty());
}

#[test]
fn cat_reports_and_sets_frequencies() {
    let cat = CAT::new();
    let mut r = radio();
    let (replies, _) = run(&cat, &mut r, "FA;FB;");
    assert_eq!(replies, vec!["FA00014175000;", "FB00014175000;"]);
    let (replies, _) = run(&cat, &mut r, "FA00007074000;FA;");
    assert_eq!(replies, vec!["", "FA00007074000;"]);
    assert_eq!(r.receiver[0].frequency, 7_074_000);
    r.receiver[1].ctun = true;
    run(&cat, &mut r, "FB00014000000;");
    assert_eq!(r.receiver[1].ctun_frequency, 14_000_000);
    assert_eq!(r.receiver[1].frequency, 14_175_000);
    let (replies, _) = run(&cat, &mut r, "FA12x;");
    assert_eq!(replies, vec!["?;"]);
}

#[test]
fn cat_information_and_identity() {
    let cat = CAT::new();
    let mut r = radio();
    let (replies, _) = run(&cat, &mut r, "ID;IF;KS;MD;VX;");
    assert_eq!(replies[0], "ID019;");
    assert_eq!(replies[1], "IF000141750001000+0000000000010000000;");
    assert_eq!(replies[2], "KS012;");
    assert_eq!(replies[3], "MD1;");
    assert_eq!(replies[4], "VXfalse;");
}

#[test]
fn cat_mox_and_unknown_commands() {
    let cat = CAT::new();
    let mut r = radio();
    let (replies, messages) = run(&cat, &mut r, "TX;AI;ZZFA;X;");
    assert_eq!(replies, vec!["", "?;", "?;", "?;"]);
    assert_eq!(messages, vec![CatMessage::UpdateMox(true)]);
    assert!(r.external_mox && r.is_transmitting());
    let (replies, messages) = run(&cat, &mut r, "IF;RX;");
    assert_eq!(&replies[0][28..29], "1");
    assert_eq!(messages, vec![CatMessage::UpdateMox(false)]);
    assert!(!r.external_mox);
}

#[test]
fn midi_control_change_steps_vfo_a() {
    let m = MIDI::new("surface".to_string());
    assert_eq!(m.functions.len(), 256);
    assert_eq!(m.decode(&vec![0xB0, 7, 70]), Some(MidiMessage::StepFrequencyA(6)));
    assert_eq!(m.decode(&vec![0xB3, 7, 60]), Some(MidiMessage::StepFrequencyA(-4)));
    assert_eq!(m.decode(&vec![0x90, 7, 127]), None);
    assert_eq!(m.decode(&vec![0x80, 7, 0]), None);
    assert_eq!(m.decode(&vec![0xB0, 7]), None);
    let mut m = m;
    m.functions[7] = MidiFunction { midi_type: MidiType::MidiWheel, midi_action: m.functions[7].midi_action };
    assert_eq!(m.decode(&vec![0xB0, 7, 70]), None);
    assert_eq!(MidiMessage::default(), MidiMessage::StepFrequencyA(0));
    assert!(MidiFunction::default().midi_type == MidiType::MidiUnknown);
}

#[test]
fn numbers_are_grouped_by_thousands() {
    assert_eq!(format_u32_with_separators(14_250_000), b"14.250.000".to_vec());
    assert_eq!(format_u32_with_separators(999), b"999".to_vec());
    assert_eq!(format_u32_with_separators(1000), b"1.000".to_vec());
    assert_eq!(format_u32_with_separators(0), b"0".to_vec());
    assert_eq!(format_u32_with_separators(u32::MAX), b"4.294.967.295".to_vec());
}

#[test]
fn watchdog_reports_a_silent_link() {
    let mut r = radio();
    assert!(r.watchdog_tick());
    assert!(r.keepalive);
    r.received = true;
    assert!(!r.watchdog_tick());
    assert!(!r.received);
}
