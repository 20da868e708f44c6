use vstd::prelude::*;
use crate::demux::{
    AUDIO_PORT, GENERAL_PORT, HIGH_PRIORITY_PORT, RECEIVE_SPECIFIC_PORT, TRANSMIT_SPECIFIC_PORT,
    TX_IQ_PORT,
};
use crate::discovery::Device;
use crate::packets::{
    all_24bit, general_packet, high_priority_packet, iq_packet_complete, iq_samples_of,
    mic_samples_of, receive_specific_packet, telemetry_of, transmit_specific_packet, tx_iq_packet,
    Telemetry, MIC_HEADER_SIZE, MIC_SAMPLES, STATUS_PACKET_MIN,
};
use crate::demux::{kind_of_port, StreamKind};
use crate::fill::fill_feed;
use crate::receiver::{audio_added, audio_model, audio_pair, chunk, AudioModel};
use crate::transmitter::{same_transmitter_settings, Transmitter};
use crate::bytes::put_be32;
use crate::radio::{keys_changed, same_settings, telemetry_applied, ChannelState, Radio};
use crate::receiver::Receiver;
use crate::sequence::{successor, SequenceCounters, Stream};
use crate::transmitter::{IqStaging, IQ_BUFFER_SIZE};

verus! {

/// What the engine asks of its surroundings: the socket, the DSP engine and the
/// local sound devices. The engine itself does no I/O.
#[derive(Debug)]
pub enum Action {
    /// Send a datagram to a port of the hardware.
    Send { port: u16, data: Vec<u8> },
    /// Put DSP channels into these states, in order.
    SetChannelStates { states: Vec<ChannelState> },
    /// Run a full raw-IQ buffer of a receiver through the DSP engine, then hand
    /// the audio to `receive_audio`.
    ProcessRx { ddc: usize, iq: Vec<i32> },
    /// Run a microphone frame through the DSP engine, then hand the IQ to
    /// `transmit_iq`.
    ProcessMic { frame: Vec<i16> },
    /// Play a full local audio buffer of a receiver.
    PlayLocal { rx: usize, audio: Vec<i16> },
    OpenInput,
    CloseInput,
    OpenOutput { output: usize },
    CloseOutput { output: usize },
    /// A datagram came from a port that carries no known stream.
    UnknownPort { port: u16 },
}

/// The mathematical content of an action.
pub enum Effect {
    Send { port: u16, data: Seq<u8> },
    SetChannelStates { states: Seq<ChannelState> },
    ProcessRx { ddc: usize, iq: Seq<i32> },
    ProcessMic { frame: Seq<i16> },
    PlayLocal { rx: usize, audio: Seq<i16> },
    OpenInput,
    CloseInput,
    OpenOutput { output: usize },
    CloseOutput { output: usize },
    UnknownPort { port: u16 },
}

impl View for Action {
    type V = Effect;

    open spec fn view(&self) -> Effect {
        match self {
            Action::Send { port, data } => Effect::Send { port: *port, data: data@ },
            Action::SetChannelStates { states } => Effect::SetChannelStates { states: states@ },
            Action::ProcessRx { ddc, iq } => Effect::ProcessRx { ddc: *ddc, iq: iq@ },
            Action::ProcessMic { frame } => Effect::ProcessMic { frame: frame@ },
            Action::PlayLocal { rx, audio } => Effect::PlayLocal { rx: *rx, audio: audio@ },
            Action::OpenInput => Effect::OpenInput,
            Action::CloseInput => Effect::CloseInput,
            Action::OpenOutput { output } => Effect::OpenOutput { output: *output },
            Action::CloseOutput { output } => Effect::CloseOutput { output: *output },
            Action::UnknownPort { port } => Effect::UnknownPort { port: *port },
        }
    }
}

/// The effects of a list of actions, in order.
pub open spec fn effects(a: Seq<Action>) -> Seq<Effect> {
    a.map_values(|x: Action| x@)
}

proof fn lemma_effects_push(a: Seq<Action>, x: Action)
    ensures
        effects(a.push(x)) == effects(a).push(x@),
{
    assert(effects(a.push(x)) =~= effects(a).push(x@));
}

proof fn lemma_effects_empty(a: Seq<Action>)
    requires
        a.len() == 0,
    ensures
        effects(a) == Seq::<Effect>::empty(),
{
    assert(effects(a) =~= Seq::<Effect>::empty());
}

fn push_action(out: &mut Vec<Action>, a: Action)
    ensures
        final(out)@ == old(out)@.push(a),
        effects(final(out)@) == effects(old(out)@).push(a@),
{
    out.push(a);
    proof {
        lemma_effects_push(old(out)@, a);
    }
}

/// The protocol engine of one session with a Protocol 2 unit: the sequence
/// counters of the outbound streams and the transmit-IQ staging buffer.
#[derive(Debug)]
pub struct Protocol2 {
    pub device: Device,
    pub receivers: u8,
    pub sequence: SequenceCounters,
    pub tx_iq: IqStaging,
}

/// The configuration packets sent at start and whenever the state changed:
/// general, transmit-specific, receive-specific (twice, as the hardware may
/// miss one) and high-priority.
pub open spec fn config_effects(seq: SequenceCounters, adcs: u8, r: Radio) -> Seq<Effect> {
    seq![
        Effect::Send { port: GENERAL_PORT, data: general_packet(seq.general, adcs) },
        Effect::Send {
            port: TRANSMIT_SPECIFIC_PORT,
            data: transmit_specific_packet(seq.transmit_specific, r),
        },
        Effect::Send {
            port: RECEIVE_SPECIFIC_PORT,
            data: receive_specific_packet(seq.receive_specific, r),
        },
        Effect::Send {
            port: RECEIVE_SPECIFIC_PORT,
            data: receive_specific_packet(seq.receive_specific, r),
        },
        Effect::Send { port: HIGH_PRIORITY_PORT, data: high_priority_packet(seq.high_priority, r) },
    ]
}

/// The counters after the configuration packets are sent.
pub open spec fn config_advanced(seq: SequenceCounters) -> SequenceCounters {
    seq.advanced(Stream::General).advanced(Stream::TransmitSpecific).advanced(
        Stream::ReceiveSpecific,
    ).advanced(Stream::HighPriority)
}

/// One status packet: a packet too short for its fields changes nothing and
/// asks for nothing. Otherwise the telemetry is taken in; a change of PTT, dot
/// or dash moves the DSP channels to the new transmit/receive state first; and a
/// fresh high-priority packet is always sent back.
pub open spec fn status_step(
    s0: Protocol2,
    r0: Radio,
    d: Seq<u8>,
    s1: Protocol2,
    r1: Radio,
    e: Seq<Effect>,
) -> bool {
    if d.len() < STATUS_PACKET_MIN {
        s1 == s0 && r1 == r0 && e.len() == 0
    } else {
        let t = telemetry_of(d);
        &&& telemetry_applied(r0, t, r1)
        &&& s1 == (Protocol2 { sequence: s0.sequence.advanced(Stream::HighPriority), ..s0 })
        &&& e == (if keys_changed(r0, t) {
            seq![Effect::SetChannelStates { states: r1.channel_states_spec() }]
        } else {
            Seq::<Effect>::empty()
        }) + seq![
            Effect::Send {
                port: HIGH_PRIORITY_PORT,
                data: high_priority_packet(s0.sequence.high_priority, r1),
            },
        ]
    }
}

/// Microphone samples fed to the transmitter's accumulator: `t1` is `t0` after
/// them, and each completed frame is asked to be processed, in order.
#[verifier::opaque]
pub open spec fn mic_feed(t0: Transmitter, samples: Seq<i16>, t1: Transmitter, e: Seq<Effect>) -> bool {
    let all = t0.pending_mic() + samples;
    let size = t0.microphone_buffer_size as int;
    &&& t1.wf()
    &&& (t1.microphone_samples as nat, e.len()) == fill_feed(
        t0.microphone_samples as nat,
        samples.len(),
        size as nat,
    )
    &&& forall|k: int|
        0 <= k < e.len() ==> #[trigger] e[k] == (Effect::ProcessMic { frame: chunk(all, size, k) })
    &&& t1.pending_mic() == all.subrange(size * e.len(), all.len() as int)
    &&& crate::transmitter::same_except_mic(t0, t1)
}

/// Whether the radio's own microphone feeds the transmitter: when no local
/// input is used, or while a tuning tone is generated.
pub open spec fn uses_radio_mic(r: Radio) -> bool {
    !r.transmitter.local_input || r.tune
}

/// One mic/line packet: when the radio's microphone is in use and the packet
/// holds its 64 samples, they are fed to the transmitter. The link is marked
/// as alive either way; nothing else changes.
pub open spec fn mic_step(s0: Protocol2, r0: Radio, d: Seq<u8>, s1: Protocol2, r1: Radio, e: Seq<Effect>) -> bool {
    &&& s1 == s0
    &&& same_settings(r0, r1)
    &&& r1.receiver == r0.receiver
    &&& r1.ptt == r0.ptt && r1.dot == r0.dot && r1.dash == r0.dash
    &&& r1.pll_locked == r0.pll_locked && r1.supply_volts == r0.supply_volts
    &&& r1.updated == r0.updated && r1.keepalive == r0.keepalive
    &&& r1.received
    &&& if uses_radio_mic(r0) && d.len() >= MIC_HEADER_SIZE + 2 * MIC_SAMPLES {
        mic_feed(r0.transmitter, mic_samples_of(d), r1.transmitter, e)
    } else {
        r1.transmitter == r0.transmitter && e.len() == 0
    }
}

/// Interleaved IQ samples fed to a receiver: `rx1` is `rx0` after them, and each
/// full buffer is asked to be processed by the DSP engine, in order.
#[verifier::opaque]
pub open spec fn iq_feed(rx0: Receiver, ddc: usize, iq: Seq<i32>, rx1: Receiver, e: Seq<Effect>) -> bool {
    let all = rx0.pending_iq() + iq;
    let len = 2 * rx0.buffer_size as int;
    &&& rx1.wf()
    &&& (rx1.samples as nat, e.len()) == fill_feed(
        rx0.samples as nat,
        (iq.len() / 2) as nat,
        rx0.buffer_size as nat,
    )
    &&& forall|k: int|
        0 <= k < e.len() ==> #[trigger] e[k] == (Effect::ProcessRx { ddc, iq: chunk(all, len, k) })
    &&& rx1.pending_iq() == all.subrange(len * e.len(), all.len() as int)
    &&& Receiver::same_except_iq(rx0, rx1)
}

/// Whether the IQ stream of a DDC is taken: the first always, the second when
/// it is enabled.
pub open spec fn ddc_enabled(r: Radio, ddc: usize) -> bool {
    ddc == 0 || (ddc == 1 && r.rx2_enabled)
}

/// One IQ packet of an enabled DDC: when it holds all the pairs it declares,
/// they are fed to that receiver. The link is marked as alive either way.
pub open spec fn iq_step(
    ddc: usize,
    s0: Protocol2,
    r0: Radio,
    d: Seq<u8>,
    s1: Protocol2,
    r1: Radio,
    e: Seq<Effect>,
) -> bool {
    &&& s1 == s0
    &&& same_settings(r0, r1)
    &&& r1.transmitter == r0.transmitter
    &&& r1.ptt == r0.ptt && r1.dot == r0.dot && r1.dash == r0.dash
    &&& r1.pll_locked == r0.pll_locked && r1.supply_volts == r0.supply_volts
    &&& r1.updated == r0.updated && r1.keepalive == r0.keepalive
    &&& r1.received
    &&& r1.receiver@.len() == 2
    &&& r1.receiver@[1 - ddc] == r0.receiver@[1 - ddc]
    &&& if iq_packet_complete(d) {
        iq_feed(r0.receiver@[ddc as int], ddc, iq_samples_of(d), r1.receiver@[ddc as int], e)
    } else {
        r1.receiver@[ddc as int] == r0.receiver@[ddc as int] && e.len() == 0
    }
}

/// One inbound datagram, routed by its source port.
pub open spec fn datagram_step(
    port: u16,
    s0: Protocol2,
    r0: Radio,
    d: Seq<u8>,
    s1: Protocol2,
    r1: Radio,
    e: Seq<Effect>,
) -> bool {
    match kind_of_port(port) {
        StreamKind::HighPriorityStatus => status_step(s0, r0, d, s1, r1, e),
        StreamKind::MicLine => mic_step(s0, r0, d, s1, r1, e),
        StreamKind::ReceiverIq(ddc) => if ddc_enabled(r0, ddc) {
            iq_step(ddc, s0, r0, d, s1, r1, e)
        } else {
            s1 == s0 && r1 == r0 && e.len() == 0
        },
        StreamKind::Unknown => s1 == s0 && r1 == r0 && e == seq![Effect::UnknownPort { port }],
        _ => s1 == s0 && r1 == r0 && e.len() == 0,
    }
}

/// The counter value `n` sends after `c`.
pub open spec fn counter_after(c: u32, n: int) -> u32 {
    ((c + n) % 0x1_0000_0000) as u32
}

/// Counters that agree on every stream but the transmit-IQ one.
pub open spec fn same_but_tx_iq(a: SequenceCounters, b: SequenceCounters) -> bool {
    &&& b.general == a.general && b.high_priority == a.high_priority
    &&& b.receive_specific == a.receive_specific && b.transmit_specific == a.transmit_specific
    &&& b.audio == a.audio
}

/// Transmit IQ from the DSP engine: while the radio transmits, the pairs are
/// staged and every full staging buffer goes out as one transmit-IQ packet with
/// the next sequence number; the leftover stays staged. Otherwise nothing
/// happens.
pub open spec fn tx_iq_step(s0: Protocol2, transmitting: bool, iq: Seq<i32>, s1: Protocol2, e: Seq<Effect>) -> bool {
    if !transmitting {
        s1 == s0 && e.len() == 0
    } else {
        let all = s0.tx_iq.pending() + iq;
        let len = 2 * IQ_BUFFER_SIZE as int;
        &&& s1.device == s0.device && s1.receivers == s0.receivers
        &&& (s1.tx_iq.offset as nat, e.len()) == fill_feed(
            s0.tx_iq.offset as nat,
            (iq.len() / 2) as nat,
            IQ_BUFFER_SIZE as nat,
        )
        &&& forall|k: int|
            0 <= k < e.len() ==> #[trigger] e[k] == (Effect::Send {
                port: TX_IQ_PORT,
                data: tx_iq_packet(counter_after(s0.sequence.tx_iq, k), chunk(all, len, k)),
            })
        &&& s1.tx_iq.pending() == all.subrange(len * e.len(), all.len() as int)
        &&& s1.sequence.tx_iq == counter_after(s0.sequence.tx_iq, e.len() as int)
        &&& same_but_tx_iq(s0.sequence, s1.sequence)
    }
}

/// Whether the local microphone feeds the transmitter: local input is on and
/// settled, and no tuning tone is generated.
pub open spec fn uses_local_mic(r: Radio) -> bool {
    r.transmitter.local_input && !r.transmitter.local_input_changed && !r.tune
}

/// `r1` is `r0` with the collaborators' flags read and cleared, and the
/// pending changes of the local outputs applied.
#[verifier::opaque]
pub open spec fn flags_taken(r0: Radio, r1: Radio) -> bool {
    &&& !r1.updated && !r1.keepalive
    &&& !r1.transmitter.local_input_changed
    &&& !r1.transmitter.input_device_changed
    &&& r1.receiver@[0].local_output == r0.receiver@[0].local_output_after()
    &&& r1.receiver@[1].local_output == r0.receiver@[1].local_output_after()
    &&& !r1.receiver@[0].local_output_changed
    &&& !r1.receiver@[1].local_output_changed
    &&& !r1.receiver@[0].local_output_device_changed
    &&& !r1.receiver@[1].local_output_device_changed
}

/// The flags that collaborators set for the engine, as read at the end of a
/// loop iteration.
#[derive(Clone, Copy, Debug)]
pub struct PendingFlags {
    /// Whether the state was updated or a keepalive is due.
    pub send_config: bool,
    /// Local input on, its change, its device change.
    pub input: (bool, bool, bool),
    /// For each receiver: output change, what it changes to, device change,
    /// output on.
    pub output0: (bool, bool, bool, bool),
    pub output1: (bool, bool, bool, bool),
}

/// The flags of a radio state.
pub open spec fn pending_flags_of(r: Radio) -> PendingFlags {
    PendingFlags {
        send_config: r.updated || r.keepalive,
        input: (
            r.transmitter.local_input,
            r.transmitter.local_input_changed,
            r.transmitter.input_device_changed,
        ),
        output0: (
            r.receiver@[0].local_output_changed,
            r.receiver@[0].local_output_changed_to,
            r.receiver@[0].local_output_device_changed,
            r.receiver@[0].local_output,
        ),
        output1: (
            r.receiver@[1].local_output_changed,
            r.receiver@[1].local_output_changed_to,
            r.receiver@[1].local_output_device_changed,
            r.receiver@[1].local_output,
        ),
    }
}

/// The local-input actions that pending flags ask for: open or close on a
/// change, and reopen on a change of device while local input is on.
pub open spec fn input_flag_effects(i: (bool, bool, bool)) -> Seq<Effect> {
    (if i.1 {
        if i.0 {
            seq![Effect::OpenInput]
        } else {
            seq![Effect::CloseInput]
        }
    } else {
        Seq::<Effect>::empty()
    }) + (if i.2 && i.0 {
        seq![Effect::CloseInput, Effect::OpenInput]
    } else {
        Seq::<Effect>::empty()
    })
}

/// The local-output actions of receiver `i` that pending flags ask for: open or
/// close on a change, and reopen on a change of device while output was on.
pub open spec fn output_flag_effects(o: (bool, bool, bool, bool), i: usize) -> Seq<Effect> {
    (if o.0 {
        if o.1 {
            seq![Effect::OpenOutput { output: i }]
        } else {
            seq![Effect::CloseOutput { output: i }]
        }
    } else {
        Seq::<Effect>::empty()
    }) + (if o.2 && o.3 {
        seq![Effect::CloseOutput { output: i }, Effect::OpenOutput { output: i }]
    } else {
        Seq::<Effect>::empty()
    })
}

/// The actions for one audio pair's filled buffers: a full remote buffer goes
/// out with the next audio sequence number when the receiver is active, and a
/// full local buffer is played. Returns the audio counter after them as well.
pub open spec fn audio_pair_effects(
    remote: Option<Seq<u8>>,
    local: Option<Seq<i16>>,
    active: bool,
    ddc: usize,
    seq: u32,
) -> (u32, Seq<Effect>) {
    let (seq1, sent) = if remote is Some && active {
        (successor(seq), seq![Effect::Send { port: AUDIO_PORT, data: put_be32(remote->0, 0, seq) }])
    } else {
        (seq, Seq::<Effect>::empty())
    };
    (
        seq1,
        sent + if local is Some {
            seq![Effect::PlayLocal { rx: ddc, audio: local->0 }]
        } else {
            Seq::<Effect>::empty()
        },
    )
}

/// The first `n` stereo pairs of `audio` into receiver `ddc`, one after another:
/// its audio state after them, the audio counter, and the actions, in order.
pub open spec fn audio_run(
    m: AudioModel,
    rx: Receiver,
    ddc: usize,
    seq: u32,
    audio: Seq<i16>,
    n: nat,
) -> (AudioModel, u32, Seq<Effect>)
    decreases n,
{
    if n == 0 {
        (m, seq, Seq::<Effect>::empty())
    } else {
        let (m1, s1, e1) = audio_run(m, rx, ddc, seq, audio, (n - 1) as nat);
        let (m2, fr, fl) = audio_pair(m1, rx, audio[2 * n - 2], audio[2 * n - 1]);
        let (s2, e2) = audio_pair_effects(fr, fl, rx.active, ddc, s1);
        (m2, s2, e1 + e2)
    }
}

impl Protocol2 {
    pub open spec fn wf(&self) -> bool {
        self.tx_iq.wf()
    }

    /// A new session with a discovered unit: all counters at zero, nothing staged.
    pub fn new(device: Device) -> (r: Protocol2)
        ensures
            r.wf(),
            r.device == device,
            r.receivers == 2,
            forall|s: Stream| #[trigger] r.sequence.get(s) == 0,
            r.tx_iq.offset == 0,
    {
        Protocol2 { device, receivers: 2, sequence: SequenceCounters::new(), tx_iq: IqStaging::new() }
    }

    /// The general packet, with the next general sequence number.
    pub fn send_general(&mut self) -> (r: Vec<u8>)
        ensures
            r@ == general_packet(old(self).sequence.general, old(self).device.adcs),
            *final(self) == (Protocol2 {
                sequence: old(self).sequence.advanced(Stream::General),
                ..*old(self)
            }),
    {
        let seq = self.sequence.next(Stream::General);
        crate::packets::encode_general(seq, self.device.adcs)
    }

    /// The high-priority packet for the radio state, with the next sequence number.
    pub fn send_high_priority(&mut self, radio: &Radio) -> (r: Vec<u8>)
        requires
            radio.wf(),
        ensures
            r@ == high_priority_packet(old(self).sequence.high_priority, *radio),
            *final(self) == (Protocol2 {
                sequence: old(self).sequence.advanced(Stream::HighPriority),
                ..*old(self)
            }),
    {
        let seq = self.sequence.next(Stream::HighPriority);
        crate::packets::encode_high_priority(seq, radio)
    }

    /// A receiver's remote-audio buffer as a packet, with the next audio sequence
    /// number in its header.
    pub fn send_audio(&mut self, rx: &Receiver) -> (r: Vec<u8>)
        requires
            rx.wf(),
        ensures
            r@ == put_be32(rx.remote_audio_buffer@, 0, old(self).sequence.audio),
            *final(self) == (Protocol2 {
                sequence: old(self).sequence.advanced(Stream::Audio),
                ..*old(self)
            }),
    {
        let seq = self.sequence.next(Stream::Audio);
        crate::packets::encode_audio(seq, &rx.remote_audio_buffer)
    }

    /// The receive-specific packet, with the next sequence number.
    pub fn send_receive_specific(&mut self, radio: &Radio) -> (r: Vec<u8>)
        requires
            radio.wf(),
        ensures
            r@ == receive_specific_packet(old(self).sequence.receive_specific, *radio),
            *final(self) == (Protocol2 {
                sequence: old(self).sequence.advanced(Stream::ReceiveSpecific),
                ..*old(self)
            }),
    {
        let seq = self.sequence.next(Stream::ReceiveSpecific);
        crate::packets::encode_receive_specific(seq, radio)
    }

    /// The transmit-specific packet, with the next sequence number.
    pub fn send_transmit_specific(&mut self, radio: &Radio) -> (r: Vec<u8>)
        ensures
            r@ == transmit_specific_packet(old(self).sequence.transmit_specific, *radio),
            *final(self) == (Protocol2 {
                sequence: old(self).sequence.advanced(Stream::TransmitSpecific),
                ..*old(self)
            }),
    {
        let seq = self.sequence.next(Stream::TransmitSpecific);
        crate::packets::encode_transmit_specific(seq, radio)
    }

    /// A transmit-IQ packet of 240 pairs, with the next sequence number.
    pub fn send_iq_buffer(&mut self, samples: &Vec<i32>) -> (r: Vec<u8>)
        requires
            samples@.len() == 2 * IQ_BUFFER_SIZE,
            all_24bit(samples@),
        ensures
            r@ == tx_iq_packet(old(self).sequence.tx_iq, samples@),
            r@.len() == crate::packets::TX_IQ_PACKET_SIZE,
            *final(self) == (Protocol2 {
                sequence: old(self).sequence.advanced(Stream::TxIq),
                ..*old(self)
            }),
    {
        let seq = self.sequence.next(Stream::TxIq);
        crate::packets::encode_tx_iq(seq, samples)
    }

    /// Appends the configuration packets to `out`.
    fn push_config(&mut self, radio: &Radio, out: &mut Vec<Action>)
        requires
            radio.wf(),
        ensures
            effects(final(out)@) == effects(old(out)@) + config_effects(
                old(self).sequence,
                old(self).device.adcs,
                *radio,
            ),
            *final(self) == (Protocol2 {
                sequence: config_advanced(old(self).sequence),
                ..*old(self)
            }),
    {
        let general = self.send_general();
        push_action(out, Action::Send { port: GENERAL_PORT, data: general });
        let transmit = self.send_transmit_specific(radio);
        push_action(out, Action::Send { port: TRANSMIT_SPECIFIC_PORT, data: transmit });
        let receive = self.send_receive_specific(radio);
        let again = receive.clone();
        assert(again@ =~= receive@);
        push_action(out, Action::Send { port: RECEIVE_SPECIFIC_PORT, data: receive });
        push_action(out, Action::Send { port: RECEIVE_SPECIFIC_PORT, data: again });
        let high = self.send_high_priority(radio);
        push_action(out, Action::Send { port: HIGH_PRIORITY_PORT, data: high });
        assert(effects(out@) =~= effects(old(out)@) + config_effects(
            old(self).sequence,
            old(self).device.adcs,
            *radio,
        ));
    }

    /// Starts the session: the configuration packets, once.
    pub fn start(&mut self, radio: &Radio) -> (out: Vec<Action>)
        requires
            radio.wf(),
        ensures
            effects(out@) == config_effects(old(self).sequence, old(self).device.adcs, *radio),
            *final(self) == (Protocol2 {
                sequence: config_advanced(old(self).sequence),
                ..*old(self)
            }),
    {
        let mut out: Vec<Action> = Vec::new();
        proof {
            lemma_effects_empty(out@);
        }
        self.push_config(radio, &mut out);
        assert(effects(out@) =~= config_effects(old(self).sequence, old(self).device.adcs, *radio));
        out
    }

    /// Takes in a high-priority status packet.
    pub fn handle_status(&mut self, radio: &mut Radio, data: &Vec<u8>) -> (out: Vec<Action>)
        requires
            old(radio).wf(),
        ensures
            final(radio).wf(),
            status_step(*old(self), *old(radio), data@, *final(self), *final(radio), effects(out@)),
    {
        let mut out: Vec<Action> = Vec::new();
        proof {
            lemma_effects_empty(out@);
        }
        match crate::packets::decode_status(data) {
            None => out,
            Some(t) => {
                let changed = radio.apply_telemetry(t);
                if changed {
                    let states = radio.set_state();
                    push_action(&mut out, Action::SetChannelStates { states });
                }
                let packet = self.send_high_priority(radio);
                push_action(&mut out, Action::Send { port: HIGH_PRIORITY_PORT, data: packet });
                assert(effects(out@) =~= (if changed {
                    seq![Effect::SetChannelStates { states: radio.channel_states_spec() }]
                } else {
                    Seq::<Effect>::empty()
                }) + seq![
                    Effect::Send {
                        port: HIGH_PRIORITY_PORT,
                        data: high_priority_packet(old(self).sequence.high_priority, *radio),
                    },
                ]);
                out
            },
        }
    }

    /// Feeds microphone samples to the transmitter, asking for each completed frame
    /// to be processed.
    fn feed_mic(transmitter: &mut Transmitter, samples: &Vec<i16>) -> (out: Vec<Action>)
        requires
            old(transmitter).wf(),
        ensures
            mic_feed(*old(transmitter), samples@, *final(transmitter), effects(out@)),
            final(transmitter).wf(),
    {
        reveal(mic_feed);
        let frames = transmitter.add_mic_samples(samples);
        let mut out: Vec<Action> = Vec::new();
        let mut k: usize = 0;
        let ghost all = old(transmitter).pending_mic() + samples@;
        let ghost size = old(transmitter).microphone_buffer_size as int;
        while k < frames.len()
            invariant
                k <= frames@.len(),
                out@.len() == k,
                forall|j: int| 0 <= j < frames@.len() ==> #[trigger] frames@[j]@ == chunk(all, size, j),
                forall|j: int|
                    0 <= j < k ==> #[trigger] effects(out@)[j] == (Effect::ProcessMic {
                        frame: chunk(all, size, j),
                    }),
            decreases frames@.len() - k,
        {
            let frame = frames[k].clone();
            assert(frame@ =~= frames@[k as int]@);
            push_action(&mut out, Action::ProcessMic { frame });
            k = k + 1;
        }
        out
    }

    /// Takes in a mic/line packet.
    pub fn handle_mic(&mut self, radio: &mut Radio, data: &Vec<u8>) -> (out: Vec<Action>)
        requires
            old(radio).wf(),
        ensures
            final(radio).wf(),
            mic_step(*old(self), *old(radio), data@, *final(self), *final(radio), effects(out@)),
    {
        let mut out: Vec<Action> = Vec::new();
        proof {
            lemma_effects_empty(out@);
        }
        if !radio.transmitter.local_input || radio.tune {
            match crate::packets::decode_mic_samples(data) {
                Some(samples) => {
                    out = Self::feed_mic(&mut radio.transmitter, &samples);
                },
                None => {},
            }
        }
        radio.received = true;
        out
    }

    /// Asks for each full buffer of receiver `ddc` to be processed, in order.
    fn iq_actions(ddc: usize, buffers: Vec<Vec<i32>>) -> (out: Vec<Action>)
        ensures
            effects(out@).len() == buffers@.len(),
            forall|j: int|
                0 <= j < buffers@.len() ==> #[trigger] effects(out@)[j] == (Effect::ProcessRx {
                    ddc,
                    iq: buffers@[j]@,
                }),
    {
        let mut out: Vec<Action> = Vec::new();
        let mut k: usize = 0;
        while k < buffers.len()
            invariant
                k <= buffers@.len(),
                out@.len() == k,
                forall|j: int|
                    0 <= j < k ==> #[trigger] effects(out@)[j] == (Effect::ProcessRx {
                        ddc,
                        iq: buffers@[j]@,
                    }),
            decreases buffers@.len() - k,
        {
            let buffer = buffers[k].clone();
            assert(buffer@ =~= buffers@[k as int]@);
            push_action(&mut out, Action::ProcessRx { ddc, iq: buffer });
            k = k + 1;
        }
        out
    }

    /// Feeds decoded IQ pairs to receiver `ddc`, asking for each full buffer to be
    /// processed.
    fn take_iq(radio: &mut Radio, ddc: usize, iq: &Vec<i32>) -> (out: Vec<Action>)
        requires
            old(radio).wf(),
            ddc < 2,
            iq@.len() % 2 == 0,
        ensures
            final(radio).wf(),
            same_settings(*old(radio), *final(radio)),
            final(radio).transmitter == old(radio).transmitter,
            final(radio).ptt == old(radio).ptt && final(radio).dot == old(radio).dot,
            final(radio).dash == old(radio).dash,
            final(radio).pll_locked == old(radio).pll_locked,
            final(radio).supply_volts == old(radio).supply_volts,
            final(radio).updated == old(radio).updated,
            final(radio).keepalive == old(radio).keepalive,
            final(radio).received == old(radio).received,
            final(radio).receiver@.len() == 2,
            final(radio).receiver@[1 - ddc] == old(radio).receiver@[1 - ddc],
            iq_feed(old(radio).receiver@[ddc as int], ddc, iq@, final(radio).receiver@[ddc as int], effects(out@)),
    {
        let ghost rx0 = radio.receiver@[ddc as int];
        let buffers = radio.add_iq(ddc, iq);
        let ghost full = buffers@;
        let out = Self::iq_actions(ddc, buffers);
        proof {
            reveal(iq_feed);
            let all = rx0.pending_iq() + iq@;
            let len = 2 * rx0.buffer_size as int;
            assert forall|k: int| 0 <= k < effects(out@).len() implies #[trigger] effects(
                out@,
            )[k] == (Effect::ProcessRx { ddc, iq: chunk(all, len, k) }) by {
                assert(full[k]@ == chunk(all, len, k));
            }
        }
        out
    }

    /// Takes in an IQ packet of an enabled DDC.
    pub fn handle_iq(&mut self, radio: &mut Radio, ddc: usize, data: &Vec<u8>) -> (out: Vec<Action>)
        requires
            old(radio).wf(),
            ddc < 2,
        ensures
            final(radio).wf(),
            iq_step(ddc, *old(self), *old(radio), data@, *final(self), *final(radio), effects(out@)),
    {
        let mut out: Vec<Action> = Vec::new();
        proof {
            lemma_effects_empty(out@);
        }
        match crate::packets::decode_iq_samples(data) {
            Some(iq) => {
                out = Self::take_iq(radio, ddc, &iq);
            },
            None => {},
        }
        radio.mark_received();
        out
    }

    /// Takes in one datagram from the hardware, routed by its source port.
    pub fn handle_datagram(&mut self, radio: &mut Radio, port: u16, data: &Vec<u8>) -> (out: Vec<
        Action,
    >)
        requires
            old(radio).wf(),
        ensures
            final(radio).wf(),
            datagram_step(port, *old(self), *old(radio), data@, *final(self), *final(radio), effects(out@)),
    {
        let mut out: Vec<Action> = Vec::new();
        proof {
            lemma_effects_empty(out@);
        }
        match crate::demux::route(port) {
            StreamKind::HighPriorityStatus => self.handle_status(radio, data),
            StreamKind::MicLine => self.handle_mic(radio, data),
            StreamKind::ReceiverIq(ddc) => {
                if ddc == 0 || (ddc == 1 && radio.rx2_enabled) {
                    self.handle_iq(radio, ddc, data)
                } else {
                    out
                }
            },
            StreamKind::Unknown => {
                push_action(&mut out, Action::UnknownPort { port });
                assert(effects(out@) =~= seq![Effect::UnknownPort { port }]);
                out
            },
            _ => out,
        }
    }


    /// Takes the IQ pairs that the DSP engine made of a microphone frame.
    pub fn transmit_iq(&mut self, radio: &Radio, iq: &Vec<i32>) -> (out: Vec<Action>)
        requires
            old(self).wf(),
            radio.wf(),
            iq@.len() % 2 == 0,
            all_24bit(iq@),
        ensures
            final(self).wf(),
            tx_iq_step(*old(self), radio.transmitting(), iq@, *final(self), effects(out@)),
    {
        let mut out: Vec<Action> = Vec::new();
        proof {
            lemma_effects_empty(out@);
        }
        if !radio.is_transmitting() {
            return out;
        }
        let buffers = self.tx_iq.stage(iq);
        let ghost staged = self.tx_iq;
        let ghost c0 = old(self).sequence.tx_iq;
        let ghost all = old(self).tx_iq.pending() + iq@;
        let ghost len = 2 * IQ_BUFFER_SIZE as int;
        let mut k: usize = 0;
        proof {
            vstd::arithmetic::div_mod::lemma_small_mod(c0 as nat, 0x1_0000_0000);
        }
        while k < buffers.len()
            invariant
                k <= buffers@.len(),
                out@.len() == k,
                self.wf(),
                forall|j: int| 0 <= j < buffers@.len() ==> #[trigger] buffers@[j]@ == chunk(all, len, j),
                forall|j: int| 0 <= j < buffers@.len() ==> all_24bit(#[trigger] buffers@[j]@),
                forall|j: int| 0 <= j < buffers@.len() ==> (#[trigger] buffers@[j]@).len() == len,
                len == 2 * IQ_BUFFER_SIZE,
                self.sequence.tx_iq == counter_after(c0, k as int),
                same_but_tx_iq(old(self).sequence, self.sequence),
                self.tx_iq == staged,
                self.device == old(self).device && self.receivers == old(self).receivers,
                forall|j: int|
                    0 <= j < k ==> #[trigger] effects(out@)[j] == (Effect::Send {
                        port: TX_IQ_PORT,
                        data: tx_iq_packet(counter_after(c0, j), chunk(all, len, j)),
                    }),
            decreases buffers@.len() - k,
        {
            let packet = self.send_iq_buffer(&buffers[k]);
            push_action(&mut out, Action::Send { port: TX_IQ_PORT, data: packet });
            proof {
                vstd::arithmetic::div_mod::lemma_add_mod_noop_right(1, c0 + k, 0x1_0000_0000);
            }
            k = k + 1;
        }
        out
    }

    /// Feeds samples from the local microphone to the transmitter when it is the
    /// one in use, asking for each completed frame to be processed.
    pub fn handle_local_mic(&mut self, radio: &mut Radio, samples: &Vec<i16>) -> (out: Vec<Action>)
        requires
            old(radio).wf(),
        ensures
            final(radio).wf(),
            *final(self) == *old(self),
            same_settings(*old(radio), *final(radio)),
            final(radio).receiver == old(radio).receiver,
            final(radio).ptt == old(radio).ptt && final(radio).dot == old(radio).dot,
            final(radio).dash == old(radio).dash,
            final(radio).pll_locked == old(radio).pll_locked,
            final(radio).supply_volts == old(radio).supply_volts,
            final(radio).updated == old(radio).updated,
            final(radio).keepalive == old(radio).keepalive,
            final(radio).received == old(radio).received,
            if uses_local_mic(*old(radio)) {
                mic_feed(old(radio).transmitter, samples@, final(radio).transmitter, effects(out@))
            } else {
                final(radio).transmitter == old(radio).transmitter && out@.len() == 0
            },
    {
        let mut out: Vec<Action> = Vec::new();
        proof {
            lemma_effects_empty(out@);
        }
        if radio.transmitter.local_input && !radio.transmitter.local_input_changed && !radio.tune {
            out = Self::feed_mic(&mut radio.transmitter, samples);
        }
        out
    }

    fn push_input_actions(out: &mut Vec<Action>, input: (bool, bool, bool))
        ensures
            effects(final(out)@) == effects(old(out)@) + input_flag_effects(input),
    {
        let (local_input, changed, device_changed) = input;
        if changed {
            if local_input {
                push_action(out, Action::OpenInput);
            } else {
                push_action(out, Action::CloseInput);
            }
        }
        if device_changed && local_input {
            push_action(out, Action::CloseInput);
            push_action(out, Action::OpenInput);
        }
        assert(effects(out@) =~= effects(old(out)@) + input_flag_effects(input));
    }

    fn push_output_actions(out: &mut Vec<Action>, i: usize, flags: (bool, bool, bool, bool))
        ensures
            effects(final(out)@) == effects(old(out)@) + output_flag_effects(flags, i),
    {
        let (changed, changed_to, device_changed, was_on) = flags;
        if changed {
            if changed_to {
                push_action(out, Action::OpenOutput { output: i });
            } else {
                push_action(out, Action::CloseOutput { output: i });
            }
        }
        if device_changed && was_on {
            push_action(out, Action::CloseOutput { output: i });
            push_action(out, Action::OpenOutput { output: i });
        }
        assert(effects(out@) =~= effects(old(out)@) + output_flag_effects(flags, i));
    }

    /// Reads and clears the flags that the collaborators set, applying the
    /// pending changes of the local outputs; returns the flags as they were.
    pub fn take_flags(radio: &mut Radio) -> (r: PendingFlags)
        requires
            old(radio).wf(),
        ensures
            final(radio).wf(),
            r == pending_flags_of(*old(radio)),
            flags_taken(*old(radio), *final(radio)),
    {
        let (updated, keepalive) = radio.take_update_flags();
        let inputs = radio.transmitter.take_input_flags();
        let o0 = radio.take_output_flags(0);
        let o1 = radio.take_output_flags(1);
        proof {
            reveal(flags_taken);
        }
        PendingFlags { send_config: updated || keepalive, input: inputs, output0: o0, output1: o1 }
    }

    /// The end of each loop iteration, given the flags that `take_flags` read:
    /// after an update or a keepalive the configuration packets are sent again;
    /// then the pending changes of the local input and outputs are asked for.
    pub fn housekeeping(&mut self, radio: &Radio, flags: PendingFlags) -> (out: Vec<Action>)
        requires
            radio.wf(),
        ensures
            effects(out@) == (if flags.send_config {
                config_effects(old(self).sequence, old(self).device.adcs, *radio)
            } else {
                Seq::<Effect>::empty()
            }) + input_flag_effects(flags.input) + output_flag_effects(flags.output0, 0)
                + output_flag_effects(flags.output1, 1),
            final(self).sequence == (if flags.send_config {
                config_advanced(old(self).sequence)
            } else {
                old(self).sequence
            }),
            final(self).device == old(self).device,
            final(self).tx_iq == old(self).tx_iq,
    {
        let mut out: Vec<Action> = Vec::new();
        proof {
            lemma_effects_empty(out@);
        }
        if flags.send_config {
            self.push_config(radio, &mut out);
        }
        Self::push_input_actions(&mut out, flags.input);
        Self::push_output_actions(&mut out, 0, flags.output0);
        Self::push_output_actions(&mut out, 1, flags.output1);
        out
    }

    /// Takes the audio that the DSP engine made of a full IQ buffer of receiver
    /// `ddc`: stereo 16-bit PCM pairs, left then right. Each pair goes to the
    /// remote-audio buffer, which is sent whenever it fills (when the receiver
    /// is active), and to the local playback buffer when local output is on.
    pub fn receive_audio(&mut self, radio: &mut Radio, ddc: usize, audio: &Vec<i16>) -> (out: Vec<Action>)
        requires
            old(radio).wf(),
            ddc < 2,
            audio@.len() % 2 == 0,
        ensures
            final(radio).wf(),
            (
                audio_model(final(radio).receiver@[ddc as int]),
                final(self).sequence.audio,
                effects(out@),
            ) == audio_run(
                audio_model(old(radio).receiver@[ddc as int]),
                old(radio).receiver@[ddc as int],
                ddc,
                old(self).sequence.audio,
                audio@,
                (audio@.len() / 2) as nat,
            ),
            Receiver::same_audio_settings(old(radio).receiver@[ddc as int], final(radio).receiver@[ddc as int]),
            final(radio).receiver@[1 - ddc] == old(radio).receiver@[1 - ddc],
            final(radio).transmitter == old(radio).transmitter,
            final(self).device == old(self).device,
            final(self).tx_iq == old(self).tx_iq,
    {
        let ghost rx0 = radio.receiver@[ddc as int];
        let ghost m0 = audio_model(rx0);
        let ghost s0 = self.sequence.audio;
        let mut out: Vec<Action> = Vec::new();
        proof {
            lemma_effects_empty(out@);
        }
        let mut k: usize = 0;
        while k < audio.len()
            invariant
                radio.wf(),
                ddc < 2,
                k % 2 == 0,
                k <= audio@.len(),
                audio@.len() % 2 == 0,
                (audio_model(radio.receiver@[ddc as int]), self.sequence.audio, effects(out@))
                    == audio_run(m0, rx0, ddc, s0, audio@, (k / 2) as nat),
                Receiver::same_audio_settings(rx0, radio.receiver@[ddc as int]),
                radio.receiver@[1 - ddc] == old(radio).receiver@[1 - ddc],
                radio.transmitter == old(radio).transmitter,
                rx0 == old(radio).receiver@[ddc as int],
                self.device == old(self).device,
                self.tx_iq == old(self).tx_iq,
            decreases audio@.len() - k,
        {
            let ghost before = radio.receiver@[ddc as int];
            let ghost e0 = effects(out@);
            let ghost sq = self.sequence.audio;
            let (remote, local) = radio.add_audio(ddc, audio[k], audio[k + 1]);
            let ghost (m2, fr, fl) = audio_pair(audio_model(before), before, audio@[k as int], audio@[k + 1]);
            proof {
                reveal(audio_added);
                assert(audio_pair(audio_model(before), before, audio@[k as int], audio@[k + 1])
                    == audio_pair(audio_model(before), rx0, audio@[k as int], audio@[k + 1]));
            }
            let active = radio.receiver[ddc].active;
            match remote {
                Some(buffer) => {
                    if active {
                        let seq = self.sequence.next(Stream::Audio);
                        let packet = crate::packets::encode_audio(seq, &buffer);
                        push_action(&mut out, Action::Send { port: AUDIO_PORT, data: packet });
                    }
                },
                None => {},
            }
            match local {
                Some(buffer) => {
                    push_action(&mut out, Action::PlayLocal { rx: ddc, audio: buffer });
                },
                None => {},
            }
            proof {
                let (s2, e2) = audio_pair_effects(fr, fl, rx0.active, ddc, sq);
                assert(effects(out@) =~= e0 + e2);
                assert(((k + 2) / 2) as nat - 1 == (k / 2) as nat);
                assert(2 * (((k + 2) / 2) as nat) - 2 == k);
            }
            k = k + 2;
        }
        out
    }
}

/// The transmit-IQ staging flush: while transmitting, exactly 240 pairs into an
/// empty staging buffer give exactly one 1444-byte packet, with the stream's
/// next sequence number, and leave the buffer empty; a 241st pair starts a new
/// staging cycle that holds just that pair and sends nothing.
pub proof fn lemma_tx_staging_flush(s0: Protocol2, iq: Seq<i32>, s1: Protocol2, e: Seq<Effect>)
    requires
        s0.wf(),
        s0.tx_iq.offset == 0,
        iq.len() == 2 * IQ_BUFFER_SIZE || iq.len() == 2 * IQ_BUFFER_SIZE + 2,
        tx_iq_step(s0, true, iq, s1, e),
    ensures
        e.len() == 1,
        e[0] == (Effect::Send {
            port: TX_IQ_PORT,
            data: tx_iq_packet(s0.sequence.tx_iq, iq.subrange(0, 2 * IQ_BUFFER_SIZE as int)),
        }),
        tx_iq_packet(s0.sequence.tx_iq, iq.subrange(0, 2 * IQ_BUFFER_SIZE as int)).len()
            == crate::packets::TX_IQ_PACKET_SIZE,
        s1.sequence.tx_iq == successor(s0.sequence.tx_iq),
        iq.len() == 2 * IQ_BUFFER_SIZE ==> s1.tx_iq.offset == 0,
        iq.len() == 2 * IQ_BUFFER_SIZE + 2 ==> s1.tx_iq.offset == 1 && s1.tx_iq.pending()
            == iq.subrange(2 * IQ_BUFFER_SIZE as int, iq.len() as int),
{
    let n = (iq.len() / 2) as nat;
    crate::fill::lemma_fill_feed(0, n, IQ_BUFFER_SIZE as nat);
    assert(s0.tx_iq.pending() =~= Seq::<i32>::empty());
    let all = s0.tx_iq.pending() + iq;
    assert(all =~= iq);
    if iq.len() == 2 * IQ_BUFFER_SIZE {
        assert(n == IQ_BUFFER_SIZE);
        vstd::arithmetic::div_mod::lemma_fundamental_div_mod_converse(n as int, IQ_BUFFER_SIZE as int, 1, 0);
    } else {
        assert(n == IQ_BUFFER_SIZE + 1);
        vstd::arithmetic::div_mod::lemma_fundamental_div_mod_converse(n as int, IQ_BUFFER_SIZE as int, 1, 1);
    }
    assert(e.len() == 1);
    assert(chunk(all, 2 * IQ_BUFFER_SIZE as int, 0) =~= iq.subrange(0, 2 * IQ_BUFFER_SIZE as int));
    crate::packets::lemma_tx_iq_packet_len(s0.sequence.tx_iq, iq.subrange(0, 2 * IQ_BUFFER_SIZE as int));
    vstd::arithmetic::div_mod::lemma_small_mod(s0.sequence.tx_iq as nat, 0x1_0000_0000);
}

/// A datagram too short for what it declares is dropped: the receivers and the
/// transmitter keep their state, the session is unchanged, and nothing is asked
/// for.
pub proof fn lemma_malformed_datagram_dropped(
    port: u16,
    s0: Protocol2,
    r0: Radio,
    d: Seq<u8>,
    s1: Protocol2,
    r1: Radio,
    e: Seq<Effect>,
)
    requires
        r0.wf(),
        datagram_step(port, s0, r0, d, s1, r1, e),
        kind_of_port(port) is HighPriorityStatus ==> d.len() < STATUS_PACKET_MIN,
        kind_of_port(port) is MicLine ==> d.len() < MIC_HEADER_SIZE + 2 * MIC_SAMPLES,
        kind_of_port(port) is ReceiverIq ==> !iq_packet_complete(d),
        !(kind_of_port(port) is Unknown),
    ensures
        s1 == s0,
        r1.transmitter == r0.transmitter,
        r1.receiver@ == r0.receiver@,
        e.len() == 0,
{
    match kind_of_port(port) {
        StreamKind::ReceiverIq(ddc) => {
            if ddc_enabled(r0, ddc) {
                assert(r1.receiver@ =~= r0.receiver@);
            }
        },
        _ => {},
    }
}

} // verus!
