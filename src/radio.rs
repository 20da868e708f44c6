use vstd::prelude::*;
use crate::alex::ALEX_ANTENNA_1;
use crate::discovery::{Boards, Device};
use crate::receiver::{BandInfo, Receiver, MAX_SAMPLE_RATE, MODE_CWL, MODE_CWU};
use crate::fill::fill_feed;
use crate::packets::Telemetry;
use crate::receiver::chunk;
use crate::transmitter::{same_transmitter_settings, Transmitter};

verus! {

/// Radio models that the application knows.
#[derive(PartialEq, Eq, Structural, Clone, Copy, Debug)]
pub enum RadioModels {
    Anan10,
    Anan10e,
    Anan100,
    Anan100b,
    Anan100d,
    Anan200d,
    Anan7000dle,
    Anan8000dle,
    AnanG1,
    AnanG2,
    HermesLite,
    HermesLite2,
    Undefined,
}

/// The number of a radio model, in declaration order.
pub open spec fn model_number(m: RadioModels) -> u32 {
    match m {
        RadioModels::Anan10 => 0,
        RadioModels::Anan10e => 1,
        RadioModels::Anan100 => 2,
        RadioModels::Anan100b => 3,
        RadioModels::Anan100d => 4,
        RadioModels::Anan200d => 5,
        RadioModels::Anan7000dle => 6,
        RadioModels::Anan8000dle => 7,
        RadioModels::AnanG1 => 8,
        RadioModels::AnanG2 => 9,
        RadioModels::HermesLite => 10,
        RadioModels::HermesLite2 => 11,
        RadioModels::Undefined => 12,
    }
}

impl RadioModels {
    /// The model with a number; numbers past the last model give `Undefined`.
    pub fn from_u32(value: u32) -> (r: RadioModels)
        ensures
            value <= 12 ==> model_number(r) == value,
            value > 12 ==> r == RadioModels::Undefined,
    {
        match value {
            0 => RadioModels::Anan10,
            1 => RadioModels::Anan10e,
            2 => RadioModels::Anan100,
            3 => RadioModels::Anan100b,
            4 => RadioModels::Anan100d,
            5 => RadioModels::Anan200d,
            6 => RadioModels::Anan7000dle,
            7 => RadioModels::Anan8000dle,
            8 => RadioModels::AnanG1,
            9 => RadioModels::AnanG2,
            10 => RadioModels::HermesLite,
            11 => RadioModels::HermesLite2,
            _ => RadioModels::Undefined,
        }
    }

    /// The model's number.
    pub fn to_u32(&self) -> (r: u32)
        ensures
            r == model_number(*self),
    {
        match self {
            RadioModels::Anan10 => 0,
            RadioModels::Anan10e => 1,
            RadioModels::Anan100 => 2,
            RadioModels::Anan100b => 3,
            RadioModels::Anan100d => 4,
            RadioModels::Anan200d => 5,
            RadioModels::Anan7000dle => 6,
            RadioModels::Anan8000dle => 7,
            RadioModels::AnanG1 => 8,
            RadioModels::AnanG2 => 9,
            RadioModels::HermesLite => 10,
            RadioModels::HermesLite2 => 11,
            RadioModels::Undefined => 12,
        }
    }
}

/// The filter board fitted to the radio.
#[derive(PartialEq, Eq, Structural, Clone, Copy, Debug)]
pub enum FilterBoards {
    NONE,
    ALEX,
    APOLLO,
    N2ADR,
}

pub open spec fn filter_board_number(b: FilterBoards) -> u32 {
    match b {
        FilterBoards::NONE => 0,
        FilterBoards::ALEX => 1,
        FilterBoards::APOLLO => 2,
        FilterBoards::N2ADR => 3,
    }
}

impl FilterBoards {
    /// The filter board with a number, if there is one.
    pub fn from_u32(value: u32) -> (r: Option<FilterBoards>)
        ensures
            r is Some <==> value <= 3,
            r is Some ==> filter_board_number(r->0) == value,
    {
        match value {
            0 => Some(FilterBoards::NONE),
            1 => Some(FilterBoards::ALEX),
            2 => Some(FilterBoards::APOLLO),
            3 => Some(FilterBoards::N2ADR),
            _ => None,
        }
    }

    /// The board's number.
    pub fn to_u32(&self) -> (r: u32)
        ensures
            r == filter_board_number(*self),
    {
        match self {
            FilterBoards::NONE => 0,
            FilterBoards::ALEX => 1,
            FilterBoards::APOLLO => 2,
            FilterBoards::N2ADR => 3,
        }
    }
}

/// The CW keyer's mode.
#[derive(PartialEq, Eq, Structural, Clone, Copy, Debug)]
pub enum Keyer {
    Straight,
    ModeA,
    ModeB,
}

pub open spec fn keyer_number(k: Keyer) -> u32 {
    match k {
        Keyer::Straight => 0,
        Keyer::ModeA => 1,
        Keyer::ModeB => 2,
    }
}

impl Keyer {
    /// The keyer mode with a number, if there is one.
    pub fn from_u32(value: u32) -> (r: Option<Keyer>)
        ensures
            r is Some <==> value <= 2,
            r is Some ==> keyer_number(r->0) == value,
    {
        match value {
            0 => Some(Keyer::Straight),
            1 => Some(Keyer::ModeA),
            2 => Some(Keyer::ModeB),
            _ => None,
        }
    }

    /// The mode's number.
    pub fn to_u32(&self) -> (r: u32)
        ensures
            r == keyer_number(*self),
    {
        match self {
            Keyer::Straight => 0,
            Keyer::ModeA => 1,
            Keyer::ModeB => 2,
        }
    }
}

/// Settings of one analog-to-digital converter.
#[derive(Clone, Copy, Debug)]
pub struct Adc {
    pub dither: bool,
    pub random: bool,
}

/// A notch filter of a receiver.
#[derive(Clone, Copy, Debug)]
pub struct Notch {
    pub rx: i32,
    /// Centre frequency and width, in Hz.
    pub frequency: i64,
    pub width: i64,
    pub active: i32,
}

/// One channel-state request for the DSP engine.
#[derive(PartialEq, Eq, Structural, Clone, Copy, Debug)]
pub struct ChannelState {
    pub channel: i32,
    pub state: i32,
    /// Whether the channel's pending output is drained first.
    pub dmp: i32,
}

/// The shared radio state: the receivers, the transmitter, and the settings and
/// telemetry that the protocol engine reads and writes.
#[derive(Debug)]
pub struct Radio {
    pub name: String,
    pub dev: u8,
    pub model: RadioModels,
    pub protocol: u8,
    pub supported_receivers: u8,
    pub sample_rate: i32,
    pub sample_rate_changed: bool,
    pub active_receiver: usize,
    pub receivers: u8,
    pub rx2_enabled: bool,
    pub split: bool,
    pub receiver: Vec<Receiver>,
    pub ptt: bool,
    pub mox: bool,
    pub vox: bool,
    pub tune: bool,
    pub dot: bool,
    pub dash: bool,
    pub external_mox: bool,
    pub transmitter: Transmitter,
    pub filter_board: FilterBoards,
    pub cw_keyer_mode: Keyer,
    pub cw_keyer_internal: bool,
    pub cw_keys_reversed: bool,
    pub cw_keyer_speed: u8,
    pub cw_keyer_weight: u8,
    pub cw_keyer_spacing: u8,
    pub cw_keyer_ptt_delay: u8,
    pub cw_keyer_hang_time: u16,
    pub cw_breakin: bool,
    pub cw_keyer_sidetone_volume: u8,
    pub cw_keyer_sidetone_frequency: u16,
    pub adc: Vec<Adc>,
    pub alex: u32,
    pub mk2bpf: bool,
    pub updated: bool,
    pub keepalive: bool,
    pub received: bool,
    pub pll_locked: bool,
    pub adc_overload: bool,
    pub supply_volts: i32,
    pub line_in: bool,
    pub mic_boost: bool,
    pub mic_ptt: bool,
    pub mic_bias_ring: bool,
    pub mic_bias_enable: bool,
    pub mic_saturn_xlr: bool,
    pub notch: i32,
    pub notches: Vec<Notch>,
    pub cat_enabled: bool,
}

/// The model guessed from the board that discovery reported.
pub open spec fn model_of_board(b: Boards) -> RadioModels {
    match b {
        Boards::Hermes => RadioModels::Anan100,
        Boards::Angelia => RadioModels::Anan100d,
        Boards::Orion => RadioModels::Anan200d,
        Boards::Orion2 => RadioModels::Anan8000dle,
        Boards::Saturn => RadioModels::AnanG1,
        Boards::HermesLite => RadioModels::HermesLite,
        Boards::HermesLite2 => RadioModels::HermesLite2,
        _ => RadioModels::Undefined,
    }
}

impl Radio {
    pub open spec fn wf(&self) -> bool {
        &&& self.receivers == 2
        &&& self.receiver@.len() == 2
        &&& self.receiver@[0].wf()
        &&& self.receiver@[1].wf()
        &&& self.transmitter.wf()
        &&& self.adc@.len() <= 8
        &&& self.active_receiver < 2
    }

    /// Whether the radio transmits: MOX, PTT, VOX, tune or an external MOX is
    /// on, or a CW key is down while the first receiver is in a CW mode.
    pub open spec fn transmitting(&self) -> bool {
        let cw = (self.dot || self.dash) && (self.receiver@[0].mode == MODE_CWL
            || self.receiver@[0].mode == MODE_CWU);
        self.mox || self.ptt || cw || self.vox || self.tune || self.external_mox
    }

    /// The radio state for a newly discovered device, with the defaults: two
    /// receivers on 20 m, one ADC entry per ADC, a transmitter on DSP channel 8.
    pub fn new(device: Device) -> (r: Radio)
        requires
            device.adcs <= 8,
        ensures
            r.wf(),
            r.model == model_of_board(device.board),
            r.protocol == device.protocol,
            r.supported_receivers == device.supported_receivers,
            r.dev == device.device,
            r.adc@.len() == device.adcs,
            r.filter_board == (if device.board == Boards::HermesLite || device.board
                == Boards::HermesLite2 {
                FilterBoards::N2ADR
            } else {
                FilterBoards::ALEX
            }),
            r.mk2bpf == (device.board == Boards::Orion2 || device.board == Boards::Saturn),
            r.receiver@[0].channel == 0 && r.receiver@[1].channel == 1,
            r.transmitter.channel == 8,
            r.rx2_enabled && !r.split,
            !r.transmitting(),
            !r.updated && !r.keepalive && !r.received,
            r.notches@.len() == 0 && r.notch == 0,
    {
        let model = match device.board {
            Boards::Hermes => RadioModels::Anan100,
            Boards::Angelia => RadioModels::Anan100d,
            Boards::Orion => RadioModels::Anan200d,
            Boards::Orion2 => RadioModels::Anan8000dle,
            Boards::Saturn => RadioModels::AnanG1,
            Boards::HermesLite => RadioModels::HermesLite,
            Boards::HermesLite2 => RadioModels::HermesLite2,
            _ => RadioModels::Undefined,
        };
        let t0 = BandInfo::default_table();
        let t1 = BandInfo::default_table();
        let mut receiver: Vec<Receiver> = Vec::new();
        receiver.push(Receiver::new(0, t0));
        receiver.push(Receiver::new(1, t1));
        let filter_board = match device.board {
            Boards::HermesLite | Boards::HermesLite2 => FilterBoards::N2ADR,
            _ => FilterBoards::ALEX,
        };
        let mut adc: Vec<Adc> = Vec::new();
        let mut i: u8 = 0;
        while i < device.adcs
            invariant
                i <= device.adcs,
                adc@.len() == i,
            decreases device.adcs - i,
        {
            adc.push(Adc { dither: false, random: false });
            i = i + 1;
        }
        let mk2bpf = match device.board {
            Boards::Orion2 | Boards::Saturn => true,
            _ => false,
        };
        Radio {
            name: String::from_str("HPSDR"),
            dev: device.device,
            model,
            protocol: device.protocol,
            supported_receivers: device.supported_receivers,
            sample_rate: 384000,
            sample_rate_changed: false,
            active_receiver: 0,
            receivers: 2,
            rx2_enabled: true,
            split: false,
            receiver,
            ptt: false,
            mox: false,
            vox: false,
            tune: false,
            dot: false,
            dash: false,
            external_mox: false,
            transmitter: Transmitter::new(8, device.protocol, device.board),
            filter_board,
            cw_keyer_mode: Keyer::Straight,
            cw_keyer_internal: true,
            cw_keys_reversed: false,
            cw_keyer_speed: 12,
            cw_keyer_weight: 30,
            cw_keyer_spacing: 0,
            cw_keyer_ptt_delay: 20,
            cw_keyer_hang_time: 300,
            cw_breakin: false,
            cw_keyer_sidetone_volume: 20,
            cw_keyer_sidetone_frequency: 650,
            adc,
            alex: ALEX_ANTENNA_1,
            mk2bpf,
            updated: false,
            keepalive: false,
            received: false,
            pll_locked: false,
            adc_overload: false,
            supply_volts: 0,
            line_in: false,
            mic_boost: true,
            mic_ptt: true,
            mic_bias_ring: false,
            mic_bias_enable: true,
            mic_saturn_xlr: false,
            notch: 0,
            notches: Vec::new(),
            cat_enabled: false,
        }
    }

    /// Clears the session's transient state: keys, MOX, tune, the update flag
    /// and the telemetry.
    pub fn init(&mut self)
        requires
            old(self).wf(),
        ensures
            final(self).wf(),
            !final(self).transmitting(),
            !final(self).updated,
            !final(self).pll_locked && !final(self).adc_overload,
            final(self).supply_volts == 0,
            final(self).receiver == old(self).receiver,
            final(self).split == old(self).split,
            final(self).rx2_enabled == old(self).rx2_enabled,
    {
        self.ptt = false;
        self.mox = false;
        self.vox = false;
        self.tune = false;
        self.dot = false;
        self.dash = false;
        self.external_mox = false;
        self.updated = false;
        self.pll_locked = false;
        self.adc_overload = false;
        self.supply_volts = 0;
    }

    /// Whether the radio transmits.
    pub fn is_transmitting(&self) -> (r: bool)
        requires
            self.wf(),
        ensures
            r == self.transmitting(),
    {
        let mode = self.receiver[0].mode;
        let cw = (self.dot || self.dash) && (mode == MODE_CWL || mode == MODE_CWU);
        self.mox || self.ptt || cw || self.vox || self.tune || self.external_mox
    }

    /// Appends a notch to the list; the list keeps its order.
    pub fn add_notch_to_vector(&mut self, notch: Notch)
        ensures
            final(self).notches@ == old(self).notches@.push(notch),
            *final(self) == (Radio { notches: final(self).notches, ..*old(self) }),
    {
        self.notches.push(notch);
    }

    /// Takes the next notch index for a notch handed to the DSP engine.
    pub fn add_notch(&mut self, notch: Notch) -> (r: i32)
        requires
            old(self).notch < i32::MAX,
        ensures
            r == old(self).notch,
            final(self).notch == old(self).notch + 1,
            *final(self) == (Radio { notch: final(self).notch, ..*old(self) }),
    {
        let index = self.notch;
        self.notch = self.notch + 1;
        index
    }

    /// Takes a new hardware sample rate (Protocol 1): every receiver takes it, and
    /// the change is flagged.
    pub fn sample_rate_changed(&mut self, rate: i32)
        requires
            old(self).wf(),
            48000 <= rate < MAX_SAMPLE_RATE,
        ensures
            final(self).wf(),
            final(self).sample_rate == rate,
            final(self).sample_rate_changed,
            final(self).receiver@[0].sample_rate == rate,
            final(self).receiver@[1].sample_rate == rate,
    {
        self.sample_rate = rate;
        let mut i: usize = 0;
        while i < 2
            invariant
                i <= 2,
                self.receiver@.len() == 2,
                self.receiver@[0].wf() && self.receiver@[1].wf(),
                forall|k: int| 0 <= k < i ==> #[trigger] self.receiver@[k].sample_rate == rate,
                self.transmitter == old(self).transmitter,
                self.receivers == old(self).receivers,
                self.adc == old(self).adc,
                self.active_receiver == old(self).active_receiver,
                self.sample_rate == rate,
                48000 <= rate < MAX_SAMPLE_RATE,
            decreases 2 - i,
        {
            self.receiver[i].sample_rate_changed(rate);
            i = i + 1;
        }
        self.sample_rate_changed = true;
    }

    /// The channel states that the DSP engine must take for the current
    /// transmit/receive state, in order.
    pub open spec fn channel_states_spec(&self) -> Seq<ChannelState> {
        let rx0 = self.receiver@[0].channel;
        let rx1 = self.receiver@[1].channel;
        let tx = self.transmitter.channel;
        if self.transmitting() {
            if self.rx2_enabled {
                seq![
                    ChannelState { channel: rx0, state: 0, dmp: 0 },
                    ChannelState { channel: rx1, state: 0, dmp: 1 },
                    ChannelState { channel: tx, state: 1, dmp: 0 },
                ]
            } else {
                seq![
                    ChannelState { channel: rx0, state: 0, dmp: 1 },
                    ChannelState { channel: tx, state: 1, dmp: 0 },
                ]
            }
        } else if self.rx2_enabled {
            seq![
                ChannelState { channel: tx, state: 0, dmp: 1 },
                ChannelState { channel: rx0, state: 1, dmp: 0 },
                ChannelState { channel: rx1, state: 1, dmp: 0 },
            ]
        } else {
            seq![
                ChannelState { channel: tx, state: 0, dmp: 1 },
                ChannelState { channel: rx0, state: 1, dmp: 0 },
            ]
        }
    }

    /// Lists the channel states for the DSP engine: receivers off and the
    /// transmitter on while transmitting, the other way round otherwise.
    pub fn set_state(&self) -> (r: Vec<ChannelState>)
        requires
            self.wf(),
        ensures
            r@ == self.channel_states_spec(),
    {
        let rx0 = self.receiver[0].channel;
        let rx1 = self.receiver[1].channel;
        let tx = self.transmitter.channel;
        let mut v: Vec<ChannelState> = Vec::new();
        if self.is_transmitting() {
            if self.rx2_enabled {
                v.push(ChannelState { channel: rx0, state: 0, dmp: 0 });
                v.push(ChannelState { channel: rx1, state: 0, dmp: 1 });
            } else {
                v.push(ChannelState { channel: rx0, state: 0, dmp: 1 });
            }
            v.push(ChannelState { channel: tx, state: 1, dmp: 0 });
        } else {
            v.push(ChannelState { channel: tx, state: 0, dmp: 1 });
            v.push(ChannelState { channel: rx0, state: 1, dmp: 0 });
            if self.rx2_enabled {
                v.push(ChannelState { channel: rx1, state: 1, dmp: 0 });
            }
        }
        assert(v@ =~= self.channel_states_spec());
        v
    }


    /// Takes in a status packet's telemetry and marks the link as alive; tells
    /// whether PTT, dot or dash changed.
    pub fn apply_telemetry(&mut self, t: Telemetry) -> (changed: bool)
        requires
            old(self).wf(),
        ensures
            final(self).wf(),
            telemetry_applied(*old(self), t, *final(self)),
            changed == keys_changed(*old(self), t),
    {
        let changed = self.ptt != t.ptt || self.dot != t.dot || self.dash != t.dash;
        self.ptt = t.ptt;
        self.dot = t.dot;
        self.dash = t.dash;
        self.pll_locked = t.pll_locked;
        self.transmitter.alex_forward_power = t.forward_power;
        self.transmitter.alex_reverse_power = t.reverse_power;
        self.supply_volts = t.supply_volts as i32;
        self.received = true;
        changed
    }

    /// Reads and clears the update and keepalive flags.
    pub fn take_update_flags(&mut self) -> (r: (bool, bool))
        ensures
            r == (old(self).updated, old(self).keepalive),
            !final(self).updated && !final(self).keepalive,
            same_settings(*old(self), *final(self)),
            final(self).receiver == old(self).receiver,
            final(self).transmitter == old(self).transmitter,
            final(self).ptt == old(self).ptt && final(self).dot == old(self).dot,
            final(self).dash == old(self).dash,
            final(self).pll_locked == old(self).pll_locked,
            final(self).supply_volts == old(self).supply_volts,
            final(self).received == old(self).received,
    {
        let r = (self.updated, self.keepalive);
        self.updated = false;
        self.keepalive = false;
        r
    }

    /// Applies and clears the pending local-output changes of receiver `i`.
    pub fn take_output_flags(&mut self, i: usize) -> (r: (bool, bool, bool, bool))
        requires
            old(self).wf(),
            i < 2,
        ensures
            final(self).wf(),
            r == (
                old(self).receiver@[i as int].local_output_changed,
                old(self).receiver@[i as int].local_output_changed_to,
                old(self).receiver@[i as int].local_output_device_changed,
                old(self).receiver@[i as int].local_output,
            ),
            final(self).receiver@[i as int].local_output == old(self).receiver@[i as int].local_output_after(),
            !final(self).receiver@[i as int].local_output_changed,
            !final(self).receiver@[i as int].local_output_device_changed,
            Receiver::same_except_output_flags(old(self).receiver@[i as int], final(self).receiver@[i as int]),
            final(self).receiver@[1 - i] == old(self).receiver@[1 - i],
            final(self).receiver@.len() == 2,
            same_settings(*old(self), *final(self)),
            final(self).transmitter == old(self).transmitter,
            final(self).ptt == old(self).ptt && final(self).dot == old(self).dot,
            final(self).dash == old(self).dash,
            final(self).pll_locked == old(self).pll_locked,
            final(self).supply_volts == old(self).supply_volts,
            final(self).received == old(self).received,
            final(self).updated == old(self).updated,
            final(self).keepalive == old(self).keepalive,
    {
        self.receiver[i].take_output_flags()
    }

    /// Hands one stereo audio pair of receiver `ddc` to its remote-audio buffer
    /// and, when local output is on, to its local playback buffer; returns the
    /// buffers that filled.
    pub fn add_audio(&mut self, ddc: usize, left: i16, right: i16) -> (r: (Option<Vec<u8>>, Option<Vec<i16>>))
        requires
            old(self).wf(),
            ddc < 2,
        ensures
            final(self).wf(),
            final(self).receiver@.len() == 2,
            final(self).receiver@[1 - ddc] == old(self).receiver@[1 - ddc],
            crate::receiver::audio_added(old(self).receiver@[ddc as int], left, right, final(self).receiver@[ddc as int], r.0, r.1),
            final(self).transmitter == old(self).transmitter,
            final(self).ptt == old(self).ptt && final(self).dot == old(self).dot,
            final(self).dash == old(self).dash,
            final(self).updated == old(self).updated,
            final(self).keepalive == old(self).keepalive,
            final(self).received == old(self).received,
    {
        self.receiver[ddc].add_audio(left, right)
    }

    /// Sets the frequency that receiver `i` listens on.
    pub fn set_listen_frequency(&mut self, i: usize, f: i64)
        requires
            old(self).wf(),
            i < 2,
            -crate::receiver::MAX_FREQUENCY < f < crate::receiver::MAX_FREQUENCY,
        ensures
            final(self).wf(),
            final(self).receiver@[i as int].listen_frequency() == f,
            Receiver::same_except_tuning(old(self).receiver@[i as int], final(self).receiver@[i as int]),
            final(self).receiver@.len() == 2,
            final(self).receiver@[1 - i] == old(self).receiver@[1 - i],
            same_settings(*old(self), *final(self)),
            final(self).transmitter == old(self).transmitter,
            final(self).ptt == old(self).ptt && final(self).dot == old(self).dot,
            final(self).dash == old(self).dash,
            final(self).received == old(self).received,
            final(self).updated == old(self).updated,
            final(self).keepalive == old(self).keepalive,
    {
        self.receiver[i].set_listen_frequency(f);
    }

    /// Sets the external MOX, as a remote-control client asks.
    pub fn set_external_mox(&mut self, on: bool)
        requires
            old(self).wf(),
        ensures
            final(self).wf(),
            final(self).external_mox == on,
            final(self).receiver == old(self).receiver,
            final(self).transmitter == old(self).transmitter,
            final(self).ptt == old(self).ptt && final(self).dot == old(self).dot,
            final(self).dash == old(self).dash,
            final(self).mox == old(self).mox && final(self).vox == old(self).vox,
            final(self).tune == old(self).tune && final(self).split == old(self).split,
            final(self).cw_keyer_speed == old(self).cw_keyer_speed,
            final(self).received == old(self).received,
            final(self).updated == old(self).updated,
            final(self).keepalive == old(self).keepalive,
    {
        self.external_mox = on;
    }

    /// One tick of the keepalive watchdog: asks for the configuration to be
    /// sent again, and tells whether the link was silent since the last tick
    /// (no datagram was taken in), starting the next period.
    #[verifier::rlimit(40)]
    pub fn watchdog_tick(&mut self) -> (silent: bool)
        ensures
            silent == !old(self).received,
            final(self).keepalive,
            !final(self).received,
            same_settings(*old(self), *final(self)),
            final(self).receiver == old(self).receiver,
            final(self).transmitter == old(self).transmitter,
            final(self).ptt == old(self).ptt && final(self).dot == old(self).dot,
            final(self).dash == old(self).dash,
            final(self).pll_locked == old(self).pll_locked,
            final(self).supply_volts == old(self).supply_volts,
            final(self).updated == old(self).updated,
    {
        let silent = !self.received;
        self.keepalive = true;
        self.received = false;
        silent
    }

    /// Marks the link as alive.
    pub fn mark_received(&mut self)
        ensures
            final(self).received,
            same_settings(*old(self), *final(self)),
            final(self).receiver == old(self).receiver,
            final(self).transmitter == old(self).transmitter,
            final(self).ptt == old(self).ptt && final(self).dot == old(self).dot,
            final(self).dash == old(self).dash,
            final(self).pll_locked == old(self).pll_locked,
            final(self).supply_volts == old(self).supply_volts,
            final(self).updated == old(self).updated,
            final(self).keepalive == old(self).keepalive,
    {
        self.received = true;
    }

    /// Feeds interleaved IQ pairs to receiver `ddc`; returns its full buffers.
    pub fn add_iq(&mut self, ddc: usize, iq: &Vec<i32>) -> (r: Vec<Vec<i32>>)
        requires
            old(self).wf(),
            ddc < 2,
            iq@.len() % 2 == 0,
        ensures
            final(self).wf(),
            same_settings(*old(self), *final(self)),
            final(self).transmitter == old(self).transmitter,
            final(self).ptt == old(self).ptt && final(self).dot == old(self).dot,
            final(self).dash == old(self).dash,
            final(self).pll_locked == old(self).pll_locked,
            final(self).supply_volts == old(self).supply_volts,
            final(self).updated == old(self).updated,
            final(self).keepalive == old(self).keepalive,
            final(self).received == old(self).received,
            final(self).receiver@.len() == 2,
            final(self).receiver@[1 - ddc] == old(self).receiver@[1 - ddc],
            Receiver::iq_fed(old(self).receiver@[ddc as int], iq@, final(self).receiver@[ddc as int], r@),
    {
        let r = self.receiver[ddc].add_iq_samples(iq);
        r
    }
}

/// Whether two radio states agree on every setting. They may differ in the
/// receivers, the transmitter, the key and telemetry fields, and the link flags.
pub open spec fn same_settings(a: Radio, b: Radio) -> bool {
    b.name == a.name
        && b.dev == a.dev
        && b.model == a.model
        && b.protocol == a.protocol
        && b.supported_receivers == a.supported_receivers
        && b.sample_rate == a.sample_rate
        && b.sample_rate_changed == a.sample_rate_changed
        && b.active_receiver == a.active_receiver
        && b.receivers == a.receivers
        && b.rx2_enabled == a.rx2_enabled
        && b.split == a.split
        && b.mox == a.mox
        && b.vox == a.vox
        && b.tune == a.tune
        && b.external_mox == a.external_mox
        && b.filter_board == a.filter_board
        && b.cw_keyer_mode == a.cw_keyer_mode
        && b.cw_keyer_internal == a.cw_keyer_internal
        && b.cw_keys_reversed == a.cw_keys_reversed
        && b.cw_keyer_speed == a.cw_keyer_speed
        && b.cw_keyer_weight == a.cw_keyer_weight
        && b.cw_keyer_spacing == a.cw_keyer_spacing
        && b.cw_keyer_ptt_delay == a.cw_keyer_ptt_delay
        && b.cw_keyer_hang_time == a.cw_keyer_hang_time
        && b.cw_breakin == a.cw_breakin
        && b.cw_keyer_sidetone_volume == a.cw_keyer_sidetone_volume
        && b.cw_keyer_sidetone_frequency == a.cw_keyer_sidetone_frequency
        && b.adc == a.adc
        && b.alex == a.alex
        && b.mk2bpf == a.mk2bpf
        && b.adc_overload == a.adc_overload
        && b.line_in == a.line_in
        && b.mic_boost == a.mic_boost
        && b.mic_ptt == a.mic_ptt
        && b.mic_bias_ring == a.mic_bias_ring
        && b.mic_bias_enable == a.mic_bias_enable
        && b.mic_saturn_xlr == a.mic_saturn_xlr
        && b.notch == a.notch
        && b.notches == a.notches
        && b.cat_enabled == a.cat_enabled
}

/// `r1` is `r0` with a status packet's telemetry taken in, and the link marked
/// as alive.
pub open spec fn telemetry_applied(r0: Radio, t: Telemetry, r1: Radio) -> bool {
    &&& same_settings(r0, r1)
    &&& r1.receiver == r0.receiver
    &&& r1.updated == r0.updated && r1.keepalive == r0.keepalive
    &&& same_transmitter_settings(r0.transmitter, r1.transmitter)
    &&& r1.transmitter.microphone_buffer == r0.transmitter.microphone_buffer
    &&& r1.transmitter.microphone_samples == r0.transmitter.microphone_samples
    &&& r1.transmitter.local_input_changed == r0.transmitter.local_input_changed
    &&& r1.transmitter.input_device_changed == r0.transmitter.input_device_changed
    &&& r1.ptt == t.ptt && r1.dot == t.dot && r1.dash == t.dash
    &&& r1.pll_locked == t.pll_locked
    &&& r1.supply_volts == t.supply_volts as i32
    &&& r1.received
    &&& r1.transmitter.alex_forward_power == t.forward_power
    &&& r1.transmitter.alex_reverse_power == t.reverse_power
}

/// Whether the telemetry changes PTT, dot or dash.
pub open spec fn keys_changed(r: Radio, t: Telemetry) -> bool {
    r.ptt != t.ptt || r.dot != t.dot || r.dash != t.dash
}

} // verus!
