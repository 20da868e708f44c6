use vstd::prelude::*;
use crate::alex::Antenna;
use crate::bytes::pcm16_bytes;
use crate::fill::{fill_feed, fill_step};

verus! {

/// Largest magnitude of a frequency or offset in Hz that the state holds.
pub const MAX_FREQUENCY: i64 = 0x100_0000_0000;

// Modes of operation, as the DSP engine numbers them.
pub const MODE_LSB: usize = 0;
pub const MODE_USB: usize = 1;
pub const MODE_DSB: usize = 2;
pub const MODE_CWL: usize = 3;
pub const MODE_CWU: usize = 4;
pub const MODE_FMN: usize = 5;
pub const MODE_AM: usize = 6;

/// Number of bands in a band table, and the index of the 20 m band.
pub const NUM_BANDS: usize = 15;
pub const BAND_20: usize = 7;

/// Largest size of a sample or audio buffer.
pub const MAX_BUFFER: usize = 0x100_0000;

/// Sample rates are sent in kHz in 16 bits, so they stay below this.
pub const MAX_SAMPLE_RATE: i32 = 65_536_000;

/// Bytes at the start of the remote-audio buffer kept for the sequence number.
pub const AUDIO_HEADER: usize = 4;

/// Per-band settings of a receiver.
#[derive(Clone, Copy, Debug)]
pub struct BandInfo {
    /// Local-oscillator offset of a transverter, in Hz.
    pub lo: i64,
    /// Calibration error of that oscillator, in Hz.
    pub lo_error: i64,
    pub antenna: Antenna,
    pub tx_antenna: Antenna,
    pub attenuation: u8,
}

impl BandInfo {
    pub open spec fn wf(self) -> bool {
        -MAX_FREQUENCY < self.lo < MAX_FREQUENCY && -MAX_FREQUENCY < self.lo_error < MAX_FREQUENCY
    }

    /// A band with no transverter, on the first antenna, with no attenuation.
    pub fn plain() -> (r: BandInfo)
        ensures
            r.wf(),
            r.lo == 0 && r.lo_error == 0 && r.attenuation == 0,
            r.antenna == Antenna::ANT1 && r.tx_antenna == Antenna::ANT1,
    {
        BandInfo { lo: 0, lo_error: 0, antenna: Antenna::ANT1, tx_antenna: Antenna::ANT1, attenuation: 0 }
    }

    /// The default band table: every band plain.
    pub fn default_table() -> (r: Vec<BandInfo>)
        ensures
            r@.len() == NUM_BANDS,
            forall|i: int| 0 <= i < NUM_BANDS ==> #[trigger] r@[i] == BandInfo::plain_spec(),
    {
        let mut v: Vec<BandInfo> = Vec::new();
        while v.len() < NUM_BANDS
            invariant
                v@.len() <= NUM_BANDS,
                forall|i: int| 0 <= i < v@.len() ==> #[trigger] v@[i] == BandInfo::plain_spec(),
            decreases NUM_BANDS - v@.len(),
        {
            v.push(BandInfo::plain());
        }
        v
    }

    pub open spec fn plain_spec() -> BandInfo {
        BandInfo { lo: 0, lo_error: 0, antenna: Antenna::ANT1, tx_antenna: Antenna::ANT1, attenuation: 0 }
    }
}

/// Where a receiver's audio goes on the local sound card.
#[derive(PartialEq, Eq, Structural, Clone, Copy, Debug)]
pub enum AudioOutput {
    Stereo,
    Left,
    Right,
    Mute,
}

/// The state of one receive channel (DDC).
#[derive(Debug)]
pub struct Receiver {
    pub channel: i32,
    pub subrx_channel: i32,
    pub adc: u8,
    pub sample_rate: i32,
    /// IQ pairs gathered before the DSP engine is asked to process them.
    pub buffer_size: usize,
    /// Audio pairs the DSP engine returns per processed buffer.
    pub output_samples: usize,
    pub band: usize,
    pub band_info: Vec<BandInfo>,
    /// Tuned frequency (VFO A), in Hz.
    pub frequency: i64,
    /// Frequency of the sub-receiver (VFO B), in Hz.
    pub frequency_b: i64,
    pub step: i64,
    pub ctun: bool,
    pub ctun_frequency: i64,
    pub mode: usize,
    pub filter_low: i32,
    pub filter_high: i32,
    pub cw_pitch: i32,
    pub active: bool,
    /// Raw IQ pairs, interleaved I then Q; the first `samples` pairs are filled.
    pub iq_input_buffer: Vec<i32>,
    pub samples: usize,
    pub local_output: bool,
    pub local_output_changed: bool,
    pub local_output_changed_to: bool,
    pub local_output_device_changed: bool,
    pub output_device: String,
    pub audio_output: AudioOutput,
    /// Stereo pairs per local playback buffer.
    pub local_audio_buffer_size: usize,
    pub local_audio_buffer: Vec<i16>,
    pub local_audio_buffer_offset: usize,
    /// Bytes per remote-audio packet, sequence header included.
    pub remote_audio_buffer_size: usize,
    pub remote_audio_buffer: Vec<u8>,
    pub remote_audio_buffer_offset: usize,
}

/// The offset in the remote-audio buffer after one more stereo sample, and
/// whether the buffer was flushed.
pub open spec fn audio_step(offset: nat, size: nat) -> (nat, bool) {
    if offset + 4 >= size {
        (AUDIO_HEADER as nat, true)
    } else {
        ((offset + 4) as nat, false)
    }
}

/// The audio pair that reaches the local sound card under a routing mode.
pub open spec fn routed(mode: AudioOutput, left: i16, right: i16) -> (i16, i16) {
    match mode {
        AudioOutput::Stereo => (left, right),
        AudioOutput::Left => (left, 0),
        AudioOutput::Right => (0, right),
        AudioOutput::Mute => (0, 0),
    }
}

/// A stereo pair moves the remote-audio offset on by four bytes; the buffer is
/// flushed exactly when the offset reaches the buffer size, and the offset is
/// then back at the header reservation, never more or less.
pub proof fn lemma_audio_flush_boundary(offset: nat, size: nat)
    requires
        size >= 8,
        size % 4 == 0,
        AUDIO_HEADER <= offset < size,
        offset % 4 == 0,
    ensures
        audio_step(offset, size).1 <==> offset + 4 == size,
        audio_step(offset, size).1 ==> audio_step(offset, size).0 == AUDIO_HEADER,
        !audio_step(offset, size).1 ==> audio_step(offset, size).0 == offset + 4
            && offset + 4 < size,
{
}

/// `all` cut into consecutive pieces of `len` elements, the last piece whole.
pub open spec fn chunk<T>(all: Seq<T>, len: int, k: int) -> Seq<T> {
    all.subrange(k * len, (k + 1) * len)
}

impl Receiver {
    pub open spec fn wf(&self) -> bool {
        &&& 0 < self.buffer_size <= MAX_BUFFER
        &&& 0 < self.sample_rate < MAX_SAMPLE_RATE
        &&& self.local_audio_buffer_size <= MAX_BUFFER
        &&& self.remote_audio_buffer_size <= MAX_BUFFER
        &&& self.iq_input_buffer@.len() == 2 * self.buffer_size
        &&& self.samples < self.buffer_size
        &&& self.local_audio_buffer_size > 0
        &&& self.local_audio_buffer@.len() == 2 * self.local_audio_buffer_size
        &&& self.local_audio_buffer_offset < self.local_audio_buffer_size
        &&& self.remote_audio_buffer_size >= 8
        &&& self.remote_audio_buffer_size % 4 == 0
        &&& self.remote_audio_buffer@.len() == self.remote_audio_buffer_size
        &&& AUDIO_HEADER <= self.remote_audio_buffer_offset < self.remote_audio_buffer_size
        &&& self.remote_audio_buffer_offset % 4 == 0
        &&& self.band < self.band_info@.len()
        &&& forall|i: int| 0 <= i < self.band_info@.len() ==> (#[trigger] self.band_info@[i]).wf()
        &&& -MAX_FREQUENCY < self.frequency < MAX_FREQUENCY
        &&& -MAX_FREQUENCY < self.frequency_b < MAX_FREQUENCY
        &&& -MAX_FREQUENCY < self.ctun_frequency < MAX_FREQUENCY
    }

    /// The settings of the receiver's current band.
    pub open spec fn band_spec(&self) -> BandInfo {
        self.band_info@[self.band as int]
    }

    /// The raw IQ samples gathered so far, interleaved.
    pub open spec fn pending_iq(&self) -> Seq<i32> {
        self.iq_input_buffer@.subrange(0, 2 * self.samples)
    }

    /// The frequency that the receiver listens on: the CTUN frequency when
    /// click-tune is on, else the tuned frequency.
    pub open spec fn listen_frequency(&self) -> int {
        if self.ctun {
            self.ctun_frequency as int
        } else {
            self.frequency as int
        }
    }

    /// A receiver on channel `chan` with the default settings: 20 m, USB,
    /// 384 kHz sampling, 1024-pair IQ buffers and 260-byte audio packets.
    pub fn new(chan: u8, band_info: Vec<BandInfo>) -> (r: Receiver)
        requires
            band_info@.len() > BAND_20,
            forall|i: int| 0 <= i < band_info@.len() ==> (#[trigger] band_info@[i]).wf(),
        ensures
            r.wf(),
            r.channel == chan,
            r.subrx_channel == chan + 16,
            r.band == BAND_20,
            r.band_info == band_info,
            r.frequency == 14_175_000 && r.frequency_b == 14_250_000,
            r.mode == MODE_USB,
            r.sample_rate == 384_000,
            r.buffer_size == 1024 && r.output_samples == 128,
            r.samples == 0,
            r.remote_audio_buffer_size == 260 && r.remote_audio_buffer_offset == AUDIO_HEADER,
            r.local_audio_buffer_size == 2048 && r.local_audio_buffer_offset == 0,
            r.active == (chan == 0),
            !r.ctun && !r.local_output,
    {
        let buffer_size: usize = 1024;
        let sample_rate: i32 = 384_000;
        let local_audio_buffer_size: usize = 2048;
        let remote_audio_buffer_size: usize = 260;
        let decimation: usize = (sample_rate / 48000) as usize;
        assert(decimation == 8);
        Receiver {
            channel: chan as i32,
            subrx_channel: chan as i32 + 16,
            adc: 0,
            sample_rate,
            buffer_size,
            output_samples: buffer_size / decimation,
            band: BAND_20,
            band_info,
            frequency: 14_175_000,
            frequency_b: 14_250_000,
            step: 1000,
            ctun: false,
            ctun_frequency: 0,
            mode: MODE_USB,
            filter_low: 300,
            filter_high: 2700,
            cw_pitch: 200,
            active: chan == 0,
            iq_input_buffer: vec![0i32; 2 * buffer_size],
            samples: 0,
            local_output: false,
            local_output_changed: false,
            local_output_changed_to: false,
            local_output_device_changed: false,
            output_device: String::new(),
            audio_output: AudioOutput::Stereo,
            local_audio_buffer_size,
            local_audio_buffer: vec![0i16; 2 * local_audio_buffer_size],
            local_audio_buffer_offset: 0,
            remote_audio_buffer_size,
            remote_audio_buffer: vec![0u8; remote_audio_buffer_size],
            remote_audio_buffer_offset: AUDIO_HEADER,
        }
    }

    /// Resets the session buffers for a new engine session: no pending IQ,
    /// empty local audio, and the remote-audio offset back past the header.
    pub fn init(&mut self)
        requires
            old(self).wf(),
        ensures
            final(self).wf(),
            final(self).samples == 0,
            final(self).local_audio_buffer_offset == 0,
            final(self).remote_audio_buffer_offset == AUDIO_HEADER,
            final(self).buffer_size == old(self).buffer_size,
            final(self).remote_audio_buffer_size == old(self).remote_audio_buffer_size,
            final(self).local_audio_buffer_size == old(self).local_audio_buffer_size,
            final(self).frequency == old(self).frequency,
            final(self).band == old(self).band,
            final(self).band_info == old(self).band_info,
    {
        self.iq_input_buffer = vec![0i32; 2 * self.buffer_size];
        self.samples = 0;
        self.local_audio_buffer = vec![0i16; 2 * self.local_audio_buffer_size];
        self.local_audio_buffer_offset = 0;
        self.remote_audio_buffer = vec![0u8; self.remote_audio_buffer_size];
        self.remote_audio_buffer_offset = AUDIO_HEADER;
    }

    /// Adds one raw IQ pair. When the buffer reaches `buffer_size` pairs it is
    /// handed back whole, for one DSP processing pass, and the count restarts at zero.
    pub fn add_iq_sample(&mut self, i: i32, q: i32) -> (r: Option<Vec<i32>>)
        requires
            old(self).wf(),
        ensures
            final(self).wf(),
            (final(self).samples as nat, r is Some) == fill_step(
                old(self).samples as nat,
                old(self).buffer_size as nat,
            ),
            final(self).iq_input_buffer@ == old(self).iq_input_buffer@.update(
                2 * old(self).samples,
                i,
            ).update(2 * old(self).samples + 1, q),
            r is Some ==> r->0@ == final(self).iq_input_buffer@,
            final(self).buffer_size == old(self).buffer_size,
            Self::same_except_iq(*old(self), *final(self)),
    {
        let at = 2 * self.samples;
        self.iq_input_buffer[at] = i;
        self.iq_input_buffer[at + 1] = q;
        self.samples = self.samples + 1;
        if self.samples >= self.buffer_size {
            self.samples = 0;
            let full = self.iq_input_buffer.clone();
            assert(full@ =~= self.iq_input_buffer@);
            Some(full)
        } else {
            None
        }
    }

    /// Interleaved IQ pairs fed to `rx0`: `rx1` is the receiver after them, and
    /// `full` its full buffers, in order.
    pub open spec fn iq_fed(rx0: Receiver, iq: Seq<i32>, rx1: Receiver, full: Seq<Vec<i32>>) -> bool {
        let all = rx0.pending_iq() + iq;
        let len = 2 * rx0.buffer_size as int;
        &&& rx1.wf()
        &&& (rx1.samples as nat, full.len()) == fill_feed(
            rx0.samples as nat,
            (iq.len() / 2) as nat,
            rx0.buffer_size as nat,
        )
        &&& forall|k: int| 0 <= k < full.len() ==> #[trigger] full[k]@ == chunk(all, len, k)
        &&& rx1.pending_iq() == all.subrange(len * full.len(), all.len() as int)
        &&& Self::same_except_iq(rx0, rx1)
    }

    /// Whether local output is on after the pending output changes are applied:
    /// a device change while output was on reopens it; otherwise a requested
    /// change takes effect.
    pub open spec fn local_output_after(&self) -> bool {
        if self.local_output_device_changed && self.local_output {
            true
        } else if self.local_output_changed {
            self.local_output_changed_to
        } else {
            self.local_output
        }
    }

    /// Applies and clears the pending local-output changes; returns, as they were
    /// before, whether output changed, what it changed to, whether the device
    /// changed, and whether output was on.
    pub fn take_output_flags(&mut self) -> (r: (bool, bool, bool, bool))
        requires
            old(self).wf(),
        ensures
            final(self).wf(),
            r == (
                old(self).local_output_changed,
                old(self).local_output_changed_to,
                old(self).local_output_device_changed,
                old(self).local_output,
            ),
            final(self).local_output == old(self).local_output_after(),
            !final(self).local_output_changed,
            !final(self).local_output_device_changed,
            Self::same_except_output_flags(*old(self), *final(self)),
    {
        let r = (
            self.local_output_changed,
            self.local_output_changed_to,
            self.local_output_device_changed,
            self.local_output,
        );
        if self.local_output_changed {
            self.local_output = self.local_output_changed_to;
            self.local_output_changed = false;
        }
        if r.2 && r.3 {
            self.local_output = true;
        }
        self.local_output_device_changed = false;
        r
    }

    /// Two receivers that differ at most in their audio buffers and offsets.
    pub open spec fn same_audio_settings(a: Receiver, b: Receiver) -> bool {
        b.channel == a.channel
            && b.subrx_channel == a.subrx_channel
            && b.adc == a.adc
            && b.sample_rate == a.sample_rate
            && b.buffer_size == a.buffer_size
            && b.output_samples == a.output_samples
            && b.band == a.band
            && b.band_info == a.band_info
            && b.frequency == a.frequency
            && b.frequency_b == a.frequency_b
            && b.step == a.step
            && b.ctun == a.ctun
            && b.ctun_frequency == a.ctun_frequency
            && b.mode == a.mode
            && b.filter_low == a.filter_low
            && b.filter_high == a.filter_high
            && b.cw_pitch == a.cw_pitch
            && b.active == a.active
            && b.iq_input_buffer == a.iq_input_buffer
            && b.samples == a.samples
            && b.local_output == a.local_output
            && b.local_output_changed == a.local_output_changed
            && b.local_output_changed_to == a.local_output_changed_to
            && b.local_output_device_changed == a.local_output_device_changed
            && b.output_device == a.output_device
            && b.audio_output == a.audio_output
            && b.local_audio_buffer_size == a.local_audio_buffer_size
            && b.remote_audio_buffer_size == a.remote_audio_buffer_size
    }

    /// Two receivers that differ at most in their tuned and CTUN frequencies.
    pub open spec fn same_except_tuning(a: Receiver, b: Receiver) -> bool {
        b.channel == a.channel
            && b.subrx_channel == a.subrx_channel
            && b.adc == a.adc
            && b.sample_rate == a.sample_rate
            && b.buffer_size == a.buffer_size
            && b.output_samples == a.output_samples
            && b.band == a.band
            && b.band_info == a.band_info
            && b.frequency_b == a.frequency_b
            && b.step == a.step
            && b.ctun == a.ctun
            && b.mode == a.mode
            && b.filter_low == a.filter_low
            && b.filter_high == a.filter_high
            && b.cw_pitch == a.cw_pitch
            && b.active == a.active
            && b.iq_input_buffer == a.iq_input_buffer
            && b.samples == a.samples
            && b.local_output == a.local_output
            && b.local_output_changed == a.local_output_changed
            && b.local_output_changed_to == a.local_output_changed_to
            && b.local_output_device_changed == a.local_output_device_changed
            && b.output_device == a.output_device
            && b.audio_output == a.audio_output
            && b.local_audio_buffer_size == a.local_audio_buffer_size
            && b.local_audio_buffer == a.local_audio_buffer
            && b.local_audio_buffer_offset == a.local_audio_buffer_offset
            && b.remote_audio_buffer_size == a.remote_audio_buffer_size
            && b.remote_audio_buffer == a.remote_audio_buffer
            && b.remote_audio_buffer_offset == a.remote_audio_buffer_offset
    }

    /// Sets the frequency that the receiver listens on: the CTUN frequency when
    /// click-tune is on, else the tuned frequency.
    pub fn set_listen_frequency(&mut self, f: i64)
        requires
            old(self).wf(),
            -MAX_FREQUENCY < f < MAX_FREQUENCY,
        ensures
            final(self).wf(),
            final(self).listen_frequency() == f,
            Self::same_except_tuning(*old(self), *final(self)),
            old(self).ctun ==> final(self).frequency == old(self).frequency,
            !old(self).ctun ==> final(self).ctun_frequency == old(self).ctun_frequency,
    {
        if self.ctun {
            self.ctun_frequency = f;
        } else {
            self.frequency = f;
        }
    }

    /// Two receivers that differ at most in their raw-IQ buffer and count.
    pub open spec fn same_except_iq(a: Receiver, b: Receiver) -> bool {
        b.channel == a.channel
            && b.subrx_channel == a.subrx_channel
            && b.adc == a.adc
            && b.sample_rate == a.sample_rate
            && b.buffer_size == a.buffer_size
            && b.output_samples == a.output_samples
            && b.band == a.band
            && b.band_info == a.band_info
            && b.frequency == a.frequency
            && b.frequency_b == a.frequency_b
            && b.step == a.step
            && b.ctun == a.ctun
            && b.ctun_frequency == a.ctun_frequency
            && b.mode == a.mode
            && b.filter_low == a.filter_low
            && b.filter_high == a.filter_high
            && b.cw_pitch == a.cw_pitch
            && b.active == a.active
            && b.local_output == a.local_output
            && b.local_output_changed == a.local_output_changed
            && b.local_output_changed_to == a.local_output_changed_to
            && b.local_output_device_changed == a.local_output_device_changed
            && b.output_device == a.output_device
            && b.audio_output == a.audio_output
            && b.local_audio_buffer_size == a.local_audio_buffer_size
            && b.local_audio_buffer == a.local_audio_buffer
            && b.local_audio_buffer_offset == a.local_audio_buffer_offset
            && b.remote_audio_buffer_size == a.remote_audio_buffer_size
            && b.remote_audio_buffer == a.remote_audio_buffer
            && b.remote_audio_buffer_offset == a.remote_audio_buffer_offset
    }

    /// Two receivers that differ at most in their remote-audio buffer and offset.
    pub open spec fn same_except_remote_audio(a: Receiver, b: Receiver) -> bool {
        b.channel == a.channel
            && b.subrx_channel == a.subrx_channel
            && b.adc == a.adc
            && b.sample_rate == a.sample_rate
            && b.buffer_size == a.buffer_size
            && b.output_samples == a.output_samples
            && b.band == a.band
            && b.band_info == a.band_info
            && b.frequency == a.frequency
            && b.frequency_b == a.frequency_b
            && b.step == a.step
            && b.ctun == a.ctun
            && b.ctun_frequency == a.ctun_frequency
            && b.mode == a.mode
            && b.filter_low == a.filter_low
            && b.filter_high == a.filter_high
            && b.cw_pitch == a.cw_pitch
            && b.active == a.active
            && b.iq_input_buffer == a.iq_input_buffer
            && b.samples == a.samples
            && b.local_output == a.local_output
            && b.local_output_changed == a.local_output_changed
            && b.local_output_changed_to == a.local_output_changed_to
            && b.local_output_device_changed == a.local_output_device_changed
            && b.output_device == a.output_device
            && b.audio_output == a.audio_output
            && b.local_audio_buffer_size == a.local_audio_buffer_size
            && b.local_audio_buffer == a.local_audio_buffer
            && b.local_audio_buffer_offset == a.local_audio_buffer_offset
            && b.remote_audio_buffer_size == a.remote_audio_buffer_size
    }

    /// Two receivers that differ at most in their local-audio buffer and offset.
    pub open spec fn same_except_local_audio(a: Receiver, b: Receiver) -> bool {
        b.channel == a.channel
            && b.subrx_channel == a.subrx_channel
            && b.adc == a.adc
            && b.sample_rate == a.sample_rate
            && b.buffer_size == a.buffer_size
            && b.output_samples == a.output_samples
            && b.band == a.band
            && b.band_info == a.band_info
            && b.frequency == a.frequency
            && b.frequency_b == a.frequency_b
            && b.step == a.step
            && b.ctun == a.ctun
            && b.ctun_frequency == a.ctun_frequency
            && b.mode == a.mode
            && b.filter_low == a.filter_low
            && b.filter_high == a.filter_high
            && b.cw_pitch == a.cw_pitch
            && b.active == a.active
            && b.iq_input_buffer == a.iq_input_buffer
            && b.samples == a.samples
            && b.local_output == a.local_output
            && b.local_output_changed == a.local_output_changed
            && b.local_output_changed_to == a.local_output_changed_to
            && b.local_output_device_changed == a.local_output_device_changed
            && b.output_device == a.output_device
            && b.audio_output == a.audio_output
            && b.local_audio_buffer_size == a.local_audio_buffer_size
            && b.remote_audio_buffer_size == a.remote_audio_buffer_size
            && b.remote_audio_buffer == a.remote_audio_buffer
            && b.remote_audio_buffer_offset == a.remote_audio_buffer_offset
    }

    /// Two receivers that differ at most in their local-output flags.
    pub open spec fn same_except_output_flags(a: Receiver, b: Receiver) -> bool {
        b.channel == a.channel
            && b.subrx_channel == a.subrx_channel
            && b.adc == a.adc
            && b.sample_rate == a.sample_rate
            && b.buffer_size == a.buffer_size
            && b.output_samples == a.output_samples
            && b.band == a.band
            && b.band_info == a.band_info
            && b.frequency == a.frequency
            && b.frequency_b == a.frequency_b
            && b.step == a.step
            && b.ctun == a.ctun
            && b.ctun_frequency == a.ctun_frequency
            && b.mode == a.mode
            && b.filter_low == a.filter_low
            && b.filter_high == a.filter_high
            && b.cw_pitch == a.cw_pitch
            && b.active == a.active
            && b.iq_input_buffer == a.iq_input_buffer
            && b.samples == a.samples
            && b.local_output_changed_to == a.local_output_changed_to
            && b.output_device == a.output_device
            && b.audio_output == a.audio_output
            && b.local_audio_buffer_size == a.local_audio_buffer_size
            && b.local_audio_buffer == a.local_audio_buffer
            && b.local_audio_buffer_offset == a.local_audio_buffer_offset
            && b.remote_audio_buffer_size == a.remote_audio_buffer_size
            && b.remote_audio_buffer == a.remote_audio_buffer
            && b.remote_audio_buffer_offset == a.remote_audio_buffer_offset
    }

    /// Adds interleaved IQ pairs in order. Each time the buffer fills, its pairs
    /// are handed back, so the result is the pending pairs followed by `iq`, cut
    /// into whole buffers; what is left over stays pending.
    pub fn add_iq_samples(&mut self, iq: &Vec<i32>) -> (r: Vec<Vec<i32>>)
        requires
            old(self).wf(),
            iq@.len() % 2 == 0,
        ensures
            Self::iq_fed(*old(self), iq@, *final(self), r@),
            final(self).wf(),
            (final(self).samples as nat, r@.len()) == fill_feed(
                old(self).samples as nat,
                (iq@.len() / 2) as nat,
                old(self).buffer_size as nat,
            ),
            forall|k: int|
                0 <= k < r@.len() ==> #[trigger] r@[k]@ == chunk(
                    old(self).pending_iq() + iq@,
                    2 * old(self).buffer_size,
                    k,
                ),
            final(self).pending_iq() == (old(self).pending_iq() + iq@).subrange(
                2 * old(self).buffer_size * r@.len(),
                old(self).pending_iq().len() + iq@.len() as int,
            ),
            Self::same_except_iq(*old(self), *final(self)),
    {
        let ghost all = old(self).pending_iq() + iq@;
        let ghost len = 2 * self.buffer_size as int;
        let ghost start = self.samples as int;
        let mut out: Vec<Vec<i32>> = Vec::new();
        let mut j: usize = 0;
        assert(self.pending_iq() =~= all.subrange(0, 2 * start));
        assert(out@.len() == 0 && len * 0 == 0);
        while j < iq.len()
            invariant
                self.wf(),
                j % 2 == 0,
                j <= iq@.len(),
                iq@.len() % 2 == 0,
                self.buffer_size == old(self).buffer_size,
                Self::same_except_iq(*old(self), *self),
                all == old(self).pending_iq() + iq@,
                old(self).pending_iq().len() == 2 * start,
                len == 2 * self.buffer_size,
                start == old(self).samples,
                forall|k: int| 0 <= k < out@.len() ==> #[trigger] out@[k]@ == chunk(all, len, k),
                self.pending_iq() == all.subrange(len * out@.len(), 2 * start + j),
                len * out@.len() + 2 * self.samples == 2 * start + j,
            decreases iq@.len() - j,
        {
            let ghost before = *self;
            let ghost q = out@.len() as int;
            let r = self.add_iq_sample(iq[j], iq[j + 1]);
            proof {
                assert(before.pending_iq().len() == 2 * before.samples);
                assert(all[2 * start + j] == iq@[j as int]);
                assert(all[2 * start + j + 1] == iq@[j + 1]);
                assert(self.iq_input_buffer@.subrange(0, 2 * before.samples + 2) =~= all.subrange(
                    len * q,
                    2 * start + j + 2,
                ));
            }
            match r {
                Some(full) => {
                    proof {
                        assert(2 * before.samples + 2 == len);
                        assert(full@ =~= self.iq_input_buffer@.subrange(0, len));
                        assert(len * (q + 1) == len * q + len) by (nonlinear_arith);
                        assert(q * len == len * q) by (nonlinear_arith);
                        assert((q + 1) * len == len * (q + 1)) by (nonlinear_arith);
                        assert(full@ == chunk(all, len, q));
                        assert(self.pending_iq() =~= all.subrange(len * (q + 1), 2 * start + j + 2));
                    }
                    let ghost prev = out@;
                    out.push(full);
                    proof {
                        assert forall|k: int| 0 <= k < out@.len() implies #[trigger] out@[k]@ == chunk(all, len, k) by {
                            if k < q {
                                assert(out@[k] == prev[k]);
                            }
                        }
                    }
                },
                None => {},
            }
            j = j + 2;
        }
        proof {
            let n = (iq@.len() / 2) as nat;
            let cap = self.buffer_size as int;
            crate::fill::lemma_fill_feed(start as nat, n, cap as nat);
            assert(cap * out@.len() + self.samples == start + n) by (nonlinear_arith)
                requires
                    len * out@.len() + 2 * self.samples == 2 * start + j,
                    len == 2 * cap,
                    j == 2 * n,
            ;
            vstd::arithmetic::div_mod::lemma_fundamental_div_mod_converse(
                start + n,
                cap,
                out@.len() as int,
                self.samples as int,
            );
            assert(out@.len() * cap == cap * out@.len()) by (nonlinear_arith);
        }
        out
    }

    /// Appends one stereo audio pair (16-bit PCM, big-endian, left then right) to
    /// the remote-audio buffer. When the offset reaches the buffer size the whole
    /// buffer is handed back for sending and the offset returns to the header.
    pub fn add_remote_audio(&mut self, left: i16, right: i16) -> (r: Option<Vec<u8>>)
        requires
            old(self).wf(),
        ensures
            final(self).wf(),
            (final(self).remote_audio_buffer_offset as nat, r is Some) == audio_step(
                old(self).remote_audio_buffer_offset as nat,
                old(self).remote_audio_buffer_size as nat,
            ),
            final(self).remote_audio_buffer@ == Self::with_audio(
                old(self).remote_audio_buffer@,
                old(self).remote_audio_buffer_offset as int,
                left,
                right,
            ),
            r is Some ==> r->0@ == final(self).remote_audio_buffer@,
            Self::same_except_remote_audio(*old(self), *final(self)),
    {
        let at = self.remote_audio_buffer_offset;
        let (l0, l1) = crate::bytes::encode_pcm16(left);
        let (r0, r1) = crate::bytes::encode_pcm16(right);
        self.remote_audio_buffer[at] = l0;
        self.remote_audio_buffer[at + 1] = l1;
        self.remote_audio_buffer[at + 2] = r0;
        self.remote_audio_buffer[at + 3] = r1;
        self.remote_audio_buffer_offset = at + 4;
        if self.remote_audio_buffer_offset >= self.remote_audio_buffer_size {
            self.remote_audio_buffer_offset = AUDIO_HEADER;
            let full = self.remote_audio_buffer.clone();
            assert(full@ =~= self.remote_audio_buffer@);
            Some(full)
        } else {
            None
        }
    }

    /// `buf` with the PCM bytes of a stereo pair written at `at`.
    pub open spec fn with_audio(buf: Seq<u8>, at: int, left: i16, right: i16) -> Seq<u8> {
        buf.update(at, pcm16_bytes(left)[0]).update(at + 1, pcm16_bytes(left)[1]).update(
            at + 2,
            pcm16_bytes(right)[0],
        ).update(at + 3, pcm16_bytes(right)[1])
    }

    /// Appends one stereo pair to the local playback buffer as the routing mode
    /// directs. When the buffer is full it is handed back for playback and the
    /// offset returns to zero.
    pub fn add_local_audio(&mut self, left: i16, right: i16) -> (r: Option<Vec<i16>>)
        requires
            old(self).wf(),
        ensures
            final(self).wf(),
            final(self).local_audio_buffer@ == old(self).local_audio_buffer@.update(
                2 * old(self).local_audio_buffer_offset,
                routed(old(self).audio_output, left, right).0,
            ).update(
                2 * old(self).local_audio_buffer_offset + 1,
                routed(old(self).audio_output, left, right).1,
            ),
            (final(self).local_audio_buffer_offset as nat, r is Some) == fill_step(
                old(self).local_audio_buffer_offset as nat,
                old(self).local_audio_buffer_size as nat,
            ),
            r is Some ==> r->0@ == final(self).local_audio_buffer@,
            Self::same_except_local_audio(*old(self), *final(self)),
    {
        let (l, r) = match self.audio_output {
            AudioOutput::Stereo => (left, right),
            AudioOutput::Left => (left, 0i16),
            AudioOutput::Right => (0i16, right),
            AudioOutput::Mute => (0i16, 0i16),
        };
        let at = 2 * self.local_audio_buffer_offset;
        self.local_audio_buffer[at] = l;
        self.local_audio_buffer[at + 1] = r;
        self.local_audio_buffer_offset = self.local_audio_buffer_offset + 1;
        if self.local_audio_buffer_offset == self.local_audio_buffer_size {
            self.local_audio_buffer_offset = 0;
            let full = self.local_audio_buffer.clone();
            assert(full@ =~= self.local_audio_buffer@);
            Some(full)
        } else {
            None
        }
    }

    /// Hands one stereo pair to the remote-audio buffer and, when local output is
    /// on, to the local playback buffer; returns the buffers that filled.
    pub fn add_audio(&mut self, left: i16, right: i16) -> (r: (Option<Vec<u8>>, Option<Vec<i16>>))
        requires
            old(self).wf(),
        ensures
            final(self).wf(),
            audio_added(*old(self), left, right, *final(self), r.0, r.1),
    {
        let remote = self.add_remote_audio(left, right);
        if self.local_output {
            let local = self.add_local_audio(left, right);
            proof {
                reveal(audio_added);
            }
            (remote, local)
        } else {
            proof {
                reveal(audio_added);
            }
            (remote, None)
        }
    }

    /// The shift, in Hz, of the CTUN frequency from the tuned frequency, moved by
    /// the CW pitch in the CW modes (up for CWL, down for CWU).
    pub open spec fn ctun_offset_spec(&self) -> int {
        Self::pitch_adjusted(self.ctun_frequency - self.frequency, self.mode, self.cw_pitch as int)
    }

    /// The shift, in Hz, of the sub-receiver from the tuned frequency, moved by the
    /// CW pitch as for CTUN.
    pub open spec fn subrx_offset_spec(&self) -> int {
        Self::pitch_adjusted(self.frequency_b - self.frequency, self.mode, self.cw_pitch as int)
    }

    pub open spec fn pitch_adjusted(offset: int, mode: usize, pitch: int) -> int {
        if mode == MODE_CWL {
            offset + pitch
        } else if mode == MODE_CWU {
            offset - pitch
        } else {
            offset
        }
    }

    /// Computes the CTUN shift handed to the DSP engine.
    pub fn ctun_offset(&self) -> (r: i64)
        requires
            self.wf(),
        ensures
            r == self.ctun_offset_spec(),
    {
        let offset = self.ctun_frequency - self.frequency;
        if self.mode == MODE_CWL {
            offset + self.cw_pitch as i64
        } else if self.mode == MODE_CWU {
            offset - self.cw_pitch as i64
        } else {
            offset
        }
    }

    /// Computes the sub-receiver shift handed to the DSP engine.
    pub fn subrx_offset(&self) -> (r: i64)
        requires
            self.wf(),
        ensures
            r == self.subrx_offset_spec(),
    {
        let offset = self.frequency_b - self.frequency;
        if self.mode == MODE_CWL {
            offset + self.cw_pitch as i64
        } else if self.mode == MODE_CWU {
            offset - self.cw_pitch as i64
        } else {
            offset
        }
    }

    /// The receive passband handed to the DSP engine: the filter edges, centred
    /// on the CW pitch in the CW modes.
    pub fn passband(&self) -> (r: (i64, i64))
        ensures
            (r.0 as int, r.1 as int) == (if self.mode == MODE_CWL || self.mode == MODE_CWU {
                (self.cw_pitch - self.filter_low, self.cw_pitch + self.filter_high)
            } else {
                (self.filter_low as int, self.filter_high as int)
            }),
    {
        if self.mode == MODE_CWL || self.mode == MODE_CWU {
            (
                self.cw_pitch as i64 - self.filter_low as i64,
                self.cw_pitch as i64 + self.filter_high as i64,
            )
        } else {
            (self.filter_low as i64, self.filter_high as i64)
        }
    }

    /// Takes a new hardware sample rate: the DSP output per buffer shrinks with the
    /// decimation from the rate down to 48 kHz.
    pub fn sample_rate_changed(&mut self, rate: i32)
        requires
            old(self).wf(),
            48000 <= rate < MAX_SAMPLE_RATE,
        ensures
            final(self).wf(),
            final(self).sample_rate == rate,
            final(self).output_samples == old(self).buffer_size as int / (rate / 48000) as int,
            *final(self) == (Receiver {
                sample_rate: final(self).sample_rate,
                output_samples: final(self).output_samples,
                ..*old(self)
            }),
    {
        self.sample_rate = rate;
        self.output_samples = self.buffer_size / (rate / 48000) as usize;
    }
}

/// The audio state of a receiver as numbers and sequences: the remote-audio
/// buffer and offset, and the local playback buffer and offset.
pub struct AudioModel {
    pub remote: Seq<u8>,
    pub remote_offset: nat,
    pub local: Seq<i16>,
    pub local_offset: nat,
}

/// The audio state of a receiver.
pub open spec fn audio_model(rx: Receiver) -> AudioModel {
    AudioModel {
        remote: rx.remote_audio_buffer@,
        remote_offset: rx.remote_audio_buffer_offset as nat,
        local: rx.local_audio_buffer@,
        local_offset: rx.local_audio_buffer_offset as nat,
    }
}

/// One stereo pair into an audio state, under a receiver's settings: the new
/// state, the remote buffer if it filled, and the local buffer if it filled.
pub open spec fn audio_pair(m: AudioModel, rx: Receiver, left: i16, right: i16) -> (AudioModel, Option<Seq<u8>>, Option<Seq<i16>>) {
    let remote = Receiver::with_audio(m.remote, m.remote_offset as int, left, right);
    let (remote_offset, flushed) = audio_step(m.remote_offset, rx.remote_audio_buffer_size as nat);
    if rx.local_output {
        let (l, r) = routed(rx.audio_output, left, right);
        let local = m.local.update(2 * m.local_offset as int, l).update(2 * m.local_offset as int + 1, r);
        let (local_offset, played) = fill_step(m.local_offset, rx.local_audio_buffer_size as nat);
        (
            AudioModel { remote, remote_offset, local, local_offset },
            if flushed { Some(remote) } else { None },
            if played { Some(local) } else { None },
        )
    } else {
        (
            AudioModel { remote, remote_offset, local: m.local, local_offset: m.local_offset },
            if flushed { Some(remote) } else { None },
            None,
        )
    }
}

/// `rx1` is `rx0` after one stereo pair, and `remote` and `local` the buffers
/// that filled.
#[verifier::opaque]
pub open spec fn audio_added(
    rx0: Receiver,
    left: i16,
    right: i16,
    rx1: Receiver,
    remote: Option<Vec<u8>>,
    local: Option<Vec<i16>>,
) -> bool {
    let (m, fr, fl) = audio_pair(audio_model(rx0), rx0, left, right);
    &&& rx1.wf()
    &&& audio_model(rx1) == m
    &&& (remote is Some) == (fr is Some)
    &&& remote is Some ==> remote->0@ == fr->0
    &&& (local is Some) == (fl is Some)
    &&& local is Some ==> local->0@ == fl->0
    &&& Receiver::same_audio_settings(rx0, rx1)
}

/// Feeding exactly `buffer_size` IQ pairs into a receiver with none pending
/// fills its buffer once, for one DSP processing pass, and leaves the count at
/// zero; one pair fewer fills it no time.
pub proof fn lemma_buffer_fill_triggers_once(rx0: Receiver, iq: Seq<i32>, rx1: Receiver, full: Seq<Vec<i32>>)
    requires
        rx0.wf(),
        rx0.samples == 0,
        Receiver::iq_fed(rx0, iq, rx1, full),
        iq.len() == 2 * rx0.buffer_size || iq.len() == 2 * (rx0.buffer_size - 1),
    ensures
        iq.len() == 2 * rx0.buffer_size ==> full.len() == 1 && rx1.samples == 0,
        iq.len() == 2 * (rx0.buffer_size - 1) ==> full.len() == 0 && rx1.samples
            == rx0.buffer_size - 1,
{
    crate::fill::lemma_fill_exactly_once(rx0.buffer_size as nat);
    assert(iq.len() == 2 * rx0.buffer_size ==> iq.len() / 2 == rx0.buffer_size);
    assert(iq.len() == 2 * (rx0.buffer_size - 1) ==> iq.len() / 2 == rx0.buffer_size - 1);
}

} // verus!
