use vstd::prelude::*;
use crate::alex::ALEX_ANTENNA_1;
use crate::discovery::Boards;
use crate::fill::{fill_feed, fill_step};
use crate::packets::all_24bit;
use crate::receiver::{chunk, MAX_BUFFER, MODE_USB};

verus! {

/// Sample pairs in one transmit-IQ packet.
pub const IQ_BUFFER_SIZE: usize = 240;

/// The transmitter's configuration, telemetry and microphone accumulator.
#[derive(Debug)]
pub struct Transmitter {
    pub protocol: u8,
    pub board: Boards,
    pub channel: i32,
    pub sample_rate: i32,
    pub dsp_rate: i32,
    pub output_rate: i32,
    /// IQ pairs the DSP engine returns per microphone frame.
    pub output_samples: usize,
    /// Microphone samples per frame handed to the DSP engine.
    pub microphone_buffer_size: usize,
    pub microphone_buffer: Vec<i16>,
    pub microphone_samples: usize,
    pub fft_size: i32,
    pub mode: usize,
    pub filter_low: i32,
    pub filter_high: i32,
    /// Drive level, in percent.
    pub drive: u32,
    pub micgain: i32,
    pub tx_antenna: u32,
    /// Power-meter constants of the board, in thousandths.
    pub c1: u32,
    pub c2: u32,
    pub exciter_power: u16,
    pub alex_forward_power: u16,
    pub alex_reverse_power: u16,
    pub remote_input: bool,
    pub local_input: bool,
    pub local_input_changed: bool,
    pub input_device: String,
    pub input_device_changed: bool,
    pub lineingain: u8,
}

/// The power-meter constants of a board, in thousandths.
pub open spec fn power_constants(board: Boards) -> (u32, u32) {
    match board {
        Boards::Hermes | Boards::Hermes2 | Boards::Angelia => (3300, 95),
        Boards::Orion => (5000, 108),
        Boards::Orion2 => (5000, 80),
        Boards::HermesLite | Boards::HermesLite2 => (3300, 1400),
        _ => (3300, 90),
    }
}

impl Transmitter {
    pub open spec fn wf(&self) -> bool {
        &&& 0 < self.microphone_buffer_size <= MAX_BUFFER
        &&& self.microphone_buffer@.len() == self.microphone_buffer_size
        &&& self.microphone_samples < self.microphone_buffer_size
    }

    /// The microphone samples gathered so far.
    pub open spec fn pending_mic(&self) -> Seq<i16> {
        self.microphone_buffer@.subrange(0, self.microphone_samples as int)
    }

    /// A transmitter on DSP channel `chan` with the defaults for the protocol and
    /// board: 48 kHz microphone input; for Protocol 2 a 96 kHz DSP rate and 192 kHz
    /// output, so four output pairs per input sample.
    pub fn new(chan: u8, proto: u8, board: Boards) -> (r: Transmitter)
        ensures
            r.wf(),
            r.channel == chan,
            r.protocol == proto,
            r.board == board,
            r.sample_rate == 48000,
            r.dsp_rate == (if proto == 2 { 96000int } else { 48000 }),
            r.output_rate == (if proto == 2 { 192000int } else { 48000 }),
            r.output_samples == (if proto == 2 { 4096int } else { 1024 }),
            r.microphone_buffer_size == 1024,
            r.microphone_samples == 0,
            r.mode == MODE_USB,
            r.filter_low == 300 && r.filter_high == 2700,
            r.drive == 25,
            r.tx_antenna == ALEX_ANTENNA_1,
            (r.c1, r.c2) == power_constants(board),
            r.remote_input && !r.local_input,
    {
        let sample_rate: i32 = 48000;
        let (dsp_rate, output_rate, output_samples) = if proto == 2 {
            (96000i32, 192000i32, 1024 * (192000usize / 48000))
        } else {
            (48000i32, 48000i32, 1024usize)
        };
        let (c1, c2) = match board {
            Boards::Hermes | Boards::Hermes2 | Boards::Angelia => (3300u32, 95u32),
            Boards::Orion => (5000, 108),
            Boards::Orion2 => (5000, 80),
            Boards::HermesLite | Boards::HermesLite2 => (3300, 1400),
            _ => (3300, 90),
        };
        let microphone_buffer_size: usize = 1024;
        Transmitter {
            protocol: proto,
            board,
            channel: chan as i32,
            sample_rate,
            dsp_rate,
            output_rate,
            output_samples,
            microphone_buffer_size,
            microphone_buffer: vec![0i16; microphone_buffer_size],
            microphone_samples: 0,
            fft_size: 2048,
            mode: MODE_USB,
            filter_low: 300,
            filter_high: 2700,
            drive: 25,
            micgain: 0,
            tx_antenna: ALEX_ANTENNA_1,
            c1,
            c2,
            exciter_power: 0,
            alex_forward_power: 0,
            alex_reverse_power: 0,
            remote_input: true,
            local_input: false,
            local_input_changed: false,
            input_device: String::from_str("default"),
            input_device_changed: false,
            lineingain: 0,
        }
    }

    /// Empties the microphone accumulator for a new session.
    pub fn init(&mut self)
        requires
            old(self).wf(),
        ensures
            final(self).wf(),
            final(self).microphone_samples == 0,
            final(self).microphone_buffer_size == old(self).microphone_buffer_size,
    {
        self.microphone_buffer = vec![0i16; self.microphone_buffer_size];
        self.microphone_samples = 0;
    }

    /// Adds one microphone sample. When a whole frame has gathered it is handed
    /// back for the DSP engine and the accumulator restarts.
    pub fn add_mic_sample(&mut self, sample: i16) -> (r: Option<Vec<i16>>)
        requires
            old(self).wf(),
        ensures
            final(self).wf(),
            (final(self).microphone_samples as nat, r is Some) == fill_step(
                old(self).microphone_samples as nat,
                old(self).microphone_buffer_size as nat,
            ),
            final(self).microphone_buffer@ == old(self).microphone_buffer@.update(
                old(self).microphone_samples as int,
                sample,
            ),
            r is Some ==> r->0@ == final(self).microphone_buffer@,
            same_except_mic(*old(self), *final(self)),
    {
        let at = self.microphone_samples;
        self.microphone_buffer[at] = sample;
        self.microphone_samples = at + 1;
        if self.microphone_samples >= self.microphone_buffer_size {
            self.microphone_samples = 0;
            let full = self.microphone_buffer.clone();
            assert(full@ =~= self.microphone_buffer@);
            Some(full)
        } else {
            None
        }
    }

    /// Adds microphone samples in order. Every completed frame is handed back,
    /// so the result is the gathered samples followed by `samples`, cut into
    /// whole frames; the leftover stays gathered.
    pub fn add_mic_samples(&mut self, samples: &Vec<i16>) -> (r: Vec<Vec<i16>>)
        requires
            old(self).wf(),
        ensures
            final(self).wf(),
            (final(self).microphone_samples as nat, r@.len()) == fill_feed(
                old(self).microphone_samples as nat,
                samples@.len() as nat,
                old(self).microphone_buffer_size as nat,
            ),
            forall|k: int|
                0 <= k < r@.len() ==> #[trigger] r@[k]@ == chunk(
                    old(self).pending_mic() + samples@,
                    old(self).microphone_buffer_size as int,
                    k,
                ),
            final(self).pending_mic() == (old(self).pending_mic() + samples@).subrange(
                old(self).microphone_buffer_size * r@.len(),
                old(self).pending_mic().len() + samples@.len() as int,
            ),
            same_except_mic(*old(self), *final(self)),
    {
        let ghost all = old(self).pending_mic() + samples@;
        let ghost len = self.microphone_buffer_size as int;
        let ghost start = self.microphone_samples as int;
        let mut out: Vec<Vec<i16>> = Vec::new();
        let mut j: usize = 0;
        assert(self.pending_mic() =~= all.subrange(0, start));
        assert(out@.len() == 0 && len * 0 == 0);
        while j < samples.len()
            invariant
                self.wf(),
                j <= samples@.len(),
                same_except_mic(*old(self), *self),
                all == old(self).pending_mic() + samples@,
                old(self).pending_mic().len() == start,
                len == self.microphone_buffer_size,
                forall|k: int| 0 <= k < out@.len() ==> #[trigger] out@[k]@ == chunk(all, len, k),
                self.pending_mic() == all.subrange(len * out@.len(), start + j),
                len * out@.len() + self.microphone_samples == start + j,
            decreases samples@.len() - j,
        {
            let ghost before = *self;
            let ghost q = out@.len() as int;
            let r = self.add_mic_sample(samples[j]);
            proof {
                assert(before.pending_mic().len() == before.microphone_samples);
                assert(all[start + j] == samples@[j as int]);
                assert(self.microphone_buffer@.subrange(0, before.microphone_samples + 1) =~= all.subrange(
                    len * q,
                    start + j + 1,
                ));
            }
            match r {
                Some(full) => {
                    proof {
                        assert(before.microphone_samples + 1 == len);
                        assert(full@ =~= self.microphone_buffer@.subrange(0, len));
                        assert(len * (q + 1) == len * q + len) by (nonlinear_arith);
                        assert(q * len == len * q) by (nonlinear_arith);
                        assert((q + 1) * len == len * (q + 1)) by (nonlinear_arith);
                        assert(full@ == chunk(all, len, q));
                        assert(self.pending_mic() =~= all.subrange(len * (q + 1), start + j + 1));
                    }
                    let ghost prev = out@;
                    out.push(full);
                    proof {
                        assert forall|k: int| 0 <= k < out@.len() implies #[trigger] out@[k]@
                            == chunk(all, len, k) by {
                            if k < q {
                                assert(out@[k] == prev[k]);
                            }
                        }
                    }
                },
                None => {},
            }
            j = j + 1;
        }
        proof {
            let n = samples@.len() as nat;
            crate::fill::lemma_fill_feed(start as nat, n, len as nat);
            vstd::arithmetic::div_mod::lemma_fundamental_div_mod_converse(
                start + n,
                len,
                out@.len() as int,
                self.microphone_samples as int,
            );
            assert(out@.len() * len == len * out@.len()) by (nonlinear_arith);
        }
        out
    }

    /// Reads the local-input setting and clears its change flags; returns whether
    /// local input is on, whether it changed and whether its device changed.
    pub fn take_input_flags(&mut self) -> (r: (bool, bool, bool))
        requires
            old(self).wf(),
        ensures
            final(self).wf(),
            r == (old(self).local_input, old(self).local_input_changed, old(self).input_device_changed),
            !final(self).local_input_changed && !final(self).input_device_changed,
            inputs_taken(*old(self), *final(self)),
    {
        let r = (self.local_input, self.local_input_changed, self.input_device_changed);
        self.local_input_changed = false;
        self.input_device_changed = false;
        proof {
            reveal(inputs_taken);
        }
        r
    }

    /// The frequency of the tuning tone: the middle of the transmit filter,
    /// rounded down to a whole Hz.
    pub fn tune_tone_frequency(&self) -> (r: i64)
        ensures
            r == (self.filter_low + self.filter_high) / 2,
    {
        let sum = self.filter_low as i64 + self.filter_high as i64;
        if sum >= 0 {
            sum / 2
        } else {
            -((-sum + 1) / 2)
        }
    }
}

/// The largest magnitude among the negative samples of a frame (0 if none):
/// the microphone level that is shown while transmitting.
pub open spec fn mic_peak_of(frame: Seq<i16>) -> int
    decreases frame.len(),
{
    if frame.len() == 0 {
        0
    } else {
        let rest = mic_peak_of(frame.drop_last());
        let s = frame.last();
        if s < 0 && -s > rest {
            -s
        } else {
            rest
        }
    }
}

/// Computes the microphone level of a frame.
pub fn mic_peak(frame: &Vec<i16>) -> (r: i32)
    ensures
        r == mic_peak_of(frame@),
{
    let mut level: i32 = 0;
    let mut k: usize = 0;
    while k < frame.len()
        invariant
            k <= frame@.len(),
            level == mic_peak_of(frame@.subrange(0, k as int)),
            0 <= level <= 0x8000,
        decreases frame@.len() - k,
    {
        let s = frame[k];
        proof {
            assert(frame@.subrange(0, k + 1).drop_last() =~= frame@.subrange(0, k as int));
        }
        if s < 0 && -(s as i32) > level {
            level = -(s as i32);
        }
        k = k + 1;
    }
    assert(frame@.subrange(0, frame@.len() as int) =~= frame@);
    level
}

/// The staging buffer of transmit IQ pairs: filled from the DSP output, and
/// flushed as one network packet each time it holds `IQ_BUFFER_SIZE` pairs.
#[derive(Debug)]
pub struct IqStaging {
    /// Interleaved I and Q; the first `offset` pairs are filled.
    pub buffer: Vec<i32>,
    pub offset: usize,
}

impl IqStaging {
    pub open spec fn wf(&self) -> bool {
        &&& self.buffer@.len() == 2 * IQ_BUFFER_SIZE
        &&& self.offset < IQ_BUFFER_SIZE
        &&& all_24bit(self.buffer@)
    }

    /// The pairs staged so far, interleaved.
    pub open spec fn pending(&self) -> Seq<i32> {
        self.buffer@.subrange(0, 2 * self.offset)
    }

    /// An empty staging buffer.
    pub fn new() -> (r: IqStaging)
        ensures
            r.wf(),
            r.offset == 0,
    {
        let buffer = vec![0i32; 2 * IQ_BUFFER_SIZE];
        assert(buffer@ =~= Seq::new(2 * IQ_BUFFER_SIZE as nat, |k: int| 0i32));
        IqStaging { buffer, offset: 0 }
    }

    /// Stages one pair. A full buffer is handed back, and staging starts over.
    pub fn push(&mut self, i: i32, q: i32) -> (r: Option<Vec<i32>>)
        requires
            old(self).wf(),
            crate::bytes::SAMPLE24_MIN <= i <= crate::bytes::SAMPLE24_MAX,
            crate::bytes::SAMPLE24_MIN <= q <= crate::bytes::SAMPLE24_MAX,
        ensures
            final(self).wf(),
            (final(self).offset as nat, r is Some) == fill_step(
                old(self).offset as nat,
                IQ_BUFFER_SIZE as nat,
            ),
            final(self).buffer@ == old(self).buffer@.update(2 * old(self).offset, i).update(
                2 * old(self).offset + 1,
                q,
            ),
            r is Some ==> r->0@ == final(self).buffer@,
    {
        let at = 2 * self.offset;
        self.buffer[at] = i;
        self.buffer[at + 1] = q;
        self.offset = self.offset + 1;
        if self.offset >= IQ_BUFFER_SIZE {
            self.offset = 0;
            let full = self.buffer.clone();
            assert(full@ =~= self.buffer@);
            Some(full)
        } else {
            None
        }
    }

    /// Stages interleaved pairs in order. Every full buffer is handed back, so the
    /// result is the staged pairs followed by `iq`, cut into whole packets; the
    /// leftover stays staged for the next frame.
    pub fn stage(&mut self, iq: &Vec<i32>) -> (r: Vec<Vec<i32>>)
        requires
            old(self).wf(),
            iq@.len() % 2 == 0,
            all_24bit(iq@),
        ensures
            final(self).wf(),
            forall|k: int| 0 <= k < r@.len() ==> all_24bit(#[trigger] r@[k]@),
            forall|k: int| 0 <= k < r@.len() ==> (#[trigger] r@[k]@).len() == 2 * IQ_BUFFER_SIZE,
            (final(self).offset as nat, r@.len()) == fill_feed(
                old(self).offset as nat,
                (iq@.len() / 2) as nat,
                IQ_BUFFER_SIZE as nat,
            ),
            forall|k: int|
                0 <= k < r@.len() ==> #[trigger] r@[k]@ == chunk(
                    old(self).pending() + iq@,
                    2 * IQ_BUFFER_SIZE,
                    k,
                ),
            final(self).pending() == (old(self).pending() + iq@).subrange(
                2 * IQ_BUFFER_SIZE * r@.len(),
                old(self).pending().len() + iq@.len() as int,
            ),
    {
        let ghost all = old(self).pending() + iq@;
        let ghost len = 2 * IQ_BUFFER_SIZE as int;
        let ghost start = self.offset as int;
        let mut out: Vec<Vec<i32>> = Vec::new();
        let mut j: usize = 0;
        assert(self.pending() =~= all.subrange(0, 2 * start));
        assert(out@.len() == 0 && len * 0 == 0);
        while j < iq.len()
            invariant
                self.wf(),
                j % 2 == 0,
                j <= iq@.len(),
                iq@.len() % 2 == 0,
                all == old(self).pending() + iq@,
                old(self).pending().len() == 2 * start,
                len == 2 * IQ_BUFFER_SIZE,
                all_24bit(iq@),
                forall|k: int| 0 <= k < out@.len() ==> #[trigger] out@[k]@ == chunk(all, len, k),
                forall|k: int| 0 <= k < out@.len() ==> all_24bit(#[trigger] out@[k]@),
                forall|k: int| 0 <= k < out@.len() ==> (#[trigger] out@[k]@).len() == len,
                self.pending() == all.subrange(len * out@.len(), 2 * start + j),
                len * out@.len() + 2 * self.offset == 2 * start + j,
            decreases iq@.len() - j,
        {
            let ghost before = *self;
            let ghost q = out@.len() as int;
            let r = self.push(iq[j], iq[j + 1]);
            proof {
                assert(before.pending().len() == 2 * before.offset);
                assert(all[2 * start + j] == iq@[j as int]);
                assert(all[2 * start + j + 1] == iq@[j + 1]);
                assert(self.buffer@.subrange(0, 2 * before.offset + 2) =~= all.subrange(
                    len * q,
                    2 * start + j + 2,
                ));
            }
            match r {
                Some(full) => {
                    proof {
                        assert(2 * before.offset + 2 == len);
                        assert(full@ =~= self.buffer@.subrange(0, len));
                        assert(len * (q + 1) == len * q + len) by (nonlinear_arith);
                        assert(q * len == len * q) by (nonlinear_arith);
                        assert((q + 1) * len == len * (q + 1)) by (nonlinear_arith);
                        assert(full@ == chunk(all, len, q));
                        assert(self.pending() =~= all.subrange(len * (q + 1), 2 * start + j + 2));
                    }
                    let ghost prev = out@;
                    out.push(full);
                    proof {
                        assert forall|k: int| 0 <= k < out@.len() implies #[trigger] out@[k]@
                            == chunk(all, len, k) by {
                            if k < q {
                                assert(out@[k] == prev[k]);
                            }
                        }
                        assert forall|k: int| 0 <= k < out@.len() implies all_24bit(#[trigger] out@[k]@) && out@[k]@.len() == len by {
                            if k < q {
                                assert(out@[k] == prev[k]);
                            }
                        }
                    }
                },
                None => {},
            }
            j = j + 2;
        }
        proof {
            let n = (iq@.len() / 2) as nat;
            let cap = IQ_BUFFER_SIZE as int;
            crate::fill::lemma_fill_feed(start as nat, n, cap as nat);
            assert(cap * out@.len() + self.offset == start + n) by (nonlinear_arith)
                requires
                    len * out@.len() + 2 * self.offset == 2 * start + j,
                    len == 2 * cap,
                    j == 2 * n,
            ;
            vstd::arithmetic::div_mod::lemma_fundamental_div_mod_converse(
                start + n,
                cap,
                out@.len() as int,
                self.offset as int,
            );
            assert(out@.len() * cap == cap * out@.len()) by (nonlinear_arith);
        }
        out
    }
}

/// Whether two transmitter states agree on every setting. They may differ in
/// the microphone accumulator, the power telemetry and the change flags.
pub open spec fn same_transmitter_settings(a: Transmitter, b: Transmitter) -> bool {
    b.protocol == a.protocol
        && b.board == a.board
        && b.channel == a.channel
        && b.sample_rate == a.sample_rate
        && b.dsp_rate == a.dsp_rate
        && b.output_rate == a.output_rate
        && b.output_samples == a.output_samples
        && b.microphone_buffer_size == a.microphone_buffer_size
        && b.fft_size == a.fft_size
        && b.mode == a.mode
        && b.filter_low == a.filter_low
        && b.filter_high == a.filter_high
        && b.drive == a.drive
        && b.micgain == a.micgain
        && b.tx_antenna == a.tx_antenna
        && b.c1 == a.c1
        && b.c2 == a.c2
        && b.exciter_power == a.exciter_power
        && b.remote_input == a.remote_input
        && b.local_input == a.local_input
        && b.input_device == a.input_device
        && b.lineingain == a.lineingain
}

/// Whether two transmitter states differ at most in the microphone accumulator.
pub open spec fn same_except_mic(a: Transmitter, b: Transmitter) -> bool {
    b.protocol == a.protocol
            && b.board == a.board
            && b.channel == a.channel
            && b.sample_rate == a.sample_rate
            && b.dsp_rate == a.dsp_rate
            && b.output_rate == a.output_rate
            && b.output_samples == a.output_samples
            && b.microphone_buffer_size == a.microphone_buffer_size
            && b.fft_size == a.fft_size
            && b.mode == a.mode
            && b.filter_low == a.filter_low
            && b.filter_high == a.filter_high
            && b.drive == a.drive
            && b.micgain == a.micgain
            && b.tx_antenna == a.tx_antenna
            && b.c1 == a.c1
            && b.c2 == a.c2
            && b.exciter_power == a.exciter_power
            && b.alex_forward_power == a.alex_forward_power
            && b.alex_reverse_power == a.alex_reverse_power
            && b.remote_input == a.remote_input
            && b.local_input == a.local_input
            && b.local_input_changed == a.local_input_changed
            && b.input_device == a.input_device
            && b.input_device_changed == a.input_device_changed
            && b.lineingain == a.lineingain
}

/// `b` is `a` with the local-input change flags cleared.
#[verifier::opaque]
pub open spec fn inputs_taken(a: Transmitter, b: Transmitter) -> bool {
    &&& !b.local_input_changed && !b.input_device_changed
    &&& same_transmitter_settings(a, b)
    &&& b.microphone_buffer == a.microphone_buffer
    &&& b.microphone_samples == a.microphone_samples
    &&& b.alex_forward_power == a.alex_forward_power
    &&& b.alex_reverse_power == a.alex_reverse_power
}

} // verus!
