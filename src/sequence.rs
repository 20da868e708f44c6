use vstd::prelude::*;

verus! {

/// The outbound packet streams, each with a sequence counter of its own.
#[derive(PartialEq, Eq, Structural, Clone, Copy, Debug)]
pub enum Stream {
    General,
    HighPriority,
    ReceiveSpecific,
    TransmitSpecific,
    Audio,
    TxIq,
}

/// The counter value after `c`, wrapping at 2^32.
pub open spec fn successor(c: u32) -> u32 {
    ((c + 1) % 0x1_0000_0000) as u32
}

/// The values that `n` consecutive sends on a stream starting at `c` carry.
pub open spec fn counter_run(c: u32, n: nat) -> Seq<u32>
    decreases n,
{
    if n == 0 {
        Seq::empty()
    } else {
        seq![c] + counter_run(successor(c), (n - 1) as nat)
    }
}

/// The six sequence counters of the outbound streams.
#[derive(Clone, Copy, Debug)]
pub struct SequenceCounters {
    pub general: u32,
    pub high_priority: u32,
    pub receive_specific: u32,
    pub transmit_specific: u32,
    pub audio: u32,
    pub tx_iq: u32,
}

impl SequenceCounters {
    /// The counter of a stream.
    pub open spec fn get(self, s: Stream) -> u32 {
        match s {
            Stream::General => self.general,
            Stream::HighPriority => self.high_priority,
            Stream::ReceiveSpecific => self.receive_specific,
            Stream::TransmitSpecific => self.transmit_specific,
            Stream::Audio => self.audio,
            Stream::TxIq => self.tx_iq,
        }
    }

    /// The counters after one packet is sent on stream `s`.
    pub open spec fn advanced(self, s: Stream) -> SequenceCounters {
        match s {
            Stream::General => SequenceCounters { general: successor(self.general), ..self },
            Stream::HighPriority => SequenceCounters {
                high_priority: successor(self.high_priority),
                ..self
            },
            Stream::ReceiveSpecific => SequenceCounters {
                receive_specific: successor(self.receive_specific),
                ..self
            },
            Stream::TransmitSpecific => SequenceCounters {
                transmit_specific: successor(self.transmit_specific),
                ..self
            },
            Stream::Audio => SequenceCounters { audio: successor(self.audio), ..self },
            Stream::TxIq => SequenceCounters { tx_iq: successor(self.tx_iq), ..self },
        }
    }

    /// All counters at zero.
    pub fn new() -> (r: SequenceCounters)
        ensures
            forall|s: Stream| #[trigger] r.get(s) == 0,
    {
        SequenceCounters {
            general: 0,
            high_priority: 0,
            receive_specific: 0,
            transmit_specific: 0,
            audio: 0,
            tx_iq: 0,
        }
    }

    /// Takes the sequence number for the next packet on stream `s`: the current
    /// value, which then moves on by one, wrapping at 2^32.
    pub fn next(&mut self, s: Stream) -> (r: u32)
        ensures
            r == old(self).get(s),
            *final(self) == old(self).advanced(s),
    {
        match s {
            Stream::General => {
                let v = self.general;
                self.general = v.wrapping_add(1);
                v
            },
            Stream::HighPriority => {
                let v = self.high_priority;
                self.high_priority = v.wrapping_add(1);
                v
            },
            Stream::ReceiveSpecific => {
                let v = self.receive_specific;
                self.receive_specific = v.wrapping_add(1);
                v
            },
            Stream::TransmitSpecific => {
                let v = self.transmit_specific;
                self.transmit_specific = v.wrapping_add(1);
                v
            },
            Stream::Audio => {
                let v = self.audio;
                self.audio = v.wrapping_add(1);
                v
            },
            Stream::TxIq => {
                let v = self.tx_iq;
                self.tx_iq = v.wrapping_add(1);
                v
            },
        }
    }
}

/// Advancing one stream leaves the others as they were, and moves that one on
/// by one.
pub proof fn lemma_streams_independent(c: SequenceCounters, s: Stream, t: Stream)
    ensures
        c.advanced(s).get(s) == successor(c.get(s)),
        s != t ==> c.advanced(s).get(t) == c.get(t),
{
}

/// `n` consecutive sends on a stream whose counter is `c` carry `c, c + 1, ...,
/// c + n - 1`, modulo 2^32; while `n` is at most 2^32 no value repeats.
pub proof fn lemma_sequence_monotonic(c: u32, n: nat)
    ensures
        counter_run(c, n).len() == n,
        forall|k: int| 0 <= k < n ==> #[trigger] counter_run(c, n)[k] == (c + k) % 0x1_0000_0000,
        n <= 0x1_0000_0000 ==> forall|i: int, j: int|
            0 <= i < j < n ==> #[trigger] counter_run(c, n)[i] != #[trigger] counter_run(c, n)[j],
    decreases n,
{
    if n > 0 {
        let c1 = successor(c);
        lemma_sequence_monotonic(c1, (n - 1) as nat);
        let run = counter_run(c, n);
        let rest = counter_run(c1, (n - 1) as nat);
        assert(run == seq![c] + rest);
        assert forall|k: int| 0 <= k < n implies #[trigger] run[k] == (c + k) % 0x1_0000_0000 by {
            if k > 0 {
                assert(run[k] == rest[k - 1]);
                assert(rest[k - 1] == (c1 + k - 1) % 0x1_0000_0000);
                vstd::arithmetic::div_mod::lemma_add_mod_noop_right(k - 1, c + 1, 0x1_0000_0000);
                assert(c1 == (c + 1) % 0x1_0000_0000);
            } else {
                vstd::arithmetic::div_mod::lemma_small_mod(c as nat, 0x1_0000_0000);
            }
        }
        if n <= 0x1_0000_0000 {
            assert forall|i: int, j: int| 0 <= i < j < n implies #[trigger] run[i] != #[trigger] run[j] by {
                let m: int = 0x1_0000_0000;
                assert(run[i] == (c + i) % m);
                assert(run[j] == (c + j) % m);
                if (c + i) % m == (c + j) % m {
                    vstd::arithmetic::div_mod::lemma_fundamental_div_mod(c + i, m);
                    vstd::arithmetic::div_mod::lemma_fundamental_div_mod(c + j, m);
                    let qi = (c + i) / m;
                    let qj = (c + j) / m;
                    assert(m * (qj - qi) == j - i) by (nonlinear_arith)
                        requires
                            c + i == m * qi + (c + i) % m,
                            c + j == m * qj + (c + j) % m,
                            (c + i) % m == (c + j) % m,
                    ;
                    assert(false) by (nonlinear_arith)
                        requires
                            m * (qj - qi) == j - i,
                            0 < j - i < m,
                            m > 0,
                    ;
                }
            }
        }
    }
}

} // verus!
