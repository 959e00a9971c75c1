//! The parameter store: one synthesis channel per entry, indexed by channel
//! number. It is the single point through which the interface side updates
//! parameters and the audio side reads them; every read hands out a whole
//! channel state by value, so a reader never sees fields from two different
//! writes mixed together.

use vstd::prelude::*;

use crate::parameter::Parameter;
use crate::waveform::{waveform_index, WaveformState, WaveformType};

verus! {

/// The shape at a position in the shape order, defaulting to the last shape
/// out of range (only used for positions 0 to 4).
pub open spec fn waveform_at(i: int) -> WaveformType {
    if i == 0 {
        WaveformType::Sine
    } else if i == 1 {
        WaveformType::Square
    } else if i == 2 {
        WaveformType::Triangle
    } else if i == 3 {
        WaveformType::Sawtooth
    } else {
        WaveformType::Noise
    }
}

/// What a single-field write does to one channel's state: `Some` of the new
/// state when the field and value are accepted, `None` when the write is
/// rejected and the state keeps. Values are in thousandths; for the waveform
/// field the value is the 1-based shape number in whole units (1000 to 5999).
/// A write never touches the phase accumulator or the sample rate.
pub open spec fn written(s: WaveformState, field: Parameter, value: i64) -> Option<WaveformState> {
    match field {
        Parameter::Frequency => Some(WaveformState { frequency: value, ..s }),
        Parameter::Amplitude => Some(WaveformState { amplitude: value, ..s }),
        Parameter::Waveform => if 1 <= value / 1000 && value / 1000 <= 5 {
            Some(WaveformState { waveform_type: waveform_at(value / 1000 - 1), ..s })
        } else {
            None
        },
        Parameter::PhaseOffset => Some(WaveformState { phase_offset: value, ..s }),
        Parameter::DcOffset => Some(WaveformState { dc_offset: value, ..s }),
        Parameter::Pan => None,
    }
}

/// Apply a single-field write to one channel state, exactly as `written`
/// says; `None` when the field or value is rejected.
pub fn write_state(s: &WaveformState, field: Parameter, value: i64) -> (r: Option<WaveformState>)
    ensures
        r == written(*s, field, value),
{
    let current = *s;
    match field {
        Parameter::Frequency => Some(WaveformState { frequency: value, ..current }),
        Parameter::Amplitude => Some(WaveformState { amplitude: value, ..current }),
        Parameter::Waveform => {
            if value >= 1000 && value <= 5999 {
                let number: u64 = (value as u64) / 1000;
                let shape = match WaveformType::from_index((number - 1) as usize) {
                    Some(t) => t,
                    None => WaveformType::Noise,
                };
                proof {
                    assert(waveform_index(waveform_at(value / 1000 - 1)) == value / 1000 - 1);
                }
                Some(WaveformState { waveform_type: shape, ..current })
            } else {
                assert(written(current, field, value) is None);
                None
            }
        }
        Parameter::PhaseOffset => Some(WaveformState { phase_offset: value, ..current }),
        Parameter::DcOffset => Some(WaveformState { dc_offset: value, ..current }),
        Parameter::Pan => None,
    }
}

/// The default frequency of a channel, in thousandths of a hertz: channel `i`
/// starts at `440 * (i + 1)` hertz.
pub open spec fn default_frequency(i: int) -> int {
    440000 * (i + 1)
}

/// The state channel `i` is seeded with: a sine at the default frequency.
pub open spec fn default_channel(sample_rate: u32, i: int) -> WaveformState {
    WaveformState {
        waveform_type: WaveformType::Sine,
        frequency: default_frequency(i) as i64,
        amplitude: 1000,
        phase_offset: 0,
        dc_offset: 0,
        sample_rate,
        phase_accumulator: 0,
    }
}

/// The store a freshly configured stream starts with.
pub open spec fn seeded_store(count: u16, sample_rate: u32) -> Seq<WaveformState> {
    Seq::new(count as nat, |i: int| default_channel(sample_rate, i))
}

/// An ordered, fixed-size collection of channel states. The channel count is
/// fixed when the collection is created; nothing is ever added or removed
/// afterwards.
pub struct ParameterStore {
    channels: Vec<WaveformState>,
}

impl View for ParameterStore {
    type V = Seq<WaveformState>;

    closed spec fn view(&self) -> Seq<WaveformState> {
        self.channels@
    }
}

impl ParameterStore {
    /// Every channel is well-formed.
    pub open spec fn wf(self) -> bool {
        forall|i: int| 0 <= i < self@.len() ==> (#[trigger] self@[i]).wf()
    }

    /// An empty store: no channels until a stream is configured.
    pub fn new() -> (s: Self)
        ensures
            s@ == Seq::<WaveformState>::empty(),
            s.wf(),
    {
        ParameterStore { channels: Vec::new() }
    }

    /// A store with `count` channels at the given sample rate, channel `i`
    /// seeded at `440 * (i + 1)` hertz.
    pub fn with_channels(count: u16, sample_rate: u32) -> (s: Self)
        requires
            1 <= sample_rate,
        ensures
            s@ == seeded_store(count, sample_rate),
            s.wf(),
    {
        let mut channels: Vec<WaveformState> = Vec::new();
        let mut i: u16 = 0;
        while i < count
            invariant
                i <= count,
                1 <= sample_rate,
                channels@.len() == i,
                forall|j: int| 0 <= j < i ==> channels@[j] == default_channel(sample_rate, j),
            decreases count - i,
        {
            let frequency: i64 = 440000 * (i as i64 + 1);
            channels.push(WaveformState::new(sample_rate, frequency));
            i = i + 1;
        }
        let s = ParameterStore { channels };
        proof {
            assert(s@ =~= seeded_store(count, sample_rate));
            assert forall|i: int| 0 <= i < s@.len() implies (#[trigger] s@[i]).wf() by {
                assert(s@[i] == default_channel(sample_rate, i));
            }
        }
        s
    }

    /// How many channels the store was configured with.
    pub fn channel_count(&self) -> (n: usize)
        ensures
            n == self@.len(),
    {
        self.channels.len()
    }

    /// A consistent by-value copy of one channel's whole state, as it stands
    /// at this instant: all fields come from the same store entry, so the
    /// copy can never mix fields from two different writes. A channel index
    /// outside the configured range yields nothing.
    pub fn read_snapshot(&self, channel: usize) -> (r: Option<WaveformState>)
        ensures
            r == if channel < self@.len() {
                Some(self@[channel as int])
            } else {
                Option::<WaveformState>::None
            },
    {
        if channel < self.channels.len() {
            Some(self.channels[channel])
        } else {
            None
        }
    }

    /// Atomically update one field of one channel. A channel index outside
    /// the configured range, or a rejected field or value, changes nothing;
    /// the call never fails and never touches any other channel.
    pub fn write(&mut self, channel: usize, field: Parameter, value: i64) -> (applied: bool)
        ensures
            final(self)@.len() == old(self)@.len(),
            channel >= old(self)@.len() ==> !applied && final(self)@ == old(self)@,
            channel < old(self)@.len() ==> match written(old(self)@[channel as int], field, value) {
                Some(next) => applied && final(self)@ == old(self)@.update(channel as int, next),
                None => !applied && final(self)@ == old(self)@,
            },
            old(self).wf() ==> final(self).wf(),
    {
        if channel >= self.channels.len() {
            return false;
        }
        let current = self.channels[channel];
        match write_state(&current, field, value) {
            Some(next) => {
                self.channels[channel] = next;
                proof {
                    if old(self).wf() {
                        assert forall|i: int| 0 <= i < self@.len() implies (
                        #[trigger] self@[i]).wf() by {
                            assert(old(self)@[i].wf());
                        }
                    }
                }
                true
            }
            None => false,
        }
    }

    /// Zero one channel's phase accumulator; parameters and every other
    /// channel keep. A channel index outside the range changes nothing.
    pub fn reset_phase(&mut self, channel: usize)
        ensures
            final(self)@.len() == old(self)@.len(),
            channel >= old(self)@.len() ==> final(self)@ == old(self)@,
            channel < old(self)@.len() ==> final(self)@ == old(self)@.update(
                channel as int,
                WaveformState { phase_accumulator: 0, ..old(self)@[channel as int] },
            ),
            old(self).wf() ==> final(self).wf(),
    {
        if channel < self.channels.len() {
            let mut st = self.channels[channel];
            st.reset();
            self.channels[channel] = st;
            proof {
                if old(self).wf() {
                    assert forall|i: int| 0 <= i < self@.len() implies (#[trigger] self@[i]).wf()
                    by {
                        assert(old(self)@[i].wf());
                    }
                }
            }
        }
    }

    /// The audio path's read: a consistent snapshot of one channel as it
    /// stands, with the channel's phase advanced by one sample behind it.
    /// The snapshot carries the phase the sample must be synthesized at; the
    /// store then holds the phase for the sample after it.
    pub fn snapshot_and_advance(&mut self, channel: usize) -> (r: Option<WaveformState>)
        requires
            old(self).wf(),
        ensures
            final(self)@.len() == old(self)@.len(),
            channel >= old(self)@.len() ==> r is None && final(self)@ == old(self)@,
            channel < old(self)@.len() ==> {
                &&& r == Some(old(self)@[channel as int])
                &&& final(self)@ == old(self)@.update(
                    channel as int,
                    old(self)@[channel as int].advanced(),
                )
            },
            final(self).wf(),
    {
        if channel < self.channels.len() {
            let snapshot = self.channels[channel];
            let mut st = snapshot;
            st.advance_phase();
            self.channels[channel] = st;
            proof {
                assert forall|i: int| 0 <= i < self@.len() implies (#[trigger] self@[i]).wf()
                by {
                    assert(old(self)@[i].wf());
                }
            }
            Some(snapshot)
        } else {
            None
        }
    }
}

/// One operation on the store, as the two owning threads issue them: a
/// single-field write or a phase reset from the interface side, a
/// snapshot-and-advance from the audio side.
pub enum StoreOp {
    Write { channel: usize, field: Parameter, value: i64 },
    ResetPhase { channel: usize },
    Advance { channel: usize },
}

/// The channel an operation addresses.
pub open spec fn op_channel(op: StoreOp) -> int {
    match op {
        StoreOp::Write { channel, .. } => channel as int,
        StoreOp::ResetPhase { channel } => channel as int,
        StoreOp::Advance { channel } => channel as int,
    }
}

/// What one operation does to the whole store; exactly the `ensures` of
/// `write`, `reset_phase` and `snapshot_and_advance`.
pub open spec fn apply_op(s: Seq<WaveformState>, op: StoreOp) -> Seq<WaveformState> {
    match op {
        StoreOp::Write { channel, field, value } => if channel < s.len() {
            match written(s[channel as int], field, value) {
                Some(next) => s.update(channel as int, next),
                None => s,
            }
        } else {
            s
        },
        StoreOp::ResetPhase { channel } => if channel < s.len() {
            s.update(
                channel as int,
                WaveformState { phase_accumulator: 0, ..s[channel as int] },
            )
        } else {
            s
        },
        StoreOp::Advance { channel } => if channel < s.len() {
            s.update(channel as int, s[channel as int].advanced())
        } else {
            s
        },
    }
}

/// A whole interleaving applied in order.
pub open spec fn apply_ops(s: Seq<WaveformState>, ops: Seq<StoreOp>) -> Seq<WaveformState>
    decreases ops.len(),
{
    if ops.len() == 0 {
        s
    } else {
        apply_op(apply_ops(s, ops.drop_last()), ops.last())
    }
}

/// What one operation does to a single channel's state, taken on its own.
pub open spec fn apply_op_channel(w: WaveformState, op: StoreOp) -> WaveformState {
    match op {
        StoreOp::Write { field, value, .. } => match written(w, field, value) {
            Some(next) => next,
            None => w,
        },
        StoreOp::ResetPhase { .. } => WaveformState { phase_accumulator: 0, ..w },
        StoreOp::Advance { .. } => w.advanced(),
    }
}

/// A sequence of operations applied to a single channel's state, in order.
pub open spec fn apply_ops_channel(w: WaveformState, ops: Seq<StoreOp>) -> WaveformState
    decreases ops.len(),
{
    if ops.len() == 0 {
        w
    } else {
        apply_op_channel(apply_ops_channel(w, ops.drop_last()), ops.last())
    }
}

/// The subsequence of operations addressed to one channel, in order.
pub open spec fn ops_for_channel(ops: Seq<StoreOp>, c: int) -> Seq<StoreOp>
    decreases ops.len(),
{
    if ops.len() == 0 {
        Seq::empty()
    } else if op_channel(ops.last()) == c {
        ops_for_channel(ops.drop_last(), c).push(ops.last())
    } else {
        ops_for_channel(ops.drop_last(), c)
    }
}

/// Operations never add or remove channels.
pub proof fn lemma_apply_ops_len(s: Seq<WaveformState>, ops: Seq<StoreOp>)
    ensures
        apply_ops(s, ops).len() == s.len(),
    decreases ops.len(),
{
    if ops.len() > 0 {
        lemma_apply_ops_len(s, ops.drop_last());
    }
}

/// Snapshot atomicity: after any interleaving of operations from the two
/// threads, a snapshot of channel `c` is exactly the result of the
/// operations addressed to `c`, applied whole and in order, to that
/// channel's starting state. Every snapshot therefore belongs to one single
/// generation — no mixture of two writes — and operations addressed to other
/// channels never show in it.
pub proof fn lemma_snapshot_atomicity(s: Seq<WaveformState>, ops: Seq<StoreOp>, c: int)
    requires
        0 <= c < s.len(),
    ensures
        apply_ops(s, ops)[c] == apply_ops_channel(s[c], ops_for_channel(ops, c)),
    decreases ops.len(),
{
    if ops.len() > 0 {
        let pre = ops.drop_last();
        let op = ops.last();
        lemma_snapshot_atomicity(s, pre, c);
        lemma_apply_ops_len(s, pre);
        if op_channel(op) == c {
            assert(ops_for_channel(ops, c).drop_last() =~= ops_for_channel(pre, c));
        }
    }
}

/// Channel isolation: an interleaving whose operations all address other
/// channels leaves channel `c` exactly as it was.
pub proof fn lemma_channel_isolation(s: Seq<WaveformState>, ops: Seq<StoreOp>, c: int)
    requires
        0 <= c < s.len(),
        forall|i: int| 0 <= i < ops.len() ==> op_channel(#[trigger] ops[i]) != c,
    ensures
        apply_ops(s, ops)[c] == s[c],
    decreases ops.len(),
{
    if ops.len() > 0 {
        assert(op_channel(ops.last()) != c);
        lemma_channel_isolation(s, ops.drop_last(), c);
        lemma_apply_ops_len(s, ops.drop_last());
    }
}

} // verus!
