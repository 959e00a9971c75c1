//! The audio engine: the negotiated stream configuration, the stream
//! lifecycle, and the per-buffer mixing step of the real-time callback.
//!
//! The audio backend itself (device enumeration, callback registration,
//! play and pause) lives outside the library. This module decides every
//! lifecycle transition and tells the caller what to ask of the backend;
//! the caller hands back the negotiated format, and reports a backend
//! refusal, as plain values.

use vstd::prelude::*;
use vstd::arithmetic::div_mod::lemma_fundamental_div_mod_converse;
use vstd::arithmetic::mul::lemma_mul_inequality;

use crate::store::{seeded_store, ParameterStore};
use crate::waveform::WaveformState;

verus! {

/// Lifecycle of the audio stream.
#[derive(Debug, Copy, Clone, PartialEq, Eq, Structural)]
pub enum StreamPhase {
    /// No device yet; the engine has never been configured.
    Uninitialized,
    /// Device and format chosen, callback not playing.
    Configured,
    /// Callback registered and playing.
    Running,
    /// Callback deregistered; can be started again.
    Stopped,
}

/// Why the engine could not be opened: no device, or its format could not be
/// read. Fatal to the engine, which keeps its previous state; the interface
/// keeps running without sound.
#[derive(Debug, Copy, Clone, PartialEq, Eq, Structural)]
pub enum DeviceError {
    NoOutputDevice,
    ConfigQueryFailed,
}

/// Why the backend refused a lifecycle transition. Reported, not retried.
#[derive(Debug, Copy, Clone, PartialEq, Eq, Structural)]
pub enum StreamError {
    PlayRejected,
    PauseRejected,
}

/// What the caller must ask of the audio backend after a lifecycle call.
#[derive(Debug, Copy, Clone, PartialEq, Eq, Structural)]
pub enum StreamAction {
    /// Nothing: the request was already satisfied.
    Keep,
    /// Begin playback of the registered callback.
    Play,
    /// Pause playback and release the callback.
    Pause,
}

/// The engine's whole state as the contracts see it.
#[verifier::ext_equal]
pub ghost struct AudioModel {
    pub store: Seq<WaveformState>,
    pub state: StreamPhase,
    pub channels: u16,
    pub sample_rate: u32,
    pub last_error: Option<StreamError>,
}

impl AudioModel {
    /// Once configured, the format is real and the store holds one channel
    /// per negotiated output channel, all well-formed.
    pub open spec fn wf(self) -> bool {
        &&& self.state != StreamPhase::Uninitialized ==> {
            &&& 1 <= self.sample_rate
            &&& self.store.len() == self.channels
        }
        &&& forall|i: int| 0 <= i < self.store.len() ==> (#[trigger] self.store[i]).wf()
    }

    /// The start transition: a running stream (or one with no device) is
    /// left alone; otherwise the stream becomes running and the backend must
    /// be asked to play.
    pub open spec fn started(self) -> (AudioModel, StreamAction) {
        if self.state == StreamPhase::Configured || self.state == StreamPhase::Stopped {
            (AudioModel { state: StreamPhase::Running, ..self }, StreamAction::Play)
        } else {
            (self, StreamAction::Keep)
        }
    }

    /// The stop transition: only a running stream has anything to stop.
    pub open spec fn stopped(self) -> (AudioModel, StreamAction) {
        if self.state == StreamPhase::Running {
            (AudioModel { state: StreamPhase::Stopped, ..self }, StreamAction::Pause)
        } else {
            (self, StreamAction::Keep)
        }
    }

    /// The state after the backend refused an action: the transition that
    /// asked for it is undone and the error is recorded.
    pub open spec fn action_failed(self, action: StreamAction, error: StreamError) -> AudioModel {
        let state = if action == StreamAction::Play && self.state == StreamPhase::Running {
            StreamPhase::Stopped
        } else if action == StreamAction::Pause && self.state == StreamPhase::Stopped {
            StreamPhase::Running
        } else {
            self.state
        };
        AudioModel { state, last_error: Some(error), ..self }
    }
}

/// The audio stream: negotiated format, lifecycle state, and the parameter
/// store its callback reads.
pub struct AudioStream {
    /// One synthesis channel per negotiated output channel.
    pub store: ParameterStore,
    /// Where the stream stands in its lifecycle.
    pub state: StreamPhase,
    /// Negotiated output channel count.
    pub channels: u16,
    /// Negotiated sample rate in hertz.
    pub sample_rate: u32,
    /// The last backend refusal, for the interface to show.
    pub last_error: Option<StreamError>,
}

impl View for AudioStream {
    type V = AudioModel;

    open spec fn view(&self) -> AudioModel {
        AudioModel {
            store: self.store@,
            state: self.state,
            channels: self.channels,
            sample_rate: self.sample_rate,
            last_error: self.last_error,
        }
    }
}

impl Default for AudioStream {
    /// A fresh engine: no device, no channels, nothing running.
    fn default() -> (s: Self)
        ensures
            s@ == (AudioModel {
                store: Seq::<WaveformState>::empty(),
                state: StreamPhase::Uninitialized,
                channels: 0,
                sample_rate: 0,
                last_error: None,
            }),
            s@.wf(),
    {
        AudioStream {
            store: ParameterStore::new(),
            state: StreamPhase::Uninitialized,
            channels: 0,
            sample_rate: 0,
            last_error: None,
        }
    }
}

impl AudioStream {
    /// Open the engine on the format the backend negotiated, passed in as
    /// plain values, or take over the device failure. On success the store
    /// is rebuilt: one channel per output channel, channel `i` seeded at
    /// `440 * (i + 1)` hertz, and the stream is Configured. On failure
    /// nothing changes: the engine keeps its previous state and the error is
    /// returned exactly as given.
    pub fn create_stream(&mut self, negotiated: Result<(u16, u32), DeviceError>) -> (r: Result<
        (),
        DeviceError,
    >)
        requires
            negotiated matches Ok(c) ==> 1 <= c.1,
        ensures
            match negotiated {
                Ok(c) => r is Ok && final(self)@ == (AudioModel {
                    store: seeded_store(c.0, c.1),
                    state: StreamPhase::Configured,
                    channels: c.0,
                    sample_rate: c.1,
                    last_error: None,
                }),
                Err(e) => r == Err::<(), DeviceError>(e) && final(self)@ == old(self)@,
            },
            old(self)@.wf() ==> final(self)@.wf(),
    {
        match negotiated {
            Ok((channels, sample_rate)) => {
                self.store = ParameterStore::with_channels(channels, sample_rate);
                self.state = StreamPhase::Configured;
                self.channels = channels;
                self.sample_rate = sample_rate;
                self.last_error = None;
                proof {
                    assert(final(self)@ =~= AudioModel {
                        store: seeded_store(channels, sample_rate),
                        state: StreamPhase::Configured,
                        channels,
                        sample_rate,
                        last_error: None,
                    });
                }
                Ok(())
            }
            Err(e) => Err(e),
        }
    }

    /// Ask the stream to run. Idempotent: a stream that is already running,
    /// or was never configured, is left exactly as it is and the backend is
    /// asked nothing.
    pub fn start_stream(&mut self) -> (action: StreamAction)
        ensures
            (final(self)@, action) == old(self)@.started(),
    {
        match self.state {
            StreamPhase::Configured | StreamPhase::Stopped => {
                self.state = StreamPhase::Running;
                StreamAction::Play
            }
            _ => StreamAction::Keep,
        }
    }

    /// Ask the stream to stop. Idempotent: a stream that is not running is
    /// left exactly as it is and the backend is asked nothing.
    pub fn stop_stream(&mut self) -> (action: StreamAction)
        ensures
            (final(self)@, action) == old(self)@.stopped(),
    {
        match self.state {
            StreamPhase::Running => {
                self.state = StreamPhase::Stopped;
                StreamAction::Pause
            }
            _ => StreamAction::Keep,
        }
    }

    /// Record that the backend refused the action a lifecycle call just
    /// asked for: the transition is undone and the error kept for the
    /// interface to show.
    pub fn backend_failed(&mut self, action: StreamAction, error: StreamError)
        ensures
            final(self)@ == old(self)@.action_failed(action, error),
    {
        if matches!(action, StreamAction::Play) && matches!(self.state, StreamPhase::Running) {
            self.state = StreamPhase::Stopped;
        } else if matches!(action, StreamAction::Pause)
            && matches!(self.state, StreamPhase::Stopped) {
            self.state = StreamPhase::Running;
        }
        self.last_error = Some(error);
    }
}

/// Idempotent stream control, start half: asking a stream to run twice is
/// the same as asking once — the second request changes nothing and asks
/// nothing of the backend.
pub proof fn lemma_start_idempotent(m: AudioModel)
    ensures
        m.started().0.started() == (m.started().0, StreamAction::Keep),
{
}

/// Idempotent stream control, stop half: asking a stream to stop twice is
/// the same as asking once — the second request changes nothing and asks
/// nothing of the backend.
pub proof fn lemma_stop_idempotent(m: AudioModel)
    ensures
        m.stopped().0.stopped() == (m.stopped().0, StreamAction::Keep),
{
}

/// The mixing step of the real-time callback: each frame's single
/// synthesized value is written to every interleaved output channel of that
/// frame, mono-mixed across the device's channels.
pub fn fill_interleaved<T: Copy>(values: &Vec<T>, channels: usize) -> (out: Vec<T>)
    requires
        1 <= channels,
        values@.len() * channels <= usize::MAX,
    ensures
        out@.len() == values@.len() * channels,
        forall|k: int| 0 <= k < out@.len() ==> out@[k] == values@[k / (channels as int)],
{
    let mut out: Vec<T> = Vec::new();
    let mut f: usize = 0;
    while f < values.len()
        invariant
            1 <= channels,
            values@.len() * channels <= usize::MAX,
            f <= values@.len(),
            out@.len() == f * channels,
            forall|k: int| 0 <= k < out@.len() ==> out@[k] == values@[k / (channels as int)],
        decreases values@.len() - f,
    {
        let v = values[f];
        let ghost base = (f * channels) as int;
        proof {
            lemma_mul_inequality(f as int + 1, values@.len() as int, channels as int);
            assert((f + 1) * channels == f * channels + channels) by (nonlinear_arith);
        }
        let mut c: usize = 0;
        while c < channels
            invariant
                1 <= channels,
                c <= channels,
                base == f * channels,
                base + channels <= usize::MAX,
                out@.len() == base + c,
                v == values@[f as int],
                forall|k: int| 0 <= k < base ==> out@[k] == values@[k / (channels as int)],
                forall|k: int| base <= k < out@.len() ==> out@[k] == values@[f as int],
            decreases channels - c,
        {
            out.push(v);
            c = c + 1;
        }
        proof {
            assert forall|k: int| base <= k < base + channels implies out@[k] == values@[k / (channels as int)] by {
                lemma_fundamental_div_mod_converse(k, channels as int, f as int, k - base);
            }
        }
        f = f + 1;
        proof {
            assert(f * channels == base + channels) by (nonlinear_arith)
                requires
                    base == (f - 1) * channels,
            ;
        }
    }
    out
}

} // verus!
