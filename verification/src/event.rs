//! The event pipeline: a background producer polls the terminal with a
//! bounded timeout, classifies what arrives, and merges it with a periodic
//! tick; an order-preserving queue carries the events to the main loop.
//!
//! The terminal driver itself (poll, read) and the producer thread live
//! outside the library. This module decides what each polling turn emits
//! and keeps the queue order; the caller hands in what the poll returned
//! and how long it waited, as plain values.

use vstd::prelude::*;

verus! {

/// Whether a key notification is a press, an auto-repeat, or a release.
#[derive(Debug, Copy, Clone, PartialEq, Eq, Structural)]
pub enum KeyEventKind {
    Press,
    Repeat,
    Release,
}

/// The modifier keys held with a key notification.
#[derive(Debug, Copy, Clone, PartialEq, Eq, Structural)]
pub struct Modifiers {
    pub ctrl: bool,
    pub alt: bool,
    pub shift: bool,
}

/// The keys the interface reacts to; everything else arrives as `Other`.
#[derive(Debug, Copy, Clone, PartialEq, Eq, Structural)]
pub enum KeyCode {
    Char(char),
    Esc,
    Enter,
    Backspace,
    Tab,
    BackTab,
    Up,
    Down,
    Other,
}

/// One key notification.
#[derive(Debug, Copy, Clone, PartialEq, Eq, Structural)]
pub struct KeyEvent {
    pub code: KeyCode,
    pub modifiers: Modifiers,
    pub kind: KeyEventKind,
}

/// A mouse notification: the position; the interface ignores the rest.
#[derive(Debug, Copy, Clone, PartialEq, Eq, Structural)]
pub struct MouseEvent {
    pub column: u16,
    pub row: u16,
}

/// An event as the main loop consumes it: an immutable value, copied across
/// the queue, owning nothing shared.
#[derive(Debug, Copy, Clone, PartialEq, Eq, Structural)]
pub enum Event {
    /// No input arrived for a full tick interval.
    Tick,
    Key(KeyEvent),
    Mouse(MouseEvent),
    Resize(u16, u16),
}

/// An input notification as the terminal driver reports it.
#[derive(Debug, Copy, Clone, PartialEq, Eq, Structural)]
pub enum RawInput {
    Key(KeyEvent),
    Mouse(MouseEvent),
    Resize(u16, u16),
}

/// How a notification is classified: key presses are forwarded, key repeats
/// and releases are discarded, mouse and resize notifications pass through.
pub open spec fn classified(raw: RawInput) -> Option<Event> {
    match raw {
        RawInput::Key(k) => if k.kind == KeyEventKind::Press {
            Some(Event::Key(k))
        } else {
            None
        },
        RawInput::Mouse(m) => Some(Event::Mouse(m)),
        RawInput::Resize(w, h) => Some(Event::Resize(w, h)),
    }
}

/// Classify one notification.
pub fn classify(raw: RawInput) -> (r: Option<Event>)
    ensures
        r == classified(raw),
{
    match raw {
        RawInput::Key(k) => if matches!(k.kind, KeyEventKind::Press) {
            Some(Event::Key(k))
        } else {
            None
        },
        RawInput::Mouse(m) => Some(Event::Mouse(m)),
        RawInput::Resize(w, h) => Some(Event::Resize(w, h)),
    }
}

/// The producer thread is gone and nothing further will arrive; the main
/// loop cannot go on without input.
#[derive(Debug, Copy, Clone, PartialEq, Eq, Structural)]
pub struct ChannelClosed;

/// What the queue holds and whether the producing side is gone.
#[verifier::ext_equal]
pub ghost struct ChannelModel {
    pub queue: Seq<Event>,
    pub closed: bool,
}

/// The unbounded, order-preserving queue between the producer and the main
/// loop. Events leave in exactly the order they entered.
pub struct EventChannel {
    queue: Vec<Event>,
    closed: bool,
}

impl View for EventChannel {
    type V = ChannelModel;

    closed spec fn view(&self) -> ChannelModel {
        ChannelModel { queue: self.queue@, closed: self.closed }
    }
}

impl EventChannel {
    /// An empty, open queue.
    pub fn new() -> (c: Self)
        ensures
            c@ == (ChannelModel { queue: Seq::<Event>::empty(), closed: false }),
    {
        EventChannel { queue: Vec::new(), closed: false }
    }

    /// The producer queues one event behind everything already queued.
    pub fn send(&mut self, e: Event)
        requires
            !old(self)@.closed,
        ensures
            final(self)@ == (ChannelModel { queue: old(self)@.queue.push(e), closed: false }),
    {
        self.queue.push(e);
    }

    /// The producer is gone; what is already queued can still be received.
    pub fn close(&mut self)
        ensures
            final(self)@ == (ChannelModel { closed: true, ..old(self)@ }),
    {
        self.closed = true;
    }

    /// How many events are queued.
    pub fn pending(&self) -> (n: usize)
        ensures
            n == self@.queue.len(),
    {
        self.queue.len()
    }

    /// Whether the producing side is gone.
    pub fn is_closed(&self) -> (b: bool)
        ensures
            b == self@.closed,
    {
        self.closed
    }

    /// The consumer's receive, by its outcome. The real receive blocks until
    /// an event is queued or the producer is gone, so it is called exactly
    /// under this precondition; it then yields the oldest queued event, or
    /// the closed error once the queue is drained and nothing more can come.
    pub fn next(&mut self) -> (r: Result<Event, ChannelClosed>)
        requires
            old(self)@.queue.len() > 0 || old(self)@.closed,
        ensures
            old(self)@.queue.len() > 0 ==> {
                &&& r == Ok::<Event, ChannelClosed>(old(self)@.queue[0])
                &&& final(self)@ == (ChannelModel {
                    queue: old(self)@.queue.drop_first(),
                    ..old(self)@
                })
            },
            old(self)@.queue.len() == 0 ==> {
                &&& r == Err::<Event, ChannelClosed>(ChannelClosed)
                &&& final(self)@ == old(self)@
            },
    {
        if self.queue.len() > 0 {
            let e = self.queue.remove(0);
            proof {
                assert(final(self)@.queue =~= old(self)@.queue.drop_first());
            }
            Ok(e)
        } else {
            Err(ChannelClosed)
        }
    }
}

/// The producer's clock state: the configured tick interval and how much of
/// the current interval has already passed.
#[derive(Debug, Copy, Clone, PartialEq, Eq, Structural)]
pub struct EventSource {
    /// Milliseconds between synthetic ticks when no input arrives.
    pub tick_interval: u64,
    /// Milliseconds of the current interval already spent waiting.
    pub elapsed: u64,
}

impl EventSource {
    /// A real interval, and never a whole interval already spent.
    pub open spec fn wf(self) -> bool {
        &&& 1 <= self.tick_interval
        &&& self.elapsed < self.tick_interval
    }

    /// The events one polling turn emits, in order: first whatever the
    /// notification classified to (if anything), then exactly one tick if a
    /// full interval has now elapsed.
    pub open spec fn produced(self, waited: u64, raw: Option<RawInput>) -> Seq<Event> {
        let from_input = match raw {
            Some(r) => match classified(r) {
                Some(e) => seq![e],
                None => Seq::<Event>::empty(),
            },
            None => Seq::<Event>::empty(),
        };
        if self.elapsed + waited >= self.tick_interval {
            from_input.push(Event::Tick)
        } else {
            from_input
        }
    }

    /// The clock state after one polling turn: a new interval starts when a
    /// tick was emitted, otherwise the spent time accumulates.
    pub open spec fn stepped(self, waited: u64) -> EventSource {
        if self.elapsed + waited >= self.tick_interval {
            EventSource { elapsed: 0, ..self }
        } else {
            EventSource { elapsed: (self.elapsed + waited) as u64, ..self }
        }
    }

    /// A producer at the start of its first interval.
    pub fn new(tick_interval: u64) -> (s: Self)
        requires
            1 <= tick_interval,
        ensures
            s == (EventSource { tick_interval, elapsed: 0 }),
            s.wf(),
    {
        EventSource { tick_interval, elapsed: 0 }
    }

    /// How long the next poll may block: the rest of the current interval.
    pub fn poll_timeout(&self) -> (t: u64)
        requires
            self.wf(),
        ensures
            t == self.tick_interval - self.elapsed,
            1 <= t <= self.tick_interval,
    {
        self.tick_interval - self.elapsed
    }

    /// One turn of the producer, after the caller polled the terminal for
    /// `waited` milliseconds and got `raw` (or nothing). Whatever the
    /// notification classifies to is queued first; then, if a full interval
    /// has elapsed, exactly one tick is queued and a new interval starts. A
    /// tick is therefore never reordered ahead of an input classified before
    /// it, and vice versa.
    pub fn step(&mut self, waited: u64, raw: Option<RawInput>, channel: &mut EventChannel)
        requires
            old(self).wf(),
            waited <= u64::MAX - old(self).elapsed,
            !old(channel)@.closed,
        ensures
            *final(self) == old(self).stepped(waited),
            final(self).wf(),
            final(channel)@.queue == old(channel)@.queue + old(self).produced(waited, raw),
            !final(channel)@.closed,
    {
        let ghost q0 = channel@.queue;
        if let Some(r) = raw {
            if let Some(e) = classify(r) {
                channel.send(e);
            }
        }
        let total = self.elapsed + waited;
        if total >= self.tick_interval {
            channel.send(Event::Tick);
            self.elapsed = 0;
        } else {
            self.elapsed = total;
        }
        proof {
            assert(final(channel)@.queue =~= q0 + old(self).produced(waited, raw));
        }
    }
}

/// The clock state after a scripted run of polling turns, each entry giving
/// how long the poll waited and what it returned.
pub open spec fn run_state(s: EventSource, script: Seq<(u64, Option<RawInput>)>) -> EventSource
    decreases script.len(),
{
    if script.len() == 0 {
        s
    } else {
        run_state(s, script.drop_last()).stepped(script.last().0)
    }
}

/// Everything a scripted run of polling turns emits, in order.
pub open spec fn run_produced(s: EventSource, script: Seq<(u64, Option<RawInput>)>) -> Seq<Event>
    decreases script.len(),
{
    if script.len() == 0 {
        Seq::<Event>::empty()
    } else {
        run_produced(s, script.drop_last()) + run_state(s, script.drop_last()).produced(
            script.last().0,
            script.last().1,
        )
    }
}

/// Production order is delivery order: a run of polling turns emits first
/// everything the earlier turns emitted, in their order, and then what the
/// later turns emit — no event, and no tick, is ever reordered across a
/// turn. Together with the queue's contracts (a send appends, a receive
/// takes the head) the consumer sees events exactly as they were produced.
pub proof fn lemma_run_order(
    s: EventSource,
    early: Seq<(u64, Option<RawInput>)>,
    late: Seq<(u64, Option<RawInput>)>,
)
    ensures
        run_state(s, early + late) == run_state(run_state(s, early), late),
        run_produced(s, early + late) == run_produced(s, early) + run_produced(
            run_state(s, early),
            late,
        ),
    decreases late.len(),
{
    if late.len() == 0 {
        assert(early + late =~= early);
        assert(run_produced(s, early) + run_produced(run_state(s, early), late) =~= run_produced(
            s,
            early,
        ));
    } else {
        lemma_run_order(s, early, late.drop_last());
        assert((early + late).drop_last() =~= early + late.drop_last());
        assert((early + late).last() == late.last());
        assert(run_produced(s, early + late) =~= run_produced(s, early) + run_produced(
            run_state(s, early),
            late,
        ));
    }
}

/// One tick per idle interval: a producer at the start of an interval whose
/// polls all time out after exactly one full interval, with no input at all,
/// emits exactly one tick per interval — `k` timed-out polls produce
/// precisely `k` ticks and nothing else, and the producer is back at the
/// start of an interval.
pub proof fn lemma_one_tick_per_interval(s: EventSource, script: Seq<(u64, Option<RawInput>)>)
    requires
        s.wf(),
        s.elapsed == 0,
        forall|i: int| 0 <= i < script.len() ==> script[i] == (
            s.tick_interval,
            Option::<RawInput>::None,
        ),
    ensures
        run_state(s, script) == s,
        run_produced(s, script) == Seq::new(script.len(), |i: int| Event::Tick),
    decreases script.len(),
{
    if script.len() == 0 {
        assert(run_produced(s, script) =~= Seq::new(script.len(), |i: int| Event::Tick));
    } else {
        let pre = script.drop_last();
        assert(forall|i: int| 0 <= i < pre.len() ==> pre[i] == (
            s.tick_interval,
            Option::<RawInput>::None,
        ));
        lemma_one_tick_per_interval(s, pre);
        assert(script.last() == (s.tick_interval, Option::<RawInput>::None));
        assert(run_produced(s, script) =~= Seq::new(script.len(), |i: int| Event::Tick));
    }
}

} // verus!
