use vstd::prelude::*;

use crate::block::updater::slot_texts;

verus! {

/// Where the aggregator stands in its consume / coalesce / render round.
#[derive(Debug, Clone, Copy, PartialEq, Eq, Structural)]
pub enum Phase {
    /// Waiting, blocked, for the first message of a round.
    Idle,
    /// The first message is in; the debounce window is running.
    Debouncing,
    /// Taking whatever is queued, without blocking, until the queue is empty.
    Draining,
    /// The slot vector is being handed to the sink.
    Rendering,
    /// Every producer has hung up: the loop is over.
    Finished,
    /// The sink failed: the loop is over and the failure must be surfaced.
    Failed,
}

/// What the driver of the loop saw.
#[derive(Debug)]
pub enum Event {
    /// A producer's value came off the channel.
    Message(usize, String),
    /// The debounce window has elapsed.
    Elapsed,
    /// A non-blocking poll found the channel empty.
    Empty,
    /// The channel is closed: every send-end is gone.
    Closed,
    /// The sink took the slot vector.
    Rendered,
    /// The sink failed.
    RenderFailed,
}

/// What the driver of the loop must do next.
#[derive(Debug, Clone, Copy, PartialEq, Eq, Structural)]
pub enum Action {
    /// Block until the next message arrives (or the channel closes).
    Wait,
    /// Sleep for this many milliseconds.
    Sleep(u64),
    /// Poll the channel without blocking.
    Poll,
    /// Hand the slot vector to the sink, exactly once.
    Render,
    /// Stop: normal shutdown.
    Exit,
    /// Stop: the sink failed.
    Abort,
}

/// The abstract state of an aggregator.
pub struct AggregatorView {
    pub slots: Seq<Seq<char>>,
    pub phase: Phase,
    pub window_ms: u64,
}

pub open spec fn is_terminal(p: Phase) -> bool {
    p == Phase::Finished || p == Phase::Failed
}

/// The phase after `e` has been seen in phase `p`.
pub open spec fn next_phase(p: Phase, e: Event) -> Phase {
    match p {
        Phase::Idle => match e {
            Event::Message(_, _) => Phase::Debouncing,
            Event::Closed => Phase::Finished,
            _ => p,
        },
        Phase::Debouncing => match e {
            Event::Elapsed => Phase::Draining,
            Event::Closed => Phase::Finished,
            _ => p,
        },
        Phase::Draining => match e {
            Event::Empty => Phase::Rendering,
            Event::Closed => Phase::Finished,
            _ => p,
        },
        Phase::Rendering => match e {
            Event::Rendered => Phase::Idle,
            Event::RenderFailed => Phase::Failed,
            _ => p,
        },
        Phase::Finished => p,
        Phase::Failed => p,
    }
}

/// The slots after `e`: a message overwrites the slot of its producer.
pub open spec fn recorded(slots: Seq<Seq<char>>, e: Event) -> Seq<Seq<char>> {
    match e {
        Event::Message(id, value) => slots.update(id as int, value@),
        _ => slots,
    }
}

/// An event that names a producer names one of `n`.
pub open spec fn event_fits(e: Event, n: nat) -> bool {
    match e {
        Event::Message(id, _) => id < n,
        _ => true,
    }
}

pub open spec fn events_fit(events: Seq<Event>, n: nat) -> bool {
    forall|i: int| 0 <= i < events.len() ==> event_fits(#[trigger] events[i], n)
}

/// The state after one event.
pub open spec fn stepped(s: AggregatorView, e: Event) -> AggregatorView {
    AggregatorView {
        slots: recorded(s.slots, e),
        phase: next_phase(s.phase, e),
        window_ms: s.window_ms,
    }
}

/// What the driver must do in phase `p`.
pub open spec fn action_for(p: Phase, window_ms: u64) -> Action {
    match p {
        Phase::Idle => Action::Wait,
        Phase::Debouncing => Action::Sleep(window_ms),
        Phase::Draining => Action::Poll,
        Phase::Rendering => Action::Render,
        Phase::Finished => Action::Exit,
        Phase::Failed => Action::Abort,
    }
}

/// The state after a whole sequence of events.
pub open spec fn run(s: AggregatorView, events: Seq<Event>) -> AggregatorView
    decreases events.len(),
{
    if events.len() == 0 {
        s
    } else {
        stepped(run(s, events.drop_last()), events.last())
    }
}

/// The actions asked for, one after each event.
pub open spec fn actions(s: AggregatorView, events: Seq<Event>) -> Seq<Action>
    decreases events.len(),
{
    if events.len() == 0 {
        Seq::empty()
    } else {
        actions(s, events.drop_last()).push(
            action_for(run(s, events).phase, run(s, events).window_ms),
        )
    }
}

/// How many of `acts` ask for a render.
pub open spec fn render_count(acts: Seq<Action>) -> nat
    decreases acts.len(),
{
    if acts.len() == 0 {
        0
    } else {
        render_count(acts.drop_last()) + if acts.last() == Action::Render {
            1nat
        } else {
            0nat
        }
    }
}

/// The value of the last message for producer `id` in `events`, or `init`
/// where there is none.
pub open spec fn latest(events: Seq<Event>, id: int, init: Seq<char>) -> Seq<char>
    decreases events.len(),
{
    if events.len() == 0 {
        init
    } else {
        match events.last() {
            Event::Message(i, v) => if i == id {
                v@
            } else {
                latest(events.drop_last(), id, init)
            },
            _ => latest(events.drop_last(), id, init),
        }
    }
}

/// Every slot empty, waiting for the first message.
pub open spec fn initial(n: nat, window_ms: u64) -> AggregatorView {
    AggregatorView {
        slots: Seq::new(n, |i: int| Seq::<char>::empty()),
        phase: Phase::Idle,
        window_ms,
    }
}

/// The scheduler's state: one slot per producer and the phase of the round.
/// It does no waiting itself: a driver performs each [`Action`] and reports
/// what happened as an [`Event`].
pub struct Aggregator {
    slots: Vec<String>,
    phase: Phase,
    window_ms: u64,
}

impl View for Aggregator {
    type V = AggregatorView;

    closed spec fn view(&self) -> AggregatorView {
        AggregatorView { slots: slot_texts(self.slots@), phase: self.phase, window_ms: self.window_ms }
    }
}

impl Aggregator {
    /// An aggregator for `n` producers, all slots empty, waiting for the first
    /// message; `window_ms` is the debounce window.
    pub fn new(n: usize, window_ms: u64) -> (r: Self)
        ensures
            r@ == initial(n as nat, window_ms),
    {
        let mut slots: Vec<String> = Vec::new();
        let mut i: usize = 0;
        while i < n
            invariant
                i <= n,
                slots@.len() == i,
                slot_texts(slots@) == Seq::new(i as nat, |k: int| Seq::<char>::empty()),
            decreases n - i,
        {
            let ghost before = slots@;
            let empty = String::new();
            slots.push(empty);
            assert(slots@ == before.push(empty));
            assert forall|k: int| 0 <= k < i + 1 implies slot_texts(slots@)[k] == Seq::<char>::empty() by {
                if k < i {
                    assert(slot_texts(before)[k] == Seq::new(i as nat, |j: int| Seq::<char>::empty())[k]);
                }
            }
            i = i + 1;
            assert(slot_texts(slots@) =~= Seq::new(i as nat, |k: int| Seq::<char>::empty()));
        }
        Aggregator { slots, phase: Phase::Idle, window_ms }
    }

    /// The number of producers.
    pub fn len(&self) -> (r: usize)
        ensures
            r == self@.slots.len(),
    {
        self.slots.len()
    }

    /// The slot vector, one value per producer.
    pub fn slots(&self) -> (r: &[String])
        ensures
            slot_texts(r@) == self@.slots,
    {
        self.slots.as_slice()
    }

    pub fn phase(&self) -> (r: Phase)
        ensures
            r == self@.phase,
    {
        self.phase
    }

    /// What the driver must do now.
    pub fn action(&self) -> (r: Action)
        ensures
            r == action_for(self@.phase, self@.window_ms),
    {
        match self.phase {
            Phase::Idle => Action::Wait,
            Phase::Debouncing => Action::Sleep(self.window_ms),
            Phase::Draining => Action::Poll,
            Phase::Rendering => Action::Render,
            Phase::Finished => Action::Exit,
            Phase::Failed => Action::Abort,
        }
    }

    /// Takes in one event and says what the driver must do next.
    pub fn step(&mut self, e: Event) -> (r: Action)
        requires
            event_fits(e, old(self)@.slots.len()),
        ensures
            final(self)@ == stepped(old(self)@, e),
            r == action_for(final(self)@.phase, final(self)@.window_ms),
    {
        let ghost e0 = e;
        let p = self.phase;
        let next = match e {
            Event::Message(id, value) => {
                let ghost before = self.slots@;
                self.slots.set(id, value);
                assert(slot_texts(self.slots@) =~= slot_texts(before).update(id as int, e0->1@));
                if p == Phase::Idle {
                    Phase::Debouncing
                } else {
                    p
                }
            },
            Event::Elapsed => if p == Phase::Debouncing {
                Phase::Draining
            } else {
                p
            },
            Event::Empty => if p == Phase::Draining {
                Phase::Rendering
            } else {
                p
            },
            Event::Closed => if p == Phase::Idle || p == Phase::Debouncing || p == Phase::Draining {
                Phase::Finished
            } else {
                p
            },
            Event::Rendered => if p == Phase::Rendering {
                Phase::Idle
            } else {
                p
            },
            Event::RenderFailed => if p == Phase::Rendering {
                Phase::Failed
            } else {
                p
            },
        };
        self.phase = next;
        self.action()
    }
}

} // verus!
