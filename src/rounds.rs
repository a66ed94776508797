//! What holds of whole runs of the aggregator: which values end up in the
//! slots, how many renders a burst costs, and how the loop ends.
use vstd::prelude::*;

use crate::aggregator::{
    action_for, actions, event_fits, events_fit, initial, is_terminal, latest, next_phase,
    render_count, run, stepped, Action, AggregatorView, Event, Phase,
};

verus! {

/// `e` is a message from producer `id`.
pub open spec fn names(e: Event, id: int) -> bool {
    match e {
        Event::Message(i, _) => i == id,
        _ => false,
    }
}

/// The producer that message `e` comes from.
pub open spec fn sender_of(e: Event) -> int {
    match e {
        Event::Message(i, _) => i as int,
        _ => -1,
    }
}

/// The value that message `e` carries.
pub open spec fn value_of(e: Event) -> Seq<char> {
    match e {
        Event::Message(_, v) => v@,
        _ => Seq::empty(),
    }
}

pub open spec fn all_messages(events: Seq<Event>) -> bool {
    forall|i: int| 0 <= i < events.len() ==> (#[trigger] events[i] is Message)
}

/// One coalescing round as the driver sees it: the first message ends the
/// blocking wait, the debounce window elapses, the rest of the messages are
/// polled off the channel, and a last poll finds it empty.
pub open spec fn burst(msgs: Seq<Event>) -> Seq<Event> {
    seq![msgs[0], Event::Elapsed] + msgs.drop_first() + seq![Event::Empty]
}

proof fn lemma_run_push(s: AggregatorView, events: Seq<Event>, e: Event)
    ensures
        run(s, events.push(e)) == stepped(run(s, events), e),
        actions(s, events.push(e)) == actions(s, events).push(
            action_for(run(s, events.push(e)).phase, s.window_ms),
        ),
        run(s, events).window_ms == s.window_ms,
    decreases events.len(),
{
    assert(events.push(e).drop_last() =~= events);
    if events.len() > 0 {
        lemma_run_push(s, events.drop_last(), events.last());
        assert(events.drop_last().push(events.last()) =~= events);
    }
}

proof fn lemma_render_count_push(acts: Seq<Action>, a: Action)
    ensures
        render_count(acts.push(a)) == render_count(acts) + if a == Action::Render {
            1nat
        } else {
            0nat
        },
{
    assert(acts.push(a).drop_last() =~= acts);
}

proof fn lemma_fit_prefix(events: Seq<Event>, n: nat)
    requires
        events.len() > 0,
        events_fit(events, n),
    ensures
        events_fit(events.drop_last(), n),
        event_fits(events.last(), n),
{
    assert forall|i: int| 0 <= i < events.drop_last().len() implies event_fits(
        #[trigger] events.drop_last()[i],
        n,
    ) by {
        assert(events.drop_last()[i] == events[i]);
    }
}

/// After any run of events, each producer's slot holds the value of the last
/// message that producer sent, or its starting value where it sent none; no
/// earlier value ever shows through.
pub proof fn lemma_latest_value_wins(s: AggregatorView, events: Seq<Event>)
    requires
        events_fit(events, s.slots.len()),
    ensures
        run(s, events).slots.len() == s.slots.len(),
        forall|id: int|
            0 <= id < s.slots.len() ==> #[trigger] run(s, events).slots[id] == latest(
                events,
                id,
                s.slots[id],
            ),
    decreases events.len(),
{
    if events.len() > 0 {
        lemma_fit_prefix(events, s.slots.len());
        lemma_latest_value_wins(s, events.drop_last());
        let prev = run(s, events.drop_last());
        assert forall|id: int| 0 <= id < s.slots.len() implies #[trigger] run(s, events).slots[id]
            == latest(events, id, s.slots[id]) by {
            assert(prev.slots[id] == latest(events.drop_last(), id, s.slots[id]));
        }
    }
}

proof fn lemma_latest_untouched(events: Seq<Event>, id: int, init: Seq<char>)
    requires
        forall|i: int| 0 <= i < events.len() ==> !names(#[trigger] events[i], id),
    ensures
        latest(events, id, init) == init,
    decreases events.len(),
{
    if events.len() > 0 {
        assert(!names(events[events.len() - 1], id));
        assert forall|i: int| 0 <= i < events.drop_last().len() implies !names(
            #[trigger] events.drop_last()[i],
            id,
        ) by {
            assert(events.drop_last()[i] == events[i]);
        }
        lemma_latest_untouched(events.drop_last(), id, init);
    }
}

proof fn lemma_latest_is_last_for(events: Seq<Event>, k: int, id: int, init: Seq<char>)
    requires
        0 <= k < events.len(),
        names(events[k], id),
        forall|j: int| k < j < events.len() ==> !names(#[trigger] events[j], id),
    ensures
        latest(events, id, init) == value_of(events[k]),
    decreases events.len(),
{
    if k < events.len() - 1 {
        assert(!names(events[events.len() - 1], id));
        assert forall|j: int| k < j < events.drop_last().len() implies !names(
            #[trigger] events.drop_last()[j],
            id,
        ) by {
            assert(events.drop_last()[j] == events[j]);
        }
        assert(events.drop_last()[k] == events[k]);
        lemma_latest_is_last_for(events.drop_last(), k, id, init);
    }
}

/// The first `k` polled messages of a round: the aggregator is draining,
/// nothing has been rendered, and the slots follow the messages so far.
proof fn lemma_draining(s: AggregatorView, msgs: Seq<Event>, k: int)
    requires
        s.phase == Phase::Idle,
        msgs.len() >= 1,
        0 <= k < msgs.len(),
        all_messages(msgs),
    ensures
        ({
            let evs = seq![msgs[0], Event::Elapsed] + msgs.drop_first().subrange(0, k);
            &&& run(s, evs).phase == Phase::Draining
            &&& render_count(actions(s, evs)) == 0
            &&& actions(s, evs).last() == Action::Poll
            &&& forall|id: int| #[trigger]
                latest(evs, id, s.slots[id]) == latest(msgs.subrange(0, k + 1), id, s.slots[id])
        }),
    decreases k,
{
    let pre = seq![msgs[0], Event::Elapsed];
    let evs = pre + msgs.drop_first().subrange(0, k);
    assert(msgs[0] is Message);
    if k == 0 {
        assert(evs =~= seq![msgs[0]].push(Event::Elapsed));
        assert(seq![msgs[0]] =~= Seq::<Event>::empty().push(msgs[0]));
        lemma_run_push(s, Seq::empty(), msgs[0]);
        lemma_run_push(s, seq![msgs[0]], Event::Elapsed);
        lemma_render_count_push(Seq::empty(), Action::Sleep(s.window_ms));
        lemma_render_count_push(seq![Action::Sleep(s.window_ms)], Action::Poll);
        assert(Seq::<Action>::empty().push(Action::Sleep(s.window_ms)) =~= seq![Action::Sleep(s.window_ms)]);
        assert forall|id: int| #[trigger]
            latest(evs, id, s.slots[id]) == latest(msgs.subrange(0, 1), id, s.slots[id]) by {
            assert(evs.drop_last() =~= seq![msgs[0]]);
            assert(msgs.subrange(0, 1) =~= seq![msgs[0]]);
        }
    } else {
        lemma_draining(s, msgs, k - 1);
        let prev = pre + msgs.drop_first().subrange(0, k - 1);
        let m = msgs[k];
        assert(m is Message);
        assert(evs =~= prev.push(m));
        lemma_run_push(s, prev, m);
        lemma_render_count_push(actions(s, prev), Action::Poll);
        assert forall|id: int| #[trigger]
            latest(evs, id, s.slots[id]) == latest(msgs.subrange(0, k + 1), id, s.slots[id]) by {
            assert(evs.drop_last() =~= prev);
            assert(msgs.subrange(0, k + 1).drop_last() =~= msgs.subrange(0, k));
            assert(msgs.subrange(0, k + 1).last() == m);
            assert(latest(prev, id, s.slots[id]) == latest(msgs.subrange(0, k), id, s.slots[id]));
        }
    }
}

/// A round of messages, however many and from whichever producers, costs
/// exactly one render, asked for at its end, and that render sees the last
/// value of each producer in the round.
pub proof fn lemma_burst_renders_once(s: AggregatorView, msgs: Seq<Event>)
    requires
        s.phase == Phase::Idle,
        msgs.len() >= 1,
        all_messages(msgs),
        events_fit(msgs, s.slots.len()),
    ensures
        render_count(actions(s, burst(msgs))) == 1,
        actions(s, burst(msgs)).last() == Action::Render,
        run(s, burst(msgs)).phase == Phase::Rendering,
        run(s, burst(msgs)).slots.len() == s.slots.len(),
        forall|id: int|
            0 <= id < s.slots.len() ==> #[trigger] run(s, burst(msgs)).slots[id] == latest(
                msgs,
                id,
                s.slots[id],
            ),
{
    let k = msgs.len() - 1;
    lemma_draining(s, msgs, k);
    let evs = seq![msgs[0], Event::Elapsed] + msgs.drop_first().subrange(0, k);
    assert(msgs.drop_first().subrange(0, k) =~= msgs.drop_first());
    assert(msgs.subrange(0, k + 1) =~= msgs);
    assert(burst(msgs) =~= evs.push(Event::Empty));
    lemma_run_push(s, evs, Event::Empty);
    lemma_render_count_push(actions(s, evs), Action::Render);
    assert forall|i: int| 0 <= i < burst(msgs).len() implies event_fits(
        #[trigger] burst(msgs)[i],
        s.slots.len(),
    ) by {
        if 2 <= i < burst(msgs).len() - 1 {
            assert(burst(msgs)[i] == msgs[i - 1]);
        }
    }
    lemma_latest_value_wins(s, burst(msgs));
    assert forall|id: int| 0 <= id < s.slots.len() implies #[trigger] run(s, burst(msgs)).slots[id]
        == latest(msgs, id, s.slots[id]) by {
        assert(burst(msgs).drop_last() =~= evs);
        assert(latest(evs, id, s.slots[id]) == latest(msgs.subrange(0, k + 1), id, s.slots[id]));
    }
}

/// Many messages from one producer within one round: one render, which shows
/// only that producer's last value and leaves every other slot as it was.
pub proof fn lemma_one_producer_burst(s: AggregatorView, msgs: Seq<Event>, id: int)
    requires
        s.phase == Phase::Idle,
        0 <= id < s.slots.len(),
        msgs.len() >= 1,
        forall|i: int| 0 <= i < msgs.len() ==> names(#[trigger] msgs[i], id),
    ensures
        render_count(actions(s, burst(msgs))) == 1,
        actions(s, burst(msgs)).last() == Action::Render,
        run(s, burst(msgs)).slots == s.slots.update(id, value_of(msgs.last())),
{
    assert forall|i: int| 0 <= i < msgs.len() implies (#[trigger] msgs[i] is Message) && event_fits(
        msgs[i],
        s.slots.len(),
    ) by {
        assert(names(msgs[i], id));
    }
    lemma_burst_renders_once(s, msgs);
    assert(names(msgs[msgs.len() - 1], id));
    assert forall|j: int| 0 <= j < s.slots.len() implies #[trigger] run(s, burst(msgs)).slots[j]
        == s.slots.update(id, value_of(msgs.last()))[j] by {
        if j == id {
            lemma_latest_is_last_for(msgs, msgs.len() - 1, id, s.slots[j]);
        } else {
            assert forall|i: int| 0 <= i < msgs.len() implies !names(#[trigger] msgs[i], j) by {
                assert(names(msgs[i], id));
            }
            lemma_latest_untouched(msgs, j, s.slots[j]);
        }
    }
    assert(run(s, burst(msgs)).slots =~= s.slots.update(id, value_of(msgs.last())));
}

/// One message from each of the producers within one round: one render,
/// which shows every one of the new values together.
pub proof fn lemma_every_producer_burst(s: AggregatorView, msgs: Seq<Event>)
    requires
        s.phase == Phase::Idle,
        msgs.len() == s.slots.len(),
        msgs.len() >= 1,
        all_messages(msgs),
        events_fit(msgs, s.slots.len()),
        forall|i: int, j: int|
            0 <= i < j < msgs.len() ==> sender_of(#[trigger] msgs[i]) != sender_of(
                #[trigger] msgs[j],
            ),
    ensures
        render_count(actions(s, burst(msgs))) == 1,
        actions(s, burst(msgs)).last() == Action::Render,
        forall|k: int|
            0 <= k < msgs.len() ==> run(s, burst(msgs)).slots[sender_of(#[trigger] msgs[k])]
                == value_of(msgs[k]),
{
    lemma_burst_renders_once(s, msgs);
    assert forall|k: int| 0 <= k < msgs.len() implies run(s, burst(msgs)).slots[sender_of(
        #[trigger] msgs[k],
    )] == value_of(msgs[k]) by {
        let id = sender_of(msgs[k]);
        assert(msgs[k] is Message);
        assert(event_fits(msgs[k], s.slots.len()));
        assert forall|j: int| k < j < msgs.len() implies !names(#[trigger] msgs[j], id) by {
            assert(msgs[j] is Message);
            assert(sender_of(msgs[k]) != sender_of(msgs[j]));
        }
        lemma_latest_is_last_for(msgs, k, id, s.slots[id]);
    }
}

/// A producer that never sends keeps the empty slot it started with, through
/// every round.
pub proof fn lemma_silent_producer_stays_empty(
    n: nat,
    window_ms: u64,
    events: Seq<Event>,
    id: int,
)
    requires
        0 <= id < n,
        events_fit(events, n),
        forall|i: int| 0 <= i < events.len() ==> !names(#[trigger] events[i], id),
    ensures
        run(initial(n, window_ms), events).slots[id] == Seq::<char>::empty(),
{
    lemma_latest_value_wins(initial(n, window_ms), events);
    lemma_latest_untouched(events, id, Seq::<char>::empty());
}

/// Once the first event has ended the loop, every later action is the same
/// stop, and no render is asked for.
proof fn lemma_after_end(s: AggregatorView, first: Event, events: Seq<Event>)
    requires
        is_terminal(next_phase(s.phase, first)),
    ensures
        run(s, seq![first] + events).phase == next_phase(s.phase, first),
        forall|i: int|
            0 <= i < events.len() + 1 ==> #[trigger] actions(s, seq![first] + events)[i]
                == action_for(next_phase(s.phase, first), s.window_ms),
        actions(s, seq![first] + events).len() == events.len() + 1,
        render_count(actions(s, seq![first] + events)) == 0,
    decreases events.len(),
{
    let p = next_phase(s.phase, first);
    let evs = seq![first] + events;
    if events.len() == 0 {
        assert(evs =~= Seq::<Event>::empty().push(first));
        lemma_run_push(s, Seq::empty(), first);
        lemma_render_count_push(Seq::empty(), action_for(p, s.window_ms));
    } else {
        lemma_after_end(s, first, events.drop_last());
        let prev = seq![first] + events.drop_last();
        assert(evs =~= prev.push(events.last()));
        lemma_run_push(s, prev, events.last());
        lemma_render_count_push(actions(s, prev), action_for(p, s.window_ms));
        assert forall|i: int| 0 <= i < events.len() + 1 implies #[trigger] actions(s, evs)[i]
            == action_for(p, s.window_ms) by {
            if i < events.len() {
                assert(actions(s, evs)[i] == actions(s, prev)[i]);
            }
        }
    }
}

/// When every producer has hung up, the loop exits: whatever the driver
/// reports after the channel closed, every action is `Exit` and no render is
/// asked for.
pub proof fn lemma_closed_channel_ends_loop(s: AggregatorView, events: Seq<Event>)
    requires
        s.phase == Phase::Idle || s.phase == Phase::Debouncing || s.phase == Phase::Draining,
    ensures
        run(s, seq![Event::Closed] + events).phase == Phase::Finished,
        forall|i: int|
            0 <= i < events.len() + 1 ==> #[trigger] actions(s, seq![Event::Closed] + events)[i]
                == Action::Exit,
        render_count(actions(s, seq![Event::Closed] + events)) == 0,
{
    lemma_after_end(s, Event::Closed, events);
}

/// A failed render is final: the next action is `Abort`, and so is every one
/// after it; no further render is asked for.
pub proof fn lemma_render_failure_is_final(s: AggregatorView, events: Seq<Event>)
    requires
        s.phase == Phase::Rendering,
    ensures
        run(s, seq![Event::RenderFailed] + events).phase == Phase::Failed,
        forall|i: int|
            0 <= i < events.len() + 1 ==> #[trigger] actions(
                s,
                seq![Event::RenderFailed] + events,
            )[i] == Action::Abort,
        render_count(actions(s, seq![Event::RenderFailed] + events)) == 0,
{
    lemma_after_end(s, Event::RenderFailed, events);
}

/// `e` is something the driver can report after performing `a`.
pub open spec fn answers(a: Action, e: Event) -> bool {
    match a {
        Action::Wait => e is Message || e is Closed,
        Action::Sleep(_) => e is Elapsed,
        Action::Poll => e is Message || e is Empty || e is Closed,
        Action::Render => e is Rendered || e is RenderFailed,
        Action::Exit => false,
        Action::Abort => false,
    }
}

/// Each event answers the action that the aggregator asked for just before
/// it: the events a driver that follows the protocol reports.
pub open spec fn driven(s: AggregatorView, events: Seq<Event>) -> bool
    decreases events.len(),
{
    if events.len() == 0 {
        true
    } else {
        driven(s, events.drop_last()) && answers(
            action_for(run(s, events.drop_last()).phase, s.window_ms),
            events.last(),
        )
    }
}

/// How many of `events` are messages received.
pub open spec fn message_count(events: Seq<Event>) -> nat
    decreases events.len(),
{
    if events.len() == 0 {
        0
    } else {
        message_count(events.drop_last()) + if events.last() is Message {
            1nat
        } else {
            0nat
        }
    }
}

/// What a driven run from an idle state has used, given `m` messages
/// received, `r` renders asked for and `n` events in all.
spec fn within_budget(p: Phase, r: nat, m: nat, n: nat) -> bool {
    match p {
        Phase::Idle => r <= m && n <= 4 * m,
        Phase::Debouncing => r + 1 <= m && n + 3 <= 4 * m,
        Phase::Draining => r + 1 <= m && n + 2 <= 4 * m,
        Phase::Rendering => r <= m && n + 1 <= 4 * m,
        Phase::Finished => r <= m && n <= 4 * m + 1,
        Phase::Failed => r <= m && n <= 4 * m + 1,
    }
}

proof fn lemma_driven_within_budget(s: AggregatorView, events: Seq<Event>)
    requires
        s.phase == Phase::Idle,
        driven(s, events),
    ensures
        within_budget(
            run(s, events).phase,
            render_count(actions(s, events)),
            message_count(events),
            events.len(),
        ),
    decreases events.len(),
{
    if events.len() > 0 {
        let prev = events.drop_last();
        let e = events.last();
        lemma_driven_within_budget(s, prev);
        assert(events =~= prev.push(e));
        lemma_run_push(s, prev, e);
        lemma_render_count_push(
            actions(s, prev),
            action_for(run(s, events).phase, s.window_ms),
        );
    }
}

/// The loop renders at most once per message received, and ends: a driver
/// that follows the protocol, from the idle state, takes at most `4 * m + 1`
/// steps over `m` messages, the last one being the closing of the channel
/// (once the loop has stopped, no event answers its action). So when the
/// producers send finitely many messages and then hang up, the loop
/// terminates, having rendered no more often than it received.
pub proof fn lemma_loop_is_bounded_by_messages(s: AggregatorView, events: Seq<Event>)
    requires
        s.phase == Phase::Idle,
        driven(s, events),
    ensures
        render_count(actions(s, events)) <= message_count(events),
        events.len() <= 4 * message_count(events) + 1,
{
    lemma_driven_within_budget(s, events);
}

} // verus!
