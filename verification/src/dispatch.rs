//! The dispatch loop's decisions. Each iteration, the runtime races the
//! cancellation signal against the accept stream's next item — a single
//! atomic decision point — and reports what won as a [`LoopEvent`]. The
//! functions here decide what the loop does with it: detach a reader task
//! for a new client and keep racing, or stop.

use vstd::prelude::*;

use crate::acceptor::{
    lemma_poisoning, lemma_replacement_transparent, stream_items, AcceptOutcome, AcceptorState,
    StreamItem,
};

verus! {

/// What the race between the cancellation signal and the accept stream
/// produced for one iteration.
#[derive(Clone, Copy, PartialEq, Eq, Structural, Debug)]
pub enum LoopEvent {
    /// The cancellation signal won the race.
    Cancelled,
    /// The accept stream yielded a new client.
    ClientArrived,
    /// The accept stream yielded its accept error.
    AcceptFailed,
    /// The accept stream ended.
    StreamEnded,
}

/// Why the dispatch loop stopped.
#[derive(Clone, Copy, PartialEq, Eq, Structural, Debug)]
pub enum StopCause {
    /// Stopped by the cancellation signal.
    Cancellation,
    /// A fatal accept error: the endpoint can accept no further clients.
    Fault,
    /// The accept stream ended deliberately.
    Exhausted,
}

/// What the dispatch loop does after one race event.
#[derive(Clone, Copy, PartialEq, Eq, Structural, Debug)]
pub enum LoopAction {
    /// Hand the new client its receiver and detach an independent reader
    /// task; keep racing.
    SpawnReader,
    /// Leave the loop for the given cause.
    Stop(StopCause),
}

/// The loop event an accept-stream item maps to.
pub open spec fn spec_event_of(item: StreamItem) -> LoopEvent {
    match item {
        StreamItem::Client => LoopEvent::ClientArrived,
        StreamItem::Failure => LoopEvent::AcceptFailed,
        StreamItem::End => LoopEvent::StreamEnded,
    }
}

/// The loop event an accept-stream item maps to, when the stream side of
/// the race wins.
pub fn event_of_item(item: &StreamItem) -> (e: LoopEvent)
    ensures
        e == spec_event_of(*item),
{
    match item {
        StreamItem::Client => LoopEvent::ClientArrived,
        StreamItem::Failure => LoopEvent::AcceptFailed,
        StreamItem::End => LoopEvent::StreamEnded,
    }
}

/// The decision for one loop iteration: only a new client keeps the loop
/// racing; every other event stops it.
pub fn dispatch_step(event: &LoopEvent) -> (a: LoopAction)
    ensures
        event is ClientArrived ==> a == LoopAction::SpawnReader,
        event is Cancelled ==> a == LoopAction::Stop(StopCause::Cancellation),
        event is AcceptFailed ==> a == LoopAction::Stop(StopCause::Fault),
        event is StreamEnded ==> a == LoopAction::Stop(StopCause::Exhausted),
{
    match event {
        LoopEvent::ClientArrived => LoopAction::SpawnReader,
        LoopEvent::Cancelled => LoopAction::Stop(StopCause::Cancellation),
        LoopEvent::AcceptFailed => LoopAction::Stop(StopCause::Fault),
        LoopEvent::StreamEnded => LoopAction::Stop(StopCause::Exhausted),
    }
}

/// What a dispatch run over a trace of race events amounts to: how many
/// reader tasks it detaches and why it stopped (`None`: still racing).
/// Events after the stopping one are never consumed.
pub open spec fn dispatch_run(events: Seq<LoopEvent>) -> (int, Option<StopCause>)
    decreases events.len(),
{
    if events.len() == 0 {
        (0int, None::<StopCause>)
    } else {
        match events.first() {
            LoopEvent::ClientArrived => {
                let rest = dispatch_run(events.drop_first());
                (rest.0 + 1, rest.1)
            },
            LoopEvent::Cancelled => (0int, Some(StopCause::Cancellation)),
            LoopEvent::AcceptFailed => (0int, Some(StopCause::Fault)),
            LoopEvent::StreamEnded => (0int, Some(StopCause::Exhausted)),
        }
    }
}

/// Replay the dispatch loop over a recorded trace of race events: the
/// number of reader tasks detached, and why the loop stopped. The live
/// loop makes exactly these decisions, one event at a time.
pub fn run_dispatch(events: &Vec<LoopEvent>) -> (r: (usize, Option<StopCause>))
    ensures
        r.0 == dispatch_run(events@).0,
        r.1 == dispatch_run(events@).1,
{
    let mut spawned: usize = 0;
    let mut i: usize = 0;
    proof {
        assert(events@.skip(0) =~= events@);
    }
    while i < events.len()
        invariant
            0 <= i <= events@.len(),
            spawned == i,
            dispatch_run(events@).0 == i + dispatch_run(events@.skip(i as int)).0,
            dispatch_run(events@).1 == dispatch_run(events@.skip(i as int)).1,
            forall|j: int| 0 <= j < i ==> events@[j] is ClientArrived,
        decreases events@.len() - i,
    {
        proof {
            assert(events@.skip(i as int).first() == events@[i as int]);
            assert(events@.skip(i as int).drop_first() =~= events@.skip(i as int + 1));
        }
        let action = dispatch_step(&events[i]);
        match action {
            LoopAction::SpawnReader => {
                spawned = spawned + 1;
            },
            LoopAction::Stop(cause) => {
                return (spawned, Some(cause));
            },
        }
        i = i + 1;
    }
    proof {
        assert(events@.skip(events@.len() as int) =~= Seq::<LoopEvent>::empty());
    }
    (spawned, None)
}

/// Cancellation before any client: when the first race event is the
/// raised signal, the loop stops by cancellation and detaches no reader
/// task, so no receiver is ever invoked; whatever follows — a second
/// raise included — is never consumed and changes nothing.
pub proof fn lemma_cancel_before_any_client(events: Seq<LoopEvent>)
    requires
        events.len() > 0,
        events.first() is Cancelled,
    ensures
        dispatch_run(events) == (0int, Some(StopCause::Cancellation)),
{
}

/// The cause a stopping event carries.
pub open spec fn stop_cause_of(event: LoopEvent) -> Option<StopCause> {
    match event {
        LoopEvent::ClientArrived => None::<StopCause>,
        LoopEvent::Cancelled => Some(StopCause::Cancellation),
        LoopEvent::AcceptFailed => Some(StopCause::Fault),
        LoopEvent::StreamEnded => Some(StopCause::Exhausted),
    }
}

/// Accept-then-cancel ordering: every client the race yields before the
/// stopping event is dispatched — the loop detaches exactly one reader
/// task per such client — the stop carries that event's cause, and
/// events after the stopping one are ignored.
pub proof fn lemma_accepted_clients_dispatched(events: Seq<LoopEvent>, k: int)
    requires
        0 <= k <= events.len(),
        forall|i: int| 0 <= i < k ==> events[i] is ClientArrived,
        k < events.len() ==> !(events[k] is ClientArrived),
    ensures
        dispatch_run(events).0 == k,
        k < events.len() ==> dispatch_run(events).1 == stop_cause_of(events[k]),
        k < events.len() ==> dispatch_run(events) == dispatch_run(events.take(k + 1)),
        k == events.len() ==> dispatch_run(events).1 is None,
    decreases k,
{
    if k > 0 {
        lemma_accepted_clients_dispatched(events.drop_first(), k - 1);
        if k < events.len() {
            assert(events.take(k + 1).first() == events.first());
            assert(events.take(k + 1).drop_first() =~= events.drop_first().take(k));
        }
    } else {
        if 0 < events.len() {
            assert(events.take(1).first() == events.first());
        }
    }
}

/// The race events a run of accept-stream items feeds the loop, when the
/// stream side wins every race.
pub open spec fn events_of_items(items: Seq<StreamItem>) -> Seq<LoopEvent> {
    items.map_values(|item: StreamItem| spec_event_of(item))
}

/// A server over a healthy accept stream: every accepted client is
/// dispatched — one reader task each, in acceptance order — and the loop
/// keeps racing for the next.
pub proof fn lemma_healthy_stream_dispatch(s: AcceptorState, outs: Seq<AcceptOutcome>)
    requires
        s is Live,
        forall|i: int| 0 <= i < outs.len() ==> outs[i] is Accepted,
    ensures
        dispatch_run(events_of_items(stream_items(s, outs))) == (outs.len() as int, None::<
            StopCause,
        >),
{
    lemma_replacement_transparent(s, outs);
    let events = events_of_items(stream_items(s, outs));
    assert(forall|i: int| 0 <= i < events.len() ==> events[i] is ClientArrived);
    lemma_accepted_clients_dispatched(events, events.len() as int);
}

/// A server over a poisoned accept stream: every client accepted before
/// the first failed accept is dispatched — one reader task each — and
/// the loop then stops for the fatal accept error, never silently.
pub proof fn lemma_poisoned_stream_dispatch(s: AcceptorState, outs: Seq<AcceptOutcome>, k: int)
    requires
        s is Live,
        0 <= k < outs.len(),
        forall|i: int| 0 <= i < k ==> outs[i] is Accepted,
        outs[k] is Fault,
    ensures
        dispatch_run(events_of_items(stream_items(s, outs))) == (k, Some(StopCause::Fault)),
{
    lemma_poisoning(s, outs, k);
    let events = events_of_items(stream_items(s, outs));
    assert(events.len() == k + 1);
    assert(forall|i: int| 0 <= i < k ==> events[i] is ClientArrived);
    assert(events[k] == LoopEvent::AcceptFailed);
    lemma_accepted_clients_dispatched(events, k);
}

} // verus!
