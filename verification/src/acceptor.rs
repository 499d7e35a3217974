//! The connection acceptor: one abstraction over the two platform
//! listener models — a reusable listener that serves every accept, and a
//! single-shot listener that one connection consumes and that must be
//! re-created before the next accept. Both appear here as a pull-driven
//! fold over listener generations: pull the next accepted connection, or
//! the one accept error, or end-of-stream. The runtime performs the
//! platform accept itself and folds its outcome in through these
//! functions.

use vstd::prelude::*;

verus! {

/// The acceptor's fold state over listener generations.
#[derive(Clone, Copy, PartialEq, Eq, Structural, Debug)]
pub enum AcceptorState {
    /// One listener generation is live and can produce the next client;
    /// `generation` counts the accepts completed so far. Exactly one
    /// generation is live at any time.
    Live { generation: u64 },
    /// An accept failed: the error was yielded once and the stream is
    /// poisoned — it yields end-of-stream forever, with no silent retry.
    Poisoned,
    /// The underlying listener ended the stream deliberately.
    Ended,
}

/// What one platform-level accept attempt produced. Creating the
/// replacement generation belongs to the attempt: when it fails after a
/// successful connect, the attempt as a whole counts as `Fault` — a
/// terminal error for the stream, never a silent stall.
#[derive(Clone, Copy, PartialEq, Eq, Structural, Debug)]
pub enum AcceptOutcome {
    /// A client connected and the next listener generation is ready.
    Accepted,
    /// The listener can produce no further clients.
    Closed,
    /// Accepting failed.
    Fault,
}

/// What one pull of the accept stream yields.
#[derive(Clone, Copy, PartialEq, Eq, Structural, Debug)]
pub enum StreamItem {
    /// A new accepted connection.
    Client,
    /// The accept error, yielded exactly once.
    Failure,
    /// End of stream.
    End,
}

impl AcceptorState {
    /// How many accepts the acceptor has completed while live.
    pub open spec fn generation_index(self) -> int {
        match self {
            AcceptorState::Live { generation } => generation as int,
            _ => 0,
        }
    }

    /// The state a fresh acceptor starts in, holding the first listener
    /// generation.
    pub fn initial() -> (s: Self)
        ensures
            s == (AcceptorState::Live { generation: 0u64 }),
    {
        AcceptorState::Live { generation: 0 }
    }

    /// Whether the next pull must perform a platform accept.
    pub fn wants_accept(&self) -> (b: bool)
        ensures
            b <==> self is Live,
    {
        match self {
            AcceptorState::Live { .. } => true,
            _ => false,
        }
    }

    /// One pull of the accept stream. When a listener is live the runtime
    /// performs the platform accept first and hands its outcome here; a
    /// poisoned or ended stream pulls nothing and yields end-of-stream
    /// forever.
    pub fn next_item(&mut self, outcome: &Option<AcceptOutcome>) -> (item: StreamItem)
        requires
            (*old(self) is Live) <==> (outcome is Some),
            *outcome == Some(AcceptOutcome::Accepted) ==> old(self).generation_index()
                < u64::MAX,
        ensures
            outcome matches Some(o) ==> item == spec_step(*old(self), *o).0 && *final(self)
                == spec_step(*old(self), *o).1,
            outcome is None ==> item == StreamItem::End && *final(self) == *old(self),
    {
        match *self {
            AcceptorState::Live { generation } => {
                match outcome {
                    Some(AcceptOutcome::Accepted) => {
                        *self = AcceptorState::Live { generation: generation + 1 };
                        StreamItem::Client
                    },
                    Some(AcceptOutcome::Closed) => {
                        *self = AcceptorState::Ended;
                        StreamItem::End
                    },
                    Some(AcceptOutcome::Fault) => {
                        *self = AcceptorState::Poisoned;
                        StreamItem::Failure
                    },
                    None => {
                        proof {
                            assert(false);
                        }
                        StreamItem::End
                    },
                }
            },
            _ => StreamItem::End,
        }
    }
}

/// One fold step of the accept stream, as a function of the live state
/// and the platform outcome.
pub open spec fn spec_step(s: AcceptorState, outcome: AcceptOutcome) -> (StreamItem, AcceptorState) {
    match outcome {
        AcceptOutcome::Accepted => (
            StreamItem::Client,
            AcceptorState::Live { generation: (s.generation_index() + 1) as u64 },
        ),
        AcceptOutcome::Closed => (StreamItem::End, AcceptorState::Ended),
        AcceptOutcome::Fault => (StreamItem::Failure, AcceptorState::Poisoned),
    }
}

/// The items an acceptor yields over a sequence of platform outcomes,
/// starting from `s`. Once the state leaves `Live`, no further outcome is
/// consumed and nothing further is yielded.
pub open spec fn stream_items(s: AcceptorState, outs: Seq<AcceptOutcome>) -> Seq<StreamItem>
    decreases outs.len(),
{
    if !(s is Live) || outs.len() == 0 {
        seq![]
    } else {
        seq![spec_step(s, outs.first()).0] + stream_items(
            spec_step(s, outs.first()).1,
            outs.drop_first(),
        )
    }
}

/// The acceptor's state after folding a sequence of platform outcomes.
pub open spec fn state_after(s: AcceptorState, outs: Seq<AcceptOutcome>) -> AcceptorState
    decreases outs.len(),
{
    if !(s is Live) || outs.len() == 0 {
        s
    } else {
        state_after(spec_step(s, outs.first()).1, outs.drop_first())
    }
}

/// Generation replacement is transparent: while every accept succeeds the
/// acceptor stays live, so after client `k` the acceptor accepts client
/// `k + 1` with no extra setup by the caller; each accepted client is
/// yielded exactly once, in order, and — within the counter's range —
/// each accept consumed exactly one listener generation.
pub proof fn lemma_replacement_transparent(s: AcceptorState, outs: Seq<AcceptOutcome>)
    requires
        s is Live,
        forall|i: int| 0 <= i < outs.len() ==> outs[i] is Accepted,
    ensures
        stream_items(s, outs).len() == outs.len(),
        forall|i: int| 0 <= i < outs.len() ==> stream_items(s, outs)[i] == StreamItem::Client,
        state_after(s, outs) is Live,
        s.generation_index() + outs.len() <= u64::MAX ==> state_after(
            s,
            outs,
        ).generation_index() == s.generation_index() + outs.len(),
    decreases outs.len(),
{
    if outs.len() > 0 {
        lemma_replacement_transparent(spec_step(s, outs.first()).1, outs.drop_first());
    }
}

/// Accept-stream poisoning: the first failed accept is yielded exactly
/// once, as the stream's last item. Whatever the platform might produce
/// afterwards, the stream consumes and yields nothing further.
pub proof fn lemma_poisoning(s: AcceptorState, outs: Seq<AcceptOutcome>, k: int)
    requires
        s is Live,
        0 <= k < outs.len(),
        forall|i: int| 0 <= i < k ==> outs[i] is Accepted,
        outs[k] is Fault,
    ensures
        stream_items(s, outs).len() == k + 1,
        stream_items(s, outs)[k] == StreamItem::Failure,
        forall|i: int| 0 <= i < k ==> stream_items(s, outs)[i] == StreamItem::Client,
        !(state_after(s, outs) is Live),
    decreases k,
{
    if k > 0 {
        lemma_poisoning(spec_step(s, outs.first()).1, outs.drop_first(), k - 1);
    } else {
        lemma_nothing_after_leaving_live(AcceptorState::Poisoned, outs.drop_first());
    }
}

/// A stream that has left its live state yields nothing more.
proof fn lemma_nothing_after_leaving_live(s: AcceptorState, outs: Seq<AcceptOutcome>)
    requires
        !(s is Live),
    ensures
        stream_items(s, outs) == Seq::<StreamItem>::empty(),
        state_after(s, outs) == s,
{
}

} // verus!
