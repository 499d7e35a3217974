//! Per-client reader logic. For one accepted connection the runtime
//! repeatedly reads into a fixed buffer and reports each result here as a
//! [`ReadEvent`]; these functions decide what the reader task does with it:
//! deliver the bytes (or the lines they complete) to the client's receiver,
//! or end the task on disconnect, transport error, or a refused delivery.

use vstd::prelude::*;

use crate::lines::{line_rest, split_lines, utf8_ok, views_of, LineSplitter};
use crate::receiver::{ReceiveError, Receiver};
use vstd::pervasive::VecAdditionalExecFns;
use vstd::utf8::valid_utf8;

verus! {

/// One observation made by a per-client reader: a read of one or more
/// bytes, a clean disconnect (a 0-byte read), or a transport error.
pub enum ReadEvent {
    Chunk(Vec<u8>),
    Closed,
    Fault,
}

/// What the reader task does after one observation. Every ending verdict
/// is local to this one client.
#[derive(Clone, Copy, PartialEq, Eq, Structural, Debug)]
pub enum ReaderVerdict {
    /// Keep reading from this client.
    Continue,
    /// The peer disconnected; the task ends normally.
    Disconnected,
    /// Reading failed; the task ends.
    TransportFailed,
    /// The receiver refused a delivery; delivery for this client stops.
    HandlerRefused,
}

/// The payload of a chunk observation.
pub open spec fn chunk_data(event: ReadEvent) -> Seq<u8> {
    match event {
        ReadEvent::Chunk(d) => d@,
        _ => Seq::<u8>::empty(),
    }
}

/// The payloads a raw-mode reader delivers over a trace of observations,
/// in order: one delivery per chunk, none once the trace leaves its
/// initial run of chunks.
pub open spec fn deliveries(events: Seq<ReadEvent>) -> Seq<Seq<u8>>
    decreases events.len(),
{
    if events.len() == 0 {
        seq![]
    } else if events.first() is Chunk {
        seq![chunk_data(events.first())] + deliveries(events.drop_first())
    } else {
        seq![]
    }
}

/// The verdict a delivery outcome maps to.
pub open spec fn verdict_of(outcome: Result<(), ReceiveError>) -> ReaderVerdict {
    if outcome is Ok {
        ReaderVerdict::Continue
    } else {
        ReaderVerdict::HandlerRefused
    }
}

/// Drive one step of a raw-mode reader: a chunk is delivered whole and at
/// once; a 0-byte read or a transport error ends the task without
/// reaching the receiver.
pub fn reader_step<R: Receiver>(recv: &R, event: &ReadEvent) -> (v: ReaderVerdict)
    requires
        event matches ReadEvent::Chunk(d) ==> recv.req(d@),
    ensures
        event is Closed ==> v == ReaderVerdict::Disconnected,
        event is Fault ==> v == ReaderVerdict::TransportFailed,
        event matches ReadEvent::Chunk(d) ==> exists|outcome: Result<(), ReceiveError>|
            #[trigger] recv.ens(d@, outcome) && v == verdict_of(outcome),
{
    match event {
        ReadEvent::Chunk(data) => {
            let outcome = recv.receive(data.as_slice());
            match outcome {
                Ok(_) => ReaderVerdict::Continue,
                Err(_) => ReaderVerdict::HandlerRefused,
            }
        },
        ReadEvent::Closed => ReaderVerdict::Disconnected,
        ReadEvent::Fault => ReaderVerdict::TransportFailed,
    }
}

/// The valid-UTF-8 lines among `lines`, in order: exactly what line mode
/// delivers out of them.
pub open spec fn well_formed_lines(lines: Seq<Seq<u8>>) -> Seq<Seq<u8>>
    decreases lines.len(),
{
    if lines.len() == 0 {
        seq![]
    } else if valid_utf8(lines.last()) {
        well_formed_lines(lines.drop_last()).push(lines.last())
    } else {
        well_formed_lines(lines.drop_last())
    }
}

/// The receiver accepted a delivery of `line`.
pub open spec fn line_accepted<R: Receiver>(recv: R, line: Seq<u8>) -> bool {
    exists|outcome: Result<(), ReceiveError>| #[trigger] recv.ens(line, outcome) && outcome is Ok
}

/// Every line of `lines` completed a delivery the receiver accepted.
pub open spec fn all_accepted<R: Receiver>(recv: R, lines: Seq<Vec<u8>>) -> bool {
    forall|i: int| 0 <= i < lines.len() ==> #[trigger] line_accepted(recv, lines[i]@)
}

/// What one line-mode step did.
pub struct LineStepReport {
    /// The lines handed to the receiver in this step, in delivery order.
    pub delivered: Vec<Vec<u8>>,
    /// Malformed (non-UTF-8) lines skipped in this step; each is an error
    /// local to its line.
    pub malformed: usize,
    /// The verdict for the client after this step.
    pub verdict: ReaderVerdict,
}

/// Drive one step of a line-mode reader: a chunk's bytes are buffered and
/// every line it completes is delivered in order, terminator stripped,
/// provided it is valid UTF-8; a malformed line is counted and skipped
/// without ending the connection. A disconnect or a transport error ends
/// the task and discards the unterminated partial line.
pub fn line_reader_step<R: Receiver>(
    recv: &R,
    splitter: &mut LineSplitter,
    event: &ReadEvent,
) -> (report: LineStepReport)
    requires
        old(splitter).wf(),
        forall|d: Seq<u8>| #[trigger] recv.req(d),
    ensures
        final(splitter).wf(),
        !(event is Chunk) ==> final(splitter).pending() == Seq::<u8>::empty()
            && report.delivered@.len() == 0 && report.malformed == 0,
        event is Closed ==> report.verdict == ReaderVerdict::Disconnected,
        event is Fault ==> report.verdict == ReaderVerdict::TransportFailed,
        event matches ReadEvent::Chunk(d) ==> final(splitter).pending() == line_rest(
            old(splitter).pending() + d@,
        ),
        event matches ReadEvent::Chunk(d) ==> (report.verdict is Continue
            || report.verdict is HandlerRefused),
        event matches ReadEvent::Chunk(d) ==> (report.verdict is Continue ==> views_of(
            report.delivered@,
        ) == well_formed_lines(split_lines(old(splitter).pending() + d@))
            && report.delivered@.len() + report.malformed == split_lines(
            old(splitter).pending() + d@,
        ).len()),
        report.verdict is HandlerRefused ==> exists|l: Seq<u8>, outcome: Result<
            (),
            ReceiveError,
        >| #[trigger] recv.ens(l, outcome) && outcome is Err,
        all_accepted(*recv, report.delivered@),
{
    match event {
        ReadEvent::Chunk(data) => {
            let mut lines = splitter.push(data.as_slice());
            let ghost all = views_of(lines@);
            let mut delivered: Vec<Vec<u8>> = Vec::new();
            let mut malformed: usize = 0;
            let mut refused = false;
            let mut j: usize = 0;
            proof {
                assert(all.take(0) =~= Seq::<Seq<u8>>::empty());
                assert(views_of(delivered@) =~= Seq::<Seq<u8>>::empty());
            }
            while j < lines.len()
                invariant
                    forall|d: Seq<u8>| #[trigger] recv.req(d),
                    0 <= j <= lines@.len(),
                    all.len() == lines@.len(),
                    forall|k: int| j <= k < all.len() ==> all[k] == lines@[k]@,
                    malformed <= j,
                    !refused ==> views_of(delivered@) == well_formed_lines(all.take(j as int))
                        && delivered@.len() + malformed == j,
                    all_accepted(*recv, delivered@),
                    refused ==> exists|l: Seq<u8>, outcome: Result<(), ReceiveError>|
                        #[trigger] recv.ens(l, outcome) && outcome is Err,
                decreases lines@.len() - j,
            {
                proof {
                    assert(all[j as int] == lines@[j as int]@);
                    assert(all.take(j as int + 1).drop_last() =~= all.take(j as int));
                    assert(all.take(j as int + 1).last() == all[j as int]);
                }
                if !refused {
                    let mut line: Vec<u8> = Vec::new();
                    lines.set_and_swap(j, &mut line);
                    proof {
                        assert(recv.req(all[j as int]));
                    }
                    if utf8_ok(line.as_slice()) {
                        let outcome = recv.receive(line.as_slice());
                        match outcome {
                            Ok(_) => {
                                proof {
                                    assert(line_accepted(*recv, line@));
                                }
                                let ghost before: Seq<Vec<u8>> = delivered@;
                                delivered.push(line);
                                proof {
                                    assert(views_of(delivered@) =~= well_formed_lines(
                                        all.take(j as int),
                                    ).push(all[j as int]));
                                    assert forall|i: int|
                                        0 <= i < delivered@.len() implies #[trigger] line_accepted(
                                        *recv,
                                        delivered@[i]@,
                                    ) by {
                                        if i < before.len() {
                                            assert(delivered@[i] == before[i]);
                                        } else {
                                            assert(delivered@[i] == line);
                                        }
                                    }
                                }
                            },
                            Err(_) => {
                                refused = true;
                            },
                        }
                    } else {
                        malformed = malformed + 1;
                    }
                }
                j = j + 1;
            }
            proof {
                assert(all.take(lines@.len() as int) =~= all);
            }
            let verdict = if refused {
                ReaderVerdict::HandlerRefused
            } else {
                ReaderVerdict::Continue
            };
            LineStepReport { delivered, malformed, verdict }
        },
        ReadEvent::Closed => {
            let _ = splitter.take_partial();
            LineStepReport {
                delivered: Vec::new(),
                malformed: 0,
                verdict: ReaderVerdict::Disconnected,
            }
        },
        ReadEvent::Fault => {
            let _ = splitter.take_partial();
            LineStepReport {
                delivered: Vec::new(),
                malformed: 0,
                verdict: ReaderVerdict::TransportFailed,
            }
        },
    }
}

/// Exactly-once, in-order delivery: over an initial run of `k` chunk
/// observations, a raw-mode reader delivers exactly `k` payloads, the
/// `i`-th delivery being the `i`-th chunk; the first observation that is
/// not a chunk (a disconnect or a fault) delivers nothing and stops
/// delivery for good.
pub proof fn lemma_deliveries_in_order(events: Seq<ReadEvent>, k: int)
    requires
        0 <= k <= events.len(),
        forall|i: int| 0 <= i < k ==> events[i] is Chunk,
        k < events.len() ==> !(events[k] is Chunk),
    ensures
        deliveries(events).len() == k,
        forall|i: int| 0 <= i < k ==> deliveries(events)[i] == chunk_data(events[i]),
    decreases events.len(),
{
    if events.len() > 0 && k > 0 {
        lemma_deliveries_in_order(events.drop_first(), k - 1);
    }
}

} // verus!
