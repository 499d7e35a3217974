//! Tests of the verified core's logic on concrete values.

use local_ipc::acceptor::{AcceptOutcome, AcceptorState, StreamItem};
use local_ipc::dispatch::{dispatch_step, event_of_item, run_dispatch, LoopAction, LoopEvent, StopCause};
use local_ipc::lines::{decode_line, LineSplitter};
use local_ipc::reader::{line_reader_step, reader_step, ReadEvent, ReaderVerdict};
use local_ipc::receiver::{ClosureReceiver, PrototypeReceiverSource, Receiver, ReceiverSource};
use local_ipc::server::AsyncServer;

type Log = std::sync::Arc<std::sync::Mutex<Vec<Vec<u8>>>>;

fn new_log() -> Log {
    std::sync::Arc::new(std::sync::Mutex::new(Vec::new()))
}

fn logging_receiver(log: &Log) -> ClosureReceiver<impl Fn(&[u8]) + Send + Sync + 'static> {
    let log = log.clone();
    ClosureReceiver::new(move |d: &[u8]| {
        log.lock().unwrap().push(d.to_vec());
    })
}

#[test]
fn closure_receiver_invokes_callback() {
    let log = new_log();
    let recv = logging_receiver(&log);
    assert!(recv.receive(b"abc").is_ok());
    assert!(recv.receive(b"").is_ok());
    assert_eq!(*log.lock().unwrap(), vec![b"abc".to_vec(), b"".to_vec()]);
}

#[test]
fn prototype_source_shares_one_receiver() {
    let log = new_log();
    let mut source = PrototypeReceiverSource::new(logging_receiver(&log));
    let first = source.new_receiver();
    let second = source.new_receiver();
    assert!(first.receive(b"from-first").is_ok());
    assert!(second.receive(b"from-second").is_ok());
    assert_eq!(
        *log.lock().unwrap(),
        vec![b"from-first".to_vec(), b"from-second".to_vec()]
    );
}

#[test]
fn splitter_hands_back_complete_lines() {
    let mut splitter = LineSplitter::new();
    let lines = splitter.push(b"hel");
    assert!(lines.is_empty());
    let lines = splitter.push(b"lo-0\nhello-1\ntail");
    assert_eq!(lines, vec![b"hello-0".to_vec(), b"hello-1".to_vec()]);
    let lines = splitter.push(b"\n");
    assert_eq!(lines, vec![b"tail".to_vec()]);
}

#[test]
fn splitter_chunking_does_not_change_lines() {
    let mut one = LineSplitter::new();
    let mut all: Vec<Vec<u8>> = Vec::new();
    for chunk in [b"a".as_slice(), b"b\nc".as_slice(), b"\n".as_slice()] {
        all.extend(one.push(chunk));
    }
    let mut whole = LineSplitter::new();
    let expected = whole.push(b"ab\nc\n");
    assert_eq!(all, expected);
    assert_eq!(all, vec![b"ab".to_vec(), b"c".to_vec()]);
}

#[test]
fn splitter_take_partial_discards_buffer() {
    let mut splitter = LineSplitter::new();
    let lines = splitter.push(b"done\nhalf");
    assert_eq!(lines, vec![b"done".to_vec()]);
    assert_eq!(splitter.take_partial(), b"half".to_vec());
    assert_eq!(splitter.take_partial(), Vec::<u8>::new());
}

#[test]
fn decode_line_accepts_utf8() {
    let decoded = decode_line(b"hello-0".to_vec());
    assert_eq!(decoded.unwrap(), "hello-0".to_string());
}

#[test]
fn decode_line_reports_malformed() {
    assert!(decode_line(vec![0xff, 0xfe]).is_err());
}

#[test]
fn zero_byte_read_ends_reader_without_delivery() {
    let log = new_log();
    let recv = logging_receiver(&log);
    let verdict = reader_step(&recv, &ReadEvent::Closed);
    assert_eq!(verdict, ReaderVerdict::Disconnected);
    assert!(log.lock().unwrap().is_empty());
}

#[test]
fn chunks_delivered_exactly_once_in_order() {
    let log = new_log();
    let recv = logging_receiver(&log);
    let events = vec![
        ReadEvent::Chunk(b"one".to_vec()),
        ReadEvent::Chunk(b"two".to_vec()),
        ReadEvent::Closed,
    ];
    let mut ended = false;
    for event in &events {
        if reader_step(&recv, event) != ReaderVerdict::Continue {
            ended = true;
            break;
        }
    }
    assert!(ended);
    assert_eq!(*log.lock().unwrap(), vec![b"one".to_vec(), b"two".to_vec()]);
}

#[test]
fn transport_fault_ends_reader() {
    let log = new_log();
    let recv = logging_receiver(&log);
    assert_eq!(reader_step(&recv, &ReadEvent::Fault), ReaderVerdict::TransportFailed);
    assert!(log.lock().unwrap().is_empty());
}

#[test]
fn line_mode_delivers_lines_and_counts_malformed() {
    let log = new_log();
    let recv = logging_receiver(&log);
    let mut splitter = LineSplitter::new();
    let mut chunk: Vec<u8> = b"ok\n".to_vec();
    chunk.extend([0xff, 0xfe]);
    chunk.extend(b"\nrest");
    let report = line_reader_step(&recv, &mut splitter, &ReadEvent::Chunk(chunk));
    assert_eq!(report.verdict, ReaderVerdict::Continue);
    assert_eq!(report.delivered, vec![b"ok".to_vec()]);
    assert_eq!(report.malformed, 1);
    assert_eq!(*log.lock().unwrap(), vec![b"ok".to_vec()]);
    let report = line_reader_step(&recv, &mut splitter, &ReadEvent::Closed);
    assert_eq!(report.verdict, ReaderVerdict::Disconnected);
    assert!(report.delivered.is_empty());
    assert_eq!(*log.lock().unwrap(), vec![b"ok".to_vec()]);
}

#[test]
fn dispatch_maps_events_to_actions() {
    assert_eq!(dispatch_step(&LoopEvent::ClientArrived), LoopAction::SpawnReader);
    assert_eq!(
        dispatch_step(&LoopEvent::Cancelled),
        LoopAction::Stop(StopCause::Cancellation)
    );
    assert_eq!(
        dispatch_step(&LoopEvent::AcceptFailed),
        LoopAction::Stop(StopCause::Fault)
    );
    assert_eq!(
        dispatch_step(&LoopEvent::StreamEnded),
        LoopAction::Stop(StopCause::Exhausted)
    );
}

#[test]
fn stream_items_map_to_loop_events() {
    assert_eq!(event_of_item(&StreamItem::Client), LoopEvent::ClientArrived);
    assert_eq!(event_of_item(&StreamItem::Failure), LoopEvent::AcceptFailed);
    assert_eq!(event_of_item(&StreamItem::End), LoopEvent::StreamEnded);
}

#[test]
fn cancel_before_any_client_spawns_nothing() {
    let events = vec![LoopEvent::Cancelled, LoopEvent::ClientArrived];
    assert_eq!(run_dispatch(&events), (0, Some(StopCause::Cancellation)));
}

#[test]
fn second_cancellation_changes_nothing() {
    let once = run_dispatch(&vec![LoopEvent::Cancelled]);
    let twice = run_dispatch(&vec![LoopEvent::Cancelled, LoopEvent::Cancelled]);
    assert_eq!(once, twice);
}

#[test]
fn clients_before_stop_are_all_dispatched() {
    let events = vec![
        LoopEvent::ClientArrived,
        LoopEvent::ClientArrived,
        LoopEvent::AcceptFailed,
        LoopEvent::ClientArrived,
    ];
    assert_eq!(run_dispatch(&events), (2, Some(StopCause::Fault)));
}

#[test]
fn dispatch_still_racing_without_stop_event() {
    let events = vec![LoopEvent::ClientArrived; 3];
    assert_eq!(run_dispatch(&events), (3, None));
}

#[test]
fn acceptor_replaces_generation_transparently() {
    let mut state = AcceptorState::initial();
    for _ in 0..3 {
        assert!(state.wants_accept());
        let item = state.next_item(&Some(AcceptOutcome::Accepted));
        assert_eq!(item, StreamItem::Client);
    }
    assert!(state.wants_accept());
    assert_eq!(state, AcceptorState::Live { generation: 3 });
}

#[test]
fn acceptor_poisons_after_fault() {
    let mut state = AcceptorState::initial();
    assert_eq!(state.next_item(&Some(AcceptOutcome::Accepted)), StreamItem::Client);
    assert_eq!(state.next_item(&Some(AcceptOutcome::Fault)), StreamItem::Failure);
    assert!(!state.wants_accept());
    assert_eq!(state.next_item(&None), StreamItem::End);
    assert_eq!(state.next_item(&None), StreamItem::End);
}

#[test]
fn acceptor_ends_when_listener_closes() {
    let mut state = AcceptorState::initial();
    assert_eq!(state.next_item(&Some(AcceptOutcome::Closed)), StreamItem::End);
    assert!(!state.wants_accept());
    assert_eq!(state, AcceptorState::Ended);
}

#[test]
fn stop_raises_the_signal_idempotently() {
    let server = AsyncServer::new();
    let signal = server.signal();
    assert!(!signal.is_cancelled());
    server.stop();
    assert!(signal.is_cancelled());
    server.stop();
    assert!(signal.is_cancelled());
    assert!(server.signal().is_cancelled());
}
