//! End-to-end scenarios over real local sockets, driving the verified
//! core with the events the transport produces.

use local_ipc::acceptor::{AcceptOutcome, AcceptorState, StreamItem};
use local_ipc::dispatch::{run_dispatch, LoopEvent, StopCause};
use local_ipc::lines::LineSplitter;
use local_ipc::reader::{line_reader_step, reader_step, ReadEvent, ReaderVerdict};
use local_ipc::receiver::{ClosureReceiver, PrototypeReceiverSource, ReceiverSource};

fn runtime() -> tokio::runtime::Runtime {
    tokio::runtime::Builder::new_multi_thread()
        .worker_threads(2)
        .enable_all()
        .build()
        .unwrap()
}

/// A socket path no other run is using.
fn unique_path(tag: &str) -> String {
    let nanos = std::time::SystemTime::now()
        .duration_since(std::time::UNIX_EPOCH)
        .unwrap()
        .as_nanos();
    format!("/tmp/local_ipc_{tag}_{nanos}.sock")
}

async fn read_event(conn: &mut tokio::net::UnixStream, buf: &mut [u8]) -> ReadEvent {
    match tokio::io::AsyncReadExt::read(conn, buf).await {
        Ok(0) => ReadEvent::Closed,
        Ok(n) => ReadEvent::Chunk(buf[..n].to_vec()),
        Err(_) => ReadEvent::Fault,
    }
}

#[test]
fn four_clients_each_line_delivered_exactly_once() {
    let rt = runtime();
    let path = unique_path("lines");
    rt.block_on(async {
        let listener = tokio::net::UnixListener::bind(&path).unwrap();
        let log: std::sync::Arc<std::sync::Mutex<Vec<String>>> =
            std::sync::Arc::new(std::sync::Mutex::new(Vec::new()));
        let sink = log.clone();
        let mut source = PrototypeReceiverSource::new(ClosureReceiver::new(move |d: &[u8]| {
            sink.lock()
                .unwrap()
                .push(String::from_utf8(d.to_vec()).unwrap());
        }));

        let mut writers = Vec::new();
        for id in 0..4 {
            let path = path.clone();
            writers.push(tokio::spawn(async move {
                let mut c = tokio::net::UnixStream::connect(&path).await.unwrap();
                let message = format!("hello-{id}\n");
                tokio::io::AsyncWriteExt::write_all(&mut c, message.as_bytes())
                    .await
                    .unwrap();
                tokio::io::AsyncWriteExt::shutdown(&mut c).await.unwrap();
            }));
        }

        let mut readers = Vec::new();
        for _ in 0..4 {
            let (mut conn, _) = listener.accept().await.unwrap();
            let receiver = source.new_receiver();
            readers.push(tokio::spawn(async move {
                let mut splitter = LineSplitter::new();
                let mut buf = vec![0u8; 1024];
                loop {
                    let event = read_event(&mut conn, &mut buf).await;
                    let report = line_reader_step(&receiver, &mut splitter, &event);
                    if report.verdict != ReaderVerdict::Continue {
                        break;
                    }
                }
            }));
        }
        for w in writers {
            w.await.unwrap();
        }
        for r in readers {
            r.await.unwrap();
        }

        let mut got = log.lock().unwrap().clone();
        got.sort();
        let want: Vec<String> = (0..4).map(|i| format!("hello-{i}")).collect();
        assert_eq!(got, want);

        // Stopping after the four clients: the dispatch decisions for
        // this run spawn exactly four readers, then stop by
        // cancellation, delivering nothing further.
        let mut events = vec![LoopEvent::ClientArrived; 4];
        events.push(LoopEvent::Cancelled);
        assert_eq!(run_dispatch(&events), (4, Some(StopCause::Cancellation)));
        assert_eq!(log.lock().unwrap().len(), 4);
    });
}

#[test]
fn next_client_accepted_after_previous_disconnects() {
    let rt = runtime();
    let path = unique_path("seq");
    rt.block_on(async {
        let listener = tokio::net::UnixListener::bind(&path).unwrap();
        let mut state = AcceptorState::initial();
        for round in 0..2 {
            assert!(state.wants_accept());
            let path = path.clone();
            let writer = tokio::spawn(async move {
                let mut c = tokio::net::UnixStream::connect(&path).await.unwrap();
                let message = format!("round-{round}");
                tokio::io::AsyncWriteExt::write_all(&mut c, message.as_bytes())
                    .await
                    .unwrap();
            });
            let (mut conn, _) = listener.accept().await.unwrap();
            assert_eq!(
                state.next_item(&Some(AcceptOutcome::Accepted)),
                StreamItem::Client
            );
            let log: std::sync::Arc<std::sync::Mutex<Vec<Vec<u8>>>> =
                std::sync::Arc::new(std::sync::Mutex::new(Vec::new()));
            let sink = log.clone();
            let receiver = ClosureReceiver::new(move |d: &[u8]| {
                sink.lock().unwrap().push(d.to_vec());
            });
            let mut buf = vec![0u8; 1024];
            loop {
                let event = read_event(&mut conn, &mut buf).await;
                if reader_step(&receiver, &event) != ReaderVerdict::Continue {
                    break;
                }
            }
            writer.await.unwrap();
            let got = log.lock().unwrap().concat();
            assert_eq!(got, format!("round-{round}").into_bytes());
        }
        assert!(state.wants_accept());
    });
}

#[test]
fn second_server_on_same_identity_is_rejected() {
    let rt = runtime();
    let path = unique_path("dup");
    rt.block_on(async {
        let first = tokio::net::UnixListener::bind(&path).unwrap();
        let second = tokio::net::UnixListener::bind(&path);
        let err = second.err().unwrap();
        assert_eq!(err.kind(), std::io::ErrorKind::AddrInUse);

        let writer_path = path.clone();
        let writer = tokio::spawn(async move {
            let mut c = tokio::net::UnixStream::connect(&writer_path).await.unwrap();
            tokio::io::AsyncWriteExt::write_all(&mut c, b"still-up")
                .await
                .unwrap();
        });
        let (mut conn, _) = first.accept().await.unwrap();
        let mut buf = vec![0u8; 16];
        let n = tokio::io::AsyncReadExt::read(&mut conn, &mut buf).await.unwrap();
        assert_eq!(&buf[..n], b"still-up");
        writer.await.unwrap();
    });
}
