use mns_supervisor::network::driver::{Action, RunEvent, StreamEvent, UploadEvent};
use mns_supervisor::network::fernbedienung::{Device, Error};
use mns_supervisor::network::frame::{frame, FrameReader, MAX_FRAME_LEN};
use mns_supervisor::network::mux::{Delivery, Mux};
use mns_supervisor::network::protocol::{
    ProcessRequest, ProcessResponse, Request, RequestKind, Response, ResponseKind, Run, Stream,
    StreamRequest, StreamResponse, Upload,
};

fn task(target: &str, args: &[&str]) -> Run {
    Run {
        target: target.to_owned(),
        working_dir: "/tmp".to_owned(),
        args: args.iter().map(|a| a.to_string()).collect(),
    }
}

fn reply(c: u128, kind: ResponseKind) -> Response {
    Response { correlator: Some(c), kind }
}

fn stdout(b: &[u8]) -> ResponseKind {
    ResponseKind::Process(ProcessResponse::StandardOutput(b.to_vec()))
}

fn terminated(ok: bool) -> ResponseKind {
    ResponseKind::Process(ProcessResponse::Terminated(ok))
}

#[test]
fn upload_resolves_true() {
    let mut agent = Device::new(0x0a000005);
    let (mut driver, request) = agent
        .upload(1, "/tmp".to_owned(), "a.bin".to_owned(), vec![0xDE, 0xAD])
        .unwrap();
    assert_eq!(
        request,
        Request {
            correlator: 1,
            kind: RequestKind::Upload(Upload {
                path: "/tmp".to_owned(),
                filename: "a.bin".to_owned(),
                contents: vec![0xDE, 0xAD],
            }),
        }
    );
    assert_eq!(agent.receive(reply(1, ResponseKind::Success)), Delivery::Queued);
    let responses = agent.responses(1);
    assert_eq!(responses, vec![ResponseKind::Success]);
    let mut last = Action::Ignore;
    for r in responses {
        last = driver.step(UploadEvent::Response(r));
    }
    assert_eq!(last, Action::Finish(Ok(true)));
    assert!(agent.finish(1));
    assert_eq!(agent.table.len(), 0);
}

#[test]
fn upload_fails_on_error_response() {
    let mut agent = Device::new(1);
    let (mut driver, _) = agent.upload(2, "/tmp".to_owned(), "b".to_owned(), vec![]).unwrap();
    assert_eq!(
        driver.step(UploadEvent::Response(ResponseKind::Error("disk full".to_owned()))),
        Action::Finish(Ok(false))
    );
}

#[test]
fn run_with_streamed_stdout() {
    let mut agent = Device::new(1);
    let (mut driver, request) = agent.run(9, task("hostname", &[]), true, false).unwrap();
    assert_eq!(
        request,
        Request { correlator: 9, kind: RequestKind::Process(ProcessRequest::Run(task("hostname", &[]))) }
    );
    agent.receive(reply(9, stdout(b"hi")));
    agent.receive(reply(9, terminated(true)));
    let mut out = Vec::new();
    let mut exit = None;
    for r in agent.responses(9) {
        match driver.step(RunEvent::Response(r)) {
            Action::Stdout(b) => out.extend(b),
            Action::Finish(v) => exit = Some(v),
            other => panic!("unexpected {:?}", other),
        }
    }
    assert_eq!(out, b"hi".to_vec());
    assert_eq!(exit, Some(Ok(true)));
}

#[test]
fn terminate_on_cancel() {
    let mut agent = Device::new(1);
    let (mut driver, _) = agent.run(3, task("sleep", &["60"]), false, false).unwrap();
    assert_eq!(
        driver.step(RunEvent::Terminate),
        Action::Send(Request { correlator: 3, kind: RequestKind::Process(ProcessRequest::Terminate) })
    );
    // still running until the agent reports the end
    assert_eq!(driver.step(RunEvent::Response(terminated(false))), Action::Finish(Ok(false)));
}

#[test]
fn dropping_a_running_operation_sends_terminate() {
    let mut agent = Device::new(1);
    let (mut driver, _) = agent.run(4, task("sleep", &["60"]), false, false).unwrap();
    assert_eq!(
        driver.step(RunEvent::Cancel),
        Action::Abort(Some(Request { correlator: 4, kind: RequestKind::Process(ProcessRequest::Terminate) }))
    );
    assert!(agent.finish(4));
    assert!(!agent.table.is_live(4));
}

#[test]
fn cancelling_completed_operations_is_a_no_op() {
    let mut agent = Device::new(1);
    let (mut run, _) = agent.run(5, task("true", &[]), false, false).unwrap();
    run.step(RunEvent::Response(terminated(true)));
    assert_eq!(run.step(RunEvent::Cancel), Action::Ignore);
    assert_eq!(run.step(RunEvent::Cancel), Action::Ignore);
    let (mut up, _) = agent.upload(6, "/".to_owned(), "f".to_owned(), vec![1]).unwrap();
    up.step(UploadEvent::Response(ResponseKind::Success));
    assert_eq!(up.step(UploadEvent::Cancel), Action::Ignore);
    let (mut st, _) = agent.stream(7, Stream { kind: "camera".to_owned() }).unwrap();
    st.step(StreamEvent::Closed);
    assert_eq!(st.step(StreamEvent::Cancel), Action::Ignore);
}

#[test]
fn stdin_is_forwarded() {
    let mut agent = Device::new(1);
    let (mut driver, _) = agent.run(8, task("cat", &[]), true, false).unwrap();
    assert_eq!(
        driver.step(RunEvent::Stdin(b"abc".to_vec())),
        Action::Send(Request {
            correlator: 8,
            kind: RequestKind::Process(ProcessRequest::StandardInput(b"abc".to_vec())),
        })
    );
}

#[test]
fn output_without_sink_is_dropped() {
    let mut agent = Device::new(1);
    let (mut driver, _) = agent.run(10, task("ls", &[]), false, true).unwrap();
    assert_eq!(driver.step(RunEvent::Response(stdout(b"x"))), Action::Ignore);
    assert_eq!(
        driver.step(RunEvent::Response(ResponseKind::Process(ProcessResponse::StandardError(b"e".to_vec())))),
        Action::Stderr(b"e".to_vec())
    );
    assert_eq!(driver.step(RunEvent::Response(ResponseKind::Success)), Action::Ignore);
}

#[test]
fn concurrent_runs_keep_their_output_apart() {
    let mut agent = Device::new(1);
    let (mut d1, _) = agent.run(11, task("a", &[]), true, false).unwrap();
    let (mut d2, _) = agent.run(12, task("b", &[]), true, false).unwrap();
    agent.table.deliver_all(vec![
        reply(11, stdout(b"one-")),
        reply(12, stdout(b"two-")),
        reply(11, stdout(b"1")),
        reply(12, stdout(b"2")),
        reply(11, terminated(true)),
        reply(12, terminated(true)),
    ]);
    let collect = |d: &mut mns_supervisor::network::driver::RunDriver, rs: Vec<ResponseKind>| {
        let mut out = Vec::new();
        for r in rs {
            if let Action::Stdout(b) = d.step(RunEvent::Response(r)) {
                out.extend(b);
            }
        }
        out
    };
    let r1 = agent.responses(11);
    let r2 = agent.responses(12);
    assert_eq!(collect(&mut d1, r1), b"one-1".to_vec());
    assert_eq!(collect(&mut d2, r2), b"two-2".to_vec());
}

#[test]
fn transport_loss_fails_run() {
    let mut agent = Device::new(1);
    let (mut driver, _) = agent.run(13, task("sleep", &["60"]), true, false).unwrap();
    agent.receive(reply(13, stdout(b"partial")));
    assert_eq!(agent.lose_connection(), vec![13]);
    assert!(!agent.table.is_live(13));
    assert_eq!(agent.table.len(), 0);
    assert_eq!(driver.step(RunEvent::Closed), Action::Finish(Err(Error::Response)));
    assert_eq!(
        agent.upload(14, "/".to_owned(), "f".to_owned(), vec![]).map(|_| ()),
        Err(Error::Request)
    );
}

#[test]
fn upload_then_read_round_trip() {
    let bytes: Vec<u8> = (0u8..=255).collect();
    let mut agent = Device::new(1);
    let (_, up) = agent.upload(20, "/tmp".to_owned(), "b.bin".to_owned(), bytes.clone()).unwrap();
    let uploaded = match up.kind {
        RequestKind::Upload(u) => u.contents,
        _ => panic!("not an upload"),
    };
    // the agent's `cat` answers the uploaded bytes in chunks
    let (mut driver, _) = agent.run(21, task("cat", &["/tmp/b.bin"]), true, false).unwrap();
    for chunk in uploaded.chunks(100) {
        agent.receive(reply(21, stdout(chunk)));
    }
    agent.receive(reply(21, terminated(true)));
    let mut out = Vec::new();
    for r in agent.responses(21) {
        if let Action::Stdout(b) = driver.step(RunEvent::Response(r)) {
            out.extend(b);
        }
    }
    assert_eq!(out, bytes);
}

#[test]
fn stream_forwards_frames_until_stopped() {
    let mut agent = Device::new(1);
    let (mut driver, request) = agent.stream(30, Stream { kind: "camera".to_owned() }).unwrap();
    assert_eq!(
        request.kind,
        RequestKind::Stream(StreamRequest::Stream(Stream { kind: "camera".to_owned() }))
    );
    assert_eq!(
        driver.step(StreamEvent::Response(ResponseKind::Stream(StreamResponse::Frame(vec![1, 2])))),
        Action::Frame(vec![1, 2])
    );
    assert_eq!(
        driver.step(StreamEvent::Stop),
        Action::Send(Request { correlator: 30, kind: RequestKind::Stream(StreamRequest::Stop) })
    );
    assert_eq!(driver.step(StreamEvent::Stop), Action::Ignore);
    assert_eq!(driver.step(StreamEvent::Drained), Action::Finish(Ok(true)));
    assert_eq!(driver.step(StreamEvent::Closed), Action::Ignore);
}

#[test]
fn quiet_does_not_end_a_running_stream() {
    let mut agent = Device::new(1);
    let (mut driver, _) = agent.stream(32, Stream { kind: "camera".to_owned() }).unwrap();
    assert_eq!(driver.step(StreamEvent::Drained), Action::Ignore);
    assert_eq!(
        driver.step(StreamEvent::Response(ResponseKind::Stream(StreamResponse::Frame(vec![3])))),
        Action::Frame(vec![3])
    );
}

#[test]
fn peer_close_after_stop_is_response_error() {
    let mut agent = Device::new(1);
    let (mut driver, _) = agent.stream(33, Stream { kind: "camera".to_owned() }).unwrap();
    driver.step(StreamEvent::Stop);
    assert_eq!(driver.step(StreamEvent::Closed), Action::Finish(Err(Error::Response)));
}

#[test]
fn stream_closed_by_peer_is_response_error() {
    let mut agent = Device::new(1);
    let (mut driver, _) = agent.stream(31, Stream { kind: "camera".to_owned() }).unwrap();
    assert_eq!(driver.step(StreamEvent::Closed), Action::Finish(Err(Error::Response)));
}

#[test]
fn one_sink_per_correlator() {
    let mut mux = Mux::new();
    assert!(mux.register(1));
    assert!(!mux.register(1));
    assert_eq!(mux.len(), 1);
    let mut agent = Device::new(1);
    agent.run(2, task("a", &[]), false, false).unwrap();
    assert_eq!(agent.run(2, task("a", &[]), false, false).map(|_| ()), Err(Error::Request));
}

#[test]
fn entry_retired_only_after_completion() {
    let mut mux = Mux::new();
    mux.register(5);
    assert!(!mux.retire(5));
    assert!(mux.is_live(5));
    assert!(mux.complete(5));
    assert!(mux.retire(5));
    assert!(!mux.is_live(5));
    assert!(!mux.complete(5));
}

#[test]
fn frames_without_known_correlator_are_not_delivered() {
    let mut agent = Device::new(1);
    agent.run(40, task("a", &[]), true, false).unwrap();
    assert_eq!(agent.receive(reply(41, stdout(b"x"))), Delivery::Unknown);
    assert_eq!(
        agent.receive(Response { correlator: None, kind: stdout(b"y") }),
        Delivery::Advisory
    );
    assert!(agent.responses(40).is_empty());
}

#[test]
fn frame_round_trip() {
    let framed = frame(b"hello").unwrap();
    assert_eq!(framed, vec![0, 0, 0, 5, b'h', b'e', b'l', b'l', b'o']);
    let mut reader = FrameReader::new();
    reader.push(&framed[..3]);
    assert_eq!(reader.next_frame(), Ok(None));
    reader.push(&framed[3..]);
    reader.push(&frame(b"").unwrap());
    assert_eq!(reader.next_frame(), Ok(Some(b"hello".to_vec())));
    assert_eq!(reader.next_frame(), Ok(Some(Vec::new())));
    assert_eq!(reader.next_frame(), Ok(None));
}

#[test]
fn oversized_frames_are_refused() {
    assert_eq!(frame(&vec![0u8; MAX_FRAME_LEN + 1]), Err(Error::Transport));
    let mut reader = FrameReader::new();
    reader.push(&[0x01, 0x00, 0x00, 0x00]);
    assert_eq!(reader.next_frame(), Err(Error::Transport));
}

#[test]
fn frame_length_is_big_endian() {
    let framed = frame(&vec![7u8; 300]).unwrap();
    assert_eq!(&framed[..4], &[0, 0, 1, 44]);
    assert_eq!(framed.len(), 304);
}
