//! Per-operation drivers of the agent transport.
//!
//! Each logical operation (upload, run, stream) is an explicit state machine:
//! the event loop around it hands over one event at a time (a response from
//! the operation's sink, a signal, a stdin chunk, the loss of the connection,
//! or the cancellation of the operation) and performs the action that comes
//! back. Once an operation has finished, every further event is ignored.

use vstd::prelude::*;
use super::fernbedienung::Error;
use super::mux::{routed, tagged};
use super::protocol::{
    Correlator, ProcessRequest, ProcessResponse, Request, RequestKind, Response, ResponseKind, Run,
    Stream, StreamRequest, StreamResponse, Upload,
};

verus! {

/// What the event loop does next on behalf of an operation.
#[derive(Debug, PartialEq, Eq)]
pub enum Action {
    /// Send this request to the agent.
    Send(Request),
    /// Forward a chunk of the remote process's standard output to its sink.
    Stdout(Vec<u8>),
    /// Forward a chunk of the remote process's standard error to its sink.
    Stderr(Vec<u8>),
    /// Forward a media frame to the frame sink.
    Frame(Vec<u8>),
    /// The operation is complete with this value; its correlator may be retired.
    Finish(Result<bool, Error>),
    /// The operation was cancelled: send the terminating request, if any, and
    /// retire its correlator.
    Abort(Option<Request>),
    /// Nothing to do.
    Ignore,
}

/// An event of an upload.
#[derive(Debug, PartialEq, Eq)]
pub enum UploadEvent {
    Response(ResponseKind),
    /// The response queue closed: the connection was lost.
    Closed,
    /// The caller dropped the operation.
    Cancel,
}

/// An event of a process run.
#[derive(Debug, PartialEq, Eq)]
pub enum RunEvent {
    /// The terminate signal fired.
    Terminate,
    /// A chunk arrived on the stdin stream.
    Stdin(Vec<u8>),
    Response(ResponseKind),
    Closed,
    Cancel,
}

/// An event of a media stream.
#[derive(Debug, PartialEq, Eq)]
pub enum StreamEvent {
    /// The stop signal fired.
    Stop,
    Response(ResponseKind),
    /// Since the stop request was sent, a quiet interval passed with nothing
    /// left queued for the stream: no more frames arrive.
    Drained,
    Closed,
    Cancel,
}

/// The request that starts an upload.
pub open spec fn upload_request(c: Correlator, upload: Upload) -> Request {
    Request { correlator: c, kind: RequestKind::Upload(upload) }
}

/// The request that starts a process run.
pub open spec fn run_request(c: Correlator, task: Run) -> Request {
    Request { correlator: c, kind: RequestKind::Process(ProcessRequest::Run(task)) }
}

/// The request that starts a media stream.
pub open spec fn stream_request(c: Correlator, stream: Stream) -> Request {
    Request { correlator: c, kind: RequestKind::Stream(StreamRequest::Stream(stream)) }
}

pub open spec fn terminate_request(c: Correlator) -> Request {
    Request { correlator: c, kind: RequestKind::Process(ProcessRequest::Terminate) }
}

pub open spec fn stop_request(c: Correlator) -> Request {
    Request { correlator: c, kind: RequestKind::Stream(StreamRequest::Stop) }
}

/// The driver of an upload: one request, exactly one response.
#[derive(Clone, Copy, Debug, PartialEq, Eq, Structural)]
pub struct UploadDriver {
    pub correlator: Correlator,
    pub done: bool,
}

/// The driver of a process run.
#[derive(Clone, Copy, Debug, PartialEq, Eq, Structural)]
pub struct RunDriver {
    pub correlator: Correlator,
    /// Whether the caller supplied a standard-output sink.
    pub has_stdout: bool,
    /// Whether the caller supplied a standard-error sink.
    pub has_stderr: bool,
    pub done: bool,
}

/// The driver of a media stream.
#[derive(Clone, Copy, Debug, PartialEq, Eq, Structural)]
pub struct StreamDriver {
    pub correlator: Correlator,
    /// The stop request has been sent.
    pub stopping: bool,
    pub done: bool,
}

/// An upload succeeds iff its response is `Success`; a lost connection is a
/// `Response` error.
pub open spec fn upload_next(d: UploadDriver, e: UploadEvent) -> (UploadDriver, Action) {
    let ended = UploadDriver { done: true, ..d };
    if d.done {
        (d, Action::Ignore)
    } else {
        match e {
            UploadEvent::Response(k) => (ended, Action::Finish(Ok(k is Success))),
            UploadEvent::Closed => (ended, Action::Finish(Err(Error::Response))),
            UploadEvent::Cancel => (ended, Action::Abort(None)),
        }
    }
}

/// A run forwards stdin and the terminate signal to the agent, output to the
/// sinks that exist, and completes with the exit status of `Terminated`.
pub open spec fn run_next(d: RunDriver, e: RunEvent) -> (RunDriver, Action) {
    let ended = RunDriver { done: true, ..d };
    if d.done {
        (d, Action::Ignore)
    } else {
        match e {
            RunEvent::Terminate => (d, Action::Send(terminate_request(d.correlator))),
            RunEvent::Stdin(b) => (
                d,
                Action::Send(
                    Request {
                        correlator: d.correlator,
                        kind: RequestKind::Process(ProcessRequest::StandardInput(b)),
                    },
                ),
            ),
            RunEvent::Response(ResponseKind::Process(ProcessResponse::Terminated(ok))) => (
                ended,
                Action::Finish(Ok(ok)),
            ),
            RunEvent::Response(ResponseKind::Process(ProcessResponse::StandardOutput(b))) => (
                d,
                if d.has_stdout { Action::Stdout(b) } else { Action::Ignore },
            ),
            RunEvent::Response(ResponseKind::Process(ProcessResponse::StandardError(b))) => (
                d,
                if d.has_stderr { Action::Stderr(b) } else { Action::Ignore },
            ),
            RunEvent::Response(_) => (d, Action::Ignore),
            RunEvent::Closed => (ended, Action::Finish(Err(Error::Response))),
            RunEvent::Cancel => (ended, Action::Abort(Some(terminate_request(d.correlator)))),
        }
    }
}

/// A stream forwards frames until stopped; once the stop request is out and
/// no more frames arrive it ends cleanly. The peer closing first is a
/// `Response` error, stopped or not.
pub open spec fn stream_next(d: StreamDriver, e: StreamEvent) -> (StreamDriver, Action) {
    let ended = StreamDriver { done: true, ..d };
    if d.done {
        (d, Action::Ignore)
    } else {
        match e {
            StreamEvent::Stop => if d.stopping {
                (d, Action::Ignore)
            } else {
                (StreamDriver { stopping: true, ..d }, Action::Send(stop_request(d.correlator)))
            },
            StreamEvent::Response(ResponseKind::Stream(StreamResponse::Frame(b))) => (
                d,
                Action::Frame(b),
            ),
            StreamEvent::Response(_) => (d, Action::Ignore),
            StreamEvent::Drained => if d.stopping {
                (ended, Action::Finish(Ok(true)))
            } else {
                (d, Action::Ignore)
            },
            StreamEvent::Closed => (ended, Action::Finish(Err(Error::Response))),
            StreamEvent::Cancel => if d.stopping {
                (ended, Action::Abort(None))
            } else {
                (ended, Action::Abort(Some(stop_request(d.correlator))))
            },
        }
    }
}

/// The driver after `events`, and the bytes it forwarded to the
/// standard-output sink on the way, in order.
pub open spec fn run_trace(d: RunDriver, events: Seq<RunEvent>) -> (RunDriver, Seq<u8>)
    decreases events.len(),
{
    if events.len() == 0 {
        (d, Seq::empty())
    } else {
        let (d1, a) = run_next(d, events[0]);
        let (d2, rest) = run_trace(d1, events.drop_first());
        let out = match a {
            Action::Stdout(b) => b@,
            _ => Seq::empty(),
        };
        (d2, out + rest)
    }
}

/// The events that an agent's answer made of output chunks and a clean exit
/// hands to a run driver.
pub open spec fn output_then_exit(chunks: Seq<Vec<u8>>) -> Seq<RunEvent> {
    chunks.map_values(
        |b: Vec<u8>| RunEvent::Response(ResponseKind::Process(ProcessResponse::StandardOutput(b))),
    ).push(RunEvent::Response(ResponseKind::Process(ProcessResponse::Terminated(true))))
}

/// The concatenation of the chunks.
pub open spec fn joined(chunks: Seq<Vec<u8>>) -> Seq<u8>
    decreases chunks.len(),
{
    if chunks.len() == 0 {
        Seq::empty()
    } else {
        chunks[0]@ + joined(chunks.drop_first())
    }
}

/// Dropping an upload that has already completed sends nothing and changes
/// nothing.
pub proof fn lemma_upload_cancel_after_completion(d: UploadDriver)
    requires
        d.done,
    ensures
        upload_next(d, UploadEvent::Cancel) == (d, Action::Ignore),
{
}

/// Dropping a run that has already completed sends nothing and changes
/// nothing.
pub proof fn lemma_run_cancel_after_completion(d: RunDriver)
    requires
        d.done,
    ensures
        run_next(d, RunEvent::Cancel) == (d, Action::Ignore),
{
}

/// Dropping a stream that has already completed sends nothing and changes
/// nothing.
pub proof fn lemma_stream_cancel_after_completion(d: StreamDriver)
    requires
        d.done,
    ensures
        stream_next(d, StreamEvent::Cancel) == (d, Action::Ignore),
{
}

/// Losing the connection in the middle of a run resolves the run at once as
/// a `Response` error.
pub proof fn lemma_transport_loss_fails_run(d: RunDriver)
    requires
        !d.done,
    ensures
        run_next(d, RunEvent::Closed) == (
            RunDriver { done: true, ..d },
            Action::Finish(Err(Error::Response)),
        ),
{
}

/// A stream whose peer closes ends as a `Response` error, whether or not the
/// stop request was sent.
pub proof fn lemma_peer_close_fails_stream(d: StreamDriver)
    requires
        !d.done,
    ensures
        stream_next(d, StreamEvent::Closed) == (
            StreamDriver { done: true, ..d },
            Action::Finish(Err(Error::Response)),
        ),
{
}

/// Once stopped, a stream ends cleanly when no more frames arrive; before
/// the stop, quiet does not end it.
pub proof fn lemma_stopped_stream_ends_when_drained(d: StreamDriver)
    requires
        !d.done,
    ensures
        d.stopping ==> stream_next(d, StreamEvent::Drained) == (
            StreamDriver { done: true, ..d },
            Action::Finish(Ok(true)),
        ),
        !d.stopping ==> stream_next(d, StreamEvent::Drained) == (d, Action::Ignore),
{
}

/// A run with a stdout sink whose agent emits the bytes `contents`, in any
/// split into chunks, and then exits cleanly, forwards exactly `contents` to
/// the sink and completes: so bytes uploaded and read back with `cat` arrive
/// unchanged.
pub proof fn lemma_stdout_round_trip(c: Correlator, has_stderr: bool, chunks: Seq<Vec<u8>>)
    ensures
        run_trace(
            RunDriver { correlator: c, has_stdout: true, has_stderr, done: false },
            output_then_exit(chunks),
        ) == (RunDriver { correlator: c, has_stdout: true, has_stderr, done: true }, joined(chunks)),
    decreases chunks.len(),
{
    let d = RunDriver { correlator: c, has_stdout: true, has_stderr, done: false };
    let events = output_then_exit(chunks);
    if chunks.len() == 0 {
        let ended = RunDriver { done: true, ..d };
        assert(events[0] == RunEvent::Response(
            ResponseKind::Process(ProcessResponse::Terminated(true)),
        ));
        assert(events.drop_first().len() == 0);
        assert(run_trace(ended, events.drop_first()) == (ended, Seq::<u8>::empty()));
        assert(run_trace(d, events) == (ended, Seq::<u8>::empty() + Seq::<u8>::empty()));
        assert(Seq::<u8>::empty() + Seq::<u8>::empty() =~= Seq::<u8>::empty());
    } else {
        lemma_stdout_round_trip(c, has_stderr, chunks.drop_first());
        assert(events.drop_first() =~= output_then_exit(chunks.drop_first()));
        assert(events[0] == RunEvent::Response(
            ResponseKind::Process(ProcessResponse::StandardOutput(chunks[0])),
        ));
    }
}

/// The run events that hand the responses `ks` over, in order.
pub open spec fn as_events(ks: Seq<ResponseKind>) -> Seq<RunEvent> {
    ks.map_values(|k: ResponseKind| RunEvent::Response(k))
}

/// The standard-output payloads among `ks` before the first exit report,
/// concatenated.
pub open spec fn output_before_exit(ks: Seq<ResponseKind>) -> Seq<u8>
    decreases ks.len(),
{
    if ks.len() == 0 {
        Seq::empty()
    } else {
        match ks[0] {
            ResponseKind::Process(ProcessResponse::StandardOutput(b)) => b@ + output_before_exit(ks.drop_first()),
            ResponseKind::Process(ProcessResponse::Terminated(_)) => Seq::empty(),
            _ => output_before_exit(ks.drop_first()),
        }
    }
}

proof fn lemma_finished_run_forwards_nothing(d: RunDriver, events: Seq<RunEvent>)
    requires
        d.done,
    ensures
        run_trace(d, events) == (d, Seq::<u8>::empty()),
    decreases events.len(),
{
    if events.len() > 0 {
        lemma_finished_run_forwards_nothing(d, events.drop_first());
        assert(Seq::<u8>::empty() + Seq::<u8>::empty() =~= Seq::<u8>::empty());
    }
}

/// A running driver with a stdout sink that is handed responses forwards
/// exactly their standard-output payloads up to the exit report.
pub proof fn lemma_run_forwards_its_output(d: RunDriver, ks: Seq<ResponseKind>)
    requires
        !d.done,
        d.has_stdout,
    ensures
        run_trace(d, as_events(ks)).1 == output_before_exit(ks),
    decreases ks.len(),
{
    if ks.len() > 0 {
        let ev = as_events(ks);
        assert(ev.drop_first() =~= as_events(ks.drop_first()));
        assert(ev[0] == RunEvent::Response(ks[0]));
        match ks[0] {
            ResponseKind::Process(ProcessResponse::Terminated(ok)) => {
                lemma_finished_run_forwards_nothing(RunDriver { done: true, ..d }, ev.drop_first());
                assert(Seq::<u8>::empty() + Seq::<u8>::empty() =~= Seq::<u8>::empty());
            },
            ResponseKind::Process(ProcessResponse::StandardOutput(b)) => {
                lemma_run_forwards_its_output(d, ks.drop_first());
            },
            _ => {
                lemma_run_forwards_its_output(d, ks.drop_first());
                assert(Seq::<u8>::empty() + output_before_exit(ks.drop_first()) =~= output_before_exit(
                    ks.drop_first(),
                ));
            },
        }
    }
}

/// Two runs on one connection keep their output apart: the run of `c` is
/// handed the responses routed to `c`, forwards exactly the output among
/// them, and frames of any other correlator, wherever they arrive, change
/// nothing it forwards.
pub proof fn lemma_concurrent_runs_keep_output_apart(
    d: RunDriver,
    frames: Seq<Response>,
    other: Correlator,
    ks: Seq<ResponseKind>,
)
    requires
        !d.done,
        d.has_stdout,
        other != d.correlator,
    ensures
        run_trace(d, as_events(routed(frames, d.correlator))).1 == output_before_exit(
            routed(frames, d.correlator),
        ),
        run_trace(d, as_events(routed(frames + tagged(other, ks), d.correlator))).1 == run_trace(
            d,
            as_events(routed(frames, d.correlator)),
        ).1,
{
    super::mux::lemma_interleaving_is_faithful(frames, other, ks, d.correlator);
    lemma_run_forwards_its_output(d, routed(frames, d.correlator));
}

impl UploadDriver {
    /// Starts an upload: the driver and the request to send.
    pub fn start(c: Correlator, upload: Upload) -> (r: (UploadDriver, Request))
        ensures
            r.0 == (UploadDriver { correlator: c, done: false }),
            r.1 == upload_request(c, upload),
    {
        (UploadDriver { correlator: c, done: false }, Request { correlator: c, kind: RequestKind::Upload(upload) })
    }

    pub fn step(&mut self, e: UploadEvent) -> (a: Action)
        ensures
            (*final(self), a) == upload_next(*old(self), e),
    {
        if self.done {
            return Action::Ignore;
        }
        self.done = true;
        match e {
            UploadEvent::Response(k) => Action::Finish(Ok(matches!(k, ResponseKind::Success))),
            UploadEvent::Closed => Action::Finish(Err(Error::Response)),
            UploadEvent::Cancel => Action::Abort(None),
        }
    }
}

impl RunDriver {
    /// Starts a run: the driver and the request to send.
    pub fn start(c: Correlator, task: Run, has_stdout: bool, has_stderr: bool) -> (r: (
        RunDriver,
        Request,
    ))
        ensures
            r.0 == (RunDriver { correlator: c, has_stdout, has_stderr, done: false }),
            r.1 == run_request(c, task),
    {
        (
            RunDriver { correlator: c, has_stdout, has_stderr, done: false },
            Request { correlator: c, kind: RequestKind::Process(ProcessRequest::Run(task)) },
        )
    }

    pub fn step(&mut self, e: RunEvent) -> (a: Action)
        ensures
            (*final(self), a) == run_next(*old(self), e),
    {
        if self.done {
            return Action::Ignore;
        }
        let c = self.correlator;
        match e {
            RunEvent::Terminate => Action::Send(
                Request { correlator: c, kind: RequestKind::Process(ProcessRequest::Terminate) },
            ),
            RunEvent::Stdin(b) => Action::Send(
                Request { correlator: c, kind: RequestKind::Process(ProcessRequest::StandardInput(b)) },
            ),
            RunEvent::Response(ResponseKind::Process(ProcessResponse::Terminated(ok))) => {
                self.done = true;
                Action::Finish(Ok(ok))
            },
            RunEvent::Response(ResponseKind::Process(ProcessResponse::StandardOutput(b))) => {
                if self.has_stdout {
                    Action::Stdout(b)
                } else {
                    Action::Ignore
                }
            },
            RunEvent::Response(ResponseKind::Process(ProcessResponse::StandardError(b))) => {
                if self.has_stderr {
                    Action::Stderr(b)
                } else {
                    Action::Ignore
                }
            },
            RunEvent::Response(_) => Action::Ignore,
            RunEvent::Closed => {
                self.done = true;
                Action::Finish(Err(Error::Response))
            },
            RunEvent::Cancel => {
                self.done = true;
                Action::Abort(
                    Some(Request { correlator: c, kind: RequestKind::Process(ProcessRequest::Terminate) }),
                )
            },
        }
    }
}

impl StreamDriver {
    /// Starts a stream: the driver and the request to send.
    pub fn start(c: Correlator, stream: Stream) -> (r: (StreamDriver, Request))
        ensures
            r.0 == (StreamDriver { correlator: c, stopping: false, done: false }),
            r.1 == stream_request(c, stream),
    {
        (
            StreamDriver { correlator: c, stopping: false, done: false },
            Request { correlator: c, kind: RequestKind::Stream(StreamRequest::Stream(stream)) },
        )
    }

    pub fn step(&mut self, e: StreamEvent) -> (a: Action)
        ensures
            (*final(self), a) == stream_next(*old(self), e),
    {
        if self.done {
            return Action::Ignore;
        }
        let c = self.correlator;
        match e {
            StreamEvent::Stop => {
                if self.stopping {
                    Action::Ignore
                } else {
                    self.stopping = true;
                    Action::Send(Request { correlator: c, kind: RequestKind::Stream(StreamRequest::Stop) })
                }
            },
            StreamEvent::Response(ResponseKind::Stream(StreamResponse::Frame(b))) => Action::Frame(b),
            StreamEvent::Response(_) => Action::Ignore,
            StreamEvent::Drained => {
                if self.stopping {
                    self.done = true;
                    Action::Finish(Ok(true))
                } else {
                    Action::Ignore
                }
            },
            StreamEvent::Closed => {
                self.done = true;
                Action::Finish(Err(Error::Response))
            },
            StreamEvent::Cancel => {
                self.done = true;
                if self.stopping {
                    Action::Abort(None)
                } else {
                    Action::Abort(Some(Request { correlator: c, kind: RequestKind::Stream(StreamRequest::Stop) }))
                }
            },
        }
    }
}

} // verus!
