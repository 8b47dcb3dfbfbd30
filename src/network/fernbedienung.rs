//! Client of the companion agent: the handle that multiplexes many logical
//! operations over one connection.
//!
//! The handle owns the correlator table of its connection. Starting an
//! operation registers a fresh correlator and yields the operation's driver
//! together with the request to send; received frames are delivered to the
//! sinks of their correlators; an operation's entry is retired once it has
//! completed. When the connection is lost every outstanding operation fails
//! and the handle refuses new ones.

use vstd::prelude::*;
use super::driver::{RunDriver, StreamDriver, UploadDriver, run_request, stream_request, upload_request};
use super::mux::{Delivery, Mux};
use super::protocol::{Correlator, Request, Response, ResponseKind, Run, Stream, Upload};
use crate::text::{decimal, decimal_i32, decimal_text, decode_utf8, parse_i32, chars_of, trim, trimmed, utf8_text};
use vstd::string::StringExecFns;

verus! {

/// Failures of operations on an agent.
#[derive(Clone, Copy, Debug, PartialEq, Eq, Structural)]
pub enum Error {
    /// The connection was refused or dropped, or a frame could not be decoded.
    Transport,
    /// The request could not be enqueued.
    Request,
    /// The peer closed without a terminal frame.
    Response,
    /// The remote output was not well formed for the operation.
    Decode,
    /// The remote process reported a failed exit.
    Execute,
}

/// The handle of one agent connection.
pub struct Device {
    pub addr: u32,
    pub table: Mux,
    /// The connection has been lost; no operation can start any more.
    pub closed: bool,
}

impl Device {
    pub open spec fn wf(&self) -> bool {
        &&& self.table.wf()
        &&& self.closed ==> self.table@.dom() == Set::<Correlator>::empty()
    }

    /// The handle of a freshly connected agent at `addr`.
    pub fn new(addr: u32) -> (r: Device)
        ensures
            r.wf(),
            r.addr == addr,
            !r.closed,
            r.table@ == Map::<Correlator, (Seq<ResponseKind>, bool)>::empty(),
    {
        let table = Mux::new();
        Device { addr, table, closed: false }
    }

    /// Registers `c` for a new operation: refused with `Request` when the
    /// connection is lost or `c` is already live.
    fn open(&mut self, c: Correlator) -> (r: Result<(), Error>)
        requires
            old(self).wf(),
        ensures
            final(self).wf(),
            final(self).addr == old(self).addr,
            final(self).closed == old(self).closed,
            r is Ok <==> !old(self).closed && !old(self).table@.contains_key(c),
            r is Ok ==> final(self).table@ == old(self).table@.insert(
                c,
                (Seq::<ResponseKind>::empty(), false),
            ),
            r is Err ==> r == Err::<(), Error>(Error::Request) && final(self).table@
                == old(self).table@,
    {
        if self.closed {
            return Err(Error::Request);
        }
        if self.table.register(c) {
            Ok(())
        } else {
            Err(Error::Request)
        }
    }

    /// Starts an upload of `contents` to `path/filename` under correlator `c`.
    pub fn upload(&mut self, c: Correlator, path: String, filename: String, contents: Vec<u8>) -> (r:
        Result<(UploadDriver, Request), Error>)
        requires
            old(self).wf(),
        ensures
            final(self).wf(),
            final(self).addr == old(self).addr,
            final(self).closed == old(self).closed,
            r is Ok <==> !old(self).closed && !old(self).table@.contains_key(c),
            r matches Ok((d, q)) ==> {
                &&& d == (UploadDriver { correlator: c, done: false })
                &&& q == upload_request(c, Upload { path, filename, contents })
                &&& final(self).table@ == old(self).table@.insert(
                    c,
                    (Seq::<ResponseKind>::empty(), false),
                )
            },
            r is Err ==> r == Err::<(UploadDriver, Request), Error>(Error::Request) && final(self).table@ == old(self).table@,
    {
        match self.open(c) {
            Err(e) => Err(e),
            Ok(()) => Ok(UploadDriver::start(c, Upload { path, filename, contents })),
        }
    }

    /// Starts a run of `task` under correlator `c`, with or without sinks for
    /// its standard output and standard error.
    pub fn run(&mut self, c: Correlator, task: Run, has_stdout: bool, has_stderr: bool) -> (r:
        Result<(RunDriver, Request), Error>)
        requires
            old(self).wf(),
        ensures
            final(self).wf(),
            final(self).addr == old(self).addr,
            final(self).closed == old(self).closed,
            r is Ok <==> !old(self).closed && !old(self).table@.contains_key(c),
            r matches Ok((d, q)) ==> {
                &&& d == (RunDriver { correlator: c, has_stdout, has_stderr, done: false })
                &&& q == run_request(c, task)
                &&& final(self).table@ == old(self).table@.insert(
                    c,
                    (Seq::<ResponseKind>::empty(), false),
                )
            },
            r is Err ==> r == Err::<(RunDriver, Request), Error>(Error::Request) && final(self).table@ == old(self).table@,
    {
        match self.open(c) {
            Err(e) => Err(e),
            Ok(()) => Ok(RunDriver::start(c, task, has_stdout, has_stderr)),
        }
    }

    /// Starts a media stream under correlator `c`.
    pub fn stream(&mut self, c: Correlator, stream: Stream) -> (r: Result<
        (StreamDriver, Request),
        Error,
    >)
        requires
            old(self).wf(),
        ensures
            final(self).wf(),
            final(self).addr == old(self).addr,
            final(self).closed == old(self).closed,
            r is Ok <==> !old(self).closed && !old(self).table@.contains_key(c),
            r matches Ok((d, q)) ==> {
                &&& d == (StreamDriver { correlator: c, stopping: false, done: false })
                &&& q == stream_request(c, stream)
                &&& final(self).table@ == old(self).table@.insert(
                    c,
                    (Seq::<ResponseKind>::empty(), false),
                )
            },
            r is Err ==> r == Err::<(StreamDriver, Request), Error>(Error::Request) && final(self).table@ == old(self).table@,
    {
        match self.open(c) {
            Err(e) => Err(e),
            Ok(()) => Ok(StreamDriver::start(c, stream)),
        }
    }

    /// Delivers a received frame to the sink of its correlator.
    pub fn receive(&mut self, frame: Response) -> (r: Delivery)
        requires
            old(self).wf(),
        ensures
            final(self).wf(),
            final(self).addr == old(self).addr,
            final(self).closed == old(self).closed,
            match frame.correlator {
                None => r == Delivery::Advisory && final(self).table@ == old(self).table@,
                Some(c) => if old(self).table@.contains_key(c) {
                    &&& r == Delivery::Queued
                    &&& final(self).table@ == old(self).table@.insert(
                        c,
                        (old(self).table@[c].0.push(frame.kind), old(self).table@[c].1),
                    )
                } else {
                    r == Delivery::Unknown && final(self).table@ == old(self).table@
                },
            },
    {
        let r = self.table.deliver(frame);
        proof {
            if self.closed {
                assert(self.table@.dom() =~= old(self).table@.dom());
            }
        }
        r
    }

    /// Drains the responses that arrived for `c`.
    pub fn responses(&mut self, c: Correlator) -> (r: Vec<ResponseKind>)
        requires
            old(self).wf(),
        ensures
            final(self).wf(),
            final(self).addr == old(self).addr,
            final(self).closed == old(self).closed,
            old(self).table@.contains_key(c) ==> {
                &&& r@ == old(self).table@[c].0
                &&& final(self).table@ == old(self).table@.insert(
                    c,
                    (Seq::<ResponseKind>::empty(), old(self).table@[c].1),
                )
            },
            !old(self).table@.contains_key(c) ==> r@.len() == 0 && final(self).table@ == old(self).table@,
    {
        let r = self.table.take_pending(c);
        proof {
            if self.closed {
                assert(self.table@.dom() =~= old(self).table@.dom());
            }
        }
        r
    }

    /// The operation of `c` has completed or was cancelled: its entry is
    /// marked and then removed. Returns whether `c` was live.
    pub fn finish(&mut self, c: Correlator) -> (r: bool)
        requires
            old(self).wf(),
        ensures
            final(self).wf(),
            final(self).addr == old(self).addr,
            final(self).closed == old(self).closed,
            r == old(self).table@.contains_key(c),
            final(self).table@ == old(self).table@.remove(c),
    {
        let r = self.table.complete(c);
        if r {
            self.table.retire(c);
        }
        proof {
            assert(self.table@ =~= old(self).table@.remove(c));
        }
        r
    }

    /// The connection was lost: every outstanding operation fails, the table
    /// is emptied, and the handle refuses new operations. Returns the
    /// correlators of the operations that failed.
    pub fn lose_connection(&mut self) -> (r: Vec<Correlator>)
        requires
            old(self).wf(),
        ensures
            final(self).wf(),
            final(self).addr == old(self).addr,
            final(self).closed,
            final(self).table@ == Map::<Correlator, (Seq<ResponseKind>, bool)>::empty(),
            r@.no_duplicates(),
            forall|c: Correlator| #[trigger] r@.contains(c) <==> old(self).table@.contains_key(c),
    {
        let r = self.table.fail_all();
        self.closed = true;
        proof {
            assert(self.table@.dom() =~= Set::empty());
        }
        r
    }
}

/// The pattern of the signal strength in the output of `iw dev wlan0 link`.
pub const SIGNAL_PATTERN: &'static str = "signal:\\s+(-\\d+)\\s+dBm+";

/// The first capture group of the first match of the regular expression
/// `pattern` in `text`; `None` where there is no match or the pattern is
/// invalid.
pub uninterp spec fn first_capture(pattern: Seq<char>, text: Seq<char>) -> Option<Seq<char>>;

/// Relies on regex's `Regex::new` and `Regex::captures`: the text of group 1
/// of the first match of `pattern` in `text`.
#[verifier::external_body]
fn capture(pattern: &str, text: &str) -> (r: Option<String>)
    ensures
        r is Some <==> first_capture(pattern@, text@) is Some,
        r matches Some(f) ==> first_capture(pattern@, text@) == Some(f@),
{
    let re = regex::Regex::new(pattern).ok()?;
    re.captures(text)?.get(1).map(|m| m.as_str().to_owned())
}

/// The texts of strings.
pub open spec fn texts(v: Seq<String>) -> Seq<Seq<char>> {
    v.map_values(|s: String| s@)
}

/// A task run in `/tmp`.
pub open spec fn is_task(r: Run, target: Seq<char>, args: Seq<Seq<char>>) -> bool {
    &&& r.target@ == target
    &&& r.working_dir@ == "/tmp"@
    &&& texts(r.args@) == args
}

/// The text that a task printed, trimmed: `Execute` where it failed and
/// `Decode` where its output is not UTF-8.
pub open spec fn text_output(exit_ok: bool, stdout: Seq<u8>) -> Result<Seq<char>, Error> {
    if !exit_ok {
        Err(Error::Execute)
    } else {
        match utf8_text(stdout) {
            None => Err(Error::Decode),
            Some(t) => Ok(trimmed(t)),
        }
    }
}

/// The signal strength, in dBm, that `iw` printed.
pub open spec fn link_strength_output(exit_ok: bool, stdout: Seq<u8>) -> Result<i32, Error> {
    if !exit_ok {
        Err(Error::Execute)
    } else {
        match utf8_text(stdout) {
            None => Err(Error::Decode),
            Some(t) => match first_capture(SIGNAL_PATTERN@, t) {
                None => Err(Error::Decode),
                Some(f) => match decimal_i32(f) {
                    None => Err(Error::Decode),
                    Some(v) => Ok(v),
                },
            },
        }
    }
}

impl Device {
    fn task(target: &str, args: Vec<String>) -> (r: Run)
        ensures
            r.target@ == target@,
            r.working_dir@ == "/tmp"@,
            r.args == args,
    {
        Run { target: target.to_owned(), working_dir: "/tmp".to_owned(), args }
    }

    /// The task that prints the agent's host name.
    pub fn hostname() -> (r: Run)
        ensures
            is_task(r, "hostname"@, seq![]),
    {
        let r = Device::task("hostname", Vec::new());
        assert(texts(r.args@) =~= seq![]);
        r
    }

    /// The task that creates a temporary directory and prints its path.
    pub fn create_temp_dir() -> (r: Run)
        ensures
            is_task(r, "mktemp"@, seq!["-d"@]),
    {
        let r = Device::task("mktemp", vec!["-d".to_owned()]);
        assert(texts(r.args@) =~= seq!["-d"@]);
        r
    }

    /// The task that halts the robot.
    pub fn halt() -> (r: Run)
        ensures
            is_task(r, "echo"@, seq!["halt"@]),
    {
        let r = Device::task("echo", vec!["halt".to_owned()]);
        assert(texts(r.args@) =~= seq!["halt"@]);
        r
    }

    /// The task that reboots the robot.
    pub fn reboot() -> (r: Run)
        ensures
            is_task(r, "echo"@, seq!["reboot"@]),
    {
        let r = Device::task("echo", vec!["reboot".to_owned()]);
        assert(texts(r.args@) =~= seq!["reboot"@]);
        r
    }

    /// The task that prints the wireless link status.
    pub fn link_strength() -> (r: Run)
        ensures
            is_task(r, "iw"@, seq!["dev"@, "wlan0"@, "link"@]),
    {
        let r = Device::task("iw", vec!["dev".to_owned(), "wlan0".to_owned(), "link".to_owned()]);
        assert(texts(r.args@) =~= seq!["dev"@, "wlan0"@, "link"@]);
        r
    }

    /// The task that captures one JPEG frame from a camera to stdout.
    pub fn fswebcam(device: &str, input: usize, palette: &str, width: usize, height: usize) -> (r: Run)
        ensures
            is_task(
                r,
                "fswebcam"@,
                seq![
                    "--device"@, device@, "--input"@, decimal(input as nat), "--palette"@, palette@,
                    "--resolution"@, decimal(width as nat) + "x"@ + decimal(height as nat),
                    "--jpeg"@, "50"@, "--no-banner"@, "--save"@, "-"@,
                ],
            ),
    {
        let mut resolution = decimal_text(width as u64);
        resolution.append("x");
        let h = decimal_text(height as u64);
        resolution.append(h.as_str());
        let args = vec![
            "--device".to_owned(), device.to_owned(), "--input".to_owned(), decimal_text(input as u64),
            "--palette".to_owned(), palette.to_owned(), "--resolution".to_owned(), resolution,
            "--jpeg".to_owned(), "50".to_owned(), "--no-banner".to_owned(), "--save".to_owned(),
            "-".to_owned(),
        ];
        let r = Device::task("fswebcam", args);
        assert(texts(r.args@) =~= seq![
            "--device"@, device@, "--input"@, decimal(input as nat), "--palette"@, palette@,
            "--resolution"@, decimal(width as nat) + "x"@ + decimal(height as nat),
            "--jpeg"@, "50"@, "--no-banner"@, "--save"@, "-"@,
        ]);
        r
    }

    /// The trimmed text that a task printed, as `hostname` and
    /// `create_temp_dir` return it.
    pub fn decode_text(exit_ok: bool, stdout: Vec<u8>) -> (r: Result<String, Error>)
        ensures
            match text_output(exit_ok, stdout@) {
                Ok(t) => (r matches Ok(s) && s@ == t),
                Err(e) => r == Err::<String, Error>(e),
            },
    {
        if !exit_ok {
            return Err(Error::Execute);
        }
        match decode_utf8(stdout) {
            None => Err(Error::Decode),
            Some(t) => Ok(trim(t.as_str())),
        }
    }

    /// The signal strength that the `link_strength` task printed, in dBm.
    pub fn decode_link_strength(exit_ok: bool, stdout: Vec<u8>) -> (r: Result<i32, Error>)
        ensures
            r == link_strength_output(exit_ok, stdout@),
    {
        if !exit_ok {
            return Err(Error::Execute);
        }
        match decode_utf8(stdout) {
            None => Err(Error::Decode),
            Some(t) => match capture(SIGNAL_PATTERN, t.as_str()) {
                None => Err(Error::Decode),
                Some(f) => match parse_i32(&chars_of(f.as_str())) {
                    None => Err(Error::Decode),
                    Some(v) => Ok(v),
                },
            },
        }
    }

    /// The image that the `fswebcam` task printed: `Execute` where it failed.
    pub fn decode_image(exit_ok: bool, stdout: Vec<u8>) -> (r: Result<Vec<u8>, Error>)
        ensures
            exit_ok ==> (r matches Ok(b) && b@ == stdout@),
            !exit_ok ==> r == Err::<Vec<u8>, Error>(Error::Execute),
    {
        if exit_ok {
            Ok(stdout)
        } else {
            Err(Error::Execute)
        }
    }
}

} // verus!
