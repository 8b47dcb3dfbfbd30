//! Payloads of the agent wire protocol.
//!
//! Every request carries the correlator of the logical operation it belongs
//! to; a response may carry one, and one without is advisory only.

use vstd::prelude::*;

verus! {

/// A per-request identifier that demultiplexes responses on one connection.
pub type Correlator = u128;

/// Start `target` with `args` in `working_dir` on the agent.
#[derive(Clone, Debug, PartialEq, Eq)]
pub struct Run {
    pub target: String,
    pub working_dir: String,
    pub args: Vec<String>,
}

/// Store `contents` as `path/filename` on the agent.
#[derive(Clone, Debug, PartialEq, Eq)]
pub struct Upload {
    pub path: String,
    pub filename: String,
    pub contents: Vec<u8>,
}

/// Start a media stream of the given kind.
#[derive(Clone, Debug, PartialEq, Eq)]
pub struct Stream {
    pub kind: String,
}

#[derive(Clone, Debug, PartialEq, Eq)]
pub enum ProcessRequest {
    Run(Run),
    Terminate,
    StandardInput(Vec<u8>),
}

#[derive(Clone, Debug, PartialEq, Eq)]
pub enum StreamRequest {
    Stream(Stream),
    Stop,
}

#[derive(Clone, Debug, PartialEq, Eq)]
pub enum RequestKind {
    Upload(Upload),
    Process(ProcessRequest),
    Stream(StreamRequest),
}

#[derive(Clone, Debug, PartialEq, Eq)]
pub enum ProcessResponse {
    Terminated(bool),
    StandardOutput(Vec<u8>),
    StandardError(Vec<u8>),
}

#[derive(Clone, Debug, PartialEq, Eq)]
pub enum StreamResponse {
    Frame(Vec<u8>),
}

#[derive(Clone, Debug, PartialEq, Eq)]
pub enum ResponseKind {
    Success,
    Error(String),
    Process(ProcessResponse),
    Stream(StreamResponse),
}

/// A request frame: the correlator of its operation and its payload.
#[derive(Clone, Debug, PartialEq, Eq)]
pub struct Request {
    pub correlator: Correlator,
    pub kind: RequestKind,
}

/// A response frame; frames without a correlator are advisory.
#[derive(Clone, Debug, PartialEq, Eq)]
pub struct Response {
    pub correlator: Option<Correlator>,
    pub kind: ResponseKind,
}

} // verus!
