//! The per-robot state machine.
//!
//! `Standby -> Ready -> Running -> Stopping -> Standby`, with `Faulted` as an
//! absorbing state for terminal errors. Each state admits a fixed set of
//! commands; any other command is rejected with `BadRequest` and leaves the
//! state as it was.

use vstd::prelude::*;
use crate::network::fernbedienung;
use crate::network::fernbedienung::texts;
use crate::network::protocol::Run;

verus! {

/// Failures of commands addressed to robots.
#[derive(Clone, Copy, Debug, PartialEq, Eq, Structural)]
pub enum Error {
    /// The robot has no agent connection to carry the command.
    NetworkUnavailable,
    /// The command is not admissible in the robot's current state.
    BadRequest,
    /// No robot has that id.
    NotFound,
    /// The agent transport failed.
    NetworkError(fernbedienung::Error),
}

#[derive(Clone, Copy, Debug, PartialEq, Eq, Structural)]
pub enum State {
    /// Only meta-commands are accepted.
    Standby,
    /// Control software has been uploaded and validated.
    Ready,
    /// The controller process runs on the robot.
    Running,
    /// Waiting for the controller's terminal response.
    Stopping,
    /// A terminal error happened; the task exits on the next command.
    Faulted,
}

#[derive(Clone, Copy, Debug, PartialEq, Eq, Structural)]
pub enum Command {
    Identify,
    Reboot,
    Halt,
    /// A status query.
    Status,
    /// Control software was uploaded and validated.
    Install,
    /// Start the controller.
    Start,
    /// Stop the controller gracefully.
    Stop,
    /// The controller process reported its end.
    Finished,
    /// Kill a controller that is being stopped.
    ForceKill,
    /// A transport error ended the robot's connection.
    Fault,
}

/// Whether `c` is a meta-command.
pub open spec fn is_meta(c: Command) -> bool {
    c is Identify || c is Reboot || c is Halt || c is Status
}

/// The state that `c` leads to from `s`, or `None` where `s` rejects `c`.
pub open spec fn transition(s: State, c: Command) -> Option<State> {
    match (s, c) {
        (State::Faulted, _) => None,
        (_, Command::Fault) => Some(State::Faulted),
        (State::Standby, Command::Install) => Some(State::Ready),
        (State::Ready, Command::Install) => Some(State::Ready),
        (State::Ready, Command::Start) => Some(State::Running),
        (State::Running, Command::Stop) => Some(State::Stopping),
        (State::Running, Command::Finished) => Some(State::Standby),
        (State::Stopping, Command::Finished) => Some(State::Standby),
        (State::Stopping, Command::ForceKill) => Some(State::Standby),
        (State::Standby, c) => if is_meta(c) { Some(State::Standby) } else { None },
        (State::Ready, c) => if is_meta(c) { Some(State::Ready) } else { None },
        (State::Running, Command::Status) => Some(State::Running),
        _ => None,
    }
}

impl State {
    /// Applies `c`: the next state, or `BadRequest` where `c` is not
    /// admissible.
    pub fn apply(self, c: Command) -> (r: Result<State, Error>)
        ensures
            match transition(self, c) {
                Some(n) => r == Ok::<State, Error>(n),
                None => r == Err::<State, Error>(Error::BadRequest),
            },
    {
        let meta = match c {
            Command::Identify | Command::Reboot | Command::Halt | Command::Status => true,
            _ => false,
        };
        match (self, c) {
            (State::Faulted, _) => Err(Error::BadRequest),
            (_, Command::Fault) => Ok(State::Faulted),
            (State::Standby, Command::Install) => Ok(State::Ready),
            (State::Ready, Command::Install) => Ok(State::Ready),
            (State::Ready, Command::Start) => Ok(State::Running),
            (State::Running, Command::Stop) => Ok(State::Stopping),
            (State::Running, Command::Finished) => Ok(State::Standby),
            (State::Stopping, Command::Finished) => Ok(State::Standby),
            (State::Stopping, Command::ForceKill) => Ok(State::Standby),
            (State::Standby, _) => if meta { Ok(State::Standby) } else { Err(Error::BadRequest) },
            (State::Ready, _) => if meta { Ok(State::Ready) } else { Err(Error::BadRequest) },
            (State::Running, Command::Status) => Ok(State::Running),
            _ => Err(Error::BadRequest),
        }
    }

    /// Whether `c` is admissible in this state.
    pub fn admits(self, c: Command) -> (r: bool)
        ensures
            r == transition(self, c) is Some,
    {
        self.apply(c).is_ok()
    }
}

/// A robot that may be reached through an agent.
pub trait Controllable {
    /// Whether the robot has an agent connection.
    spec fn has_agent(&self) -> bool;

    /// The agent handle of the robot, if it has one.
    fn fernbedienung(&mut self) -> (r: Option<&mut fernbedienung::Device>)
        ensures
            r is Some == old(self).has_agent(),
    ;

    /// The task that starts the experiment software in `working_dir` with the
    /// configuration `config_file`; `NetworkUnavailable` when the robot has no
    /// agent.
    fn start(&mut self, working_dir: &str, config_file: &str) -> (r: Result<Run, Error>)
        ensures
            !old(self).has_agent() ==> r == Err::<Run, Error>(Error::NetworkUnavailable),
            old(self).has_agent() ==> (r matches Ok(t) && t.target@ == "argos3"@ && t.working_dir@
                == working_dir@ && texts(t.args@) == seq!["-c "@ + config_file@]),
    ;
}

} // verus!
