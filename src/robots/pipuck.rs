//! The Pi-Puck ground robot.

use vstd::prelude::*;
use vstd::string::StringExecFns;
use super::ssh;
use crate::network::fernbedienung;
use crate::network::fernbedienung::texts;
use crate::network::protocol::Run;
use crate::robot::{Controllable, Error as RobotError};

verus! {

#[derive(Clone, Copy, Debug, PartialEq, Eq, Structural)]
pub enum Error {
    SshError(ssh::Error),
}

/// What an operator can ask of a Pi-Puck.
#[derive(Clone, Copy, Debug, PartialEq, Eq, Structural)]
pub enum Action {
    RpiShutdown,
    RpiReboot,
    Identify,
}

pub struct PiPuck {
    pub uuid: u128,
    pub ssh: ssh::Device,
    /// The agent connection, once one is established.
    pub fernbedienung: Option<fernbedienung::Device>,
}

/// The shell command that carries out `a`, if it has one.
pub open spec fn command_of(a: Action) -> Option<Seq<char>> {
    match a {
        Action::RpiShutdown => Some("shutdown 0; exit"@),
        Action::RpiReboot => Some("reboot; exit"@),
        Action::Identify => None,
    }
}

impl PiPuck {
    /// A Pi-Puck reached over `ssh`, under a freshly minted identifier.
    pub fn new(ssh: ssh::Device) -> (r: PiPuck)
        ensures
            r.ssh == ssh,
            r.fernbedienung is None,
    {
        PiPuck { uuid: crate::ids::new_id(), ssh, fernbedienung: None }
    }

    /// The actions that the robot offers.
    pub fn actions(&self) -> (r: Vec<Action>)
        ensures
            r@ == seq![Action::RpiShutdown, Action::RpiReboot, Action::Identify],
    {
        vec![Action::RpiShutdown, Action::RpiReboot, Action::Identify]
    }

    /// The shell command that carries out `action`; identification has none
    /// yet.
    pub fn execute(&mut self, action: &Action) -> (r: Option<String>)
        ensures
            *final(self) == *old(self),
            match command_of(*action) {
                Some(c) => (r matches Some(s) && s@ == c),
                None => r is None,
            },
    {
        match action {
            Action::RpiShutdown => Some("shutdown 0; exit".to_owned()),
            Action::RpiReboot => Some("reboot; exit".to_owned()),
            Action::Identify => None,
        }
    }
}

impl Controllable for PiPuck {
    open spec fn has_agent(&self) -> bool {
        self.fernbedienung is Some
    }

    fn fernbedienung(&mut self) -> (r: Option<&mut fernbedienung::Device>) {
        match &mut self.fernbedienung {
            Some(d) => Some(d),
            None => None,
        }
    }

    fn start(&mut self, working_dir: &str, config_file: &str) -> (r: Result<Run, RobotError>) {
        if self.fernbedienung.is_none() {
            return Err(RobotError::NetworkUnavailable);
        }
        let argument = "-c ".to_owned().concat(config_file);
        let r = Run { target: "argos3".to_owned(), working_dir: working_dir.to_owned(), args: vec![argument] };
        assert(texts(r.args@) =~= seq!["-c "@ + config_file@]);
        Ok(r)
    }
}

} // verus!
