//! The arena: the fleet of admitted robots and the experiment lifecycle.
//!
//! Robots are admitted on addresses that discovery is probing; the arena
//! keeps exactly one record per admitted robot, and the pool holds the
//! robot's address for as long as the record exists. When a robot's task
//! ends its record goes and its address returns to the pool, once.

use vstd::prelude::*;
use crate::network::pool::{AddressPool, Holding, Queued};
use crate::network::protocol::Correlator;
use crate::robot::{Command, Error, State, transition};

verus! {

/// Identity of an admitted robot, minted at admission.
pub type RobotId = Correlator;

#[derive(Clone, Copy, Debug, PartialEq, Eq, Structural)]
pub enum Kind {
    Drone,
    PiPuck,
}

/// What the arena knows of one robot.
#[derive(Clone, Copy, Debug, PartialEq, Eq, Structural)]
pub struct Record {
    pub id: RobotId,
    pub kind: Kind,
    pub addr: u32,
    pub state: State,
    /// The robot takes part in the experiment.
    pub required: bool,
}

#[derive(Clone, Copy, Debug, PartialEq, Eq, Structural)]
pub enum Phase {
    Idle,
    Preparing,
    Running,
    Stopping,
}

#[derive(Clone, Copy, Debug, PartialEq, Eq, Structural)]
pub enum ExperimentAction {
    Start,
    Stop,
    Emergency,
}

pub struct Arena {
    fleet: Vec<Record>,
    phase: Phase,
    closed: bool,
}

/// Whether some record of `fleet` has id `id`.
pub open spec fn has_robot(fleet: Seq<Record>, id: RobotId) -> bool {
    exists|i: int| 0 <= i < fleet.len() && (#[trigger] fleet[i]).id == id
}

/// Every robot that takes part in the experiment is `Ready`.
pub open spec fn all_required_ready(fleet: Seq<Record>) -> bool {
    forall|i: int| 0 <= i < fleet.len() && (#[trigger] fleet[i]).required ==> fleet[i].state
        == State::Ready
}

/// A record after an emergency: a running robot is being stopped.
pub open spec fn halted(r: Record) -> Record {
    if r.state == State::Running {
        Record { state: State::Stopping, ..r }
    } else {
        r
    }
}

/// The phase after an operator action, or `None` where it is not admissible.
pub open spec fn experiment_next(p: Phase, a: ExperimentAction, fleet: Seq<Record>) -> Option<Phase> {
    match a {
        ExperimentAction::Start => if p == Phase::Idle && all_required_ready(fleet) {
            Some(Phase::Preparing)
        } else {
            None
        },
        ExperimentAction::Stop => if p == Phase::Preparing || p == Phase::Running {
            Some(Phase::Stopping)
        } else {
            None
        },
        ExperimentAction::Emergency => Some(Phase::Idle),
    }
}

/// An admitted robot has exactly one record, and the pool holds that
/// record's address on the robot's behalf.
pub proof fn lemma_one_record_per_robot(a: &Arena, pool: &AddressPool, i: int, j: int)
    requires
        a.wf(),
        a.consistent(pool),
        0 <= i < a.fleet().len(),
        0 <= j < a.fleet().len(),
        a.fleet()[i].id == a.fleet()[j].id,
    ensures
        i == j,
        pool.held()[i] == (Holding { robot: a.fleet()[i].id, addr: a.fleet()[i].addr }),
{
}

impl Arena {
    /// The fleet's records.
    pub closed spec fn fleet(&self) -> Seq<Record> {
        self.fleet@
    }

    /// The experiment's phase.
    pub closed spec fn experiment(&self) -> Phase {
        self.phase
    }

    /// The process is shutting down: no robot is taken in any more.
    pub closed spec fn shutting_down(&self) -> bool {
        self.closed
    }

    /// One record per robot id.
    pub open spec fn wf(&self) -> bool {
        forall|i: int, j: int|
            0 <= i < self.fleet().len() && 0 <= j < self.fleet().len() && i != j
                ==> self.fleet()[i].id != self.fleet()[j].id
    }

    /// The pool holds, for each record and in the same order, the record's
    /// address on behalf of its robot, and nothing else.
    pub open spec fn consistent(&self, pool: &AddressPool) -> bool {
        &&& self.fleet().len() == pool.held().len()
        &&& forall|i: int| 0 <= i < self.fleet().len() ==> pool.held()[i] == (Holding {
            robot: (#[trigger] self.fleet()[i]).id,
            addr: self.fleet()[i].addr,
        })
    }

    pub fn new() -> (r: Arena)
        ensures
            r.wf(),
            r.fleet().len() == 0,
            r.experiment() == Phase::Idle,
            !r.shutting_down(),
    {
        Arena { fleet: Vec::new(), phase: Phase::Idle, closed: false }
    }

    /// Stops taking in robots, for good.
    pub fn shut_down(&mut self)
        ensures
            final(self).shutting_down(),
            final(self).fleet() == old(self).fleet(),
            final(self).experiment() == old(self).experiment(),
    {
        self.closed = true;
    }

    pub fn phase(&self) -> (r: Phase)
        ensures
            r == self.experiment(),
    {
        self.phase
    }

    /// The number of robots in the fleet.
    pub fn len(&self) -> (r: usize)
        ensures
            r == self.fleet().len(),
    {
        self.fleet.len()
    }

    fn find(&self, id: RobotId) -> (r: Option<usize>)
        ensures
            match r {
                Some(i) => i < self.fleet().len() && self.fleet()[i as int].id == id,
                None => !has_robot(self.fleet(), id),
            },
    {
        let mut i: usize = 0;
        while i < self.fleet.len()
            invariant
                i <= self.fleet@.len(),
                forall|j: int| 0 <= j < i ==> (#[trigger] self.fleet@[j]).id != id,
            decreases self.fleet@.len() - i,
        {
            if self.fleet[i].id == id {
                return Some(i);
            }
            i = i + 1;
        }
        None
    }

    /// The record of `id`, if the fleet has one.
    pub fn get(&self, id: RobotId) -> (r: Option<Record>)
        ensures
            match r {
                Some(rec) => rec.id == id && self.fleet().contains(rec),
                None => !has_robot(self.fleet(), id),
            },
    {
        match self.find(id) {
            Some(i) => Some(self.fleet[i]),
            None => None,
        }
    }

    /// The records, in admission order.
    pub fn records(&self) -> (r: Vec<Record>)
        ensures
            r@ == self.fleet(),
    {
        self.fleet.clone()
    }

    /// Takes in a robot found on `addr`, which discovery is probing. Refused,
    /// with nothing changed, when the arena is shutting down, `id` is taken,
    /// or `addr` is not being probed.
    pub fn add_robot(&mut self, pool: &mut AddressPool, id: RobotId, kind: Kind, addr: u32, required: bool) -> (r:
        bool)
        requires
            old(self).wf(),
            old(pool).wf(),
            old(self).consistent(old(pool)),
        ensures
            final(self).wf(),
            final(pool).wf(),
            final(self).consistent(final(pool)),
            final(self).experiment() == old(self).experiment(),
            final(pool).hosts() == old(pool).hosts(),
            final(pool).queued() == old(pool).queued(),
            final(self).shutting_down() == old(self).shutting_down(),
            r == (!old(self).shutting_down() && !has_robot(old(self).fleet(), id) && old(
                pool,
            ).probing().contains(addr)),
            r ==> final(self).fleet() == old(self).fleet().push(
                Record { id, kind, addr, state: State::Standby, required },
            ),
            r ==> final(pool).held() == old(pool).held().push(Holding { robot: id, addr })
                && exists|i: int| 0 <= i < old(pool).probing().len()
                    && old(pool).probing()[i] == addr
                    && final(pool).probing() == old(pool).probing().remove(i),
            !r ==> final(self).fleet() == old(self).fleet() && final(pool).probing() == old(
                pool,
            ).probing() && final(pool).held() == old(pool).held(),
    {
        if self.closed || self.find(id).is_some() {
            return false;
        }
        if !pool.hold(addr, id) {
            return false;
        }
        self.fleet.push(Record { id, kind, addr, state: State::Standby, required });
        true
    }

    /// The task of robot `id` has ended: its record goes, its address goes
    /// back to the pool, and a running experiment that needed it is stopped.
    pub fn robot_exited(&mut self, pool: &mut AddressPool, id: RobotId) -> (r: Option<u32>)
        requires
            old(self).wf(),
            old(pool).wf(),
            old(self).consistent(old(pool)),
        ensures
            final(self).shutting_down() == old(self).shutting_down(),
            final(self).wf(),
            final(pool).wf(),
            final(self).consistent(final(pool)),
            final(pool).hosts() == old(pool).hosts(),
            final(pool).probing() == old(pool).probing(),
            !has_robot(final(self).fleet(), id),
            r is None <==> !has_robot(old(self).fleet(), id),
            r is None ==> final(self).fleet() == old(self).fleet() && final(pool).queued() == old(
                pool,
            ).queued() && final(pool).held() == old(pool).held() && final(self).experiment()
                == old(self).experiment(),
            r matches Some(a) ==> exists|i: int|
                0 <= i < old(self).fleet().len() && old(self).fleet()[i].id == id && old(
                    self,
                ).fleet()[i].addr == a && final(self).fleet() == old(self).fleet().remove(i)
                    && final(self).experiment() == (if old(self).experiment() == Phase::Running
                    && old(self).fleet()[i].required {
                    Phase::Stopping
                } else {
                    old(self).experiment()
                }),
            r matches Some(a) ==> final(pool).queued() == old(pool).queued().push(
                Queued { addr: a, delay_ms: 0 },
            ),
    {
        match self.find(id) {
            None => None,
            Some(i) => {
                let rec = self.fleet.remove(i);
                let released = pool.release(id);
                proof {
                    let j = choose|j: int|
                        0 <= j < old(pool).held().len() && old(pool).held()[j] == (Holding {
                            robot: id,
                            addr: released->0,
                        }) && pool.held() == old(pool).held().remove(j);
                    assert(old(self).fleet()[j].id == id);
                    assert(j == i);
                    assert forall|k: int| 0 <= k < self.fleet().len() implies pool.held()[k] == (
                    Holding { robot: (#[trigger] self.fleet()[k]).id, addr: self.fleet()[k].addr })
                        by {
                        if k < i {
                            assert(self.fleet()[k] == old(self).fleet()[k]);
                        } else {
                            assert(self.fleet()[k] == old(self).fleet()[k + 1]);
                        }
                    }
                    assert forall|k: int| 0 <= k < self.fleet().len() implies (
                    #[trigger] self.fleet()[k]).id != id by {
                        if k < i {
                            assert(self.fleet()[k] == old(self).fleet()[k]);
                        } else {
                            assert(self.fleet()[k] == old(self).fleet()[k + 1]);
                        }
                    }
                }
                if rec.required {
                    if let Phase::Running = self.phase {
                        self.phase = Phase::Stopping;
                    }
                }
                released
            },
        }
    }

    /// Routes `c` to robot `id`: `NotFound` when the fleet has no such robot,
    /// `BadRequest`, with the state unchanged, when its state does not accept
    /// `c`; otherwise its next state.
    pub fn command(&mut self, id: RobotId, c: Command) -> (r: Result<State, Error>)
        requires
            old(self).wf(),
        ensures
            final(self).shutting_down() == old(self).shutting_down(),
            final(self).wf(),
            final(self).experiment() == old(self).experiment(),
            final(self).fleet().len() == old(self).fleet().len(),
            !has_robot(old(self).fleet(), id) ==> r == Err::<State, Error>(Error::NotFound)
                && final(self).fleet() == old(self).fleet(),
            has_robot(old(self).fleet(), id) ==> exists|i: int|
                0 <= i < old(self).fleet().len() && old(self).fleet()[i].id == id && match transition(
                    old(self).fleet()[i].state,
                    c,
                ) {
                    Some(n) => r == Ok::<State, Error>(n) && final(self).fleet() == old(
                        self,
                    ).fleet().update(i, Record { state: n, ..old(self).fleet()[i] }),
                    None => r == Err::<State, Error>(Error::BadRequest) && final(self).fleet()
                        == old(self).fleet(),
                },
    {
        match self.find(id) {
            None => Err(Error::NotFound),
            Some(i) => {
                let rec = self.fleet[i];
                match rec.state.apply(c) {
                    Err(e) => Err(e),
                    Ok(n) => {
                        self.fleet.set(i, Record { state: n, ..rec });
                        assert forall|a: int, b: int|
                            0 <= a < self.fleet().len() && 0 <= b < self.fleet().len() && a != b
                                implies self.fleet()[a].id != self.fleet()[b].id by {
                            assert(old(self).fleet()[a].id != old(self).fleet()[b].id);
                        }
                        Ok(n)
                    },
                }
            },
        }
    }

    fn all_ready(&self) -> (r: bool)
        ensures
            r == all_required_ready(self.fleet()),
    {
        let mut i: usize = 0;
        while i < self.fleet.len()
            invariant
                i <= self.fleet@.len(),
                forall|j: int| 0 <= j < i && (#[trigger] self.fleet@[j]).required ==> self.fleet@[j].state
                    == State::Ready,
            decreases self.fleet@.len() - i,
        {
            if self.fleet[i].required {
                if let State::Ready = self.fleet[i].state {
                } else {
                    return false;
                }
            }
            i = i + 1;
        }
        true
    }

    /// An operator action on the experiment. `Start` is admissible only from
    /// `Idle` and when every participant is `Ready`; `Stop` only while the
    /// experiment is preparing or running; `Emergency` always: every running
    /// robot is being stopped and the experiment returns to `Idle`.
    pub fn experiment_action(&mut self, a: ExperimentAction) -> (r: Result<Phase, Error>)
        requires
            old(self).wf(),
        ensures
            final(self).shutting_down() == old(self).shutting_down(),
            final(self).wf(),
            match experiment_next(old(self).experiment(), a, old(self).fleet()) {
                Some(p) => r == Ok::<Phase, Error>(p) && final(self).experiment() == p,
                None => r == Err::<Phase, Error>(Error::BadRequest) && final(self).experiment()
                    == old(self).experiment(),
            },
            a == ExperimentAction::Emergency ==> final(self).fleet() == old(self).fleet().map_values(
                |r: Record| halted(r),
            ),
            a != ExperimentAction::Emergency ==> final(self).fleet() == old(self).fleet(),
    {
        match a {
            ExperimentAction::Start => {
                if let Phase::Idle = self.phase {
                    if self.all_ready() {
                        self.phase = Phase::Preparing;
                        return Ok(Phase::Preparing);
                    }
                }
                Err(Error::BadRequest)
            },
            ExperimentAction::Stop => match self.phase {
                Phase::Preparing | Phase::Running => {
                    self.phase = Phase::Stopping;
                    Ok(Phase::Stopping)
                },
                _ => Err(Error::BadRequest),
            },
            ExperimentAction::Emergency => {
                let mut i: usize = 0;
                while i < self.fleet.len()
                    invariant
                        i <= self.fleet@.len(),
                        self.closed == old(self).closed,
                        self.fleet@.len() == old(self).fleet@.len(),
                        forall|j: int| 0 <= j < i ==> self.fleet@[j] == halted(old(self).fleet@[j]),
                        forall|j: int| i <= j < self.fleet@.len() ==> self.fleet@[j] == old(self).fleet@[j],
                    decreases self.fleet@.len() - i,
                {
                    let rec = self.fleet[i];
                    if let State::Running = rec.state {
                        self.fleet.set(i, Record { state: State::Stopping, ..rec });
                    }
                    i = i + 1;
                }
                self.phase = Phase::Idle;
                assert(self.fleet() =~= old(self).fleet().map_values(|r: Record| halted(r)));
                Ok(Phase::Idle)
            },
        }
    }

    /// Every participant has its software started: a preparing experiment
    /// runs. Returns whether it was preparing.
    pub fn mark_running(&mut self) -> (r: bool)
        ensures
            final(self).shutting_down() == old(self).shutting_down(),
            final(self).fleet() == old(self).fleet(),
            r == (old(self).experiment() == Phase::Preparing),
            final(self).experiment() == if r { Phase::Running } else { old(self).experiment() },
    {
        if let Phase::Preparing = self.phase {
            self.phase = Phase::Running;
            true
        } else {
            false
        }
    }

    /// Every participant has stopped: a stopping experiment is idle again.
    /// Returns whether it was stopping.
    pub fn mark_stopped(&mut self) -> (r: bool)
        ensures
            final(self).shutting_down() == old(self).shutting_down(),
            final(self).fleet() == old(self).fleet(),
            r == (old(self).experiment() == Phase::Stopping),
            final(self).experiment() == if r { Phase::Idle } else { old(self).experiment() },
    {
        if let Phase::Stopping = self.phase {
            self.phase = Phase::Idle;
            true
        } else {
            false
        }
    }
}

} // verus!
