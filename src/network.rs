//! Discovery of robots on the local subnet.
//!
//! Addresses come from the pool. Each is probed on the radio link first,
//! because a companion computer that is going offline still answers TCP for a
//! while after its radio is there, and on the agent link second, each dial
//! bounded by a timeout. An address on which nothing answers goes back to the
//! end of the queue, to be probed again after a fixed delay; retries never
//! stop.

pub mod driver;
pub mod fernbedienung;
pub mod frame;
pub mod mux;
pub mod pool;
pub mod protocol;

use vstd::prelude::*;
use pool::{AddressPool, Queued};
use crate::arena::{Arena, Kind, Record, RobotId, has_robot};
use crate::network::pool::Holding;
use crate::robot::State;

verus! {

/// TCP port of the companion agent.
pub const AGENT_PORT: u16 = 17653;

/// Bound on a radio-link dial.
pub const RADIO_TIMEOUT_MS: u64 = 500;

/// Bound on an agent-link dial.
pub const AGENT_TIMEOUT_MS: u64 = 500;

/// Delay before an address on which nothing answered is probed again.
pub const RETRY_DELAY_MS: u64 = 1000;

/// The transport a device may answer on.
#[derive(Clone, Copy, Debug, PartialEq, Eq, Structural)]
pub enum Link {
    Radio,
    Agent,
}

/// A classified device: the transport it answered on, at its address.
#[derive(Clone, Copy, Debug, PartialEq, Eq, Structural)]
pub enum Device {
    AgentLink(u32),
    RadioLink(u32),
}

/// One dial of a probe: connect to `addr` over `link` within `timeout_ms`.
#[derive(Clone, Copy, Debug, PartialEq, Eq, Structural)]
pub struct Dial {
    pub addr: u32,
    pub link: Link,
    pub timeout_ms: u64,
}

/// A probe to run: wait `delay_ms`, then dial.
#[derive(Clone, Copy, Debug, PartialEq, Eq, Structural)]
pub struct Probe {
    pub delay_ms: u64,
    pub dial: Dial,
}

/// What follows a dial.
#[derive(Clone, Copy, Debug, PartialEq, Eq, Structural)]
pub enum Step {
    /// Dial again, on the other link.
    Dial(Dial),
    /// A device answered.
    Found(Device),
    /// Nothing answered: the address goes back to the queue.
    Silent,
}

/// The dial that follows a dial that was or was not answered.
pub open spec fn step_after(d: Dial, answered: bool) -> Step {
    match (d.link, answered) {
        (Link::Radio, true) => Step::Found(Device::RadioLink(d.addr)),
        (Link::Radio, false) => Step::Dial(
            Dial { addr: d.addr, link: Link::Agent, timeout_ms: AGENT_TIMEOUT_MS },
        ),
        (Link::Agent, true) => Step::Found(Device::AgentLink(d.addr)),
        (Link::Agent, false) => Step::Silent,
    }
}

/// Decides what follows a dial.
pub fn after_dial(d: Dial, answered: bool) -> (r: Step)
    ensures
        r == step_after(d, answered),
{
    match d.link {
        Link::Radio => if answered {
            Step::Found(Device::RadioLink(d.addr))
        } else {
            Step::Dial(Dial { addr: d.addr, link: Link::Agent, timeout_ms: AGENT_TIMEOUT_MS })
        },
        Link::Agent => if answered {
            Step::Found(Device::AgentLink(d.addr))
        } else {
            Step::Silent
        },
    }
}

/// The host name under which the agent of a Pi-Puck reports.
pub const PIPUCK_HOSTNAME: &'static str = "ToshibaLaptop";

/// The robot kind of a classified device: a radio link is a drone, an agent
/// is a Pi-Puck when it reports the Pi-Puck host name; `None` for an agent
/// that is not recognised or whose host name could not be read.
pub open spec fn kind_of(d: Device, hostname: Option<Seq<char>>) -> Option<Kind> {
    match d {
        Device::RadioLink(_) => Some(Kind::Drone),
        Device::AgentLink(_) => match hostname {
            Some(h) => if h == PIPUCK_HOSTNAME@ { Some(Kind::PiPuck) } else { None },
            None => None,
        },
    }
}

/// Classifies a device by its transport and, for an agent, the host name
/// it reports. The host name serves classification only, never identity.
pub fn associate(d: Device, hostname: Option<&String>) -> (r: Option<Kind>)
    ensures
        r == kind_of(d, match hostname { Some(h) => Some(h@), None => None }),
{
    match d {
        Device::RadioLink(_) => Some(Kind::Drone),
        Device::AgentLink(_) => match hostname {
            Some(h) => if *h == PIPUCK_HOSTNAME.to_owned() {
                Some(Kind::PiPuck)
            } else {
                None
            },
            None => None,
        },
    }
}

/// The queue after one probe of its front address on which nothing answered.
pub open spec fn silent_round(q: Seq<Queued>) -> Seq<Queued> {
    q.drop_first().push(Queued { addr: q[0].addr, delay_ms: RETRY_DELAY_MS })
}

/// The queue after `k` such rounds.
pub open spec fn silent_rounds(q: Seq<Queued>, k: nat) -> Seq<Queued>
    decreases k,
{
    if k == 0 || q.len() == 0 {
        q
    } else {
        silent_rounds(silent_round(q), (k - 1) as nat)
    }
}

/// The addresses probed in those `k` rounds, in order.
pub open spec fn probed_in_rounds(q: Seq<Queued>, k: nat) -> Seq<u32>
    decreases k,
{
    if k == 0 || q.len() == 0 {
        Seq::empty()
    } else {
        seq![q[0].addr] + probed_in_rounds(silent_round(q), (k - 1) as nat)
    }
}

/// An address on which nothing answers is probed once per round and re-queued
/// after exactly the retry delay; after `k` rounds it has been probed `k`
/// times, and nothing else has changed.
pub proof fn lemma_silent_address_is_reprobed(addr: u32, delay_ms: u64, k: nat)
    ensures
        probed_in_rounds(seq![Queued { addr, delay_ms }], k) == Seq::new(k, |i: int| addr),
        k > 0 ==> silent_rounds(seq![Queued { addr, delay_ms }], k) == seq![
            Queued { addr, delay_ms: RETRY_DELAY_MS },
        ],
    decreases k,
{
    let q = seq![Queued { addr, delay_ms }];
    let r = seq![Queued { addr, delay_ms: RETRY_DELAY_MS }];
    assert(silent_round(q) =~= r);
    assert(silent_round(r) =~= r);
    if k > 0 {
        lemma_silent_address_is_reprobed(addr, RETRY_DELAY_MS, (k - 1) as nat);
        assert(silent_rounds(q, k) == silent_rounds(r, (k - 1) as nat));
        assert(probed_in_rounds(q, k) =~= Seq::new(k, |i: int| addr));
    } else {
        assert(probed_in_rounds(q, k) =~= Seq::new(k, |i: int| addr));
    }
}

/// A probe of the front address on which nothing answered, taken through
/// `next` and then `conclude` with no device, is one `silent_round`: the
/// queue goes round, the probes and the robots are as they were, and the
/// address is probed once more.
pub proof fn lemma_silent_probe_is_one_round(d0: &Discovery, d1: &Discovery, d2: &Discovery)
    requires
        d0.wf(),
        d0.pool.queued().len() > 0,
        d1.pool.queued() == d0.pool.queued().drop_first(),
        d1.pool.probing() == d0.pool.probing().push(d0.pool.queued()[0].addr),
        d1.pool.held() == d0.pool.held(),
        d1.probed() == d0.probed().push(d0.pool.queued()[0].addr),
        d2.pool.queued() == d1.pool.queued().push(
            Queued { addr: d0.pool.queued()[0].addr, delay_ms: RETRY_DELAY_MS },
        ),
        exists|i: int| 0 <= i < d1.pool.probing().len()
            && d1.pool.probing()[i] == d0.pool.queued()[0].addr
            && d2.pool.probing() == d1.pool.probing().remove(i),
        d2.pool.held() == d1.pool.held(),
        d2.probed() == d1.probed(),
    ensures
        d2.pool.queued() == silent_round(d0.pool.queued()),
        d2.pool.probing() == d0.pool.probing(),
        d2.pool.held() == d0.pool.held(),
        d2.probed() == d0.probed().push(d0.pool.queued()[0].addr),
{
    let a = d0.pool.queued()[0].addr;
    let q = pool::queued_addrs(d0.pool.queued());
    let p0 = d0.pool.probing();
    pool::lemma_no_address_twice(&d0.pool);
    let all = d0.pool.all_addrs();
    assert(all[0] == a);
    assert forall|j: int| 0 <= j < p0.len() implies p0[j] != a by {
        assert(all[q.len() + j] == p0[j]);
    }
    let i = choose|i: int| 0 <= i < d1.pool.probing().len()
        && d1.pool.probing()[i] == a
        && d2.pool.probing() == d1.pool.probing().remove(i);
    assert(i == p0.len());
    assert(d1.pool.probing().remove(i) =~= p0);
}

/// The discovery engine: the consumer side of the address pool, and the log
/// of the addresses it has probed.
pub struct Discovery {
    pub pool: AddressPool,
    pub probed: Ghost<Seq<u32>>,
}

impl Discovery {
    /// The addresses probed so far, in order.
    pub open spec fn probed(&self) -> Seq<u32> {
        self.probed@
    }

    pub open spec fn wf(&self) -> bool {
        self.pool.wf()
    }

    pub fn new(pool: AddressPool) -> (r: Discovery)
        requires
            pool.wf(),
        ensures
            r.wf(),
            r.pool == pool,
            r.probed().len() == 0,
    {
        Discovery { pool, probed: Ghost(Seq::empty()) }
    }

    /// Starts a probe of the address at the front of the queue: the radio
    /// link is dialed first, after the delay the address was queued with.
    pub fn next(&mut self) -> (r: Option<Probe>)
        requires
            old(self).wf(),
        ensures
            final(self).wf(),
            final(self).pool.hosts() == old(self).pool.hosts(),
            final(self).pool.held() == old(self).pool.held(),
            old(self).pool.queued().len() == 0 ==> r is None && final(self).pool.queued()
                == old(self).pool.queued() && final(self).pool.probing() == old(self).pool.probing()
                && final(self).probed() == old(self).probed(),
            old(self).pool.queued().len() > 0 ==> {
                let e = old(self).pool.queued()[0];
                &&& r == Some(
                    Probe {
                        delay_ms: e.delay_ms,
                        dial: Dial { addr: e.addr, link: Link::Radio, timeout_ms: RADIO_TIMEOUT_MS },
                    },
                )
                &&& final(self).pool.queued() == old(self).pool.queued().drop_first()
                &&& final(self).pool.probing() == old(self).pool.probing().push(e.addr)
                &&& final(self).probed() == old(self).probed().push(e.addr)
            },
    {
        match self.pool.next_probe() {
            None => None,
            Some(e) => {
                self.probed = Ghost(self.probed@.push(e.addr));
                Some(
                    Probe {
                        delay_ms: e.delay_ms,
                        dial: Dial { addr: e.addr, link: Link::Radio, timeout_ms: RADIO_TIMEOUT_MS },
                    },
                )
            },
        }
    }

    /// Ends the probe of `addr`: a device that answered is handed on, and
    /// its address stays with the probe until the arena takes it in; an
    /// address on which nothing answered, or whose device was not
    /// recognised, is re-queued after the retry delay.
    pub fn conclude(&mut self, addr: u32, found: Option<Device>) -> (r: Option<Device>)
        requires
            old(self).wf(),
        ensures
            final(self).wf(),
            final(self).probed() == old(self).probed(),
            final(self).pool.hosts() == old(self).pool.hosts(),
            final(self).pool.held() == old(self).pool.held(),
            r == found,
            found is Some ==> final(self).pool == old(self).pool,
            found is None && !old(self).pool.probing().contains(addr) ==> final(self).pool.queued()
                == old(self).pool.queued() && final(self).pool.probing() == old(self).pool.probing(),
            found is None && old(self).pool.probing().contains(addr) ==> {
                &&& final(self).pool.queued() == old(self).pool.queued().push(
                    Queued { addr, delay_ms: RETRY_DELAY_MS },
                )
                &&& exists|i: int| 0 <= i < old(self).pool.probing().len()
                    && old(self).pool.probing()[i] == addr
                    && final(self).pool.probing() == old(self).pool.probing().remove(i)
            },
    {
        match found {
            Some(d) => Some(d),
            None => {
                self.pool.requeue(addr, RETRY_DELAY_MS);
                None
            },
        }
    }

    /// Settles the probe of `addr`, on which device `d` answered and, for an
    /// agent, reported `hostname`: a recognised device becomes robot `id`,
    /// holding the address; otherwise (unrecognised, the id taken, or the
    /// arena shutting down) the address goes back to the queue after the
    /// retry delay. Either way it leaves the probe.
    pub fn settle(&mut self, arena: &mut Arena, addr: u32, d: Device, hostname: Option<&String>, id: RobotId) -> (r: Option<Kind>)
        requires
            old(self).wf(),
            old(arena).wf(),
            old(arena).consistent(&old(self).pool),
            old(self).pool.probing().contains(addr),
        ensures
            final(self).wf(),
            final(arena).wf(),
            final(arena).consistent(&final(self).pool),
            final(self).probed() == old(self).probed(),
            final(self).pool.hosts() == old(self).pool.hosts(),
            final(arena).experiment() == old(arena).experiment(),
            final(arena).shutting_down() == old(arena).shutting_down(),
            exists|i: int| 0 <= i < old(self).pool.probing().len()
                && old(self).pool.probing()[i] == addr
                && final(self).pool.probing() == old(self).pool.probing().remove(i),
            r is Some <==> kind_of(d, match hostname { Some(h) => Some(h@), None => None }) is Some
                && !old(arena).shutting_down() && !has_robot(old(arena).fleet(), id),
            r matches Some(k) ==> {
                &&& r == kind_of(d, match hostname { Some(h) => Some(h@), None => None })
                &&& final(arena).fleet() == old(arena).fleet().push(
                    Record { id, kind: k, addr, state: State::Standby, required: false },
                )
                &&& final(self).pool.held() == old(self).pool.held().push(Holding { robot: id, addr })
                &&& final(self).pool.queued() == old(self).pool.queued()
            },
            r is None ==> {
                &&& final(arena).fleet() == old(arena).fleet()
                &&& final(self).pool.held() == old(self).pool.held()
                &&& final(self).pool.queued() == old(self).pool.queued().push(
                    Queued { addr, delay_ms: RETRY_DELAY_MS },
                )
            },
    {
        if let Some(k) = associate(d, hostname) {
            if arena.add_robot(&mut self.pool, id, k, addr, false) {
                return Some(k);
            }
        }
        self.pool.requeue(addr, RETRY_DELAY_MS);
        None
    }
}

} // verus!
