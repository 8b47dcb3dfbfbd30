use mns_supervisor::arena::{Arena, Kind};
use mns_supervisor::network::pool::{AddressPool, Queued};
use mns_supervisor::network::{
    associate,
    after_dial, Device, Dial, Discovery, Link, Probe, Step, AGENT_TIMEOUT_MS, RADIO_TIMEOUT_MS,
    RETRY_DELAY_MS,
};

fn ip(a: u8, b: u8, c: u8, d: u8) -> u32 {
    u32::from_be_bytes([a, b, c, d])
}

fn accounted(pool: &AddressPool) -> usize {
    pool.queue_snapshot().len() + pool.probing_snapshot().len() + pool.held_snapshot().len()
}

#[test]
fn discovery_happy_path() {
    let addr = ip(10, 0, 0, 5);
    let mut discovery = Discovery::new(AddressPool::new(vec![addr]));
    let probe = discovery.next().expect("an address is queued");
    assert_eq!(
        probe,
        Probe { delay_ms: 0, dial: Dial { addr, link: Link::Radio, timeout_ms: RADIO_TIMEOUT_MS } }
    );
    // no radio answers; the agent on port 17653 does
    let agent = match after_dial(probe.dial, false) {
        Step::Dial(d) => d,
        other => panic!("expected an agent dial, got {:?}", other),
    };
    assert_eq!(agent, Dial { addr, link: Link::Agent, timeout_ms: AGENT_TIMEOUT_MS });
    let found = match after_dial(agent, true) {
        Step::Found(d) => d,
        other => panic!("expected a device, got {:?}", other),
    };
    assert_eq!(found, Device::AgentLink(addr));
    assert_eq!(discovery.conclude(addr, Some(found)), Some(Device::AgentLink(addr)));
    let mut arena = Arena::new();
    assert!(arena.add_robot(&mut discovery.pool, 7, Kind::PiPuck, addr, false));
    assert_eq!(arena.len(), 1);
    assert!(discovery.pool.queue_snapshot().is_empty());
    assert!(discovery.pool.probing_snapshot().is_empty());
    assert_eq!(discovery.next(), None);
}

#[test]
fn retry_on_silence() {
    let addr = ip(10, 0, 0, 6);
    let mut discovery = Discovery::new(AddressPool::new(vec![addr]));
    let first = discovery.next().unwrap();
    assert_eq!(first.delay_ms, 0);
    assert_eq!(after_dial(first.dial, false), Step::Dial(Dial { addr, link: Link::Agent, timeout_ms: 500 }));
    assert_eq!(after_dial(Dial { addr, link: Link::Agent, timeout_ms: 500 }, false), Step::Silent);
    assert_eq!(discovery.conclude(addr, None), None);
    assert_eq!(discovery.pool.queue_snapshot(), vec![Queued { addr, delay_ms: RETRY_DELAY_MS }]);
    let second = discovery.next().unwrap();
    assert_eq!(second.dial.addr, addr);
    assert!(second.delay_ms >= 1000);
}

#[test]
fn silent_address_probed_once_per_cycle() {
    let addr = ip(10, 0, 0, 9);
    let mut discovery = Discovery::new(AddressPool::new(vec![addr]));
    let mut probes = 0;
    for _ in 0..5 {
        let p = discovery.next().unwrap();
        assert_eq!(p.dial.addr, addr);
        probes += 1;
        discovery.conclude(addr, None);
        assert_eq!(discovery.pool.queue_snapshot(), vec![Queued { addr, delay_ms: RETRY_DELAY_MS }]);
        assert!(discovery.pool.probing_snapshot().is_empty());
        assert!(discovery.pool.held_snapshot().is_empty());
    }
    assert_eq!(probes, 5);
}

#[test]
fn address_recycling() {
    let addr = ip(192, 168, 1, 20);
    let mut discovery = Discovery::new(AddressPool::new(vec![addr, ip(192, 168, 1, 21)]));
    let probe = discovery.next().unwrap();
    discovery.conclude(probe.dial.addr, Some(Device::RadioLink(addr)));
    let mut arena = Arena::new();
    assert!(arena.add_robot(&mut discovery.pool, 42, Kind::Drone, addr, false));
    assert_eq!(arena.robot_exited(&mut discovery.pool, 42), Some(addr));
    assert_eq!(arena.len(), 0);
    assert_eq!(discovery.pool.queue_snapshot().last(), Some(&Queued { addr, delay_ms: 0 }));
    // released once only
    assert_eq!(arena.robot_exited(&mut discovery.pool, 42), None);
    assert_eq!(discovery.pool.queue_snapshot().len(), 2);
}

#[test]
fn pool_accounts_for_every_host() {
    let hosts = vec![ip(10, 0, 0, 1), ip(10, 0, 0, 2), ip(10, 0, 0, 3)];
    let mut pool = AddressPool::new(hosts);
    assert_eq!(accounted(&pool), 3);
    let a = pool.next_probe().unwrap().addr;
    assert_eq!(accounted(&pool), 3);
    let b = pool.next_probe().unwrap().addr;
    assert!(pool.hold(a, 1));
    assert_eq!(accounted(&pool), 3);
    assert!(pool.requeue(b, RETRY_DELAY_MS));
    assert_eq!(accounted(&pool), 3);
    assert_eq!(pool.release(1), Some(a));
    assert_eq!(accounted(&pool), 3);
    // an address that is not being probed cannot be held or re-queued
    assert!(!pool.hold(a, 2));
    assert!(!pool.requeue(a, 0));
    assert_eq!(accounted(&pool), 3);
}

#[test]
fn subnet_hosts_of_a_slash_24() {
    let pool = AddressPool::from_subnet(ip(192, 168, 1, 0), 24);
    let queue = pool.queue_snapshot();
    assert_eq!(queue.len(), 254);
    assert_eq!(queue[0].addr, ip(192, 168, 1, 1));
    assert_eq!(queue[253].addr, ip(192, 168, 1, 254));
}

#[test]
fn subnet_hosts_of_small_networks() {
    let pool = AddressPool::from_subnet(ip(10, 0, 0, 7), 30);
    let addrs: Vec<u32> = pool.queue_snapshot().iter().map(|q| q.addr).collect();
    assert_eq!(addrs, vec![ip(10, 0, 0, 5), ip(10, 0, 0, 6)]);
    let pool = AddressPool::from_subnet(ip(10, 0, 0, 1), 31);
    let addrs: Vec<u32> = pool.queue_snapshot().iter().map(|q| q.addr).collect();
    assert_eq!(addrs, vec![ip(10, 0, 0, 0), ip(10, 0, 0, 1)]);
    let pool = AddressPool::from_subnet(ip(10, 0, 0, 1), 32);
    assert_eq!(pool.queue_snapshot().len(), 1);
}

#[test]
fn one_record_per_robot() {
    let a = ip(10, 1, 0, 1);
    let b = ip(10, 1, 0, 2);
    let mut pool = AddressPool::new(vec![a, b]);
    pool.next_probe();
    pool.next_probe();
    let mut arena = Arena::new();
    assert!(arena.add_robot(&mut pool, 5, Kind::PiPuck, a, false));
    // the same id is refused, and so is an address that is not being probed
    assert!(!arena.add_robot(&mut pool, 5, Kind::PiPuck, b, false));
    assert!(!arena.add_robot(&mut pool, 6, Kind::PiPuck, a, false));
    assert_eq!(arena.len(), 1);
    assert_eq!(pool.held_snapshot().len(), 1);
    assert!(arena.add_robot(&mut pool, 6, Kind::Drone, b, true));
    assert_eq!(arena.records().iter().filter(|r| r.id == 5).count(), 1);
    assert_eq!(arena.robot_exited(&mut pool, 5), Some(a));
    assert!(arena.get(5).is_none());
    assert!(arena.get(6).is_some());
}

#[test]
fn devices_are_classified_by_transport_and_hostname() {
    assert_eq!(associate(Device::RadioLink(1), None), Some(Kind::Drone));
    assert_eq!(associate(Device::AgentLink(1), Some(&"ToshibaLaptop".to_owned())), Some(Kind::PiPuck));
    assert_eq!(associate(Device::AgentLink(1), Some(&"unknown".to_owned())), None);
    assert_eq!(associate(Device::AgentLink(1), None), None);
}

#[test]
fn settled_address_is_held_or_requeued() {
    let a = ip(10, 2, 0, 1);
    let b = ip(10, 2, 0, 2);
    let mut discovery = Discovery::new(AddressPool::new(vec![a, b]));
    let mut arena = Arena::new();
    discovery.next();
    discovery.next();
    let pipuck = "ToshibaLaptop".to_owned();
    assert_eq!(discovery.settle(&mut arena, a, Device::AgentLink(a), Some(&pipuck), 1), Some(Kind::PiPuck));
    assert_eq!(discovery.pool.held_snapshot().len(), 1);
    let other = "laptop".to_owned();
    assert_eq!(discovery.settle(&mut arena, b, Device::AgentLink(b), Some(&other), 2), None);
    assert_eq!(discovery.pool.queue_snapshot(), vec![Queued { addr: b, delay_ms: RETRY_DELAY_MS }]);
    assert!(discovery.pool.probing_snapshot().is_empty());
    assert_eq!(arena.len(), 1);
}

#[test]
fn settle_refuses_a_taken_id() {
    let a = ip(10, 3, 0, 1);
    let b = ip(10, 3, 0, 2);
    let mut discovery = Discovery::new(AddressPool::new(vec![a, b]));
    let mut arena = Arena::new();
    discovery.next();
    discovery.next();
    assert_eq!(discovery.settle(&mut arena, a, Device::RadioLink(a), None, 9), Some(Kind::Drone));
    assert_eq!(discovery.settle(&mut arena, b, Device::RadioLink(b), None, 9), None);
    assert_eq!(discovery.pool.queue_snapshot().last(), Some(&Queued { addr: b, delay_ms: RETRY_DELAY_MS }));
}
