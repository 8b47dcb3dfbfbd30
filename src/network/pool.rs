//! The pool of subnet addresses.
//!
//! Every host address of the subnet is at any moment in exactly one place:
//! queued for a probe, being probed, or held by one live robot. Discovery
//! takes addresses from the front of the queue and puts silent ones back at
//! the end; a robot's address returns to the queue when its task ends.

use vstd::prelude::*;
use vstd::arithmetic::power2::pow2;
use super::protocol::Correlator;

verus! {

broadcast use vstd::seq_lib::group_to_multiset_ensures, vstd::seq_lib::lemma_multiset_commutative;

/// A queued address, and how long to wait before probing it.
#[derive(Clone, Copy, Debug, PartialEq, Eq, Structural)]
pub struct Queued {
    pub addr: u32,
    pub delay_ms: u64,
}

/// An address held by a live robot.
#[derive(Clone, Copy, Debug, PartialEq, Eq, Structural)]
pub struct Holding {
    pub robot: Correlator,
    pub addr: u32,
}

pub struct AddressPool {
    queue: Vec<Queued>,
    probing: Vec<u32>,
    held: Vec<Holding>,
    hosts: Ghost<Seq<u32>>,
}

/// The host addresses of the IPv4 network `addr/prefix`, in increasing
/// order: all but the network and broadcast addresses, except on /31 and /32
/// networks, where every address is a host.
pub open spec fn subnet_hosts(addr: u32, prefix: u8) -> Seq<u32> {
    let size = pow2((32 - prefix) as nat) as int;
    let network = addr as int - (addr as int) % size;
    let first = if prefix < 31 { network + 1 } else { network };
    let last = if prefix < 31 { network + size - 2 } else { network + size - 1 };
    Seq::new((last - first + 1) as nat, |i: int| (first + i) as u32)
}

/// Relies on ipnet's `Ipv4Net::new` and `Ipv4Net::hosts`: the network of
/// `addr` with the given prefix length, and its host addresses in order.
#[verifier::external_body]
fn hosts_of(addr: u32, prefix: u8) -> (r: Vec<u32>)
    requires
        prefix <= 32,
    ensures
        r@ == subnet_hosts(addr, prefix),
{
    match ipnet::Ipv4Net::new(addr.into(), prefix) {
        Ok(net) => net.hosts().map(|a| u32::from(a)).collect(),
        Err(_) => Vec::new(),
    }
}

pub open spec fn queued_addrs(q: Seq<Queued>) -> Seq<u32> {
    q.map_values(|e: Queued| e.addr)
}

pub open spec fn held_addrs(h: Seq<Holding>) -> Seq<u32> {
    h.map_values(|e: Holding| e.addr)
}

/// Every address the pool accounts for is in exactly one place: the queued,
/// probed and held addresses together number as many as the subnet's hosts.
pub proof fn lemma_pool_accounts_for_every_host(p: &AddressPool)
    requires
        p.wf(),
    ensures
        p.queued().len() + p.probing().len() + p.held().len() == p.hosts().len(),
{
    assert(p.all_addrs().to_multiset().len() == p.hosts().to_multiset().len());
}

/// No address is in two places, nor twice in one.
pub proof fn lemma_no_address_twice(p: &AddressPool)
    requires
        p.wf(),
    ensures
        p.all_addrs().no_duplicates(),
{
    p.hosts().lemma_multiset_has_no_duplicates();
    p.all_addrs().lemma_multiset_has_no_duplicates_conv();
}

/// The hosts of a subnet lie within the 32-bit address space, and so are
/// distinct.
proof fn lemma_subnet_in_range(addr: u32, prefix: u8)
    requires
        prefix <= 32,
    ensures
        subnet_hosts(addr, prefix).no_duplicates(),
{
    let k = (32 - prefix) as nat;
    let size = pow2(k) as int;
    let m = pow2(prefix as nat) as int;
    vstd::arithmetic::power2::lemma_pow2_adds(k, prefix as nat);
    vstd::arithmetic::power2::lemma2_to64();
    vstd::arithmetic::power2::lemma_pow2_pos(k);
    vstd::arithmetic::power2::lemma_pow2_pos(prefix as nat);
    assert(size * m == 0x1_0000_0000);
    let q = addr as int / size;
    vstd::arithmetic::div_mod::lemma_fundamental_div_mod(addr as int, size);
    vstd::arithmetic::div_mod::lemma_mod_bound(addr as int, size);
    assert(q >= 0) by {
        vstd::arithmetic::div_mod::lemma_div_pos_is_pos(addr as int, size);
    }
    let network = addr as int - (addr as int) % size;
    assert(network == size * q);
    assert(size * q < size * m);
    assert(q < m) by (nonlinear_arith)
        requires
            size > 0,
            size * q < size * m,
    ;
    assert(size * (q + 1) <= size * m) by (nonlinear_arith)
        requires
            size > 0,
            q + 1 <= m,
    ;
    assert(network + size <= 0x1_0000_0000) by (nonlinear_arith)
        requires
            network == size * q,
            size * (q + 1) <= 0x1_0000_0000,
    ;
    let s = subnet_hosts(addr, prefix);
    assert forall|i: int, j: int| 0 <= i < s.len() && 0 <= j < s.len() && i != j implies s[i]
        != s[j] by {
        if prefix < 31 {
            assert(size >= 4) by {
                if k > 2 {
                    vstd::arithmetic::power2::lemma_pow2_strictly_increases(2, k);
                }
            }
        }
    }
}

impl AddressPool {
    /// The queue, front first.
    pub closed spec fn queued(&self) -> Seq<Queued> {
        self.queue@
    }

    /// The addresses being probed.
    pub closed spec fn probing(&self) -> Seq<u32> {
        self.probing@
    }

    /// The addresses held by live robots.
    pub closed spec fn held(&self) -> Seq<Holding> {
        self.held@
    }

    /// The addresses the pool accounts for.
    pub closed spec fn hosts(&self) -> Seq<u32> {
        self.hosts@
    }

    /// Every address that the pool holds anywhere.
    pub open spec fn all_addrs(&self) -> Seq<u32> {
        queued_addrs(self.queued()) + self.probing() + held_addrs(self.held())
    }

    /// Each host is in exactly one place, and nothing else is anywhere.
    pub open spec fn wf(&self) -> bool {
        &&& self.hosts().no_duplicates()
        &&& self.all_addrs().to_multiset() == self.hosts().to_multiset()
    }

    /// A pool with every one of `hosts` queued, without delay, in order.
    pub fn new(hosts: Vec<u32>) -> (r: AddressPool)
        requires
            hosts@.no_duplicates(),
        ensures
            r.wf(),
            r.hosts() == hosts@,
            queued_addrs(r.queued()) == hosts@,
            forall|i: int| 0 <= i < r.queued().len() ==> (#[trigger] r.queued()[i]).delay_ms == 0,
            r.probing().len() == 0,
            r.held().len() == 0,
    {
        let mut queue: Vec<Queued> = Vec::new();
        let mut i: usize = 0;
        while i < hosts.len()
            invariant
                i <= hosts@.len(),
                queued_addrs(queue@) =~= hosts@.subrange(0, i as int),
                forall|j: int| 0 <= j < queue@.len() ==> (#[trigger] queue@[j]).delay_ms == 0,
            decreases hosts@.len() - i,
        {
            let ghost before = queue@;
            assert(queued_addrs(before).len() == i);
            queue.push(Queued { addr: hosts[i], delay_ms: 0 });
            assert forall|j: int| 0 <= j <= i implies #[trigger] queued_addrs(queue@)[j]
                == hosts@[j] by {
                if j < i {
                    assert(queue@[j] == before[j]);
                    assert(queued_addrs(before)[j] == hosts@.subrange(0, i as int)[j]);
                }
            }
            i = i + 1;
            assert(queued_addrs(queue@) =~= hosts@.subrange(0, i as int));
        }
        let r = AddressPool { queue, probing: Vec::new(), held: Vec::new(), hosts: Ghost(hosts@) };
        assert(hosts@.subrange(0, hosts@.len() as int) =~= hosts@);
        assert(r.all_addrs() =~= hosts@);
        r
    }

    /// A pool over the host addresses of the subnet `addr/prefix`.
    pub fn from_subnet(addr: u32, prefix: u8) -> (r: AddressPool)
        requires
            prefix <= 32,
        ensures
            r.wf(),
            r.hosts() == subnet_hosts(addr, prefix),
            queued_addrs(r.queued()) == subnet_hosts(addr, prefix),
            r.probing().len() == 0,
            r.held().len() == 0,
    {
        let hosts = hosts_of(addr, prefix);
        proof {
            lemma_subnet_in_range(addr, prefix);
        }
        AddressPool::new(hosts)
    }

    /// Takes the address at the front of the queue for a probe.
    pub fn next_probe(&mut self) -> (r: Option<Queued>)
        requires
            old(self).wf(),
        ensures
            final(self).wf(),
            final(self).hosts() == old(self).hosts(),
            final(self).held() == old(self).held(),
            old(self).queued().len() == 0 ==> r is None && final(self).queued() == old(self).queued()
                && final(self).probing() == old(self).probing(),
            old(self).queued().len() > 0 ==> {
                &&& r == Some(old(self).queued()[0])
                &&& final(self).queued() == old(self).queued().drop_first()
                &&& final(self).probing() == old(self).probing().push(old(self).queued()[0].addr)
            },
    {
        if self.queue.len() == 0 {
            return None;
        }
        let ghost q0 = self.queue@;
        let ghost p0 = self.probing@;
        let e = self.queue.remove(0);
        self.probing.push(e.addr);
        proof {
            assert(queued_addrs(q0) =~= seq![e.addr] + queued_addrs(self.queue@));
            assert(self.probing@ =~= p0 + seq![e.addr]);
            assert(self.all_addrs().to_multiset() =~= old(self).all_addrs().to_multiset());
        }
        Some(e)
    }

    fn find_probing(&self, addr: u32) -> (r: Option<usize>)
        ensures
            match r {
                Some(i) => i < self.probing().len() && self.probing()[i as int] == addr,
                None => !self.probing().contains(addr),
            },
    {
        let mut i: usize = 0;
        while i < self.probing.len()
            invariant
                i <= self.probing@.len(),
                forall|j: int| 0 <= j < i ==> self.probing@[j] != addr,
            decreases self.probing@.len() - i,
        {
            if self.probing[i] == addr {
                return Some(i);
            }
            i = i + 1;
        }
        None
    }

    fn find_held(&self, robot: Correlator) -> (r: Option<usize>)
        ensures
            match r {
                Some(i) => i < self.held().len() && self.held()[i as int].robot == robot,
                None => forall|j: int| 0 <= j < self.held().len() ==> (#[trigger] self.held()[j]).robot
                    != robot,
            },
    {
        let mut i: usize = 0;
        while i < self.held.len()
            invariant
                i <= self.held@.len(),
                forall|j: int| 0 <= j < i ==> (#[trigger] self.held@[j]).robot != robot,
            decreases self.held@.len() - i,
        {
            if self.held[i].robot == robot {
                return Some(i);
            }
            i = i + 1;
        }
        None
    }

    /// Puts an address that is being probed back at the end of the queue, to
    /// be probed again after `delay_ms`.
    pub fn requeue(&mut self, addr: u32, delay_ms: u64) -> (r: bool)
        requires
            old(self).wf(),
        ensures
            final(self).wf(),
            final(self).hosts() == old(self).hosts(),
            final(self).held() == old(self).held(),
            r == old(self).probing().contains(addr),
            r ==> final(self).queued() == old(self).queued().push(Queued { addr, delay_ms })
                && exists|i: int| 0 <= i < old(self).probing().len()
                    && old(self).probing()[i] == addr
                    && final(self).probing() == old(self).probing().remove(i),
            !r ==> final(self).queued() == old(self).queued() && final(self).probing()
                == old(self).probing(),
    {
        match self.find_probing(addr) {
            None => false,
            Some(i) => {
                let ghost q0 = self.queue@;
                self.probing.remove(i);
                self.queue.push(Queued { addr, delay_ms });
                proof {
                    assert(queued_addrs(self.queue@) =~= queued_addrs(q0).push(addr));
                    assert(self.all_addrs().to_multiset() =~= old(self).all_addrs().to_multiset());
                }
                true
            },
        }
    }

    /// Hands an address that was being probed to the robot admitted on it.
    pub fn hold(&mut self, addr: u32, robot: Correlator) -> (r: bool)
        requires
            old(self).wf(),
        ensures
            final(self).wf(),
            final(self).hosts() == old(self).hosts(),
            final(self).queued() == old(self).queued(),
            r == old(self).probing().contains(addr),
            r ==> final(self).held() == old(self).held().push(Holding { robot, addr })
                && exists|i: int| 0 <= i < old(self).probing().len()
                    && old(self).probing()[i] == addr
                    && final(self).probing() == old(self).probing().remove(i),
            !r ==> final(self).held() == old(self).held() && final(self).probing()
                == old(self).probing(),
    {
        match self.find_probing(addr) {
            None => false,
            Some(i) => {
                let ghost h0 = self.held@;
                self.probing.remove(i);
                self.held.push(Holding { robot, addr });
                proof {
                    assert(held_addrs(self.held@) =~= held_addrs(h0).push(addr));
                    assert(self.all_addrs().to_multiset() =~= old(self).all_addrs().to_multiset());
                }
                true
            },
        }
    }

    /// Returns the address held by `robot` to the end of the queue, once.
    pub fn release(&mut self, robot: Correlator) -> (r: Option<u32>)
        requires
            old(self).wf(),
        ensures
            final(self).wf(),
            final(self).hosts() == old(self).hosts(),
            final(self).probing() == old(self).probing(),
            r is None <==> forall|j: int| 0 <= j < old(self).held().len()
                ==> (#[trigger] old(self).held()[j]).robot != robot,
            r is None ==> final(self).queued() == old(self).queued() && final(self).held()
                == old(self).held(),
            r matches Some(a) ==> {
                &&& final(self).queued() == old(self).queued().push(Queued { addr: a, delay_ms: 0 })
                &&& exists|i: int| 0 <= i < old(self).held().len()
                    && old(self).held()[i] == (Holding { robot, addr: a })
                    && final(self).held() == old(self).held().remove(i)
            },
    {
        match self.find_held(robot) {
            None => None,
            Some(i) => {
                let ghost q0 = self.queue@;
                let ghost h0 = self.held@;
                let h = self.held.remove(i);
                self.queue.push(Queued { addr: h.addr, delay_ms: 0 });
                proof {
                    assert(queued_addrs(self.queue@) =~= queued_addrs(q0).push(h.addr));
                    assert(held_addrs(self.held@) =~= held_addrs(h0).remove(i as int));
                    assert(held_addrs(h0)[i as int] == h.addr);
                    assert(self.all_addrs().to_multiset() =~= old(self).all_addrs().to_multiset());
                }
                Some(h.addr)
            },
        }
    }

    /// The queue, front first.
    pub fn queue_snapshot(&self) -> (r: Vec<Queued>)
        ensures
            r@ == self.queued(),
    {
        self.queue.clone()
    }

    /// The addresses being probed.
    pub fn probing_snapshot(&self) -> (r: Vec<u32>)
        ensures
            r@ == self.probing(),
    {
        self.probing.clone()
    }

    /// The addresses held by live robots.
    pub fn held_snapshot(&self) -> (r: Vec<Holding>)
        ensures
            r@ == self.held(),
    {
        self.held.clone()
    }
}

} // verus!
