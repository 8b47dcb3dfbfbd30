//! The correlator table of one agent connection.
//!
//! Each live logical operation owns one response sink, an in-memory queue of
//! the responses that arrived for its correlator. The receive loop delivers
//! frames here; the operation's driver drains its queue. An entry is removed
//! only after its operation has completed or was cancelled.

use vstd::prelude::*;
use super::protocol::{Correlator, Response, ResponseKind};

verus! {

/// One response sink.
pub struct Sink {
    pub correlator: Correlator,
    pub pending: Vec<ResponseKind>,
    pub completed: bool,
}

/// What became of a delivered frame.
#[derive(Clone, Copy, Debug, PartialEq, Eq, Structural)]
pub enum Delivery {
    /// Appended to the sink of its correlator.
    Queued,
    /// Its correlator has no sink; the frame is discarded.
    Unknown,
    /// It carries no correlator; it is informational only.
    Advisory,
}

/// The table `correlator -> response sink` of one connection.
///
/// The sinks are kept in a vector, one per correlator: when the connection
/// drops the whole table is walked, in a fixed order, and a walk over the
/// keys of a hash map has no specification that a proof can use.
pub struct Mux {
    sinks: Vec<Sink>,
    table: Ghost<Map<Correlator, (Seq<ResponseKind>, bool)>>,
}

/// The responses of `frames` that carry correlator `c`, in arrival order.
pub open spec fn routed(frames: Seq<Response>, c: Correlator) -> Seq<ResponseKind>
    decreases frames.len(),
{
    if frames.len() == 0 {
        Seq::empty()
    } else {
        let last = frames.last();
        let before = routed(frames.drop_last(), c);
        if last.correlator == Some(c) {
            before.push(last.kind)
        } else {
            before
        }
    }
}

spec fn wf_parts(sinks: Seq<Sink>, table: Map<Correlator, (Seq<ResponseKind>, bool)>) -> bool {
    &&& forall|i: int, j: int|
        0 <= i < sinks.len() && 0 <= j < sinks.len() && i != j
            ==> sinks[i].correlator != sinks[j].correlator
    &&& forall|i: int| 0 <= i < sinks.len() ==> {
        &&& #[trigger] table.contains_key(sinks[i].correlator)
        &&& table[sinks[i].correlator] == (sinks[i].pending@, sinks[i].completed)
    }
    &&& forall|c: Correlator| #[trigger]
        table.contains_key(c) ==> exists|i: int| 0 <= i < sinks.len() && sinks[i].correlator == c
    &&& table.dom().finite()
    &&& table.dom().len() == sinks.len()
}

/// The frames that carry the responses `ks`, in order, under correlator `c`.
pub open spec fn tagged(c: Correlator, ks: Seq<ResponseKind>) -> Seq<Response> {
    ks.map_values(|k: ResponseKind| Response { correlator: Some(c), kind: k })
}

/// Responses of two operations may arrive interleaved in any way: frames
/// that carry `c` extend the responses routed to `c` by exactly their own
/// payloads, in order, and leave those routed to any other correlator as
/// they were.
pub proof fn lemma_interleaving_is_faithful(frames: Seq<Response>, c: Correlator, ks: Seq<ResponseKind>, other: Correlator)
    requires
        other != c,
    ensures
        routed(frames + tagged(c, ks), c) == routed(frames, c) + ks,
        routed(frames + tagged(c, ks), other) == routed(frames, other),
    decreases ks.len(),
{
    if ks.len() == 0 {
        assert(frames + tagged(c, ks) =~= frames);
        assert(routed(frames, c) + ks =~= routed(frames, c));
    } else {
        let init = ks.drop_last();
        lemma_interleaving_is_faithful(frames, c, init, other);
        let all = frames + tagged(c, ks);
        assert(all.drop_last() =~= frames + tagged(c, init));
        assert(all.last() == Response { correlator: Some(c), kind: ks.last() });
        assert(routed(frames, c) + ks =~= (routed(frames, c) + init).push(ks.last()));
    }
}

impl View for Mux {
    /// Each live correlator, with the responses queued for it and whether its
    /// operation has completed.
    type V = Map<Correlator, (Seq<ResponseKind>, bool)>;

    closed spec fn view(&self) -> Self::V {
        self.table@
    }
}

impl Mux {
    /// At most one sink per correlator, and the table mirrors the sinks.
    pub closed spec fn wf(&self) -> bool {
        wf_parts(self.sinks@, self.table@)
    }

    /// The positions of the sinks registered under `c`.
    pub closed spec fn sinks_of(&self, c: Correlator) -> Set<int> {
        Set::new(|i: int| 0 <= i < self.sinks@.len() && self.sinks@[i].correlator == c)
    }

    /// At most one response sink is registered under any correlator, and a
    /// correlator is live exactly when one is.
    pub proof fn lemma_one_sink_per_correlator(&self, c: Correlator)
        requires
            self.wf(),
        ensures
            forall|i: int, j: int| self.sinks_of(c).contains(i) && self.sinks_of(c).contains(j) ==> i == j,
            self@.contains_key(c) <==> exists|i: int| self.sinks_of(c).contains(i),
    {
        if self@.contains_key(c) {
            let i = choose|i: int| 0 <= i < self.sinks@.len() && self.sinks@[i].correlator == c;
            assert(self.sinks_of(c).contains(i));
        }
    }

    pub fn new() -> (r: Mux)
        ensures
            r.wf(),
            r@ == Map::<Correlator, (Seq<ResponseKind>, bool)>::empty(),
    {
        Mux { sinks: Vec::new(), table: Ghost(Map::empty()) }
    }

    /// The number of live correlators.
    pub fn len(&self) -> (r: usize)
        requires
            self.wf(),
        ensures
            r == self@.dom().len(),
    {
        self.sinks.len()
    }

    fn find(&self, c: Correlator) -> (r: Option<usize>)
        requires
            self.wf(),
        ensures
            match r {
                Some(i) => i < self.sinks@.len() && self.sinks@[i as int].correlator == c,
                None => !self@.contains_key(c),
            },
    {
        let mut i: usize = 0;
        while i < self.sinks.len()
            invariant
                self.wf(),
                i <= self.sinks@.len(),
                forall|j: int| 0 <= j < i ==> self.sinks@[j].correlator != c,
            decreases self.sinks@.len() - i,
        {
            if self.sinks[i].correlator == c {
                return Some(i);
            }
            i = i + 1;
        }
        None
    }

    /// Whether `c` has a sink.
    pub fn is_live(&self, c: Correlator) -> (r: bool)
        requires
            self.wf(),
        ensures
            r == self@.contains_key(c),
    {
        match self.find(c) {
            Some(_) => true,
            None => false,
        }
    }

    /// Puts back at `i` a sink that was taken out of the table, changed or not.
    fn restore(&mut self, i: usize, sink: Sink, before: Ghost<Seq<Sink>>)
        requires
            wf_parts(before@, old(self).table@),
            i < before@.len(),
            old(self).sinks@ == before@.remove(i as int),
            sink.correlator == before@[i as int].correlator,
        ensures
            final(self).wf(),
            final(self)@ == old(self)@.insert(sink.correlator, (sink.pending@, sink.completed)),
    {
        let ghost c = sink.correlator;
        let ghost entry = (sink.pending@, sink.completed);
        self.sinks.insert(i, sink);
        assert(self.sinks@ =~= before@.update(i as int, self.sinks@[i as int]));
        self.table = Ghost(self.table@.insert(c, entry));
        assert(before@[i as int].correlator == c);
        assert(self.table@.dom() =~= old(self).table@.dom());
        assert forall|c2: Correlator| #[trigger] self.table@.contains_key(c2) implies exists|k: int|
            0 <= k < self.sinks@.len() && self.sinks@[k].correlator == c2 by {
            let k = choose|k: int| 0 <= k < before@.len() && before@[k].correlator == c2;
            assert(self.sinks@[k].correlator == c2);
        }
        assert forall|j: int| 0 <= j < self.sinks@.len() implies {
            &&& #[trigger] self.table@.contains_key(self.sinks@[j].correlator)
            &&& self.table@[self.sinks@[j].correlator] == (
                self.sinks@[j].pending@,
                self.sinks@[j].completed,
            )
        } by {
            if j != i {
                assert(self.sinks@[j] == before@[j]);
                assert(before@[j].correlator != before@[i as int].correlator);
                assert(old(self).table@.contains_key(before@[j].correlator));
            }
        }
        assert forall|j: int, l: int|
            0 <= j < self.sinks@.len() && 0 <= l < self.sinks@.len() && j != l
                implies self.sinks@[j].correlator != self.sinks@[l].correlator by {
            assert(before@[j].correlator != before@[l].correlator);
        }
    }

    /// Registers a sink for `c`; refused when `c` already has one.
    pub fn register(&mut self, c: Correlator) -> (r: bool)
        requires
            old(self).wf(),
        ensures
            final(self).wf(),
            r == !old(self)@.contains_key(c),
            r ==> final(self)@ == old(self)@.insert(c, (Seq::<ResponseKind>::empty(), false)),
            !r ==> final(self)@ == old(self)@,
    {
        if self.find(c).is_some() {
            return false;
        }
        let ghost prev = self.sinks@;
        self.sinks.push(Sink { correlator: c, pending: Vec::new(), completed: false });
        self.table = Ghost(self.table@.insert(c, (Seq::empty(), false)));
        assert forall|c2: Correlator| #[trigger] self.table@.contains_key(c2) implies exists|k: int|
            0 <= k < self.sinks@.len() && self.sinks@[k].correlator == c2 by {
            if c2 != c {
                let k = choose|k: int| 0 <= k < prev.len() && prev[k].correlator == c2;
                assert(self.sinks@[k].correlator == c2);
            } else {
                assert(self.sinks@[prev.len() as int].correlator == c2);
            }
        }
        true
    }

    /// Hands a received frame to the sink of its correlator.
    pub fn deliver(&mut self, frame: Response) -> (r: Delivery)
        requires
            old(self).wf(),
        ensures
            final(self).wf(),
            match frame.correlator {
                None => r == Delivery::Advisory && final(self)@ == old(self)@,
                Some(c) => if old(self)@.contains_key(c) {
                    &&& r == Delivery::Queued
                    &&& final(self)@ == old(self)@.insert(
                        c,
                        (old(self)@[c].0.push(frame.kind), old(self)@[c].1),
                    )
                } else {
                    r == Delivery::Unknown && final(self)@ == old(self)@
                },
            },
    {
        let Response { correlator, kind } = frame;
        match correlator {
            None => Delivery::Advisory,
            Some(c) => match self.find(c) {
                None => Delivery::Unknown,
                Some(i) => {
                    let ghost before = self.sinks@;
                    let mut sink = self.sinks.remove(i);
                    sink.pending.push(kind);
                    self.restore(i, sink, Ghost(before));
                    Delivery::Queued
                },
            },
        }
    }

    /// Delivers `frames` in order: each live correlator's sink receives
    /// exactly the responses that carry it, in arrival order, and no other.
    pub fn deliver_all(&mut self, frames: Vec<Response>)
        requires
            old(self).wf(),
        ensures
            final(self).wf(),
            final(self)@.dom() == old(self)@.dom(),
            forall|c: Correlator| #[trigger] old(self)@.contains_key(c) ==> final(self)@[c] == (
                old(self)@[c].0 + routed(frames@, c),
                old(self)@[c].1,
            ),
    {
        let ghost all = frames@;
        let mut rest = frames;
        let mut k: usize = 0;
        let n = rest.len();
        while k < n
            invariant
                self.wf(),
                n == all.len(),
                k <= n,
                rest@ == all.subrange(k as int, n as int),
                self@.dom() == old(self)@.dom(),
                forall|c: Correlator| #[trigger] old(self)@.contains_key(c) ==> self@[c] == (
                    old(self)@[c].0 + routed(all.subrange(0, k as int), c),
                    old(self)@[c].1,
                ),
            decreases n - k,
        {
            let frame = rest.remove(0);
            let ghost prev = self@;
            let ghost f = frame;
            self.deliver(frame);
            proof {
                assert(all.subrange(0, k + 1).drop_last() =~= all.subrange(0, k as int));
                assert(all.subrange(0, k + 1).last() == f);
                assert(self@.dom() =~= old(self)@.dom());
            }
            k = k + 1;
            assert(rest@ =~= all.subrange(k as int, n as int));
        }
        assert(all.subrange(0, n as int) =~= all);
    }

    /// Drains the responses queued for `c`, in arrival order.
    pub fn take_pending(&mut self, c: Correlator) -> (r: Vec<ResponseKind>)
        requires
            old(self).wf(),
        ensures
            final(self).wf(),
            old(self)@.contains_key(c) ==> {
                &&& r@ == old(self)@[c].0
                &&& final(self)@ == old(self)@.insert(c, (Seq::<ResponseKind>::empty(), old(self)@[c].1))
            },
            !old(self)@.contains_key(c) ==> r@.len() == 0 && final(self)@ == old(self)@,
    {
        match self.find(c) {
            None => Vec::new(),
            Some(i) => {
                let ghost before = self.sinks@;
                let Sink { correlator, pending, completed } = self.sinks.remove(i);
                self.restore(i, Sink { correlator, pending: Vec::new(), completed }, Ghost(before));
                pending
            },
        }
    }

    /// Records that the operation of `c` has completed or was cancelled.
    pub fn complete(&mut self, c: Correlator) -> (r: bool)
        requires
            old(self).wf(),
        ensures
            final(self).wf(),
            r == old(self)@.contains_key(c),
            r ==> final(self)@ == old(self)@.insert(c, (old(self)@[c].0, true)),
            !r ==> final(self)@ == old(self)@,
    {
        match self.find(c) {
            None => false,
            Some(i) => {
                let ghost before = self.sinks@;
                let Sink { correlator, pending, completed: _ } = self.sinks.remove(i);
                self.restore(i, Sink { correlator, pending, completed: true }, Ghost(before));
                true
            },
        }
    }

    /// Removes the sink of `c`, which is allowed only once its operation has
    /// completed: an entry is never retired before its operation ends.
    pub fn retire(&mut self, c: Correlator) -> (r: bool)
        requires
            old(self).wf(),
        ensures
            final(self).wf(),
            r == (old(self)@.contains_key(c) && old(self)@[c].1),
            r ==> final(self)@ == old(self)@.remove(c),
            !r ==> final(self)@ == old(self)@,
    {
        match self.find(c) {
            None => false,
            Some(i) => {
                assert(self.table@.contains_key(self.sinks@[i as int].correlator));
                if !self.sinks[i].completed {
                    return false;
                }
                let ghost before = self.sinks@;
                let _ = self.sinks.remove(i);
                self.table = Ghost(self.table@.remove(c));
                assert forall|c2: Correlator| #[trigger] self.table@.contains_key(c2) implies exists|k: int|
                    0 <= k < self.sinks@.len() && self.sinks@[k].correlator == c2 by {
                    let k = choose|k: int| 0 <= k < before.len() && before[k].correlator == c2;
                    if k < i {
                        assert(self.sinks@[k].correlator == c2);
                    } else {
                        assert(self.sinks@[k - 1].correlator == c2);
                    }
                }
                assert forall|j: int| 0 <= j < self.sinks@.len() implies #[trigger] self.table@.contains_key(
                    self.sinks@[j].correlator,
                ) by {
                    if j < i {
                        assert(self.sinks@[j] == before[j]);
                    } else {
                        assert(self.sinks@[j] == before[j + 1]);
                    }
                }
                true
            },
        }
    }

    /// On loss of the connection every operation fails: returns the live
    /// correlators and empties the table.
    pub fn fail_all(&mut self) -> (r: Vec<Correlator>)
        requires
            old(self).wf(),
        ensures
            final(self).wf(),
            final(self)@ == Map::<Correlator, (Seq<ResponseKind>, bool)>::empty(),
            r@.no_duplicates(),
            forall|c: Correlator| #[trigger] r@.contains(c) <==> old(self)@.contains_key(c),
    {
        let mut out: Vec<Correlator> = Vec::new();
        let mut i: usize = 0;
        while i < self.sinks.len()
            invariant
                self.wf(),
                self@ == old(self)@,
                i <= self.sinks@.len(),
                out@.len() == i,
                forall|j: int| 0 <= j < i ==> out@[j] == self.sinks@[j].correlator,
            decreases self.sinks@.len() - i,
        {
            out.push(self.sinks[i].correlator);
            i = i + 1;
        }
        assert forall|c: Correlator| #[trigger] out@.contains(c) <==> old(self)@.contains_key(c) by {
            if old(self)@.contains_key(c) {
                let k = choose|k: int| 0 <= k < self.sinks@.len() && self.sinks@[k].correlator == c;
                assert(out@[k] == c);
            }
            if out@.contains(c) {
                let k = choose|k: int| 0 <= k < out@.len() && out@[k] == c;
                assert(self.table@.contains_key(self.sinks@[k].correlator));
            }
        }
        self.sinks = Vec::new();
        self.table = Ghost(Map::empty());
        out
    }
}

} // verus!
