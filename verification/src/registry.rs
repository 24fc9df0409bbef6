//! The connection registry: the set of peers currently able to receive
//! frames, identified by the connection ids the hub hands out.

use vstd::prelude::*;

verus! {

/// The mutable collection of live peer connections, as connection ids.
/// Insertion order is irrelevant to callers; the registry promises only
/// which ids it holds, and that it holds each at most once.
pub struct Registry {
    peers: Vec<u64>,
}

impl View for Registry {
    type V = Seq<u64>;

    closed spec fn view(&self) -> Seq<u64> {
        self.peers@
    }
}

impl Registry {
    /// No peer is listed twice, so one fan-out pass delivers to each
    /// registered peer exactly once.
    pub open spec fn wf(&self) -> bool {
        self@.no_duplicates()
    }

    /// An empty registry: no peer can receive frames yet.
    pub fn new() -> (r: Registry)
        ensures
            r@ == Seq::<u64>::empty(),
            r.wf(),
    {
        Registry { peers: Vec::new() }
    }

    /// How many peers are currently registered.
    pub fn len(&self) -> (n: usize)
        ensures
            n == self@.len(),
    {
        self.peers.len()
    }

    /// Whether `id` is currently registered.
    pub fn contains(&self, id: u64) -> (b: bool)
        ensures
            b == self@.contains(id),
    {
        let mut i: usize = 0;
        while i < self.peers.len()
            invariant
                0 <= i <= self.peers@.len(),
                forall|j: int| 0 <= j < i ==> self.peers@[j] != id,
            decreases self.peers@.len() - i,
        {
            if self.peers[i] == id {
                assert(self@[i as int] == id);
                return true;
            }
            i += 1;
        }
        assert(forall|j: int| 0 <= j < self@.len() ==> self@[j] != id);
        false
    }

    /// Register a peer. A peer that is already registered is not added
    /// again: the registry keeps set semantics.
    pub fn insert(&mut self, id: u64)
        requires
            old(self).wf(),
        ensures
            final(self).wf(),
            final(self)@.contains(id),
            old(self)@.contains(id) ==> final(self)@ == old(self)@,
            !old(self)@.contains(id) ==> final(self)@ == old(self)@.push(id),
    {
        if !self.contains(id) {
            self.peers.push(id);
            assert(self@.drop_last() == old(self)@);
            assert(self@.last() == id);
            assert(self@.contains(id));
        }
    }

    /// Remove a peer; after the call it can no longer be a fan-out target.
    /// Every other peer's registration is untouched.
    pub fn remove(&mut self, id: u64)
        requires
            old(self).wf(),
        ensures
            final(self).wf(),
            !final(self)@.contains(id),
            forall|p: u64| p != id ==> final(self)@.contains(p) == old(self)@.contains(p),
            old(self)@.contains(id) ==> final(self)@.len() == old(self)@.len() - 1,
            !old(self)@.contains(id) ==> final(self)@ == old(self)@,
    {
        let mut i: usize = 0;
        while i < self.peers.len()
            invariant
                0 <= i <= self.peers@.len(),
                self.peers@ == old(self)@,
                old(self).wf(),
                forall|j: int| 0 <= j < i ==> self.peers@[j] != id,
            decreases self.peers@.len() - i,
        {
            if self.peers[i] == id {
                let ghost s0 = old(self)@;
                let ghost pos = i as int;
                self.peers.remove(i);
                proof {
                    let s1 = self@;
                    assert(s1 == s0.remove(pos));
                    assert forall|a: int, b: int|
                        0 <= a < b < s1.len() implies s1[a] != s1[b] by {
                        let a0: int = if a < pos { a } else { a + 1 };
                        let b0: int = if b < pos { b } else { b + 1 };
                        assert(s1[a] == s0[a0]);
                        assert(s1[b] == s0[b0]);
                        assert(s0[a0] != s0[b0]);
                    }
                    assert(s1.no_duplicates());
                    assert forall|k: int| 0 <= k < s1.len() implies s1[k] != id by {
                        if k < pos {
                            assert(s1[k] == s0[k]);
                        } else {
                            assert(s1[k] == s0[k + 1]);
                            assert(s0[k + 1] != s0[pos]);
                        }
                    }
                    assert(!s1.contains(id));
                    assert forall|p: u64| p != id implies s1.contains(p) == s0.contains(p) by {
                        if s0.contains(p) {
                            let w = choose|w: int| 0 <= w < s0.len() && s0[w] == p;
                            if w < pos {
                                assert(s1[w] == p);
                            } else {
                                assert(s1[w - 1] == p);
                            }
                            assert(s1.contains(p));
                        }
                        if s1.contains(p) {
                            let w = choose|w: int| 0 <= w < s1.len() && s1[w] == p;
                            if w < pos {
                                assert(s0[w] == p);
                            } else {
                                assert(s0[w + 1] == p);
                            }
                            assert(s0.contains(p));
                        }
                    }
                }
                return;
            }
            i += 1;
        }
        assert(forall|j: int| 0 <= j < self@.len() ==> self@[j] != id);
        assert(!self@.contains(id));
    }

    /// A snapshot of the registered peers, for one fan-out pass.
    pub fn snapshot(&self) -> (v: Vec<u64>)
        ensures
            v@ == self@,
    {
        let mut v: Vec<u64> = Vec::new();
        let mut i: usize = 0;
        while i < self.peers.len()
            invariant
                0 <= i <= self.peers@.len(),
                v@ == self.peers@.subrange(0, i as int),
            decreases self.peers@.len() - i,
        {
            v.push(self.peers[i]);
            assert(v@ == self.peers@.subrange(0, i + 1 as int));
            i += 1;
        }
        assert(v@ == self@.subrange(0, self@.len() as int));
        assert(self@.subrange(0, self@.len() as int) == self@);
        v
    }
}

} // verus!
