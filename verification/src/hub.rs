//! The broadcast hub: owns the connection registry, hands out connection
//! ids, and decides which peers one inbound frame is fanned out to.
//!
//! The hub itself does no transport work. The caller that drives the
//! connections registers a peer on handshake success, feeds each inbound
//! text frame to `handle_frame`, sends the returned payload to each
//! returned target, and disconnects the peer when its read loop ends.

use crate::envelope::is_update_envelope;
use crate::envelope::should_fan_out;
use crate::registry::Registry;
use vstd::prelude::*;

verus! {

/// One fan-out decision: deliver `payload` — the inbound text verbatim —
/// to every peer in `targets`.
pub struct FanOut {
    pub targets: Vec<u64>,
    pub payload: String,
}

/// The broadcast hub. Its view is the sequence of currently registered
/// connection ids.
pub struct Hub {
    registry: Registry,
    next_id: u64,
}

impl View for Hub {
    type V = Seq<u64>;

    closed spec fn view(&self) -> Seq<u64> {
        self.registry@
    }
}

impl Hub {
    /// Every registered id was handed out by `connect`, so no id is
    /// registered twice and ids not handed out yet are free.
    pub closed spec fn wf(&self) -> bool {
        &&& self.registry.wf()
        &&& forall|i: int| 0 <= i < self.registry@.len() ==> self.registry@[i] < self.next_id
    }

    /// Whether every connection id has been handed out already — the one
    /// condition under which `connect` refuses a peer.
    pub closed spec fn ids_exhausted(&self) -> bool {
        self.next_id == u64::MAX
    }

    /// A hub with no peers yet.
    pub fn new() -> (h: Hub)
        ensures
            h@ == Seq::<u64>::empty(),
            h.wf(),
            !h.ids_exhausted(),
    {
        Hub { registry: Registry::new(), next_id: 0 }
    }

    /// How many peers are currently registered.
    pub fn peer_count(&self) -> (n: usize)
        ensures
            n == self@.len(),
    {
        self.registry.len()
    }

    /// Whether the peer with connection id `id` is currently registered.
    pub fn is_registered(&self, id: u64) -> (b: bool)
        ensures
            b == self@.contains(id),
    {
        self.registry.contains(id)
    }

    /// Accept one peer whose handshake succeeded: hand out a fresh
    /// connection id and register it. `None` only when the id space is
    /// exhausted, in which case nothing changes.
    pub fn connect(&mut self) -> (r: Option<u64>)
        requires
            old(self).wf(),
        ensures
            final(self).wf(),
            (r is Some) == !old(self).ids_exhausted(),
            r matches Some(id) ==> !old(self)@.contains(id) && final(self)@ == old(self)@.push(
                id,
            ),
            r is None ==> final(self)@ == old(self)@,
    {
        if self.next_id == u64::MAX {
            return None;
        }
        let id = self.next_id;
        assert(forall|j: int| 0 <= j < self@.len() ==> self@[j] != id);
        assert(!self@.contains(id));
        self.next_id = self.next_id + 1;
        self.registry.insert(id);
        Some(id)
    }

    /// A peer's read loop ended (disconnect or read error): remove it.
    /// After this call the peer is no longer a fan-out target; every other
    /// peer's registration is untouched.
    pub fn disconnect(&mut self, id: u64)
        requires
            old(self).wf(),
        ensures
            final(self).wf(),
            !final(self)@.contains(id),
            forall|p: u64| p != id ==> final(self)@.contains(p) == old(self)@.contains(p),
    {
        self.registry.remove(id);
        proof {
            let s0 = old(self).registry@;
            let s1 = self.registry@;
            assert forall|i: int| 0 <= i < s1.len() implies s1[i] < self.next_id by {
                let p = s1[i];
                assert(s1.contains(p));
                if p != id {
                    assert(s0.contains(p));
                    let w = choose|w: int| 0 <= w < s0.len() && s0[w] == p;
                    assert(s0[w] < self.next_id);
                }
            }
        }
    }

    /// The peers one frame is fanned out to: every currently registered
    /// peer when the frame is an update envelope, nobody otherwise.
    pub open spec fn fanout_targets(&self, s: Seq<char>) -> Seq<u64> {
        if is_update_envelope(s) {
            self@
        } else {
            Seq::<u64>::empty()
        }
    }

    /// Handle one inbound text frame. An update envelope yields a fan-out
    /// of the original text, verbatim, to every currently registered peer;
    /// any other frame yields none.
    pub fn handle_frame(&self, text: &str) -> (r: Option<FanOut>)
        ensures
            r matches Some(f) ==> is_update_envelope(text@) && f.targets@ == self.fanout_targets(
                text@,
            ) && f.payload@ == text@,
            r is None ==> !is_update_envelope(text@),
    {
        if should_fan_out(text) {
            Some(FanOut { targets: self.registry.snapshot(), payload: text.to_owned() })
        } else {
            None
        }
    }
}

/// Fan-out completeness: when an update envelope arrives, every peer
/// registered at that moment is a fan-out target exactly once.
pub proof fn lemma_fanout_complete(h: Hub, s: Seq<char>, p: u64)
    requires
        h.wf(),
        is_update_envelope(s),
        h@.contains(p),
    ensures
        h.fanout_targets(s).to_multiset().count(p) == 1,
{
    h@.to_multiset_ensures();
    h@.lemma_multiset_has_no_duplicates();
}

/// Non-fan-out filtering: a frame whose discriminator is not `"update"`,
/// or that does not parse as structured data, triggers zero sends.
pub proof fn lemma_non_update_filtered(h: Hub, s: Seq<char>)
    requires
        !is_update_envelope(s),
    ensures
        h.fanout_targets(s) == Seq::<u64>::empty(),
{
}

/// Registry monotonic correctness: a peer that is not registered — in
/// particular one that `disconnect` removed — is not a fan-out target of
/// any frame, whatever its text.
pub proof fn lemma_no_fanout_to_unregistered(h: Hub, s: Seq<char>, p: u64)
    requires
        !h@.contains(p),
    ensures
        !h.fanout_targets(s).contains(p),
{
}

} // verus!
