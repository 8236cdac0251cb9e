//! Which live sessions to hang up on when a peer is unpaired.
//!
//! Revocation must be immediate and must drop any live session: removing a
//! pin only stops the next handshake. The service keeps a socket handle for
//! every session in flight, keyed by the session's id; this table records
//! whose session each id is and decides which ones a revocation closes.

use std::collections::HashMap;
use vstd::prelude::*;
use vstd::std_specs::hash::spec_hash_map_iter;
use vstd::std_specs::iter::IteratorSpec;
use crate::state::{PinnedPeer, same_key};

verus! {

/// How often the service re-reads the pin store, in milliseconds: short
/// enough that "immediate" is honest at human scale, long enough not to be a
/// busy loop.
pub const REVOCATION_POLL_INTERVAL_MS: u64 = 200;

/// Every session currently being served: its id, and the identity key of the
/// peer it serves.
#[derive(Debug)]
pub struct SessionRegistry {
    sessions: HashMap<u64, [u8; 32]>,
    next_id: u64,
}

/// Whether `allowed` pins the identity key `key`.
pub open spec fn pinned_key(allowed: Seq<PinnedPeer>, key: Seq<u8>) -> bool {
    exists|i: int| 0 <= i < allowed.len() && #[trigger] allowed[i].identity_pub@ == key
}

/// Which sessions a revocation picks, by the identity key of their peer.
enum Pick<'a> {
    /// The sessions with this peer.
    Identity(&'a [u8; 32]),
    /// The sessions whose peer is not pinned here.
    Unpinned(&'a [PinnedPeer]),
    /// Every session.
    Every,
}

/// Whether `pick` picks a session whose peer's identity key is `key`.
spec fn picks(pick: Pick, key: Seq<u8>) -> bool {
    match pick {
        Pick::Identity(k) => key == k@,
        Pick::Unpinned(allowed) => !pinned_key(allowed@, key),
        Pick::Every => true,
    }
}

fn picked(pick: &Pick, key: &[u8; 32]) -> (b: bool)
    ensures
        b == picks(*pick, key@),
{
    match pick {
        Pick::Identity(k) => same_key(key, k),
        Pick::Unpinned(allowed) => !is_pinned(allowed, key),
        Pick::Every => true,
    }
}

impl SessionRegistry {
    /// The live sessions: each id with the identity key of its peer.
    pub closed spec fn live(&self) -> Map<u64, [u8; 32]> {
        self.sessions@
    }

    /// The id the next registration gets.
    pub closed spec fn spec_next_id(&self) -> u64 {
        self.next_id
    }

    /// Every live id is below the next one, so ids are never reused.
    pub closed spec fn wf(&self) -> bool {
        forall|id: u64| #[trigger] self.sessions@.dom().contains(id) ==> id < self.next_id
    }

    /// An empty registry.
    pub fn new() -> (r: SessionRegistry)
        ensures
            r.wf(),
            r.live() == Map::<u64, [u8; 32]>::empty(),
            r.spec_next_id() == 0,
    {
        SessionRegistry { sessions: HashMap::new(), next_id: 0 }
    }

    /// Record a live session with the peer whose identity key is
    /// `identity_pub`, returning its id; `None` once the id space is spent.
    pub fn register(&mut self, identity_pub: [u8; 32]) -> (id: Option<u64>)
        requires
            old(self).wf(),
        ensures
            final(self).wf(),
            match id {
                Some(i) => {
                    &&& i == old(self).spec_next_id()
                    &&& !old(self).live().dom().contains(i)
                    &&& final(self).live() == old(self).live().insert(i, identity_pub)
                    &&& final(self).spec_next_id() == i + 1
                },
                None => {
                    &&& final(self).live() == old(self).live()
                    &&& old(self).spec_next_id() == u64::MAX
                    &&& final(self).spec_next_id() == old(self).spec_next_id()
                },
            },
    {
        broadcast use vstd::std_specs::hash::group_hash_axioms;
        if self.next_id == u64::MAX {
            return None;
        }
        let id = self.next_id;
        self.sessions.insert(id, identity_pub);
        self.next_id = id + 1;
        Some(id)
    }

    /// Forget session `id` once its thread has ended.
    pub fn remove(&mut self, id: u64)
        requires
            old(self).wf(),
        ensures
            final(self).wf(),
            final(self).live() == old(self).live().remove(id),
            final(self).spec_next_id() == old(self).spec_next_id(),
    {
        broadcast use vstd::std_specs::hash::group_hash_axioms;
        self.sessions.remove(&id);
    }

    /// How many sessions are live.
    pub fn live_count(&self) -> (n: usize)
        ensures
            n == self.live().len(),
    {
        broadcast use vstd::std_specs::hash::group_hash_axioms;
        self.sessions.len()
    }

    /// The ids of the sessions `pick` picks, each once.
    fn select(&self, pick: Pick) -> (ids: Vec<u64>)
        ensures
            ids@.no_duplicates(),
            forall|i: u64| #[trigger] ids@.contains(i)
                <==> (self.live().dom().contains(i) && picks(pick, self.live()[i]@)),
    {
        broadcast use vstd::std_specs::hash::group_hash_axioms;
        let ghost m = self.sessions@;
        let entries = self.sessions.iter();
        let ghost all = entries.remaining();
        let mut ids: Vec<u64> = Vec::new();
        for (id, key) in it: entries
            invariant
                m == self.sessions@,
                all == spec_hash_map_iter(&self.sessions).remaining(),
                it.seq() == all,
                all.no_duplicates(),
                ids@.no_duplicates(),
                forall|i: u64| #[trigger] ids@.contains(i) <==> exists|k: int| 0 <= k < it.index()
                    && *(#[trigger] all[k]).0 == i && picks(pick, all[k].1@),
        {
            let ghost idx = it.index();
            let ghost before = ids@;
            assert(*id == *all[idx].0);
            assert(*key == *all[idx].1);
            assert(m.contains_key(*all[idx].0) && m[*all[idx].0] == *all[idx].1);
            let chosen = picked(&pick, key);
            if chosen {
                proof {
                    if before.contains(*id) {
                        let k = choose|k: int| 0 <= k < idx && *(#[trigger] all[k]).0 == *id && picks(pick, all[k].1@);
                        assert(m.contains_key(*all[k].0) && m[*all[k].0] == *all[k].1);
                        assert(all[k] == all[idx]);
                        assert(false);
                    }
                }
                ids.push(*id);
            }
            assert forall|i: u64| #[trigger] ids@.contains(i) <==> exists|k: int| 0 <= k < idx + 1
                && *(#[trigger] all[k]).0 == i && picks(pick, all[k].1@) by {
                if ids@.contains(i) {
                    if before.contains(i) {
                        let k = choose|k: int| 0 <= k < idx && *(#[trigger] all[k]).0 == i && picks(pick, all[k].1@);
                        assert(0 <= k < idx + 1);
                    } else {
                        assert(chosen);
                        assert(ids@ == before.push(*id));
                        assert(i == *id);
                        assert(*all[idx].0 == i && picks(pick, all[idx].1@));
                    }
                }
                if exists|k: int| 0 <= k < idx + 1 && *(#[trigger] all[k]).0 == i && picks(pick, all[k].1@) {
                    let k = choose|k: int| 0 <= k < idx + 1 && *(#[trigger] all[k]).0 == i && picks(pick, all[k].1@);
                    if k < idx {
                        assert(before.contains(i));
                        let j = choose|j: int| 0 <= j < before.len() && before[j] == i;
                        if chosen {
                            assert(ids@ == before.push(*id));
                            assert(ids@[j] == i);
                        } else {
                            assert(ids@ == before);
                        }
                        assert(ids@.contains(i));
                    } else {
                        assert(chosen);
                        assert(ids@ == before.push(*id));
                        assert(ids@[ids@.len() - 1] == i);
                    }
                }
            }
        }
        assert forall|i: u64| #[trigger] ids@.contains(i)
            <==> (m.dom().contains(i) && picks(pick, m[i]@)) by {
            if ids@.contains(i) {
                let k = choose|k: int| 0 <= k < all.len() && *(#[trigger] all[k]).0 == i && picks(pick, all[k].1@);
                assert(m.contains_key(*all[k].0) && m[*all[k].0] == *all[k].1);
            }
            if m.dom().contains(i) && picks(pick, m[i]@) {
                assert(m.contains_key(i));
                assert(all.contains((&i, &m[i])));
                let k = choose|k: int| 0 <= k < all.len() && all[k] == (&i, &m[i]);
                assert(*all[k].0 == i);
            }
        }
        ids
    }

    /// The sessions with the peer whose identity key is `identity_pub`: what an
    /// unpair of that peer hangs up on, each once, in no particular order.
    pub fn revoke_identity(&self, identity_pub: &[u8; 32]) -> (ids: Vec<u64>)
        ensures
            ids@.no_duplicates(),
            forall|i: u64| #[trigger] ids@.contains(i)
                <==> (self.live().dom().contains(i) && self.live()[i]@ == identity_pub@),
    {
        self.select(Pick::Identity(identity_pub))
    }

    /// The sessions whose peer is not pinned in `allowed`: what the watcher
    /// hangs up on after an unpair made by another process.
    pub fn retain_pinned(&self, allowed: &[PinnedPeer]) -> (ids: Vec<u64>)
        ensures
            ids@.no_duplicates(),
            forall|i: u64| #[trigger] ids@.contains(i)
                <==> (self.live().dom().contains(i) && !pinned_key(allowed@, self.live()[i]@)),
    {
        self.select(Pick::Unpinned(allowed))
    }

    /// Every live session: what shutdown hangs up on.
    pub fn revoke_all(&self) -> (ids: Vec<u64>)
        ensures
            ids@.no_duplicates(),
            forall|i: u64| #[trigger] ids@.contains(i) <==> self.live().dom().contains(i),
    {
        self.select(Pick::Every)
    }
}

/// A session that ends leaves the registry as it was before it started:
/// removing the id that [`SessionRegistry::register`] handed out (fresh, so
/// no live session had it) takes away exactly that session.
pub proof fn a_finished_session_leaves_no_trace(live: Map<u64, [u8; 32]>, id: u64, identity_pub: [u8; 32])
    requires
        !live.dom().contains(id),
    ensures
        live.insert(id, identity_pub).remove(id) == live,
{
    assert(live.insert(id, identity_pub).remove(id) =~= live);
}

/// Whether `allowed` pins the identity key `key`.
fn is_pinned(allowed: &[PinnedPeer], key: &[u8; 32]) -> (b: bool)
    ensures
        b == pinned_key(allowed@, key@),
{
    let mut i: usize = 0;
    while i < allowed.len()
        invariant
            i <= allowed@.len(),
            forall|k: int| 0 <= k < i ==> #[trigger] allowed@[k].identity_pub@ != key@,
        decreases allowed@.len() - i,
    {
        if same_key(&allowed[i].identity_pub, key) {
            return true;
        }
        i = i + 1;
    }
    false
}

} // verus!
