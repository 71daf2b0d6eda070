use vstd::prelude::*;

use crate::crypto::CryptoSession;
use crate::message::NodeInfo;

verus! {

/// A peer known to the engine: its record, the identity key pinned on first
/// discovery, and the AEAD session derived with it.
pub struct Peer {
    pub info: NodeInfo,
    pub identity_key: [u8; 32],
    pub session: CryptoSession,
}

/// What a discovery did to the registry.
#[derive(Debug, Clone, Copy, PartialEq, Eq, Structural)]
pub enum Upsert {
    /// The node was unknown: it is now bound to the announced identity key.
    Inserted,
    /// The node was bound to the announced identity key: it was touched.
    AlreadyKnown,
    /// The node is bound to another identity key: nothing changed.
    IdentityChanged,
}

/// Whether some peer in `ps` has the id `id`.
pub open spec fn has_peer(ps: Seq<Peer>, id: Seq<char>) -> bool {
    exists|i: int| 0 <= i < ps.len() && #[trigger] ps[i].info.id@ == id
}

/// The peer with id `id` in `ps`.
pub open spec fn peer_of(ps: Seq<Peer>, id: Seq<char>) -> Peer
    recommends
        has_peer(ps, id),
{
    ps[choose|i: int| 0 <= i < ps.len() && #[trigger] ps[i].info.id@ == id]
}

/// The identity key pinned for `id`, if any.
pub open spec fn pinned_key(ps: Seq<Peer>, id: Seq<char>) -> Option<Seq<u8>> {
    if has_peer(ps, id) {
        Some(peer_of(ps, id).identity_key@)
    } else {
        None
    }
}

/// Whether no two peers share an id.
pub open spec fn unique_ids(ps: Seq<Peer>) -> bool {
    forall|i: int, j: int|
        0 <= i < ps.len() && 0 <= j < ps.len() && i != j ==> #[trigger] ps[i].info.id@
            != #[trigger] ps[j].info.id@
}

/// `ps` with the peer `id` seen at `now`.
pub open spec fn touched(ps: Seq<Peer>, id: Seq<char>, now: u64) -> Seq<Peer> {
    ps.map_values(
        |p: Peer|
            if p.info.id@ == id {
                Peer { info: NodeInfo { last_seen: now, ..p.info }, ..p }
            } else {
                p
            },
    )
}

/// Whether a peer last seen at `last_seen` is older than `max_age` at `now`.
pub open spec fn is_stale(last_seen: u64, max_age: u64, now: u64) -> bool {
    now > last_seen && now - last_seen > max_age
}

/// Whether a peer survives an eviction of those older than `max_age` at `now`.
pub open spec fn survives(max_age: u64, now: u64) -> spec_fn(Peer) -> bool {
    |p: Peer| !is_stale(p.info.last_seen, max_age, now)
}

/// The peers that survive an eviction of those older than `max_age` at `now`.
pub open spec fn fresh_peers(ps: Seq<Peer>, max_age: u64, now: u64) -> Seq<Peer> {
    ps.filter(survives(max_age, now))
}

/// With unique ids, the peer at an index is the peer of its id.
pub proof fn lemma_peer_of_index(ps: Seq<Peer>, i: int)
    requires
        unique_ids(ps),
        0 <= i < ps.len(),
    ensures
        has_peer(ps, ps[i].info.id@),
        peer_of(ps, ps[i].info.id@) == ps[i],
{
    let id = ps[i].info.id@;
    assert(has_peer(ps, id));
    let j = choose|j: int| 0 <= j < ps.len() && #[trigger] ps[j].info.id@ == id;
    assert(i == j);
}

/// The peers of one engine, keyed by node id.
pub struct PeerRegistry {
    peers: Vec<Peer>,
}

impl PeerRegistry {
    /// The peers, in order of first discovery.
    pub closed spec fn peers(&self) -> Seq<Peer> {
        self.peers@
    }

    /// The registry's invariant: ids are unique.
    pub open spec fn wf(&self) -> bool {
        unique_ids(self.peers())
    }

    /// An empty registry.
    pub fn new() -> (r: PeerRegistry)
        ensures
            r.wf(),
            r.peers() == Seq::<Peer>::empty(),
    {
        PeerRegistry { peers: Vec::new() }
    }

    /// The number of peers.
    pub fn len(&self) -> (r: usize)
        ensures
            r == self.peers().len(),
    {
        self.peers.len()
    }

    /// The index of the peer `id`.
    fn find(&self, id: &str) -> (r: Option<usize>)
        ensures
            r matches Some(i) ==> i < self.peers().len() && self.peers()[i as int].info.id@ == id@,
            r is None ==> !has_peer(self.peers(), id@),
    {
        let mut i: usize = 0;
        while i < self.peers.len()
            invariant
                i <= self.peers@.len(),
                forall|k: int| 0 <= k < i ==> self.peers@[k].info.id@ != id@,
            decreases self.peers@.len() - i,
        {
            if crate::bytes::str_eq(self.peers[i].info.id.as_str(), id) {
                return Some(i);
            }
            i = i + 1;
        }
        None
    }

    /// The identity key pinned for `id`.
    pub fn identity_key_of(&self, id: &str) -> (r: Option<[u8; 32]>)
        requires
            self.wf(),
        ensures
            match r {
                Some(k) => pinned_key(self.peers(), id@) == Some(k@),
                None => pinned_key(self.peers(), id@) is None,
            },
    {
        match self.find(id) {
            Some(i) => {
                proof {
                    lemma_peer_of_index(self.peers(), i as int);
                }
                Some(self.peers[i].identity_key)
            },
            None => None,
        }
    }

    /// The session with `id`.
    pub fn session_of(&self, id: &str) -> (r: Option<CryptoSession>)
        requires
            self.wf(),
        ensures
            match r {
                Some(s) => has_peer(self.peers(), id@) && s == peer_of(self.peers(), id@).session,
                None => !has_peer(self.peers(), id@),
            },
    {
        match self.find(id) {
            Some(i) => {
                proof {
                    lemma_peer_of_index(self.peers(), i as int);
                }
                Some(self.peers[i].session)
            },
            None => None,
        }
    }

    /// Records that `id` was seen at `now`; unknown ids are ignored.
    pub fn touch(&mut self, id: &str, now: u64)
        requires
            old(self).wf(),
        ensures
            final(self).wf(),
            final(self).peers() == touched(old(self).peers(), id@, now),
    {
        let ghost ps = self.peers@;
        match self.find(id) {
            Some(i) => {
                let mut p = self.peers.remove(i);
                p.info.last_seen = now;
                self.peers.insert(i, p);
                assert(self.peers@ =~= touched(ps, id@, now)) by {
                    assert forall|k: int| 0 <= k < ps.len() && k != i implies ps[k].info.id@
                        != id@ by {
                        assert(ps[i as int].info.id@ == id@);
                    }
                }
            },
            None => {
                assert(self.peers@ =~= touched(ps, id@, now));
            },
        }
    }

    /// Pins `identity_pub` for `source_node` on first discovery, with the given
    /// key-agreement key and session; touches a node already bound to the same
    /// key; refuses a node bound to another key, changing nothing.
    pub fn upsert_on_discovery(
        &mut self,
        source_node: &String,
        exchange_pub: [u8; 32],
        identity_pub: [u8; 32],
        session: CryptoSession,
        now: u64,
    ) -> (r: Upsert)
        requires
            old(self).wf(),
        ensures
            final(self).wf(),
            match pinned_key(old(self).peers(), source_node@) {
                None => r == Upsert::Inserted && final(self).peers() == old(self).peers().push(
                    Peer {
                        info: NodeInfo {
                            id: *source_node,
                            name: *source_node,
                            last_seen: now,
                            public_key: exchange_pub,
                        },
                        identity_key: identity_pub,
                        session,
                    },
                ),
                Some(k) => if k == identity_pub@ {
                    r == Upsert::AlreadyKnown && final(self).peers() == touched(
                        old(self).peers(),
                        source_node@,
                        now,
                    )
                } else {
                    r == Upsert::IdentityChanged && final(self).peers() == old(self).peers()
                },
            },
    {
        match self.find(source_node.as_str()) {
            Some(i) => {
                proof {
                    lemma_peer_of_index(self.peers(), i as int);
                }
                if crate::bytes::bytes_eq(
                    self.peers[i].identity_key.as_slice(),
                    identity_pub.as_slice(),
                ) {
                    self.touch(source_node.as_str(), now);
                    Upsert::AlreadyKnown
                } else {
                    Upsert::IdentityChanged
                }
            },
            None => {
                let info = NodeInfo {
                    id: source_node.clone(),
                    name: source_node.clone(),
                    last_seen: now,
                    public_key: exchange_pub,
                };
                self.peers.push(Peer { info, identity_key: identity_pub, session });
                Upsert::Inserted
            },
        }
    }

    /// Removes the peers older than `max_age` at `now`, with their sessions,
    /// and returns how many were removed.
    pub fn evict_stale(&mut self, max_age: u64, now: u64) -> (r: usize)
        requires
            old(self).wf(),
        ensures
            final(self).wf(),
            final(self).peers() == fresh_peers(old(self).peers(), max_age, now),
            r == old(self).peers().len() - final(self).peers().len(),
    {
        let ghost ps = self.peers@;
        let initial = self.peers.len();
        let ghost keep = survives(max_age, now);
        let mut i: usize = 0;
        let ghost mut k: int = 0;
        while i < self.peers.len()
            invariant
                0 <= k <= ps.len(),
                keep == survives(max_age, now),
                unique_ids(self.peers@),
                i as int == ps.subrange(0, k).filter(keep).len(),
                self.peers@ == ps.subrange(0, k).filter(keep) + ps.subrange(k, ps.len() as int),
            decreases self.peers@.len() - i,
        {
            let ghost before = self.peers@;
            proof {
                reveal(Seq::filter);
            }
            let ghost sub = ps.subrange(0, k + 1);
            assert(sub.drop_last() =~= ps.subrange(0, k));
            assert(sub.len() > 0 && sub.last() == ps[k]);
            assert(keep(ps[k]) == !is_stale(ps[k].info.last_seen, max_age, now));
            assert(before[i as int] == ps[k]);
            assert(ps.subrange(k, ps.len() as int) =~= seq![ps[k]] + ps.subrange(k + 1, ps.len() as int));
            if is_stale_now(self.peers[i].info.last_seen, max_age, now) {
                let _gone = self.peers.remove(i);
                assert(sub.filter(keep) == ps.subrange(0, k).filter(keep));
                assert forall|a: int, b: int|
                    0 <= a < self.peers@.len() && 0 <= b < self.peers@.len() && a != b
                        implies #[trigger] self.peers@[a].info.id@ != #[trigger] self.peers@[b].info.id@ by {
                    let a2 = if a < i { a } else { a + 1 };
                    let b2 = if b < i { b } else { b + 1 };
                    assert(self.peers@[a] == before[a2]);
                    assert(self.peers@[b] == before[b2]);
                }
                assert(self.peers@ =~= ps.subrange(0, k + 1).filter(keep) + ps.subrange(
                    k + 1,
                    ps.len() as int,
                ));
            } else {
                assert(ps.subrange(0, k + 1).filter(keep) == ps.subrange(0, k).filter(keep).push(
                    ps[k],
                ));
                assert(self.peers@ =~= ps.subrange(0, k + 1).filter(keep) + ps.subrange(
                    k + 1,
                    ps.len() as int,
                ));
                i = i + 1;
            }
            proof {
                k = k + 1;
            }
        }
        proof {
            if k < ps.len() {
                assert(self.peers@.len() > i);
            }
            assert(ps.subrange(k, ps.len() as int) =~= Seq::<Peer>::empty());
            assert(ps.subrange(0, ps.len() as int) =~= ps);
            assert(self.peers@ =~= fresh_peers(ps, max_age, now));
        }
        assert(self.peers@.len() <= ps.len()) by {
            ps.lemma_filter_len(keep);
        }
        initial - self.peers.len()
    }

    /// A copy of every peer's record.
    pub fn snapshot(&self) -> (r: Vec<NodeInfo>)
        ensures
            r@.len() == self.peers().len(),
            forall|i: int|
                0 <= i < r@.len() ==> (#[trigger] r@[i]).id@ == self.peers()[i].info.id@
                    && r@[i].name@ == self.peers()[i].info.name@ && r@[i].last_seen
                    == self.peers()[i].info.last_seen && r@[i].public_key
                    == self.peers()[i].info.public_key,
    {
        let mut out: Vec<NodeInfo> = Vec::new();
        let mut i: usize = 0;
        while i < self.peers.len()
            invariant
                i <= self.peers@.len(),
                out@.len() == i,
                forall|j: int|
                    0 <= j < i ==> (#[trigger] out@[j]).id@ == self.peers@[j].info.id@
                        && out@[j].name@ == self.peers@[j].info.name@ && out@[j].last_seen
                        == self.peers@[j].info.last_seen && out@[j].public_key
                        == self.peers@[j].info.public_key,
            decreases self.peers@.len() - i,
        {
            let p = &self.peers[i];
            out.push(
                NodeInfo {
                    id: p.info.id.clone(),
                    name: p.info.name.clone(),
                    last_seen: p.info.last_seen,
                    public_key: p.info.public_key,
                },
            );
            i = i + 1;
        }
        out
    }
}

/// Whether a peer last seen at `last_seen` is older than `max_age` at `now`.
pub fn is_stale_now(last_seen: u64, max_age: u64, now: u64) -> (r: bool)
    ensures
        r == is_stale(last_seen, max_age, now),
{
    now > last_seen && now - last_seen > max_age
}

} // verus!
