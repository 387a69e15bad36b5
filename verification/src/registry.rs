//! The endpoint's index of live connections: each connection's control
//! handle under the handle that the core gave it, and the handle of the
//! latest connection to each peer.
//!
//! A connection is registered when its runner is started and removed when
//! the runner ends. An indexed peer always leads to a live connection.

use crate::ids::PeerAddr;
use crate::keys::drain_values;
use crate::peers::Peers;
use std::collections::HashMap;
use vstd::prelude::*;

verus! {

broadcast use vstd::std_specs::hash::group_hash_axioms;

/// A live connection: its peer, and the control handle that reaches its
/// runner.
pub struct Entry<C> {
    pub peer: PeerAddr,
    pub ctrl: C,
}

/// The peers of `peers` that do not lead to `handle`.
pub open spec fn unindexed(peers: Map<PeerAddr, usize>, handle: usize) -> Map<PeerAddr, usize> {
    Map::new(|p: PeerAddr| peers.contains_key(p) && peers[p] != handle, |p: PeerAddr| peers[p])
}

/// The index of live connections.
pub struct Registry<C> {
    ctrls: HashMap<usize, Entry<C>>,
    peers: Peers,
}

impl<C> Registry<C> {
    /// The live connections by handle.
    pub closed spec fn ctrls(&self) -> Map<usize, Entry<C>> {
        self.ctrls@
    }

    /// The handle of the latest connection to each indexed peer.
    pub closed spec fn peers(&self) -> Map<PeerAddr, usize> {
        self.peers@
    }

    /// Every indexed peer leads to a live connection to that peer.
    pub closed spec fn wf(&self) -> bool {
        forall|p: PeerAddr| #[trigger]
            self.peers@.contains_key(p) ==> self.ctrls@.contains_key(self.peers@[p])
                && self.ctrls@[self.peers@[p]].peer == p
    }

    /// Whoever is found through the peer index is live, and is a connection
    /// to that peer; so no two peers lead to the same connection.
    pub proof fn lemma_indexed_is_live(&self, peer: PeerAddr)
        requires
            self.wf(),
            self.peers().contains_key(peer),
        ensures
            self.ctrls().contains_key(self.peers()[peer]),
            self.ctrls()[self.peers()[peer]].peer == peer,
            forall|q: PeerAddr|
                self.peers().contains_key(q) && self.peers()[q] == self.peers()[peer] ==> q == peer,
    {
    }

    /// Once a connection is taken out of the index, no peer leads to it, and
    /// every other peer leads where it led before.
    pub proof fn lemma_removed_is_unreachable(peers: Map<PeerAddr, usize>, handle: usize)
        ensures
            forall|p: PeerAddr| #[trigger]
                unindexed(peers, handle).contains_key(p) ==> unindexed(peers, handle)[p] != handle,
            forall|p: PeerAddr|
                peers.contains_key(p) && peers[p] != handle ==> #[trigger] unindexed(
                    peers,
                    handle,
                ).contains_key(p) && unindexed(peers, handle)[p] == peers[p],
    {
    }

    /// An empty index.
    pub fn new() -> (r: Registry<C>)
        ensures
            r.wf(),
            r.ctrls() == Map::<usize, Entry<C>>::empty(),
            r.peers() == Map::<PeerAddr, usize>::empty(),
    {
        Registry { ctrls: HashMap::new(), peers: Peers::new() }
    }

    /// The number of live connections.
    pub fn len(&self) -> (n: usize)
        requires
            self.wf(),
        ensures
            n == self.ctrls().dom().len(),
    {
        self.ctrls.len()
    }

    /// The handle of the latest connection to `peer`, if one is live.
    pub fn handle_of(&self, peer: PeerAddr) -> (h: Option<usize>)
        requires
            self.wf(),
        ensures
            h is Some <==> self.peers().contains_key(peer),
            h matches Some(handle) ==> handle == self.peers()[peer] && self.ctrls().contains_key(
                handle,
            ),
    {
        self.peers.get(peer)
    }

    /// The control handle of the connection with this handle, if it is
    /// live.
    pub fn ctrl(&self, handle: usize) -> (c: Option<&C>)
        requires
            self.wf(),
        ensures
            c is Some <==> self.ctrls().contains_key(handle),
            c matches Some(ctrl) ==> *ctrl == self.ctrls()[handle].ctrl,
    {
        match self.ctrls.get(&handle) {
            Some(entry) => Some(&entry.ctrl),
            None => None,
        }
    }

    /// Whether the connection with this handle is live.
    pub fn is_live(&self, handle: usize) -> (b: bool)
        requires
            self.wf(),
        ensures
            b == self.ctrls().contains_key(handle),
    {
        self.ctrls.contains_key(&handle)
    }

    /// Takes the connection with this handle out of the index, and with it
    /// the peer that led to it. Hands back its control handle.
    pub fn remove(&mut self, handle: usize) -> (gone: Option<C>)
        requires
            old(self).wf(),
        ensures
            final(self).wf(),
            final(self).ctrls() == old(self).ctrls().remove(handle),
            final(self).peers() == unindexed(old(self).peers(), handle),
            gone is Some <==> old(self).ctrls().contains_key(handle),
            gone matches Some(ctrl) ==> ctrl == old(self).ctrls()[handle].ctrl,
    {
        match self.ctrls.remove(&handle) {
            Some(entry) => {
                let leads_here = match self.peers.get(entry.peer) {
                    Some(h) => h == handle,
                    None => false,
                };
                if leads_here {
                    let _ = self.peers.remove(entry.peer);
                }
                Some(entry.ctrl)
            },
            None => None,
        }
    }

    /// Puts a connection into the index, under its handle and as the
    /// latest connection to its peer. A connection that was registered
    /// under the same handle before is taken out first and handed back.
    pub fn register(&mut self, handle: usize, peer: PeerAddr, ctrl: C) -> (stale: Option<C>)
        requires
            old(self).wf(),
        ensures
            final(self).wf(),
            final(self).ctrls() == old(self).ctrls().insert(handle, Entry { peer, ctrl }),
            final(self).peers() == unindexed(old(self).peers(), handle).insert(peer, handle),
            stale is Some <==> old(self).ctrls().contains_key(handle),
            stale matches Some(c) ==> c == old(self).ctrls()[handle].ctrl,
    {
        let stale = self.remove(handle);
        let _ = self.ctrls.insert(handle, Entry { peer, ctrl });
        let _ = self.peers.insert(peer, handle);
        stale
    }

    /// Takes every connection out of the index and hands back their
    /// control handles, one for each connection that was live.
    pub fn drain(&mut self) -> (gone: Vec<C>)
        requires
            old(self).wf(),
        ensures
            final(self).wf(),
            final(self).ctrls() == Map::<usize, Entry<C>>::empty(),
            final(self).peers() == Map::<PeerAddr, usize>::empty(),
            gone@.len() == old(self).ctrls().dom().len(),
            forall|h: usize|
                old(self).ctrls().contains_key(h) ==> gone@.contains(
                    (#[trigger] old(self).ctrls()[h]).ctrl,
                ),
    {
        let mut entries = drain_values(&mut self.ctrls);
        self.peers.clear();
        let ghost all = entries@;
        let mut gone: Vec<C> = Vec::new();
        while entries.len() > 0
            invariant
                self.wf(),
                self.ctrls@ == Map::<usize, Entry<C>>::empty(),
                self.peers@ == Map::<PeerAddr, usize>::empty(),
                entries@.len() + gone@.len() == all.len(),
                entries@ == all.subrange(0, entries@.len() as int),
                forall|i: int|
                    entries@.len() <= i < all.len() ==> gone@.contains((#[trigger] all[i]).ctrl),
            decreases entries@.len(),
        {
            let ghost before = gone@;
            let ghost n = entries@.len() - 1;
            if let Some(entry) = entries.pop() {
                gone.push(entry.ctrl);
                proof {
                    assert forall|i: int| n <= i < all.len() implies gone@.contains(
                        (#[trigger] all[i]).ctrl,
                    ) by {
                        if i == n {
                            assert(gone@[before.len() as int] == all[n].ctrl);
                        } else {
                            let j = before.index_of(all[i].ctrl);
                            assert(gone@[j] == all[i].ctrl);
                        }
                    }
                }
            }
        }
        gone
    }
}

} // verus!
