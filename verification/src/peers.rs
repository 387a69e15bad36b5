//! The index from a peer's address to a number, kept in a concurrent map.
//!
//! An address is keyed by a tuple of integers: whether it is an IPv6
//! address, the address as a number, and the port.

use crate::ids::PeerAddr;
use dashmap::DashMap;
use vstd::prelude::*;

verus! {

#[verifier::external_type_specification]
#[verifier::external_body]
#[verifier::reject_recursive_types(K)]
#[verifier::reject_recursive_types(V)]
#[verifier::reject_recursive_types(S)]
pub struct ExDashMap<K, V, S>(DashMap<K, V, S>);

/// The key of an address: whether it is an IPv6 address, the address as a
/// number, and the port.
pub type PeerKey = (bool, u128, u16);

/// A concurrent map from address keys to numbers.
pub type PeerIndex = DashMap<PeerKey, usize>;

/// What a map from address keys to numbers holds.
pub uninterp spec fn held(m: PeerIndex) -> Map<PeerKey, usize>;

/// `DashMap::new`: a map that holds nothing.
#[verifier::external_body]
pub(crate) fn held_new() -> (m: PeerIndex)
    ensures
        held(m).dom() == Set::<PeerKey>::empty(),
{
    DashMap::new()
}

/// `DashMap::get`, with the value copied out of the guard: the value under
/// `key`, if the map holds one.
#[verifier::external_body]
pub(crate) fn held_get(m: &PeerIndex, key: PeerKey) -> (v: Option<
    usize,
>)
    ensures
        v is Some <==> held(*m).contains_key(key),
        v matches Some(val) ==> val == held(*m)[key],
{
    m.get(&key).map(|entry| *entry.value())
}

/// `DashMap::insert`: afterwards the map holds `val` under `key` and is
/// otherwise as before; the value that `key` had is handed back.
#[verifier::external_body]
pub(crate) fn held_insert(
    m: &mut PeerIndex,
    key: PeerKey,
    val: usize,
) -> (prev: Option<usize>)
    ensures
        held(*final(m)) == held(*old(m)).insert(key, val),
        prev is Some <==> held(*old(m)).contains_key(key),
        prev matches Some(was) ==> was == held(*old(m))[key],
{
    m.insert(key, val)
}

/// `DashMap::remove`: afterwards the map holds nothing under `key` and is
/// otherwise as before; the value that `key` had is handed back.
#[verifier::external_body]
pub(crate) fn held_remove(m: &mut PeerIndex, key: PeerKey) -> (prev:
    Option<usize>)
    ensures
        held(*final(m)) == held(*old(m)).remove(key),
        prev is Some <==> held(*old(m)).contains_key(key),
        prev matches Some(was) ==> was == held(*old(m))[key],
{
    m.remove(&key).map(|pair| pair.1)
}

/// `DashMap::clear`: afterwards the map holds nothing.
#[verifier::external_body]
pub(crate) fn held_clear(m: &mut PeerIndex)
    ensures
        held(*final(m)).dom() == Set::<PeerKey>::empty(),
{
    m.clear()
}

/// The key of an address. Two addresses have the same key only if they
/// are the same.
pub open spec fn key_of(peer: PeerAddr) -> PeerKey {
    match peer {
        PeerAddr::V4 { v4, port } => (false, v4 as u128, port),
        PeerAddr::V6 { v6, port } => (true, v6, port),
    }
}

/// The key of an address.
pub fn key(peer: PeerAddr) -> (k: PeerKey)
    ensures
        k == key_of(peer),
{
    match peer {
        PeerAddr::V4 { v4, port } => (false, v4 as u128, port),
        PeerAddr::V6 { v6, port } => (true, v6, port),
    }
}

/// Different addresses have different keys.
pub proof fn lemma_keys_differ(a: PeerAddr, b: PeerAddr)
    ensures
        key_of(a) == key_of(b) <==> a == b,
{
}

/// A map from peers' addresses to numbers.
pub struct Peers {
    index: PeerIndex,
}

impl View for Peers {
    type V = Map<PeerAddr, usize>;

    /// What the map holds, by address.
    closed spec fn view(&self) -> Map<PeerAddr, usize> {
        Map::new(
            |p: PeerAddr| held(self.index).contains_key(key_of(p)),
            |p: PeerAddr| held(self.index)[key_of(p)],
        )
    }
}

impl Peers {
    /// A map that holds nothing.
    pub fn new() -> (peers: Peers)
        ensures
            peers@ == Map::<PeerAddr, usize>::empty(),
    {
        let peers = Peers { index: held_new() };
        assert(peers@ =~= Map::<PeerAddr, usize>::empty());
        peers
    }

    /// The number under `peer`, if there is one.
    pub fn get(&self, peer: PeerAddr) -> (v: Option<usize>)
        ensures
            v is Some <==> self@.contains_key(peer),
            v matches Some(val) ==> val == self@[peer],
    {
        held_get(&self.index, key(peer))
    }

    /// Puts `val` under `peer` and hands back what was there.
    pub fn insert(&mut self, peer: PeerAddr, val: usize) -> (prev: Option<usize>)
        ensures
            final(self)@ == old(self)@.insert(peer, val),
            prev is Some <==> old(self)@.contains_key(peer),
            prev matches Some(was) ==> was == old(self)@[peer],
    {
        let prev = held_insert(&mut self.index, key(peer), val);
        proof {
            assert forall|p: PeerAddr| key_of(p) == key_of(peer) implies p == peer by {
                lemma_keys_differ(p, peer);
            }
            assert(final(self)@ =~= old(self)@.insert(peer, val));
        }
        prev
    }

    /// Takes out what is under `peer` and hands it back.
    pub fn remove(&mut self, peer: PeerAddr) -> (prev: Option<usize>)
        ensures
            final(self)@ == old(self)@.remove(peer),
            prev is Some <==> old(self)@.contains_key(peer),
            prev matches Some(was) ==> was == old(self)@[peer],
    {
        let prev = held_remove(&mut self.index, key(peer));
        proof {
            assert forall|p: PeerAddr| key_of(p) == key_of(peer) implies p == peer by {
                lemma_keys_differ(p, peer);
            }
            assert(final(self)@ =~= old(self)@.remove(peer));
        }
        prev
    }

    /// Takes everything out.
    pub fn clear(&mut self)
        ensures
            final(self)@ == Map::<PeerAddr, usize>::empty(),
    {
        held_clear(&mut self.index);
        assert(final(self)@ =~= Map::<PeerAddr, usize>::empty());
    }
}

} // verus!
