//! Bookkeeping of the peers that the node is connected to, bounded by a
//! capacity.

use vstd::prelude::*;
use std::time::SystemTime;
use crate::peer_addr::PeerAddr;

verus! {

/// Connection state including connection initialisation time
#[derive(Debug, Copy, Clone)]
pub struct Metadata {
    pub created_at: SystemTime,
}

/// ConnectionManager maps a peer's address to metadata about the connection,
/// and holds at most `capacity` peers.
pub struct ConnectionManager {
    capacity: usize,
    /// One entry per connected peer, no address twice.
    peers: Vec<(PeerAddr, Metadata)>,
}

impl View for ConnectionManager {
    /// The connected peers, by their address.
    type V = Map<(Seq<char>, u32), Metadata>;

    closed spec fn view(&self) -> Map<(Seq<char>, u32), Metadata> {
        Map::new(
            |k: (Seq<char>, u32)| self.keys().contains(k),
            |k: (Seq<char>, u32)| self.peers@[self.keys().index_of(k)].1,
        )
    }
}

pub open spec fn entry_key(entry: (PeerAddr, Metadata)) -> (Seq<char>, u32) {
    entry.0@
}

impl ConnectionManager {
    /// The addresses of the connected peers, in storage order.
    closed spec fn keys(&self) -> Seq<(Seq<char>, u32)> {
        self.peers@.map_values(|e: (PeerAddr, Metadata)| entry_key(e))
    }

    /// The largest number of peers that the manager holds.
    pub closed spec fn capacity(&self) -> nat {
        self.capacity as nat
    }

    /// No address is held twice, and no more peers than the capacity.
    pub closed spec fn wf(&self) -> bool {
        &&& self.keys().no_duplicates()
        &&& self.peers@.len() <= self.capacity
    }

    proof fn lemma_len(&self)
        requires
            self.wf(),
        ensures
            self@.dom().finite(),
            self@.dom().len() == self.peers@.len(),
    {
        assert(self@.dom() =~= self.keys().to_set());
        self.keys().unique_seq_to_set();
    }

    proof fn lemma_lookup(&self, i: int)
        requires
            self.wf(),
            0 <= i < self.peers@.len(),
        ensures
            self@.contains_key(self.peers@[i].0@),
            self@[self.peers@[i].0@] == self.peers@[i].1,
    {
        let k = self.peers@[i].0@;
        assert(self.keys()[i] == k);
        assert(self.keys().contains(k));
        let j = self.keys().index_of(k);
        assert(self.keys()[j] == k);
    }

    /// A manager holding no peers that will hold at most `capacity` of them.
    pub fn new(capacity: usize) -> (m: Self)
        ensures
            m.wf(),
            m@ == Map::<(Seq<char>, u32), Metadata>::empty(),
            m.capacity() == capacity,
    {
        let m = ConnectionManager { capacity, peers: Vec::new() };
        assert(m@ =~= Map::<(Seq<char>, u32), Metadata>::empty());
        m
    }

    /// The index of `addr` among the stored peers, if it is there.
    fn find(&self, addr: &PeerAddr) -> (r: Option<usize>)
        requires
            self.wf(),
        ensures
            match r {
                Some(i) => i < self.peers@.len() && self.peers@[i as int].0@ == addr@,
                None => !self@.contains_key(addr@),
            },
    {
        let n = self.peers.len();
        let mut i: usize = 0;
        while i < n
            invariant
                n == self.peers@.len(),
                i <= n,
                forall|j: int| 0 <= j < i ==> self.peers@[j].0@ != addr@,
            decreases n - i,
        {
            if self.peers[i].0.same_as(addr) {
                return Some(i);
            }
            i = i + 1;
        }
        proof {
            if self.keys().contains(addr@) {
                let j = self.keys().index_of(addr@);
                assert(self.keys()[j] == addr@);
            }
        }
        None
    }

    /// Insert a new peer's address and metadata. When the manager already
    /// holds `capacity` peers the insertion is refused and nothing changes;
    /// otherwise the peer's metadata is set, and the metadata it replaced, if
    /// any, is returned.
    pub fn insert(&mut self, addr: PeerAddr, s: Metadata) -> (r: Result<Option<Metadata>, String>)
        requires
            old(self).wf(),
        ensures
            final(self).wf(),
            final(self).capacity() == old(self).capacity(),
            old(self)@.len() >= old(self).capacity() <==> r is Err,
            match r {
                Err(e) => e@ == "Connection limit reached"@ && final(self)@ == old(self)@,
                Ok(replaced) => {
                    &&& final(self)@ == old(self)@.insert(addr@, s)
                    &&& final(self)@.len() == old(self)@.len() + if old(self)@.contains_key(addr@) {
                        0int
                    } else {
                        1int
                    }
                    &&& replaced == if old(self)@.contains_key(addr@) {
                        Some(old(self)@[addr@])
                    } else {
                        None
                    }
                },
            },
    {
        proof {
            self.lemma_len();
        }
        if self.peers.len() >= self.capacity {
            return Err(String::from_str("Connection limit reached"));
        }
        let ghost before = *self;
        let ghost key = addr@;
        match self.find(&addr) {
            Some(i) => {
                let previous = self.peers[i].1;
                proof {
                    before.lemma_lookup(i as int);
                }
                self.peers.set(i, (addr, s));
                proof {
                    assert(self.keys() =~= before.keys());
                    assert(before.keys()[i as int] == key);
                    assert(self@.dom() =~= before@.insert(key, s).dom());
                    assert forall|k: (Seq<char>, u32)| #[trigger] self@.contains_key(k) implies self@[k] == before@.insert(key, s)[k] by {
                        let j = self.keys().index_of(k);
                        assert(self.keys()[j] == k);
                        self.lemma_lookup(j);
                        if j != i {
                            before.lemma_lookup(j);
                        }
                    }
                    assert(self@ =~= before@.insert(key, s));
                    self.lemma_len();
                }
                Ok(Some(previous))
            },
            None => {
                self.peers.push((addr, s));
                proof {
                    assert(self.keys() =~= before.keys().push(key));
                    assert(!before.keys().contains(key));
                    assert(self.keys().no_duplicates());
                    assert forall|k: (Seq<char>, u32)| self.keys().contains(k) <==> (before.keys().contains(k) || k == key) by {
                        if before.keys().contains(k) {
                            let j = before.keys().index_of(k);
                            assert(self.keys()[j] == k);
                        }
                        if k == key {
                            assert(self.keys()[before.keys().len() as int] == k);
                        }
                        if self.keys().contains(k) {
                            let j = self.keys().index_of(k);
                            if j < before.keys().len() {
                                assert(before.keys()[j] == k);
                            }
                        }
                    }
                    assert(self@.dom() =~= before@.insert(key, s).dom());
                    assert forall|k: (Seq<char>, u32)| #[trigger] self@.contains_key(k) implies self@[k] == before@.insert(key, s)[k] by {
                        let j = self.keys().index_of(k);
                        assert(self.keys()[j] == k);
                        self.lemma_lookup(j);
                        if j < before.peers@.len() {
                            before.lemma_lookup(j);
                        }
                    }
                    assert(self@ =~= before@.insert(key, s));
                    self.lemma_len();
                }
                Ok(None)
            },
        }
    }

    /// Remove a peer's address, returning its metadata if it was held.
    pub fn remove(&mut self, addr: &PeerAddr) -> (r: Option<Metadata>)
        requires
            old(self).wf(),
        ensures
            final(self).wf(),
            final(self).capacity() == old(self).capacity(),
            final(self)@ == old(self)@.remove(addr@),
            final(self)@.len() == old(self)@.len() - if old(self)@.contains_key(addr@) {
                1int
            } else {
                0int
            },
            r == if old(self)@.contains_key(addr@) {
                Some(old(self)@[addr@])
            } else {
                None
            },
    {
        let ghost before = *self;
        match self.find(addr) {
            Some(i) => {
                proof {
                    before.lemma_lookup(i as int);
                }
                let (_, metadata) = self.peers.remove(i);
                proof {
                    assert(self.keys() =~= before.keys().remove(i as int));
                    assert(before.keys()[i as int] == addr@);
                    assert(self.keys().no_duplicates());
                    assert forall|k: (Seq<char>, u32)| #[trigger] self@.contains_key(k) implies self@[k] == before@.remove(addr@)[k] by {
                        let j = self.keys().index_of(k);
                        assert(self.keys()[j] == k);
                        self.lemma_lookup(j);
                        if j < i {
                            before.lemma_lookup(j);
                        } else {
                            before.lemma_lookup(j + 1);
                        }
                    }
                    assert forall|k: (Seq<char>, u32)| #[trigger] before@.remove(addr@).contains_key(k) implies self@.contains_key(k) by {
                        let j = before.keys().index_of(k);
                        assert(before.keys()[j] == k);
                        if j < i {
                            assert(self.keys()[j] == k);
                        } else {
                            assert(self.keys()[j - 1] == k);
                        }
                    }
                    assert(self@ =~= before@.remove(addr@));
                    self.lemma_len();
                    before.lemma_len();
                }
                Some(metadata)
            },
            None => {
                assert(self@ =~= before@.remove(addr@));
                None
            },
        }
    }

    /// Find the metadata for a peer's address
    pub fn get(&self, addr: &PeerAddr) -> (r: Option<Metadata>)
        requires
            self.wf(),
        ensures
            r == if self@.contains_key(addr@) {
                Some(self@[addr@])
            } else {
                None
            },
    {
        match self.find(addr) {
            Some(i) => {
                proof {
                    self.lemma_lookup(i as int);
                }
                Some(self.peers[i].1)
            },
            None => None,
        }
    }

    /// Returns the number of connections
    pub fn num_connections(&self) -> (n: usize)
        requires
            self.wf(),
        ensures
            n == self@.len(),
    {
        proof {
            self.lemma_len();
        }
        self.peers.len()
    }
}

} // verus!

verus! {

/// The manager never holds more peers than its capacity.
pub proof fn connections_within_capacity(m: ConnectionManager)
    requires
        m.wf(),
    ensures
        m@.len() <= m.capacity(),
{
    m.lemma_len();
}

/// What a lookup reads is what the last registration wrote: once `insert`
/// has registered `addr` with `s` (taking `before` to `after`), `get` on
/// `after` finds `s` for `addr`, and every other peer is found as it was.
pub proof fn lookup_after_insert(
    before: ConnectionManager,
    after: ConnectionManager,
    addr: PeerAddr,
    s: Metadata,
    other: PeerAddr,
)
    requires
        after@ == before@.insert(addr@, s),
    ensures
        after@.contains_key(addr@),
        after@[addr@] == s,
        other@ != addr@ ==> (after@.contains_key(other@) <==> before@.contains_key(other@)),
        other@ != addr@ && before@.contains_key(other@) ==> after@[other@] == before@[other@],
{
}

/// Closing a connection undoes opening it: registering a peer that was not
/// connected and then removing it gives back the peers held before.
pub proof fn remove_undoes_insert(
    before: ConnectionManager,
    registered: ConnectionManager,
    after: ConnectionManager,
    addr: PeerAddr,
    s: Metadata,
)
    requires
        !before@.contains_key(addr@),
        registered@ == before@.insert(addr@, s),
        after@ == registered@.remove(addr@),
    ensures
        after@ == before@,
{
    assert(before@.insert(addr@, s).remove(addr@) =~= before@);
}

} // verus!
