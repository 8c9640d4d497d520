//! Requests held back until their peer is connected, kept per peer in the
//! order in which they came.
use vstd::prelude::*;
use crate::network::UiClientRequestRequiringDial;

verus! {

/// The requests held back for one peer.
pub struct PeerRequests {
    pub peer_id: String,
    pub requests: Vec<UiClientRequestRequiringDial>,
}

/// Requests that wait for their peer, by the peer's id.
pub struct RequestBuffer {
    entries: Vec<PeerRequests>,
}

/// The peer that a held-back request is for.
pub open spec fn request_peer(r: UiClientRequestRequiringDial) -> Seq<char> {
    r.event.peer_id@
}

impl RequestBuffer {
    /// Each peer has at most one entry, and no entry is empty.
    pub closed spec fn wf(&self) -> bool {
        &&& forall|i: int, j: int|
            0 <= i < self.entries@.len() && 0 <= j < self.entries@.len() && i != j
                ==> #[trigger] self.entries@[i].peer_id@ != #[trigger] self.entries@[j].peer_id@
        &&& forall|i: int|
            0 <= i < self.entries@.len() ==> #[trigger] self.entries@[i].requests@.len() > 0
    }

    /// The requests held back for each peer that has any, oldest first.
    pub closed spec fn view(&self) -> Map<Seq<char>, Seq<UiClientRequestRequiringDial>> {
        Map::new(
            |p: Seq<char>| exists|i: int| 0 <= i < self.entries@.len() && #[trigger] self.entries@[i].peer_id@ == p,
            |p: Seq<char>|
                self.entries@[choose|i: int| 0 <= i < self.entries@.len() && #[trigger] self.entries@[i].peer_id@ == p].requests@,
        )
    }

    /// The requests held back for `peer`, oldest first; empty when there are none.
    pub open spec fn held_for(&self, peer: Seq<char>) -> Seq<UiClientRequestRequiringDial> {
        if self.view().dom().contains(peer) {
            self.view()[peer]
        } else {
            Seq::empty()
        }
    }

    proof fn lemma_view_at(&self, i: int)
        requires
            self.wf(),
            0 <= i < self.entries@.len(),
        ensures
            self.view().dom().contains(self.entries@[i].peer_id@),
            self.view()[self.entries@[i].peer_id@] == self.entries@[i].requests@,
    {
        let p = self.entries@[i].peer_id@;
        assert(self.view().dom().contains(p));
        let k = choose|k: int| 0 <= k < self.entries@.len() && #[trigger] self.entries@[k].peer_id@ == p;
        assert(k == i);
    }

    /// An empty buffer.
    pub fn new() -> (r: Self)
        ensures
            r.wf(),
            r.view() == Map::<Seq<char>, Seq<UiClientRequestRequiringDial>>::empty(),
    {
        let r = RequestBuffer { entries: Vec::new() };
        assert(r.view() =~= Map::<Seq<char>, Seq<UiClientRequestRequiringDial>>::empty());
        r
    }

    /// The position of `peer`'s entry, if it has one.
    fn find(&self, peer: &String) -> (r: Option<usize>)
        requires
            self.wf(),
        ensures
            match r {
                Some(i) => i < self.entries@.len() && self.entries@[i as int].peer_id@ == peer@,
                None => !self.view().dom().contains(peer@),
            },
    {
        let mut i: usize = 0;
        while i < self.entries.len()
            invariant
                i <= self.entries@.len(),
                forall|k: int| 0 <= k < i ==> #[trigger] self.entries@[k].peer_id@ != peer@,
            decreases self.entries@.len() - i,
        {
            if self.entries[i].peer_id == *peer {
                return Some(i);
            }
            i = i + 1;
        }
        None
    }

    /// Holds back `ev` behind the requests already waiting for its peer.
    pub fn buffer_event(&mut self, ev: UiClientRequestRequiringDial)
        requires
            old(self).wf(),
        ensures
            final(self).wf(),
            final(self).view() == old(self).view().insert(
                request_peer(ev),
                old(self).held_for(request_peer(ev)).push(ev),
            ),
    {
        let ghost old_view = self.view();
        let ghost key = request_peer(ev);
        let ghost old_entries = self.entries@;
        match self.find(&ev.event.peer_id) {
            Some(i) => {
                proof {
                    self.lemma_view_at(i as int);
                }
                let mut entry = self.entries.remove(i);
                entry.requests.push(ev);
                self.entries.push(entry);
                proof {
                    let n = self.entries@.len();
                    assert forall|a: int, b: int|
                        0 <= a < n && 0 <= b < n && a != b implies
                        #[trigger] self.entries@[a].peer_id@ != #[trigger] self.entries@[b].peer_id@ by {
                        let oa = if a == n - 1 { i as int } else if a < i { a } else { a + 1 };
                        let ob = if b == n - 1 { i as int } else if b < i { b } else { b + 1 };
                        assert(self.entries@[a].peer_id@ == old_entries[oa].peer_id@);
                        assert(self.entries@[b].peer_id@ == old_entries[ob].peer_id@);
                    }
                    assert forall|a: int| 0 <= a < n implies #[trigger] self.entries@[a].requests@.len() > 0 by {
                        let oa = if a == n - 1 { i as int } else if a < i { a } else { a + 1 };
                        if a != n - 1 {
                            assert(self.entries@[a] == old_entries[oa]);
                        }
                    }
                    assert(self.wf());
                    let expected = old_view.insert(key, old_view[key].push(ev));
                    assert forall|p: Seq<char>| #[trigger] self.view().dom().contains(p) <==> expected.dom().contains(p) by {
                        if self.view().dom().contains(p) {
                            let a = choose|a: int| 0 <= a < n && #[trigger] self.entries@[a].peer_id@ == p;
                            let oa = if a == n - 1 { i as int } else if a < i { a } else { a + 1 };
                            assert(old_entries[oa].peer_id@ == p);
                        }
                        if expected.dom().contains(p) && p != key {
                            let oa = choose|oa: int| 0 <= oa < old_entries.len() && #[trigger] old_entries[oa].peer_id@ == p;
                            let a = if oa < i { oa } else { oa - 1 };
                            assert(self.entries@[a].peer_id@ == p);
                        }
                        if p == key {
                            assert(self.entries@[n - 1].peer_id@ == p);
                        }
                    }
                    assert forall|p: Seq<char>| #[trigger] self.view().dom().contains(p) implies self.view()[p] == expected[p] by {
                        let a = choose|a: int| 0 <= a < n && #[trigger] self.entries@[a].peer_id@ == p;
                        self.lemma_view_at(a);
                        if a == n - 1 {
                        } else {
                            let oa = if a < i { a } else { a + 1 };
                            assert(self.entries@[a] == old_entries[oa]);
                            assert(old_entries[oa].peer_id@ == p);
                            assert(p != key);
                            let k = choose|k: int| 0 <= k < old_entries.len() && #[trigger] old_entries[k].peer_id@ == p;
                            assert(k == oa);
                        }
                    }
                    assert(self.view() =~= expected);
                }
            },
            None => {
                let mut requests: Vec<UiClientRequestRequiringDial> = Vec::new();
                let peer_id = ev.event.peer_id.clone();
                requests.push(ev);
                self.entries.push(PeerRequests { peer_id, requests });
                proof {
                    let n = self.entries@.len();
                    assert(self.entries@[n - 1].peer_id@ == key);
                    assert forall|a: int| 0 <= a < n - 1 implies #[trigger] self.entries@[a].peer_id@ != key by {
                        assert(self.entries@[a] == old_entries[a]);
                        if self.entries@[a].peer_id@ == key {
                            assert(old_view.dom().contains(key));
                        }
                    }
                    assert forall|a: int, b: int|
                        0 <= a < n && 0 <= b < n && a != b implies
                        #[trigger] self.entries@[a].peer_id@ != #[trigger] self.entries@[b].peer_id@ by {
                        if a < n - 1 && b < n - 1 {
                            assert(self.entries@[a] == old_entries[a]);
                            assert(self.entries@[b] == old_entries[b]);
                        }
                    }
                    assert forall|a: int| 0 <= a < n implies #[trigger] self.entries@[a].requests@.len() > 0 by {
                        if a < n - 1 {
                            assert(self.entries@[a] == old_entries[a]);
                        }
                    }
                    assert(self.wf());
                    let expected = old_view.insert(key, Seq::empty().push(ev));
                    assert forall|p: Seq<char>| #[trigger] self.view().dom().contains(p) <==> expected.dom().contains(p) by {
                        if self.view().dom().contains(p) && p != key {
                            let a = choose|a: int| 0 <= a < n && #[trigger] self.entries@[a].peer_id@ == p;
                            assert(a < n - 1);
                            assert(old_entries[a].peer_id@ == p);
                        }
                        if expected.dom().contains(p) && p != key {
                            let oa = choose|oa: int| 0 <= oa < old_entries.len() && #[trigger] old_entries[oa].peer_id@ == p;
                            assert(self.entries@[oa].peer_id@ == p);
                        }
                    }
                    assert forall|p: Seq<char>| #[trigger] self.view().dom().contains(p) implies self.view()[p] == expected[p] by {
                        let a = choose|a: int| 0 <= a < n && #[trigger] self.entries@[a].peer_id@ == p;
                        self.lemma_view_at(a);
                        if a == n - 1 {
                            assert(self.entries@[a].requests@ =~= Seq::empty().push(ev));
                        } else {
                            assert(self.entries@[a] == old_entries[a]);
                            let k = choose|k: int| 0 <= k < old_entries.len() && #[trigger] old_entries[k].peer_id@ == p;
                            assert(k == a);
                        }
                    }
                    assert(self.view() =~= expected);
                }
            },
        }
    }

    /// Takes out every request held back for `peer`, oldest first.
    pub fn take(&mut self, peer: &String) -> (r: Vec<UiClientRequestRequiringDial>)
        requires
            old(self).wf(),
        ensures
            final(self).wf(),
            r@ == old(self).held_for(peer@),
            final(self).view() == old(self).view().remove(peer@),
    {
        let ghost old_view = self.view();
        let ghost old_entries = self.entries@;
        match self.find(peer) {
            None => {
                assert(self.view() =~= old_view.remove(peer@));
                Vec::new()
            },
            Some(i) => {
                proof {
                    self.lemma_view_at(i as int);
                }
                let entry = self.entries.remove(i);
                proof {
                    let n = self.entries@.len();
                    assert forall|a: int, b: int|
                        0 <= a < n && 0 <= b < n && a != b implies
                        #[trigger] self.entries@[a].peer_id@ != #[trigger] self.entries@[b].peer_id@ by {
                        let oa = if a < i { a } else { a + 1 };
                        let ob = if b < i { b } else { b + 1 };
                        assert(self.entries@[a] == old_entries[oa]);
                        assert(self.entries@[b] == old_entries[ob]);
                    }
                    assert forall|a: int| 0 <= a < n implies #[trigger] self.entries@[a].requests@.len() > 0 by {
                        let oa = if a < i { a } else { a + 1 };
                        assert(self.entries@[a] == old_entries[oa]);
                    }
                    assert(self.wf());
                    let expected = old_view.remove(peer@);
                    assert forall|p: Seq<char>| #[trigger] self.view().dom().contains(p) <==> expected.dom().contains(p) by {
                        if self.view().dom().contains(p) {
                            let a = choose|a: int| 0 <= a < n && #[trigger] self.entries@[a].peer_id@ == p;
                            let oa = if a < i { a } else { a + 1 };
                            assert(self.entries@[a] == old_entries[oa]);
                            assert(oa != i);
                        }
                        if expected.dom().contains(p) {
                            let oa = choose|oa: int| 0 <= oa < old_entries.len() && #[trigger] old_entries[oa].peer_id@ == p;
                            assert(oa != i);
                            let a = if oa < i { oa } else { oa - 1 };
                            assert(self.entries@[a] == old_entries[oa]);
                        }
                    }
                    assert forall|p: Seq<char>| #[trigger] self.view().dom().contains(p) implies self.view()[p] == expected[p] by {
                        let a = choose|a: int| 0 <= a < n && #[trigger] self.entries@[a].peer_id@ == p;
                        self.lemma_view_at(a);
                        let oa = if a < i { a } else { a + 1 };
                        assert(self.entries@[a] == old_entries[oa]);
                        let k = choose|k: int| 0 <= k < old_entries.len() && #[trigger] old_entries[k].peer_id@ == p;
                        assert(k == oa);
                    }
                    assert(self.view() =~= expected);
                }
                entry.requests
            },
        }
    }

    /// The number of requests held back for `peer`.
    pub fn pending(&self, peer: &String) -> (r: usize)
        requires
            self.wf(),
        ensures
            r == self.held_for(peer@).len(),
    {
        match self.find(peer) {
            None => 0,
            Some(i) => {
                proof {
                    self.lemma_view_at(i as int);
                }
                self.entries[i].requests.len()
            },
        }
    }
}

/// Requests held back for a peer come out in the order in which they were
/// held back: holding back `ev` and then taking the requests of its peer
/// gives those held back before, then `ev`; nothing is left for that peer,
/// and every other peer keeps its own.
pub proof fn law_buffer_fifo(
    b: RequestBuffer,
    ev: UiClientRequestRequiringDial,
    pushed: RequestBuffer,
    taken: Seq<UiClientRequestRequiringDial>,
    after: RequestBuffer,
    other: Seq<char>,
)
    requires
        b.wf(),
        pushed.view() == b.view().insert(request_peer(ev), b.held_for(request_peer(ev)).push(ev)),
        taken == pushed.held_for(request_peer(ev)),
        after.view() == pushed.view().remove(request_peer(ev)),
    ensures
        taken == b.held_for(request_peer(ev)).push(ev),
        taken.len() == b.held_for(request_peer(ev)).len() + 1,
        taken.last() == ev,
        after.held_for(request_peer(ev)) == Seq::<UiClientRequestRequiringDial>::empty(),
        other != request_peer(ev) ==> after.held_for(other) == b.held_for(other),
{
}

} // verus!
