use vstd::prelude::*;

verus! {

/// Identifier of a network participant, held as the bytes of its encoding.
#[derive(Debug)]
pub struct PeerId {
    pub bytes: Vec<u8>,
}

impl View for PeerId {
    type V = Seq<u8>;

    open spec fn view(&self) -> Seq<u8> {
        self.bytes@
    }
}

impl PeerId {
    /// A second peer identifier with the same bytes.
    pub fn copied(&self) -> (r: PeerId)
        ensures
            r@ == self@,
    {
        PeerId { bytes: self.bytes.clone() }
    }
}

/// The byte strings of a sequence of peers, in order.
pub open spec fn peer_views(peers: Seq<PeerId>) -> Seq<Seq<u8>> {
    peers.map_values(|p: PeerId| p@)
}

/// `set` with `peer` added at the end, unless it is already there.
pub open spec fn insert_peer(set: Seq<Seq<u8>>, peer: Seq<u8>) -> Seq<Seq<u8>> {
    if set.contains(peer) {
        set
    } else {
        set.push(peer)
    }
}

/// `set` with each of `peers` added in turn.
pub open spec fn insert_peers(set: Seq<Seq<u8>>, peers: Seq<Seq<u8>>) -> Seq<Seq<u8>>
    decreases peers.len(),
{
    if peers.len() == 0 {
        set
    } else {
        insert_peer(insert_peers(set, peers.drop_last()), peers.last())
    }
}

/// Whether two byte strings are equal.
pub fn bytes_equal(a: &[u8], b: &[u8]) -> (r: bool)
    ensures
        r == (a@ == b@),
{
    if a.len() != b.len() {
        return false;
    }
    let mut i: usize = 0;
    while i < a.len()
        invariant
            a@.len() == b@.len(),
            i <= a@.len(),
            forall|j: int| 0 <= j < i ==> a@[j] == b@[j],
        decreases a@.len() - i,
    {
        if a[i] != b[i] {
            return false;
        }
        i = i + 1;
    }
    assert(a@ =~= b@);
    true
}

/// Whether `peer` is one of `set`.
pub fn contains_peer(set: &Vec<PeerId>, peer: &PeerId) -> (r: bool)
    ensures
        r == peer_views(set@).contains(peer@),
{
    let mut i: usize = 0;
    while i < set.len()
        invariant
            i <= set@.len(),
            forall|j: int| 0 <= j < i ==> set@[j]@ != peer@,
        decreases set@.len() - i,
    {
        if bytes_equal(set[i].bytes.as_slice(), peer.bytes.as_slice()) {
            assert(peer_views(set@)[i as int] == peer@);
            return true;
        }
        i = i + 1;
    }
    proof {
        if peer_views(set@).contains(peer@) {
            let k = choose|k: int| 0 <= k < peer_views(set@).len() && peer_views(set@)[k] == peer@;
            assert(set@[k]@ == peer@);
        }
    }
    false
}

/// Adds `peer` to `set` unless it is already there; returns whether it was added.
pub fn add_peer(set: &mut Vec<PeerId>, peer: PeerId) -> (added: bool)
    ensures
        peer_views(final(set)@) == insert_peer(peer_views(old(set)@), peer@),
        added == !peer_views(old(set)@).contains(peer@),
{
    if contains_peer(set, &peer) {
        false
    } else {
        set.push(peer);
        assert(peer_views(final(set)@) =~= peer_views(old(set)@).push(peer@));
        true
    }
}

/// Adds each of `peers` to `set` in turn, skipping those already there.
pub fn add_peers(set: &mut Vec<PeerId>, peers: Vec<PeerId>)
    ensures
        peer_views(final(set)@) == insert_peers(peer_views(old(set)@), peer_views(peers@)),
{
    let ghost start = peer_views(set@);
    let mut i: usize = 0;
    while i < peers.len()
        invariant
            i <= peers@.len(),
            peer_views(set@) == insert_peers(start, peer_views(peers@.take(i as int))),
        decreases peers@.len() - i,
    {
        let peer = peers[i].copied();
        add_peer(set, peer);
        proof {
            let next = peer_views(peers@.take(i + 1));
            assert(next.drop_last() =~= peer_views(peers@.take(i as int)));
            assert(next.last() == peers@[i as int]@);
        }
        i = i + 1;
    }
    assert(peers@.take(peers@.len() as int) =~= peers@);
}

/// Inserting a peer keeps every peer already present and adds no duplicate.
pub proof fn lemma_insert_peer(set: Seq<Seq<u8>>, peer: Seq<u8>)
    requires
        set.no_duplicates(),
    ensures
        insert_peer(set, peer).no_duplicates(),
        set.to_set().subset_of(insert_peer(set, peer).to_set()),
        insert_peer(set, peer).to_set() == set.to_set().insert(peer),
{
    let r = insert_peer(set, peer);
    if !set.contains(peer) {
        assert forall|x: Seq<u8>| r.to_set().contains(x) <==> set.to_set().insert(peer).contains(x) by {
            if x == peer {
                assert(r[set.len() as int] == peer);
            }
            if set.contains(x) {
                let k = choose|k: int| 0 <= k < set.len() && set[k] == x;
                assert(r[k] == x);
            }
        }
        assert(r.to_set() =~= set.to_set().insert(peer));
    } else {
        assert(set.to_set().insert(peer) =~= set.to_set());
    }
}

/// Inserting several peers keeps every peer already present, adds each of
/// them, and adds no duplicate.
pub proof fn lemma_insert_peers(set: Seq<Seq<u8>>, peers: Seq<Seq<u8>>)
    requires
        set.no_duplicates(),
    ensures
        insert_peers(set, peers).no_duplicates(),
        insert_peers(set, peers).to_set() == set.to_set().union(peers.to_set()),
    decreases peers.len(),
{
    if peers.len() > 0 {
        let prev = insert_peers(set, peers.drop_last());
        lemma_insert_peers(set, peers.drop_last());
        lemma_insert_peer(prev, peers.last());
        assert(peers.to_set() =~= peers.drop_last().to_set().insert(peers.last())) by {
            assert forall|x: Seq<u8>| peers.to_set().contains(x) implies
                peers.drop_last().to_set().insert(peers.last()).contains(x) by {
                let k = choose|k: int| 0 <= k < peers.len() && peers[k] == x;
                if k < peers.len() - 1 {
                    assert(peers.drop_last()[k] == x);
                }
            }
            assert forall|x: Seq<u8>| peers.drop_last().to_set().contains(x) implies
                peers.to_set().contains(x) by {
                let k = choose|k: int| 0 <= k < peers.drop_last().len() && peers.drop_last()[k] == x;
                assert(peers[k] == x);
            }
        }
        assert(set.to_set().union(peers.to_set()) =~= set.to_set().union(
            peers.drop_last().to_set(),
        ).insert(peers.last()));
    } else {
        assert(peers.to_set() =~= Set::empty());
        assert(set.to_set().union(peers.to_set()) =~= set.to_set());
    }
}

} // verus!
