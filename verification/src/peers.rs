//! Bookkeeping of the outbound sessions the node holds with its peers.
use std::collections::HashMap;

use vstd::prelude::*;
use vstd::std_specs::hash::spec_hash_map_iter;
use vstd::std_specs::iter::IteratorSpec;

verus! {

broadcast use vstd::std_specs::hash::group_hash_axioms;

/// Whether some session is connected to `address`.
pub open spec fn has_address(peers: Map<usize, Seq<char>>, address: Seq<char>) -> bool {
    exists|s: usize| peers.contains_key(s) && #[trigger] peers[s] == address
}

/// Whether `entries` lists the sessions of `peers`, each once, with its address.
pub open spec fn lists_peers(entries: Seq<(usize, Seq<char>)>, peers: Map<usize, Seq<char>>) -> bool {
    &&& entries.len() == peers.len()
    &&& forall|i: int|
        0 <= i < entries.len() ==> peers.contains_key(#[trigger] entries[i].0) && peers[entries[i].0]
            == entries[i].1
    &&& forall|s: usize| #[trigger]
        peers.contains_key(s) ==> exists|i: int| 0 <= i < entries.len() && #[trigger] entries[i].0 == s
    &&& forall|i: int, j: int|
        0 <= i < entries.len() && 0 <= j < entries.len() && i != j ==> #[trigger] entries[i].0
            != #[trigger] entries[j].0
}

/// What the network service reports about a session.
pub enum PeerEvent {
    /// The protocol was opened on session `session_id` with the peer at `address`; `outbound`
    /// tells whether this node dialed the session.
    Opened { session_id: usize, address: String, outbound: bool },
    /// The protocol was closed on session `session_id`.
    Closed { session_id: usize },
    /// Dialing `address` failed because session `session_id` already connects to it.
    RepeatedConnection { session_id: usize, address: String },
    /// Any other service error; it is only logged.
    OtherError,
}

/// The sessions after `event`: an outbound session that opens, or a session found to exist
/// already when dialing, is recorded; a session that closes is forgotten; nothing else changes.
pub open spec fn peers_after(peers: Map<usize, Seq<char>>, event: PeerEvent) -> Map<usize, Seq<char>> {
    match event {
        PeerEvent::Opened { session_id, address, outbound } => if outbound {
            peers.insert(session_id, address@)
        } else {
            peers
        },
        PeerEvent::Closed { session_id } => peers.remove(session_id),
        PeerEvent::RepeatedConnection { session_id, address } => peers.insert(session_id, address@),
        PeerEvent::OtherError => peers,
    }
}

/// Whether `next` is where a sweep over the configured addresses `wanted` that has reached
/// position `from` dials next: the first address at or after `from` that no session connects to,
/// the ones before it being connected; `None` where every address from `from` on is connected.
pub open spec fn next_dial_at(
    peers: Map<usize, Seq<char>>,
    wanted: Seq<Seq<char>>,
    from: int,
    next: Option<int>,
) -> bool {
    match next {
        Some(i) => {
            &&& from <= i < wanted.len()
            &&& !has_address(peers, wanted[i])
            &&& forall|j: int| from <= j < i ==> #[trigger] has_address(peers, wanted[j])
        },
        None => forall|j: int| from <= j < wanted.len() ==> #[trigger] has_address(peers, wanted[j]),
    }
}

/// Once a session to `address` is recorded, the address is known to be connected, so a sweep
/// passes over it and does not dial it again.
pub proof fn law_recorded_address_is_known(
    peers: Map<usize, Seq<char>>,
    session_id: usize,
    address: Seq<char>,
    wanted: Seq<Seq<char>>,
    from: int,
    next: Option<int>,
)
    requires
        next_dial_at(peers.insert(session_id, address), wanted, from, next),
    ensures
        has_address(peers.insert(session_id, address), address),
        next matches Some(i) ==> wanted[i] != address,
{
    let after = peers.insert(session_id, address);
    assert(after.contains_key(session_id) && after[session_id] == address);
}

/// Whether `after` holds every session other than `session_id` exactly as `before` does: the
/// same sessions, each with the same address.
pub open spec fn others_unchanged(
    before: Map<usize, Seq<char>>,
    after: Map<usize, Seq<char>>,
    session_id: usize,
) -> bool {
    forall|s: usize|
        s != session_id ==> (#[trigger] after.contains_key(s) <==> before.contains_key(s)) && (
        before.contains_key(s) ==> after[s] == before[s])
}

/// When a session closes, that session is forgotten and every other session stays recorded with
/// its address; so the count drops by one exactly when the session was recorded, and an address
/// stays connected while another session still connects to it.
pub proof fn law_close_forgets_only_that_session(
    peers: Map<usize, Seq<char>>,
    session_id: usize,
    address: Seq<char>,
)
    requires
        peers.dom().finite(),
    ensures
        !peers_after(peers, PeerEvent::Closed { session_id }).contains_key(session_id),
        others_unchanged(peers, peers_after(peers, PeerEvent::Closed { session_id }), session_id),
        peers_after(peers, PeerEvent::Closed { session_id }).len() == if peers.contains_key(
            session_id,
        ) {
            peers.len() - 1
        } else {
            peers.len() as int
        },
        (exists|s: usize|
            s != session_id && peers.contains_key(s) && #[trigger] peers[s] == address)
            ==> has_address(peers_after(peers, PeerEvent::Closed { session_id }), address),
{
    let after = peers_after(peers, PeerEvent::Closed { session_id });
    assert(after == peers.remove(session_id));
    if exists|s: usize| s != session_id && peers.contains_key(s) && #[trigger] peers[s] == address {
        let s = choose|s: usize| s != session_id && peers.contains_key(s) && #[trigger] peers[s]
            == address;
        assert(after.contains_key(s) && after[s] == address);
    }
}

/// When dialing finds session `session_id` already connected to `address`, that session is
/// recorded with that address and every other session stays recorded as it was; so the count
/// grows by one exactly when the session was not recorded, and the address counts as connected.
pub proof fn law_repeated_connection_records_session(
    peers: Map<usize, Seq<char>>,
    session_id: usize,
    address: String,
)
    requires
        peers.dom().finite(),
    ensures
        ({
            let after = peers_after(
                peers,
                PeerEvent::RepeatedConnection { session_id, address: address },
            );
            &&& after.contains_key(session_id)
            &&& after[session_id] == address@
            &&& others_unchanged(peers, after, session_id)
            &&& after.len() == if peers.contains_key(session_id) {
                peers.len() as int
            } else {
                peers.len() + 1int
            }
            &&& has_address(after, address@)
        }),
{
    let after = peers_after(peers, PeerEvent::RepeatedConnection { session_id, address: address });
    assert(after == peers.insert(session_id, address@));
    assert(after.contains_key(session_id) && after[session_id] == address@);
}

/// An outbound session that opens is recorded with its address, keeping every other session;
/// an inbound one changes nothing.
pub proof fn law_open_records_outbound_only(
    peers: Map<usize, Seq<char>>,
    session_id: usize,
    address: String,
    outbound: bool,
)
    ensures
        ({
            let after = peers_after(
                peers,
                PeerEvent::Opened { session_id, address: address, outbound },
            );
            &&& outbound ==> after.contains_key(session_id) && after[session_id] == address@
                && others_unchanged(peers, after, session_id)
            &&& !outbound ==> after == peers
        }),
{
}

/// Recording a new session adds one to the count of sessions; recording a known session again
/// leaves the count as it was.
pub proof fn law_count_after_record(peers: Map<usize, Seq<char>>, session_id: usize, address: Seq<char>)
    requires
        peers.dom().finite(),
    ensures
        peers.insert(session_id, address).len() == if peers.contains_key(session_id) {
            peers.len()
        } else {
            peers.len() + 1
        },
{
}

/// Closing a session that was just opened, and was not recorded before, leaves the sessions as
/// they were.
pub proof fn law_close_undoes_open(peers: Map<usize, Seq<char>>, session_id: usize, address: Seq<char>)
    requires
        !peers.contains_key(session_id),
    ensures
        peers.insert(session_id, address).remove(session_id) == peers,
{
    assert(peers.insert(session_id, address).remove(session_id) =~= peers);
}

/// The texts of a list of strings.
pub open spec fn texts(v: Seq<String>) -> Seq<Seq<char>> {
    v.map_values(|s: String| s@)
}

/// The outbound sessions of the node: the session id of each and the address of its peer (the
/// canonical multiaddr text).
pub struct PeersManager {
    outbound_peers: HashMap<usize, String>,
}

impl View for PeersManager {
    type V = Map<usize, Seq<char>>;

    closed spec fn view(&self) -> Map<usize, Seq<char>> {
        self.outbound_peers@.map_values(|a: String| a@)
    }
}

impl PeersManager {
    /// A manager with no sessions.
    pub fn new() -> (r: Self)
        ensures
            r@ == Map::<usize, Seq<char>>::empty(),
    {
        let r = PeersManager { outbound_peers: HashMap::new() };
        proof {
            assert(r@ =~= Map::<usize, Seq<char>>::empty());
        }
        r
    }

    /// Whether some session is connected to `address`.
    pub fn check_addr_exists(&self, address: &String) -> (r: bool)
        ensures
            r == has_address(self@, address@),
    {
        let ghost m = self.outbound_peers@;
        let ghost v = spec_hash_map_iter(&self.outbound_peers).remaining();
        let ghost mut seen: int = 0;
        for (s, a) in it: self.outbound_peers.iter()
            invariant
                m == self.outbound_peers@,
                v == spec_hash_map_iter(&self.outbound_peers).remaining(),
                it.seq() == v,
                seen == it.index(),
                forall|j: int| 0 <= j < seen ==> (#[trigger] v[j]).1@ != address@,
        {
            if *a == *address {
                proof {
                    assert(self@.contains_key(*s) && self@[*s] == address@);
                }
                return true;
            }
            proof {
                seen = seen + 1;
            }
        }
        proof {
            assert forall|s: usize| self@.contains_key(s) implies #[trigger] self@[s] != address@ by {
                assert(v.contains((&s, &m[s])));
                let j = choose|j: int| 0 <= j < v.len() && v[j] == (&s, &m[s]);
                assert(v[j].1@ != address@);
            }
        }
        false
    }

    /// Records that session `session_id` is connected to `address`, replacing what was recorded
    /// for that session.
    pub fn add_peer(&mut self, session_id: usize, address: String)
        ensures
            final(self)@ == old(self)@.insert(session_id, address@),
    {
        self.outbound_peers.insert(session_id, address);
        proof {
            assert(self@ =~= old(self)@.insert(session_id, address@));
        }
    }

    /// Forgets session `session_id`.
    pub fn remove_peer(&mut self, session_id: usize)
        ensures
            final(self)@ == old(self)@.remove(session_id),
    {
        let _ = self.outbound_peers.remove(&session_id);
        proof {
            assert(self@ =~= old(self)@.remove(session_id));
        }
    }

    /// The number of sessions.
    pub fn peer_count(&self) -> (r: u64)
        ensures
            r == self@.len(),
    {
        proof {
            assert(self@.dom() =~= self.outbound_peers@.dom());
        }
        self.outbound_peers.len() as u64
    }

    /// The sessions with their addresses, each once, in no particular order.
    pub fn get_peers(&self) -> (r: Vec<(usize, String)>)
        ensures
            lists_peers(r@.map_values(|e: (usize, String)| (e.0, e.1@)), self@),
    {
        let ghost m = self.outbound_peers@;
        let ghost v = spec_hash_map_iter(&self.outbound_peers).remaining();
        let ghost mut seen: int = 0;
        let mut out: Vec<(usize, String)> = Vec::new();
        for (s, a) in it: self.outbound_peers.iter()
            invariant
                m == self.outbound_peers@,
                v == spec_hash_map_iter(&self.outbound_peers).remaining(),
                it.seq() == v,
                seen == it.index(),
                out@.len() == seen,
                forall|j: int|
                    0 <= j < seen ==> (#[trigger] out@[j]).0 == *v[j].0 && out@[j].1@ == v[j].1@,
        {
            out.push((*s, a.clone()));
            proof {
                seen = seen + 1;
            }
        }
        proof {
            let e = out@.map_values(|e: (usize, String)| (e.0, e.1@));
            assert(self@.dom() =~= m.dom());
            assert(v.len() == m.dom().len());
            assert(e.len() == self@.len());
            assert forall|i: int| 0 <= i < e.len() implies self@.contains_key(#[trigger] e[i].0)
                && self@[e[i].0] == e[i].1 by {
                assert(m.contains_key(*v[i].0) && m[*v[i].0] == *v[i].1);
            }
            assert forall|s: usize| #[trigger] self@.contains_key(s) implies exists|i: int|
                0 <= i < e.len() && #[trigger] e[i].0 == s by {
                assert(v.contains((&s, &m[s])));
                let j = choose|j: int| 0 <= j < v.len() && v[j] == (&s, &m[s]);
                assert(e[j].0 == s);
            }
            assert forall|i: int, j: int|
                0 <= i < e.len() && 0 <= j < e.len() && i != j implies #[trigger] e[i].0
                != #[trigger] e[j].0 by {
                if e[i].0 == e[j].0 {
                    assert(m.contains_key(*v[i].0) && m[*v[i].0] == *v[i].1);
                    assert(m.contains_key(*v[j].0) && m[*v[j].0] == *v[j].1);
                    assert(v[i] == v[j]);
                }
            }
        }
        out
    }
    /// Updates the sessions for what the service reported.
    pub fn apply_event(&mut self, event: PeerEvent)
        ensures
            final(self)@ == peers_after(old(self)@, event),
            match event {
                PeerEvent::Opened { session_id, address, outbound } => if outbound {
                    &&& final(self)@.contains_key(session_id)
                    &&& final(self)@[session_id] == address@
                    &&& others_unchanged(old(self)@, final(self)@, session_id)
                } else {
                    final(self)@ == old(self)@
                },
                PeerEvent::Closed { session_id } => {
                    &&& !final(self)@.contains_key(session_id)
                    &&& others_unchanged(old(self)@, final(self)@, session_id)
                },
                PeerEvent::RepeatedConnection { session_id, address } => {
                    &&& final(self)@.contains_key(session_id)
                    &&& final(self)@[session_id] == address@
                    &&& others_unchanged(old(self)@, final(self)@, session_id)
                },
                PeerEvent::OtherError => final(self)@ == old(self)@,
            },
    {
        match event {
            PeerEvent::Opened { session_id, address, outbound } => {
                if outbound {
                    self.add_peer(session_id, address);
                }
            },
            PeerEvent::Closed { session_id } => {
                self.remove_peer(session_id);
            },
            PeerEvent::RepeatedConnection { session_id, address } => {
                self.add_peer(session_id, address);
            },
            PeerEvent::OtherError => {},
        }
    }

    /// Where a sweep over the configured addresses `wanted` that has reached position `from`
    /// dials next: the first address at or after `from` that no session connects to, if any.
    pub fn next_dial(&self, wanted: &Vec<String>, from: usize) -> (r: Option<usize>)
        ensures
            next_dial_at(
                self@,
                texts(wanted@),
                from as int,
                match r {
                    Some(i) => Some(i as int),
                    None => None,
                },
            ),
    {
        let ghost w = texts(wanted@);
        let n = wanted.len();
        let mut i = from;
        while i < n
            invariant
                n == wanted@.len(),
                w == texts(wanted@),
                from <= i,
                forall|j: int| from <= j < i ==> #[trigger] has_address(self@, w[j]),
            decreases n - i,
        {
            if !self.check_addr_exists(&wanted[i]) {
                return Some(i);
            }
            i = i + 1;
        }
        None
    }

    /// The sessions as the network status reports them: the address of each peer with the
    /// session's id, each session once, in no particular order.
    pub fn peers_net_info(&self) -> (r: Vec<(String, u64)>)
        ensures
            lists_peers(r@.map_values(|e: (String, u64)| (e.1 as usize, e.0@)), self@),
            forall|i: int| 0 <= i < r@.len() ==> (#[trigger] r@[i]).1 <= usize::MAX,
    {
        let peers = self.get_peers();
        let ghost listed = peers@.map_values(|e: (usize, String)| (e.0, e.1@));
        let mut out: Vec<(String, u64)> = Vec::new();
        let n = peers.len();
        for i in 0..n
            invariant
                n == peers@.len(),
                listed == peers@.map_values(|e: (usize, String)| (e.0, e.1@)),
                lists_peers(listed, self@),
                out@.len() == i,
                forall|j: int|
                    0 <= j < i ==> (#[trigger] out@[j]).1 == peers@[j].0 as u64 && out@[j].0@
                        == peers@[j].1@,
        {
            let (session_id, address) = (peers[i].0, peers[i].1.clone());
            out.push((address, session_id as u64));
        }
        proof {
            let e = out@.map_values(|e: (String, u64)| (e.1 as usize, e.0@));
            assert(e =~= listed);
        }
        out
    }
}

} // verus!
