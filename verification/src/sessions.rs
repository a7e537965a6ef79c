use vstd::prelude::*;

verus! {

/// The set of peers, by address name, with whom a session has been set up
/// or imported.
pub struct SessionMap {
    peers: Vec<String>,
}

impl SessionMap {
    spec fn names(self) -> Seq<Seq<char>> {
        self.peers@.map_values(|p: String| p@)
    }

    #[verifier::type_invariant]
    spec fn no_repeats(self) -> bool {
        self.names().no_duplicates()
    }

    /// The peers recorded.
    pub closed spec fn peer_set(self) -> Set<Seq<char>> {
        self.names().to_set()
    }

    /// An empty registry.
    pub fn new() -> (m: SessionMap)
        ensures
            m@ == Set::<Seq<char>>::empty(),
    {
        let m = SessionMap { peers: Vec::new() };
        assert(m.peer_set() =~= Set::<Seq<char>>::empty());
        m
    }

    /// Position of `peer` in the list, if it is there.
    fn position(&self, peer: &String) -> (r: Option<usize>)
        ensures
            r matches Some(i) ==> i < self.peers@.len() && self.names()[i as int] == peer@,
            r is None ==> !self.names().contains(peer@),
    {
        let mut i: usize = 0;
        while i < self.peers.len()
            invariant
                i <= self.peers@.len(),
                forall|j: int| 0 <= j < i ==> self.names()[j] != peer@,
            decreases self.peers@.len() - i,
        {
            if self.peers[i] == *peer {
                return Some(i);
            }
            i = i + 1;
        }
        None
    }

    /// Whether `peer` is recorded.
    pub fn contains(&self, peer: &String) -> (r: bool)
        ensures
            r == self@.contains(peer@),
    {
        self.position(peer).is_some()
    }

    /// Records `peer`; recording a peer twice keeps one entry.
    pub fn insert(&mut self, peer: String)
        ensures
            final(self)@ == old(self)@.insert(peer@),
    {
        proof {
            use_type_invariant(&*self);
        }
        let ghost old_names = self.names();
        let ghost p = peer@;
        if self.position(&peer).is_none() {
            let mut peers: Vec<String> = Vec::new();
            std::mem::swap(&mut peers, &mut self.peers);
            peers.push(peer);
            assert(peers@.map_values(|s: String| s@) =~= old_names.push(p));
            proof {
                old_names.lemma_push_to_set_commute(p);
            }
            self.peers = peers;
        } else {
            assert(old_names.to_set().insert(p) =~= old_names.to_set());
        }
    }

    /// Forgets `peer`; every other peer stays recorded.
    pub fn remove(&mut self, peer: &String)
        ensures
            final(self)@ == old(self)@.remove(peer@),
    {
        proof {
            use_type_invariant(&*self);
        }
        let ghost old_names = self.names();
        match self.position(peer) {
            None => {
                assert(old_names.to_set().remove(peer@) =~= old_names.to_set());
            },
            Some(i) => {
                let mut peers: Vec<String> = Vec::new();
                std::mem::swap(&mut peers, &mut self.peers);
                let _ = peers.remove(i);
                let ghost new_names = peers@.map_values(|s: String| s@);
                assert(new_names =~= old_names.remove(i as int));
                assert forall|a: int, b: int|
                    0 <= a < new_names.len() && 0 <= b < new_names.len() && a != b
                        implies new_names[a] != new_names[b] by {
                    let oa = if a < i { a } else { a + 1 };
                    let ob = if b < i { b } else { b + 1 };
                    assert(new_names[a] == old_names[oa]);
                    assert(new_names[b] == old_names[ob]);
                }
                self.peers = peers;
                assert forall|q: Seq<char>| #[trigger] new_names.contains(q) <==> old_names.to_set().remove(
                    peer@,
                ).contains(q) by {
                    if new_names.contains(q) {
                        let j = choose|j: int| 0 <= j < new_names.len() && new_names[j] == q;
                        let oj = if j < i { j } else { j + 1 };
                        assert(old_names[oj] == q);
                        assert(oj != i);
                    }
                    if old_names.contains(q) && q != peer@ {
                        let oj = choose|j: int| 0 <= j < old_names.len() && old_names[j] == q;
                        let j = if oj < i { oj } else { oj - 1 };
                        assert(new_names[j] == q);
                    }
                }
                assert(self.peer_set() =~= old_names.to_set().remove(peer@));
            },
        }
    }

    /// Forgets every peer and returns how many were recorded, as the low 32
    /// bits of the count.
    pub fn clear(&mut self) -> (count: u32)
        ensures
            final(self)@ == Set::<Seq<char>>::empty(),
            count == old(self)@.len() as u32,
            old(self)@.finite(),
    {
        proof {
            use_type_invariant(&*self);
            self.names().unique_seq_to_set();
        }
        let count = self.peers.len() as u32;
        self.peers = Vec::new();
        assert(self.peer_set() =~= Set::<Seq<char>>::empty());
        count
    }
}

impl View for SessionMap {
    type V = Set<Seq<char>>;

    open spec fn view(&self) -> Set<Seq<char>> {
        self.peer_set()
    }
}

/// Whether a session with `peer_address` has been recorded.
pub fn has_signal_session(sessions: &SessionMap, peer_address: &String) -> (r: bool)
    ensures
        r == sessions@.contains(peer_address@),
{
    sessions.contains(peer_address)
}

/// Forgets every recorded session and returns how many there were (low 32
/// bits of the count).
pub fn clear_all_signal_sessions(sessions: &mut SessionMap) -> (count: u32)
    ensures
        final(sessions)@ == Set::<Seq<char>>::empty(),
        count == old(sessions)@.len() as u32,
{
    sessions.clear()
}

} // verus!
