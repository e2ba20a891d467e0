//! The in-memory cache of sessions: a hash map from identifier to session,
//! with the identifiers kept in a list so that the cache can be walked.

use vstd::prelude::*;
use std::collections::HashMap;
use crate::data::{DataModel, SessionData};

verus! {

broadcast use vstd::std_specs::hash::group_hash_axioms;

/// The two parts of the cache: the sessions by identifier, and the
/// identifiers in a list.
struct CacheParts {
    sessions: HashMap<u128, SessionData>,
    order: Vec<u128>,
}

/// The identifiers of the sessions of `cache` that are live at `now`.
pub open spec fn live_in(cache: Map<u128, DataModel>, now: i64) -> Set<u128> {
    Set::new(|id: u128| cache.contains_key(id) && cache[id].live(now))
}

impl View for CacheParts {
    type V = Map<u128, DataModel>;

    closed spec fn view(&self) -> Map<u128, DataModel> {
        Map::new(|id: u128| self.sessions@.contains_key(id), |id: u128| self.sessions@[id]@)
    }
}

impl CacheParts {
    /// The invariant of the cache: the list holds each identifier of the map
    /// once, and no other.
    spec fn wf(&self) -> bool {
        &&& self.order@.no_duplicates()
        &&& forall|id: u128|
            #![trigger self.sessions@.contains_key(id)]
            #![trigger self.order@.contains(id)]
            self.sessions@.contains_key(id) <==> self.order@.contains(id)
    }

    /// The number of sessions in the cache.
    spec fn size(&self) -> nat {
        self.order@.len()
    }

    /// The size is the number of identifiers.
    proof fn lemma_size(&self)
        requires
            self.wf(),
        ensures
            self@.dom().finite(),
            self.size() == self@.dom().len(),
    {
        self.order@.unique_seq_to_set();
        assert(self.order@.to_set() =~= self@.dom());
    }

    /// An empty cache.
    fn new() -> (cache: CacheParts)
        ensures
            cache.wf(),
            cache@ == Map::<u128, DataModel>::empty(),
            cache.size() == 0,
    {
        CacheParts { sessions: HashMap::new(), order: Vec::new() }
    }

    /// Whether the cache holds a session under `id`.
    fn contains(&self, id: u128) -> (found: bool)
        ensures
            found == self@.contains_key(id),
    {
        self.sessions.contains_key(&id)
    }

    /// The session under `id`, if the cache holds one.
    fn get(&self, id: u128) -> (found: Option<&SessionData>)
        ensures
            match found {
                Some(data) => self@.contains_key(id) && self@[id] == data@,
                None => !self@.contains_key(id),
            },
    {
        self.sessions.get(&id)
    }

    /// Puts `data` under `id` and hands out the session that was there.
    fn insert(&mut self, id: u128, data: SessionData) -> (before: Option<SessionData>)
        requires
            old(self).wf(),
        ensures
            final(self).wf(),
            final(self)@ == old(self)@.insert(id, data@),
            final(self).size() == old(self).size() + if old(self)@.contains_key(id) {
                0int
            } else {
                1int
            },
            match before {
                Some(earlier) => old(self)@.contains_key(id) && old(self)@[id] == earlier@,
                None => !old(self)@.contains_key(id),
            },
    {
        if !self.sessions.contains_key(&id) {
            self.order.push(id);
            proof {
                assert forall|other: u128|
                    self.order@.contains(other) <==> (old(self).order@.contains(other) || other
                        == id) by {
                    if old(self).order@.contains(other) {
                        let i = choose|i: int|
                            0 <= i < old(self).order@.len() && old(self).order@[i] == other;
                        assert(self.order@[i] == other);
                    }
                    if other == id {
                        assert(self.order@[old(self).order@.len() as int] == other);
                    }
                }
            }
        }
        self.sessions.insert(id, data)
    }

    /// Takes the session under `id` out of the cache.
    fn remove(&mut self, id: u128) -> (taken: Option<SessionData>)
        requires
            old(self).wf(),
        ensures
            final(self).wf(),
            final(self)@ == old(self)@.remove(id),
            match taken {
                Some(data) => old(self)@.contains_key(id) && old(self)@[id] == data@,
                None => !old(self)@.contains_key(id),
            },
    {
        let taken = self.sessions.remove(&id);
        if taken.is_some() {
            let mut i: usize = 0;
            let total = self.order.len();
            while self.order[i] != id
                invariant
                    self.order@ == old(self).order@,
                    total == self.order@.len(),
                    i < total,
                    exists|k: int| i <= k < self.order@.len() && self.order@[k] == id,
                decreases self.order@.len() - i,
            {
                i += 1;
            }
            self.order.remove(i);
            proof {
                let before = old(self).order@;
                let after = self.order@;
                assert forall|other: u128|
                    after.contains(other) <==> (before.contains(other) && other != id) by {
                    if before.contains(other) && other != id {
                        let x = choose|x: int| 0 <= x < before.len() && before[x] == other;
                        let a = if x < i { x } else { x - 1 };
                        assert(after[a] == other);
                    }
                }
            }
        }
        taken
    }

    /// Takes some session out of the cache, with its identifier; `None` where
    /// the cache is empty.
    fn pop(&mut self) -> (taken: Option<(u128, SessionData)>)
        requires
            old(self).wf(),
        ensures
            final(self).wf(),
            match taken {
                Some((id, data)) => old(self)@.contains_key(id) && old(self)@[id] == data@
                    && final(self)@ == old(self)@.remove(id) && final(self).size() + 1 == old(
                    self,
                ).size(),
                None => old(self)@ == Map::<u128, DataModel>::empty() && final(self)@ == old(self)@
                    && old(self).size() == 0 && final(self).size() == 0,
            },
    {
        match self.order.pop() {
            None => None,
            Some(id) => {
                proof {
                    let before = old(self).order@;
                    assert forall|other: u128|
                        self.order@.contains(other) <==> (before.contains(other) && other
                            != id) by {
                        if self.order@.contains(other) {
                            let a = choose|a: int|
                                0 <= a < self.order@.len() && self.order@[a] == other;
                            assert(before[a] == other);
                        }
                        if before.contains(other) && other != id {
                            let x = choose|x: int| 0 <= x < before.len() && before[x] == other;
                            assert(self.order@[x] == other);
                        }
                    }
                }
                let taken = self.sessions.remove(&id);
                match taken {
                    Some(data) => Some((id, data)),
                    None => None,
                }
            },
        }
    }

    /// The number of sessions in the cache that are live at `now`.
    fn count_live(&self, now: i64) -> (n: usize)
        requires
            self.wf(),
        ensures
            n == live_in(self@, now).len(),
            live_in(self@, now).finite(),
    {
        let mut n: usize = 0;
        let ghost mut seen: Set<u128> = Set::empty();
        let mut i: usize = 0;
        while i < self.order.len()
            invariant
                self.wf(),
                i <= self.order@.len(),
                n <= i,
                seen.finite(),
                n == seen.len(),
                forall|id: u128|
                    seen.contains(id) <==> live_in(self@, now).contains(id) && exists|j: int|
                        0 <= j < i && self.order@[j] == id,
            decreases self.order@.len() - i,
        {
            let id = self.order[i];
            let live = match self.sessions.get(&id) {
                Some(data) => data.is_live(now),
                None => false,
            };
            if live {
                proof {
                    seen = seen.insert(id);
                }
                n += 1;
            }
            i += 1;
        }
        proof {
            assert(seen =~= live_in(self@, now));
        }
        n
    }

    /// The number of sessions in the cache.
    fn len(&self) -> (n: usize)
        ensures
            n == self.size(),
    {
        self.order.len()
    }
}

/// The sessions that are held in memory, by identifier.
pub struct SessionCache {
    parts: CacheParts,
}

impl View for SessionCache {
    type V = Map<u128, DataModel>;

    closed spec fn view(&self) -> Map<u128, DataModel> {
        self.parts@
    }
}

impl SessionCache {
    /// The invariant of the cache: that of its parts.
    #[verifier::type_invariant]
    spec fn well_formed(self) -> bool {
        self.parts.wf()
    }

    /// A cache holds finitely many sessions.
    pub proof fn lemma_view_is_finite(&self)
        ensures
            self@.dom().finite(),
    {
        vstd::std_specs::hash::axiom_hashmap_view_finite_dom(self.parts.sessions);
        assert(self@.dom() =~= self.parts.sessions@.dom());
    }

    /// An empty cache.
    pub fn new() -> (cache: SessionCache)
        ensures
            cache@ == Map::<u128, DataModel>::empty(),
    {
        SessionCache { parts: CacheParts::new() }
    }

    /// Whether the cache holds a session under `id`.
    pub fn contains(&self, id: u128) -> (found: bool)
        ensures
            found == self@.contains_key(id),
    {
        self.parts.contains(id)
    }

    /// The session under `id`, if the cache holds one.
    pub fn get(&self, id: u128) -> (found: Option<&SessionData>)
        ensures
            match found {
                Some(data) => self@.contains_key(id) && self@[id] == data@,
                None => !self@.contains_key(id),
            },
    {
        self.parts.get(id)
    }

    /// Puts `data` under `id` and hands out the session that was there.
    pub fn insert(&mut self, id: u128, data: SessionData) -> (before: Option<SessionData>)
        ensures
            final(self)@ == old(self)@.insert(id, data@),
            final(self)@.dom().finite(),
            match before {
                Some(earlier) => old(self)@.contains_key(id) && old(self)@[id] == earlier@,
                None => !old(self)@.contains_key(id),
            },
    {
        proof {
            use_type_invariant(&*self);
        }
        let mut parts = CacheParts::new();
        std::mem::swap(&mut self.parts, &mut parts);
        let before = parts.insert(id, data);
        proof {
            parts.lemma_size();
        }
        self.parts = parts;
        before
    }

    /// Takes the session under `id` out of the cache.
    pub fn remove(&mut self, id: u128) -> (taken: Option<SessionData>)
        ensures
            final(self)@ == old(self)@.remove(id),
            final(self)@.dom().finite(),
            match taken {
                Some(data) => old(self)@.contains_key(id) && old(self)@[id] == data@,
                None => !old(self)@.contains_key(id),
            },
    {
        proof {
            use_type_invariant(&*self);
        }
        let mut parts = CacheParts::new();
        std::mem::swap(&mut self.parts, &mut parts);
        let taken = parts.remove(id);
        proof {
            parts.lemma_size();
        }
        self.parts = parts;
        taken
    }

    /// Takes some session out of the cache, with its identifier; `None` where
    /// the cache is empty.
    pub fn pop(&mut self) -> (taken: Option<(u128, SessionData)>)
        ensures
            old(self)@.dom().finite(),
            final(self)@.dom().finite(),
            match taken {
                Some((id, data)) => old(self)@.contains_key(id) && old(self)@[id] == data@
                    && final(self)@ == old(self)@.remove(id),
                None => old(self)@ == Map::<u128, DataModel>::empty() && final(self)@ == old(self)@,
            },
    {
        proof {
            use_type_invariant(&*self);
            self.parts.lemma_size();
        }
        let mut parts = CacheParts::new();
        std::mem::swap(&mut self.parts, &mut parts);
        let taken = parts.pop();
        self.parts = parts;
        taken
    }

    /// The number of sessions in the cache that are live at `now`.
    pub fn count_live(&self, now: i64) -> (n: usize)
        ensures
            n == live_in(self@, now).len(),
            live_in(self@, now).finite(),
    {
        proof {
            use_type_invariant(self);
        }
        self.parts.count_live(now)
    }

    /// The number of sessions in the cache.
    pub fn len(&self) -> (n: usize)
        ensures
            n == self@.dom().len(),
            self@.dom().finite(),
    {
        proof {
            use_type_invariant(self);
            self.parts.lemma_size();
        }
        self.parts.len()
    }
}

} // verus!
