use vstd::prelude::*;

use std::collections::HashMap;

use crate::palette::Style;
use crate::palette::style_of;
use crate::palette::style_of_spec;

verus! {

broadcast use vstd::std_specs::hash::group_hash_axioms;

/// The style index a cache state holds, or would next assign, for a thread
/// identity: the already assigned index when the identity is present, else
/// the number of identities seen so far.
pub open spec fn assigned_index(m: Map<u64, u64>, id: u64) -> nat {
    if m.contains_key(id) {
        m[id] as nat
    } else {
        m.len()
    }
}

/// The cache state after a thread identity is seen: unchanged when the
/// identity is present, else extended with the next free style index.
pub open spec fn seen(m: Map<u64, u64>, id: u64) -> Map<u64, u64> {
    if m.contains_key(id) {
        m
    } else {
        m.insert(id, m.len() as u64)
    }
}

/// Some identity holds style index `j` in the cache state.
pub open spec fn index_taken(m: Map<u64, u64>, j: u64) -> bool {
    exists|id: u64| #![trigger m.index(id)] m.contains_key(id) && m[id] == j
}

/// A well-formed cache state: the indices held by the identities seen so far
/// are exactly 0 up to their number, one identity each.
pub open spec fn cache_wf(m: Map<u64, u64>) -> bool {
    &&& forall|id: u64| #[trigger] m.contains_key(id) ==> m[id] < m.len()
    &&& forall|a: u64, b: u64|
        #![trigger m.index(a), m.index(b)]
        m.contains_key(a) && m.contains_key(b) && a != b ==> m[a] != m[b]
    &&& forall|j: u64| j < m.len() ==> #[trigger] index_taken(m, j)
}

/// An append-only store assigning each thread identity, on first sight, the
/// next free style index, and thereafter always the same one. Identities are
/// opaque unsigned values; the order of first sight alone decides the index,
/// never the identity itself.
pub struct ThreadColorCache {
    map: HashMap<u64, u64>,
}

impl ThreadColorCache {
    /// The mapping from thread identity to its assigned style index.
    pub closed spec fn view(&self) -> Map<u64, u64> {
        self.map@
    }

    #[verifier::type_invariant]
    spec fn inv(self) -> bool {
        self.map@.dom().finite() && cache_wf(self.map@)
    }

    /// Creates an empty cache: no identity has a style yet.
    pub fn new() -> (r: ThreadColorCache)
        ensures
            r@ == Map::<u64, u64>::empty(),
            cache_wf(r@),
    {
        ThreadColorCache { map: HashMap::new() }
    }

    /// The number of identities assigned a style so far.
    pub fn len(&self) -> (r: usize)
        ensures
            r == self@.len(),
    {
        self.map.len()
    }

    /// The style index an identity was assigned, if it was seen.
    pub fn index_of(&self, id: u64) -> (r: Option<u64>)
        ensures
            r is Some <==> self@.contains_key(id),
            r matches Some(idx) ==> idx == self@[id],
    {
        match self.map.get(&id) {
            Option::Some(idx) => Option::Some(*idx),
            Option::None => Option::None,
        }
    }

    /// Looks an identity up without assigning anything: the read path of the
    /// cache, answering exactly when the identity was seen before.
    pub fn lookup(&self, id: u64) -> (r: Option<Style>)
        ensures
            r is Some <==> self@.contains_key(id),
            r matches Some(style) ==> style == style_of_spec(self@[id] as nat),
    {
        match self.map.get(&id) {
            Option::Some(idx) => Option::Some(style_of(*idx)),
            Option::None => Option::None,
        }
    }

    /// Returns the style of a thread identity, assigning the next free style
    /// index on first sight and never changing an assignment afterwards.
    pub fn style_for(&mut self, id: u64) -> (r: Style)
        ensures
            final(self)@ == seen(old(self)@, id),
            r == style_of_spec(assigned_index(old(self)@, id)),
            final(self)@.contains_key(id),
            r == style_of_spec(final(self)@[id] as nat),
            cache_wf(final(self)@),
            final(self)@.dom().finite(),
    {
        proof {
            use_type_invariant(&*self);
        }
        let hit: Option<u64> = match self.map.get(&id) {
            Option::Some(idx) => Option::Some(*idx),
            Option::None => Option::None,
        };
        match hit {
            Option::Some(idx) => style_of(idx),
            Option::None => {
                let mut m: HashMap<u64, u64> = HashMap::new();
                std::mem::swap(&mut m, &mut self.map);
                let idx_usize: usize = m.len();
                let idx: u64 = idx_usize as u64;
                m.insert(id, idx);
                proof {
                    lemma_seen_preserves_wf(old(self)@, id);
                    assert(m@ == seen(old(self)@, id));
                }
                self.map = m;
                style_of(idx)
            },
        }
    }
}

/// Seeing an identity keeps the cache well formed, and grows it exactly on
/// first sight.
pub proof fn lemma_seen_preserves_wf(m: Map<u64, u64>, id: u64)
    requires
        m.dom().finite(),
        m.len() <= u64::MAX,
        cache_wf(m),
    ensures
        cache_wf(seen(m, id)),
        seen(m, id).dom().finite(),
        seen(m, id).len() == if m.contains_key(id) {
            m.len()
        } else {
            m.len() + 1
        },
{
    broadcast use vstd::map::group_map_axioms;
    broadcast use vstd::set_lib::group_set_lib_default;
    broadcast use vstd::set::group_set_axioms;

    if !m.contains_key(id) {
        let m2 = seen(m, id);
        assert(m2.dom() == m.dom().insert(id));
        assert(m2.len() == m.len() + 1);
        assert forall|j: u64| j < m2.len() implies #[trigger] index_taken(m2, j) by {
            if j < m.len() {
                assert(index_taken(m, j));
                let w = choose|w: u64| #![trigger m.index(w)] m.contains_key(w) && m[w] == j;
                assert(m2.contains_key(w) && m2[w] == j);
            } else {
                assert(m2.contains_key(id) && m2[id] == j);
            }
        }
    }
}

/// Assigning a style is idempotent: once an identity has been seen, seeing it
/// again neither changes the cache nor the index it answers with.
pub proof fn lemma_style_for_idempotent(m: Map<u64, u64>, id: u64)
    requires
        m.len() <= u64::MAX,
    ensures
        seen(seen(m, id), id) == seen(m, id),
        assigned_index(seen(m, id), id) == assigned_index(m, id),
{
    broadcast use vstd::map::group_map_axioms;

}

/// An assignment never changes: once an identity holds an index, a later
/// first sight of any other identity leaves it exactly as it was.
pub proof fn lemma_assignment_stable(m: Map<u64, u64>, id: u64, other: u64)
    requires
        m.contains_key(id),
    ensures
        seen(m, other).contains_key(id),
        seen(m, other)[id] == m[id],
{
    broadcast use vstd::map::group_map_axioms;

}

/// Uniqueness law: in any reachable cache state the assigned style indices
/// are collision-free and are exactly 0 up to the number of identities seen,
/// whatever the identities are.
pub proof fn lemma_unique_indices(m: Map<u64, u64>)
    requires
        cache_wf(m),
    ensures
        forall|a: u64, b: u64|
            #![trigger m.index(a), m.index(b)]
            m.contains_key(a) && m.contains_key(b) && a != b ==> m[a] != m[b],
        forall|id: u64| #[trigger] m.contains_key(id) ==> m[id] < m.len(),
        forall|j: u64| j < m.len() ==> #[trigger] index_taken(m, j),
{
}

} // verus!
