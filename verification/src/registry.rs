//! The capability registry: the read-only mapping from target-type
//! identifier to description that gates which declarations are recognized.
//!
//! Registry membership is deliberately decoupled from backend availability:
//! a type may be known here and still have no compiler wired for it.  The
//! registry is an explicitly constructed value passed by reference, built
//! once from an external declarative asset and never mutated afterwards.

use vstd::prelude::*;

use crate::strutil::str_eq;

verus! {

/// One registry entry: a target-type identifier and its description.
pub struct RegistryEntry {
    pub id: String,
    pub description: String,
}

impl View for RegistryEntry {
    type V = (Seq<char>, Seq<char>);

    open spec fn view(&self) -> (Seq<char>, Seq<char>) {
        (self.id@, self.description@)
    }
}

/// The registry: an ordered list of entries, looked up first-match.
pub struct Registry {
    entries: Vec<RegistryEntry>,
}

impl View for Registry {
    type V = Seq<(Seq<char>, Seq<char>)>;

    closed spec fn view(&self) -> Seq<(Seq<char>, Seq<char>)> {
        Seq::new(self.entries@.len(), |i: int| self.entries@[i]@)
    }
}

/// Whether some entry of the registry carries the identifier `id`.
pub open spec fn reg_contains(rv: Seq<(Seq<char>, Seq<char>)>, id: Seq<char>) -> bool {
    exists|i: int| 0 <= i < rv.len() && #[trigger] rv[i].0 == id
}

/// The description of the first entry carrying `id`.
pub open spec fn reg_lookup(rv: Seq<(Seq<char>, Seq<char>)>, id: Seq<char>) -> Seq<char>
    decreases rv.len(),
{
    if rv.len() == 0 {
        Seq::empty()
    } else if rv[0].0 == id {
        rv[0].1
    } else {
        reg_lookup(rv.drop_first(), id)
    }
}

/// First-match lookup is pinned down by the position of the first match.
proof fn lemma_reg_lookup(rv: Seq<(Seq<char>, Seq<char>)>, id: Seq<char>, k: nat)
    requires
        k <= rv.len(),
        forall|j: int| 0 <= j < k ==> (#[trigger] rv[j]).0 != id,
        k < rv.len() ==> rv[k as int].0 == id,
    ensures
        k < rv.len() ==> reg_contains(rv, id) && reg_lookup(rv, id) == rv[k as int].1,
        k == rv.len() ==> !reg_contains(rv, id),
    decreases k,
{
    if k == 0 {
        if k == rv.len() {
            assert(forall|i: int| 0 <= i < rv.len() ==> (#[trigger] rv[i]).0 != id);
        }
    } else {
        lemma_reg_lookup(rv.drop_first(), id, (k - 1) as nat);
        assert forall|j: int| 0 <= j < k - 1 implies (#[trigger] rv.drop_first()[j]).0 != id by {
            assert(rv.drop_first()[j] == rv[j + 1]);
        }
        lemma_reg_lookup(rv.drop_first(), id, (k - 1) as nat);
        if k == rv.len() {
            assert forall|i: int| 0 <= i < rv.len() implies (#[trigger] rv[i]).0 != id by {
                if i > 0 {
                    assert(rv.drop_first()[i - 1] == rv[i]);
                    assert(!reg_contains(rv.drop_first(), id));
                }
            }
        } else {
            assert(rv.drop_first()[k - 1] == rv[k as int]);
        }
    }
}

impl Registry {
    /// An empty registry.
    pub fn new() -> (r: Registry)
        ensures
            r@ =~= Seq::<(Seq<char>, Seq<char>)>::empty(),
    {
        Registry { entries: Vec::new() }
    }

    /// Appends one entry; lookups keep returning the first match.
    pub fn insert(&mut self, id: String, description: String)
        ensures
            final(self)@ =~= old(self)@ + seq![(id@, description@)],
    {
        let ghost idv = id@;
        let ghost dv = description@;
        self.entries.push(RegistryEntry { id, description });
    }

    /// A registry built from identifier/description pairs, in order.
    pub fn from_pairs(pairs: Vec<(String, String)>) -> (r: Registry)
        ensures
            r@ =~= pairs.deep_view(),
    {
        let mut reg = Registry::new();
        let mut i: usize = 0;
        while i < pairs.len()
            invariant
                i <= pairs@.len(),
                reg@ =~= pairs.deep_view().take(i as int),
            decreases pairs@.len() - i,
        {
            let (id, description) = (pairs[i].0.clone(), pairs[i].1.clone());
            reg.insert(id, description);
            proof {
                assert(pairs.deep_view().take(i + 1).drop_last() =~= pairs.deep_view().take(
                    i as int,
                ));
                assert(pairs.deep_view()[i as int] == (pairs@[i as int].0@, pairs@[i as int].1@));
                assert(reg@ =~= pairs.deep_view().take(i + 1));
            }
            i = i + 1;
        }
        proof {
            assert(pairs.deep_view().take(pairs@.len() as int) =~= pairs.deep_view());
        }
        reg
    }

    /// The description of `target_id`, when the registry knows it: the sole
    /// gate for "is this target type recognized".
    pub fn describe(&self, target_id: &str) -> (r: Option<String>)
        ensures
            match r {
                Some(d) => reg_contains(self@, target_id@) && d@ == reg_lookup(self@, target_id@),
                None => !reg_contains(self@, target_id@),
            },
    {
        let mut i: usize = 0;
        while i < self.entries.len()
            invariant
                i <= self.entries@.len(),
                forall|j: int| 0 <= j < i ==> (#[trigger] self@[j]).0 != target_id@,
            decreases self.entries@.len() - i,
        {
            if str_eq(self.entries[i].id.as_str(), target_id) {
                proof {
                    lemma_reg_lookup(self@, target_id@, i as nat);
                }
                return Some(self.entries[i].description.clone());
            }
            i = i + 1;
        }
        proof {
            lemma_reg_lookup(self@, target_id@, i as nat);
        }
        None
    }

    /// Whether the registry knows `target_id`.
    pub fn contains(&self, target_id: &str) -> (r: bool)
        ensures
            r == reg_contains(self@, target_id@),
    {
        match self.describe(target_id) {
            Some(_) => true,
            None => false,
        }
    }
}

} // verus!
