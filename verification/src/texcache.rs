//! The frame renderer's texture cache: a mapping from opaque texture
//! identifiers to the GPU texture handle and render-state data the embedding
//! associates with each. It is owned exclusively by the renderer and mutated
//! only between frames' draw submissions, so a plain owned mapping with
//! unique keys suffices. Identifiers are opaque integers; the value type is
//! the embedding's own.

use vstd::prelude::*;

verus! {

/// Whether all keys of an entry sequence are distinct.
spec fn unique_keys<V>(s: Seq<(u64, V)>) -> bool {
    forall|i: int, j: int| 0 <= i < j < s.len() ==> s[i].0 != s[j].0
}

/// The mapping an entry sequence denotes; a later entry for the same key
/// wins.
spec fn map_of<V>(s: Seq<(u64, V)>) -> Map<u64, V>
    decreases s.len(),
{
    if s.len() == 0 {
        Map::<u64, V>::empty()
    } else {
        map_of(s.drop_last()).insert(s.last().0, s.last().1)
    }
}

/// How a sequence of additions, applied in order with later entries winning,
/// transforms a texture mapping.
pub open spec fn apply_adds<V>(m: Map<u64, V>, adds: Seq<(u64, V)>) -> Map<u64, V>
    decreases adds.len(),
{
    if adds.len() == 0 {
        m
    } else {
        apply_adds(m, adds.drop_last()).insert(adds.last().0, adds.last().1)
    }
}

proof fn lemma_map_of_contains<V>(s: Seq<(u64, V)>, k: u64)
    ensures
        map_of(s).contains_key(k) <==> exists|i: int| 0 <= i < s.len() && s[i].0 == k,
    decreases s.len(),
{
    if s.len() == 0 {
    } else {
        lemma_map_of_contains(s.drop_last(), k);
        if s.last().0 == k {
            assert(s[s.len() - 1].0 == k);
        } else {
            if exists|i: int| 0 <= i < s.len() && s[i].0 == k {
                let i = choose|i: int| 0 <= i < s.len() && s[i].0 == k;
                assert(s.drop_last()[i].0 == k);
            }
        }
    }
}

proof fn lemma_unique_drop_last<V>(s: Seq<(u64, V)>)
    requires
        unique_keys(s),
        s.len() > 0,
    ensures
        unique_keys(s.drop_last()),
{
    assert forall|i: int, j: int| 0 <= i < j < s.drop_last().len() implies s.drop_last()[i].0 != s
        .drop_last()[j].0 by {
        assert(s.drop_last()[i] == s[i]);
        assert(s.drop_last()[j] == s[j]);
    }
}

proof fn lemma_map_of_index<V>(s: Seq<(u64, V)>, i: int)
    requires
        unique_keys(s),
        0 <= i < s.len(),
    ensures
        map_of(s).contains_key(s[i].0),
        map_of(s)[s[i].0] == s[i].1,
    decreases s.len(),
{
    if i == s.len() - 1 {
    } else {
        lemma_unique_drop_last(s);
        lemma_map_of_index(s.drop_last(), i);
        assert(s.drop_last()[i] == s[i]);
        assert(s.last().0 != s[i].0);
    }
}

proof fn lemma_unique_remove<V>(s: Seq<(u64, V)>, i: int)
    requires
        unique_keys(s),
        0 <= i < s.len(),
    ensures
        unique_keys(s.remove(i)),
        forall|j: int| 0 <= j < s.remove(i).len() ==> s.remove(i)[j].0 != s[i].0,
{
    assert forall|j: int, l: int| 0 <= j < l < s.remove(i).len() implies s.remove(i)[j].0 != s
        .remove(i)[l].0 by {
        if j < i {
            assert(s.remove(i)[j] == s[j]);
        } else {
            assert(s.remove(i)[j] == s[j + 1]);
        }
        if l < i {
            assert(s.remove(i)[l] == s[l]);
        } else {
            assert(s.remove(i)[l] == s[l + 1]);
        }
    }
    assert forall|j: int| 0 <= j < s.remove(i).len() implies s.remove(i)[j].0 != s[i].0 by {
        if j < i {
            assert(s.remove(i)[j] == s[j]);
        } else {
            assert(s.remove(i)[j] == s[j + 1]);
        }
    }
}

proof fn lemma_map_of_remove<V>(s: Seq<(u64, V)>, i: int)
    requires
        unique_keys(s),
        0 <= i < s.len(),
    ensures
        map_of(s.remove(i)) == map_of(s).remove(s[i].0),
    decreases s.len(),
{
    if i == s.len() - 1 {
        assert(s.remove(i) =~= s.drop_last());
        lemma_unique_drop_last(s);
        lemma_map_of_contains(s.drop_last(), s[i].0);
        assert forall|j: int| 0 <= j < s.drop_last().len() implies s.drop_last()[j].0 != s[i].0 by {
            assert(s.drop_last()[j] == s[j]);
        }
        assert(!map_of(s.drop_last()).contains_key(s[i].0));
        assert(map_of(s.drop_last()) =~= map_of(s).remove(s[i].0));
    } else {
        assert(s.remove(i).drop_last() =~= s.drop_last().remove(i));
        assert(s.remove(i).last() == s.last());
        lemma_unique_drop_last(s);
        lemma_map_of_remove(s.drop_last(), i);
        assert(s.drop_last()[i] == s[i]);
        assert(s.last().0 != s[i].0);
        assert(map_of(s.remove(i)) =~= map_of(s).remove(s[i].0));
    }
}

proof fn lemma_map_of_push<V>(s: Seq<(u64, V)>, k: u64, v: V)
    ensures
        map_of(s.push((k, v))) == map_of(s).insert(k, v),
{
    assert(s.push((k, v)).drop_last() =~= s);
    assert(s.push((k, v)).last() == (k, v));
}

/// The texture cache: an owned mapping from texture id to the embedding's
/// per-texture value, abstracted as a [`Map`]. Constructors establish and all
/// methods preserve the well-formedness invariant [`TextureCache::wf`].
pub struct TextureCache<V> {
    entries: Vec<(u64, V)>,
}

impl<V> View for TextureCache<V> {
    type V = Map<u64, V>;

    closed spec fn view(&self) -> Map<u64, V> {
        map_of(self.entries@)
    }
}

impl<V> TextureCache<V> {
    /// The cache's internal invariant: one entry per texture id.
    pub closed spec fn wf(self) -> bool {
        unique_keys(self.entries@)
    }

    pub fn new() -> (r: TextureCache<V>)
        ensures
            r.wf(),
            r@ == Map::<u64, V>::empty(),
    {
        TextureCache { entries: Vec::new() }
    }

    /// The position of `id`'s entry, if any.
    fn find(&self, id: u64) -> (r: Option<usize>)
        ensures
            match r {
                Some(i) => i < self.entries@.len() && self.entries@[i as int].0 == id,
                None => forall|j: int| 0 <= j < self.entries@.len() ==> self.entries@[j].0 != id,
            },
    {
        let n = self.entries.len();
        let mut i: usize = 0;
        while i < n
            invariant
                0 <= i <= n,
                n == self.entries@.len(),
                forall|j: int| 0 <= j < i ==> self.entries@[j].0 != id,
            decreases n - i,
        {
            if self.entries[i].0 == id {
                return Some(i);
            }
            i = i + 1;
        }
        None
    }

    /// Whether the cache holds a texture for `id`.
    pub fn contains(&self, id: u64) -> (r: bool)
        requires
            self.wf(),
        ensures
            r == self@.contains_key(id),
    {
        proof {
            lemma_map_of_contains(self.entries@, id);
        }
        match self.find(id) {
            Some(_) => true,
            None => false,
        }
    }

    /// The value cached for `id`, if any: `Some` exactly when the id is in
    /// the mapping.
    pub fn get(&self, id: u64) -> (r: Option<&V>)
        requires
            self.wf(),
        ensures
            match r {
                Some(v) => self@.contains_key(id) && *v == self@[id],
                None => !self@.contains_key(id),
            },
    {
        proof {
            lemma_map_of_contains(self.entries@, id);
        }
        match self.find(id) {
            Some(i) => {
                proof {
                    lemma_map_of_index(self.entries@, i as int);
                }
                let entry = &self.entries[i];
                Some(&entry.1)
            },
            None => None,
        }
    }

    /// Creates or updates the entry for `id`.
    pub fn insert(&mut self, id: u64, value: V)
        requires
            old(self).wf(),
        ensures
            final(self).wf(),
            final(self)@ == old(self)@.insert(id, value),
    {
        let found = self.find(id);
        match found {
            Some(i) => {
                proof {
                    lemma_unique_remove(self.entries@, i as int);
                    lemma_map_of_remove(self.entries@, i as int);
                }
                let ghost removed = self.entries@.remove(i as int);
                self.entries.remove(i);
                proof {
                    lemma_map_of_push(removed, id, value);
                    assert(old(self)@.remove(id).insert(id, value) =~= old(self)@.insert(
                        id,
                        value,
                    ));
                }
                self.entries.push((id, value));
                proof {
                    assert forall|j: int, l: int|
                        0 <= j < l < self.entries@.len() implies self.entries@[j].0 != self
                        .entries@[l].0 by {
                        if l < self.entries@.len() - 1 {
                            assert(self.entries@[j] == removed[j]);
                            assert(self.entries@[l] == removed[l]);
                        } else if j < self.entries@.len() - 1 {
                            assert(self.entries@[j] == removed[j]);
                        }
                    }
                }
            },
            None => {
                proof {
                    lemma_map_of_push(self.entries@, id, value);
                }
                let ghost before = self.entries@;
                self.entries.push((id, value));
                proof {
                    assert forall|j: int, l: int|
                        0 <= j < l < self.entries@.len() implies self.entries@[j].0 != self
                        .entries@[l].0 by {
                        if l < self.entries@.len() - 1 {
                            assert(self.entries@[j] == before[j]);
                            assert(self.entries@[l] == before[l]);
                        } else if j < self.entries@.len() - 1 {
                            assert(self.entries@[j] == before[j]);
                        }
                    }
                }
            },
        }
    }

    /// Evicts the entry for `id`, if any.
    pub fn remove(&mut self, id: u64)
        requires
            old(self).wf(),
        ensures
            final(self).wf(),
            final(self)@ == old(self)@.remove(id),
    {
        proof {
            lemma_map_of_contains(self.entries@, id);
        }
        let found = self.find(id);
        match found {
            Some(i) => {
                proof {
                    lemma_unique_remove(self.entries@, i as int);
                    lemma_map_of_remove(self.entries@, i as int);
                }
                self.entries.remove(i);
            },
            None => {
                proof {
                    assert(old(self)@ =~= old(self)@.remove(id));
                }
            },
        }
    }

    /// Applies a frame's texture additions and updates in order: each entry
    /// is created or overwritten, a later addition for the same id winning.
    pub fn apply_additions(&mut self, mut additions: Vec<(u64, V)>)
        requires
            old(self).wf(),
        ensures
            final(self).wf(),
            final(self)@ == apply_adds(old(self)@, additions@),
    {
        let ghost all = additions@;
        let mut k: usize = 0;
        let bound = additions.len();
        proof {
            assert(all.take(0) =~= Seq::<(u64, V)>::empty());
        }
        while additions.len() > 0
            invariant
                self.wf(),
                all.len() == bound,
                k + additions@.len() == all.len(),
                additions@ == all.skip(k as int),
                self@ == apply_adds(old(self)@, all.take(k as int)),
            decreases additions@.len(),
        {
            proof {
                assert(all.take(k + 1).drop_last() =~= all.take(k as int));
                assert(all.take(k + 1).last() == all[k as int]);
                assert(additions@[0] == all[k as int]);
            }
            let (id, value) = additions.remove(0);
            self.insert(id, value);
            proof {
                assert(additions@ =~= all.skip(k + 1));
            }
            k = k + 1;
        }
        proof {
            assert(all.take(k as int) =~= all);
        }
    }

    /// Applies a frame's texture removals: evicts every listed id.
    pub fn apply_removals(&mut self, removals: &Vec<u64>)
        requires
            old(self).wf(),
        ensures
            final(self).wf(),
            final(self)@ == old(self)@.remove_keys(removals@.to_set()),
    {
        let n = removals.len();
        let mut j: usize = 0;
        proof {
            assert(removals@.take(0).to_set() =~= Set::<u64>::empty());
            assert(old(self)@.remove_keys(Set::<u64>::empty()) =~= old(self)@);
        }
        while j < n
            invariant
                0 <= j <= n,
                n == removals@.len(),
                self.wf(),
                self@ == old(self)@.remove_keys(removals@.take(j as int).to_set()),
            decreases n - j,
        {
            proof {
                assert forall|k: u64| #[trigger] removals@.take(j + 1).contains(k) implies removals@
                    .take(j as int).contains(k) || k == removals@[j as int] by {
                    let i = choose|i: int|
                        0 <= i < j + 1 && #[trigger] removals@.take(j + 1)[i] == k;
                    if i < j {
                        assert(removals@.take(j as int)[i] == k);
                    }
                }
                assert forall|k: u64|
                    removals@.take(j as int).contains(k) || k == removals@[j as int] implies #[trigger] removals@
                    .take(j + 1).contains(k) by {
                    if removals@.take(j as int).contains(k) {
                        let i = choose|i: int|
                            0 <= i < j && #[trigger] removals@.take(j as int)[i] == k;
                        assert(removals@.take(j + 1)[i] == k);
                    } else {
                        assert(removals@.take(j + 1)[j as int] == k);
                    }
                }
                assert(removals@.take(j + 1).to_set() =~= removals@.take(j as int).to_set().insert(
                    removals@[j as int],
                ));
                assert(self@.remove(removals@[j as int]) =~= old(self)@.remove_keys(
                    removals@.take(j + 1).to_set(),
                ));
            }
            self.remove(removals[j]);
            j = j + 1;
        }
        proof {
            assert(removals@.take(n as int) =~= removals@);
        }
    }
}

} // verus!
