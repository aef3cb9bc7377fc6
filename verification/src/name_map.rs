//! A small name-keyed map used for every namespace in the database:
//! a module's declared items, its submodules, its resolved imports, an
//! enum's items and methods, and a scope's generic parameters. Keys are
//! interned identifiers; the abstract value is a `Map<u64, V>`.

use vstd::prelude::*;

verus! {

/// Abstraction of an association list as a map: later entries win,
/// matching insertion order.
pub open spec fn assoc_map<V>(s: Seq<(u64, V)>) -> Map<u64, V>
    decreases s.len(),
{
    if s.len() == 0 {
        Map::empty()
    } else {
        assoc_map(s.drop_last()).insert(s.last().0, s.last().1)
    }
}

/// No two entries share a key.
pub open spec fn keys_distinct<V>(s: Seq<(u64, V)>) -> bool {
    forall|i: int, j: int| 0 <= i < j < s.len() ==> s[i].0 != s[j].0
}

proof fn lemma_assoc_map_contains<V>(s: Seq<(u64, V)>, k: u64)
    ensures
        assoc_map(s).contains_key(k) <==> exists|i: int| 0 <= i < s.len() && s[i].0 == k,
    decreases s.len(),
{
    if s.len() > 0 {
        lemma_assoc_map_contains(s.drop_last(), k);
        if s.last().0 == k {
            assert(s[s.len() - 1].0 == k);
        } else {
            if assoc_map(s).contains_key(k) {
                let i = choose|i: int| 0 <= i < s.drop_last().len() && s.drop_last()[i].0 == k;
                assert(s[i].0 == k);
            }
            if exists|i: int| 0 <= i < s.len() && s[i].0 == k {
                let i = choose|i: int| 0 <= i < s.len() && s[i].0 == k;
                assert(s.drop_last()[i].0 == k);
            }
        }
    }
}

proof fn lemma_assoc_map_value<V>(s: Seq<(u64, V)>, i: int)
    requires
        keys_distinct(s),
        0 <= i < s.len(),
    ensures
        assoc_map(s).contains_key(s[i].0),
        assoc_map(s)[s[i].0] == s[i].1,
    decreases s.len(),
{
    if i < s.len() - 1 {
        assert(s.drop_last()[i] == s[i]);
        lemma_assoc_map_value(s.drop_last(), i);
        assert(s.last().0 != s[i].0);
    }
}

proof fn lemma_assoc_map_update<V>(s: Seq<(u64, V)>, i: int, v: V)
    requires
        keys_distinct(s),
        0 <= i < s.len(),
    ensures
        assoc_map(s.update(i, (s[i].0, v))) =~= assoc_map(s).insert(s[i].0, v),
    decreases s.len(),
{
    let k = s[i].0;
    let t = s.update(i, (k, v));
    if i == s.len() - 1 {
        assert(t.drop_last() =~= s.drop_last());
    } else {
        lemma_assoc_map_update(s.drop_last(), i, v);
        assert(t.drop_last() =~= s.drop_last().update(i, (k, v)));
        assert(t.last() == s.last());
        assert(s.last().0 != k);
    }
}

/// A name-keyed map with insert-or-overwrite semantics. Viewed as a
/// `Map<u64, V>` in specifications.
#[derive(Debug)]
pub struct NameMap<V> {
    entries: Vec<(u64, V)>,
}

impl<V> NameMap<V> {
    #[verifier::type_invariant]
    spec fn inv(self) -> bool {
        keys_distinct(self.entries@)
    }
}

impl<V> View for NameMap<V> {
    type V = Map<u64, V>;

    closed spec fn view(&self) -> Map<u64, V> {
        assoc_map(self.entries@)
    }
}

impl<V: Copy> NameMap<V> {
    /// Creates an empty map.
    pub fn new() -> (r: Self)
        ensures
            r@ == Map::<u64, V>::empty(),
    {
        NameMap { entries: Vec::new() }
    }

    /// Looks a name up.
    pub fn get(&self, key: u64) -> (r: Option<V>)
        ensures
            r == if self@.contains_key(key) {
                Some(self@[key])
            } else {
                None::<V>
            },
    {
        proof {
            use_type_invariant(self);
            lemma_assoc_map_contains(self.entries@, key);
        }
        let n: usize = self.entries.len();
        let mut i: usize = 0;
        while i < n
            invariant
                n == self.entries@.len(),
                0 <= i <= n,
                keys_distinct(self.entries@),
                forall|j: int| 0 <= j < i ==> self.entries@[j].0 != key,
                assoc_map(self.entries@).contains_key(key) <==> exists|j: int|
                    0 <= j < n && self.entries@[j].0 == key,
            decreases n - i,
        {
            if self.entries[i].0 == key {
                proof {
                    lemma_assoc_map_value(self.entries@, i as int);
                }
                return Some(self.entries[i].1);
            }
            i += 1;
        }
        None
    }

    /// Tests whether a name is bound.
    pub fn contains_key(&self, key: u64) -> (r: bool)
        ensures
            r == self@.contains_key(key),
    {
        self.get(key).is_some()
    }

    /// Binds a name, overwriting any existing binding of the same name.
    pub fn insert(&mut self, key: u64, value: V)
        ensures
            final(self)@ == old(self)@.insert(key, value),
    {
        proof {
            use_type_invariant(&*self);
            lemma_assoc_map_contains(self.entries@, key);
        }
        let n: usize = self.entries.len();
        let mut i: usize = 0;
        while i < n
            invariant
                n == self.entries@.len(),
                0 <= i <= n,
                keys_distinct(self.entries@),
                self.entries@ == old(self).entries@,
                forall|j: int| 0 <= j < i ==> self.entries@[j].0 != key,
            decreases n - i,
        {
            if self.entries[i].0 == key {
                proof {
                    lemma_assoc_map_update(self.entries@, i as int, value);
                    assert(keys_distinct(self.entries@.update(i as int, (key, value))));
                }
                let mut entries: Vec<(u64, V)> = Vec::new();
                core::mem::swap(&mut entries, &mut self.entries);
                entries[i] = (key, value);
                core::mem::swap(&mut entries, &mut self.entries);
                return ;
            }
            i += 1;
        }
        let ghost s = self.entries@;
        let mut entries: Vec<(u64, V)> = Vec::new();
        core::mem::swap(&mut entries, &mut self.entries);
        entries.push((key, value));
        proof {
            assert(entries@.drop_last() =~= s);
        }
        core::mem::swap(&mut entries, &mut self.entries);
    }

    /// The number of bound names.
    pub fn len(&self) -> (r: usize)
        ensures
            r == self@.dom().len(),
    {
        proof {
            use_type_invariant(self);
            lemma_assoc_map_len(self.entries@);
        }
        self.entries.len()
    }

    /// All bindings, in insertion order.
    pub fn entries_vec(&self) -> (r: Vec<(u64, V)>)
        ensures
            forall|i: int|
                0 <= i < r@.len() ==> self@.contains_key(#[trigger] r@[i].0) && self@[r@[i].0]
                    == r@[i].1,
            forall|k: u64|
                #[trigger] self@.contains_key(k) ==> exists|i: int|
                    0 <= i < r@.len() && r@[i] == (k, self@[k]),
    {
        proof {
            use_type_invariant(self);
        }
        let n: usize = self.entries.len();
        let mut r: Vec<(u64, V)> = Vec::new();
        let mut i: usize = 0;
        while i < n
            invariant
                n == self.entries@.len(),
                0 <= i <= n,
                keys_distinct(self.entries@),
                r@.len() == i,
                forall|j: int| 0 <= j < i ==> r@[j] == self.entries@[j],
            decreases n - i,
        {
            r.push(self.entries[i]);
            i += 1;
        }
        proof {
            assert forall|i2: int|
                0 <= i2 < r@.len() implies self@.contains_key(#[trigger] r@[i2].0) && self@[r@[
                i2].0] == r@[i2].1 by {
                lemma_assoc_map_value(self.entries@, i2);
            }
            assert forall|k: u64| #[trigger] self@.contains_key(k) implies exists|i2: int|
                0 <= i2 < r@.len() && r@[i2] == (k, self@[k]) by {
                lemma_assoc_map_contains(self.entries@, k);
                let j = choose|j: int| 0 <= j < self.entries@.len() && self.entries@[j].0 == k;
                lemma_assoc_map_value(self.entries@, j);
                assert(r@[j] == (k, self@[k]));
            }
        }
        r
    }
}

proof fn lemma_assoc_map_len<V>(s: Seq<(u64, V)>)
    requires
        keys_distinct(s),
    ensures
        assoc_map(s).dom().len() == s.len(),
        assoc_map(s).dom().finite(),
    decreases s.len(),
{
    if s.len() > 0 {
        lemma_assoc_map_len(s.drop_last());
        lemma_assoc_map_contains(s.drop_last(), s.last().0);
        assert(!assoc_map(s.drop_last()).contains_key(s.last().0));
        vstd::set::axiom_set_insert_finite(assoc_map(s.drop_last()).dom(), s.last().0);
        vstd::set::axiom_set_insert_len(assoc_map(s.drop_last()).dom(), s.last().0);
        assert(assoc_map(s).dom() =~= assoc_map(s.drop_last()).dom().insert(s.last().0));
    }
}

} // verus!
