//! An insertion-ordered association list.

use vstd::laws_eq::obeys_concrete_eq;
use vstd::prelude::*;
use vstd::std_specs::cmp::PartialEqSpecImpl;

verus! {

/// A map kept as a list of entries in the order in which their keys first
/// arrived. Lookups walk the list and answer with the first entry whose key
/// matches.
#[derive(Clone, Debug)]
pub struct VecMap<K: PartialEq, V> {
    items: Vec<(K, V)>,
}

/// The position of the first entry of `s` whose key is `key`.
pub open spec fn first_index<K, V>(s: Seq<(K, V)>, key: K) -> Option<int>
    decreases s.len(),
{
    if s.len() == 0 {
        None
    } else {
        match first_index(s.drop_last(), key) {
            Some(i) => Some(i),
            None => if s.last().0 == key {
                Some(s.len() - 1)
            } else {
                None
            },
        }
    }
}

/// `first_index` finds the least matching position, and finds one whenever
/// some entry matches.
pub proof fn lemma_first_index<K, V>(s: Seq<(K, V)>, key: K)
    ensures
        match first_index(s, key) {
            Some(i) => 0 <= i < s.len() && s[i].0 == key && forall|j: int|
                0 <= j < i ==> (#[trigger] s[j]).0 != key,
            None => forall|j: int| 0 <= j < s.len() ==> (#[trigger] s[j]).0 != key,
        },
    decreases s.len(),
{
    if s.len() > 0 {
        lemma_first_index(s.drop_last(), key);
        let t = s.drop_last();
        assert forall|j: int| 0 <= j < t.len() implies t[j] == s[j] by {}
    }
}

/// The value that a lookup of `key` finds in `s`.
pub open spec fn lookup<K, V>(s: Seq<(K, V)>, key: K) -> Option<V> {
    match first_index(s, key) {
        Some(i) => Some(s[i].1),
        None => None,
    }
}

/// What `s` holds after `key` is set to `value`: the first entry with that key
/// takes the value and keeps its place; without one, a new entry goes last.
pub open spec fn with_entry<K, V>(s: Seq<(K, V)>, key: K, value: V) -> Seq<(K, V)> {
    match first_index(s, key) {
        Some(i) => s.update(i, (s[i].0, value)),
        None => s.push((key, value)),
    }
}

impl<K: PartialEq, V> VecMap<K, V> {
    /// The entries, in order.
    pub closed spec fn view(&self) -> Seq<(K, V)> {
        self.items@
    }

    pub fn new() -> (r: Self)
        ensures
            r@ == Seq::<(K, V)>::empty(),
    {
        VecMap { items: Vec::new() }
    }

    /// A map of the entries as they are given: none is dropped or moved,
    /// also where a key comes twice.
    pub fn from_entries(entries: Vec<(K, V)>) -> (r: Self)
        ensures
            r@ == entries@,
    {
        VecMap { items: entries }
    }

    /// The entries, in order.
    pub fn into_entries(self) -> (r: Vec<(K, V)>)
        ensures
            r@ == self@,
    {
        self.items
    }

    pub fn insert(&mut self, key: K, value: V)
        ensures
            obeys_concrete_eq::<K>() ==> final(self)@ == with_entry(old(self)@, key, value),
    {
        proof {
            reveal(obeys_concrete_eq);
            lemma_first_index(self.items@, key);
        }
        let n = self.items.len();
        let mut i: usize = 0;
        while i < n
            invariant
                i <= n,
                n == self.items.len(),
                self.items@ == old(self).items@,
                obeys_concrete_eq::<K>() ==> forall|j: int|
                    0 <= j < i ==> (#[trigger] self.items@[j]).0 != key,
            decreases n - i,
        {
            proof {
                reveal(obeys_concrete_eq);
            }
            if self.items[i].0 == key {
                self.items[i].1 = value;
                proof {
                    lemma_first_index(old(self).items@, key);
                }
                return ;
            }
            i += 1;
        }
        self.items.push((key, value));
    }

    pub fn get(&self, key: &K) -> (r: Option<&V>)
        ensures
            obeys_concrete_eq::<K>() ==> r == match lookup(self@, *key) {
                Some(v) => Some(&v),
                None => None,
            },
    {
        proof {
            reveal(obeys_concrete_eq);
            lemma_first_index(self.items@, *key);
        }
        let n = self.items.len();
        let mut i: usize = 0;
        while i < n
            invariant
                i <= n,
                n == self.items.len(),
                obeys_concrete_eq::<K>() ==> forall|j: int|
                    0 <= j < i ==> (#[trigger] self.items@[j]).0 != *key,
            decreases n - i,
        {
            proof {
                reveal(obeys_concrete_eq);
                lemma_first_index(self.items@, *key);
            }
            if self.items[i].0 == *key {
                return Some(&self.items[i].1);
            }
            i += 1;
        }
        None
    }

    /// The entries as pairs of references, in order.
    pub fn iter(&self) -> (r: Vec<(&K, &V)>)
        ensures
            r@.len() == self@.len(),
            forall|i: int| 0 <= i < r@.len() ==> *(#[trigger] r@[i]).0 == self@[i].0 && *r@[i].1 == self@[i].1,
    {
        let mut out: Vec<(&K, &V)> = Vec::new();
        let n = self.items.len();
        let mut i: usize = 0;
        while i < n
            invariant
                i <= n,
                n == self.items.len(),
                out@.len() == i,
                forall|j: int| 0 <= j < i ==> *(#[trigger] out@[j]).0 == self.items@[j].0 && *out@[j].1 == self.items@[j].1,
            decreases n - i,
        {
            out.push((&self.items[i].0, &self.items[i].1));
            i += 1;
        }
        out
    }

    pub fn len(&self) -> (r: usize)
        ensures
            r == self@.len(),
    {
        self.items.len()
    }
}

/// Whether two lists hold the same entries: they are equally long and every
/// entry of `a` is what a lookup of its key finds in `b`.
pub open spec fn same_entries<K, V>(a: Seq<(K, V)>, b: Seq<(K, V)>) -> bool {
    &&& a.len() == b.len()
    &&& forall|i: int| 0 <= i < a.len() ==> lookup(b, (#[trigger] a[i]).0) == Some(a[i].1)
}

impl<K: PartialEq, V> Default for VecMap<K, V> {
    fn default() -> (r: Self)
        ensures
            r@ == Seq::<(K, V)>::empty(),
    {
        VecMap::new()
    }
}

impl<K: PartialEq, V: PartialEq> PartialEq for VecMap<K, V> {
    /// Two maps are equal where they hold the same entries, in whatever
    /// order.
    fn eq(&self, other: &Self) -> (r: bool) {
        if self.items.len() != other.items.len() {
            return false;
        }
        let n = self.items.len();
        let mut i: usize = 0;
        while i < n
            invariant
                i <= n,
                n == self.items@.len(),
                n == other.items@.len(),
                obeys_concrete_eq::<K>() && obeys_concrete_eq::<V>() ==> forall|j: int|
                    0 <= j < i ==> lookup(other@, (#[trigger] self@[j]).0) == Some(self@[j].1),
            decreases n - i,
        {
            proof {
                reveal(obeys_concrete_eq);
            }
            let same = match other.get(&self.items[i].0) {
                Some(value) => *value == self.items[i].1,
                None => false,
            };
            if !same {
                assert(obeys_concrete_eq::<K>() && obeys_concrete_eq::<V>() ==> lookup(
                    other@,
                    self@[i as int].0,
                ) != Some(self@[i as int].1));
                return false;
            }
            i += 1;
        }
        true
    }
}

impl<K: PartialEq, V: PartialEq> PartialEqSpecImpl for VecMap<K, V> {
    open spec fn obeys_eq_spec() -> bool {
        obeys_concrete_eq::<K>() && obeys_concrete_eq::<V>()
    }

    open spec fn eq_spec(&self, other: &Self) -> bool {
        same_entries(self@, other@)
    }
}

} // verus!
