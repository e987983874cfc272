//! A table that keeps one entry per key, such as the responder that waits for the answer to a
//! request.
use vstd::prelude::*;

use crate::text::same_text;

verus! {

/// A key that is compared by what it stands for.
pub trait Key: View {
    fn same(&self, other: &Self) -> (r: bool)
        ensures
            r == (self@ == other@),
    ;
}

impl Key for String {
    fn same(&self, other: &Self) -> (r: bool) {
        same_text(self.as_str(), other.as_str())
    }
}

/// Entries by key, at most one for each key.
pub struct Table<K: Key, E> {
    entries: Vec<(K, E)>,
}

/// The entries of a list as a map; of two entries with one key the later one counts.
pub open spec fn as_map<K: Key, E>(entries: Seq<(K, E)>) -> Map<K::V, E>
    decreases entries.len(),
{
    if entries.len() == 0 {
        Map::empty()
    } else {
        as_map(entries.drop_last()).insert(entries.last().0@, entries.last().1)
    }
}

/// No key stands in the list twice.
pub open spec fn distinct_keys<K: Key, E>(entries: Seq<(K, E)>) -> bool {
    forall|i: int, j: int|
        0 <= i < j < entries.len() ==> #[trigger] entries[i].0@ != #[trigger] entries[j].0@
}

proof fn lemma_as_map_domain<K: Key, E>(entries: Seq<(K, E)>)
    ensures
        forall|k: K::V| #[trigger]
            as_map(entries).dom().contains(k) <==> exists|i: int|
                0 <= i < entries.len() && #[trigger] entries[i].0@ == k,
    decreases entries.len(),
{
    if entries.len() > 0 {
        let rest = entries.drop_last();
        lemma_as_map_domain(rest);
        assert forall|k: K::V| #[trigger] as_map(entries).dom().contains(k) implies exists|i: int|
            0 <= i < entries.len() && #[trigger] entries[i].0@ == k by {
            if k == entries.last().0@ {
                assert(entries[entries.len() - 1].0@ == k);
            } else {
                assert(as_map(rest).dom().contains(k));
                let i = choose|i: int| 0 <= i < rest.len() && #[trigger] rest[i].0@ == k;
                assert(entries[i] == rest[i]);
                assert(entries[i].0@ == k);
            }
        }
        assert forall|k: K::V|
            (exists|i: int| 0 <= i < entries.len() && #[trigger] entries[i].0@ == k) implies #[trigger] as_map(
            entries,
        ).dom().contains(k) by {
            let i = choose|i: int| 0 <= i < entries.len() && #[trigger] entries[i].0@ == k;
            if i < entries.len() - 1 {
                assert(rest[i].0@ == k);
                assert(as_map(rest).dom().contains(k));
            }
        }
    }
}

proof fn lemma_as_map_value<K: Key, E>(entries: Seq<(K, E)>, at: int)
    requires
        distinct_keys(entries),
        0 <= at < entries.len(),
    ensures
        as_map(entries).dom().contains(entries[at].0@),
        as_map(entries)[entries[at].0@] == entries[at].1,
    decreases entries.len(),
{
    let rest = entries.drop_last();
    if at < rest.len() {
        assert(distinct_keys(rest)) by {
            assert forall|i: int, j: int| 0 <= i < j < rest.len() implies #[trigger] rest[i].0@
                != #[trigger] rest[j].0@ by {
                assert(entries[i].0@ != entries[j].0@);
            }
        }
        lemma_as_map_value(rest, at);
        assert(rest[at] == entries[at]);
        assert(entries[at].0@ != entries[entries.len() - 1].0@);
    }
}

proof fn lemma_as_map_remove<K: Key, E>(entries: Seq<(K, E)>, at: int)
    requires
        distinct_keys(entries),
        0 <= at < entries.len(),
    ensures
        distinct_keys(entries.remove(at)),
        as_map(entries.remove(at)) == as_map(entries).remove(entries[at].0@),
{
    let less = entries.remove(at);
    let key = entries[at].0@;
    assert forall|i: int, j: int| 0 <= i < j < less.len() implies #[trigger] less[i].0@
        != #[trigger] less[j].0@ by {
        let a = if i < at { i } else { i + 1 };
        let b = if j < at { j } else { j + 1 };
        assert(less[i] == entries[a]);
        assert(less[j] == entries[b]);
    }
    lemma_as_map_domain(entries);
    lemma_as_map_domain(less);
    let left = as_map(less);
    let right = as_map(entries).remove(key);
    assert forall|k: K::V| left.dom().contains(k) <==> right.dom().contains(k) by {
        if left.dom().contains(k) {
            let i = choose|i: int| 0 <= i < less.len() && #[trigger] less[i].0@ == k;
            let a = if i < at { i } else { i + 1 };
            assert(entries[a] == less[i]);
            assert(entries[a].0@ == k);
            assert(entries[at].0@ == key);
            assert(k != key);
        }
        if right.dom().contains(k) {
            let a = choose|a: int| 0 <= a < entries.len() && #[trigger] entries[a].0@ == k;
            let i = if a < at { a } else { a - 1 };
            assert(a != at);
            assert(less[i] == entries[a]);
            assert(less[i].0@ == k);
        }
    }
    assert forall|k: K::V| left.dom().contains(k) implies left[k] == right[k] by {
        let i = choose|i: int| 0 <= i < less.len() && #[trigger] less[i].0@ == k;
        let a = if i < at { i } else { i + 1 };
        assert(entries[a] == less[i]);
        lemma_as_map_value(less, i);
        lemma_as_map_value(entries, a);
    }
    assert(left =~= right);
}

impl<K: Key, E> View for Table<K, E> {
    type V = Map<K::V, E>;

    closed spec fn view(&self) -> Map<K::V, E> {
        as_map(self.entries@)
    }
}

impl<K: Key, E> Table<K, E> {
    /// No key stands in the table twice.
    pub closed spec fn well_formed(&self) -> bool {
        distinct_keys(self.entries@)
    }

    /// A table without entries.
    pub fn new() -> (r: Self)
        ensures
            r.well_formed(),
            r@ == Map::<K::V, E>::empty(),
    {
        Table { entries: Vec::new() }
    }

    fn position(&self, key: &K) -> (r: Option<usize>)
        requires
            self.well_formed(),
        ensures
            match r {
                Some(at) => at < self.entries@.len() && self.entries@[at as int].0@ == key@
                    && self@.dom().contains(key@) && self@[key@] == self.entries@[at as int].1,
                None => !self@.dom().contains(key@),
            },
    {
        let mut at: usize = 0;
        while at < self.entries.len()
            invariant
                self.well_formed(),
                at <= self.entries@.len(),
                forall|i: int| 0 <= i < at ==> #[trigger] self.entries@[i].0@ != key@,
            decreases self.entries@.len() - at,
        {
            if self.entries[at].0.same(key) {
                proof {
                    lemma_as_map_value(self.entries@, at as int);
                }
                return Some(at);
            }
            at = at + 1;
        }
        proof {
            lemma_as_map_domain(self.entries@);
        }
        None
    }

    /// Whether there is an entry for `key`.
    pub fn contains(&self, key: &K) -> (r: bool)
        requires
            self.well_formed(),
        ensures
            r == self@.dom().contains(key@),
    {
        self.position(key).is_some()
    }

    /// Takes the entry for `key` out of the table.
    pub fn remove(&mut self, key: &K) -> (r: Option<E>)
        requires
            old(self).well_formed(),
        ensures
            final(self).well_formed(),
            final(self)@ == old(self)@.remove(key@),
            match r {
                Some(entry) => old(self)@.dom().contains(key@) && entry == old(self)@[key@],
                None => !old(self)@.dom().contains(key@),
            },
    {
        match self.position(key) {
            Some(at) => {
                proof {
                    lemma_as_map_remove(self.entries@, at as int);
                }
                let (_, entry) = self.entries.remove(at);
                Some(entry)
            },
            None => {
                assert(self@.remove(key@) =~= self@);
                None
            },
        }
    }

    /// Sets the entry for `key` and hands back the one that it replaces.
    pub fn insert(&mut self, key: K, entry: E) -> (r: Option<E>)
        requires
            old(self).well_formed(),
        ensures
            final(self).well_formed(),
            final(self)@ == old(self)@.insert(key@, entry),
            match r {
                Some(replaced) => old(self)@.dom().contains(key@) && replaced == old(self)@[key@],
                None => !old(self)@.dom().contains(key@),
            },
    {
        let replaced = self.remove(&key);
        let ghost before = self.entries@;
        self.entries.push((key, entry));
        proof {
            lemma_as_map_domain(before);
            assert(self.entries@.drop_last() =~= before);
            assert forall|i: int, j: int| 0 <= i < j < self.entries@.len() implies #[trigger] self.entries@[i].0@
                != #[trigger] self.entries@[j].0@ by {
                if j == before.len() {
                    assert(before[i].0@ == self.entries@[i].0@);
                    assert(!as_map(before).dom().contains(key@));
                } else {
                    assert(before[i].0@ != before[j].0@);
                }
            }
            assert(self@ =~= old(self)@.insert(key@, entry));
        }
        replaced
    }
}

} // verus!
