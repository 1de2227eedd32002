//! A map from names to values that keeps the order in which the names came.

use crate::text::str_equal;
use vstd::prelude::*;

verus! {

/// Whether no two entries have the same name.
pub open spec fn spec_distinct_keys<V>(entries: Seq<(String, V)>) -> bool {
    forall|i: int, j: int|
        0 <= i < entries.len() && 0 <= j < entries.len() && i != j ==> (#[trigger] entries[i]).0@
            != (#[trigger] entries[j]).0@
}

/// Whether `index` is the place of the entry named `key`.
pub open spec fn spec_is_at<V>(entries: Seq<(String, V)>, key: Seq<char>, index: int) -> bool {
    0 <= index < entries.len() && entries[index].0@ == key
}

/// Whether an entry is named `key`.
pub open spec fn spec_has_key<V>(entries: Seq<(String, V)>, key: Seq<char>) -> bool {
    exists|index: int| spec_is_at(entries, key, index)
}

/// The place of the entry named `key`.
pub open spec fn spec_index_of<V>(entries: Seq<(String, V)>, key: Seq<char>) -> int {
    choose|index: int| spec_is_at(entries, key, index)
}

/// Whether an entry of the view is named `key`.
pub open spec fn spec_view_has_key<W>(view: Seq<(Seq<char>, W)>, key: Seq<char>) -> bool {
    exists|index: int| 0 <= index < view.len() && (#[trigger] view[index]).0 == key
}

/// The place of the entry of the view named `key`.
pub open spec fn spec_view_index_of<W>(view: Seq<(Seq<char>, W)>, key: Seq<char>) -> int {
    choose|index: int| 0 <= index < view.len() && (#[trigger] view[index]).0 == key
}

/// The value of the entry of the view named `key`.
pub open spec fn spec_view_get<W>(view: Seq<(Seq<char>, W)>, key: Seq<char>) -> Option<W> {
    if spec_view_has_key(view, key) {
        Some(view[spec_view_index_of(view, key)].1)
    } else {
        None
    }
}

/// The view with `value` under the name `key`: in the place of the value that the name
/// had, or behind all other entries.
pub open spec fn spec_view_insert<W>(view: Seq<(Seq<char>, W)>, key: Seq<char>, value: W) -> Seq<
    (Seq<char>, W),
> {
    if spec_view_has_key(view, key) {
        view.update(spec_view_index_of(view, key), (key, value))
    } else {
        view.push((key, value))
    }
}

/// The names with their values, in order.
pub open spec fn spec_pairs<V>(entries: Seq<(String, V)>) -> Seq<(Seq<char>, V)> {
    entries.map_values(|entry: (String, V)| (entry.0@, entry.1))
}

/// A map from names to values. No name occurs twice, and the entries stay in the order in
/// which their names were first inserted.
#[derive(Debug)]
pub struct StringMap<V> {
    entries: Vec<(String, V)>,
}

impl<V> StringMap<V> {
    #[verifier::type_invariant]
    closed spec fn distinct(self) -> bool {
        spec_distinct_keys(self.entries@)
    }

    /// The entries in their order.
    pub closed spec fn entries(&self) -> Seq<(String, V)> {
        self.entries@
    }

    /// The names with their values, in order.
    pub open spec fn pairs(&self) -> Seq<(Seq<char>, V)> {
        spec_pairs(self.entries())
    }

    /// Whether an entry is named `key`.
    pub open spec fn spec_contains_key(&self, key: Seq<char>) -> bool {
        spec_has_key(self.entries(), key)
    }

    /// The value of the entry named `key`.
    pub open spec fn spec_get(&self, key: Seq<char>) -> Option<V> {
        if self.spec_contains_key(key) {
            Some(self.entries()[spec_index_of(self.entries(), key)].1)
        } else {
            None
        }
    }

    /// An empty map.
    pub fn new() -> (r: Self)
        ensures
            r.entries() == Seq::<(String, V)>::empty(),
    {
        StringMap { entries: Vec::new() }
    }

    /// The number of entries. No two of them have the same name.
    pub fn len(&self) -> (r: usize)
        ensures
            r == self.entries().len(),
            r == self.pairs().len(),
            spec_distinct_keys(self.entries()),
    {
        proof {
            use_type_invariant(self);
        }
        self.entries.len()
    }

    /// The place of the entry named `key`.
    pub fn index_of(&self, key: &str) -> (r: Option<usize>)
        ensures
            spec_distinct_keys(self.entries()),
            r is Some ==> spec_is_at(self.entries(), key@, r->Some_0 as int) && r->Some_0
                == spec_index_of(self.entries(), key@),
            r is Some <==> self.spec_contains_key(key@),
            r is Some <==> spec_view_has_key(self.pairs(), key@),
            r is Some ==> r->Some_0 == spec_view_index_of(self.pairs(), key@),
    {
        proof {
            use_type_invariant(self);
            lemma_pairs_index_of(self.entries(), key@);
        }
        let mut i: usize = 0;
        while i < self.entries.len()
            invariant
                i <= self.entries@.len(),
                spec_distinct_keys(self.entries@),
                forall|j: int| 0 <= j < i ==> !spec_is_at(self.entries@, key@, j),
            decreases self.entries@.len() - i,
        {
            if str_equal(self.entries[i].0.as_str(), key) {
                proof {
                    lemma_index_of_unique(self.entries@, key@, i as int);
                    lemma_pairs_index_of(self.entries@, key@);
                }
                return Some(i);
            }
            i = i + 1;
        }
        None
    }

    /// Whether an entry is named `key`.
    pub fn contains_key(&self, key: &str) -> (r: bool)
        ensures
            r == self.spec_contains_key(key@),
            r == spec_view_has_key(self.pairs(), key@),
    {
        self.index_of(key).is_some()
    }

    /// The value of the entry named `key`.
    pub fn get(&self, key: &str) -> (r: Option<&V>)
        ensures
            r is Some <==> self.spec_contains_key(key@),
            r is Some ==> self.spec_get(key@) == Some(*r->Some_0),
            spec_view_get(self.pairs(), key@) == match r {
                Some(value) => Some(*value),
                None => None,
            },
    {
        match self.index_of(key) {
            Some(i) => Some(&self.entries[i].1),
            None => None,
        }
    }

    /// The name of the entry at `index`.
    pub fn key_at(&self, index: usize) -> (r: &String)
        requires
            index < self.entries().len(),
        ensures
            *r == self.entries()[index as int].0,
            r@ == self.pairs()[index as int].0,
    {
        &self.entries[index].0
    }

    /// The value of the entry at `index`.
    pub fn value_at(&self, index: usize) -> (r: &V)
        requires
            index < self.entries().len(),
        ensures
            *r == self.entries()[index as int].1,
            *r == self.pairs()[index as int].1,
    {
        &self.entries[index].1
    }

    /// Put `value` under the name `key`: in the place of the value that the name had, or
    /// behind all other entries. The value that the name had is handed back.
    pub fn insert(&mut self, key: String, value: V) -> (r: Option<V>)
        ensures
            old(self).spec_contains_key(key@) ==> r == old(self).spec_get(key@) && final(self).entries() == old(self).entries().update(
                spec_index_of(old(self).entries(), key@),
                (key, value),
            ),
            !old(self).spec_contains_key(key@) ==> r is None && final(self).entries() == old(self).entries().push((key, value)),
            final(self).pairs() == spec_view_insert(old(self).pairs(), key@, value),
            r == spec_view_get(old(self).pairs(), key@),
    {
        proof {
            use_type_invariant(&*self);
            let entries = self.entries();
            lemma_pairs_index_of(entries, key@);
            if spec_has_key(entries, key@) {
                assert(spec_pairs(entries.update(spec_index_of(entries, key@), (key, value)))
                    =~= spec_pairs(entries).update(spec_index_of(entries, key@), (key@, value)));
            } else {
                assert(spec_pairs(entries.push((key, value))) =~= spec_pairs(entries).push(
                    (key@, value),
                ));
            }
        }
        match self.index_of(key.as_str()) {
            Some(i) => {
                let mut entries: Vec<(String, V)> = Vec::new();
                core::mem::swap(&mut entries, &mut self.entries);
                let (_, previous) = entries.remove(i);
                entries.insert(i, (key, value));
                assert(entries@ =~= old(self).entries@.update(i as int, (key, value)));
                self.entries = entries;
                Some(previous)
            },
            None => {
                assert forall|j: int| 0 <= j < self.entries@.len() implies (
                #[trigger] self.entries@[j]).0@ != key@ by {
                    assert(!spec_is_at(self.entries@, key@, j));
                }
                let mut entries: Vec<(String, V)> = Vec::new();
                core::mem::swap(&mut entries, &mut self.entries);
                entries.push((key, value));
                self.entries = entries;
                None
            },
        }
    }

    /// Put `value` in the place of the value at `index` and hand that value back.
    pub fn replace_value_at(&mut self, index: usize, value: V) -> (r: V)
        requires
            index < old(self).entries().len(),
        ensures
            r == old(self).entries()[index as int].1,
            final(self).entries().len() == old(self).entries().len(),
            final(self).entries()[index as int].0@ == old(self).entries()[index as int].0@,
            final(self).entries()[index as int].1 == value,
            forall|j: int|
                0 <= j < old(self).entries().len() && j != index ==> final(self).entries()[j]
                    == old(self).entries()[j],
    {
        proof {
            use_type_invariant(&*self);
        }
        let mut entries: Vec<(String, V)> = Vec::new();
        core::mem::swap(&mut entries, &mut self.entries);
        let (key, previous) = entries.remove(index);
        entries.insert(index, (key, value));
        self.entries = entries;
        previous
    }

    /// Take the entry at `index` out.
    pub fn remove_at(&mut self, index: usize) -> (r: (String, V))
        requires
            index < old(self).entries().len(),
        ensures
            r == old(self).entries()[index as int],
            final(self).entries() == old(self).entries().remove(index as int),
            !final(self).spec_contains_key(r.0@),
    {
        proof {
            use_type_invariant(&*self);
        }
        let mut entries: Vec<(String, V)> = Vec::new();
        core::mem::swap(&mut entries, &mut self.entries);
        let entry = entries.remove(index);
        self.entries = entries;
        assert forall|j: int| !spec_is_at(self.entries@, entry.0@, j) by {
            if spec_is_at(self.entries@, entry.0@, j) {
                if j < index {
                    assert(old(self).entries@[j] == self.entries@[j]);
                } else {
                    assert(old(self).entries@[j + 1] == self.entries@[j]);
                }
            }
        }
        entry
    }

    /// Put an entry with a name that the map does not hold at `index`.
    pub fn insert_at(&mut self, index: usize, key: String, value: V)
        requires
            index <= old(self).entries().len(),
            !old(self).spec_contains_key(key@),
        ensures
            final(self).entries() == old(self).entries().insert(index as int, (key, value)),
    {
        proof {
            use_type_invariant(&*self);
            assert forall|j: int| 0 <= j < self.entries@.len() implies (
            #[trigger] self.entries@[j]).0@ != key@ by {
                assert(!spec_is_at(self.entries@, key@, j));
            }
        }
        let mut entries: Vec<(String, V)> = Vec::new();
        core::mem::swap(&mut entries, &mut self.entries);
        entries.insert(index, (key, value));
        self.entries = entries;
    }

    /// Take the entry named `key` out and hand its value back.
    pub fn remove(&mut self, key: &str) -> (r: Option<V>)
        ensures
            old(self).spec_contains_key(key@) ==> r == old(self).spec_get(key@) && final(self).entries() == old(self).entries().remove(spec_index_of(old(self).entries(), key@)),
            !old(self).spec_contains_key(key@) ==> r is None && final(self).entries() == old(self).entries(),
            !final(self).spec_contains_key(key@),
            r == spec_view_get(old(self).pairs(), key@),
            final(self).pairs() == if spec_view_has_key(old(self).pairs(), key@) {
                old(self).pairs().remove(spec_view_index_of(old(self).pairs(), key@))
            } else {
                old(self).pairs()
            },
    {
        proof {
            use_type_invariant(&*self);
            let entries = self.entries();
            lemma_pairs_index_of(entries, key@);
            if spec_has_key(entries, key@) {
                assert(spec_pairs(entries.remove(spec_index_of(entries, key@))) =~= spec_pairs(
                    entries,
                ).remove(spec_index_of(entries, key@)));
            }
        }
        match self.index_of(key) {
            Some(i) => {
                let (_, value) = self.remove_at(i);
                Some(value)
            },
            None => None,
        }
    }
}

/// The names with the views of their values, in order.
pub open spec fn spec_view_entries<V: View>(entries: Seq<(String, V)>) -> Seq<(Seq<char>, V::V)> {
    entries.map_values(|entry: (String, V)| (entry.0@, entry.1@))
}

impl<V: View> View for StringMap<V> {
    type V = Seq<(Seq<char>, V::V)>;

    /// The names with the views of their values, in order.
    open spec fn view(&self) -> Seq<(Seq<char>, V::V)> {
        spec_view_entries(self.entries())
    }
}

/// The view of updated entries is the updated view.
pub proof fn lemma_view_update<V: View>(entries: Seq<(String, V)>, index: int, entry: (String, V))
    requires
        0 <= index < entries.len(),
    ensures
        spec_view_entries(entries.update(index, entry)) == spec_view_entries(entries).update(
            index,
            (entry.0@, entry.1@),
        ),
{
    assert(spec_view_entries(entries.update(index, entry)) =~= spec_view_entries(entries).update(
        index,
        (entry.0@, entry.1@),
    ));
}

/// The view of entries with one more is the view with one more.
pub proof fn lemma_view_push<V: View>(entries: Seq<(String, V)>, entry: (String, V))
    ensures
        spec_view_entries(entries.push(entry)) == spec_view_entries(entries).push(
            (entry.0@, entry.1@),
        ),
{
    assert(spec_view_entries(entries.push(entry)) =~= spec_view_entries(entries).push(
        (entry.0@, entry.1@),
    ));
}

/// The view of entries with one taken out is the view with that one taken out.
pub proof fn lemma_view_remove<V: View>(entries: Seq<(String, V)>, index: int)
    requires
        0 <= index < entries.len(),
    ensures
        spec_view_entries(entries.remove(index)) == spec_view_entries(entries).remove(index),
{
    assert(spec_view_entries(entries.remove(index)) =~= spec_view_entries(entries).remove(index));
}

impl<V: View> StringMap<V> {
    /// The value of the entry named `key`, as its view shows it.
    pub fn get_value(&self, key: &str) -> (r: Option<&V>)
        ensures
            r is Some <==> spec_view_has_key(self@, key@),
            r is Some ==> spec_view_get(self@, key@) == Some(r->Some_0@),
            r is Some ==> self.spec_get(key@) == Some(*r->Some_0),
    {
        let found = self.index_of(key);
        proof {
            lemma_view_index_of(self.entries(), key@);
        }
        match found {
            Some(i) => Some(self.value_at(i)),
            None => None,
        }
    }

    /// Put `value` under the name `key`, as the view shows it.
    pub fn insert_value(&mut self, key: String, value: V) -> (r: Option<V>)
        ensures
            final(self)@ == spec_view_insert(old(self)@, key@, value@),
    {
        let _ = self.len();
        proof {
            lemma_view_index_of(self.entries(), key@);
            if spec_has_key(self.entries(), key@) {
                lemma_view_update(
                    self.entries(),
                    spec_index_of(self.entries(), key@),
                    (key, value),
                );
            } else {
                lemma_view_push(self.entries(), (key, value));
            }
        }
        self.insert(key, value)
    }

    /// Take the entry at `index` out, as the view shows it.
    pub fn remove_value_at(&mut self, index: usize) -> (r: (String, V))
        requires
            index < old(self)@.len(),
        ensures
            final(self)@ == old(self)@.remove(index as int),
            (r.0@, r.1@) == old(self)@[index as int],
    {
        proof {
            lemma_view_remove(self.entries(), index as int);
        }
        self.remove_at(index)
    }

    /// Put `value` in the place of the value at `index`, as the view shows it.
    pub fn set_value_at(&mut self, index: usize, value: V) -> (r: V)
        requires
            index < old(self)@.len(),
        ensures
            final(self)@ == old(self)@.update(index as int, (old(self)@[index as int].0, value@)),
            r@ == old(self)@[index as int].1,
            r == old(self).entries()[index as int].1,
    {
        let previous = self.replace_value_at(index, value);
        assert(self@ =~= old(self)@.update(index as int, (old(self)@[index as int].0, value@)));
        previous
    }
}

/// An entry is found in the view where it is found among the entries.
pub proof fn lemma_view_index_of<V: View>(entries: Seq<(String, V)>, key: Seq<char>)
    requires
        spec_distinct_keys(entries),
    ensures
        spec_view_has_key(spec_view_entries(entries), key) == spec_has_key(entries, key),
        spec_has_key(entries, key) ==> spec_view_index_of(spec_view_entries(entries), key)
            == spec_index_of(entries, key),
{
    let view = spec_view_entries(entries);
    if spec_has_key(entries, key) {
        let index = spec_index_of(entries, key);
        assert(spec_is_at(entries, key, index));
        assert(view[index].0 == key);
        let chosen = spec_view_index_of(view, key);
        assert(0 <= chosen < view.len() && view[chosen].0 == key);
        if chosen != index {
            assert(entries[chosen].0@ != entries[index].0@);
        }
    }
    if spec_view_has_key(view, key) {
        let chosen = spec_view_index_of(view, key);
        assert(0 <= chosen < view.len() && view[chosen].0 == key);
        assert(spec_is_at(entries, key, chosen));
    }
}

impl<V> StringMap<V> {
    /// A map with the same names in the same order, and under each name what `clone_value`
    /// makes of its value.
    pub fn clone_with<F: Fn(&V) -> V>(&self, clone_value: F) -> (r: Self)
        requires
            forall|value: &V| clone_value.requires((value,)),
        ensures
            r.entries().len() == self.entries().len(),
            forall|i: int|
                0 <= i < self.entries().len() ==> (#[trigger] r.entries()[i]).0@
                    == self.entries()[i].0@ && clone_value.ensures(
                    (&self.entries()[i].1,),
                    r.entries()[i].1,
                ),
    {
        proof {
            use_type_invariant(self);
        }
        let mut entries: Vec<(String, V)> = Vec::new();
        let mut i: usize = 0;
        while i < self.entries.len()
            invariant
                i <= self.entries@.len(),
                entries@.len() == i,
                forall|value: &V| clone_value.requires((value,)),
                forall|j: int|
                    0 <= j < i ==> (#[trigger] entries@[j]).0@ == self.entries@[j].0@
                        && clone_value.ensures((&self.entries@[j].1,), entries@[j].1),
            decreases self.entries@.len() - i,
        {
            let key = self.entries[i].0.clone();
            let value = clone_value(&self.entries[i].1);
            entries.push((key, value));
            i = i + 1;
        }
        assert forall|a: int, b: int|
            0 <= a < entries@.len() && 0 <= b < entries@.len() && a != b implies (
        #[trigger] entries@[a]).0@ != (#[trigger] entries@[b]).0@ by {
            assert(self.entries@[a].0@ != self.entries@[b].0@);
        }
        StringMap { entries }
    }
}

/// An entry is found among the names with their values where it is found among the entries.
pub proof fn lemma_pairs_index_of<V>(entries: Seq<(String, V)>, key: Seq<char>)
    requires
        spec_distinct_keys(entries),
    ensures
        spec_view_has_key(spec_pairs(entries), key) == spec_has_key(entries, key),
        spec_has_key(entries, key) ==> spec_view_index_of(spec_pairs(entries), key)
            == spec_index_of(entries, key),
{
    let pairs = spec_pairs(entries);
    if spec_has_key(entries, key) {
        let index = spec_index_of(entries, key);
        assert(spec_is_at(entries, key, index));
        assert(pairs[index].0 == key);
        let chosen = spec_view_index_of(pairs, key);
        assert(0 <= chosen < pairs.len() && pairs[chosen].0 == key);
        if chosen != index {
            assert(entries[chosen].0@ != entries[index].0@);
        }
    }
    if spec_view_has_key(pairs, key) {
        let chosen = spec_view_index_of(pairs, key);
        assert(0 <= chosen < pairs.len() && pairs[chosen].0 == key);
        assert(spec_is_at(entries, key, chosen));
    }
}

/// An entry is found at one place only.
pub proof fn lemma_index_of_unique<V>(entries: Seq<(String, V)>, key: Seq<char>, index: int)
    requires
        spec_distinct_keys(entries),
        spec_is_at(entries, key, index),
    ensures
        spec_has_key(entries, key),
        spec_index_of(entries, key) == index,
{
    let chosen = spec_index_of(entries, key);
    assert(spec_is_at(entries, key, chosen));
    if chosen != index {
        assert(entries[chosen].0@ != entries[index].0@);
    }
}

} // verus!
