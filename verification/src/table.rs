//! Tables from a name to a value.
//!
//! A table is the sequence of its entries in the order in which their names
//! first came in; no name stands in it twice. The same sequence is the model
//! of a JSON object.

use crate::text;
use vstd::prelude::*;

verus! {

/// The value of the first entry of that name.
pub open spec fn find<T>(entries: Seq<(Seq<char>, T)>, key: Seq<char>) -> Option<T>
    decreases entries.len(),
{
    if entries.len() == 0 {
        None
    } else if entries[0].0 == key {
        Some(entries[0].1)
    } else {
        find(entries.subrange(1, entries.len() as int), key)
    }
}

/// The entries with the first of that name replaced, or with a new one behind
/// them.
pub open spec fn put<T>(entries: Seq<(Seq<char>, T)>, key: Seq<char>, value: T) -> Seq<
    (Seq<char>, T),
>
    decreases entries.len(),
{
    if entries.len() == 0 {
        seq![(key, value)]
    } else if entries[0].0 == key {
        seq![(key, value)] + entries.subrange(1, entries.len() as int)
    } else {
        seq![entries[0]] + put(entries.subrange(1, entries.len() as int), key, value)
    }
}

/// The entries without the first of that name.
pub open spec fn without<T>(entries: Seq<(Seq<char>, T)>, key: Seq<char>) -> Seq<(Seq<char>, T)>
    decreases entries.len(),
{
    if entries.len() == 0 {
        entries
    } else if entries[0].0 == key {
        entries.subrange(1, entries.len() as int)
    } else {
        seq![entries[0]] + without(entries.subrange(1, entries.len() as int), key)
    }
}

/// No name stands in the entries twice.
pub open spec fn unique<T>(entries: Seq<(Seq<char>, T)>) -> bool {
    forall|i: int, j: int|
        0 <= i < j < entries.len() ==> (#[trigger] entries[i]).0 != (#[trigger] entries[j]).0
}

/// There is an entry of that name.
pub open spec fn has_key<T>(entries: Seq<(Seq<char>, T)>, key: Seq<char>) -> bool {
    exists|i: int| 0 <= i < entries.len() && (#[trigger] entries[i]).0 == key
}

/// A name has a value exactly where an entry has that name.
pub proof fn lemma_find_has_key<T>(entries: Seq<(Seq<char>, T)>, key: Seq<char>)
    ensures
        find(entries, key) is Some == has_key(entries, key),
    decreases entries.len(),
{
    if entries.len() > 0 {
        let rest = entries.subrange(1, entries.len() as int);
        lemma_find_has_key(rest, key);
        if entries[0].0 != key {
            if has_key(rest, key) {
                let i = choose|i: int| 0 <= i < rest.len() && (#[trigger] rest[i]).0 == key;
                assert(entries[i + 1].0 == key);
            }
            if has_key(entries, key) {
                let i = choose|i: int| 0 <= i < entries.len() && (#[trigger] entries[i]).0 == key;
                assert(rest[i - 1].0 == key);
            }
        }
    }
}

/// Where names are unique, an entry is found under its own name.
pub proof fn lemma_find_at<T>(entries: Seq<(Seq<char>, T)>, i: int)
    requires
        unique(entries),
        0 <= i < entries.len(),
    ensures
        find(entries, entries[i].0) == Some(entries[i].1),
    decreases entries.len(),
{
    if i > 0 {
        let rest = entries.subrange(1, entries.len() as int);
        assert forall|a: int, b: int| 0 <= a < b < rest.len() implies (#[trigger] rest[a]).0 != (
        #[trigger] rest[b]).0 by {
            assert(entries[a + 1].0 != entries[b + 1].0);
        }
        assert(entries[0].0 != entries[i].0);
        assert(rest[i - 1] == entries[i]);
        lemma_find_at(rest, i - 1);
    }
}

/// Taking an entry out changes nothing under another name.
pub proof fn lemma_find_other<T>(entries: Seq<(Seq<char>, T)>, key: Seq<char>, name: Seq<char>)
    requires
        name != key,
    ensures
        find(without(entries, key), name) == find(entries, name),
    decreases entries.len(),
{
    if entries.len() > 0 {
        let rest = entries.subrange(1, entries.len() as int);
        if entries[0].0 != key {
            lemma_find_other(rest, key, name);
            let after = without(entries, key);
            assert(after.subrange(1, after.len() as int) =~= without(rest, key));
        }
    }
}

/// A value is found behind the entries where no entry before it has the name.
pub broadcast proof fn lemma_find_push<T>(
    entries: Seq<(Seq<char>, T)>,
    key: Seq<char>,
    value: T,
    name: Seq<char>,
)
    ensures
        #[trigger] find(entries.push((key, value)), name) == (match find(entries, name) {
            Some(found) => Some(found),
            None => if key == name {
                Some(value)
            } else {
                None
            },
        }),
    decreases entries.len(),
{
    let after = entries.push((key, value));
    if entries.len() == 0 {
        assert(after.subrange(1, 1).len() == 0);
        assert(after[0] == (key, value));
        assert(find(after.subrange(1, 1), name) is None);
        assert(find(entries, name) is None);
    } else if entries[0].0 != name {
        let rest = entries.subrange(1, entries.len() as int);
        lemma_find_push(rest, key, value, name);
        assert(after.subrange(1, after.len() as int) =~= rest.push((key, value)));
    }
}

/// What was put under a name is found there, and every other name keeps its
/// value.
pub proof fn lemma_find_put<T>(entries: Seq<(Seq<char>, T)>, key: Seq<char>, value: T)
    ensures
        find(put(entries, key, value), key) == Some(value),
        forall|other: Seq<char>|
            other != key ==> #[trigger] find(put(entries, key, value), other) == find(
                entries,
                other,
            ),
    decreases entries.len(),
{
    let after = put(entries, key, value);
    if entries.len() == 0 {
        assert(after.subrange(1, 1) =~= Seq::empty());
        assert forall|other: Seq<char>| other != key implies #[trigger] find(after, other) == find(
            entries,
            other,
        ) by {
            assert(find(after.subrange(1, after.len() as int), other) is None);
        }
    } else {
        let rest = entries.subrange(1, entries.len() as int);
        if entries[0].0 == key {
            assert(after.subrange(1, after.len() as int) =~= rest);
        } else {
            lemma_find_put(rest, key, value);
            assert(after.subrange(1, after.len() as int) =~= put(rest, key, value));
        }
        assert forall|other: Seq<char>| other != key implies #[trigger] find(after, other) == find(
            entries,
            other,
        ) by {
            if entries[0].0 != key {
                assert(find(put(rest, key, value), other) == find(rest, other));
            }
        }
    }
}

/// Where names are unique, a removed name has no value any more, and every
/// other name keeps its value.
pub proof fn lemma_find_without<T>(entries: Seq<(Seq<char>, T)>, key: Seq<char>)
    requires
        unique(entries),
    ensures
        find(without(entries, key), key) is None,
        forall|other: Seq<char>|
            other != key ==> #[trigger] find(without(entries, key), other) == find(entries, other),
        unique(without(entries, key)),
        forall|other: Seq<char>|
            #[trigger] has_key(without(entries, key), other) ==> has_key(entries, other) && other
                != key,
    decreases entries.len(),
{
    if entries.len() > 0 {
        let rest = entries.subrange(1, entries.len() as int);
        let after = without(entries, key);
        assert forall|a: int, b: int| 0 <= a < b < rest.len() implies (#[trigger] rest[a]).0 != (
        #[trigger] rest[b]).0 by {
            assert(entries[a + 1].0 != entries[b + 1].0);
        }
        if entries[0].0 == key {
            assert(after == rest);
            lemma_find_has_key(rest, key);
            if has_key(rest, key) {
                let i = choose|i: int| 0 <= i < rest.len() && (#[trigger] rest[i]).0 == key;
                assert(entries[i + 1].0 == key);
            }
            assert forall|other: Seq<char>| #[trigger] has_key(rest, other) implies has_key(
                entries,
                other,
            ) && other != key by {
                let i = choose|i: int| 0 <= i < rest.len() && (#[trigger] rest[i]).0 == other;
                assert(entries[i + 1].0 == other);
            }
        } else {
            lemma_find_without(rest, key);
            let tail = without(rest, key);
            assert(after.subrange(1, after.len() as int) =~= tail);
            assert(after[0] == entries[0]);
            assert forall|other: Seq<char>| other != key implies #[trigger] find(after, other)
                == find(entries, other) by {
                assert(find(tail, other) == find(rest, other));
            }
            assert forall|other: Seq<char>| #[trigger] has_key(after, other) implies has_key(
                entries,
                other,
            ) && other != key by {
                let i = choose|i: int| 0 <= i < after.len() && (#[trigger] after[i]).0 == other;
                if i == 0 {
                    assert(entries[0].0 == other);
                } else {
                    assert(tail[i - 1].0 == other);
                    assert(has_key(tail, other));
                    let k = choose|k: int| 0 <= k < rest.len() && (#[trigger] rest[k]).0 == other;
                    assert(entries[k + 1].0 == other);
                }
            }
            assert forall|a: int, b: int| 0 <= a < b < after.len() implies (#[trigger] after[a]).0
                != (#[trigger] after[b]).0 by {
                assert(after[b] == tail[b - 1]);
                if a == 0 {
                    assert(has_key(tail, after[b].0));
                    let k = choose|k: int|
                        0 <= k < rest.len() && (#[trigger] rest[k]).0 == after[b].0;
                    assert(entries[k + 1].0 == after[b].0);
                    assert(entries[0].0 != entries[k + 1].0);
                } else {
                    assert(after[a] == tail[a - 1]);
                }
            }
        }
    }
}

/// Names stay unique where a value is put under one.
pub proof fn lemma_put_unique<T>(entries: Seq<(Seq<char>, T)>, key: Seq<char>, value: T)
    requires
        unique(entries),
    ensures
        unique(put(entries, key, value)),
        forall|other: Seq<char>|
            #[trigger] has_key(put(entries, key, value), other) ==> has_key(entries, other) || other
                == key,
    decreases entries.len(),
{
    let after = put(entries, key, value);
    if entries.len() > 0 {
        let rest = entries.subrange(1, entries.len() as int);
        assert forall|a: int, b: int| 0 <= a < b < rest.len() implies (#[trigger] rest[a]).0 != (
        #[trigger] rest[b]).0 by {
            assert(entries[a + 1].0 != entries[b + 1].0);
        }
        if entries[0].0 == key {
            assert(forall|i: int| 0 <= i < after.len() ==> (#[trigger] after[i]).0 == entries[i].0);
            assert forall|other: Seq<char>| #[trigger] has_key(after, other) implies has_key(
                entries,
                other,
            ) || other == key by {
                let i = choose|i: int| 0 <= i < after.len() && (#[trigger] after[i]).0 == other;
                assert(entries[i].0 == other);
            }
        } else {
            lemma_put_unique(rest, key, value);
            let tail = put(rest, key, value);
            assert forall|other: Seq<char>| #[trigger] has_key(after, other) implies has_key(
                entries,
                other,
            ) || other == key by {
                let i = choose|i: int| 0 <= i < after.len() && (#[trigger] after[i]).0 == other;
                if i == 0 {
                    assert(entries[0].0 == other);
                } else {
                    assert(tail[i - 1].0 == other);
                    assert(has_key(tail, other));
                    if other != key {
                        let k = choose|k: int|
                            0 <= k < rest.len() && (#[trigger] rest[k]).0 == other;
                        assert(entries[k + 1].0 == other);
                    }
                }
            }
            assert forall|a: int, b: int| 0 <= a < b < after.len() implies (#[trigger] after[a]).0
                != (#[trigger] after[b]).0 by {
                assert(after[b] == tail[b - 1]);
                if a == 0 {
                    assert(has_key(tail, after[b].0));
                    if after[b].0 != key {
                        let k = choose|k: int|
                            0 <= k < rest.len() && (#[trigger] rest[k]).0 == after[b].0;
                        assert(entries[0].0 != entries[k + 1].0);
                    }
                } else {
                    assert(after[a] == tail[a - 1]);
                }
            }
        }
    }
}

/// A table from a name to a value.
#[derive(Debug)]
pub struct Table<T> {
    entries: Vec<(String, T)>,
}

/// The model of a list of entries.
spec fn entries_view<T: View>(entries: Seq<(String, T)>) -> Seq<(Seq<char>, T::V)> {
    Seq::new(entries.len(), |i: int| (entries[i].0@, entries[i].1@))
}

impl<T: View> View for Table<T> {
    type V = Seq<(Seq<char>, T::V)>;

    closed spec fn view(&self) -> Seq<(Seq<char>, T::V)> {
        entries_view(self.entries@)
    }
}

/// No name stands in the list twice.
spec fn distinct_names<T>(entries: Seq<(String, T)>) -> bool {
    forall|i: int, j: int|
        0 <= i < j < entries.len() ==> (#[trigger] entries[i]).0@ != (#[trigger] entries[j]).0@
}

proof fn lemma_distinct_names<T: View>(entries: Seq<(String, T)>)
    ensures
        distinct_names(entries) == unique(entries_view(entries)),
{
    let view = entries_view(entries);
    assert(forall|i: int| 0 <= i < view.len() ==> (#[trigger] view[i]).0 == entries[i].0@);
    if unique(view) {
        assert forall|i: int, j: int| 0 <= i < j < entries.len() implies (
        #[trigger] entries[i]).0@ != (#[trigger] entries[j]).0@ by {
            assert(view[i].0 != view[j].0);
        }
    }
}

impl<T> Table<T> {
    #[verifier::type_invariant]
    spec fn names_unique(self) -> bool {
        distinct_names(self.entries@)
    }
}

impl<T: View> Table<T> {

    /// The empty table.
    pub fn new() -> (r: Table<T>)
        ensures
            r@ == Seq::<(Seq<char>, T::V)>::empty(),
    {
        let r = Table { entries: Vec::new() };
        assert(r@ =~= Seq::<(Seq<char>, T::V)>::empty());
        r
    }

    /// The number of entries.
    pub fn len(&self) -> (r: usize)
        ensures
            r == self@.len(),
            unique(self@),
    {
        proof {
            use_type_invariant(self);
            lemma_distinct_names(self.entries@);
        }
        self.entries.len()
    }

    /// The name of an entry.
    pub fn key_at(&self, i: usize) -> (r: &str)
        requires
            i < self@.len(),
        ensures
            r@ == self@[i as int].0,
    {
        self.entries[i].0.as_str()
    }

    /// The value of an entry.
    pub fn value_at(&self, i: usize) -> (r: &T)
        requires
            i < self@.len(),
        ensures
            r@ == self@[i as int].1,
    {
        &self.entries[i].1
    }

    /// The position of the entry of that name, or the number of entries.
    fn position(&self, key: &str) -> (r: usize)
        ensures
            r <= self@.len(),
            r < self@.len() ==> self@[r as int].0 == key@,
            forall|j: int| 0 <= j < r ==> (#[trigger] self@[j]).0 != key@,
            find(self@, key@) == (if r < self@.len() {
                Some(self@[r as int].1)
            } else {
                None
            }),
            without(self@, key@) == (if r < self@.len() {
                self@.remove(r as int)
            } else {
                self@
            }),
            forall|value: T::V|
                #[trigger] put(self@, key@, value) == (if r < self@.len() {
                    self@.update(r as int, (key@, value))
                } else {
                    self@.push((key@, value))
                }),
    {
        let mut i: usize = 0;
        let ghost all = self@;
        while i < self.entries.len() && !text::same(self.entries[i].0.as_str(), key)
            invariant
                i <= self.entries.len(),
                all == self@,
                all.len() == self.entries.len(),
                forall|j: int| 0 <= j < i ==> (#[trigger] all[j]).0 != key@,
            decreases self.entries.len() - i,
        {
            assert(all[i as int].0 == self.entries@[i as int].0@);
            i = i + 1;
        }
        proof {
            lemma_position(all, key@, i as int);
        }
        i
    }

    /// The value under a name.
    pub fn get(&self, key: &str) -> (r: Option<&T>)
        ensures
            match r {
                Some(value) => find(self@, key@) == Some(value@),
                None => find(self@, key@) is None,
            },
    {
        let i = self.position(key);
        if i < self.entries.len() {
            Some(&self.entries[i].1)
        } else {
            None
        }
    }

    /// There is an entry of that name.
    pub fn contains_key(&self, key: &str) -> (r: bool)
        ensures
            r == find(self@, key@) is Some,
    {
        self.position(key) < self.entries.len()
    }

    /// Puts a value under a name.
    pub fn insert(&mut self, key: &str, value: T)
        ensures
            final(self)@ == put(old(self)@, key@, value@),
            unique(final(self)@),
    {
        proof {
            use_type_invariant(&*self);
            lemma_distinct_names(self.entries@);
            lemma_put_unique(self@, key@, value@);
        }
        let ghost before = self@;
        let i = self.position(key);
        let mut entries: Vec<(String, T)> = Vec::new();
        std::mem::swap(&mut entries, &mut self.entries);
        if i < entries.len() {
            entries.set(i, (key.to_owned(), value));
        } else {
            entries.push((key.to_owned(), value));
        }
        assert(entries_view(entries@) =~= put(before, key@, value@));
        proof {
            lemma_distinct_names(entries@);
        }
        self.entries = entries;
    }

    /// Takes the entry of that name out, where there is one.
    pub fn remove(&mut self, key: &str)
        ensures
            final(self)@ == without(old(self)@, key@),
            unique(final(self)@),
    {
        proof {
            use_type_invariant(&*self);
            lemma_distinct_names(self.entries@);
            lemma_find_without(self@, key@);
        }
        let ghost before = self@;
        let i = self.position(key);
        let mut entries: Vec<(String, T)> = Vec::new();
        std::mem::swap(&mut entries, &mut self.entries);
        if i < entries.len() {
            entries.remove(i);
        }
        assert(entries_view(entries@) =~= without(before, key@));
        proof {
            lemma_distinct_names(entries@);
        }
        self.entries = entries;
    }

    /// Takes the entry at a position out.
    pub fn remove_at(&mut self, i: usize)
        requires
            i < old(self)@.len(),
        ensures
            final(self)@ == old(self)@.remove(i as int),
            unique(final(self)@),
    {
        proof {
            use_type_invariant(&*self);
            lemma_distinct_names(self.entries@);
        }
        let ghost before = self@;
        let mut entries: Vec<(String, T)> = Vec::new();
        std::mem::swap(&mut entries, &mut self.entries);
        entries.remove(i);
        assert(entries_view(entries@) =~= before.remove(i as int));
        assert forall|a: int, b: int| 0 <= a < b < before.len() - 1 implies (
        #[trigger] entries_view(entries@)[a]).0 != (#[trigger] entries_view(entries@)[b]).0 by {
            let x = if a < i { a } else { a + 1 };
            let y = if b < i { b } else { b + 1 };
            assert(before[x].0 != before[y].0);
        }
        proof {
            lemma_distinct_names(entries@);
        }
        self.entries = entries;
    }

    /// Takes the first `n` entries out.
    pub fn remove_first(&mut self, n: usize)
        requires
            n <= old(self)@.len(),
        ensures
            final(self)@ == old(self)@.subrange(n as int, old(self)@.len() as int),
            unique(final(self)@),
    {
        proof {
            use_type_invariant(&*self);
            lemma_distinct_names(self.entries@);
        }
        let ghost before = self@;
        let mut entries: Vec<(String, T)> = Vec::new();
        std::mem::swap(&mut entries, &mut self.entries);
        let rest = entries.split_off(n);
        assert(entries_view(rest@) =~= before.subrange(n as int, before.len() as int));
        assert forall|a: int, b: int| 0 <= a < b < before.len() - n implies (
        #[trigger] entries_view(rest@)[a]).0 != (#[trigger] entries_view(rest@)[b]).0 by {
            assert(before[a + n].0 != before[b + n].0);
        }
        proof {
            lemma_distinct_names(rest@);
        }
        self.entries = rest;
    }
}

/// What the operations say of the first position at which a name stands.
pub proof fn lemma_position<T>(entries: Seq<(Seq<char>, T)>, key: Seq<char>, r: int)
    requires
        0 <= r <= entries.len(),
        r < entries.len() ==> entries[r].0 == key,
        forall|j: int| 0 <= j < r ==> (#[trigger] entries[j]).0 != key,
    ensures
        find(entries, key) == (if r < entries.len() {
            Some(entries[r].1)
        } else {
            None
        }),
        without(entries, key) == (if r < entries.len() {
            entries.remove(r)
        } else {
            entries
        }),
        forall|value: T|
            #[trigger] put(entries, key, value) == (if r < entries.len() {
                entries.update(r, (key, value))
            } else {
                entries.push((key, value))
            }),
    decreases entries.len(),
{
    if entries.len() > 0 {
        let rest = entries.subrange(1, entries.len() as int);
        if r > 0 {
            assert(entries[0].0 != key);
            assert(forall|j: int| 0 <= j < r - 1 ==> (#[trigger] rest[j]) == entries[j + 1]);
            assert forall|j: int| 0 <= j < r - 1 implies (#[trigger] rest[j]).0 != key by {
                assert(entries[j + 1].0 != key);
            }
            if r < entries.len() {
                assert(rest[r - 1] == entries[r]);
            }
            lemma_position(rest, key, r - 1);
            if r < entries.len() {
                assert(seq![entries[0]] + rest.remove(r - 1) =~= entries.remove(r));
            } else {
                assert(seq![entries[0]] + rest =~= entries);
            }
        } else {
            assert(rest =~= entries.remove(0));
        }
        assert forall|value: T| #[trigger] put(entries, key, value) == (if r < entries.len() {
            entries.update(r, (key, value))
        } else {
            entries.push((key, value))
        }) by {
            if r > 0 {
                assert(put(entries, key, value) == seq![entries[0]] + put(rest, key, value));
                if r < entries.len() {
                    assert(seq![entries[0]] + rest.update(r - 1, (key, value)) =~= entries.update(
                        r,
                        (key, value),
                    ));
                } else {
                    assert(seq![entries[0]] + rest.push((key, value)) =~= entries.push(
                        (key, value),
                    ));
                }
            } else {
                assert(seq![(key, value)] + rest =~= entries.update(0, (key, value)));
            }
        }
    } else {
        assert forall|value: T| #[trigger] put(entries, key, value) == entries.push(
            (key, value),
        ) by {
            assert(put(entries, key, value) =~= entries.push((key, value)));
        }
    }
}

} // verus!
