//! A map from names to values that keeps its entries in the order in which
//! they came.

use vstd::prelude::*;

verus! {

/// A map from names to values. Each name occurs once; entries stay in the
/// order in which their names were first inserted.
#[derive(Debug, PartialEq)]
pub struct StringMap<V> {
    pub entries: Vec<(String, V)>,
}

/// The position of the first entry under `key`, or the number of entries if
/// there is none.
pub open spec fn position_of<V>(entries: Seq<(String, V)>, key: Seq<char>) -> int
    decreases entries.len(),
{
    if entries.len() == 0 {
        0
    } else if entries[0].0@ == key {
        0
    } else {
        1 + position_of(entries.drop_first(), key)
    }
}

pub proof fn lemma_position_of<V>(entries: Seq<(String, V)>, key: Seq<char>)
    ensures
        0 <= position_of(entries, key) <= entries.len(),
        position_of(entries, key) < entries.len() ==> entries[position_of(entries, key)].0@ == key,
        forall|j: int| 0 <= j < position_of(entries, key) ==> (#[trigger] entries[j]).0@ != key,
    decreases entries.len(),
{
    if entries.len() != 0 && entries[0].0@ != key {
        let rest = entries.drop_first();
        lemma_position_of(rest, key);
        assert forall|j: int| 0 <= j < position_of(entries, key) implies (#[trigger] entries[j]).0@
            != key by {
            if j > 0 {
                assert(entries[j] == rest[j - 1]);
            }
        }
    }
}

/// The position of the only entry under `key`: no entry before it has that
/// name.
pub proof fn lemma_position_is<V>(entries: Seq<(String, V)>, key: Seq<char>, i: int)
    requires
        0 <= i <= entries.len(),
        i < entries.len() ==> entries[i].0@ == key,
        forall|j: int| 0 <= j < i ==> (#[trigger] entries[j]).0@ != key,
    ensures
        position_of(entries, key) == i,
{
    lemma_position_of(entries, key);
    let p = position_of(entries, key);
    if p < i {
        assert(entries[p].0@ == key);
    }
}

/// Two lists of entries with the same names at the same places find every
/// name at the same place.
pub proof fn lemma_same_names<V>(a: Seq<(String, V)>, b: Seq<(String, V)>, key: Seq<char>)
    requires
        a.len() == b.len(),
        forall|i: int| 0 <= i < a.len() ==> (#[trigger] a[i]).0@ == b[i].0@,
    ensures
        position_of(a, key) == position_of(b, key),
{
    lemma_position_of(a, key);
    let p = position_of(a, key);
    assert forall|j: int| 0 <= j < p implies (#[trigger] b[j]).0@ != key by {
        assert(a[j].0@ != key);
    }
    lemma_position_is(b, key, p);
}

impl<V> StringMap<V> {
    /// No name occurs twice.
    pub open spec fn wf(&self) -> bool {
        forall|i: int, j: int|
            0 <= i < j < self.entries.len() ==> (#[trigger] self.entries[i]).0@ != (
            #[trigger] self.entries[j]).0@
    }

    pub open spec fn contains(&self, key: Seq<char>) -> bool {
        position_of(self.entries@, key) < self.entries.len()
    }

    /// The value under `key`.
    pub open spec fn value(&self, key: Seq<char>) -> V
        recommends
            self.contains(key),
    {
        self.entries[position_of(self.entries@, key)].1
    }

    pub fn new() -> (r: Self)
        ensures
            r.entries@ == Seq::<(String, V)>::empty(),
            r.wf(),
    {
        StringMap { entries: Vec::new() }
    }

    pub fn len(&self) -> (r: usize)
        ensures
            r == self.entries.len(),
    {
        self.entries.len()
    }

    /// Where the entry under `key` stands, if there is one.
    pub fn find(&self, key: &str) -> (r: Option<usize>)
        ensures
            r is Some <==> self.contains(key@),
            r matches Some(i) ==> i == position_of(self.entries@, key@),
    {
        let mut i: usize = 0;
        while i < self.entries.len()
            invariant
                i <= self.entries.len(),
                forall|j: int| 0 <= j < i ==> (#[trigger] self.entries[j]).0@ != key@,
            decreases self.entries.len() - i,
        {
            if crate::text::str_eq(self.entries[i].0.as_str(), key) {
                proof {
                    lemma_position_is(self.entries@, key@, i as int);
                }
                return Some(i);
            }
            i += 1;
        }
        proof {
            lemma_position_is(self.entries@, key@, i as int);
        }
        None
    }

    pub fn contains_key(&self, key: &str) -> (r: bool)
        ensures
            r == self.contains(key@),
    {
        self.find(key).is_some()
    }

    pub fn get(&self, key: &str) -> (r: Option<&V>)
        ensures
            r is Some <==> self.contains(key@),
            r matches Some(v) ==> *v == self.value(key@),
    {
        match self.find(key) {
            Some(i) => Some(&self.entries[i].1),
            None => None,
        }
    }

    /// Puts `value` under `key`. A value that was there before leaves and is
    /// returned; the entry keeps its place.
    pub fn insert(&mut self, key: String, value: V) -> (r: Option<V>)
        requires
            old(self).wf(),
        ensures
            final(self).wf(),
            r is Some <==> old(self).contains(key@),
            r matches Some(v) ==> v == old(self).value(key@),
            old(self).contains(key@) ==> final(self).entries@ == old(self).entries@.update(
                position_of(old(self).entries@, key@),
                (key, value),
            ),
            !old(self).contains(key@) ==> final(self).entries@ == old(self).entries@.push(
                (key, value),
            ),
            final(self).contains(key@),
            final(self).value(key@) == value,
            forall|other: Seq<char>|
                other != key@ ==> (#[trigger] final(self).contains(other)) == old(self).contains(
                    other,
                ),
            forall|other: Seq<char>|
                other != key@ && old(self).contains(other) ==> (#[trigger] final(self).value(other))
                    == old(self).value(other),
    {
        let ghost before = self.entries@;
        let found = self.find(key.as_str());
        self.entries.push((key, value));
        match found {
            Some(i) => {
                let previous = self.entries.swap_remove(i);
                proof {
                    let after = self.entries@;
                    lemma_position_of(before, key@);
                    assert(after =~= before.update(i as int, (key, value)));
                    assert forall|a: int, b: int| 0 <= a < b < after.len() implies (
                    #[trigger] after[a]).0@ != (#[trigger] after[b]).0@ by {
                        assert(before[a].0@ != before[b].0@);
                        assert(after[a].0@ == before[a].0@);
                        assert(after[b].0@ == before[b].0@);
                    }
                    lemma_position_is(after, key@, i as int);
                    assert forall|other: Seq<char>| other != key@ implies (
                    #[trigger] self.contains(other)) == old(self).contains(other) by {
                        lemma_same_names(before, after, other);
                        lemma_position_of(before, other);
                    }
                    assert forall|other: Seq<char>|
                        other != key@ && old(self).contains(other) implies (#[trigger] self.value(
                        other,
                    )) == old(self).value(other) by {
                        lemma_same_names(before, after, other);
                        lemma_position_of(before, other);
                    }
                }
                Some(previous.1)
            },
            None => {
                proof {
                    lemma_position_of(before, key@);
                    let after = self.entries@;
                    assert forall|a: int, b: int| 0 <= a < b < after.len() implies (
                    #[trigger] after[a]).0@ != (#[trigger] after[b]).0@ by {
                        if b < before.len() {
                            assert(before[a].0@ != before[b].0@);
                        } else {
                            assert(after[a] == before[a]);
                        }
                    }
                    lemma_position_is(after, key@, before.len() as int);
                    assert forall|other: Seq<char>| other != key@ implies (
                    #[trigger] self.contains(other)) == old(self).contains(other) by {
                        lemma_position_of(before, other);
                        let q = position_of(before, other);
                        if q < before.len() {
                            lemma_position_is(after, other, q);
                        } else {
                            lemma_position_is(after, other, after.len() as int);
                        }
                    }
                    assert forall|other: Seq<char>|
                        other != key@ && old(self).contains(other) implies (#[trigger] self.value(
                        other,
                    )) == old(self).value(other) by {
                        lemma_position_of(before, other);
                        let q = position_of(before, other);
                        lemma_position_is(after, other, q);
                    }
                }
                None
            },
        }
    }

    /// Takes the entry under `key` out; the entries behind it move up.
    pub fn remove(&mut self, key: &str) -> (r: Option<V>)
        requires
            old(self).wf(),
        ensures
            final(self).wf(),
            r is Some <==> old(self).contains(key@),
            r matches Some(v) ==> v == old(self).value(key@),
            old(self).contains(key@) ==> final(self).entries@ == old(self).entries@.remove(
                position_of(old(self).entries@, key@),
            ),
            !old(self).contains(key@) ==> final(self).entries@ == old(self).entries@,
            !final(self).contains(key@),
    {
        let ghost before = self.entries@;
        match self.find(key) {
            Some(i) => {
                let entry = self.entries.remove(i);
                proof {
                    let after = self.entries@;
                    lemma_position_of(before, key@);
                    assert forall|a: int, b: int| 0 <= a < b < after.len() implies (
                    #[trigger] after[a]).0@ != (#[trigger] after[b]).0@ by {
                        let a0 = if a < i { a } else { a + 1 };
                        let b0 = if b < i { b } else { b + 1 };
                        assert(after[a] == before[a0]);
                        assert(after[b] == before[b0]);
                        assert(before[a0].0@ != before[b0].0@);
                    }
                    assert forall|j: int| 0 <= j < after.len() implies (#[trigger] after[j]).0@
                        != key@ by {
                        let j0 = if j < i { j } else { j + 1 };
                        assert(after[j] == before[j0]);
                        if j0 < i {
                            assert(before[j0].0@ != before[i as int].0@);
                        } else {
                            assert(before[i as int].0@ != before[j0].0@);
                        }
                    }
                    lemma_position_is(after, key@, after.len() as int);
                }
                Some(entry.1)
            },
            None => None,
        }
    }
}

/// The position of the first entry under `id`, or the number of entries if
/// there is none.
pub open spec fn named_position<V>(entries: Seq<(Seq<char>, V)>, id: Seq<char>) -> int
    decreases entries.len(),
{
    if entries.len() == 0 {
        0
    } else if entries[0].0 == id {
        0
    } else {
        1 + named_position(entries.drop_first(), id)
    }
}

pub proof fn lemma_named_position<V>(entries: Seq<(Seq<char>, V)>, id: Seq<char>)
    ensures
        0 <= named_position(entries, id) <= entries.len(),
        named_position(entries, id) < entries.len() ==> entries[named_position(entries, id)].0
            == id,
        forall|j: int| 0 <= j < named_position(entries, id) ==> (#[trigger] entries[j]).0 != id,
    decreases entries.len(),
{
    if entries.len() != 0 && entries[0].0 != id {
        let rest = entries.drop_first();
        lemma_named_position(rest, id);
        assert forall|j: int| 0 <= j < named_position(entries, id) implies (
        #[trigger] entries[j]).0 != id by {
            if j > 0 {
                assert(entries[j] == rest[j - 1]);
            }
        }
    }
}

pub proof fn lemma_named_position_is<V>(entries: Seq<(Seq<char>, V)>, id: Seq<char>, i: int)
    requires
        0 <= i <= entries.len(),
        i < entries.len() ==> entries[i].0 == id,
        forall|j: int| 0 <= j < i ==> (#[trigger] entries[j]).0 != id,
    ensures
        named_position(entries, id) == i,
{
    lemma_named_position(entries, id);
    let p = named_position(entries, id);
    if p < i {
        assert(entries[p].0 == id);
    }
}

/// Where a name stands in the entries is where it stands in their view.
pub proof fn lemma_named_positions_agree<V, W>(
    entries: Seq<(String, V)>,
    views: Seq<(Seq<char>, W)>,
    id: Seq<char>,
)
    requires
        views.len() == entries.len(),
        forall|i: int| 0 <= i < entries.len() ==> (#[trigger] views[i]).0 == entries[i].0@,
    ensures
        named_position(views, id) == position_of(entries, id),
{
    lemma_position_of(entries, id);
    let p = position_of(entries, id);
    assert forall|j: int| 0 <= j < p implies (#[trigger] views[j]).0 != id by {
        assert(entries[j].0@ != id);
    }
    lemma_named_position_is(views, id, p);
}

} // verus!
