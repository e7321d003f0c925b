//! The key/value pairs of the editor: a map from text to text that keeps its
//! entries in the order in which their keys first came.

use vstd::prelude::*;

verus! {

/// An entry as the contracts see it: the characters of its key and of its
/// value.
pub type Entry = (Seq<char>, Seq<char>);

/// Whether no key occurs twice in `entries`.
pub open spec fn distinct_keys(entries: Seq<Entry>) -> bool {
    forall|i: int, j: int|
        0 <= i < j < entries.len() ==> (#[trigger] entries[i]).0 != (#[trigger] entries[j]).0
}

/// Whether `entries` has an entry under `key`.
pub open spec fn has_key(entries: Seq<Entry>, key: Seq<char>) -> bool {
    exists|i: int| 0 <= i < entries.len() && (#[trigger] entries[i]).0 == key
}

/// The place of an entry under `key`, where there is one.
pub open spec fn position(entries: Seq<Entry>, key: Seq<char>) -> int {
    choose|i: int| 0 <= i < entries.len() && (#[trigger] entries[i]).0 == key
}

/// The value under `key`, if there is one.
pub open spec fn lookup(entries: Seq<Entry>, key: Seq<char>) -> Option<Seq<char>> {
    if has_key(entries, key) {
        Some(entries[position(entries, key)].1)
    } else {
        None
    }
}

/// `entries` with `value` under `key`: in the place of the entry that was
/// under `key`, or at the end where there was none.
pub open spec fn inserted(entries: Seq<Entry>, key: Seq<char>, value: Seq<char>) -> Seq<Entry> {
    if has_key(entries, key) {
        entries.update(position(entries, key), (key, value))
    } else {
        entries.push((key, value))
    }
}

/// A map from text to text in which no key occurs twice.
#[derive(Debug)]
pub struct Pairs {
    items: Vec<(String, String)>,
}

impl View for Pairs {
    type V = Seq<Entry>;

    closed spec fn view(&self) -> Seq<Entry> {
        Seq::new(self.items@.len(), |i: int| (self.items@[i].0@, self.items@[i].1@))
    }
}

impl Pairs {
    #[verifier::type_invariant]
    spec fn keys_are_distinct(self) -> bool {
        distinct_keys(self@)
    }

    /// No pairs.
    pub fn new() -> (pairs: Pairs)
        ensures
            pairs@ == Seq::<Entry>::empty(),
    {
        let items: Vec<(String, String)> = Vec::new();
        proof {
            assert((Pairs { items })@ =~= Seq::<Entry>::empty());
        }
        Pairs { items }
    }

    /// The number of pairs. No key occurs twice among them.
    pub fn len(&self) -> (n: usize)
        ensures
            n == self@.len(),
            distinct_keys(self@),
    {
        proof {
            use_type_invariant(self);
        }
        self.items.len()
    }

    /// The pairs, in the order in which their keys first came.
    pub fn entries(&self) -> (items: &Vec<(String, String)>)
        ensures
            items@.len() == self@.len(),
            distinct_keys(self@),
            forall|i: int|
                0 <= i < items@.len() ==> (#[trigger] items@[i]).0@ == self@[i].0 && items@[i].1@
                    == self@[i].1,
    {
        proof {
            use_type_invariant(self);
        }
        &self.items
    }

    /// Puts `value` under `key`. A value that was under `key` is replaced,
    /// where it stands; a new key goes to the end. No key occurs twice,
    /// before or after.
    pub fn insert(&mut self, key: String, value: String)
        ensures
            final(self)@ == inserted(old(self)@, key@, value@),
            distinct_keys(old(self)@),
            distinct_keys(final(self)@),
    {
        proof {
            use_type_invariant(&*self);
        }
        let ghost before = self@;
        let mut taken = Pairs::new();
        std::mem::swap(self, &mut taken);
        let mut items = taken.items;
        let n: usize = items.len();
        let mut i: usize = 0;
        let mut found: bool = false;
        while i < n && !found
            invariant
                i <= n,
                n == items@.len(),
                before.len() == n,
                forall|j: int|
                    0 <= j < n ==> (#[trigger] before[j]) == (items@[j].0@, items@[j].1@),
                distinct_keys(before),
                forall|j: int| 0 <= j < i ==> (#[trigger] before[j]).0 != key@,
                found ==> i < n && before[i as int].0 == key@,
            decreases n - i + (if found { 0int } else { 1int }),
        {
            if items[i].0 == key {
                proof {
                    assert(before[i as int].0 == items@[i as int].0@);
                }
                found = true;
            } else {
                proof {
                    assert(before[i as int].0 == items@[i as int].0@);
                }
                i = i + 1;
            }
        }
        proof {
            lemma_inserted_keeps_keys_distinct(before, key@, value@);
        }
        if found {
            proof {
                lemma_position_is_unique(before, key@, i as int);
            }
            items.set(i, (key, value));
        } else {
            proof {
                assert(!has_key(before, key@));
            }
            items.push((key, value));
        }
        let ghost after = Seq::new(items@.len(), |j: int| (items@[j].0@, items@[j].1@));
        proof {
            assert(after =~= inserted(before, key@, value@));
            assert((Pairs { items })@ =~= after);
        }
        *self = Pairs { items };
    }
}

/// Putting a value under a key leaves no key twice.
pub proof fn lemma_inserted_keeps_keys_distinct(
    entries: Seq<Entry>,
    key: Seq<char>,
    value: Seq<char>,
)
    requires
        distinct_keys(entries),
    ensures
        distinct_keys(inserted(entries, key, value)),
{
    let after = inserted(entries, key, value);
    if has_key(entries, key) {
        let p = position(entries, key);
        assert forall|i: int, j: int| 0 <= i < j < after.len() implies (#[trigger] after[i]).0 != (
        #[trigger] after[j]).0 by {
            assert(entries[i].0 != entries[j].0);
            if i == p {
                assert(after[j] == entries[j]);
            } else if j == p {
                assert(after[i] == entries[i]);
            } else {
                assert(after[i] == entries[i]);
                assert(after[j] == entries[j]);
            }
        }
    } else {
        assert forall|i: int, j: int| 0 <= i < j < after.len() implies (#[trigger] after[i]).0 != (
        #[trigger] after[j]).0 by {
            if j < entries.len() {
                assert(after[i] == entries[i]);
                assert(after[j] == entries[j]);
            } else {
                assert(after[i] == entries[i]);
                assert(after[j].0 == key);
            }
        }
    }
}

/// The pairs behave as a map: after a value was put under a key, looking
/// that key up gives the value, and every other key gives what it gave
/// before.
pub proof fn lemma_inserted_is_map_insert(
    entries: Seq<Entry>,
    key: Seq<char>,
    value: Seq<char>,
    other: Seq<char>,
)
    requires
        distinct_keys(entries),
    ensures
        lookup(inserted(entries, key, value), key) == Some(value),
        other != key ==> lookup(inserted(entries, key, value), other) == lookup(entries, other),
        has_key(entries, key) ==> inserted(entries, key, value).len() == entries.len(),
        !has_key(entries, key) ==> inserted(entries, key, value).len() == entries.len() + 1,
{
    let after = inserted(entries, key, value);
    lemma_inserted_keeps_keys_distinct(entries, key, value);
    let at: int = if has_key(entries, key) {
        position(entries, key)
    } else {
        entries.len() as int
    };
    assert(after[at] == (key, value));
    assert(has_key(after, key));
    lemma_position_is_unique(after, key, at);
    if other != key {
        if has_key(entries, other) {
            let q = position(entries, other);
            assert(q != at);
            assert(after[q] == entries[q]);
            assert(has_key(after, other));
            lemma_position_is_unique(after, other, q);
        } else {
            if has_key(after, other) {
                let q = position(after, other);
                assert(after[q].0 == other);
                assert(q != at);
                assert(after[q] == entries[q]);
                assert(false);
            }
        }
    }
}

/// Where no key occurs twice, an entry under a key is the entry under it.
pub proof fn lemma_position_is_unique(entries: Seq<Entry>, key: Seq<char>, at: int)
    requires
        distinct_keys(entries),
        0 <= at < entries.len(),
        entries[at].0 == key,
    ensures
        has_key(entries, key),
        position(entries, key) == at,
        lookup(entries, key) == Some(entries[at].1),
{
    assert(has_key(entries, key));
    let p = position(entries, key);
    assert(entries[p].0 == key);
    if p < at {
        assert(entries[p].0 != entries[at].0);
    } else if at < p {
        assert(entries[at].0 != entries[p].0);
    }
}

} // verus!
