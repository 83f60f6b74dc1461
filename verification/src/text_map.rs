//! A map from texts to values, kept in the order in which its keys came.

use vstd::prelude::*;

use crate::text::{text_eq, texts};

verus! {

/// The position of the first entry with the given key, or the number of
/// entries if there is none.
pub open spec fn position<T>(entries: Seq<(Seq<char>, T)>, key: Seq<char>) -> nat
    decreases entries.len(),
{
    if entries.len() == 0 || entries[0].0 == key {
        0
    } else {
        1 + position(entries.skip(1), key)
    }
}

/// The value under a key.
pub open spec fn lookup<T>(entries: Seq<(Seq<char>, T)>, key: Seq<char>) -> Option<T> {
    let i = position(entries, key);
    if i < entries.len() {
        Some(entries[i as int].1)
    } else {
        None
    }
}

/// The entries once a value stands under a key: in the place of the value
/// that stood there, or else at the end.
pub open spec fn inserted<T>(entries: Seq<(Seq<char>, T)>, key: Seq<char>, value: T) -> Seq<
    (Seq<char>, T),
> {
    let i = position(entries, key);
    if i < entries.len() {
        entries.update(i as int, (key, value))
    } else {
        entries.push((key, value))
    }
}

/// The entries without the one under a key.
pub open spec fn removed<T>(entries: Seq<(Seq<char>, T)>, key: Seq<char>) -> Seq<(Seq<char>, T)> {
    let i = position(entries, key);
    if i < entries.len() {
        entries.remove(i as int)
    } else {
        entries
    }
}

/// No key stands twice.
pub open spec fn distinct_keys<T>(entries: Seq<(Seq<char>, T)>) -> bool {
    forall|i: int, j: int|
        0 <= i < j < entries.len() ==> (#[trigger] entries[i]).0 != (#[trigger] entries[j]).0
}

/// The keys of the entries, in order.
pub open spec fn keys_of<T>(entries: Seq<(Seq<char>, T)>) -> Seq<Seq<char>> {
    entries.map_values(|e: (Seq<char>, T)| e.0)
}

/// What [`position`] means: the key stands there, and nowhere before.
pub proof fn lemma_position<T>(entries: Seq<(Seq<char>, T)>, key: Seq<char>)
    ensures
        position(entries, key) <= entries.len(),
        position(entries, key) < entries.len() ==> entries[position(entries, key) as int].0 == key,
        forall|i: int|
            0 <= i < position(entries, key) ==> (#[trigger] entries[i]).0 != key,
    decreases entries.len(),
{
    if entries.len() > 0 && entries[0].0 != key {
        let rest = entries.skip(1);
        lemma_position(rest, key);
        assert forall|i: int| 0 <= i < position(entries, key) implies (#[trigger] entries[i]).0
            != key by {
            if i > 0 {
                assert(rest[i - 1] == entries[i]);
            }
        }
    }
}

/// A position is determined by what [`lemma_position`] says of it.
pub proof fn lemma_position_unique<T>(entries: Seq<(Seq<char>, T)>, key: Seq<char>, i: int)
    requires
        0 <= i <= entries.len(),
        i < entries.len() ==> entries[i].0 == key,
        forall|k: int| 0 <= k < i ==> (#[trigger] entries[k]).0 != key,
    ensures
        position(entries, key) == i,
{
    lemma_position(entries, key);
    let p = position(entries, key) as int;
    if p < i {
        assert(entries[p].0 != key);
    } else if i < p {
        assert(entries[i].0 != key);
    }
}

/// After an insertion the key has the new value, every other key has the value
/// that it had, and no key stands twice if none did.
pub proof fn law_insert<T>(entries: Seq<(Seq<char>, T)>, key: Seq<char>, value: T)
    ensures
        lookup(inserted(entries, key, value), key) == Some(value),
        forall|other: Seq<char>|
            other != key ==> lookup(inserted(entries, key, value), other) == #[trigger] lookup(
                entries,
                other,
            ),
        distinct_keys(entries) ==> distinct_keys(inserted(entries, key, value)),
{
    let after = inserted(entries, key, value);
    lemma_position(entries, key);
    let p = position(entries, key) as int;
    lemma_position_unique(after, key, p);
    assert forall|other: Seq<char>| other != key implies lookup(after, other) == #[trigger] lookup(
        entries,
        other,
    ) by {
        lemma_position(entries, other);
        let q = position(entries, other) as int;
        if q < entries.len() {
            lemma_position_unique(after, other, q);
        } else {
            lemma_position_unique(after, other, after.len() as int);
        }
    }
}

/// After a removal from entries in which no key stands twice the key is gone,
/// every other key has the value that it had, and still no key stands twice.
pub proof fn law_remove<T>(entries: Seq<(Seq<char>, T)>, key: Seq<char>)
    requires
        distinct_keys(entries),
    ensures
        lookup(removed(entries, key), key) == None::<T>,
        forall|other: Seq<char>|
            other != key ==> lookup(removed(entries, key), other) == #[trigger] lookup(
                entries,
                other,
            ),
        distinct_keys(removed(entries, key)),
{
    let after = removed(entries, key);
    lemma_position(entries, key);
    let p = position(entries, key) as int;
    assert forall|k: int| 0 <= k < after.len() implies (#[trigger] after[k]).0 != key by {
        if p < entries.len() {
            if k < p {
                assert(after[k] == entries[k]);
            } else {
                assert(after[k] == entries[k + 1]);
                assert(entries[p].0 != entries[k + 1].0);
            }
        }
    }
    lemma_position_unique(after, key, after.len() as int);
    assert forall|other: Seq<char>| other != key implies lookup(after, other) == #[trigger] lookup(
        entries,
        other,
    ) by {
        lemma_position(entries, other);
        let q = position(entries, other) as int;
        if p >= entries.len() {
        } else if q < p {
            lemma_position_unique(after, other, q);
        } else {
            assert(q != p || q == entries.len());
            assert forall|k: int| 0 <= k < q - 1 implies (#[trigger] after[k]).0 != other by {
                if k < p {
                    assert(after[k] == entries[k]);
                } else {
                    assert(after[k] == entries[k + 1]);
                }
            }
            lemma_position_unique(after, other, q - 1);
        }
    }
    assert forall|i: int, j: int| 0 <= i < j < after.len() implies (#[trigger] after[i]).0 != (
    #[trigger] after[j]).0 by {
        if p < entries.len() {
            let i2 = if i < p { i } else { i + 1 };
            let j2 = if j < p { j } else { j + 1 };
            assert(after[i] == entries[i2] && after[j] == entries[j2]);
        }
    }
}

/// A map from texts to values.
#[derive(Debug)]
pub struct TextMap<V> {
    entries: Vec<(String, V)>,
}

impl<V: View> View for TextMap<V> {
    type V = Seq<(Seq<char>, V::V)>;

    closed spec fn view(&self) -> Seq<(Seq<char>, V::V)> {
        self.entries@.map_values(|e: (String, V)| (e.0@, e.1@))
    }
}

impl<V: View> TextMap<V> {
    /// A map without entries.
    pub fn new() -> (map: TextMap<V>)
        ensures
            map@ == Seq::<(Seq<char>, V::V)>::empty(),
    {
        let map = TextMap { entries: Vec::new() };
        assert(map@ == Seq::<(Seq<char>, V::V)>::empty());
        map
    }

    /// The number of entries.
    pub fn len(&self) -> (n: usize)
        ensures
            n == self@.len(),
    {
        self.entries.len()
    }

    /// The key of the entry at a position.
    pub fn key_at(&self, i: usize) -> (key: &String)
        requires
            i < self@.len(),
        ensures
            key@ == self@[i as int].0,
    {
        &self.entries[i].0
    }

    /// The value of the entry at a position.
    pub fn value_at(&self, i: usize) -> (value: &V)
        requires
            i < self@.len(),
        ensures
            value@ == self@[i as int].1,
    {
        &self.entries[i].1
    }

    fn find(&self, key: &str) -> (i: usize)
        ensures
            i == position(self@, key@),
    {
        for i in 0..self.entries.len()
            invariant
                self@.len() == self.entries@.len(),
                forall|k: int| 0 <= k < i ==> (#[trigger] self@[k]).0 != key@,
        {
            assert(self@[i as int].0 == self.entries@[i as int].0@);
            if text_eq(self.entries[i].0.as_str(), key) {
                proof {
                    lemma_position_unique(self@, key@, i as int);
                }
                return i;
            }
        }
        proof {
            lemma_position_unique(self@, key@, self@.len() as int);
        }
        self.entries.len()
    }

    /// The value under a key, if there is one.
    pub fn get(&self, key: &str) -> (value: Option<&V>)
        ensures
            match value {
                Some(v) => lookup(self@, key@) == Some(v@),
                None => lookup(self@, key@) is None,
            },
    {
        let i = self.find(key);
        if i < self.entries.len() {
            Some(&self.entries[i].1)
        } else {
            None
        }
    }

    /// Whether there is a value under a key.
    pub fn contains_key(&self, key: &str) -> (found: bool)
        ensures
            found == (lookup(self@, key@) is Some),
    {
        self.find(key) < self.entries.len()
    }

    /// Puts a value under a key.
    pub fn insert(&mut self, key: String, value: V)
        ensures
            final(self)@ == inserted(old(self)@, key@, value@),
            distinct_keys(old(self)@) ==> distinct_keys(final(self)@),
    {
        let i = self.find(key.as_str());
        let ghost before = self@;
        let ghost entry = (key@, value@);
        if i < self.entries.len() {
            self.entries.set(i, (key, value));
            assert(self@ == before.update(i as int, entry));
        } else {
            self.entries.push((key, value));
            assert(self@ == before.push(entry));
        }
        proof {
            law_insert(before, entry.0, entry.1);
        }
    }

    /// Removes the value under a key.
    pub fn remove(&mut self, key: &str)
        ensures
            final(self)@ == removed(old(self)@, key@),
            distinct_keys(old(self)@) ==> distinct_keys(final(self)@),
    {
        let i = self.find(key);
        let ghost before = self@;
        if i < self.entries.len() {
            self.entries.remove(i);
            assert(self@ == before.remove(i as int));
        }
        proof {
            if distinct_keys(before) {
                law_remove(before, key@);
            }
        }
    }

    /// The keys, in the order in which they came.
    pub fn keys(&self) -> (keys: Vec<String>)
        ensures
            texts(keys@) == keys_of(self@),
    {
        let mut keys: Vec<String> = Vec::new();
        for i in 0..self.entries.len()
            invariant
                texts(keys@) == keys_of(self@).take(i as int),
                self@.len() == self.entries@.len(),
        {
            let ghost before = texts(keys@);
            keys.push(self.entries[i].0.clone());
            assert(texts(keys@) == before.push(self@[i as int].0));
            assert(keys_of(self@).take(i + 1) == keys_of(self@).take(i as int).push(
                self@[i as int].0,
            ));
        }
        assert(keys_of(self@).take(self@.len() as int) == keys_of(self@));
        keys
    }
}

/// What is found under a key is the value of the first entry with that key, and
/// nothing exactly if no entry has it.
pub proof fn law_lookup_finds_the_first<T>(entries: Seq<(Seq<char>, T)>, key: Seq<char>, at: int)
    ensures
        lookup(entries, key) is None <==> forall|i: int|
            0 <= i < entries.len() ==> (#[trigger] entries[i]).0 != key,
        (0 <= at < entries.len() && entries[at].0 == key && forall|i: int|
            0 <= i < at ==> (#[trigger] entries[i]).0 != key) ==> lookup(entries, key) == Some(
            entries[at].1,
        ),
{
    lemma_position(entries, key);
    let p = position(entries, key) as int;
    if p < entries.len() {
        assert(entries[p].0 == key);
    }
    if 0 <= at < entries.len() && entries[at].0 == key && forall|i: int|
        0 <= i < at ==> (#[trigger] entries[i]).0 != key {
        lemma_position_unique(entries, key, at);
    }
}

/// Entries keep their places: an insertion changes the place of none, and puts a
/// new key at the end; a removal lets those behind it move up.
pub proof fn law_entries_keep_their_order<T>(
    entries: Seq<(Seq<char>, T)>,
    key: Seq<char>,
    value: T,
)
    requires
        distinct_keys(entries),
    ensures
        keys_of(inserted(entries, key, value)) == (if lookup(entries, key) is None {
            keys_of(entries).push(key)
        } else {
            keys_of(entries)
        }),
        lookup(entries, key) is None ==> removed(entries, key) == entries,
        lookup(entries, key) is Some ==> removed(entries, key).len() == entries.len() - 1,
{
    lemma_position(entries, key);
    let p = position(entries, key) as int;
    if p < entries.len() {
        assert(keys_of(inserted(entries, key, value)) == keys_of(entries));
    } else {
        assert(keys_of(inserted(entries, key, value)) == keys_of(entries).push(key));
    }
}

/// The view of a map leaves nothing out.
proof fn law_a_map_is_seen_whole<V: View>(map: TextMap<V>)
    ensures
        map@.len() == map.entries@.len(),
        forall|i: int|
            0 <= i < map.entries@.len() ==> #[trigger] map@[i] == (
                map.entries@[i].0@,
                map.entries@[i].1@,
            ),
{
}

/// The keys of entries are their names, in order.
pub proof fn law_keys_keep_their_order<T>(entries: Seq<(Seq<char>, T)>)
    ensures
        keys_of(entries).len() == entries.len(),
        forall|i: int| 0 <= i < entries.len() ==> #[trigger] keys_of(entries)[i] == entries[i].0,
{
}

} // verus!
