//! The mathematical model of a JSON value.

use vstd::prelude::*;

verus! {

/// A JSON value as contracts speak of it.
///
/// An object is a sequence of entries, not a map: the order of its keys is
/// part of what the projection promises. Numbers are integers, the only
/// numbers the projection writes.
pub ghost enum Json {
    /// `null`.
    Null,
    /// `true` or `false`.
    Bool(bool),
    /// An integer.
    Number(int),
    /// A string, by its characters.
    Text(Seq<char>),
    /// An array, by its items in their order.
    Array(Seq<Json>),
    /// An object, by its entries in their order: each a key and the value
    /// under it.
    Object(Seq<(Seq<char>, Json)>),
}

/// Whether some entry of `entries` is stored under `key`.
pub open spec fn has_key(entries: Seq<(Seq<char>, Json)>, key: Seq<char>) -> bool {
    exists|i: int| 0 <= i < entries.len() && (#[trigger] entries[i]).0 == key
}

/// No key occurs twice in `entries`.
pub open spec fn keys_distinct(entries: Seq<(Seq<char>, Json)>) -> bool {
    forall|i: int, j: int|
        0 <= i < j < entries.len() ==> (#[trigger] entries[i]).0 != (#[trigger] entries[j]).0
}

/// The value stored under `key`, if there is one.
pub open spec fn lookup(entries: Seq<(Seq<char>, Json)>, key: Seq<char>) -> Option<Json> {
    if has_key(entries, key) {
        Some(entries[choose|i: int| 0 <= i < entries.len() && (#[trigger] entries[i]).0 == key].1)
    } else {
        None
    }
}

impl Json {
    /// The entries of an object; empty for every other kind of value.
    pub open spec fn entries(self) -> Seq<(Seq<char>, Json)> {
        match self {
            Json::Object(entries) => entries,
            _ => Seq::empty(),
        }
    }

    /// Whether this is an object with an entry under `key`.
    pub open spec fn has(self, key: Seq<char>) -> bool {
        has_key(self.entries(), key)
    }

    /// The value this object stores under `key`, if any.
    pub open spec fn get(self, key: Seq<char>) -> Option<Json> {
        lookup(self.entries(), key)
    }

    /// Whether the value is free of `null` and of repeated keys, all the way
    /// down: no `null` stands anywhere in it, and no object in it has two
    /// entries under one key.
    pub open spec fn is_canonical(self) -> bool
        decreases self,
    {
        match self {
            Json::Null => false,
            Json::Array(items) => forall|i: int|
                0 <= i < items.len() ==> (#[trigger] items[i]).is_canonical(),
            Json::Object(entries) => keys_distinct(entries) && forall|i: int|
                0 <= i < entries.len() ==> (#[trigger] entries[i]).1.is_canonical(),
            _ => true,
        }
    }
}

/// Where the keys are distinct, the entry at index `i` is the one `lookup`
/// finds for its key.
pub proof fn lemma_lookup_at(entries: Seq<(Seq<char>, Json)>, i: int)
    requires
        keys_distinct(entries),
        0 <= i < entries.len(),
    ensures
        has_key(entries, entries[i].0),
        lookup(entries, entries[i].0) == Some(entries[i].1),
{
    let key = entries[i].0;
    let j = choose|j: int| 0 <= j < entries.len() && (#[trigger] entries[j]).0 == key;
    assert(j == i);
}

} // verus!
