//! Objects: ordered entries under keys of the wire format.

use vstd::prelude::*;
use crate::field::{lemma_field_text_injective, Field};
use crate::json::{keys_distinct, Json};
use crate::value::{entries_of, json_of, map_insert, map_new, object_value};

verus! {

/// The keys of `entries` with the JSON values that the entries hold.
pub open spec fn fields_of(entries: Seq<(Field, serde_json::Value)>) -> Seq<(Field, Json)> {
    Seq::new(entries.len(), |i: int| (entries[i].0, json_of(entries[i].1)))
}

/// No key occurs twice in `fields`.
pub open spec fn fields_distinct(fields: Seq<(Field, Json)>) -> bool {
    forall|i: int, j: int|
        0 <= i < j < fields.len() ==> (#[trigger] fields[i]).0 != (#[trigger] fields[j]).0
}

/// The entries of the object that is written for `fields`: the same values in
/// the same order, each under the text of its key.
pub open spec fn object_entries(fields: Seq<(Field, Json)>) -> Seq<(Seq<char>, Json)> {
    Seq::new(fields.len(), |i: int| (fields[i].0.text(), fields[i].1))
}

/// The object that is written for `fields`.
pub open spec fn object(fields: Seq<(Field, Json)>) -> Json {
    Json::Object(object_entries(fields))
}

/// Distinct keys are written as distinct texts.
pub proof fn lemma_object_keys_distinct(fields: Seq<(Field, Json)>)
    requires
        fields_distinct(fields),
    ensures
        keys_distinct(object_entries(fields)),
{
    let entries = object_entries(fields);
    assert forall|i: int, j: int| 0 <= i < j < entries.len() implies (#[trigger] entries[i]).0 != (
    #[trigger] entries[j]).0 by {
        lemma_field_text_injective(fields[i].0, fields[j].0);
    }
}

/// An object is canonical where its keys are distinct and its values are
/// canonical.
pub proof fn lemma_object_is_canonical(fields: Seq<(Field, Json)>)
    requires
        fields_distinct(fields),
        forall|i: int| 0 <= i < fields.len() ==> (#[trigger] fields[i]).1.is_canonical(),
    ensures
        object(fields).is_canonical(),
{
    lemma_object_keys_distinct(fields);
    let entries = object_entries(fields);
    assert forall|i: int| 0 <= i < entries.len() implies (#[trigger] entries[i]).1.is_canonical(
    ) by {
        assert(entries[i].1 == fields[i].1);
    }
}

/// Appends an entry.
pub(crate) fn push_entry(
    entries: &mut Vec<(Field, serde_json::Value)>,
    field: Field,
    value: serde_json::Value,
)
    ensures
        fields_of(final(entries)@) == fields_of(old(entries)@).push((field, json_of(value))),
{
    entries.push((field, value));
    assert(fields_of(entries@) =~= fields_of(old(entries)@).push((field, json_of(value))));
}

/// Builds the object with the given entries, in their order.
pub(crate) fn object_from(entries: Vec<(Field, serde_json::Value)>) -> (value: serde_json::Value)
    requires
        fields_distinct(fields_of(entries@)),
    ensures
        json_of(value) == object(fields_of(entries@)),
{
    let ghost fields = fields_of(entries@);
    let mut map = map_new();
    for entry in it: entries.into_iter()
        invariant
            fields == fields_of(entries@),
            fields_distinct(fields),
            entries_of(map) == object_entries(fields).take(it.index() as int),
    {
        let ghost k = it.index() as int;
        proof {
            assert(entry == entries@[k]);
            assert forall|i: int| 0 <= i < entries_of(map).len() implies (#[trigger] entries_of(
                map,
            )[i]).0 != entry.0.text() by {
                lemma_field_text_injective(fields[i].0, fields[k].0);
            }
        }
        let (field, value) = entry;
        map_insert(&mut map, field.name().to_owned(), value);
        proof {
            assert(entries_of(map) =~= object_entries(fields).take(k + 1));
        }
    }
    assert(object_entries(fields).take(fields.len() as int) =~= object_entries(fields));
    object_value(map)
}

} // verus!
