//! Ordered fields: the sequences of named values that documents hold, and
//! what putting a value under a name and merging do to them.
//!
//! Nothing here looks into a value, so every function is stated for any
//! kind of value.

use vstd::prelude::*;

verus! {

/// A sequence of fields: each a name and a value of the kind `V`.
pub type FieldSeq<V> = Seq<(Seq<char>, V)>;

/// Whether some field of `fields` has the name `key`.
pub open spec fn has_key<V>(fields: FieldSeq<V>, key: Seq<char>) -> bool {
    exists|i: int| 0 <= i < fields.len() && (#[trigger] fields[i]).0 == key
}

/// The place of a field named `key`, where there is one.
pub open spec fn key_index<V>(fields: FieldSeq<V>, key: Seq<char>) -> int {
    choose|i: int| 0 <= i < fields.len() && (#[trigger] fields[i]).0 == key
}

/// Whether no name occurs twice.
pub open spec fn distinct_keys<V>(fields: FieldSeq<V>) -> bool {
    forall|i: int, j: int|
        0 <= i < j < fields.len() ==> (#[trigger] fields[i]).0 != (#[trigger] fields[j]).0
}

/// The value under `key`, where there is one.
pub open spec fn lookup<V>(fields: FieldSeq<V>, key: Seq<char>) -> Option<V> {
    if has_key(fields, key) {
        Some(fields[key_index(fields, key)].1)
    } else {
        None
    }
}

/// The fields after `value` is put under `key`: a field of that name keeps
/// its place and takes the new value; a new name goes last.
pub open spec fn inserted<V>(fields: FieldSeq<V>, key: Seq<char>, value: V) -> FieldSeq<V> {
    if has_key(fields, key) {
        fields.update(key_index(fields, key), (key, value))
    } else {
        fields.push((key, value))
    }
}

/// The fields after those of `more` are put into `fields` one by one, in
/// their order: where a name is in both, the value of `more` stands, in the
/// place that the name had.
pub open spec fn merged<V>(fields: FieldSeq<V>, more: FieldSeq<V>) -> FieldSeq<V>
    decreases more.len(),
{
    if more.len() == 0 {
        fields
    } else {
        inserted(merged(fields, more.drop_last()), more.last().0, more.last().1)
    }
}

/// The one document that a run of documents comes to when each is merged
/// into what came before it, starting from nothing.
pub open spec fn merged_all<V>(documents: Seq<FieldSeq<V>>) -> FieldSeq<V>
    decreases documents.len(),
{
    if documents.len() == 0 {
        Seq::<(Seq<char>, V)>::empty()
    } else {
        merged(merged_all(documents.drop_last()), documents.last())
    }
}

/// Where no name occurs twice, a name is found in one place only.
pub proof fn key_index_is_unique<V>(fields: FieldSeq<V>, key: Seq<char>, i: int)
    requires
        distinct_keys(fields),
        0 <= i < fields.len(),
        fields[i].0 == key,
    ensures
        has_key(fields, key),
        key_index(fields, key) == i,
{
    let found = key_index(fields, key);
    if found < i {
        assert(fields[found].0 != fields[i].0);
    } else if i < found {
        assert(fields[i].0 != fields[found].0);
    }
}

/// Putting a value under a name keeps the names distinct.
pub proof fn inserted_keeps_keys_distinct<V>(fields: FieldSeq<V>, key: Seq<char>, value: V)
    requires
        distinct_keys(fields),
    ensures
        distinct_keys(inserted(fields, key, value)),
{
    let after = inserted(fields, key, value);
    if has_key(fields, key) {
        let at = key_index(fields, key);
        assert forall|i: int, j: int| 0 <= i < j < after.len() implies (#[trigger] after[i]).0 != (
        #[trigger] after[j]).0 by {
            assert(fields[i].0 != fields[j].0);
        }
    } else {
        assert forall|i: int, j: int| 0 <= i < j < after.len() implies (#[trigger] after[i]).0 != (
        #[trigger] after[j]).0 by {
            if j < fields.len() {
                assert(fields[i].0 != fields[j].0);
            } else {
                assert(fields[i].0 != key);
            }
        }
    }
}

/// What was put under a name is what is found under it.
pub proof fn lookup_finds_what_was_inserted<V>(fields: FieldSeq<V>, key: Seq<char>, value: V)
    requires
        distinct_keys(fields),
    ensures
        lookup(inserted(fields, key, value), key) == Some(value),
{
    let after = inserted(fields, key, value);
    inserted_keeps_keys_distinct(fields, key, value);
    if has_key(fields, key) {
        let at = key_index(fields, key);
        assert(after[at].0 == key);
        key_index_is_unique(after, key, at);
    } else {
        let at = fields.len() as int;
        assert(after[at].0 == key);
        key_index_is_unique(after, key, at);
    }
}

/// Putting a value under one name changes nothing under another.
pub proof fn insert_leaves_other_keys<V>(
    fields: FieldSeq<V>,
    key: Seq<char>,
    value: V,
    other: Seq<char>,
)
    requires
        distinct_keys(fields),
        other != key,
    ensures
        lookup(inserted(fields, key, value), other) == lookup(fields, other),
{
    let after = inserted(fields, key, value);
    inserted_keeps_keys_distinct(fields, key, value);
    if has_key(fields, other) {
        let at = key_index(fields, other);
        assert(after[at] == fields[at]);
        key_index_is_unique(after, other, at);
    } else {
        if has_key(after, other) {
            let at = key_index(after, other);
            if at < fields.len() {
                assert(fields[at].0 == other);
            }
        }
    }
}

/// Merging keeps the names distinct.
pub proof fn merged_keeps_keys_distinct<V>(fields: FieldSeq<V>, more: FieldSeq<V>)
    requires
        distinct_keys(fields),
    ensures
        distinct_keys(merged(fields, more)),
    decreases more.len(),
{
    if more.len() > 0 {
        merged_keeps_keys_distinct(fields, more.drop_last());
        inserted_keeps_keys_distinct(
            merged(fields, more.drop_last()),
            more.last().0,
            more.last().1,
        );
    }
}

/// Whatever the documents hold, what they are merged into holds no name
/// twice.
pub proof fn merged_all_has_distinct_keys<V>(documents: Seq<FieldSeq<V>>)
    ensures
        distinct_keys(merged_all(documents)),
    decreases documents.len(),
{
    if documents.len() > 0 {
        merged_all_has_distinct_keys(documents.drop_last());
        merged_keeps_keys_distinct(merged_all(documents.drop_last()), documents.last());
    }
}

/// The value of the last field of `fields` that is named `key`, if there
/// is one.
pub open spec fn last_value<V>(fields: FieldSeq<V>, key: Seq<char>) -> Option<V>
    decreases fields.len(),
{
    if fields.len() == 0 {
        None
    } else if fields.last().0 == key {
        Some(fields.last().1)
    } else {
        last_value(fields.drop_last(), key)
    }
}

/// What a run of documents says of `key`: the value of the last field of
/// that name in the last document that has one.
pub open spec fn decided<V>(documents: Seq<FieldSeq<V>>, key: Seq<char>) -> Option<V>
    decreases documents.len(),
{
    if documents.len() == 0 {
        None
    } else {
        match last_value(documents.last(), key) {
            Some(value) => Some(value),
            None => decided(documents.drop_last(), key),
        }
    }
}

/// Where no name occurs twice, the last field of a name is the only one.
pub proof fn last_value_is_lookup<V>(fields: FieldSeq<V>, key: Seq<char>)
    requires
        distinct_keys(fields),
    ensures
        last_value(fields, key) == lookup(fields, key),
    decreases fields.len(),
{
    if fields.len() > 0 {
        let front = fields.drop_last();
        if fields.last().0 == key {
            key_index_is_unique(fields, key, fields.len() - 1);
        } else {
            assert forall|i: int, j: int| 0 <= i < j < front.len() implies (#[trigger] front[i]).0
                != (#[trigger] front[j]).0 by {
                assert(fields[i].0 != fields[j].0);
            }
            last_value_is_lookup(front, key);
            if has_key(front, key) {
                let at = key_index(front, key);
                assert(fields[at] == front[at]);
                key_index_is_unique(fields, key, at);
            } else if has_key(fields, key) {
                let at = key_index(fields, key);
                assert(front[at].0 == key);
            }
        }
    }
}

/// After a merge, a name carries the value of its last field in the second
/// document, or, where the second document has no such field, what it
/// carried before: later fields overwrite earlier ones.
pub proof fn merge_takes_the_last_value<V>(fields: FieldSeq<V>, more: FieldSeq<V>, key: Seq<char>)
    requires
        distinct_keys(fields),
    ensures
        lookup(merged(fields, more), key) == (match last_value(more, key) {
            Some(value) => Some(value),
            None => lookup(fields, key),
        }),
    decreases more.len(),
{
    if more.len() > 0 {
        let front = more.drop_last();
        let before = merged(fields, front);
        merged_keeps_keys_distinct(fields, front);
        if more.last().0 == key {
            lookup_finds_what_was_inserted(before, more.last().0, more.last().1);
        } else {
            insert_leaves_other_keys(before, more.last().0, more.last().1, key);
            merge_takes_the_last_value(fields, front, key);
        }
    }
}

/// In the document that a run of documents is merged into, a name carries
/// the value that the last document with that name gives it, and a name
/// that no document has is not there. This holds of any documents.
pub proof fn merged_all_takes_the_last_value<V>(documents: Seq<FieldSeq<V>>, key: Seq<char>)
    ensures
        lookup(merged_all(documents), key) == decided(documents, key),
    decreases documents.len(),
{
    if documents.len() > 0 {
        let front = documents.drop_last();
        merged_all_has_distinct_keys(front);
        merge_takes_the_last_value(merged_all(front), documents.last(), key);
        merged_all_takes_the_last_value(front, key);
    } else {
        assert(!has_key(merged_all(documents), key));
    }
}

} // verus!
