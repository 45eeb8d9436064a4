//! The documents that this library makes: the stages it adds to a
//! pipeline.
//!
//! Such a document is an ordered map from field names to values. It keeps
//! its fields in the order in which they came and holds no name twice. The
//! contracts speak of a document's view, the sequence of its fields.

use crate::database::fields::{
    distinct_keys, has_key, inserted, inserted_keeps_keys_distinct, key_index, key_index_is_unique,
    lookup,
};
use crate::helpers::text::same_text;
use vstd::prelude::*;

verus! {

/// A value that a document can hold.
#[derive(Debug, PartialEq, Eq)]
pub enum Value {
    Null,
    Boolean(bool),
    Int32(i32),
    Int64(i64),
    Text(String),
    Array(Vec<Value>),
    Document(StageDocument),
}

/// An ordered map from field names to values, as this library makes them
/// for the store. Its fields keep the order in which they came, and no name
/// occurs twice.
#[derive(Debug, PartialEq, Eq)]
pub struct StageDocument {
    entries: Vec<(String, Value)>,
}

/// A value as a value of mathematics.
pub enum ValueView {
    Null,
    Boolean(bool),
    Int32(i32),
    Int64(i64),
    Text(Seq<char>),
    Array(Seq<ValueView>),
    Document(Seq<(Seq<char>, ValueView)>),
}

/// The fields of a document, in order, as values of mathematics.
pub type Fields = Seq<(Seq<char>, ValueView)>;

/// What a value holds.
pub open spec fn value_view(value: Value) -> ValueView
    decreases value,
{
    match value {
        Value::Null => ValueView::Null,
        Value::Boolean(b) => ValueView::Boolean(b),
        Value::Int32(n) => ValueView::Int32(n),
        Value::Int64(n) => ValueView::Int64(n),
        Value::Text(text) => ValueView::Text(text@),
        Value::Array(items) => ValueView::Array(
            Seq::new(
                items@.len(),
                |i: int|
                    if 0 <= i < items@.len() {
                        value_view(items@[i])
                    } else {
                        ValueView::Null
                    },
            ),
        ),
        Value::Document(document) => ValueView::Document(fields_view(document)),
    }
}

/// The fields that a document holds, in order.
pub closed spec fn fields_view(document: StageDocument) -> Seq<(Seq<char>, ValueView)>
    decreases document,
{
    Seq::new(
        document.entries@.len(),
        |i: int|
            if 0 <= i < document.entries@.len() {
                (document.entries@[i].0@, value_view(document.entries@[i].1))
            } else {
                (Seq::<char>::empty(), ValueView::Null)
            },
    )
}

impl View for Value {
    type V = ValueView;

    open spec fn view(&self) -> ValueView {
        value_view(*self)
    }
}

impl View for StageDocument {
    type V = Seq<(Seq<char>, ValueView)>;

    open spec fn view(&self) -> Seq<(Seq<char>, ValueView)> {
        fields_view(*self)
    }
}

impl Clone for Value {
    fn clone(&self) -> (r: Self)
        ensures
            r@ == self@,
    {
        copy_of_value(self)
    }
}

impl Clone for StageDocument {
    fn clone(&self) -> (r: Self)
        ensures
            r@ == self@,
    {
        copy_of_document(self)
    }
}

/// Makes a second value that holds what `value` holds.
fn copy_of_value(value: &Value) -> (r: Value)
    ensures
        r@ == value@,
    decreases *value,
{
    match value {
        Value::Null => Value::Null,
        Value::Boolean(b) => Value::Boolean(*b),
        Value::Int32(n) => Value::Int32(*n),
        Value::Int64(n) => Value::Int64(*n),
        Value::Text(text) => Value::Text(text.clone()),
        Value::Array(items) => {
            let mut copies: Vec<Value> = Vec::new();
            let mut i: usize = 0;
            while i < items.len()
                invariant
                    i <= items.len(),
                    *value == Value::Array(*items),
                    copies@.len() == i,
                    forall|j: int| 0 <= j < i ==> (#[trigger] copies@[j])@ == items@[j]@,
                decreases items.len() - i,
            {
                proof {
                    assert(value->Array_0 == *items);
                    assert(decreases_to!(*value => value->Array_0));
                    vstd::std_specs::vec::axiom_vec_index_decreases(*items, i as int);
                }
                let copy = copy_of_value(&items[i]);
                copies.push(copy);
                i += 1;
            }
            let r = Value::Array(copies);
            assert(r@->Array_0 =~= value@->Array_0);
            r
        },
        Value::Document(document) => Value::Document(copy_of_document(document)),
    }
}

/// Makes a second document that holds what `document` holds.
fn copy_of_document(document: &StageDocument) -> (r: StageDocument)
    ensures
        r@ == document@,
    decreases *document,
{
    proof {
        use_type_invariant(document);
    }
    let mut entries: Vec<(String, Value)> = Vec::new();
    let mut i: usize = 0;
    while i < document.entries.len()
        invariant
            i <= document.entries.len(),
            entries@.len() == i,
            forall|j: int|
                0 <= j < i ==> (#[trigger] entries@[j]).0@ == document.entries@[j].0@
                    && entries@[j].1@ == document.entries@[j].1@,
        decreases document.entries.len() - i,
    {
        proof {
            vstd::std_specs::vec::axiom_vec_index_decreases(document.entries, i as int);
        }
        let key = document.entries[i].0.clone();
        let copy = copy_of_value(&document.entries[i].1);
        entries.push((key, copy));
        i += 1;
    }
    assert(fields_view(StageDocument { entries }) =~= fields_view(*document));
    StageDocument { entries }
}

impl Value {
    /// The value that stands for an unsigned number: a 32-bit integer where
    /// it fits in a signed one, a 64-bit integer where it does not. (No
    /// integer of the store holds a number above `i64::MAX`; of such a one
    /// the low 64 bits are kept.)
    pub open spec fn of_u64(n: u64) -> ValueView {
        if n <= i32::MAX {
            ValueView::Int32(n as i32)
        } else {
            ValueView::Int64(n as i64)
        }
    }

    /// Makes the value that stands for an unsigned number.
    pub fn from_u64(n: u64) -> (r: Value)
        ensures
            r@ == Value::of_u64(n),
    {
        if n <= 0x7fff_ffff {
            Value::Int32(n as i32)
        } else {
            Value::Int64(n as i64)
        }
    }

    /// Makes a text value.
    pub fn text(text: &str) -> (r: Value)
        ensures
            r@ == ValueView::Text(text@),
    {
        Value::Text(text.to_owned())
    }

    /// Makes an array of one value.
    pub fn array1(first: Value) -> (r: Value)
        ensures
            r@ == ValueView::Array(seq![first@]),
    {
        let mut items: Vec<Value> = Vec::new();
        items.push(first);
        let r = Value::Array(items);
        assert(r@->Array_0 =~= seq![first@]);
        r
    }

    /// Makes an array of two values.
    pub fn array2(first: Value, second: Value) -> (r: Value)
        ensures
            r@ == ValueView::Array(seq![first@, second@]),
    {
        let mut items: Vec<Value> = Vec::new();
        items.push(first);
        items.push(second);
        let r = Value::Array(items);
        assert(r@->Array_0 =~= seq![first@, second@]);
        r
    }
}

impl StageDocument {
    #[verifier::type_invariant]
    spec fn keys_are_distinct(self) -> bool {
        distinct_keys(fields_view(self))
    }

    /// Makes a document with no fields.
    pub fn new() -> (r: StageDocument)
        ensures
            r@ == Seq::<(Seq<char>, ValueView)>::empty(),
    {
        let r = StageDocument { entries: Vec::new() };
        assert(r@ =~= Seq::<(Seq<char>, ValueView)>::empty());
        r
    }

    /// Makes a document with one field.
    pub fn single(key: &str, value: Value) -> (r: StageDocument)
        ensures
            r@ == seq![(key@, value@)],
    {
        let mut entries: Vec<(String, Value)> = Vec::new();
        entries.push((key.to_owned(), value));
        let r = StageDocument { entries };
        assert(r@ =~= seq![(key@, value@)]);
        r
    }

    /// The fields in order, each a name and a value.
    pub fn entries(&self) -> (r: &Vec<(String, Value)>)
        ensures
            r@.len() == self@.len(),
            forall|i: int| 0 <= i < r@.len() ==> (#[trigger] r@[i]).0@ == self@[i].0 && r@[i].1@ == self@[i].1,
            distinct_keys(self@),
    {
        proof {
            use_type_invariant(self);
        }
        &self.entries
    }

    /// The place of the field named `key`, if there is one.
    fn position(&self, key: &str) -> (r: Option<usize>)
        ensures
            distinct_keys(self@),
            match r {
                Some(i) => i < self@.len() && has_key(self@, key@) && key_index(self@, key@) == i,
                None => !has_key(self@, key@),
            },
    {
        proof {
            use_type_invariant(self);
        }
        let mut i: usize = 0;
        while i < self.entries.len()
            invariant
                i <= self.entries.len(),
                distinct_keys(self@),
                forall|j: int| 0 <= j < i ==> (#[trigger] self@[j]).0 != key@,
            decreases self.entries.len() - i,
        {
            if same_text(self.entries[i].0.as_str(), key) {
                proof {
                    key_index_is_unique(self@, key@, i as int);
                }
                return Some(i);
            }
            i += 1;
        }
        None
    }

    /// The value under `key`, if there is one.
    pub fn get(&self, key: &str) -> (r: Option<&Value>)
        ensures
            match r {
                Some(value) => lookup(self@, key@) == Some(value@),
                None => lookup(self@, key@) is None,
            },
    {
        match self.position(key) {
            Some(i) => Some(&self.entries[i].1),
            None => None,
        }
    }

    /// Puts `value` under `key`. A field of that name keeps its place, takes
    /// the new value, and its old value is returned; a new name goes last.
    pub fn insert(&mut self, key: String, value: Value) -> (r: Option<Value>)
        ensures
            final(self)@ == inserted(old(self)@, key@, value@),
            match r {
                Some(replaced) => lookup(old(self)@, key@) == Some(replaced@),
                None => lookup(old(self)@, key@) is None,
            },
    {
        let ghost before = self@;
        proof {
            use_type_invariant(&*self);
            inserted_keeps_keys_distinct(before, key@, value@);
        }
        match self.position(key.as_str()) {
            Some(i) => {
                let mut entries: Vec<(String, Value)> = Vec::new();
                core::mem::swap(&mut entries, &mut self.entries);
                let replaced = entries.remove(i);
                entries.insert(i, (key, value));
                assert(fields_view(StageDocument { entries }) =~= inserted(before, key@, value@));
                self.entries = entries;
                Some(replaced.1)
            },
            None => {
                let mut entries: Vec<(String, Value)> = Vec::new();
                core::mem::swap(&mut entries, &mut self.entries);
                entries.push((key, value));
                assert(fields_view(StageDocument { entries }) =~= inserted(before, key@, value@));
                self.entries = entries;
                None
            },
        }
    }
}

/// What each of a run of documents holds.
pub open spec fn views_of(documents: Seq<StageDocument>) -> Seq<Fields> {
    Seq::new(documents.len(), |i: int| documents[i]@)
}

} // verus!
