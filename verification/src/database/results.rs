//! The store's answers: the documents that a cursor yields, and their
//! merging into one.
//!
//! An answer is a document of the driver, which may hold values of every
//! kind that the store knows. It is handed on as it came; only the merging
//! is done here, with the driver's own `extend`.

use crate::database::fields::{distinct_keys, merged, merged_all, merged_all_has_distinct_keys};
use vstd::prelude::*;

verus! {

/// The driver's document, `bson::Document`: an ordered map from field
/// names to values of any kind.
#[verifier::external_type_specification]
#[verifier::external_body]
pub struct ExDriverDocument(bson::Document);

/// The fields that a driver document holds, in its order: each field's name
/// with what stands for its value, the bytes of the value's BSON encoding.
pub uninterp spec fn document_fields(document: bson::Document) -> Seq<(Seq<char>, Seq<u8>)>;

/// `Clone::clone` of `bson::Document`: a second document with the same
/// fields.
pub assume_specification[ <bson::Document as Clone>::clone ](document: &bson::Document) -> (r:
    bson::Document)
    ensures
        document_fields(r) == document_fields(*document),
;

/// Makes a driver document with `bson::Document::new`.
///
/// Taken on trust: the new document has no fields.
#[verifier::external_body]
fn empty_document() -> (r: bson::Document)
    ensures
        document_fields(r) == Seq::<(Seq<char>, Seq<u8>)>::empty(),
{
    bson::Document::new()
}

/// Puts the fields of `more` into `target` with the `extend` of
/// `bson::Document`, which inserts them one by one in their order.
///
/// Taken on trust, as the insertion of the map behind the document has it:
/// a name that `target` already holds keeps its place and takes the value
/// of `more`, and a new name goes last.
#[verifier::external_body]
fn extend_document(target: &mut bson::Document, more: bson::Document)
    ensures
        document_fields(*final(target)) == merged(
            document_fields(*old(target)),
            document_fields(more),
        ),
{
    target.extend(more);
}

/// What each of a run of driver documents holds.
pub open spec fn fields_of(documents: Seq<bson::Document>) -> Seq<Seq<(Seq<char>, Seq<u8>)>> {
    Seq::new(documents.len(), |i: int| document_fields(documents[i]))
}

/// Merges the documents that a cursor yielded into one: starting from a
/// document with no fields, each is put into what came before it, so that
/// of two documents with the same field the later decides its value.
pub fn merge_results(documents: Vec<bson::Document>) -> (r: bson::Document)
    ensures
        document_fields(r) == merged_all(fields_of(documents@)),
        distinct_keys(document_fields(r)),
{
    proof {
        merged_all_has_distinct_keys(fields_of(documents@));
    }
    let mut result = empty_document();
    let ghost all = documents@;
    assert(fields_of(all).take(0) =~= Seq::<Seq<(Seq<char>, Seq<u8>)>>::empty());
    for document in it: documents
        invariant
            it.seq() == all,
            document_fields(result) == merged_all(fields_of(all).take(it.index() as int)),
    {
        let ghost k = it.index() as int;
        assert(fields_of(all).take(k + 1).drop_last() =~= fields_of(all).take(k));
        assert(fields_of(all).take(k + 1).last() == document_fields(all[k]));
        extend_document(&mut result, document);
    }
    assert(fields_of(all).take(all.len() as int) =~= fields_of(all));
    result
}

} // verus!
