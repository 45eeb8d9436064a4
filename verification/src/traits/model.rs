//! The capability that lets any record be stamped.

use vstd::prelude::*;

verus! {

/// What a record must offer so that the store handle can stamp it without
/// knowing the rest of its shape: a settable identifier and two settable
/// timestamps, in seconds since the epoch.
///
/// The four spec functions say what a record holds. A record type defines
/// them, and its setters are held to the contracts below.
pub trait ModelTrait {
    /// What a record holds besides its identifier and its two timestamps,
    /// as a value of mathematics.
    type Rest;

    /// What the record holds besides its identifier and its two timestamps.
    spec fn model_rest(&self) -> Self::Rest;

    /// The identifier the record carries.
    spec fn model_id(&self) -> Seq<char>;

    /// When the record was created.
    spec fn model_created_at(&self) -> u64;

    /// When the record was last changed.
    spec fn model_updated_at(&self) -> u64;

    /// Replaces the identifier and nothing else.
    fn set_id(&mut self, id: String)
        ensures
            final(self).model_id() == id@,
            final(self).model_created_at() == old(self).model_created_at(),
            final(self).model_updated_at() == old(self).model_updated_at(),
            final(self).model_rest() == old(self).model_rest(),
    ;

    /// Replaces the creation time and nothing else.
    fn set_created_at(&mut self, created_at: u64)
        ensures
            final(self).model_created_at() == created_at,
            final(self).model_id() == old(self).model_id(),
            final(self).model_updated_at() == old(self).model_updated_at(),
            final(self).model_rest() == old(self).model_rest(),
    ;

    /// Replaces the time of the last change and nothing else.
    fn set_updated_at(&mut self, updated_at: u64)
        ensures
            final(self).model_updated_at() == updated_at,
            final(self).model_id() == old(self).model_id(),
            final(self).model_created_at() == old(self).model_created_at(),
            final(self).model_rest() == old(self).model_rest(),
    ;
}

} // verus!
