//! The user record.

use crate::helpers::enums::UserStatus;
use crate::traits::model::ModelTrait;
use vstd::prelude::*;

verus! {

/// A user as the store holds it.
#[derive(Clone, Debug)]
pub struct UserModel {
    pub id: String,
    pub first_name: String,
    pub last_name: String,
    pub user_status: UserStatus,
    pub created_at: u64,
    pub updated_at: u64,
    pub is_deleted: bool,
}

/// What a caller supplies to have a user created.
#[derive(Clone, Debug)]
pub struct UserCreateModel {
    pub first_name: String,
    pub last_name: String,
}

impl UserModel {
    /// A user with no name and no identifier yet: active, not deleted, both
    /// timestamps at zero.
    pub open spec fn is_blank(self) -> bool {
        &&& self.id@ == Seq::<char>::empty()
        &&& self.first_name@ == Seq::<char>::empty()
        &&& self.last_name@ == Seq::<char>::empty()
        &&& self.user_status == UserStatus::Active
        &&& self.created_at == 0
        &&& self.updated_at == 0
        &&& !self.is_deleted
    }
}

impl Default for UserModel {
    fn default() -> (r: Self)
        ensures
            r.is_blank(),
    {
        UserModel {
            id: String::new(),
            first_name: String::new(),
            last_name: String::new(),
            user_status: UserStatus::Active,
            created_at: 0,
            updated_at: 0,
            is_deleted: false,
        }
    }
}

impl UserCreateModel {
    /// The user to be stored: the two names as supplied, everything else as
    /// in a blank user.
    pub fn get_user_model(&self) -> (r: UserModel)
        ensures
            r.first_name@ == self.first_name@,
            r.last_name@ == self.last_name@,
            r.id@ == Seq::<char>::empty(),
            r.user_status == UserStatus::Active,
            r.created_at == 0,
            r.updated_at == 0,
            !r.is_deleted,
    {
        let mut user_model = UserModel::default();
        user_model.first_name = self.first_name.clone();
        user_model.last_name = self.last_name.clone();
        user_model
    }
}

impl ModelTrait for UserModel {
    type Rest = (Seq<char>, Seq<char>, UserStatus, bool);

    open spec fn model_rest(&self) -> (Seq<char>, Seq<char>, UserStatus, bool) {
        (self.first_name@, self.last_name@, self.user_status, self.is_deleted)
    }

    open spec fn model_id(&self) -> Seq<char> {
        self.id@
    }

    open spec fn model_created_at(&self) -> u64 {
        self.created_at
    }

    open spec fn model_updated_at(&self) -> u64 {
        self.updated_at
    }

    fn set_created_at(&mut self, created_at: u64)
        ensures
            final(self).id == old(self).id,
            final(self).first_name == old(self).first_name,
            final(self).last_name == old(self).last_name,
            final(self).user_status == old(self).user_status,
            final(self).is_deleted == old(self).is_deleted,
    {
        self.created_at = created_at;
    }

    fn set_id(&mut self, id: String)
        ensures
            final(self).first_name == old(self).first_name,
            final(self).last_name == old(self).last_name,
            final(self).user_status == old(self).user_status,
            final(self).is_deleted == old(self).is_deleted,
    {
        self.id = id;
    }

    fn set_updated_at(&mut self, updated_at: u64)
        ensures
            final(self).id == old(self).id,
            final(self).first_name == old(self).first_name,
            final(self).last_name == old(self).last_name,
            final(self).user_status == old(self).user_status,
            final(self).is_deleted == old(self).is_deleted,
    {
        self.updated_at = updated_at;
    }
}

} // verus!
