//! What is done for users.

use crate::database::core_service::{is_object_id, Namespace};
use crate::database::mongo_client::MongoClient;
use crate::helpers::clock::CLOCK_LIMIT;
use crate::helpers::enums::UserStatus;
use crate::models::user::{UserCreateModel, UserModel};
use vstd::prelude::*;

verus! {

/// The collection that holds the users.
pub const USERS: &'static str = "users";

/// Prepares a new user for the store: the two names as supplied, a new
/// identifier, the current time as both timestamps, active and not deleted.
/// Returns the user and the collection it is to be inserted into.
pub fn create_user(mongo_client: &MongoClient, input: &UserCreateModel) -> (r: (UserModel, Namespace))
    ensures
        mongo_client.targets(r.1, USERS@),
        r.0.first_name@ == input.first_name@,
        r.0.last_name@ == input.last_name@,
        is_object_id(r.0.id@),
        r.0.created_at == r.0.updated_at,
        r.0.created_at < CLOCK_LIMIT,
        r.0.user_status == UserStatus::Active,
        !r.0.is_deleted,
{
    let mut user_model = input.get_user_model();
    let namespace = mongo_client.create_one(USERS.to_string(), &mut user_model);
    (user_model, namespace)
}

} // verus!
