//! The application layer's use cases.
//!
//! A use case is split in two: the pure part below builds the entity, and
//! the caller hands it to persistent storage afterwards.

use crate::user::{NewUserAttrs, User};
use vstd::prelude::*;

verus! {

/// The input of the create-user use case.
#[derive(Debug)]
pub struct CreateUserParams {
    pub user_attrs: NewUserAttrs,
}

/// The pure part of the create-user use case: builds the fresh user that
/// the caller then inserts into persistent storage.
pub fn create_user(params: CreateUserParams) -> (user: User)
    ensures
        user@.email == params.user_attrs.email@,
        user@.first_name == params.user_attrs.first_name@,
        user@.last_name == params.user_attrs.last_name.deep_view(),
        user@.created_at == user@.updated_at,
{
    let CreateUserParams { user_attrs } = params;
    User::new(user_attrs)
}

} // verus!
