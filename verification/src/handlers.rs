//! The two handlers: each maps one decoded request to one response and
//! keeps no state.

use vstd::prelude::*;
use crate::http::StatusCode;
use crate::user::{CreateUser, CreateUserView, User, UserView, PLACEHOLDER_ID};

verus! {

/// The text the greeting endpoint answers with.
pub open spec fn greeting() -> Seq<char> {
    "Hello, World!"@
}

/// The user that answers a user-creation request: the placeholder
/// identifier, and the name exactly as it came.
pub open spec fn created_user(payload: CreateUserView) -> UserView {
    UserView { id: PLACEHOLDER_ID, username: payload.username }
}

/// The greeting handler: takes nothing, cannot fail.
pub fn root() -> (text: &'static str)
    ensures
        text@ == greeting(),
{
    "Hello, World!"
}

/// The user-creation handler. It takes a decoded request and cannot fail:
/// every failure lies in the decoding before it.
pub fn create_user(payload: CreateUser) -> (created: (StatusCode, User))
    ensures
        created.0 == StatusCode::CREATED,
        created.1@ == created_user(payload@),
{
    let user = User { id: PLACEHOLDER_ID, username: payload.username };
    (StatusCode::CREATED, user)
}

} // verus!
