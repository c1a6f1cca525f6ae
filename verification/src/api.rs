//! The decisions of the HTTP handlers, separated from the web framework:
//! which status code and which body each repository outcome is answered
//! with. The host's router parses paths and carries these answers out.

use vstd::prelude::*;
use vstd::string::StringExecFns;

use crate::domain::User;
use crate::json::{json_of_user, json_of_users, render_user, render_users};
use crate::repository::{StoreError, views_of};

verus! {

/// What a handler answers: a status code and a body.
#[derive(Debug)]
pub struct ApiResponse {
    pub status: u16,
    pub body: String,
}

/// The answer of `GET /api/v1/users`: 200 with the JSON array of all users
/// on success, 500 with the error text on a store failure.
pub fn users_response(r: Result<Vec<User>, StoreError>) -> (resp: ApiResponse)
    ensures
        r matches Ok(v) ==> resp.status == 200 && resp.body@ == json_of_users(views_of(v@)),
        r matches Err(e) ==> resp.status == 500 && resp.body@ == e.message@,
{
    match r {
        Ok(v) => ApiResponse { status: 200, body: render_users(&v) },
        Err(e) => ApiResponse { status: 500, body: e.message },
    }
}

/// The answer of `GET /api/v1/users/{id}`: 200 with the JSON record when
/// the id is known, 200 with a JSON `null` body when it is not (an absent
/// user is a normal outcome here, not an error), and 500 with the error
/// text on a store failure.
pub fn user_response(r: Result<Option<User>, StoreError>) -> (resp: ApiResponse)
    ensures
        (match r {
            Ok(Some(u)) => resp.status == 200 && resp.body@ == json_of_user(u@),
            Ok(None) => resp.status == 200 && resp.body@ == "null"@,
            Err(e) => resp.status == 500 && resp.body@ == e.message@,
        }),
{
    match r {
        Ok(Some(u)) => ApiResponse { status: 200, body: render_user(&u) },
        Ok(None) => ApiResponse { status: 200, body: String::from_str("null") },
        Err(e) => ApiResponse { status: 500, body: e.message },
    }
}

} // verus!
