use vstd::prelude::*;

use crate::error::{bad_request, bad_request_with, ApiError};

verus! {

#[derive(Debug, Clone)]
pub struct Session {
    pub access_token: String,
    pub user_id: String,
}

pub open spec fn user_id_message() -> Seq<char> {
    "user_id query parameter required (temporary - will use JWT later)"@
}

/// The user named by a request's `user_id` parameter, which is required.
pub fn get_user_id(user_id: Option<String>) -> (r: Result<String, ApiError>)
    ensures
        user_id matches Some(id) ==> r is Ok && r->Ok_0@ == id@,
        user_id is None ==> r is Err && bad_request_with(r->Err_0, user_id_message()),
{
    match user_id {
        Some(id) => Ok(id),
        None => Err(bad_request("user_id query parameter required (temporary - will use JWT later)")),
    }
}

} // verus!
