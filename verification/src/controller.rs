//! The controller layer: thin pass-throughs from the HTTP surface to the
//! repository port.

use vstd::prelude::*;

use crate::domain::User;
use crate::repository::{StoreError, UserRepository, views_of};

verus! {

/// Fetches all known users from the repository and hands them through
/// unchanged.
pub fn get_users<R: UserRepository>(repo: &R) -> (r: Result<Vec<User>, StoreError>)
    ensures
        r matches Ok(v) ==> views_of(v@) == repo.store(),
{
    repo.get_users()
}

} // verus!
