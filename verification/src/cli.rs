//! The command-line flow: create one user against a fresh in-memory store.
//! The host entry point parses the arguments and prints what comes back.

use vstd::prelude::*;

use crate::domain::{NewUser, User, ValidationError, valid_name};
use crate::memory::OnMemoryRepository;
use crate::repository::{CreateError, UserRepository};

verus! {

/// Creates one user, for the given name and age, in an in-memory store that
/// lives only for this call: the candidate is validated first, then stored.
/// An empty name is rejected before the store is touched; any other name is
/// owed success, for the in-memory store never fails, and the record comes
/// back with an id drawn from 32 random bits.
pub fn create_user(name: String, age: u32) -> (r: Result<User, CreateError>)
    ensures
        !valid_name(name@) ==> (r matches Err(e) && e == (CreateError::Validation(
            ValidationError::NameEmpty,
        ))),
        valid_name(name@) ==> (r matches Ok(u) && u.name@ == name@ && u.age == age && 0 <= u.id.0
            <= u32::MAX),
{
    let mut repo = OnMemoryRepository::new();
    let candidate = NewUser { name, age };
    match candidate.validate() {
        Ok(()) => (),
        Err(e) => {
            return Err(CreateError::Validation(e));
        },
    }
    repo.create_user(candidate)
}

} // verus!
