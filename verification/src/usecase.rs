//! The create-user use case: validation first, then one repository call.
//! It depends only on the repository port, so the same validation policy
//! applies whatever the backing store, and a test double can stand in.

use vstd::prelude::*;

use crate::domain::{NewUser, User, ValidationError, valid_name};
use crate::repository::{CreateError, UserRepository};

verus! {

/// Orchestrates the creation of a user against any repository.
pub struct CreateUser<R: UserRepository> {
    repo: R,
}

impl<R: UserRepository> CreateUser<R> {
    pub fn new(repo: R) -> (r: Self)
        ensures
            r.repo() == repo,
    {
        CreateUser { repo }
    }

    /// The repository the use case runs against.
    pub closed spec fn repo(&self) -> R {
        self.repo
    }

    /// A borrow of the repository, for callers that go on using the store.
    pub fn repository(&self) -> (r: &R)
        ensures
            r == self.repo(),
    {
        &self.repo
    }

    /// Validates the candidate; on failure the validation error comes back
    /// at once and the repository is never invoked, so the store is exactly
    /// as it was. On success the call is delegated to the repository and
    /// its outcome is passed through unchanged.
    pub fn run(&mut self, user: NewUser) -> (r: Result<User, CreateError>)
        ensures
            !valid_name(user.name@) ==> {
                &&& r matches Err(e) && e == (CreateError::Validation(
                    ValidationError::NameEmpty,
                ))
                &&& final(self).repo() == old(self).repo()
            },
            r matches Ok(u) ==> {
                &&& valid_name(user.name@)
                &&& u.name@ == user.name@
                &&& u.age == user.age
                &&& final(self).repo().store() == old(self).repo().store().push(u@)
            },
            r matches Err(_) ==> final(self).repo().store() == old(self).repo().store(),
            (match r {
                Err(CreateError::Validation(v)) => v == ValidationError::NameEmpty && !valid_name(
                    user.name@,
                ),
                _ => true,
            }),
            old(self).repo().never_fails() ==> (r is Err <==> !valid_name(user.name@)),
    {
        match user.validate() {
            Ok(()) => (),
            Err(e) => {
                return Err(CreateError::Validation(e));
            },
        }
        self.repo.create_user(user)
    }
}

} // verus!
