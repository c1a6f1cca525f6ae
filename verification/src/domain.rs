//! The domain model: user records and the validation rule they obey.

use vstd::prelude::*;

verus! {

/// Identifier of a persisted user, an opaque wrapper around a 64-bit value.
/// Equality is by the underlying value.
#[derive(Clone, Copy, PartialEq, Eq, Structural, Debug)]
pub struct UserId(pub i64);

/// The mathematical model of a persisted user record.
pub struct UserView {
    pub id: int,
    pub name: Seq<char>,
    pub age: u32,
}

/// The mathematical model of a not-yet-persisted user.
pub struct NewUserView {
    pub name: Seq<char>,
    pub age: u32,
}

/// A persisted user record. Created by a repository adapter upon successful
/// insertion; callers receive independent copies.
#[derive(Debug)]
pub struct User {
    pub id: UserId,
    pub name: String,
    pub age: u32,
}

/// A candidate user that has no identity yet; it is consumed by a create
/// operation, which persists it and assigns an id.
#[derive(Debug)]
pub struct NewUser {
    pub name: String,
    pub age: u32,
}

impl View for User {
    type V = UserView;

    open spec fn view(&self) -> UserView {
        UserView { id: self.id.0 as int, name: self.name@, age: self.age }
    }
}

impl View for NewUser {
    type V = NewUserView;

    open spec fn view(&self) -> NewUserView {
        NewUserView { name: self.name@, age: self.age }
    }
}

impl Clone for User {
    fn clone(&self) -> (res: Self)
        ensures
            res@ == self@,
    {
        User { id: self.id, name: self.name.clone(), age: self.age }
    }
}

impl Clone for NewUser {
    fn clone(&self) -> (res: Self)
        ensures
            res@ == self@,
    {
        NewUser { name: self.name.clone(), age: self.age }
    }
}

impl PartialEq for User {
    fn eq(&self, other: &Self) -> (r: bool) {
        self.id == other.id && self.name == other.name && self.age == other.age
    }
}

impl vstd::std_specs::cmp::PartialEqSpecImpl for User {
    open spec fn obeys_eq_spec() -> bool {
        true
    }

    open spec fn eq_spec(&self, other: &Self) -> bool {
        self@ == other@
    }
}

impl PartialEq for NewUser {
    fn eq(&self, other: &Self) -> (r: bool) {
        self.name == other.name && self.age == other.age
    }
}

impl vstd::std_specs::cmp::PartialEqSpecImpl for NewUser {
    open spec fn obeys_eq_spec() -> bool {
        true
    }

    open spec fn eq_spec(&self, other: &Self) -> bool {
        self@ == other@
    }
}

/// The one validation rule of the domain: a name must be non-empty.
/// Age carries no constraint.
pub open spec fn valid_name(name: Seq<char>) -> bool {
    name.len() >= 1
}

/// A field-level contract violation, identifying the failing field.
#[derive(Clone, Copy, PartialEq, Eq, Structural, Debug)]
pub enum ValidationError {
    /// The `name` field is empty.
    NameEmpty,
}

impl ValidationError {
    /// The name of the field that failed validation.
    pub fn field(&self) -> (r: &'static str)
        ensures
            self is NameEmpty ==> r@ == "name"@,
    {
        match self {
            ValidationError::NameEmpty => "name",
        }
    }
}

impl NewUser {
    /// Checks the candidate against the domain rule: fails exactly when the
    /// name is empty, and never on account of the age.
    pub fn validate(&self) -> (r: Result<(), ValidationError>)
        ensures
            r matches Ok(()) <==> valid_name(self.name@),
            r matches Err(e) ==> e == ValidationError::NameEmpty,
    {
        if self.name.as_str().is_empty() {
            Err(ValidationError::NameEmpty)
        } else {
            Ok(())
        }
    }
}

impl User {
    /// Checks a stored record against the same rule as `NewUser::validate`.
    pub fn validate(&self) -> (r: Result<(), ValidationError>)
        ensures
            r matches Ok(()) <==> valid_name(self.name@),
            r matches Err(e) ==> e == ValidationError::NameEmpty,
    {
        if self.name.as_str().is_empty() {
            Err(ValidationError::NameEmpty)
        } else {
            Ok(())
        }
    }
}

} // verus!
