//! The repository port: the abstract persistence contract on users that the
//! use case and the controllers consume, independent of the backing store.

use vstd::prelude::*;

use crate::domain::{NewUser, User, UserId, UserView, ValidationError, valid_name};

verus! {

/// The models of a sequence of user records.
pub open spec fn views_of(s: Seq<User>) -> Seq<UserView> {
    s.map_values(|u: User| u@)
}

/// The first record of `s` whose id is `id`, or `None` where no record
/// matches. Where several records share an id, the earliest wins.
pub open spec fn first_with_id(s: Seq<UserView>, id: int) -> Option<UserView>
    decreases s.len(),
{
    if s.len() == 0 {
        None
    } else if s[0].id == id {
        Some(s[0])
    } else {
        first_with_id(s.drop_first(), id)
    }
}

/// Lookup correctness after a create: a store that grew by one record whose
/// id no earlier record carries finds exactly that record under its id. With
/// `create_user`'s contract this says that looking up the id a successful
/// create returned yields the created record, as long as the id was fresh;
/// where an earlier record already carries the id, that earlier record wins
/// the scan instead.
pub proof fn lemma_lookup_after_create(pre: Seq<UserView>, u: UserView)
    requires
        forall|i: int| 0 <= i < pre.len() ==> pre[i].id != u.id,
    ensures
        first_with_id(pre.push(u), u.id) == Some(u),
    decreases pre.len(),
{
    if pre.len() == 0 {
        assert(pre.push(u)[0] == u);
    } else {
        assert(pre.push(u)[0] == pre[0]);
        assert(pre.push(u).drop_first() =~= pre.drop_first().push(u));
        lemma_lookup_after_create(pre.drop_first(), u);
    }
}

/// List completeness: a store that grew only by the created records holds
/// the earlier records unchanged at their slots, followed by each created
/// record at its own. With `create_user`'s contract (each success pushes
/// exactly the created record) and `get_users`' (a success returns exactly
/// the contents), a list drawn after any number of successful creates has
/// exactly that many new entries, each matching its create input.
pub proof fn lemma_list_after_creates(pre: Seq<UserView>, created: Seq<UserView>)
    ensures
        (pre + created).len() == pre.len() + created.len(),
        forall|k: int| 0 <= k < pre.len() ==> (pre + created)[k] == pre[k],
        forall|k: int| 0 <= k < created.len() ==> (pre + created)[pre.len() + k] == created[k],
{
}

/// Lookup of an id never assigned: an id that no record carries is not
/// found, and per `get_user`'s contract that is the empty outcome, not an
/// error.
pub proof fn lemma_lookup_absent(s: Seq<UserView>, id: int)
    requires
        forall|i: int| 0 <= i < s.len() ==> s[i].id != id,
    ensures
        first_with_id(s, id) is None,
    decreases s.len(),
{
    if s.len() > 0 {
        lemma_lookup_absent(s.drop_first(), id);
    }
}

/// An opaque failure of the backing store (connection loss, constraint
/// violation). Carries a human-readable message and nothing more.
#[derive(Debug)]
pub struct StoreError {
    pub message: String,
}

impl StoreError {
    pub fn new(message: String) -> (r: Self)
        ensures
            r.message@ == message@,
    {
        StoreError { message }
    }
}

/// What a create operation can fail with: a field-level contract violation,
/// or a failure of the backing store. Keeping the two apart lets the HTTP
/// layer answer a bad request and a server fault differently.
#[derive(Debug)]
pub enum CreateError {
    Validation(ValidationError),
    Store(StoreError),
}

/// The abstract capability set of a user store. An adapter models its
/// contents as a sequence of user records, `store`; each method's contract
/// is stated against that sequence.
pub trait UserRepository: Sized {
    /// The records the adapter currently holds, in its own canonical order.
    /// An adapter overrides this; the default stands only so that unverified
    /// test doubles outside the library can leave it untouched.
    open spec fn store(&self) -> Seq<UserView> {
        Seq::empty()
    }

    /// Whether this adapter's operations are owed success. An adapter whose
    /// store lives in process memory overrides this with `true`, and each
    /// method below then promises `Ok`; the default claims nothing, as a
    /// backing store behind a connection may always fail.
    open spec fn never_fails(&self) -> bool {
        false
    }

    /// Returns all known records. A failure of the backing store is an
    /// error; a success returns exactly the contents.
    fn get_users(&self) -> (r: Result<Vec<User>, StoreError>)
        ensures
            r matches Ok(v) ==> views_of(v@) == self.store(),
            self.never_fails() ==> r is Ok,
    ;

    /// Returns the first record whose id matches, or `None` where no record
    /// does. An absent record is a normal outcome, never an error.
    fn get_user(&self, id: &UserId) -> (r: Result<Option<User>, StoreError>)
        ensures
            r matches Ok(o) ==> (match o {
                Some(u) => first_with_id(self.store(), id.0 as int) == Some(u@),
                None => first_with_id(self.store(), id.0 as int) is None,
            }),
            self.never_fails() ==> r is Ok,
    ;

    /// Persists a candidate: on success the store grows by exactly the new
    /// record, which keeps the candidate's name and age and carries the id
    /// the store assigned. On any failure the store is unchanged, and a
    /// validation failure is reported only for an invalid candidate.
    fn create_user(&mut self, user: NewUser) -> (r: Result<User, CreateError>)
        ensures
            r matches Ok(u) ==> {
                &&& u.name@ == user.name@
                &&& u.age == user.age
                &&& final(self).store() == old(self).store().push(u@)
            },
            r matches Err(_) ==> final(self).store() == old(self).store(),
            r matches Err(CreateError::Validation(_)) ==> !valid_name(user.name@),
            old(self).never_fails() ==> r is Ok,
    ;
}

} // verus!
