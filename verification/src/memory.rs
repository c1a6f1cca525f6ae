//! The in-memory repository adapter: an ordered, growable collection of user
//! records scoped to the adapter's lifetime. Ids are drawn at random and
//! collisions are neither prevented nor detected, so this adapter serves
//! tests and demos, not production persistence.

use vstd::prelude::*;

use crate::domain::{NewUser, User, UserId, UserView};
use crate::repository::{CreateError, StoreError, UserRepository, first_with_id, views_of};

verus! {

/// Relies on rand::random: draws a value of the requested type from the
/// thread-local generator. Nothing is promised of the value drawn.
pub assume_specification<T>[ rand::random::<T> ]() -> (r: T)
    where
        rand::distr::StandardUniform: rand::distr::Distribution<T>,
;

/// A process-local user store backed by a plain vector, in insertion order.
#[derive(Debug)]
pub struct OnMemoryRepository {
    users: Vec<User>,
}

impl View for OnMemoryRepository {
    type V = Seq<UserView>;

    closed spec fn view(&self) -> Seq<UserView> {
        views_of(self.users@)
    }
}

impl OnMemoryRepository {
    /// An empty store.
    pub fn new() -> (r: Self)
        ensures
            r@ == Seq::<UserView>::empty(),
    {
        let r = OnMemoryRepository { users: Vec::new() };
        proof {
            assert(r@ =~= Seq::<UserView>::empty());
        }
        r
    }

    /// A store seeded with the given records, kept in the given order.
    pub fn with_users(users: Vec<User>) -> (r: Self)
        ensures
            r@ == views_of(users@),
    {
        OnMemoryRepository { users }
    }
}

impl Clone for OnMemoryRepository {
    /// An independent store holding copies of the same records.
    fn clone(&self) -> (res: Self)
        ensures
            res@ == self@,
    {
        let mut users: Vec<User> = Vec::new();
        let mut i: usize = 0;
        while i < self.users.len()
            invariant
                i <= self.users.len(),
                users@.len() == i,
                forall|k: int| 0 <= k < i ==> users@[k]@ == self.users@[k]@,
            decreases self.users.len() - i,
        {
            users.push(self.users[i].clone());
            i = i + 1;
        }
        let res = OnMemoryRepository { users };
        proof {
            assert(res@ =~= self@);
        }
        res
    }
}

impl PartialEq for OnMemoryRepository {
    fn eq(&self, other: &Self) -> (r: bool) {
        if self.users.len() != other.users.len() {
            proof {
                assert(self@.len() != other@.len());
            }
            return false;
        }
        let mut i: usize = 0;
        while i < self.users.len()
            invariant
                i <= self.users.len(),
                self.users@.len() == other.users@.len(),
                forall|k: int| 0 <= k < i ==> self.users@[k]@ == other.users@[k]@,
            decreases self.users.len() - i,
        {
            if !(self.users[i] == other.users[i]) {
                proof {
                    assert(self@[i as int] != other@[i as int]);
                }
                return false;
            }
            i = i + 1;
        }
        proof {
            assert(self@ =~= other@);
        }
        true
    }
}

impl vstd::std_specs::cmp::PartialEqSpecImpl for OnMemoryRepository {
    open spec fn obeys_eq_spec() -> bool {
        true
    }

    open spec fn eq_spec(&self, other: &Self) -> bool {
        self@ == other@
    }
}

impl Default for OnMemoryRepository {
    /// The same empty store as `new`.
    fn default() -> (r: Self)
        ensures
            r@ == Seq::<UserView>::empty(),
    {
        OnMemoryRepository::new()
    }
}

impl UserRepository for OnMemoryRepository {
    open spec fn store(&self) -> Seq<UserView> {
        self@
    }

    /// The store is plain process memory: every operation succeeds.
    open spec fn never_fails(&self) -> bool {
        true
    }

    /// Returns an independent copy of the full collection; never fails.
    fn get_users(&self) -> (r: Result<Vec<User>, StoreError>)
        ensures
            r matches Ok(v) ==> views_of(v@) == self@,
            r is Ok,
    {
        let mut out: Vec<User> = Vec::new();
        let mut i: usize = 0;
        while i < self.users.len()
            invariant
                i <= self.users.len(),
                out@.len() == i,
                forall|k: int| 0 <= k < i ==> out@[k]@ == self.users@[k]@,
            decreases self.users.len() - i,
        {
            out.push(self.users[i].clone());
            i = i + 1;
        }
        proof {
            assert(views_of(out@) =~= self@);
        }
        Ok(out)
    }

    /// A linear scan: the first record matching the id, in insertion order,
    /// wins; an absent id is a normal empty outcome. Never fails.
    fn get_user(&self, id: &UserId) -> (r: Result<Option<User>, StoreError>)
        ensures
            r matches Ok(o) ==> (match o {
                Some(u) => first_with_id(self@, id.0 as int) == Some(u@),
                None => first_with_id(self@, id.0 as int) is None,
            }),
            r is Ok,
    {
        let mut i: usize = 0;
        proof {
            assert(self@.skip(0) =~= self@);
        }
        while i < self.users.len()
            invariant
                i <= self.users.len(),
                first_with_id(self@, id.0 as int) == first_with_id(
                    self@.skip(i as int),
                    id.0 as int,
                ),
                forall|j: int| 0 <= j < i ==> self@[j].id != id.0 as int,
            decreases self.users.len() - i,
        {
            if self.users[i].id == *id {
                proof {
                    assert(self@.skip(i as int)[0] == self@[i as int]);
                }
                return Ok(Some(self.users[i].clone()));
            }
            proof {
                assert(self@.skip(i as int).drop_first() =~= self@.skip(i + 1 as int));
            }
            i = i + 1;
        }
        proof {
            assert(self@.skip(i as int) =~= Seq::<UserView>::empty());
        }
        Ok(None)
    }

    /// Assigns a fresh id by drawing a pseudo-random 32-bit value (so the id
    /// is never negative), appends the record, and returns an independent
    /// copy of it. Never fails, and never re-validates the candidate.
    fn create_user(&mut self, user: NewUser) -> (r: Result<User, CreateError>)
        ensures
            r matches Ok(u) ==> {
                &&& u.name@ == user.name@
                &&& u.age == user.age
                &&& 0 <= u.id.0 <= u32::MAX
                &&& final(self)@ == old(self)@.push(u@)
            },
            r is Ok,
    {
        let id: u32 = rand::random::<u32>();
        let user = User { id: UserId(id as i64), name: user.name, age: user.age };
        let copy = user.clone();
        self.users.push(user);
        proof {
            assert(self@ =~= old(self)@.push(copy@));
        }
        Ok(copy)
    }
}

} // verus!
