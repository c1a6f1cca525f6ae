//! The verified core of the relational adapter: how stored rows map to
//! domain records, and what is decided before any insert. The adapter's
//! connection handling and the queries themselves are host concerns and
//! live outside the library; they hand rows in and take column values out
//! as plain values.

use vstd::prelude::*;

use crate::domain::{NewUser, User, UserId, UserView, ValidationError, valid_name};

verus! {

/// The age a stored row denotes: the column is nullable, and an absent or
/// negative value is read as 0 — a deliberate, documented lossy default of
/// this table mapping.
pub open spec fn age_from_column(age: Option<i32>) -> u32 {
    match age {
        Some(a) => if 0 <= a {
            a as u32
        } else {
            0
        },
        None => 0,
    }
}

/// The column value a candidate's age is stored as: ages beyond the signed
/// column's range are stored as an absent value.
pub open spec fn age_column(age: u32) -> Option<i32> {
    if age <= i32::MAX as u32 {
        Some(age as i32)
    } else {
        None
    }
}

/// Maps one row of the users table to a domain record.
pub fn user_from_row(id: i64, name: String, age: Option<i32>) -> (r: User)
    ensures
        r.id.0 == id,
        r.name@ == name@,
        r.age == age_from_column(age),
{
    let age_value: u32 = match age {
        Some(a) => if a >= 0 {
            a as u32
        } else {
            0
        },
        None => 0,
    };
    User { id: UserId(id), name, age: age_value }
}

/// Maps a whole result set of rows, given as plain column values, to domain
/// records: one record per row, none omitted, in the rows' order.
pub fn users_from_rows(rows: Vec<(i64, String, Option<i32>)>) -> (r: Vec<User>)
    ensures
        r@.len() == rows@.len(),
        forall|k: int|
            0 <= k < rows@.len() ==> r@[k]@ == (UserView {
                id: rows@[k].0 as int,
                name: rows@[k].1@,
                age: age_from_column(rows@[k].2),
            }),
{
    let mut out: Vec<User> = Vec::new();
    let mut i: usize = 0;
    while i < rows.len()
        invariant
            i <= rows@.len(),
            out@.len() == i,
            forall|k: int|
                0 <= k < i ==> out@[k]@ == (UserView {
                    id: rows@[k].0 as int,
                    name: rows@[k].1@,
                    age: age_from_column(rows@[k].2),
                }),
        decreases rows.len() - i,
    {
        let row = &rows[i];
        out.push(user_from_row(row.0, row.1.clone(), row.2));
        i = i + 1;
    }
    out
}

/// The column values of a row about to be inserted; the id is left for the
/// store to assign.
pub struct NewUserRow {
    pub name: String,
    pub age: Option<i32>,
}

/// The relational adapter's decision ahead of any insert: the candidate is
/// validated first, and only a valid one yields column values, so an
/// invalid candidate never reaches the store.
pub fn prepare_insert(user: &NewUser) -> (r: Result<NewUserRow, ValidationError>)
    ensures
        valid_name(user.name@) ==> (r matches Ok(row) && row.name@ == user.name@ && row.age
            == age_column(user.age)),
        !valid_name(user.name@) ==> (r matches Err(e) && e == ValidationError::NameEmpty),
{
    match user.validate() {
        Ok(()) => {
            let age: Option<i32> = if user.age <= i32::MAX as u32 {
                Some(user.age as i32)
            } else {
                None
            };
            Ok(NewUserRow { name: user.name.clone(), age })
        },
        Err(e) => Err(e),
    }
}

} // verus!
