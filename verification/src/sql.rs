//! Decision logic of the relational storage adapter. The adapter issues
//! parameterized statements against a connection pool; that part is plain
//! I/O and stays outside this library. Everything the adapter decides —
//! which row it writes, how a statement outcome maps to a domain result,
//! how a partial update is merged — is a pure function here, verified for
//! every outcome the driver can hand back.

use vstd::prelude::*;

use crate::domain::{CreateUser, UpdateUser, User, UserDomainError, UserView};
use crate::ids::generate_user_id;
use crate::model::{merged_record, record_of_user, user_view_of};
use crate::text::{contains_substring, has_substring};

verus! {

/// Outcome of a write statement (insert, update or delete), as reported by
/// the driver: completion with an affected-row count, or a failure with
/// the driver's message.
pub enum ExecOutcome {
    Done { rows_affected: u64 },
    Failed { message: String },
}

/// Outcome of a single-row lookup: the row's columns, no row, or a
/// transport/driver failure.
pub enum FetchOutcome {
    Row { id: String, name: String, email: String, age: u8 },
    Missing,
    Failed { message: String },
}

/// The row an insert writes for a create command: a freshly generated
/// identifier and the command's fields, the age widened to the integer
/// column's type.
pub struct NewUserRow {
    pub id: String,
    pub name: String,
    pub email: String,
    pub age: i16,
}

/// Builds the row to insert for a create command, assigning the new
/// identifier.
pub fn plan_create_user(user: &CreateUser) -> (p: NewUserRow)
    ensures
        p.id@.len() == 36,
        p.name@ == user@.name,
        p.email@ == user@.email,
        p.age == user@.age as i16,
{
    NewUserRow {
        id: generate_user_id(),
        name: user.name.clone(),
        email: user.email.clone(),
        age: user.age as i16,
    }
}

/// How an insert failure is classified: a message mentioning a duplicate
/// or unique constraint means the email is already taken; anything else is
/// an internal creation failure whose cause is logged, not surfaced.
pub open spec fn spec_classify_create_failure(m: Seq<char>) -> UserDomainError {
    if has_substring(m, "duplicate"@) || has_substring(m, "unique"@) {
        UserDomainError::UserAlreadyExists
    } else {
        UserDomainError::UserCreationFailed
    }
}

/// Classifies an insert failure by its driver message.
pub fn classify_create_failure(message: &str) -> (r: UserDomainError)
    ensures
        r == spec_classify_create_failure(message@),
{
    if contains_substring(message, "duplicate") || contains_substring(message, "unique") {
        UserDomainError::UserAlreadyExists
    } else {
        UserDomainError::UserCreationFailed
    }
}

/// Turns the insert outcome into the domain result of a create: on
/// completion, the entity just written; on failure, the classified error.
pub fn finish_create_user(user: CreateUser, id: String, outcome: &ExecOutcome) -> (r: Result<
    User,
    UserDomainError,
>)
    ensures
        match outcome {
            ExecOutcome::Done { .. } => r matches Ok(u) && u@ == (UserView {
                id: id@,
                name: user@.name,
                email: user@.email,
                age: user@.age,
            }),
            ExecOutcome::Failed { message } => r == Err::<User, UserDomainError>(
                spec_classify_create_failure(message@),
            ),
        },
{
    match outcome {
        ExecOutcome::Done { .. } => Ok(User::new(id, user.name, user.email, user.age)),
        ExecOutcome::Failed { message } => Err(classify_create_failure(message.as_str())),
    }
}

/// Turns a lookup outcome into the domain result of a get: the entity
/// assembled from the row, or `UserNotFound` when no row came back. A
/// driver failure during the query is also mapped to `UserNotFound`,
/// conflating a legitimately absent row with unreachable storage; the
/// conflation is kept deliberately, as a known ambiguity of this design.
pub fn finish_get_user(outcome: FetchOutcome) -> (r: Result<User, UserDomainError>)
    ensures
        match outcome {
            FetchOutcome::Row { id, name, email, age } => r matches Ok(u) && u@ == (UserView {
                id: id@,
                name: name@,
                email: email@,
                age,
            }),
            FetchOutcome::Missing => r == Err::<User, UserDomainError>(
                UserDomainError::UserNotFound,
            ),
            FetchOutcome::Failed { .. } => r == Err::<User, UserDomainError>(
                UserDomainError::UserNotFound,
            ),
        },
{
    match outcome {
        FetchOutcome::Row { id, name, email, age } => Ok(User::new(id, name, email, age)),
        FetchOutcome::Missing => Err(UserDomainError::UserNotFound),
        FetchOutcome::Failed { .. } => Err(UserDomainError::UserNotFound),
    }
}

/// Merges a partial update into the existing entity: present fields
/// replace the stored values, absent fields are preserved, and the
/// update's identifier selects the row. This is the read-merge step of the
/// adapter's read-merge-write update.
pub fn merge_update(existing: &User, update: UpdateUser) -> (r: User)
    ensures
        r@ == user_view_of(update@.id, merged_record(record_of_user(existing@), update@)),
{
    let UpdateUser { id, name, email, age } = update;
    let new_name = match name {
        Some(n) => n,
        None => existing.name().to_owned(),
    };
    let new_email = match email {
        Some(e) => e,
        None => existing.email().to_owned(),
    };
    let new_age = match age {
        Some(a) => a,
        None => existing.age(),
    };
    User::new(id, new_name, new_email, new_age)
}

/// Turns the write outcome of the update statement into the domain result:
/// the merged entity on completion, `UserUpdateFailed` on any write
/// failure.
pub fn finish_update_user(merged: User, outcome: &ExecOutcome) -> (r: Result<
    User,
    UserDomainError,
>)
    ensures
        match outcome {
            ExecOutcome::Done { .. } => r matches Ok(u) && u@ == merged@,
            ExecOutcome::Failed { .. } => r == Err::<User, UserDomainError>(
                UserDomainError::UserUpdateFailed,
            ),
        },
{
    match outcome {
        ExecOutcome::Done { .. } => Ok(merged),
        ExecOutcome::Failed { .. } => Err(UserDomainError::UserUpdateFailed),
    }
}

/// Turns the outcome of the delete statement into the domain result: zero
/// affected rows means the identifier was absent, a failed statement is a
/// deletion failure, and exactly the case of one or more affected rows is
/// success.
pub fn finish_delete_user(outcome: &ExecOutcome) -> (r: Result<(), UserDomainError>)
    ensures
        match outcome {
            ExecOutcome::Done { rows_affected } => if rows_affected == 0 {
                r == Err::<(), UserDomainError>(UserDomainError::UserNotFound)
            } else {
                r == Ok::<(), UserDomainError>(())
            },
            ExecOutcome::Failed { .. } => r == Err::<(), UserDomainError>(
                UserDomainError::UserDeletionFailed,
            ),
        },
{
    match outcome {
        ExecOutcome::Done { rows_affected } => {
            if *rows_affected == 0 {
                Err(UserDomainError::UserNotFound)
            } else {
                Ok(())
            }
        },
        ExecOutcome::Failed { .. } => Err(UserDomainError::UserDeletionFailed),
    }
}

} // verus!
