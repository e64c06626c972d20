//! Mathematical model of the persistent user store: a map from identifier
//! to stored record, together with spec-level descriptions of what each
//! repository operation returns and how it changes the store. The contracts
//! of the repository port and of every adapter are stated over this model.

use vstd::prelude::*;

use crate::domain::{CreateUserView, UpdateUserView, UserDomainError, UserView};

verus! {

/// One stored row of the user table, keyed by the identifier: the three
/// mutable fields of the entity.
pub struct UserRecord {
    pub name: Seq<char>,
    pub email: Seq<char>,
    pub age: u8,
}

/// The record that a create command asks to store.
pub open spec fn record_of(cu: CreateUserView) -> UserRecord {
    UserRecord { name: cu.name, email: cu.email, age: cu.age }
}

/// The record holding the mutable fields of an entity.
pub open spec fn record_of_user(u: UserView) -> UserRecord {
    UserRecord { name: u.name, email: u.email, age: u.age }
}

/// The entity view assembled from an identifier and its stored record.
pub open spec fn user_view_of(id: Seq<char>, r: UserRecord) -> UserView {
    UserView { id, name: r.name, email: r.email, age: r.age }
}

/// Whether some stored record already carries the given email address.
/// Email uniqueness is enforced at the storage layer, so a create command
/// with an occupied email is rejected there.
pub open spec fn store_has_email(s: Map<Seq<char>, UserRecord>, email: Seq<char>) -> bool {
    exists|id: Seq<char>| #[trigger] s.contains_key(id) && s[id].email == email
}

/// What a lookup by identifier yields: the stored record, or `UserNotFound`
/// when the identifier was never created (or has been deleted).
pub open spec fn spec_get(s: Map<Seq<char>, UserRecord>, id: Seq<char>) -> Result<
    UserRecord,
    UserDomainError,
> {
    if s.contains_key(id) {
        Ok(s[id])
    } else {
        Err(UserDomainError::UserNotFound)
    }
}

/// Whether a create command may succeed against the given store: no stored
/// record may already carry the command's email.
pub open spec fn create_allowed(s: Map<Seq<char>, UserRecord>, cu: CreateUserView) -> bool {
    !store_has_email(s, cu.email)
}

/// The store after a successful create under the freshly assigned
/// identifier.
pub open spec fn store_after_create(
    s: Map<Seq<char>, UserRecord>,
    id: Seq<char>,
    cu: CreateUserView,
) -> Map<Seq<char>, UserRecord> {
    s.insert(id, record_of(cu))
}

/// Read-merge semantics of a partial update: a present field replaces the
/// stored value, an absent field leaves it unchanged.
pub open spec fn merged_record(existing: UserRecord, u: UpdateUserView) -> UserRecord {
    UserRecord {
        name: match u.name {
            Some(n) => n,
            None => existing.name,
        },
        email: match u.email {
            Some(e) => e,
            None => existing.email,
        },
        age: match u.age {
            Some(a) => a,
            None => existing.age,
        },
    }
}

/// What an update yields: the merged record when the target exists,
/// `UserNotFound` otherwise.
pub open spec fn spec_update_result(s: Map<Seq<char>, UserRecord>, u: UpdateUserView) -> Result<
    UserRecord,
    UserDomainError,
> {
    if s.contains_key(u.id) {
        Ok(merged_record(s[u.id], u))
    } else {
        Err(UserDomainError::UserNotFound)
    }
}

/// The store after an update: the whole row rewritten with the merged
/// record when the target exists, unchanged otherwise.
pub open spec fn store_after_update(s: Map<Seq<char>, UserRecord>, u: UpdateUserView) -> Map<
    Seq<char>,
    UserRecord,
> {
    if s.contains_key(u.id) {
        s.insert(u.id, merged_record(s[u.id], u))
    } else {
        s
    }
}

/// What a delete yields: success when the target exists (hard delete, no
/// tombstone), `UserNotFound` otherwise.
pub open spec fn spec_delete_result(s: Map<Seq<char>, UserRecord>, id: Seq<char>) -> Result<
    (),
    UserDomainError,
> {
    if s.contains_key(id) {
        Ok(())
    } else {
        Err(UserDomainError::UserNotFound)
    }
}

/// The store after a delete: the row removed when the target exists,
/// unchanged otherwise.
pub open spec fn store_after_delete(s: Map<Seq<char>, UserRecord>, id: Seq<char>) -> Map<
    Seq<char>,
    UserRecord,
> {
    if s.contains_key(id) {
        s.remove(id)
    } else {
        s
    }
}

} // verus!
