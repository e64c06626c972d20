//! Repository port: the abstract contract for persistence operations over
//! the domain model. Any concrete adapter must satisfy this contract
//! exactly, including its error-kind selection, so callers never branch on
//! adapter identity.

use vstd::prelude::*;

use crate::domain::{CreateUser, UpdateUser, User, UserDomainError};
use crate::model::{
    merged_record, store_after_create, store_after_delete, store_after_update, store_has_email,
    user_view_of, UserRecord,
};

verus! {

/// Port (interface) for user data access operations.
///
/// Each operation is specified against the adapter's abstract store, a map
/// from identifier to stored record. Creation assigns an identifier the
/// adapter has never used; its freshness is the adapter's own obligation,
/// and an adapter drawing identifiers at random may return
/// `UserCreationFailed` on the (negligible) draw that collides. The other
/// operations owe success exactly when the target identifier is present.
pub trait UserRepositoryPort: Sized {
    /// The adapter's current store, as a map from identifier to record.
    spec fn store(&self) -> Map<Seq<char>, UserRecord>;

    /// Creates a new user. On success the returned entity carries the
    /// command's fields under a freshly assigned identifier, and the store
    /// gains exactly that row. `UserAlreadyExists` is returned precisely
    /// when a stored record already carries the command's email; on any
    /// failure the store is unchanged.
    fn create_user(&mut self, user: CreateUser) -> (r: Result<User, UserDomainError>)
        ensures
            match r {
                Ok(u) => {
                    &&& u@.name == user@.name
                    &&& u@.email == user@.email
                    &&& u@.age == user@.age
                    &&& !old(self).store().contains_key(u@.id)
                    &&& !store_has_email(old(self).store(), user@.email)
                    &&& final(self).store() == store_after_create(
                        old(self).store(),
                        u@.id,
                        user@,
                    )
                },
                Err(e) => {
                    &&& final(self).store() == old(self).store()
                    &&& (e == UserDomainError::UserAlreadyExists <==> store_has_email(
                        old(self).store(),
                        user@.email,
                    ))
                    &&& (e == UserDomainError::UserAlreadyExists || e
                        == UserDomainError::UserCreationFailed)
                },
            },
    ;

    /// Retrieves a user by identifier: the stored record under that
    /// identifier, or `UserNotFound` exactly when the identifier is absent.
    fn get_user(&self, id: String) -> (r: Result<User, UserDomainError>)
        ensures
            match r {
                Ok(u) => self.store().contains_key(id@) && u@ == user_view_of(
                    id@,
                    self.store()[id@],
                ),
                Err(e) => e == UserDomainError::UserNotFound && !self.store().contains_key(id@),
            },
    ;

    /// Updates an existing user by read-merge-write: present fields replace
    /// the stored values, absent fields are preserved, and the whole row is
    /// rewritten. Returns the merged entity, or `UserNotFound` exactly when
    /// the target identifier is absent.
    fn update_user(&mut self, user: UpdateUser) -> (r: Result<User, UserDomainError>)
        ensures
            final(self).store() == store_after_update(old(self).store(), user@),
            match r {
                Ok(u) => old(self).store().contains_key(user@.id) && u@ == user_view_of(
                    user@.id,
                    merged_record(old(self).store()[user@.id], user@),
                ),
                Err(e) => e == UserDomainError::UserNotFound && !old(self).store().contains_key(
                    user@.id,
                ),
            },
    ;

    /// Deletes a user by identifier (hard delete). Succeeds and removes the
    /// row exactly when the identifier is present; yields `UserNotFound`
    /// otherwise.
    fn delete_user(&mut self, id: String) -> (r: Result<(), UserDomainError>)
        ensures
            final(self).store() == store_after_delete(old(self).store(), id@),
            match r {
                Ok(_) => old(self).store().contains_key(id@),
                Err(e) => e == UserDomainError::UserNotFound && !old(self).store().contains_key(
                    id@,
                ),
            },
    ;
}

/// Container for all repository implementations (adapters), grouped so
/// they can be passed as a unit to services. Generic over the adapter so
/// that different implementations (relational, in-memory) stay
/// substitutable.
pub struct Repositories<UR: UserRepositoryPort> {
    /// The user repository adapter implementation.
    pub user_repository: UR,
}

/// Factory for the repository container: initializes the adapter through
/// the provided creator function, making dependency injection explicit at
/// application startup.
pub fn create_repositories<DB, UR, URC>(db: DB, repository_creator: URC) -> (r: Repositories<UR>)
    where
        UR: UserRepositoryPort,
        URC: FnOnce(DB) -> UR,

    requires
        call_requires(repository_creator, (db,)),
    ensures
        call_ensures(repository_creator, (db,), r.user_repository),
{
    let user_repository = repository_creator(db);
    Repositories { user_repository }
}

} // verus!
