//! Application service: one use case per operation, each delegating
//! verbatim to the injected repository port and returning its result
//! unchanged. The seam exists so cross-cutting concerns can be added later
//! without touching the transport layer.

use vstd::prelude::*;

use crate::domain::{CreateUser, UpdateUser, User, UserDomainError};
use crate::model::{
    merged_record, store_after_create, store_after_delete, store_after_update, store_has_email,
    user_view_of, UserRecord,
};
use crate::repository::UserRepositoryPort;

verus! {

/// Service interface for user operations, with the same store-level
/// contract as the repository port: the service adds no validation, no
/// retries and no side effects of its own.
pub trait UserServiceTrait: Sized {
    /// The store of the underlying repository.
    spec fn store(&self) -> Map<Seq<char>, UserRecord>;

    /// Creates a new user.
    fn create_user(&mut self, user: CreateUser) -> (r: Result<User, UserDomainError>)
        ensures
            match r {
                Ok(u) => {
                    &&& u@.name == user@.name
                    &&& u@.email == user@.email
                    &&& u@.age == user@.age
                    &&& !old(self).store().contains_key(u@.id)
                    &&& !store_has_email(old(self).store(), user@.email)
                    &&& final(self).store() == store_after_create(
                        old(self).store(),
                        u@.id,
                        user@,
                    )
                },
                Err(e) => {
                    &&& final(self).store() == old(self).store()
                    &&& (e == UserDomainError::UserAlreadyExists <==> store_has_email(
                        old(self).store(),
                        user@.email,
                    ))
                    &&& (e == UserDomainError::UserAlreadyExists || e
                        == UserDomainError::UserCreationFailed)
                },
            },
    ;

    /// Retrieves a user by identifier.
    fn get_user(&self, id: String) -> (r: Result<User, UserDomainError>)
        ensures
            match r {
                Ok(u) => self.store().contains_key(id@) && u@ == user_view_of(
                    id@,
                    self.store()[id@],
                ),
                Err(e) => e == UserDomainError::UserNotFound && !self.store().contains_key(id@),
            },
    ;

    /// Updates an existing user.
    fn update_user(&mut self, user: UpdateUser) -> (r: Result<User, UserDomainError>)
        ensures
            final(self).store() == store_after_update(old(self).store(), user@),
            match r {
                Ok(u) => old(self).store().contains_key(user@.id) && u@ == user_view_of(
                    user@.id,
                    merged_record(old(self).store()[user@.id], user@),
                ),
                Err(e) => e == UserDomainError::UserNotFound && !old(self).store().contains_key(
                    user@.id,
                ),
            },
    ;

    /// Deletes a user by identifier.
    fn delete_user(&mut self, id: String) -> (r: Result<(), UserDomainError>)
        ensures
            final(self).store() == store_after_delete(old(self).store(), id@),
            match r {
                Ok(_) => old(self).store().contains_key(id@),
                Err(e) => e == UserDomainError::UserNotFound && !old(self).store().contains_key(
                    id@,
                ),
            },
    ;
}

/// Service implementation coordinating user use cases between the
/// transport layer and the repository port.
pub struct UserService<R: UserRepositoryPort> {
    /// The user repository for data access operations.
    user_repository: R,
}

impl<R: UserRepositoryPort> UserService<R> {
    /// Creates a new `UserService` over the given repository adapter.
    pub fn new(user_repository: R) -> (r: Self)
        ensures
            r.store() == user_repository.store(),
    {
        Self { user_repository }
    }
}

impl<R: UserRepositoryPort> UserServiceTrait for UserService<R> {
    closed spec fn store(&self) -> Map<Seq<char>, UserRecord> {
        self.user_repository.store()
    }

    /// Creates a new user by delegating to the repository.
    fn create_user(&mut self, user: CreateUser) -> (r: Result<User, UserDomainError>) {
        self.user_repository.create_user(user)
    }

    /// Retrieves a user by delegating to the repository.
    fn get_user(&self, id: String) -> (r: Result<User, UserDomainError>) {
        self.user_repository.get_user(id)
    }

    /// Updates an existing user by delegating to the repository.
    fn update_user(&mut self, user: UpdateUser) -> (r: Result<User, UserDomainError>) {
        self.user_repository.update_user(user)
    }

    /// Deletes a user by delegating to the repository.
    fn delete_user(&mut self, id: String) -> (r: Result<(), UserDomainError>) {
        self.user_repository.delete_user(id)
    }
}

} // verus!
