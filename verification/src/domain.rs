//! Domain model: the `User` entity, the command DTOs for creating and
//! updating a user, and the domain error taxonomy.

use vstd::prelude::*;

verus! {

/// The five terminal error kinds that cross the repository port boundary.
/// No raw storage error ever escapes an adapter: every failure is mapped
/// to exactly one of these.
#[derive(Clone, Copy, Debug, PartialEq, Eq, Structural)]
pub enum UserDomainError {
    UserNotFound,
    UserAlreadyExists,
    UserCreationFailed,
    UserUpdateFailed,
    UserDeletionFailed,
}

/// Mathematical view of a [`User`]: the identifier and every field as a
/// plain value.
pub struct UserView {
    pub id: Seq<char>,
    pub name: Seq<char>,
    pub email: Seq<char>,
    pub age: u8,
}

/// Domain entity representing a user.
///
/// Instances are value objects: the identifier is assigned once, at
/// creation, and is immutable afterwards.
#[derive(Debug)]
pub struct User {
    id: String,
    name: String,
    email: String,
    age: u8,
}

impl View for User {
    type V = UserView;

    closed spec fn view(&self) -> UserView {
        UserView {
            id: self.id@,
            name: self.name@,
            email: self.email@,
            age: self.age,
        }
    }
}

impl User {
    /// Creates a new `User` instance from its four fields.
    pub fn new(id: String, name: String, email: String, age: u8) -> (r: Self)
        ensures
            r@ == (UserView { id: id@, name: name@, email: email@, age }),
    {
        Self { id, name, email, age }
    }

    /// Returns the user's unique identifier.
    pub fn id(&self) -> (r: &str)
        ensures
            r@ == self@.id,
    {
        self.id.as_str()
    }

    /// Returns the user's name.
    pub fn name(&self) -> (r: &str)
        ensures
            r@ == self@.name,
    {
        self.name.as_str()
    }

    /// Returns the user's email address.
    pub fn email(&self) -> (r: &str)
        ensures
            r@ == self@.email,
    {
        self.email.as_str()
    }

    /// Returns the user's age.
    pub fn age(&self) -> (r: u8)
        ensures
            r == self@.age,
    {
        self.age
    }
}

impl Clone for User {
    /// Clones the entity field by field, preserving its view.
    fn clone(&self) -> (r: Self)
        ensures
            r@ == self@,
    {
        User {
            id: self.id.clone(),
            name: self.name.clone(),
            email: self.email.clone(),
            age: self.age,
        }
    }
}

/// Mathematical view of a [`CreateUser`] command.
pub struct CreateUserView {
    pub name: Seq<char>,
    pub email: Seq<char>,
    pub age: u8,
}

/// Command DTO for creating a new user. The identifier is absent: the
/// server assigns one.
pub struct CreateUser {
    /// The user's full name.
    pub name: String,
    /// The user's email address.
    pub email: String,
    /// The user's age.
    pub age: u8,
}

impl View for CreateUser {
    type V = CreateUserView;

    open spec fn view(&self) -> CreateUserView {
        CreateUserView { name: self.name@, email: self.email@, age: self.age }
    }
}

/// Mathematical view of an [`UpdateUser`] command.
pub struct UpdateUserView {
    pub id: Seq<char>,
    pub name: Option<Seq<char>>,
    pub email: Option<Seq<char>>,
    pub age: Option<u8>,
}

/// Command DTO for a partial update of an existing user. An absent field
/// means "leave unchanged"; a present-but-empty value is a valid new value.
pub struct UpdateUser {
    /// The unique identifier of the user to update.
    pub id: String,
    /// Optional new name. If `None`, the existing name is preserved.
    pub name: Option<String>,
    /// Optional new email. If `None`, the existing email is preserved.
    pub email: Option<String>,
    /// Optional new age. If `None`, the existing age is preserved.
    pub age: Option<u8>,
}

impl View for UpdateUser {
    type V = UpdateUserView;

    open spec fn view(&self) -> UpdateUserView {
        UpdateUserView {
            id: self.id@,
            name: match self.name {
                Some(n) => Some(n@),
                None => None,
            },
            email: match self.email {
                Some(e) => Some(e@),
                None => None,
            },
            age: self.age,
        }
    }
}

} // verus!
