//! Request handlers of the HTTP layer, stateless per request: each decodes
//! a transport payload into a domain command, calls the application
//! service, and wraps the outcome in the uniform response envelope. Domain
//! errors are mapped to transport status codes here and nowhere else.

use vstd::prelude::*;

use crate::domain::{CreateUser, CreateUserView, UpdateUser, UpdateUserView, UserDomainError};
use crate::domain::User;
use crate::model::{
    merged_record, store_after_create, store_after_delete, store_after_update, store_has_email,
};
use crate::service::UserServiceTrait;

verus! {

/// Generic response structure shared by all API responses: the envelope
/// carrying the numeric status code alongside the payload.
#[derive(Debug, Clone, PartialEq, Eq)]
pub struct ApiResponseBody<T> {
    pub status_code: u16,
    pub data: T,
}

impl<T> ApiResponseBody<T> {
    /// Wraps a payload in the envelope for the given status code.
    pub fn new(status_code: u16, data: T) -> (r: Self)
        ensures
            r.status_code == status_code,
            r.data == data,
    {
        Self { status_code, data }
    }
}

/// The response data format for all error responses.
#[derive(Debug, Clone, PartialEq, Eq)]
pub struct ApiErrorData {
    pub message: String,
}

impl ApiResponseBody<ApiErrorData> {
    /// Wraps an error message in the envelope for the given status code.
    pub fn new_error(status_code: u16, message: String) -> (r: Self)
        ensures
            r.status_code == status_code,
            r.data.message == message,
    {
        Self { status_code, data: ApiErrorData { message } }
    }
}

/// A successful response: the transport status code paired with the
/// enveloped payload, which repeats the code.
#[derive(Debug, Clone, PartialEq)]
pub struct ApiSuccess<T>(pub u16, pub ApiResponseBody<T>);

impl<T> ApiSuccess<T> {
    /// Builds a success response, stamping the status into the envelope.
    fn new(status: u16, data: T) -> (r: Self)
        ensures
            r.0 == status,
            r.1.status_code == status,
            r.1.data == data,
    {
        ApiSuccess(status, ApiResponseBody::new(status, data))
    }
}

/// Transport-level error taxonomy: each variant fixes a status code, and
/// carries the message prepared for the client.
#[derive(Debug, Clone, PartialEq, Eq)]
pub enum ApiError {
    InternalServerError(String),
    UnprocessableEntity(String),
    NotFound(String),
}

impl ApiError {
    /// Maps a domain error kind to its transport representation:
    /// `UserNotFound` to a not-found response, `UserAlreadyExists` to an
    /// unprocessable-entity response, and every internal failure kind to an
    /// internal-server-error response.
    pub fn from(e: UserDomainError) -> (r: Self)
        ensures
            match e {
                UserDomainError::UserNotFound => r matches ApiError::NotFound(m) && m@
                    == "User not found"@,
                UserDomainError::UserAlreadyExists => r matches ApiError::UnprocessableEntity(m)
                    && m@ == "User already exists"@,
                UserDomainError::UserCreationFailed => r matches ApiError::InternalServerError(m)
                    && m@ == "Failed to create user"@,
                UserDomainError::UserUpdateFailed => r matches ApiError::InternalServerError(m)
                    && m@ == "Failed to update user"@,
                UserDomainError::UserDeletionFailed => r matches ApiError::InternalServerError(m)
                    && m@ == "Failed to delete user"@,
            },
    {
        match e {
            UserDomainError::UserNotFound => ApiError::NotFound("User not found".to_owned()),
            UserDomainError::UserAlreadyExists => ApiError::UnprocessableEntity(
                "User already exists".to_owned(),
            ),
            UserDomainError::UserCreationFailed => ApiError::InternalServerError(
                "Failed to create user".to_owned(),
            ),
            UserDomainError::UserUpdateFailed => ApiError::InternalServerError(
                "Failed to update user".to_owned(),
            ),
            UserDomainError::UserDeletionFailed => ApiError::InternalServerError(
                "Failed to delete user".to_owned(),
            ),
        }
    }

    /// The transport response for an error, per the error-mapping table:
    /// 404 and 422 show the prepared message, while every internal failure
    /// answers 500 with a generic message — the diagnostic detail is for
    /// the server-side log, never the client.
    pub fn into_response(self) -> (r: (u16, ApiResponseBody<ApiErrorData>))
        ensures
            match self {
                ApiError::InternalServerError(_) => r.0 == 500 && r.1.status_code == 500
                    && r.1.data.message@ == "Internal server error"@,
                ApiError::UnprocessableEntity(m) => r.0 == 422 && r.1.status_code == 422
                    && r.1.data.message@ == m@,
                ApiError::NotFound(m) => r.0 == 404 && r.1.status_code == 404
                    && r.1.data.message@ == m@,
            },
    {
        match self {
            ApiError::InternalServerError(_) => (
                500,
                ApiResponseBody::new_error(500, "Internal server error".to_owned()),
            ),
            ApiError::UnprocessableEntity(message) => (
                422,
                ApiResponseBody::new_error(422, message),
            ),
            ApiError::NotFound(message) => (404, ApiResponseBody::new_error(404, message)),
        }
    }
}

/// The body of a user creation request.
#[derive(Debug, Clone, PartialEq, Eq)]
pub struct CreateUserRequestBody {
    pub name: String,
    pub email: String,
    pub age: u8,
}

impl View for CreateUserRequestBody {
    type V = CreateUserView;

    open spec fn view(&self) -> CreateUserView {
        CreateUserView { name: self.name@, email: self.email@, age: self.age }
    }
}

/// The response body data field for successful user creation.
#[derive(Debug, Clone, PartialEq, Eq)]
pub struct CreateUserResponseData {
    pub id: String,
    pub name: String,
    pub email: String,
    pub age: u8,
}

impl CreateUserResponseData {
    /// Builds the creation response payload from the created entity.
    pub fn from(user: &User) -> (r: Self)
        ensures
            r.id@ == user@.id,
            r.name@ == user@.name,
            r.email@ == user@.email,
            r.age == user@.age,
    {
        Self {
            id: user.id().to_owned(),
            name: user.name().to_owned(),
            email: user.email().to_owned(),
            age: user.age(),
        }
    }
}

/// Mathematical view of an [`UpdateUserRequestBody`].
pub struct UpdateBodyView {
    pub name: Option<Seq<char>>,
    pub email: Option<Seq<char>>,
    pub age: Option<u8>,
}

/// The body of a user update request: every field optional.
#[derive(Debug, Clone, PartialEq, Eq)]
pub struct UpdateUserRequestBody {
    pub name: Option<String>,
    pub email: Option<String>,
    pub age: Option<u8>,
}

impl View for UpdateUserRequestBody {
    type V = UpdateBodyView;

    open spec fn view(&self) -> UpdateBodyView {
        UpdateBodyView {
            name: match self.name {
                Some(n) => Some(n@),
                None => None,
            },
            email: match self.email {
                Some(e) => Some(e@),
                None => None,
            },
            age: self.age,
        }
    }
}

/// The update command assembled from a path identifier and a decoded body.
pub open spec fn update_command(id: Seq<char>, b: UpdateBodyView) -> UpdateUserView {
    UpdateUserView { id, name: b.name, email: b.email, age: b.age }
}

impl UpdateUser {
    /// Attaches the path identifier to the decoded update body.
    pub fn from(parts: (String, UpdateUserRequestBody)) -> (r: Self)
        ensures
            r@ == update_command(parts.0@, parts.1@),
    {
        let (id, body) = parts;
        UpdateUser { id, name: body.name, email: body.email, age: body.age }
    }
}

/// The response body data field for successful user retrieval or update.
#[derive(Debug, Clone, PartialEq, Eq)]
pub struct UserResponseData {
    pub id: String,
    pub name: String,
    pub email: String,
    pub age: u8,
}

impl UserResponseData {
    /// Builds the retrieval/update response payload from the entity.
    pub fn from(user: &User) -> (r: Self)
        ensures
            r.id@ == user@.id,
            r.name@ == user@.name,
            r.email@ == user@.email,
            r.age == user@.age,
    {
        Self {
            id: user.id().to_owned(),
            name: user.name().to_owned(),
            email: user.email().to_owned(),
            age: user.age(),
        }
    }
}

/// Creates a new user: 201 with the created entity on success; 422 when
/// the email is already taken; 500 when the adapter could not create it.
pub fn create_user<S: UserServiceTrait>(service: &mut S, body: CreateUserRequestBody) -> (r:
    Result<ApiSuccess<CreateUserResponseData>, ApiError>)
    ensures
        match r {
            Ok(resp) => {
                &&& resp.0 == 201
                &&& resp.1.status_code == 201
                &&& resp.1.data.name@ == body@.name
                &&& resp.1.data.email@ == body@.email
                &&& resp.1.data.age == body@.age
                &&& !old(service).store().contains_key(resp.1.data.id@)
                &&& !store_has_email(old(service).store(), body@.email)
                &&& final(service).store() == store_after_create(
                    old(service).store(),
                    resp.1.data.id@,
                    body@,
                )
            },
            Err(e) => {
                &&& final(service).store() == old(service).store()
                &&& if store_has_email(old(service).store(), body@.email) {
                    e matches ApiError::UnprocessableEntity(m) && m@ == "User already exists"@
                } else {
                    e matches ApiError::InternalServerError(m) && m@ == "Failed to create user"@
                }
            },
        },
{
    let CreateUserRequestBody { name, email, age } = body;
    let create = CreateUser { name, email, age };
    match service.create_user(create) {
        Ok(user) => Ok(ApiSuccess::new(201, CreateUserResponseData::from(&user))),
        Err(e) => Err(ApiError::from(e)),
    }
}

/// Gets a user by identifier: 200 with the stored entity, or 404 when the
/// identifier is absent.
pub fn get_user<S: UserServiceTrait>(service: &S, id: String) -> (r: Result<
    ApiSuccess<UserResponseData>,
    ApiError,
>)
    ensures
        match r {
            Ok(resp) => {
                &&& service.store().contains_key(id@)
                &&& resp.0 == 200
                &&& resp.1.status_code == 200
                &&& resp.1.data.id@ == id@
                &&& resp.1.data.name@ == service.store()[id@].name
                &&& resp.1.data.email@ == service.store()[id@].email
                &&& resp.1.data.age == service.store()[id@].age
            },
            Err(e) => {
                &&& !service.store().contains_key(id@)
                &&& e matches ApiError::NotFound(m) && m@ == "User not found"@
            },
        },
{
    match service.get_user(id) {
        Ok(user) => Ok(ApiSuccess::new(200, UserResponseData::from(&user))),
        Err(e) => Err(ApiError::from(e)),
    }
}

/// Updates a user: 200 with the full merged entity, or 404 when the
/// identifier is absent.
pub fn update_user<S: UserServiceTrait>(
    service: &mut S,
    id: String,
    body: UpdateUserRequestBody,
) -> (r: Result<ApiSuccess<UserResponseData>, ApiError>)
    ensures
        final(service).store() == store_after_update(
            old(service).store(),
            update_command(id@, body@),
        ),
        match r {
            Ok(resp) => {
                &&& old(service).store().contains_key(id@)
                &&& resp.0 == 200
                &&& resp.1.status_code == 200
                &&& resp.1.data.id@ == id@
                &&& {
                    let m = merged_record(
                        old(service).store()[id@],
                        update_command(id@, body@),
                    );
                    resp.1.data.name@ == m.name && resp.1.data.email@ == m.email
                        && resp.1.data.age == m.age
                }
            },
            Err(e) => {
                &&& !old(service).store().contains_key(id@)
                &&& e matches ApiError::NotFound(m) && m@ == "User not found"@
            },
        },
{
    let update = UpdateUser::from((id, body));
    match service.update_user(update) {
        Ok(user) => Ok(ApiSuccess::new(200, UserResponseData::from(&user))),
        Err(e) => Err(ApiError::from(e)),
    }
}

/// Deletes a user: 204 with an empty body, or 404 when the identifier is
/// absent.
pub fn delete_user<S: UserServiceTrait>(service: &mut S, id: String) -> (r: Result<u16, ApiError>)
    ensures
        final(service).store() == store_after_delete(old(service).store(), id@),
        match r {
            Ok(code) => code == 204 && old(service).store().contains_key(id@),
            Err(e) => {
                &&& !old(service).store().contains_key(id@)
                &&& e matches ApiError::NotFound(m) && m@ == "User not found"@
            },
        },
{
    match service.delete_user(id) {
        Ok(_) => Ok(204),
        Err(e) => Err(ApiError::from(e)),
    }
}

} // verus!
