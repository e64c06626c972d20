use user_api::domain::UserDomainError;
use user_api::handlers::{
    create_user, delete_user, get_user, update_user, ApiError, CreateUserRequestBody,
    UpdateUserRequestBody,
};
use user_api::memory::InMemoryUserRepository;
use user_api::service::UserService;

fn fresh_service() -> UserService<InMemoryUserRepository> {
    UserService::new(InMemoryUserRepository::new())
}

fn ann_body() -> CreateUserRequestBody {
    CreateUserRequestBody { name: "Ann".to_string(), email: "ann@x.com".to_string(), age: 30 }
}

#[test]
fn scenario_create_get_update_delete() {
    let mut service = fresh_service();

    // POST /api/users {"name":"Ann","email":"ann@x.com","age":30} -> 201
    let created = create_user(&mut service, ann_body()).unwrap();
    assert_eq!(created.0, 201);
    assert_eq!(created.1.status_code, 201);
    assert_eq!(created.1.data.name, "Ann");
    assert_eq!(created.1.data.email, "ann@x.com");
    assert_eq!(created.1.data.age, 30);
    let id = created.1.data.id.clone();
    assert_eq!(id.len(), 36);

    // GET /api/users/{id} -> 200 with the same fields
    let got = get_user(&service, id.clone()).unwrap();
    assert_eq!(got.0, 200);
    assert_eq!(got.1.data.id, id);
    assert_eq!(got.1.data.name, "Ann");
    assert_eq!(got.1.data.age, 30);

    // PUT /api/users/{id} {"age":31} -> 200 with name "Ann", age 31
    let updated = update_user(
        &mut service,
        id.clone(),
        UpdateUserRequestBody { name: None, email: None, age: Some(31) },
    )
    .unwrap();
    assert_eq!(updated.0, 200);
    assert_eq!(updated.1.data.name, "Ann");
    assert_eq!(updated.1.data.age, 31);

    // DELETE /api/users/{id} -> 204
    let deleted = delete_user(&mut service, id.clone()).unwrap();
    assert_eq!(deleted, 204);

    // GET /api/users/{id} -> 404 {"message":"User not found"}
    let err = get_user(&service, id).unwrap_err();
    let resp = err.into_response();
    assert_eq!(resp.0, 404);
    assert_eq!(resp.1.status_code, 404);
    assert_eq!(resp.1.data.message, "User not found");
}

#[test]
fn duplicate_email_maps_to_422_envelope() {
    let mut service = fresh_service();
    create_user(&mut service, ann_body()).unwrap();
    let err = create_user(&mut service, ann_body()).unwrap_err();
    let resp = err.into_response();
    assert_eq!(resp.0, 422);
    assert_eq!(resp.1.status_code, 422);
    assert_eq!(resp.1.data.message, "User already exists");
}

#[test]
fn update_missing_maps_to_404() {
    let mut service = fresh_service();
    let err = update_user(
        &mut service,
        "no-such-id".to_string(),
        UpdateUserRequestBody { name: Some("X".to_string()), email: None, age: None },
    )
    .unwrap_err();
    let resp = err.into_response();
    assert_eq!(resp.0, 404);
    assert_eq!(resp.1.data.message, "User not found");
}

#[test]
fn delete_missing_maps_to_404() {
    let mut service = fresh_service();
    let err = delete_user(&mut service, "no-such-id".to_string()).unwrap_err();
    let resp = err.into_response();
    assert_eq!(resp.0, 404);
    assert_eq!(resp.1.data.message, "User not found");
}

#[test]
fn largest_age_survives_the_round_trip() {
    let mut service = fresh_service();
    let body = CreateUserRequestBody {
        name: "Max".to_string(),
        email: "max@x.com".to_string(),
        age: 255,
    };
    let created = create_user(&mut service, body).unwrap();
    assert_eq!(created.1.data.age, 255);
    let got = get_user(&service, created.1.data.id.clone()).unwrap();
    assert_eq!(got.1.data.age, 255);
}

#[test]
fn error_mapping_table_is_exact() {
    let cases = vec![
        (UserDomainError::UserNotFound, 404, "User not found"),
        (UserDomainError::UserAlreadyExists, 422, "User already exists"),
        (UserDomainError::UserCreationFailed, 500, "Internal server error"),
        (UserDomainError::UserUpdateFailed, 500, "Internal server error"),
        (UserDomainError::UserDeletionFailed, 500, "Internal server error"),
    ];
    for (domain_error, status, message) in cases {
        let resp = ApiError::from(domain_error).into_response();
        assert_eq!(resp.0, status);
        assert_eq!(resp.1.status_code, status);
        assert_eq!(resp.1.data.message, message);
    }
}

#[test]
fn internal_detail_does_not_leak_to_the_client() {
    let e = ApiError::from(UserDomainError::UserCreationFailed);
    assert_eq!(e, ApiError::InternalServerError("Failed to create user".to_string()));
    let resp = e.into_response();
    assert_eq!(resp.1.data.message, "Internal server error");
}
