use user_api::domain::{CreateUser, UpdateUser, UserDomainError};
use user_api::memory::InMemoryUserRepository;
use user_api::repository::{create_repositories, Repositories, UserRepositoryPort};

fn ann() -> CreateUser {
    CreateUser { name: "Ann".to_string(), email: "ann@x.com".to_string(), age: 30 }
}

fn bob() -> CreateUser {
    CreateUser { name: "Bob".to_string(), email: "bob@x.com".to_string(), age: 41 }
}

#[test]
fn create_then_get_returns_identical_fields() {
    let mut repo = InMemoryUserRepository::new();
    let created = repo.create_user(ann()).unwrap();
    assert_eq!(created.name(), "Ann");
    assert_eq!(created.email(), "ann@x.com");
    assert_eq!(created.age(), 30);
    let got = repo.get_user(created.id().to_string()).unwrap();
    assert_eq!(got.id(), created.id());
    assert_eq!(got.name(), "Ann");
    assert_eq!(got.email(), "ann@x.com");
    assert_eq!(got.age(), 30);
}

#[test]
fn generated_identifiers_are_hyphenated_uuids() {
    let mut repo = InMemoryUserRepository::new();
    let first = repo.create_user(ann()).unwrap();
    let second = repo.create_user(bob()).unwrap();
    assert_eq!(first.id().len(), 36);
    assert_eq!(second.id().len(), 36);
    assert_ne!(first.id(), second.id());
}

#[test]
fn duplicate_email_yields_already_exists_and_keeps_first() {
    let mut repo = InMemoryUserRepository::new();
    let first = repo.create_user(ann()).unwrap();
    let again = CreateUser { name: "Other".to_string(), email: "ann@x.com".to_string(), age: 50 };
    let err = repo.create_user(again).unwrap_err();
    assert_eq!(err, UserDomainError::UserAlreadyExists);
    let got = repo.get_user(first.id().to_string()).unwrap();
    assert_eq!(got.name(), "Ann");
    assert_eq!(got.email(), "ann@x.com");
    assert_eq!(got.age(), 30);
}

#[test]
fn get_never_created_yields_not_found() {
    let repo = InMemoryUserRepository::new();
    let err = repo.get_user("no-such-id".to_string()).unwrap_err();
    assert_eq!(err, UserDomainError::UserNotFound);
}

#[test]
fn update_with_all_fields_absent_changes_nothing() {
    let mut repo = InMemoryUserRepository::new();
    let created = repo.create_user(ann()).unwrap();
    let updated = repo
        .update_user(UpdateUser {
            id: created.id().to_string(),
            name: None,
            email: None,
            age: None,
        })
        .unwrap();
    assert_eq!(updated.id(), created.id());
    assert_eq!(updated.name(), "Ann");
    assert_eq!(updated.email(), "ann@x.com");
    assert_eq!(updated.age(), 30);
}

#[test]
fn update_with_one_field_changes_exactly_that_field() {
    let mut repo = InMemoryUserRepository::new();
    let created = repo.create_user(ann()).unwrap();
    let payload = UpdateUser {
        id: created.id().to_string(),
        name: None,
        email: None,
        age: Some(31),
    };
    let updated = repo.update_user(payload).unwrap();
    assert_eq!(updated.name(), "Ann");
    assert_eq!(updated.email(), "ann@x.com");
    assert_eq!(updated.age(), 31);
    // Applying the same payload a second time is idempotent.
    let payload_again = UpdateUser {
        id: created.id().to_string(),
        name: None,
        email: None,
        age: Some(31),
    };
    let twice = repo.update_user(payload_again).unwrap();
    assert_eq!(twice.name(), "Ann");
    assert_eq!(twice.email(), "ann@x.com");
    assert_eq!(twice.age(), 31);
}

#[test]
fn update_accepts_present_but_empty_values() {
    let mut repo = InMemoryUserRepository::new();
    let created = repo.create_user(ann()).unwrap();
    let updated = repo
        .update_user(UpdateUser {
            id: created.id().to_string(),
            name: Some(String::new()),
            email: None,
            age: None,
        })
        .unwrap();
    assert_eq!(updated.name(), "");
    assert_eq!(updated.email(), "ann@x.com");
}

#[test]
fn update_missing_yields_not_found() {
    let mut repo = InMemoryUserRepository::new();
    let err = repo
        .update_user(UpdateUser {
            id: "no-such-id".to_string(),
            name: Some("X".to_string()),
            email: None,
            age: None,
        })
        .unwrap_err();
    assert_eq!(err, UserDomainError::UserNotFound);
}

#[test]
fn delete_then_get_yields_not_found() {
    let mut repo = InMemoryUserRepository::new();
    let created = repo.create_user(ann()).unwrap();
    repo.delete_user(created.id().to_string()).unwrap();
    let err = repo.get_user(created.id().to_string()).unwrap_err();
    assert_eq!(err, UserDomainError::UserNotFound);
}

#[test]
fn delete_missing_yields_not_found_not_success() {
    let mut repo = InMemoryUserRepository::new();
    let err = repo.delete_user("no-such-id".to_string()).unwrap_err();
    assert_eq!(err, UserDomainError::UserNotFound);
}

#[test]
fn delete_frees_the_email_for_reuse() {
    let mut repo = InMemoryUserRepository::new();
    let created = repo.create_user(ann()).unwrap();
    repo.delete_user(created.id().to_string()).unwrap();
    let recreated = repo.create_user(ann()).unwrap();
    assert_eq!(recreated.email(), "ann@x.com");
    assert_ne!(recreated.id(), created.id());
}

#[test]
fn repositories_factory_passes_the_adapter_through() {
    let repos: Repositories<InMemoryUserRepository> =
        create_repositories((), |_db| InMemoryUserRepository::new());
    let mut repo = repos.user_repository;
    let created = repo.create_user(bob()).unwrap();
    assert_eq!(created.name(), "Bob");
}
