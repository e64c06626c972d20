use user_api::config::{Config, ConfigError};
use user_api::domain::{CreateUser, UpdateUser, User, UserDomainError};
use user_api::sql::{
    classify_create_failure, finish_create_user, finish_delete_user, finish_get_user,
    finish_update_user, merge_update, plan_create_user, ExecOutcome, FetchOutcome,
};
use user_api::text::{contains_substring, str_eq};

fn ann() -> CreateUser {
    CreateUser { name: "Ann".to_string(), email: "ann@x.com".to_string(), age: 30 }
}

#[test]
fn plan_create_assigns_a_fresh_identifier_and_widens_age() {
    let row = plan_create_user(&ann());
    assert_eq!(row.id.len(), 36);
    assert_eq!(row.name, "Ann");
    assert_eq!(row.email, "ann@x.com");
    assert_eq!(row.age, 30i16);
    let other = plan_create_user(&ann());
    assert_ne!(other.id, row.id);
}

#[test]
fn create_outcome_done_yields_the_written_entity() {
    let user = finish_create_user(
        ann(),
        "some-id".to_string(),
        &ExecOutcome::Done { rows_affected: 1 },
    )
    .unwrap();
    assert_eq!(user.id(), "some-id");
    assert_eq!(user.name(), "Ann");
    assert_eq!(user.email(), "ann@x.com");
    assert_eq!(user.age(), 30);
}

#[test]
fn create_failure_classification_is_by_message() {
    assert_eq!(
        classify_create_failure("error: duplicate key value violates constraint"),
        UserDomainError::UserAlreadyExists
    );
    assert_eq!(
        classify_create_failure("violates unique constraint \"users_email_key\""),
        UserDomainError::UserAlreadyExists
    );
    assert_eq!(
        classify_create_failure("connection reset by peer"),
        UserDomainError::UserCreationFailed
    );
    let err = finish_create_user(
        ann(),
        "some-id".to_string(),
        &ExecOutcome::Failed { message: "duplicate key".to_string() },
    )
    .unwrap_err();
    assert_eq!(err, UserDomainError::UserAlreadyExists);
    let err = finish_create_user(
        ann(),
        "some-id".to_string(),
        &ExecOutcome::Failed { message: "timeout".to_string() },
    )
    .unwrap_err();
    assert_eq!(err, UserDomainError::UserCreationFailed);
}

#[test]
fn get_outcome_row_yields_the_entity() {
    let user = finish_get_user(FetchOutcome::Row {
        id: "some-id".to_string(),
        name: "Ann".to_string(),
        email: "ann@x.com".to_string(),
        age: 30,
    })
    .unwrap();
    assert_eq!(user.id(), "some-id");
    assert_eq!(user.name(), "Ann");
    assert_eq!(user.age(), 30);
}

#[test]
fn get_outcome_missing_and_failure_both_yield_not_found() {
    let missing = finish_get_user(FetchOutcome::Missing).unwrap_err();
    assert_eq!(missing, UserDomainError::UserNotFound);
    let failed = finish_get_user(FetchOutcome::Failed { message: "pool closed".to_string() })
        .unwrap_err();
    assert_eq!(failed, UserDomainError::UserNotFound);
}

#[test]
fn merge_update_replaces_present_fields_only() {
    let existing = User::new(
        "some-id".to_string(),
        "Ann".to_string(),
        "ann@x.com".to_string(),
        30,
    );
    let merged = merge_update(
        &existing,
        UpdateUser {
            id: "some-id".to_string(),
            name: None,
            email: Some("ann@y.com".to_string()),
            age: None,
        },
    );
    assert_eq!(merged.id(), "some-id");
    assert_eq!(merged.name(), "Ann");
    assert_eq!(merged.email(), "ann@y.com");
    assert_eq!(merged.age(), 30);
}

#[test]
fn update_outcome_failure_yields_update_failed() {
    let merged = User::new(
        "some-id".to_string(),
        "Ann".to_string(),
        "ann@x.com".to_string(),
        31,
    );
    let ok = finish_update_user(merged, &ExecOutcome::Done { rows_affected: 1 }).unwrap();
    assert_eq!(ok.age(), 31);
    let merged = User::new(
        "some-id".to_string(),
        "Ann".to_string(),
        "ann@x.com".to_string(),
        31,
    );
    let err = finish_update_user(merged, &ExecOutcome::Failed { message: "io".to_string() })
        .unwrap_err();
    assert_eq!(err, UserDomainError::UserUpdateFailed);
}

#[test]
fn delete_outcome_maps_row_count_and_failure() {
    assert_eq!(
        finish_delete_user(&ExecOutcome::Done { rows_affected: 1 }),
        Ok(())
    );
    assert_eq!(
        finish_delete_user(&ExecOutcome::Done { rows_affected: 0 }),
        Err(UserDomainError::UserNotFound)
    );
    assert_eq!(
        finish_delete_user(&ExecOutcome::Failed { message: "io".to_string() }),
        Err(UserDomainError::UserDeletionFailed)
    );
}

#[test]
fn config_requires_both_settings() {
    let ok = Config::from_env(Some("8080".to_string()), Some("postgres://db".to_string()))
        .unwrap();
    assert_eq!(ok.server_port, "8080");
    assert_eq!(ok.database_url, "postgres://db");
    assert_eq!(
        Config::from_env(None, Some("postgres://db".to_string())),
        Err(ConfigError::MissingServerPort)
    );
    assert_eq!(
        Config::from_env(Some("8080".to_string()), None),
        Err(ConfigError::MissingDatabaseUrl)
    );
}

#[test]
fn text_helpers_match_std_semantics() {
    assert!(str_eq("abc", "abc"));
    assert!(!str_eq("abc", "abd"));
    assert!(!str_eq("abc", "ab"));
    assert!(str_eq("", ""));
    assert!(contains_substring("violates unique constraint", "unique"));
    assert!(contains_substring("duplicate", "duplicate"));
    assert!(contains_substring("anything", ""));
    assert!(!contains_substring("short", "much longer needle"));
    assert!(!contains_substring("uniqu", "unique"));
}
