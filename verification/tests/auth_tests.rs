use wallet_live::admin::Admin;
use wallet_live::error::AppError;
use wallet_live::models::UserRecord;
use wallet_live::user::{login_step, require_token, LoginStep, UnauthenticatedUser, User};

fn record(id: i64, name: &str, hash: &str) -> UserRecord {
    UserRecord { id, username: name.to_string(), password_hash: hash.to_string() }
}

#[test]
fn user_accessors() {
    let u = User::new(42, "bob".to_string());
    assert_eq!(u.id(), 42);
    assert_eq!(u.username(), "bob");
}

#[test]
fn admin_needs_exact_secret() {
    assert!(Admin::authorize(Some(b"im-the-admin".as_slice())).is_ok());
    assert!(matches!(Admin::authorize(None), Err(AppError::MissingAuthorization)));
    assert!(matches!(
        Admin::authorize(Some(b"im-the-admin ".as_slice())),
        Err(AppError::InvalidCredentials)
    ));
    assert!(matches!(Admin::authorize(Some(b"".as_slice())), Err(AppError::InvalidCredentials)));
    assert!(matches!(
        Admin::authorize(Some(b"im-the-\x01dmin".as_slice())),
        Err(AppError::InvalidCredentials)
    ));
}

#[test]
fn registered_password_signs_in_and_wrong_one_does_not() {
    let creds = UnauthenticatedUser::new("carol".to_string(), "s3cret".to_string());
    let hash = creds.password_hash();
    assert_ne!(hash, "s3cret");
    let ok = creds.authenticate(Ok(Some(record(3, "carol", &hash)))).expect("signs in");
    assert_eq!(ok.id(), 3);
    assert_eq!(ok.username(), "carol");
    let wrong = UnauthenticatedUser::new("carol".to_string(), "guess".to_string());
    assert!(matches!(
        wrong.authenticate(Ok(Some(record(3, "carol", &hash)))),
        Err(AppError::InvalidCredentials)
    ));
}

#[test]
fn unknown_user_and_database_failure() {
    let creds = UnauthenticatedUser::new("dan".to_string(), "pw".to_string());
    assert!(matches!(creds.authenticate(Ok(None)), Err(AppError::UserDoesNotExist)));
    assert!(matches!(
        creds.authenticate(Err(sqlx::Error::RowNotFound)),
        Err(AppError::Database(sqlx::Error::RowNotFound))
    ));
}

#[test]
fn unparsable_hash_is_not_decided() {
    let creds = UnauthenticatedUser::new("eve".to_string(), "pw".to_string());
    assert!(creds.try_authenticate(Ok(Some(record(1, "eve", "not a hash")))).is_none());
    assert!(matches!(creds.try_authenticate(Ok(None)), Some(Err(AppError::UserDoesNotExist))));
}

#[test]
fn registration_outcomes() {
    let r = UnauthenticatedUser::registration_result(Ok(record(9, "fay", "h")), false).unwrap();
    assert_eq!((r.id(), r.username().as_str()), (9, "fay"));
    assert!(matches!(
        UnauthenticatedUser::registration_result(Err(sqlx::Error::RowNotFound), true),
        Err(AppError::UsernameTaken)
    ));
    assert!(matches!(
        UnauthenticatedUser::registration_result(Err(sqlx::Error::RowNotFound), false),
        Err(AppError::Database(_))
    ));
    let creds = UnauthenticatedUser::new("gus".to_string(), "pw".to_string());
    assert!(matches!(creds.register(Err(sqlx::Error::RowNotFound)), Err(AppError::Database(_))));
    let creds = UnauthenticatedUser::new("gus".to_string(), "pw".to_string());
    assert_eq!(creds.register(Ok(record(4, "gus", "h"))).unwrap().id(), 4);
}

#[test]
fn login_decisions() {
    assert!(matches!(login_step(Ok(User::new(1, "a".to_string()))), LoginStep::SignedIn(_)));
    assert!(matches!(login_step(Err(AppError::UserDoesNotExist)), LoginStep::Register));
    assert!(matches!(
        login_step(Err(AppError::InvalidCredentials)),
        LoginStep::Refused(AppError::InvalidCredentials)
    ));
}

#[test]
fn session_lookup() {
    assert_eq!(require_token(Some("tok".to_string())).unwrap(), "tok");
    assert!(matches!(require_token(None), Err(AppError::MissingAuthorization)));
    let u = User::from_lookup(Ok(Some(record(8, "hal", "h")))).unwrap();
    assert_eq!((u.id(), u.username().as_str()), (8, "hal"));
    assert!(matches!(User::from_lookup(Ok(None)), Err(AppError::UserDoesNotExist)));
    assert!(matches!(User::from_lookup(Err(sqlx::Error::RowNotFound)), Err(AppError::Database(_))));
}

#[test]
fn try_authenticate_decides_registered_hashes() {
    let creds = UnauthenticatedUser::new("ina".to_string(), "right".to_string());
    let hash = creds.password_hash();
    let ok = creds.try_authenticate(Ok(Some(record(6, "ina", &hash))));
    assert!(matches!(ok, Some(Ok(ref u)) if u.id() == 6 && u.username() == "ina"));
    let other = UnauthenticatedUser::new("ina".to_string(), "wrong".to_string());
    assert!(matches!(
        other.try_authenticate(Ok(Some(record(6, "ina", &hash)))),
        Some(Err(AppError::InvalidCredentials))
    ));
}
