use investment_os::auth::admin::{strip_bearer, Admin, AuthorizationHeader};
use investment_os::auth::secret::{admin_secret, check_secret, jwt_secret};
use investment_os::auth::user::{
    authentication_outcome, registration_outcome, registration_result_of, PasswordCheck,
    UnauthenticatedUser, User,
};
use investment_os::error::AppError;
use investment_os::models::UserRecord;

const SECRET: &str = "0123456789abcdef0123456789abcdef";

fn configuration_name<T>(r: Result<T, AppError>) -> &'static str {
    match r {
        Err(AppError::Configuration(name)) => name,
        _ => panic!("expected a configuration error"),
    }
}

#[test]
fn user_keeps_identity() {
    let user = User::new(42, "fixture_user".to_string());
    assert_eq!(user.id(), 42);
    assert_eq!(user.username(), "fixture_user");
    let candidate = UnauthenticatedUser::new("alice".to_string(), "s3cret-pass".to_string());
    assert_eq!(candidate.username(), "alice");
}

#[test]
fn secrets_need_thirty_two_bytes() {
    assert_eq!(configuration_name(jwt_secret(None)), "JWT_SECRET");
    assert_eq!(configuration_name(admin_secret(None)), "ADMIN_SECRET");
    let short = "x".repeat(31);
    assert_eq!(configuration_name(jwt_secret(Some(short))), "JWT_SECRET");
    assert_eq!(jwt_secret(Some(SECRET.to_string())).ok().as_deref(), Some(SECRET));
    // sixteen two-byte characters are thirty-two bytes
    let accented = "é".repeat(16);
    assert_eq!(admin_secret(Some(accented.clone())).ok(), Some(accented));
    assert_eq!(configuration_name(check_secret(Some("é".repeat(15)), "X")), "X");
}

#[test]
fn admin_needs_a_header() {
    let r = Admin::authorize(AuthorizationHeader::Missing, Some(SECRET.to_string()));
    assert!(matches!(r, Err(AppError::MissingAuthorization)));
    let r = Admin::authorize(AuthorizationHeader::Unreadable, Some(SECRET.to_string()));
    assert!(matches!(r, Err(AppError::InvalidCredentials)));
}

#[test]
fn admin_secret_with_or_without_bearer() {
    let bare = AuthorizationHeader::Text(SECRET.to_string());
    assert!(Admin::authorize(bare, Some(SECRET.to_string())).is_ok());
    let bearer = AuthorizationHeader::Text(format!("Bearer {SECRET}"));
    assert!(Admin::authorize(bearer, Some(SECRET.to_string())).is_ok());
    let wrong = AuthorizationHeader::Text(format!("Bearer {SECRET}x"));
    assert!(matches!(
        Admin::authorize(wrong, Some(SECRET.to_string())),
        Err(AppError::InvalidCredentials)
    ));
    let lower = AuthorizationHeader::Text(format!("bearer {SECRET}"));
    assert!(matches!(
        Admin::authorize(lower, Some(SECRET.to_string())),
        Err(AppError::InvalidCredentials)
    ));
}

#[test]
fn admin_check_reports_missing_configuration() {
    let header = AuthorizationHeader::Text(SECRET.to_string());
    assert_eq!(configuration_name(Admin::authorize(header, None)), "ADMIN_SECRET");
    let header = AuthorizationHeader::Text("short".to_string());
    assert_eq!(
        configuration_name(Admin::authorize(header, Some("short".to_string()))),
        "ADMIN_SECRET"
    );
}

#[test]
fn bearer_prefix_is_removed_once() {
    assert_eq!(strip_bearer("Bearer abc"), "abc");
    assert_eq!(strip_bearer("Bearer Bearer abc"), "Bearer abc");
    assert_eq!(strip_bearer("Bearerabc"), "Bearerabc");
    assert_eq!(strip_bearer("Bearer "), "");
    assert_eq!(strip_bearer(""), "");
}

fn record(hash: &str) -> UserRecord {
    UserRecord { id: 3, username: "alice".to_string(), password_hash: hash.to_string() }
}

#[test]
fn registered_password_logs_in() {
    let candidate = UnauthenticatedUser::new("alice".to_string(), "correct horse".to_string());
    let new_user = candidate.register();
    assert_eq!(new_user.username, "alice");
    assert!(new_user.password_hash.starts_with("$argon2id$"));
    assert_ne!(new_user.password_hash, "correct horse");
    let login = UnauthenticatedUser::new("alice".to_string(), "correct horse".to_string());
    let user = login.authenticate(Some(record(&new_user.password_hash))).ok().unwrap();
    assert_eq!(user.id(), 3);
    assert_eq!(user.username(), "alice");
    let wrong = UnauthenticatedUser::new("alice".to_string(), "wrong horse".to_string());
    assert!(matches!(
        wrong.authenticate(Some(record(&new_user.password_hash))),
        Err(AppError::InvalidCredentials)
    ));
}

#[test]
fn unknown_user_and_broken_hash() {
    let login = UnauthenticatedUser::new("ghost".to_string(), "password".to_string());
    assert!(matches!(login.authenticate(None), Err(AppError::UserDoesNotExist)));
    assert!(matches!(
        login.authenticate(Some(record("test-password-hash"))),
        Err(AppError::InvalidPasswordHash)
    ));
}

#[test]
fn known_argon2_hash_verifies() {
    let hash = "$argon2i$v=19$m=65536,t=1,p=1$c29tZXNhbHQAAAAAAAAAAA$+r0d29hqEB0yasKr55ZgICsQGSkl0v0kgwhd+U3wyRo";
    let login = UnauthenticatedUser::new("alice".to_string(), "password".to_string());
    assert!(login.authenticate(Some(record(hash))).is_ok());
    let login = UnauthenticatedUser::new("alice".to_string(), "bogus".to_string());
    assert!(matches!(login.authenticate(Some(record(hash))), Err(AppError::InvalidCredentials)));
}

#[test]
fn password_verdicts_become_login_answers() {
    let user = authentication_outcome(record("h"), PasswordCheck::Valid).ok().unwrap();
    assert_eq!(user.id(), 3);
    assert!(matches!(
        authentication_outcome(record("h"), PasswordCheck::Mismatch),
        Err(AppError::InvalidCredentials)
    ));
    assert!(matches!(
        authentication_outcome(record("h"), PasswordCheck::UnreadableHash),
        Err(AppError::InvalidPasswordHash)
    ));
}

#[test]
fn store_answers_become_registration_answers() {
    let user = registration_outcome(Ok(record("h"))).ok().unwrap();
    assert_eq!(user.username(), "alice");
    assert!(matches!(
        registration_result_of(Err(sqlx::Error::RowNotFound), true),
        Err(AppError::UsernameTaken)
    ));
    assert!(matches!(
        registration_result_of(Err(sqlx::Error::RowNotFound), false),
        Err(AppError::Database(sqlx::Error::RowNotFound))
    ));
    assert!(matches!(
        registration_outcome(Err(sqlx::Error::PoolClosed)),
        Err(AppError::Database(sqlx::Error::PoolClosed))
    ));
}
