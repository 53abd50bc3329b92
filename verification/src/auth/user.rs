//! Users: credentials checked against stored records, and registration.
use vstd::prelude::*;
use crate::auth::secret::byte_len;
use crate::error::{AppError, is_unique_violation, unique_violation};
use crate::models::UserRecord;

verus! {

/// The verdict of checking a password against a stored password hash.
pub enum PasswordCheck {
    /// The password matches the hash.
    Valid,
    /// The hash was read as a PHC string, and the password did not verify
    /// against it (a wrong password, or an algorithm no verifier accepts).
    Mismatch,
    /// The stored hash could not be read as a PHC string.
    UnreadableHash,
}

/// What `password_auth::verify_password` answers for a password and a
/// stored hash; it depends on these two strings alone.
pub uninterp spec fn password_check(password: Seq<char>, hash: Seq<char>) -> PasswordCheck;

/// Checks `password` against the PHC string `hash` with
/// `password_auth::verify_password`.
///
/// Claimed: the answer is `password_check(password, hash)`, a fixed function
/// of the two strings (the check recomputes the hash with the salt and
/// parameters recorded in `hash` and compares). `Ok` is `Valid`, the error
/// `PasswordInvalid` is `Mismatch`, a parse error is `UnreadableHash`.
#[verifier::external_body]
fn verify_password(password: &str, hash: &str) -> (r: PasswordCheck)
    ensures
        r == password_check(password@, hash@),
{
    match password_auth::verify_password(password, hash) {
        Ok(()) => PasswordCheck::Valid,
        Err(password_auth::VerifyError::PasswordInvalid) => PasswordCheck::Mismatch,
        Err(password_auth::VerifyError::Parse(_)) => PasswordCheck::UnreadableHash,
    }
}

/// A PHC string of the Argon2id algorithm: it begins with `$argon2id$`.
pub open spec fn is_argon2id_phc(hash: Seq<char>) -> bool {
    hash.len() >= 10 && hash.take(10) == seq!['$', 'a', 'r', 'g', 'o', 'n', '2', 'i', 'd', '$']
}

/// Hashes `password` with `password_auth::generate_hash` (Argon2 with a
/// fresh random salt).
///
/// Claimed: the result is an Argon2id PHC string (the crate hashes with
/// `Argon2::default()`, whose algorithm is Argon2id, and prints the hash as
/// `$argon2id$v=..$params$salt$output`), and it verifies against the same
/// password, as the crate's own tests check. Which hash comes out depends on the random salt
/// and is left unsaid. Argon2 refuses passwords longer than `u32::MAX`
/// bytes (the crate then panics), so such passwords are excluded; a failure
/// of the operating system's random source is not.
#[verifier::external_body]
fn generate_hash(password: &str) -> (r: String)
    requires
        byte_len(password@) <= u32::MAX,
    ensures
        password_check(password@, r@) == PasswordCheck::Valid,
        is_argon2id_phc(r@),
{
    password_auth::generate_hash(password)
}

/// Credentials presented by someone who is not logged in yet.
pub struct UnauthenticatedUser {
    username: String,
    password: String,
}

/// An authenticated user.
pub struct User {
    id: i64,
    username: String,
}

/// A user about to be stored: the chosen name and the hash of the password.
pub struct NewUser {
    pub username: String,
    pub password_hash: String,
}

impl UnauthenticatedUser {
    /// The presented user name.
    pub closed spec fn username_view(&self) -> Seq<char> {
        self.username@
    }

    /// The presented password.
    pub closed spec fn password_view(&self) -> Seq<char> {
        self.password@
    }

    pub fn new(username: String, password: String) -> (r: Self)
        ensures
            r.username_view() == username@,
            r.password_view() == password@,
    {
        Self { username, password }
    }

    /// The presented user name, by which the stored record is looked up.
    pub fn username(&self) -> (r: &str)
        ensures
            r@ == self.username_view(),
    {
        self.username.as_str()
    }

    /// Authenticates against the stored record found under this user name
    /// (`None` when there is none).
    pub fn authenticate(&self, record: Option<UserRecord>) -> (r: Result<User, AppError>)
        ensures
            record is None ==> r matches Err(AppError::UserDoesNotExist),
            record matches Some(rec) ==> authentication_result(
                rec,
                password_check(self.password_view(), rec.password_hash@),
                r,
            ),
    {
        match record {
            None => Err(AppError::UserDoesNotExist),
            Some(rec) => {
                let check = verify_password(self.password.as_str(), rec.password_hash.as_str());
                authentication_outcome(rec, check)
            },
        }
    }

    /// Prepares the record to store for this new user: the name and an
    /// Argon2id hash of the password (the password itself is not kept), which
    /// verifies against that password.
    pub fn register(self) -> (r: NewUser)
        requires
            byte_len(self.password_view()) <= u32::MAX,
        ensures
            r.username@ == self.username_view(),
            password_check(self.password_view(), r.password_hash@) == PasswordCheck::Valid,
            is_argon2id_phc(r.password_hash@),
    {
        let password_hash = generate_hash(self.password.as_str());
        NewUser { username: self.username, password_hash }
    }
}

/// The answer to a login once the stored record's hash has been checked.
pub open spec fn authentication_result(
    record: UserRecord,
    check: PasswordCheck,
    r: Result<User, AppError>,
) -> bool {
    match check {
        PasswordCheck::Valid => r matches Ok(u) && u.id_view() == record.id && u.username_view()
            == record.username@,
        PasswordCheck::Mismatch => r matches Err(AppError::InvalidCredentials),
        PasswordCheck::UnreadableHash => r matches Err(AppError::InvalidPasswordHash),
    }
}

/// Turns the verdict on a stored record's hash into the login's answer.
pub fn authentication_outcome(record: UserRecord, check: PasswordCheck) -> (r: Result<
    User,
    AppError,
>)
    ensures
        authentication_result(record, check, r),
{
    match check {
        PasswordCheck::Valid => Ok(User::new(record.id, record.username)),
        PasswordCheck::Mismatch => Err(AppError::InvalidCredentials),
        PasswordCheck::UnreadableHash => Err(AppError::InvalidPasswordHash),
    }
}

/// The answer to a registration once the store has answered: the stored
/// user, `UsernameTaken` when the store refused a duplicate name
/// (`unique_violation`), or the store's error.
pub open spec fn registration_result(
    outcome: Result<UserRecord, sqlx::Error>,
    unique_violation: bool,
    r: Result<User, AppError>,
) -> bool {
    match outcome {
        Ok(rec) => r matches Ok(u) && u.id_view() == rec.id && u.username_view() == rec.username@,
        Err(e) => if unique_violation {
            r matches Err(AppError::UsernameTaken)
        } else {
            r == Err::<User, AppError>(AppError::Database(e))
        },
    }
}

/// Turns the store's answer to an insertion, and whether a failure was a
/// violation of the unique user name, into the registration's answer.
pub fn registration_result_of(outcome: Result<UserRecord, sqlx::Error>, unique_violation: bool) -> (r:
    Result<User, AppError>)
    ensures
        registration_result(outcome, unique_violation, r),
{
    match outcome {
        Ok(rec) => Ok(User::new(rec.id, rec.username)),
        Err(e) => if unique_violation {
            Err(AppError::UsernameTaken)
        } else {
            Err(AppError::Database(e))
        },
    }
}

/// Turns the store's answer to inserting a new user into the registration's
/// answer; a failure is classified by `sqlx`'s unique-violation test.
pub fn registration_outcome(outcome: Result<UserRecord, sqlx::Error>) -> (r: Result<User, AppError>)
    ensures
        outcome is Ok ==> registration_result(outcome, false, r),
        outcome matches Err(e) ==> registration_result(outcome, unique_violation(e), r),
{
    match outcome {
        Ok(rec) => registration_result_of(Ok(rec), false),
        Err(e) => {
            let unique = is_unique_violation(&e);
            registration_result_of(Err(e), unique)
        },
    }
}

impl User {
    /// The user's identifier.
    pub closed spec fn id_view(&self) -> i64 {
        self.id
    }

    /// The user's name.
    pub closed spec fn username_view(&self) -> Seq<char> {
        self.username@
    }

    pub fn new(id: i64, username: String) -> (r: Self)
        ensures
            r.id_view() == id,
            r.username_view() == username@,
    {
        Self { id, username }
    }

    pub fn username(&self) -> (r: &str)
        ensures
            r@ == self.username_view(),
    {
        self.username.as_str()
    }

    pub fn id(&self) -> (r: i64)
        ensures
            r == self.id_view(),
    {
        self.id
    }
}

/// Registration followed by login with the same password succeeds: a
/// record stored from `register` authenticates the user who registered,
/// and the login returns the stored identity.
pub proof fn lemma_registered_user_can_log_in(
    candidate: UnauthenticatedUser,
    new_user: NewUser,
    record: UserRecord,
    login: UnauthenticatedUser,
    r: Result<User, AppError>,
)
    requires
        new_user.username@ == candidate.username_view(),
        password_check(candidate.password_view(), new_user.password_hash@) == PasswordCheck::Valid,
        record.password_hash@ == new_user.password_hash@,
        login.password_view() == candidate.password_view(),
        authentication_result(
            record,
            password_check(login.password_view(), record.password_hash@),
            r,
        ),
    ensures
        r matches Ok(u) && u.id_view() == record.id && u.username_view() == record.username@,
{
}

} // verus!
