//! The application's error type and the public answer given for each error.
use vstd::prelude::*;

verus! {

/// A database failure reported by `sqlx`; carried, never inspected here.
#[verifier::external_type_specification]
#[verifier::external_body]
pub struct ExDatabaseError(sqlx::Error);

/// A template rendering failure reported by `askama`; carried, never inspected here.
#[verifier::external_type_specification]
#[verifier::external_body]
pub struct ExTemplateError(askama::Error);

/// A token failure reported by `jwt_simple`; carried, never inspected here.
#[verifier::external_type_specification]
#[verifier::external_body]
pub struct ExTokenError(jwt_simple::Error);

/// Whether a database failure is the violation of a unique constraint, as
/// `sqlx`'s `DatabaseError::is_unique_violation` reports it; it is a function
/// of the failure alone (the kind its driver assigns, SQLSTATE 23505 on
/// PostgreSQL). Failures other than database errors are not.
pub uninterp spec fn unique_violation(error: sqlx::Error) -> bool;

/// Asks `sqlx` whether a database failure is a unique-constraint violation
/// (`DatabaseError::is_unique_violation` on a database error, `false` for
/// every other kind of failure).
///
/// Claimed: the answer is `unique_violation(error)`; how the driver
/// classifies its errors is left unsaid.
#[verifier::external_body]
pub(crate) fn is_unique_violation(error: &sqlx::Error) -> (r: bool)
    ensures
        r == unique_violation(*error),
{
    match error {
        sqlx::Error::Database(database_error) => database_error.is_unique_violation(),
        _ => false,
    }
}

/// Everything that can go wrong while serving a request.
pub enum AppError {
    MissingAuthorization,
    InvalidCredentials,
    AssetDoesNotExist,
    InvalidAssetData(&'static str),
    AssetNameTaken,
    UserDoesNotExist,
    UsernameTaken,
    InvalidPasswordHash,
    Configuration(&'static str),
    Database(sqlx::Error),
    Template(askama::Error),
    Jwt(jwt_simple::Error),
}

/// HTTP 401.
pub const STATUS_UNAUTHORIZED: u16 = 401;

/// HTTP 404.
pub const STATUS_NOT_FOUND: u16 = 404;

/// HTTP 409.
pub const STATUS_CONFLICT: u16 = 409;

/// HTTP 422.
pub const STATUS_UNPROCESSABLE_ENTITY: u16 = 422;

/// HTTP 500.
pub const STATUS_INTERNAL_SERVER_ERROR: u16 = 500;

/// What a client is told about an error, and whether it is logged.
pub struct PublicError {
    pub status: u16,
    pub message: &'static str,
    pub should_log: bool,
}

/// The status code answered for `e`.
pub open spec fn public_status(e: AppError) -> u16 {
    match e {
        AppError::MissingAuthorization | AppError::InvalidCredentials | AppError::Jwt(_) => 401,
        AppError::AssetDoesNotExist | AppError::UserDoesNotExist => 404,
        AppError::InvalidAssetData(_) => 422,
        AppError::AssetNameTaken | AppError::UsernameTaken => 409,
        AppError::InvalidPasswordHash
        | AppError::Configuration(_)
        | AppError::Database(_)
        | AppError::Template(_) => 500,
    }
}

/// The message shown to the client for `e`: a fixed sentence per kind of
/// error, or the validation message itself for invalid asset data.
pub open spec fn public_message(e: AppError) -> Seq<char> {
    match e {
        AppError::MissingAuthorization => "Autenticação necessária."@,
        AppError::InvalidCredentials | AppError::Jwt(_) =>
            "Sessão inválida, expirada ou credenciais incorretas."@,
        AppError::AssetDoesNotExist => "O ativo solicitado não foi encontrado."@,
        AppError::InvalidAssetData(message) => message@,
        AppError::AssetNameTaken => "Já existe um ativo cadastrado com esse nome."@,
        AppError::UserDoesNotExist => "O usuário solicitado não foi encontrado."@,
        AppError::UsernameTaken => "Este nome de usuário já está em uso."@,
        AppError::InvalidPasswordHash
        | AppError::Configuration(_)
        | AppError::Database(_)
        | AppError::Template(_) => internal_error_message(),
    }
}

/// The one sentence shown for every internal failure.
pub open spec fn internal_error_message() -> Seq<char> {
    "Ocorreu um erro interno. Tente novamente."@
}

/// Internal failures are logged; client errors are not.
pub open spec fn is_internal(e: AppError) -> bool {
    public_status(e) == 500
}

impl AppError {
    /// The status code, public message and logging decision for this error.
    pub fn public_error(&self) -> (r: PublicError)
        ensures
            r.status == public_status(*self),
            r.message@ == public_message(*self),
            r.should_log == is_internal(*self),
    {
        match self {
            AppError::MissingAuthorization => PublicError {
                status: STATUS_UNAUTHORIZED,
                message: "Autenticação necessária.",
                should_log: false,
            },
            AppError::InvalidCredentials | AppError::Jwt(_) => PublicError {
                status: STATUS_UNAUTHORIZED,
                message: "Sessão inválida, expirada ou credenciais incorretas.",
                should_log: false,
            },
            AppError::AssetDoesNotExist => PublicError {
                status: STATUS_NOT_FOUND,
                message: "O ativo solicitado não foi encontrado.",
                should_log: false,
            },
            AppError::InvalidAssetData(message) => PublicError {
                status: STATUS_UNPROCESSABLE_ENTITY,
                message: *message,
                should_log: false,
            },
            AppError::AssetNameTaken => PublicError {
                status: STATUS_CONFLICT,
                message: "Já existe um ativo cadastrado com esse nome.",
                should_log: false,
            },
            AppError::UserDoesNotExist => PublicError {
                status: STATUS_NOT_FOUND,
                message: "O usuário solicitado não foi encontrado.",
                should_log: false,
            },
            AppError::UsernameTaken => PublicError {
                status: STATUS_CONFLICT,
                message: "Este nome de usuário já está em uso.",
                should_log: false,
            },
            AppError::InvalidPasswordHash
            | AppError::Configuration(_)
            | AppError::Database(_)
            | AppError::Template(_) => PublicError {
                status: STATUS_INTERNAL_SERVER_ERROR,
                message: "Ocorreu um erro interno. Tente novamente.",
                should_log: true,
            },
        }
    }
}

/// No internal failure reveals anything about its cause to the client: every
/// one of them is answered with status 500 and the same fixed sentence, and
/// is logged.
pub proof fn lemma_internal_errors_are_opaque(e: AppError, f: AppError)
    requires
        is_internal(e),
        is_internal(f),
    ensures
        public_message(e) == public_message(f),
        public_message(e) == internal_error_message(),
{
}

} // verus!
