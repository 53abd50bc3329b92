use investment_os::error::AppError;

#[test]
fn client_errors_are_explained() {
    let cases: Vec<(AppError, u16, &str)> = vec![
        (AppError::MissingAuthorization, 401, "Autenticação necessária."),
        (
            AppError::InvalidCredentials,
            401,
            "Sessão inválida, expirada ou credenciais incorretas.",
        ),
        (AppError::AssetDoesNotExist, 404, "O ativo solicitado não foi encontrado."),
        (AppError::InvalidAssetData("Informe o nome do ativo."), 422, "Informe o nome do ativo."),
        (AppError::AssetNameTaken, 409, "Já existe um ativo cadastrado com esse nome."),
        (AppError::UserDoesNotExist, 404, "O usuário solicitado não foi encontrado."),
        (AppError::UsernameTaken, 409, "Este nome de usuário já está em uso."),
    ];
    for (error, status, message) in cases {
        let public = error.public_error();
        assert_eq!(public.status, status);
        assert_eq!(public.message, message);
        assert!(!public.should_log);
    }
}

#[test]
fn token_errors_are_unauthorized() {
    let public = AppError::Jwt(jwt_simple::Error::msg("expired")).public_error();
    assert_eq!(public.status, 401);
    assert_eq!(public.message, "Sessão inválida, expirada ou credenciais incorretas.");
    assert!(!public.should_log);
}

#[test]
fn internal_errors_are_opaque_and_logged() {
    let internal = vec![
        AppError::InvalidPasswordHash,
        AppError::Configuration("JWT_SECRET"),
        AppError::Database(sqlx::Error::RowNotFound),
    ];
    for error in internal {
        let public = error.public_error();
        assert_eq!(public.status, 500);
        assert_eq!(public.message, "Ocorreu um erro interno. Tente novamente.");
        assert!(public.should_log);
    }
}
