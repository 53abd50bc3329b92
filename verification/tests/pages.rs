use investment_os::auth::user::{UnauthenticatedUser, User};
use investment_os::error::AppError;
use investment_os::routes::frontend::{
    check_create_asset_form, check_dashboard_visitor, check_delete_asset_form, check_login_form,
    check_registration_form, check_update_asset_form, cookie_secure, created_redirect,
    delete_form_redirect, duplicate_name_redirect, login_outcome, registration_step, signed_in_redirect,
    update_form_redirect, CreateAssetForm, SignInStep, UpdateAssetForm,
};

fn user() -> User {
    User::new(1, "fixture_user".to_string())
}

fn redirect<T>(r: Result<T, &'static str>) -> &'static str {
    match r {
        Err(path) => path,
        Ok(_) => panic!("expected a redirect"),
    }
}

#[test]
fn secure_cookie_flag() {
    for value in ["true", " TRUE ", "1", "Yes", "on\n", "oN"] {
        assert!(cookie_secure(Some(value.to_string())), "{value}");
    }
    for value in ["false", "0", "", "no", "enabled", "t rue"] {
        assert!(!cookie_secure(Some(value.to_string())), "{value}");
    }
    assert!(!cookie_secure(None));
}

#[test]
fn login_form_needs_both_fields() {
    assert_eq!(
        redirect(check_login_form("   ".to_string(), "pw".to_string())),
        "/login?status=invalid-fields"
    );
    assert_eq!(
        redirect(check_login_form("alice".to_string(), String::new())),
        "/login?status=invalid-fields"
    );
    let candidate = check_login_form("  alice ".to_string(), " pw ".to_string()).ok().unwrap();
    assert_eq!(candidate.username(), "alice");
}

#[test]
fn login_outcomes() {
    match login_outcome(Ok(user())) {
        SignInStep::SignIn(u, target) => {
            assert_eq!(u.id(), 1);
            assert_eq!(target, "/");
        }
        _ => panic!("expected sign in"),
    }
    for e in [AppError::UserDoesNotExist, AppError::InvalidCredentials] {
        match login_outcome(Err(e)) {
            SignInStep::Redirect(p) => assert_eq!(p, "/login?status=invalid-credentials"),
            _ => panic!("expected redirect"),
        }
    }
    assert!(matches!(
        login_outcome(Err(AppError::InvalidPasswordHash)),
        SignInStep::Fail(AppError::InvalidPasswordHash)
    ));
}

#[test]
fn registration_form_rules() {
    let r = check_registration_form("ab".to_string(), "password1".to_string(), "password1".to_string());
    assert_eq!(redirect(r), "/register?status=invalid-username");
    let r = check_registration_form("a".repeat(41), "password1".to_string(), "password1".to_string());
    assert_eq!(redirect(r), "/register?status=invalid-username");
    let r = check_registration_form("alice".to_string(), "short".to_string(), "short".to_string());
    assert_eq!(redirect(r), "/register?status=invalid-password");
    let r = check_registration_form("alice".to_string(), "p".repeat(129), "p".repeat(129));
    assert_eq!(redirect(r), "/register?status=invalid-password");
    let r = check_registration_form("alice".to_string(), "password1".to_string(), "password2".to_string());
    assert_eq!(redirect(r), "/register?status=password-mismatch");
}

#[test]
fn registration_form_accepted() {
    let new_user =
        check_registration_form("  ana  ".to_string(), "çççççççç".to_string(), "çççççççç".to_string())
            .ok()
            .unwrap();
    assert_eq!(new_user.username, "ana");
    let login = UnauthenticatedUser::new("ana".to_string(), "çççççççç".to_string());
    let record = investment_os::models::UserRecord {
        id: 9,
        username: "ana".to_string(),
        password_hash: new_user.password_hash,
    };
    assert_eq!(login.authenticate(Some(record)).ok().unwrap().id(), 9);
}

#[test]
fn registration_steps() {
    match registration_step(Ok(user())) {
        SignInStep::SignIn(_, target) => assert_eq!(target, "/?status=registered"),
        _ => panic!("expected sign in"),
    }
    match registration_step(Err(AppError::UsernameTaken)) {
        SignInStep::Redirect(p) => assert_eq!(p, "/register?status=username-taken"),
        _ => panic!("expected redirect"),
    }
    assert!(matches!(
        registration_step(Err(AppError::Database(sqlx::Error::RowNotFound))),
        SignInStep::Fail(AppError::Database(_))
    ));
}

fn create_form(name: &str, unit_value: f64, quantity: f64) -> CreateAssetForm {
    CreateAssetForm { name: name.to_string(), unit_value: unit_value.to_bits(), quantity: quantity.to_bits() }
}

#[test]
fn create_form_redirects() {
    assert_eq!(redirect(check_create_asset_form(None, create_form("BTC", 1.0, 1.0))), "/login");
    assert_eq!(
        redirect(check_create_asset_form(Some(user()), create_form("  ", 1.0, 1.0))),
        "/?status=empty-name"
    );
    assert_eq!(
        redirect(check_create_asset_form(Some(user()), create_form("BTC", 0.0, 1.0))),
        "/?status=invalid-value"
    );
    assert_eq!(
        redirect(check_create_asset_form(Some(user()), create_form("BTC", 1.0, -2.0))),
        "/?status=invalid-quantity"
    );
    assert_eq!(duplicate_name_redirect(true), Some("/?status=duplicate"));
    assert_eq!(duplicate_name_redirect(false), None);
    assert_eq!(created_redirect(), "/?status=created");
}

#[test]
fn create_form_accepted() {
    let (u, asset) = check_create_asset_form(Some(user()), create_form(" BTC ", 2.5, 4.0)).ok().unwrap();
    assert_eq!(u.id(), 1);
    assert_eq!(asset.name, "BTC");
    assert_eq!(f64::from_bits(asset.unit_value), 2.5);
    // the form only rejects values at most zero: NaN passes it
    assert!(check_create_asset_form(Some(user()), create_form("BTC", f64::NAN, 1.0)).is_ok());
}

fn update_form(id: i64, name: &str, unit_value: f64, quantity: f64) -> UpdateAssetForm {
    UpdateAssetForm { id, name: name.to_string(), unit_value: unit_value.to_bits(), quantity: quantity.to_bits() }
}

#[test]
fn update_form_redirects() {
    assert_eq!(redirect(check_update_asset_form(None, update_form(1, "A", 1.0, 1.0))), "/login");
    assert_eq!(
        redirect(check_update_asset_form(Some(user()), update_form(0, "", 0.0, 0.0))),
        "/?status=invalid"
    );
    assert_eq!(
        redirect(check_update_asset_form(Some(user()), update_form(2, " ", 1.0, 1.0))),
        "/?status=empty-name"
    );
    assert_eq!(
        redirect(check_update_asset_form(Some(user()), update_form(2, "A", -0.0, 1.0))),
        "/?status=invalid-value"
    );
    let (_, changes) = check_update_asset_form(Some(user()), update_form(2, " A ", 1.5, 2.0)).ok().unwrap();
    assert_eq!(changes.id, 2);
    assert_eq!(changes.name.as_deref(), Some("A"));
    assert_eq!(changes.unit_value, Some(1.5f64.to_bits()));
    assert_eq!(update_form_redirect(true), "/?status=updated");
    assert_eq!(update_form_redirect(false), "/?status=not-found");
}

#[test]
fn delete_form_redirects() {
    assert_eq!(redirect(check_delete_asset_form(None, 1)), "/login");
    assert_eq!(redirect(check_delete_asset_form(Some(user()), -1)), "/?status=invalid");
    let (u, id) = check_delete_asset_form(Some(user()), 5).ok().unwrap();
    assert_eq!((u.id(), id), (1, 5));
    assert_eq!(delete_form_redirect(true), "/?status=deleted");
    assert_eq!(delete_form_redirect(false), "/?status=not-found");
}

#[test]
fn secure_cookie_flag_matches_trimmed_lowercase_reading() {
    let words = ["true", "TRUE", "True", "1", "yes", "YES", "on", "On", "off", "tru", "onn", "1 1"];
    let pads = ["", " ", "\t", "\u{3000}", "\n\u{a0}"];
    for word in words {
        for pad in pads {
            let value = format!("{pad}{word}{pad}");
            let expected = matches!(
                value.trim().to_ascii_lowercase().as_str(),
                "true" | "1" | "yes" | "on"
            );
            assert_eq!(cookie_secure(Some(value.clone())), expected, "{value:?}");
        }
    }
}

#[test]
fn dashboard_and_entry_pages() {
    assert_eq!(redirect(check_dashboard_visitor(None)), "/login");
    assert_eq!(check_dashboard_visitor(Some(user())).ok().unwrap().id(), 1);
    assert_eq!(signed_in_redirect(true), Some("/"));
    assert_eq!(signed_in_redirect(false), None);
}
