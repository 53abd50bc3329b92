//! Decisions of the HTML pages: which page a form submission leads to, and
//! whether the session cookie is marked secure.
use vstd::prelude::*;
use crate::auth::user::{
    NewUser, PasswordCheck, UnauthenticatedUser, User, is_argon2id_phc, password_check,
};
use crate::error::AppError;
use crate::routes::api::{AssetChanges, NewAsset, create_request_error};
use crate::routes::number::{at_most_zero, is_at_most_zero, lemma_finite_positive_is_not_at_most_zero};
use crate::text::{
    ascii_lowercase, ascii_lowercase_str, lemma_byte_len_bound, trim, trim_str,
};

verus! {

/// Whether the configured value of `COOKIE_SECURE` turns the `Secure`
/// attribute on: after trimming and ASCII lower-casing it reads `true`, `1`,
/// `yes` or `on`. An absent (or non-Unicode) value turns it off.
pub open spec fn secure_cookie_enabled(configured: Option<String>) -> bool {
    match configured {
        Some(v) => {
            let t = ascii_lowercase(trim(v@));
            t == "true"@ || t == "1"@ || t == "yes"@ || t == "on"@
        },
        None => false,
    }
}

/// Decides the `Secure` attribute of the session cookie from the value of
/// `COOKIE_SECURE`.
pub fn cookie_secure(configured: Option<String>) -> (b: bool)
    ensures
        b == secure_cookie_enabled(configured),
{
    match configured {
        None => false,
        Some(value) => {
            let trimmed = trim_str(value.as_str());
            let lowered = ascii_lowercase_str(trimmed.as_str());
            lowered == String::from_str("true") || lowered == String::from_str("1") || lowered
                == String::from_str("yes") || lowered == String::from_str("on")
        },
    }
}

/// The dashboard is for signed-in users: anonymous visitors go to the login
/// page.
pub fn check_dashboard_visitor(user: Option<User>) -> (r: Result<User, &'static str>)
    ensures
        user is None ==> redirects_to(r, "/login"@),
        user matches Some(u) ==> r == Ok::<User, &'static str>(u),
{
    match user {
        Some(u) => Ok(u),
        None => Err("/login"),
    }
}

/// The login and registration pages are for anonymous visitors: a signed-in
/// user goes to the dashboard.
pub fn signed_in_redirect(signed_in: bool) -> (r: Option<&'static str>)
    ensures
        signed_in ==> (r matches Some(p) && p@ == "/"@),
        !signed_in ==> r is None,
{
    if signed_in {
        Some("/")
    } else {
        None
    }
}

/// What happens after a credential check: sign the user in and go to
/// `target`, redirect to a page that explains the problem, or fail.
pub enum SignInStep {
    SignIn(User, &'static str),
    Redirect(&'static str),
    Fail(AppError),
}

/// `r` is a redirect to `path`.
pub open spec fn redirects_to<T>(r: Result<T, &'static str>, path: Seq<char>) -> bool {
    r matches Err(p) && p@ == path
}

/// Checks the login form: the trimmed user name and the password must not
/// be empty.
pub fn check_login_form(username: String, password: String) -> (r: Result<
    UnauthenticatedUser,
    &'static str,
>)
    ensures
        trim(username@).len() == 0 || password@.len() == 0 ==> redirects_to(
            r,
            "/login?status=invalid-fields"@,
        ),
        !(trim(username@).len() == 0 || password@.len() == 0) ==> (r matches Ok(u)
            && u.username_view() == trim(username@) && u.password_view() == password@),
{
    let username = trim_str(username.as_str());
    if username.as_str().unicode_len() == 0 || password.as_str().unicode_len() == 0 {
        return Err("/login?status=invalid-fields");
    }
    Ok(UnauthenticatedUser::new(username, password))
}

/// What follows a login attempt: unknown users and wrong passwords are sent
/// back to the login page; other failures are errors.
pub fn login_outcome(result: Result<User, AppError>) -> (r: SignInStep)
    ensures
        result matches Ok(u) ==> (r matches SignInStep::SignIn(v, target) && v == u && target@
            == "/"@),
        result matches Err(e) ==> ((e is UserDoesNotExist || e is InvalidCredentials) ==> (
        r matches SignInStep::Redirect(p) && p@ == "/login?status=invalid-credentials"@)),
        result matches Err(e) ==> (!(e is UserDoesNotExist || e is InvalidCredentials) ==> r
            == SignInStep::Fail(e)),
{
    match result {
        Ok(user) => SignInStep::SignIn(user, "/"),
        Err(AppError::UserDoesNotExist) | Err(AppError::InvalidCredentials) => {
            SignInStep::Redirect("/login?status=invalid-credentials")
        },
        Err(e) => SignInStep::Fail(e),
    }
}

/// What is wrong with a registration form, if anything: the trimmed user
/// name must have 3 to 40 characters, the password 8 to 128, and the
/// confirmation must equal the password; checked in that order.
pub open spec fn registration_form_problem(
    username: Seq<char>,
    password: Seq<char>,
    confirmation: Seq<char>,
) -> Option<Seq<char>> {
    if !(3 <= trim(username).len() <= 40) {
        Some("/register?status=invalid-username"@)
    } else if !(8 <= password.len() <= 128) {
        Some("/register?status=invalid-password"@)
    } else if password != confirmation {
        Some("/register?status=password-mismatch"@)
    } else {
        None
    }
}

/// Checks the registration form and, when it is acceptable, prepares the
/// user to store: trimmed name and a hash that verifies against the
/// password.
pub fn check_registration_form(username: String, password: String, confirmation: String) -> (r:
    Result<NewUser, &'static str>)
    ensures
        registration_form_problem(username@, password@, confirmation@) matches Some(path)
            ==> redirects_to(r, path),
        registration_form_problem(username@, password@, confirmation@) is None ==> (r matches Ok(
            n,
        ) && n.username@ == trim(username@) && password_check(password@, n.password_hash@)
            == PasswordCheck::Valid && is_argon2id_phc(n.password_hash@)),
{
    let username = trim_str(username.as_str());
    let username_length: usize = username.as_str().unicode_len();
    let password_length: usize = password.as_str().unicode_len();
    if !(3 <= username_length && username_length <= 40) {
        return Err("/register?status=invalid-username");
    }
    if !(8 <= password_length && password_length <= 128) {
        return Err("/register?status=invalid-password");
    }
    if password != confirmation {
        return Err("/register?status=password-mismatch");
    }
    proof {
        lemma_byte_len_bound(password@);
    }
    let candidate = UnauthenticatedUser::new(username, password);
    Ok(candidate.register())
}

/// What follows storing a new user: sign in, send back to the registration
/// page when the name is taken, or fail.
pub fn registration_step(result: Result<User, AppError>) -> (r: SignInStep)
    ensures
        result matches Ok(u) ==> (r matches SignInStep::SignIn(v, target) && v == u && target@
            == "/?status=registered"@),
        result matches Err(e) ==> (e is UsernameTaken ==> (r matches SignInStep::Redirect(p)
            && p@ == "/register?status=username-taken"@)),
        result matches Err(e) ==> (!(e is UsernameTaken) ==> r == SignInStep::Fail(e)),
{
    match result {
        Ok(user) => SignInStep::SignIn(user, "/?status=registered"),
        Err(AppError::UsernameTaken) => SignInStep::Redirect("/register?status=username-taken"),
        Err(e) => SignInStep::Fail(e),
    }
}

/// The asset creation form. Numbers are bit patterns of binary64 values.
pub struct CreateAssetForm {
    pub name: String,
    pub unit_value: u64,
    pub quantity: u64,
}

/// What is wrong with the asset fields of a form, if anything: an empty
/// trimmed name, then a unit value at most zero, then a quantity at most
/// zero. (A NaN is not at most zero and passes, as the comparison does.)
pub open spec fn asset_form_problem(name: Seq<char>, unit_value: u64, quantity: u64) -> Option<
    Seq<char>,
> {
    if trim(name).len() == 0 {
        Some("/?status=empty-name"@)
    } else if is_at_most_zero(unit_value) {
        Some("/?status=invalid-value"@)
    } else if is_at_most_zero(quantity) {
        Some("/?status=invalid-quantity"@)
    } else {
        None
    }
}

/// Checks the asset fields of a form.
fn check_asset_fields(name: String, unit_value: u64, quantity: u64) -> (r: Result<
    NewAsset,
    &'static str,
>)
    ensures
        asset_form_problem(name@, unit_value, quantity) matches Some(path) ==> redirects_to(
            r,
            path,
        ),
        asset_form_problem(name@, unit_value, quantity) is None ==> (r matches Ok(a) && a.name@
            == trim(name@) && a.unit_value == unit_value && a.quantity == quantity),
{
    let name = trim_str(name.as_str());
    if name.as_str().unicode_len() == 0 {
        return Err("/?status=empty-name");
    }
    if at_most_zero(unit_value) {
        return Err("/?status=invalid-value");
    }
    if at_most_zero(quantity) {
        return Err("/?status=invalid-quantity");
    }
    Ok(NewAsset { name, unit_value, quantity })
}

/// Checks the asset creation form of a visitor: anonymous visitors go to the
/// login page, then the fields are checked.
pub fn check_create_asset_form(user: Option<User>, form: CreateAssetForm) -> (r: Result<
    (User, NewAsset),
    &'static str,
>)
    ensures
        user is None ==> redirects_to(r, "/login"@),
        user is Some ==> (asset_form_problem(form.name@, form.unit_value, form.quantity) matches Some(
            path,
        ) ==> redirects_to(r, path)),
        user matches Some(u) ==> (asset_form_problem(form.name@, form.unit_value, form.quantity)
            is None ==> (r matches Ok((v, a)) && v == u && a.name@ == trim(form.name@)
            && a.unit_value == form.unit_value && a.quantity == form.quantity)),
{
    let user = match user {
        Some(u) => u,
        None => {
            return Err("/login");
        },
    };
    match check_asset_fields(form.name, form.unit_value, form.quantity) {
        Ok(asset) => Ok((user, asset)),
        Err(path) => Err(path),
    }
}

/// Where a form goes when the owner already has an asset by that name.
pub fn duplicate_name_redirect(name_exists: bool) -> (r: Option<&'static str>)
    ensures
        name_exists ==> (r matches Some(p) && p@ == "/?status=duplicate"@),
        !name_exists ==> r is None,
{
    if name_exists {
        Some("/?status=duplicate")
    } else {
        None
    }
}

/// The page shown after an asset was created.
pub fn created_redirect() -> (r: &'static str)
    ensures
        r@ == "/?status=created"@,
{
    "/?status=created"
}

/// The asset update form; every field is required.
pub struct UpdateAssetForm {
    pub id: i64,
    pub name: String,
    pub unit_value: u64,
    pub quantity: u64,
}

/// Checks the asset update form of a visitor: anonymous visitors go to the
/// login page, a non-positive identifier is invalid, then the fields are
/// checked. The accepted changes set every field.
pub fn check_update_asset_form(user: Option<User>, form: UpdateAssetForm) -> (r: Result<
    (User, AssetChanges),
    &'static str,
>)
    ensures
        user is None ==> redirects_to(r, "/login"@),
        user is Some && form.id <= 0 ==> redirects_to(r, "/?status=invalid"@),
        user is Some && form.id > 0 ==> (asset_form_problem(
            form.name@,
            form.unit_value,
            form.quantity,
        ) matches Some(path) ==> redirects_to(r, path)),
        user matches Some(u) ==> (form.id > 0 && asset_form_problem(
            form.name@,
            form.unit_value,
            form.quantity,
        ) is None ==> (r matches Ok((v, c)) && v == u && c.id == form.id && c.name is Some
            && c.name.unwrap()@ == trim(form.name@) && c.unit_value == Some(form.unit_value) && c.quantity
            == Some(form.quantity))),
{
    let user = match user {
        Some(u) => u,
        None => {
            return Err("/login");
        },
    };
    if form.id <= 0 {
        return Err("/?status=invalid");
    }
    match check_asset_fields(form.name, form.unit_value, form.quantity) {
        Ok(asset) => Ok(
            (
                user,
                AssetChanges {
                    id: form.id,
                    name: Some(asset.name),
                    unit_value: Some(asset.unit_value),
                    quantity: Some(asset.quantity),
                },
            ),
        ),
        Err(path) => Err(path),
    }
}

/// The page shown after an update: updated, or not found when the owner has
/// no asset with that identifier.
pub fn update_form_redirect(updated: bool) -> (r: &'static str)
    ensures
        updated ==> r@ == "/?status=updated"@,
        !updated ==> r@ == "/?status=not-found"@,
{
    if updated {
        "/?status=updated"
    } else {
        "/?status=not-found"
    }
}

/// Checks the asset deletion form of a visitor: anonymous visitors go to the
/// login page and a non-positive identifier is invalid.
pub fn check_delete_asset_form(user: Option<User>, id: i64) -> (r: Result<(User, i64), &'static str>)
    ensures
        user is None ==> redirects_to(r, "/login"@),
        user is Some && id <= 0 ==> redirects_to(r, "/?status=invalid"@),
        user matches Some(u) ==> (id > 0 ==> r == Ok::<(User, i64), &'static str>((u, id))),
{
    let user = match user {
        Some(u) => u,
        None => {
            return Err("/login");
        },
    };
    if id <= 0 {
        return Err("/?status=invalid");
    }
    Ok((user, id))
}

/// The page shown after a deletion: deleted, or not found when the owner has
/// no asset with that identifier.
pub fn delete_form_redirect(deleted: bool) -> (r: &'static str)
    ensures
        deleted ==> r@ == "/?status=deleted"@,
        !deleted ==> r@ == "/?status=not-found"@,
{
    if deleted {
        "/?status=deleted"
    } else {
        "/?status=not-found"
    }
}

/// The pages are never stricter than the API: asset fields that the API
/// accepts also pass the form checks.
pub proof fn lemma_api_accepted_asset_passes_form(name: Seq<char>, unit_value: u64, quantity: u64)
    requires
        create_request_error(name, unit_value, quantity) is None,
    ensures
        asset_form_problem(name, unit_value, quantity) is None,
{
    lemma_finite_positive_is_not_at_most_zero(unit_value);
    lemma_finite_positive_is_not_at_most_zero(quantity);
}

/// A registration form passes only when the confirmation equals the
/// password character for character.
pub proof fn lemma_registration_needs_exact_confirmation(
    username: Seq<char>,
    password: Seq<char>,
    confirmation: Seq<char>,
)
    ensures
        registration_form_problem(username, password, confirmation) is None ==> password
            == confirmation,
{
}

/// A registration form with a trimmed user name of 3 to 40 characters, a
/// password of 8 to 128 characters and an identical confirmation is
/// accepted; once the lengths are right, a confirmation that differs in any
/// way is answered with the mismatch page.
pub proof fn lemma_registration_form_decided_by_lengths_and_equality(
    username: Seq<char>,
    password: Seq<char>,
    confirmation: Seq<char>,
)
    requires
        3 <= trim(username).len() <= 40,
        8 <= password.len() <= 128,
    ensures
        password == confirmation ==> registration_form_problem(username, password, confirmation)
            is None,
        password != confirmation ==> registration_form_problem(username, password, confirmation)
            == Some("/register?status=password-mismatch"@),
{
}

} // verus!
