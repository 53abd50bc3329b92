//! Authorization of the administrator by a shared secret.
use vstd::prelude::*;
use crate::auth::secret::{admin_secret, secret_accepted};
use crate::error::AppError;
use crate::text::{chars_of, string_from_chars};

verus! {

/// Proof that a request was made by the administrator.
pub struct Admin;

/// The `Authorization` header of a request, as far as the decision needs it.
pub enum AuthorizationHeader {
    /// The request has no `Authorization` header.
    Missing,
    /// The header holds bytes other than visible ASCII.
    Unreadable,
    /// The header's text.
    Text(String),
}

/// The scheme prefix that may precede the secret.
pub open spec fn bearer_prefix() -> Seq<char> {
    seq!['B', 'e', 'a', 'r', 'e', 'r', ' ']
}

/// The secret a header text presents: the text after a leading `"Bearer "`,
/// or the whole text when it has no such prefix.
pub open spec fn presented_secret(text: Seq<char>) -> Seq<char> {
    if text.len() >= bearer_prefix().len() && text.take(bearer_prefix().len() as int)
        == bearer_prefix() {
        text.skip(bearer_prefix().len() as int)
    } else {
        text
    }
}

/// Removes one leading `"Bearer "`, if present.
pub fn strip_bearer(text: &str) -> (r: String)
    ensures
        r@ == presented_secret(text@),
{
    let v = chars_of(text);
    let n: usize = v.len();
    if n >= 7 && v[0] == 'B' && v[1] == 'e' && v[2] == 'a' && v[3] == 'r' && v[4] == 'e' && v[5]
        == 'r' && v[6] == ' ' {
        assert(v@.take(7) =~= bearer_prefix());
        let r = string_from_chars(&v, 7, n);
        assert(r@ =~= text@.skip(7));
        r
    } else {
        assert(n >= 7 ==> v@.take(7) != bearer_prefix()) by {
            if n >= 7 && v@.take(7) == bearer_prefix() {
                assert(v@.take(7)[0] == 'B');
                assert(v@.take(7)[1] == 'e');
                assert(v@.take(7)[2] == 'a');
                assert(v@.take(7)[3] == 'r');
                assert(v@.take(7)[4] == 'e');
                assert(v@.take(7)[5] == 'r');
                assert(v@.take(7)[6] == ' ');
            }
        }
        string_from_chars(&v, 0, n)
    }
}

/// The outcome of an administrator check, given the request's header and
/// the configured value of `ADMIN_SECRET`.
pub open spec fn admin_authorized(header: AuthorizationHeader, configured: Option<String>) -> bool {
    match header {
        AuthorizationHeader::Text(text) => secret_accepted(configured) && presented_secret(text@)
            == configured.unwrap()@,
        _ => false,
    }
}

impl Admin {
    /// Admits the request when its header presents exactly the configured
    /// administrator secret (with or without the `Bearer ` scheme).
    ///
    /// A missing header is reported first, then an unreadable one, then a
    /// missing or too short configured secret, then a wrong secret.
    pub fn authorize(header: AuthorizationHeader, configured: Option<String>) -> (r: Result<
        Admin,
        AppError,
    >)
        ensures
            r is Ok <==> admin_authorized(header, configured),
            header is Missing ==> r matches Err(AppError::MissingAuthorization),
            header is Unreadable ==> r matches Err(AppError::InvalidCredentials),
            header is Text && !secret_accepted(configured) ==> (r matches Err(
                AppError::Configuration(name),
            ) && name@ == "ADMIN_SECRET"@),
            header is Text && secret_accepted(configured) && !admin_authorized(header, configured)
                ==> r matches Err(AppError::InvalidCredentials),
    {
        match header {
            AuthorizationHeader::Missing => Err(AppError::MissingAuthorization),
            AuthorizationHeader::Unreadable => Err(AppError::InvalidCredentials),
            AuthorizationHeader::Text(text) => {
                let provided = strip_bearer(text.as_str());
                let expected = match admin_secret(configured) {
                    Ok(s) => s,
                    Err(e) => {
                        return Err(e);
                    },
                };
                if provided == expected {
                    Ok(Admin)
                } else {
                    Err(AppError::InvalidCredentials)
                }
            },
        }
    }
}

/// The `Bearer ` scheme is optional: a header presenting a secret after the
/// scheme is judged exactly as one presenting the same secret bare (for
/// secrets that do not themselves begin with `Bearer `).
pub proof fn lemma_bearer_scheme_optional(bare: String, prefixed: String, configured: Option<String>)
    requires
        prefixed@ == bearer_prefix() + bare@,
        !(bare@.len() >= bearer_prefix().len() && bare@.take(bearer_prefix().len() as int)
            == bearer_prefix()),
    ensures
        admin_authorized(AuthorizationHeader::Text(prefixed), configured) == admin_authorized(
            AuthorizationHeader::Text(bare),
            configured,
        ),
{
    assert(prefixed@.take(7) =~= bearer_prefix());
    assert(prefixed@.skip(7) =~= bare@);
}

/// A header presenting the configured secret, bare or after `Bearer `, is
/// admitted whenever that secret has at least 32 bytes (UTF-8), whatever its
/// length beyond that.
pub proof fn lemma_configured_secret_admits(secret: String, header: String)
    requires
        vstd::utf8::encode_utf8(secret@).len() >= 32,
        header@ == secret@ || header@ == bearer_prefix() + secret@,
        !(secret@.len() >= 7 && secret@.take(7) == bearer_prefix()),
    ensures
        admin_authorized(AuthorizationHeader::Text(header), Some(secret)),
{
    if header@ == bearer_prefix() + secret@ {
        assert(header@.take(7) =~= bearer_prefix());
        assert(header@.skip(7) =~= secret@);
    }
}

} // verus!
