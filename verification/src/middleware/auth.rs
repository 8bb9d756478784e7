use vstd::prelude::*;

use crate::errors::{AppError, ErrorKind};
pub use crate::middleware::rbac::authorize;
use crate::text::{chars_of, concat2, copy_range, has_prefix, starts_with, string_of};

verus! {

broadcast use vstd::string::group_string_axioms;

/// The authenticated user of a request.
#[derive(Debug, Clone)]
pub struct CurrentUser {
    pub id: String,
    pub email: String,
    pub role: String,
}

/// The token of an `Authorization` header: the text after `Bearer `, or the
/// refusal of a missing header or one of another scheme.
pub open spec fn spec_bearer_token(header: Option<Seq<char>>) -> Result<
    Seq<char>,
    (ErrorKind, Seq<char>),
> {
    match header {
        None => Err((ErrorKind::Unauthorized, "Cabeçalho de autorização ausente"@)),
        Some(h) => if !has_prefix(h, "Bearer "@) {
            Err((ErrorKind::Unauthorized, "Token deve ser do tipo Bearer"@))
        } else {
            Ok(h.subrange(7, h.len() as int))
        },
    }
}

/// Reads the bearer token of an `Authorization` header (`None` where the
/// header is missing or not readable text).
pub fn bearer_token(header: Option<&str>) -> (r: Result<String, AppError>)
    ensures
        match spec_bearer_token(
            match header {
                Some(h) => Some(h@),
                None => None,
            },
        ) {
            Ok(t) => r matches Ok(s) && s@ == t,
            Err(e) => r matches Err(a) && a@ == e,
        },
{
    match header {
        None => Err(AppError::with_text(ErrorKind::Unauthorized, "Cabeçalho de autorização ausente")),
        Some(h) => {
            let cs = chars_of(h);
            if !starts_with(&cs, "Bearer ") {
                return Err(
                    AppError::with_text(ErrorKind::Unauthorized, "Token deve ser do tipo Bearer"),
                );
            }
            proof {
                reveal_strlit("Bearer ");
            }
            Ok(string_of(&copy_range(&cs, 7, cs.len())))
        },
    }
}

/// The session entry of an access token.
pub fn access_session_token(token: &str) -> (r: String)
    ensures
        r@ == "access:"@ + token@,
{
    concat2("access:", token)
}

/// A token whose session is gone (logged out or expired) is refused.
pub fn check_session(is_valid: bool) -> (r: Result<(), AppError>)
    ensures
        is_valid ==> r is Ok,
        !is_valid ==> (r matches Err(e) && e@ == (ErrorKind::Unauthorized,
            "Sessão revogada ou expirada"@)),
{
    if !is_valid {
        return Err(AppError::with_text(ErrorKind::Unauthorized, "Sessão revogada ou expirada"));
    }
    Ok(())
}

/// The user bound to a request from the claims of its token.
pub fn current_user(subject: String, email: String, role: String) -> (r: CurrentUser)
    ensures
        r.id == subject,
        r.email == email,
        r.role == role,
{
    CurrentUser { id: subject, email, role }
}

} // verus!
