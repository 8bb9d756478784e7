use vstd::prelude::*;

use crate::errors::{AppError, ErrorKind};
use crate::models::{auth, role, role_feature, user};
use crate::modules::auth::schemas::{
    AuthResponse, PermissionInfo, RoleInfo, SimpleStatusResponse, UserInfo, UserMeResponse,
};
use crate::infra::sessions::{are_issued_sessions, issued_sessions};
use crate::text::concat2;

verus! {

broadcast use vstd::string::group_string_axioms;

/// Logs users in and out and renews their tokens.
pub struct AuthModuleService;

pub open spec fn unauthorized(m: Seq<char>) -> (ErrorKind, Seq<char>) {
    (ErrorKind::Unauthorized, m)
}

pub open spec fn forbidden(m: Seq<char>) -> (ErrorKind, Seq<char>) {
    (ErrorKind::Forbidden, m)
}

pub open spec fn not_found(m: Seq<char>) -> (ErrorKind, Seq<char>) {
    (ErrorKind::NotFound, m)
}

/// What bcrypt's `verify` answers for a password and a stored hash: whether
/// they match, or the text of the error where the hash cannot be read.
pub uninterp spec fn bcrypt_verify(password: Seq<char>, hash: Seq<char>) -> Result<bool, Seq<char>>;

/// Calls `bcrypt::verify(password, hash)`, which hashes the password with
/// the cost and salt written in the stored hash and compares the results;
/// an error is given as its text. The answer is named `bcrypt_verify`.
#[verifier::external_body]
fn verify_password(password: &str, hash: &str) -> (r: Result<bool, String>)
    ensures
        verification_view(r) == bcrypt_verify(password@, hash@),
{
    match bcrypt::verify(password, hash) {
        Ok(b) => Ok(b),
        Err(e) => Err(e.to_string()),
    }
}

/// A password check's answer, its error taken as text.
pub open spec fn verification_view(r: Result<bool, String>) -> Result<bool, Seq<char>> {
    match r {
        Ok(b) => Ok(b),
        Err(e) => Err(e@),
    }
}

/// The stored password hash of the credentials, empty where there is none.
pub open spec fn hash_of(a: Option<auth::Model>) -> Seq<char> {
    match a {
        Some(m) => match m.password {
            Some(h) => h@,
            None => Seq::empty(),
        },
        None => Seq::empty(),
    }
}

/// Why a login is refused, given what the password check answered: the
/// checks before the password first, then a failed check (a server error),
/// then a password that does not match.
pub open spec fn login_refusal_after(
    u: Option<user::Model>,
    r: Option<role::Model>,
    a: Option<auth::Model>,
    verification: Result<bool, Seq<char>>,
) -> Option<(ErrorKind, Seq<char>)> {
    if login_refusal(u, r, a, true) is Some {
        login_refusal(u, r, a, true)
    } else {
        match verification {
            Err(e) => Some((ErrorKind::Internal, "Erro de criptografia: "@ + e)),
            Ok(b) => login_refusal(u, r, a, b),
        }
    }
}

/// The answer to a login: the tokens, the user with its role and one
/// permission per permission record of the role, in order.
pub open spec fn is_login_response(
    res: AuthResponse,
    u: user::Model,
    r: role::Model,
    records: Seq<role_feature::Model>,
    token: String,
    refresh_token: String,
) -> bool {
    &&& res.token == token
    &&& res.refresh_token == refresh_token
    &&& res.user.id == u.id
    &&& res.user.name == u.name
    &&& res.user.email == u.email
    &&& res.user.role.id == r.id
    &&& res.user.role.name == r.name
    &&& res.user.role.permissions@.len() == records.len()
    &&& forall|i: int|
        0 <= i < records.len() ==> #[trigger] res.user.role.permissions@[i] == permission_of(records[i])
}

/// What a login gives: the refusal where there is one, with no session to
/// open; else the answer and the access and refresh sessions of the user.
pub open spec fn login_outcome(
    res: Result<(AuthResponse, Vec<(String, i64)>), AppError>,
    u: Option<user::Model>,
    r: Option<role::Model>,
    a: Option<auth::Model>,
    verification: Result<bool, Seq<char>>,
    records: Seq<role_feature::Model>,
    token: String,
    refresh_token: String,
    access_ttl: i64,
) -> bool {
    match login_refusal_after(u, r, a, verification) {
        Some(e) => res matches Err(x) && x@ == e,
        None => res matches Ok((resp, sessions)) && is_login_response(
            resp,
            u->Some_0,
            r->Some_0,
            records,
            token,
            refresh_token,
        ) && are_issued_sessions(sessions@, u->Some_0.id@, token@, refresh_token@, access_ttl),
    }
}

/// Why a login is refused, in the order the checks are made: the user (found
/// by e-mail, not deleted), the user's role, the link to credentials, the
/// credentials, the password.
pub open spec fn login_refusal(
    u: Option<user::Model>,
    r: Option<role::Model>,
    a: Option<auth::Model>,
    password_matches: bool,
) -> Option<(ErrorKind, Seq<char>)> {
    if u is None {
        Some(unauthorized("Credenciais inválidas"@))
    } else if !u->Some_0.active {
        Some(forbidden("Usuário inativo. Login não permitido."@))
    } else if r is None {
        Some(unauthorized("Perfil do usuário não encontrado"@))
    } else if !r->Some_0.active {
        Some(forbidden("Perfil de acesso inativo. Login não permitido."@))
    } else if u->Some_0.id_auth is None {
        Some(unauthorized("Credenciais não configuradas"@))
    } else if a is None {
        Some(unauthorized("Credenciais não encontradas"@))
    } else if !a->Some_0.active {
        Some(forbidden("Credenciais de acesso inativas."@))
    } else if !password_matches {
        Some(unauthorized("Credenciais inválidas"@))
    } else {
        None
    }
}

/// Why a token refresh is refused: the session of the refresh token, the
/// user, the user's role.
pub open spec fn refresh_refusal(
    session_valid: bool,
    u: Option<user::Model>,
    r: Option<role::Model>,
) -> Option<(ErrorKind, Seq<char>)> {
    if !session_valid {
        Some(unauthorized("Sessão revogada ou expirada"@))
    } else if u is None {
        Some(unauthorized("Usuário não encontrado"@))
    } else if !u->Some_0.active {
        Some(unauthorized("Conta de usuário inativa"@))
    } else if r is None {
        Some(unauthorized("Perfil não encontrado"@))
    } else if !r->Some_0.active {
        Some(unauthorized("Perfil inativo"@))
    } else {
        None
    }
}

pub open spec fn permission_of(m: role_feature::Model) -> PermissionInfo {
    PermissionInfo {
        feature: m.id_feature,
        create: m.create,
        view: m.view,
        activate: m.activate,
        delete: m.delete,
    }
}

impl AuthModuleService {
    /// Login, first step: the user must exist and be active.
    pub fn login_user(u: Option<user::Model>) -> (r: Result<user::Model, AppError>)
        ensures
            match u {
                None => r matches Err(e) && e@ == unauthorized("Credenciais inválidas"@),
                Some(m) => if m.active {
                    r == Ok::<user::Model, AppError>(m)
                } else {
                    r matches Err(e) && e@ == forbidden("Usuário inativo. Login não permitido."@)
                },
            },
    {
        match u {
            None => Err(AppError::with_text(ErrorKind::Unauthorized, "Credenciais inválidas")),
            Some(m) => if m.active {
                Ok(m)
            } else {
                Err(
                    AppError::with_text(ErrorKind::Forbidden, "Usuário inativo. Login não permitido."),
                )
            },
        }
    }

    /// Login, second step: the user's role must exist and be active.
    pub fn login_role(r: Option<role::Model>) -> (res: Result<role::Model, AppError>)
        ensures
            match r {
                None => res matches Err(e) && e@ == unauthorized("Perfil do usuário não encontrado"@),
                Some(m) => if m.active {
                    res == Ok::<role::Model, AppError>(m)
                } else {
                    res matches Err(e) && e@ == forbidden(
                        "Perfil de acesso inativo. Login não permitido."@,
                    )
                },
            },
    {
        match r {
            None => Err(
                AppError::with_text(ErrorKind::Unauthorized, "Perfil do usuário não encontrado"),
            ),
            Some(m) => if m.active {
                Ok(m)
            } else {
                Err(
                    AppError::with_text(
                        ErrorKind::Forbidden,
                        "Perfil de acesso inativo. Login não permitido.",
                    ),
                )
            },
        }
    }

    /// Login, third step: the user must be linked to credentials.
    pub fn credentials_id(u: &user::Model) -> (r: Result<String, AppError>)
        ensures
            match u.id_auth {
                None => r matches Err(e) && e@ == unauthorized("Credenciais não configuradas"@),
                Some(id) => r == Ok::<String, AppError>(id),
            },
    {
        match &u.id_auth {
            None => Err(AppError::with_text(ErrorKind::Unauthorized, "Credenciais não configuradas")),
            Some(id) => Ok(id.clone()),
        }
    }

    /// Login, fourth step: the credentials must exist and be active.
    pub fn login_credentials(a: Option<auth::Model>) -> (r: Result<auth::Model, AppError>)
        ensures
            match a {
                None => r matches Err(e) && e@ == unauthorized("Credenciais não encontradas"@),
                Some(m) => if m.active {
                    r == Ok::<auth::Model, AppError>(m)
                } else {
                    r matches Err(e) && e@ == forbidden("Credenciais de acesso inativas."@)
                },
            },
    {
        match a {
            None => Err(AppError::with_text(ErrorKind::Unauthorized, "Credenciais não encontradas")),
            Some(m) => if m.active {
                Ok(m)
            } else {
                Err(AppError::with_text(ErrorKind::Forbidden, "Credenciais de acesso inativas."))
            },
        }
    }

    /// The stored password hash, empty where there is none.
    pub fn stored_hash(a: &auth::Model) -> (r: String)
        ensures
            match a.password {
                Some(h) => r@ == h@,
                None => r@ == Seq::<char>::empty(),
            },
    {
        match &a.password {
            Some(h) => h.clone(),
            None => String::new(),
        }
    }

    /// Login, last step: the password must match the stored hash.
    pub fn check_password(matches: bool) -> (r: Result<(), AppError>)
        ensures
            matches ==> r is Ok,
            !matches ==> (r matches Err(e) && e@ == unauthorized("Credenciais inválidas"@)),
    {
        if !matches {
            return Err(AppError::with_text(ErrorKind::Unauthorized, "Credenciais inválidas"));
        }
        Ok(())
    }

    /// All the checks of a login on what was looked up, in order.
    pub fn login_checks(
        u: &Option<user::Model>,
        r: &Option<role::Model>,
        a: &Option<auth::Model>,
        password_matches: bool,
    ) -> (res: Result<(), AppError>)
        ensures
            match login_refusal(*u, *r, *a, password_matches) {
                Some(e) => res matches Err(x) && x@ == e,
                None => res is Ok,
            },
    {
        let um = match u {
            None => {
                return Err(AppError::with_text(ErrorKind::Unauthorized, "Credenciais inválidas"));
            },
            Some(m) => m,
        };
        if !um.active {
            return Err(
                AppError::with_text(ErrorKind::Forbidden, "Usuário inativo. Login não permitido."),
            );
        }
        match r {
            None => {
                return Err(
                    AppError::with_text(ErrorKind::Unauthorized, "Perfil do usuário não encontrado"),
                );
            },
            Some(m) => if !m.active {
                return Err(
                    AppError::with_text(
                        ErrorKind::Forbidden,
                        "Perfil de acesso inativo. Login não permitido.",
                    ),
                );
            },
        }
        let _id = Self::credentials_id(um)?;
        match a {
            None => {
                return Err(
                    AppError::with_text(ErrorKind::Unauthorized, "Credenciais não encontradas"),
                );
            },
            Some(m) => if !m.active {
                return Err(
                    AppError::with_text(ErrorKind::Forbidden, "Credenciais de acesso inativas."),
                );
            },
        }
        Self::check_password(password_matches)
    }

    /// The permissions of a role from its permission records, in order.
    pub fn permissions_of(records: &Vec<role_feature::Model>) -> (r: Vec<PermissionInfo>)
        ensures
            r@.len() == records@.len(),
            forall|i: int| 0 <= i < r@.len() ==> #[trigger] r@[i] == permission_of(records@[i]),
    {
        let mut out: Vec<PermissionInfo> = Vec::new();
        for i in 0..records.len()
            invariant
                out@.len() == i,
                forall|j: int| 0 <= j < i ==> #[trigger] out@[j] == permission_of(records@[j]),
        {
            let m = &records[i];
            out.push(
                PermissionInfo {
                    feature: m.id_feature.clone(),
                    create: m.create,
                    view: m.view,
                    activate: m.activate,
                    delete: m.delete,
                },
            );
        }
        out
    }

    /// A user with its role and the role's permissions.
    pub fn user_info(u: &user::Model, r: &role::Model, permissions: Vec<PermissionInfo>) -> (res:
        UserInfo)
        ensures
            res.id == u.id,
            res.name == u.name,
            res.email == u.email,
            res.role.id == r.id,
            res.role.name == r.name,
            res.role.permissions == permissions,
    {
        UserInfo {
            id: u.id.clone(),
            name: u.name.clone(),
            email: u.email.clone(),
            role: RoleInfo { id: r.id.clone(), name: r.name.clone(), permissions },
        }
    }

    /// The session entry of an access token.
    pub fn access_session(token: &str) -> (r: String)
        ensures
            r@ == "access:"@ + token@,
    {
        concat2("access:", token)
    }

    /// The session entry of a refresh token.
    pub fn refresh_session(token: &str) -> (r: String)
        ensures
            r@ == "refresh:"@ + token@,
    {
        concat2("refresh:", token)
    }

    /// How long a refresh token lives: seven days, in seconds.
    pub fn refresh_ttl_seconds() -> (r: i64)
        ensures
            r == 7 * 24 * 60 * 60,
    {
        7 * 24 * 60 * 60
    }

    /// All the checks of a token refresh on what was looked up, in order.
    pub fn refresh_checks(
        session_valid: bool,
        u: &Option<user::Model>,
        r: &Option<role::Model>,
    ) -> (res: Result<(), AppError>)
        ensures
            match refresh_refusal(session_valid, *u, *r) {
                Some(e) => res matches Err(x) && x@ == e,
                None => res is Ok,
            },
    {
        if !session_valid {
            return Err(AppError::with_text(ErrorKind::Unauthorized, "Sessão revogada ou expirada"));
        }
        match u {
            None => {
                return Err(AppError::with_text(ErrorKind::Unauthorized, "Usuário não encontrado"));
            },
            Some(m) => if !m.active {
                return Err(AppError::with_text(ErrorKind::Unauthorized, "Conta de usuário inativa"));
            },
        }
        match r {
            None => Err(AppError::with_text(ErrorKind::Unauthorized, "Perfil não encontrado")),
            Some(m) => if !m.active {
                Err(AppError::with_text(ErrorKind::Unauthorized, "Perfil inativo"))
            } else {
                Ok(())
            },
        }
    }

    /// The checks of the current-user query: the user and its role must
    /// exist.
    pub fn me_checks(u: &Option<user::Model>, r: &Option<role::Model>) -> (res: Result<
        (),
        AppError,
    >)
        ensures
            u is None ==> (res matches Err(e) && e@ == not_found("Usuário não encontrado"@)),
            u is Some && r is None ==> (res matches Err(e) && e@ == not_found(
                "Perfil não encontrado"@,
            )),
            u is Some && r is Some ==> res is Ok,
    {
        if u.is_none() {
            return Err(AppError::with_text(ErrorKind::NotFound, "Usuário não encontrado"));
        }
        if r.is_none() {
            return Err(AppError::with_text(ErrorKind::NotFound, "Perfil não encontrado"));
        }
        Ok(())
    }

    /// The answer to a login or a refresh.
    pub fn auth_response(token: String, refresh_token: String, user: UserInfo) -> (r: AuthResponse)
        ensures
            r.token == token,
            r.refresh_token == refresh_token,
            r.user == user,
    {
        AuthResponse { token, refresh_token, user }
    }

    /// The answer to a login (or a refresh) that passed its checks: the
    /// tokens issued, and the user with its role and the role's
    /// permissions, one for each of the role's permission records, in
    /// order.
    pub fn login_response(
        u: &user::Model,
        r: &role::Model,
        records: &Vec<role_feature::Model>,
        token: String,
        refresh_token: String,
    ) -> (res: AuthResponse)
        ensures
            is_login_response(res, *u, *r, records@, token, refresh_token),
    {
        let permissions = Self::permissions_of(records);
        Self::auth_response(token, refresh_token, Self::user_info(u, r, permissions))
    }

    /// A login, given what was looked up for it (the user found by e-mail,
    /// its role, its credentials and the role's permission records), the
    /// password given, the tokens to issue and the access token's lifetime:
    /// the checks in order, the password checked against the stored hash,
    /// then the answer and the sessions to open. A refused login opens no
    /// session.
    pub fn login(
        u: &Option<user::Model>,
        r: &Option<role::Model>,
        a: &Option<auth::Model>,
        password: &str,
        records: &Vec<role_feature::Model>,
        token: String,
        refresh_token: String,
        access_ttl: i64,
    ) -> (res: Result<(AuthResponse, Vec<(String, i64)>), AppError>)
        ensures
            login_outcome(res, *u, *r, *a, bcrypt_verify(password@, hash_of(*a)), records@, token, refresh_token, access_ttl),
    {
        if let Err(e) = Self::login_checks(u, r, a, true) {
            return Err(e);
        }
        let hash = match a {
            Some(m) => Self::stored_hash(m),
            None => String::new(),
        };
        let verification = verify_password(password, hash.as_str());
        Self::login_verified(u, r, a, verification, records, token, refresh_token, access_ttl)
    }

    /// A login once the password was checked: `verification` is what the
    /// check answered (whether the password matches, or the text of its
    /// error).
    pub fn login_verified(
        u: &Option<user::Model>,
        r: &Option<role::Model>,
        a: &Option<auth::Model>,
        verification: Result<bool, String>,
        records: &Vec<role_feature::Model>,
        token: String,
        refresh_token: String,
        access_ttl: i64,
    ) -> (res: Result<(AuthResponse, Vec<(String, i64)>), AppError>)
        ensures
            login_outcome(
                res,
                *u,
                *r,
                *a,
                verification_view(verification),
                records@,
                token,
                refresh_token,
                access_ttl,
            ),
    {
        if let Err(e) = Self::login_checks(u, r, a, true) {
            return Err(e);
        }
        let matches = match verification {
            Ok(b) => b,
            Err(e) => {
                return Err(AppError::crypto(e.as_str()));
            },
        };
        if let Err(e) = Self::login_checks(u, r, a, matches) {
            return Err(e);
        }
        let (um, rm) = match (u, r) {
            (Some(um), Some(rm)) => (um, rm),
            _ => {
                return Err(AppError::with_text(ErrorKind::Unauthorized, "Credenciais inválidas"));
            },
        };
        let sessions = issued_sessions(um.id.as_str(), token.as_str(), refresh_token.as_str(), access_ttl);
        let resp = Self::login_response(um, rm, records, token, refresh_token);
        Ok((resp, sessions))
    }

    /// The answer to the current-user query.
    pub fn me_response(user: UserInfo) -> (r: UserMeResponse)
        ensures
            r.user == user,
    {
        UserMeResponse { user }
    }

    /// The answer to a logout.
    pub fn logout_response() -> (r: SimpleStatusResponse)
        ensures
            r.status,
    {
        SimpleStatusResponse { status: true }
    }
}

/// A login succeeds only for an active user of an active role, with active
/// credentials and the right password.
pub proof fn lemma_login_needs_everything_active(
    u: Option<user::Model>,
    r: Option<role::Model>,
    a: Option<auth::Model>,
    password_matches: bool,
)
    ensures
        login_refusal(u, r, a, password_matches) is None <==> (u is Some && u->Some_0.active
            && u->Some_0.id_auth is Some && r is Some && r->Some_0.active && a is Some
            && a->Some_0.active && password_matches),
{
}

/// A refused login does not tell an unknown e-mail from a wrong password:
/// both are answered with the same unauthorized error (and neither opens a
/// session).
pub proof fn lemma_login_hides_unknown_email(
    r: Option<role::Model>,
    a: Option<auth::Model>,
    verification: Result<bool, Seq<char>>,
    u2: user::Model,
    r2: role::Model,
    a2: auth::Model,
)
    requires
        u2.active,
        u2.id_auth is Some,
        r2.active,
        a2.active,
    ensures
        login_refusal_after(None, r, a, verification) == Some(unauthorized("Credenciais inválidas"@)),
        login_refusal_after(Some(u2), Some(r2), Some(a2), Ok(false)) == Some(
            unauthorized("Credenciais inválidas"@),
        ),
{
}

/// A refresh succeeds only with a live refresh session, for an active user
/// of an active role.
pub proof fn lemma_refresh_needs_everything_active(
    session_valid: bool,
    u: Option<user::Model>,
    r: Option<role::Model>,
)
    ensures
        refresh_refusal(session_valid, u, r) is None <==> (session_valid && u is Some
            && u->Some_0.active && r is Some && r->Some_0.active),
{
}

} // verus!
