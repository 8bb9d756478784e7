use vstd::prelude::*;

use crate::errors::{AppError, ErrorKind};
use crate::middleware::auth::CurrentUser;
use crate::models::{role, role_feature, user};
use crate::text::{str_eq, concat3};

verus! {

broadcast use vstd::string::group_string_axioms;

/// The permission that a route asks of the current user: an action on a
/// feature.
#[derive(Debug, Clone)]
pub struct RequirePermission {
    pub feature: String,
    pub action: String,
}

/// A route that asks for a permission needs an authenticated user.
pub fn require_current_user(user: Option<CurrentUser>) -> (r: Result<CurrentUser, AppError>)
    ensures
        match user {
            Some(u) => r == Ok::<CurrentUser, AppError>(u),
            None => r matches Err(e) && e@ == (ErrorKind::Unauthorized, "Usuário não autenticado"@),
        },
{
    match user {
        Some(u) => Ok(u),
        None => Err(AppError::with_text(ErrorKind::Unauthorized, "Usuário não autenticado")),
    }
}

/// Whether a permission record allows an action; only `create`, `view`,
/// `activate` and `delete` are actions.
pub open spec fn permits(m: role_feature::Model, action: Seq<char>) -> bool {
    if action == "create"@ {
        m.create
    } else if action == "view"@ {
        m.view
    } else if action == "activate"@ {
        m.activate
    } else if action == "delete"@ {
        m.delete
    } else {
        false
    }
}

pub fn action_allowed(m: &role_feature::Model, action: &str) -> (r: bool)
    ensures
        r == permits(*m, action@),
{
    if str_eq(action, "create") {
        m.create
    } else if str_eq(action, "view") {
        m.view
    } else if str_eq(action, "activate") {
        m.activate
    } else if str_eq(action, "delete") {
        m.delete
    } else {
        false
    }
}

/// The refusal when the user is missing (or deleted) or inactive.
pub open spec fn user_refusal(user: Option<user::Model>) -> Option<(ErrorKind, Seq<char>)> {
    match user {
        None => Some((ErrorKind::Unauthorized, "Usuário não encontrado ou inativo"@)),
        Some(u) => if !u.active {
            Some((ErrorKind::Forbidden, "Usuário inativo no sistema"@))
        } else {
            None
        },
    }
}

/// The refusal when the user's role is missing (or deleted) or inactive.
pub open spec fn role_refusal(role: Option<role::Model>) -> Option<(ErrorKind, Seq<char>)> {
    match role {
        None => Some((ErrorKind::Unauthorized, "Perfil não encontrado ou inativo"@)),
        Some(r) => if !r.active {
            Some((ErrorKind::Forbidden, "Perfil de acesso inativo"@))
        } else {
            None
        },
    }
}

/// The refusal when the role's permission record does not allow the action.
pub open spec fn permission_refusal(
    mapping: Option<role_feature::Model>,
    feature: Seq<char>,
    action: Seq<char>,
) -> Option<(ErrorKind, Seq<char>)> {
    let allowed = match mapping {
        Some(m) => permits(m, action),
        None => false,
    };
    if allowed {
        None
    } else {
        Some(
            (
                ErrorKind::Forbidden,
                "Sem permissão para executar a ação '"@ + action + "' na funcionalidade '"@
                    + feature + "'"@,
            ),
        )
    }
}

/// The administrator role, whose users may do everything.
pub open spec fn is_admin_role_id(r: role::Model) -> bool {
    r.id@ == "administrator"@
}

/// The decision on an action on a feature, given the user (if found and not
/// deleted), the user's role (if found and not deleted) and the role's
/// permission record for the feature (if any).
pub open spec fn spec_authorize(
    user: Option<user::Model>,
    role: Option<role::Model>,
    mapping: Option<role_feature::Model>,
    feature: Seq<char>,
    action: Seq<char>,
) -> Result<(), (ErrorKind, Seq<char>)> {
    if user_refusal(user) is Some {
        Err(user_refusal(user)->Some_0)
    } else if role_refusal(role) is Some {
        Err(role_refusal(role)->Some_0)
    } else if is_admin_role_id(role->Some_0) {
        Ok(())
    } else if permission_refusal(mapping, feature, action) is Some {
        Err(permission_refusal(mapping, feature, action)->Some_0)
    } else {
        Ok(())
    }
}

pub open spec fn unit_outcome(r: Result<(), AppError>) -> Result<(), (ErrorKind, Seq<char>)> {
    match r {
        Ok(()) => Ok(()),
        Err(e) => Err(e@),
    }
}

/// First step: the user must exist and be active.
pub fn check_user(user: &Option<user::Model>) -> (r: Result<(), AppError>)
    ensures
        match user_refusal(*user) {
            Some(e) => r matches Err(a) && a@ == e,
            None => r is Ok,
        },
{
    match user {
        None => Err(AppError::with_text(ErrorKind::Unauthorized, "Usuário não encontrado ou inativo")),
        Some(u) => if !u.active {
            Err(AppError::with_text(ErrorKind::Forbidden, "Usuário inativo no sistema"))
        } else {
            Ok(())
        },
    }
}

/// Second step: the user's role must exist and be active.
pub fn check_role(role: &Option<role::Model>) -> (r: Result<(), AppError>)
    ensures
        match role_refusal(*role) {
            Some(e) => r matches Err(a) && a@ == e,
            None => r is Ok,
        },
{
    match role {
        None => Err(AppError::with_text(ErrorKind::Unauthorized, "Perfil não encontrado ou inativo")),
        Some(r) => if !r.active {
            Err(AppError::with_text(ErrorKind::Forbidden, "Perfil de acesso inativo"))
        } else {
            Ok(())
        },
    }
}

/// Whether the role is the administrator role (by its id).
pub fn is_admin_role(role: &role::Model) -> (r: bool)
    ensures
        r == is_admin_role_id(*role),
{
    str_eq(role.id.as_str(), "administrator")
}

/// Last step: the role's permission record must allow the action.
pub fn check_permission(mapping: &Option<role_feature::Model>, feature: &str, action: &str) -> (r:
    Result<(), AppError>)
    ensures
        match permission_refusal(*mapping, feature@, action@) {
            Some(e) => r matches Err(a) && a@ == e,
            None => r is Ok,
        },
{
    let allowed = match mapping {
        Some(m) => action_allowed(m, action),
        None => false,
    };
    if !allowed {
        let mut msg = concat3("Sem permissão para executar a ação '", action, "' na funcionalidade '");
        msg.append(feature);
        msg.append("'");
        return Err(AppError::Forbidden(msg));
    }
    Ok(())
}

/// Decides an action on a feature from the user, the user's role and the
/// role's permission record for the feature, in that order; the record is
/// not consulted for the administrator role.
pub fn authorize(
    user: &Option<user::Model>,
    role: &Option<role::Model>,
    mapping: &Option<role_feature::Model>,
    feature: &str,
    action: &str,
) -> (r: Result<(), AppError>)
    ensures
        unit_outcome(r) == spec_authorize(*user, *role, *mapping, feature@, action@),
{
    check_user(user)?;
    check_role(role)?;
    match role {
        Some(r) => if is_admin_role(r) {
            return Ok(());
        },
        None => {},
    }
    check_permission(mapping, feature, action)
}

/// Users of the administrator role may do everything.
pub proof fn lemma_administrator_may_do_anything(
    user: user::Model,
    role: role::Model,
    mapping: Option<role_feature::Model>,
    feature: Seq<char>,
    action: Seq<char>,
)
    requires
        user.active,
        role.active,
        role.id@ == "administrator"@,
    ensures
        spec_authorize(Some(user), Some(role), mapping, feature, action) is Ok,
{
}

/// Other users may do an action only where their role's record for the
/// feature grants it: never without a record, never an unknown action.
pub proof fn lemma_granted_only_by_record(
    user: Option<user::Model>,
    role: role::Model,
    mapping: Option<role_feature::Model>,
    feature: Seq<char>,
    action: Seq<char>,
)
    requires
        role.id@ != "administrator"@,
    ensures
        spec_authorize(user, Some(role), mapping, feature, action) is Ok <==> (user_refusal(user)
            is None && role.active && mapping is Some && permits(mapping->Some_0, action)),
{
}

} // verus!
