use vstd::prelude::*;

verus! {

/// The credentials of a login.
#[derive(Debug, Clone)]
pub struct LoginRequest {
    pub email: String,
    pub password: String,
}

/// A refresh token to exchange for new tokens.
#[derive(Debug, Clone)]
pub struct RefreshRequest {
    pub refresh_token: String,
}

/// What a role may do with a feature.
#[derive(Debug, Clone)]
pub struct PermissionInfo {
    pub feature: String,
    pub create: bool,
    pub view: bool,
    pub activate: bool,
    pub delete: bool,
}

/// A role with its permissions.
#[derive(Debug, Clone)]
pub struct RoleInfo {
    pub id: String,
    pub name: String,
    pub permissions: Vec<PermissionInfo>,
}

/// A user with the role it has.
#[derive(Debug, Clone)]
pub struct UserInfo {
    pub id: String,
    pub name: String,
    pub email: String,
    pub role: RoleInfo,
}

/// The tokens of a session and the user they belong to.
#[derive(Debug, Clone)]
pub struct AuthResponse {
    pub token: String,
    pub refresh_token: String,
    pub user: UserInfo,
}

/// The current user.
#[derive(Debug, Clone)]
pub struct UserMeResponse {
    pub user: UserInfo,
}

/// A bare acknowledgement.
#[derive(Debug, Clone)]
pub struct SimpleStatusResponse {
    pub status: bool,
}

} // verus!
