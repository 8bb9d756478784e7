use vstd::prelude::*;

verus! {

/// What a role may do with a feature, as requests and responses carry it.
#[derive(Debug, Clone)]
pub struct PermissionRequest {
    pub feature: String,
    pub create: bool,
    pub view: bool,
    pub activate: bool,
    pub delete: bool,
}

/// A role to create, with its permissions.
#[derive(Debug, Clone)]
pub struct CreateRoleRequest {
    pub name: String,
    pub description: String,
    pub permissions: Vec<PermissionRequest>,
}

/// New name and description of a role, and its permissions where they are
/// to be replaced.
#[derive(Debug, Clone)]
pub struct UpdateRoleRequest {
    pub name: String,
    pub description: String,
    pub permissions: Option<Vec<PermissionRequest>>,
}

/// A role as the API shows it.
#[derive(Debug, Clone)]
pub struct RoleResponse {
    pub id: String,
    pub name: String,
    pub description: String,
    pub active: bool,
    pub role_feature: Vec<PermissionRequest>,
    pub created_at: String,
    pub updated_at: String,
    pub is_deleted: bool,
    pub deleted_at: Option<String>,
}

/// A feature as the API shows it.
#[derive(Debug, Clone)]
pub struct FeatureResponse {
    pub id: String,
    pub name: String,
}

} // verus!
