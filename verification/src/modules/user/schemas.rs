use vstd::prelude::*;

verus! {

/// A user to create, with the password of its credentials.
#[derive(Debug, Clone)]
pub struct CreateUserRequest {
    pub name: String,
    pub email: String,
    pub password: String,
    pub id_role: String,
    pub phone: Option<String>,
    pub document: Option<String>,
}

/// New details of a user, and its active status where it is to change.
#[derive(Debug, Clone)]
pub struct UpdateUserRequest {
    pub name: String,
    pub email: String,
    pub id_role: String,
    pub phone: Option<String>,
    pub document: Option<String>,
    pub active: Option<bool>,
}

/// A user as the API shows it.
#[derive(Debug, Clone)]
pub struct UserResponse {
    pub id: String,
    pub name: String,
    pub email: String,
    pub phone: Option<String>,
    pub document: Option<String>,
    pub active: bool,
    pub id_role: String,
    pub created_at: String,
    pub updated_at: String,
}

/// One page of users.
#[derive(Debug, Clone)]
pub struct PaginatedUserResponse {
    pub items: Vec<UserResponse>,
    pub total: u64,
    pub page: u64,
    pub size: u64,
}

} // verus!
