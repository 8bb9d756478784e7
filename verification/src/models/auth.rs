use vstd::prelude::*;

verus! {

/// The credentials of a user.
#[derive(Debug, Clone)]
pub struct Model {
    pub id: String,
    pub password: Option<String>,
    pub request_password_token: Option<String>,
    pub request_password_expiration: Option<i64>,
    pub retries: i32,
    pub first_access: bool,
    pub active: bool,
    pub is_deleted: Option<bool>,
    pub deleted_at: Option<i64>,
    pub created_at: i64,
    pub updated_at: i64,
}

} // verus!
