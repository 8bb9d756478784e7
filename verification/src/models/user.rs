use vstd::prelude::*;

verus! {

/// A user of the system.
#[derive(Debug, Clone)]
pub struct Model {
    pub id: String,
    pub name: String,
    pub phone: Option<String>,
    pub email: String,
    pub cognito_id: Option<String>,
    pub active: bool,
    pub created_at: i64,
    pub updated_at: i64,
    pub document: Option<String>,
    pub is_deleted: Option<bool>,
    pub deleted_at: Option<i64>,
    pub avatar: Option<String>,
    pub id_auth: Option<String>,
    pub id_role: String,
}

} // verus!
