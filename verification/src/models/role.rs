use vstd::prelude::*;

verus! {

/// A role (access profile).
#[derive(Debug, Clone)]
pub struct Model {
    pub id: String,
    pub name: String,
    pub description: String,
    pub active: bool,
    pub created_at: i64,
    pub updated_at: i64,
    pub is_deleted: Option<bool>,
    pub deleted_at: Option<i64>,
}

} // verus!
