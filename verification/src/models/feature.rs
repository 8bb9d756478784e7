use vstd::prelude::*;

verus! {

/// A feature of the system that permissions refer to.
#[derive(Debug, Clone)]
pub struct Model {
    pub id: String,
    pub name: String,
    pub description: String,
    pub active: bool,
    pub created_at: i64,
    pub updated_at: i64,
}

} // verus!
