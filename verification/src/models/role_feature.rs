use vstd::prelude::*;

verus! {

/// What a role may do with a feature.
#[derive(Debug, Clone)]
pub struct Model {
    pub id_role: String,
    pub id_feature: String,
    pub create: bool,
    pub view: bool,
    pub activate: bool,
    pub delete: bool,
}

} // verus!
