use vstd::prelude::*;

use crate::text::names_view;

verus! {

/// The new active status of a record.
#[derive(Debug, Clone, Copy)]
pub struct ToggleStatusRequest {
    pub active: bool,
}

/// The fields that a global search over products may cover.
pub fn search_fields() -> (r: Vec<&'static str>)
    ensures
        names_view(r@) == seq!["name"@, "sku"@, "category"@],
{
    let mut r: Vec<&'static str> = Vec::new();
    r.push("name");
    r.push("sku");
    r.push("category");
    assert(names_view(r@) =~= seq!["name"@, "sku"@, "category"@]);
    r
}

/// The fields that a listing of products may filter and order by.
pub fn filter_fields() -> (r: Vec<&'static str>)
    ensures
        names_view(r@) == seq!["name"@, "sku"@, "category"@, "active"@, "createdAt"@, "updatedAt"@],
{
    let mut r: Vec<&'static str> = Vec::new();
    r.push("name");
    r.push("sku");
    r.push("category");
    r.push("active");
    r.push("createdAt");
    r.push("updatedAt");
    assert(names_view(r@) =~= seq!["name"@, "sku"@, "category"@, "active"@, "createdAt"@, "updatedAt"@]);
    r
}

} // verus!
