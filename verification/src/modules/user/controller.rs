use vstd::prelude::*;

use crate::text::names_view;

verus! {

/// The new active status of a record.
#[derive(Debug, Clone, Copy)]
pub struct ToggleStatusRequest {
    pub active: bool,
}

/// The fields that a global search over users may cover.
pub fn search_fields() -> (r: Vec<&'static str>)
    ensures
        names_view(r@) == seq!["name"@, "email"@, "Role.name"@],
{
    let mut r: Vec<&'static str> = Vec::new();
    r.push("name");
    r.push("email");
    r.push("Role.name");
    assert(names_view(r@) =~= seq!["name"@, "email"@, "Role.name"@]);
    r
}

/// The fields that a listing of users may filter and order by.
pub fn filter_fields() -> (r: Vec<&'static str>)
    ensures
        names_view(r@) == seq!["name"@, "email"@, "active"@, "createdAt"@, "updatedAt"@, "Role.name"@],
{
    let mut r: Vec<&'static str> = Vec::new();
    r.push("name");
    r.push("email");
    r.push("active");
    r.push("createdAt");
    r.push("updatedAt");
    r.push("Role.name");
    assert(names_view(r@) =~= seq!["name"@, "email"@, "active"@, "createdAt"@, "updatedAt"@, "Role.name"@]);
    r
}

} // verus!
