use vstd::prelude::*;

use crate::errors::{AppError, ErrorKind};
use crate::ids::{ascii_prefix, lemma_uuid_ascii, new_uuid_text, uuid_text_shape};
use crate::models::{role, role_feature};
use crate::listing::{
    conditions_view, filter_conditions, format_rfc3339, lemma_order_default,
    lemma_order_first_match, lemma_params_distinct, lemma_plan_keeps_filter, lemma_plan_search, param_of, listing_plan, page_of,
    rfc3339_utc, spec_listing_plan, time_in_range, Column, Condition, ConditionView, FilterDef,
    FilterKind, ListingPlan, OrderDef, PlanView,
};
use crate::modules::role::schemas::{FeatureResponse, PermissionRequest, RoleResponse, UpdateRoleRequest};
use crate::query_parser::{FiltersView, PaginatedResponse, ParsedFilters};
use crate::models::feature;
use crate::text::{
    chars_of, copy_range, is_alphanumeric, lowercase, push_char, spec_is_alphanumeric,
    spec_lowercase, string_of,
};

verus! {

broadcast use vstd::string::group_string_axioms;

/// Manages roles and their permissions.
pub struct RoleModuleService;

/// A space becomes a hyphen in a role id.
pub open spec fn slug_char(c: char) -> char {
    if c == ' ' {
        '-'
    } else {
        c
    }
}

/// The characters a role id keeps: letters, digits and hyphens.
pub open spec fn slug_keeps(c: char) -> bool {
    spec_is_alphanumeric(c) || c == '-'
}

pub open spec fn slug_of(s: Seq<char>) -> Seq<char>
    decreases s.len(),
{
    if s.len() == 0 {
        Seq::empty()
    } else {
        let p = slug_of(s.drop_last());
        let c = slug_char(s.last());
        if slug_keeps(c) {
            p.push(c)
        } else {
            p
        }
    }
}

/// The readable part of a role id: the name in lower case, spaces turned
/// into hyphens, and all but letters, digits and hyphens left out.
pub open spec fn role_slug(name: Seq<char>) -> Seq<char> {
    slug_of(spec_lowercase(name))
}

/// The id of a new role, given a fresh UUID in text form: the readable part
/// of the name and the first six characters of the UUID, or the whole UUID
/// where the name leaves nothing readable.
pub open spec fn spec_role_id(name: Seq<char>, uuid: Seq<char>) -> Seq<char> {
    let slug = role_slug(name);
    if slug.len() == 0 {
        uuid
    } else {
        slug + "-"@ + uuid.take(6)
    }
}

/// A role as a soft delete leaves it.
pub open spec fn soft_deleted(r: role::Model, now: i64) -> role::Model {
    role::Model { active: false, is_deleted: Some(true), deleted_at: Some(now), ..r }
}

/// A stored role as the service's lookups see it: only a role marked as not
/// deleted is seen.
pub open spec fn visible(stored: Option<role::Model>) -> Option<role::Model> {
    match stored {
        Some(r) => if r.is_deleted == Some(false) {
            Some(r)
        } else {
            None
        },
        None => None,
    }
}

pub open spec fn link_of(role_id: Seq<char>, p: PermissionRequest, m: role_feature::Model) -> bool {
    &&& m.id_role@ == role_id
    &&& m.id_feature == p.feature
    &&& m.create == p.create
    &&& m.view == p.view
    &&& m.activate == p.activate
    &&& m.delete == p.delete
}

impl RoleModuleService {
    /// The readable part of a role id.
    pub fn role_slug(name: &str) -> (r: String)
        ensures
            r@ == role_slug(name@),
    {
        let lower = lowercase(name);
        Self::slug_from_lowercase(lower.as_str())
    }

    /// The readable part of a role id from the name already in lower case:
    /// spaces turned into hyphens, and all but letters, digits and hyphens
    /// left out.
    pub fn slug_from_lowercase(lower: &str) -> (r: String)
        ensures
            r@ == slug_of(lower@),
    {
        let cs = chars_of(lower);
        let mut out = String::new();
        for i in 0..cs.len()
            invariant
                cs@ == lower@,
                out@ == slug_of(cs@.take(i as int)),
        {
            proof {
                assert(cs@.take(i + 1).drop_last() =~= cs@.take(i as int));
            }
            let c = if cs[i] == ' ' {
                '-'
            } else {
                cs[i]
            };
            if is_alphanumeric(c) || c == '-' {
                push_char(&mut out, c);
            }
        }
        assert(cs@.take(cs@.len() as int) =~= cs@);
        out
    }

    /// The id of a new role from its name and a UUID in text form.
    pub fn role_id(name: &str, uuid: &str) -> (r: String)
        requires
            ascii_prefix(uuid@, 6),
        ensures
            r@ == spec_role_id(name@, uuid@),
    {
        let slug = Self::role_slug(name);
        if slug.as_str().is_empty() {
            String::from_str(uuid)
        } else {
            let u = chars_of(uuid);
            let head = string_of(&copy_range(&u, 0, 6));
            let mut r = slug;
            r.append("-");
            r.append(head.as_str());
            assert(u@.subrange(0, 6) =~= uuid@.take(6));
            r
        }
    }

    /// A fresh id for a new role: built from its name and a new random UUID.
    pub fn generate_role_id(name: &str) -> (r: String)
        ensures
            exists|u: Seq<char>| uuid_text_shape(u) && r@ == spec_role_id(name@, u),
    {
        let u = new_uuid_text();
        proof {
            lemma_uuid_ascii(u@, 6);
        }
        Self::role_id(name, u.as_str())
    }

    /// A role id that is already taken is a conflict.
    pub fn check_role_id_free(taken: bool) -> (r: Result<(), AppError>)
        ensures
            !taken ==> r is Ok,
            taken ==> (r matches Err(e) && e@ == (ErrorKind::Conflict,
                "Perfil com ID ou nome correspondente já cadastrado"@)),
    {
        if taken {
            return Err(
                AppError::with_text(
                    ErrorKind::Conflict,
                    "Perfil com ID ou nome correspondente já cadastrado",
                ),
            );
        }
        Ok(())
    }

    /// A missing (or deleted) role is not found.
    pub fn role_found(found: Option<role::Model>) -> (r: Result<role::Model, AppError>)
        ensures
            match found {
                Some(m) => r == Ok::<role::Model, AppError>(m),
                None => r matches Err(e) && e@ == (ErrorKind::NotFound, "Perfil não encontrado"@),
            },
    {
        match found {
            Some(m) => Ok(m),
            None => Err(AppError::with_text(ErrorKind::NotFound, "Perfil não encontrado")),
        }
    }

    /// The stored role `stored` (of the id asked for), if the service's
    /// lookups see it.
    pub fn visible_role(stored: Option<role::Model>) -> (r: Option<role::Model>)
        ensures
            r == visible(stored),
    {
        match stored {
            Some(m) => match m.is_deleted {
                Some(false) => Some(m),
                _ => None,
            },
            None => None,
        }
    }

    /// The role as its deletion leaves it, given what is stored under its
    /// id; not found where nothing is, or where it is already deleted.
    pub fn delete_role(stored: Option<role::Model>, now: i64) -> (r: Result<role::Model, AppError>)
        ensures
            match visible(stored) {
                Some(m) => r == Ok::<role::Model, AppError>(soft_deleted(m, now)),
                None => r matches Err(e) && e@ == (ErrorKind::NotFound, "Perfil não encontrado"@),
            },
    {
        match Self::role_found(Self::visible_role(stored)) {
            Ok(m) => Ok(Self::soft_delete(m, now)),
            Err(e) => Err(e),
        }
    }

    /// The role with its new active status, given what is stored under its
    /// id; not found where nothing is, or where it is deleted.
    pub fn toggle_role_status(stored: Option<role::Model>, active: bool, now: i64) -> (r: Result<
        role::Model,
        AppError,
    >)
        ensures
            match visible(stored) {
                Some(m) => r == Ok::<role::Model, AppError>(
                    role::Model { active: active, updated_at: now, ..m },
                ),
                None => r matches Err(e) && e@ == (ErrorKind::NotFound, "Perfil não encontrado"@),
            },
    {
        match Self::role_found(Self::visible_role(stored)) {
            Ok(m) => Ok(Self::set_status(m, active, now)),
            Err(e) => Err(e),
        }
    }

    /// A role update, given what is stored under the role's id: the role
    /// under its new name and description, updated now, and, where the
    /// update lists permissions, the records that replace all of the
    /// role's permission records; not found where nothing is stored, or
    /// where the role is deleted.
    pub fn update_role(stored: Option<role::Model>, payload: UpdateRoleRequest, now: i64) -> (r:
        Result<(role::Model, Option<Vec<role_feature::Model>>), AppError>)
        ensures
            match visible(stored) {
                None => r matches Err(e) && e@ == (ErrorKind::NotFound, "Perfil não encontrado"@),
                Some(m) => r matches Ok((u, links)) && u == (role::Model {
                    name: payload.name,
                    description: payload.description,
                    updated_at: now,
                    ..m
                }) && (payload.permissions is None ==> links is None) && (
                payload.permissions matches Some(ps) ==> links matches Some(ls) && ls@.len()
                    == ps@.len() && forall|i: int|
                    0 <= i < ls@.len() ==> link_of(m.id@, ps@[i], #[trigger] ls@[i])),
            },
    {
        let m = match Self::role_found(Self::visible_role(stored)) {
            Ok(m) => m,
            Err(e) => {
                return Err(e);
            },
        };
        let links = match &payload.permissions {
            Some(ps) => Some(Self::permission_links(m.id.as_str(), ps)),
            None => None,
        };
        Ok((Self::apply_role_update(m, payload.name, payload.description, now), links))
    }

    /// A new role: active and not deleted.
    pub fn new_role(id: String, name: String, description: String, now: i64) -> (r: role::Model)
        ensures
            r.id == id,
            r.name == name,
            r.description == description,
            r.active,
            r.is_deleted == Some(false),
            r.deleted_at is None,
            r.created_at == now,
            r.updated_at == now,
    {
        role::Model {
            id,
            name,
            description,
            active: true,
            is_deleted: Some(false),
            deleted_at: None,
            created_at: now,
            updated_at: now,
        }
    }

    /// The permission record of a role for one requested permission.
    pub fn permission_link(role_id: &str, p: &PermissionRequest) -> (r: role_feature::Model)
        ensures
            link_of(role_id@, *p, r),
    {
        role_feature::Model {
            id_role: String::from_str(role_id),
            id_feature: p.feature.clone(),
            create: p.create,
            view: p.view,
            activate: p.activate,
            delete: p.delete,
        }
    }

    /// The permission records of a role for the requested permissions, in
    /// order.
    pub fn permission_links(role_id: &str, ps: &Vec<PermissionRequest>) -> (r: Vec<
        role_feature::Model,
    >)
        ensures
            r@.len() == ps@.len(),
            forall|i: int| 0 <= i < r@.len() ==> link_of(role_id@, ps@[i], #[trigger] r@[i]),
    {
        let mut out: Vec<role_feature::Model> = Vec::new();
        for i in 0..ps.len()
            invariant
                out@.len() == i,
                forall|j: int| 0 <= j < i ==> link_of(role_id@, ps@[j], #[trigger] out@[j]),
        {
            out.push(Self::permission_link(role_id, &ps[i]));
        }
        out
    }

    /// A permission record as the API shows it.
    pub fn permission_of_link(m: &role_feature::Model) -> (r: PermissionRequest)
        ensures
            r.feature == m.id_feature,
            r.create == m.create,
            r.view == m.view,
            r.activate == m.activate,
            r.delete == m.delete,
    {
        PermissionRequest {
            feature: m.id_feature.clone(),
            create: m.create,
            view: m.view,
            activate: m.activate,
            delete: m.delete,
        }
    }

    /// A role with a new name and description, updated now.
    pub fn apply_role_update(r: role::Model, name: String, description: String, now: i64) -> (res:
        role::Model)
        ensures
            res == (role::Model { name: name, description: description, updated_at: now, ..r }),
    {
        role::Model { name, description, updated_at: now, ..r }
    }

    /// A role as a soft delete leaves it: inactive, marked deleted now, the
    /// rest kept.
    pub fn soft_delete(r: role::Model, now: i64) -> (res: role::Model)
        ensures
            res == soft_deleted(r, now),
    {
        role::Model { active: false, is_deleted: Some(true), deleted_at: Some(now), ..r }
    }

    /// A role with a new active status, updated now.
    pub fn set_status(r: role::Model, active: bool, now: i64) -> (res: role::Model)
        ensures
            res == (role::Model { active: active, updated_at: now, ..r }),
    {
        role::Model { active, updated_at: now, ..r }
    }

    /// A feature as the API shows it.
    pub fn feature_response(f: &feature::Model) -> (r: FeatureResponse)
        ensures
            r.id == f.id,
            r.name == f.name,
    {
        FeatureResponse { id: f.id.clone(), name: f.name.clone() }
    }
}

// ---------------------------------------------------------------------------
// Listing
// ---------------------------------------------------------------------------
/// The filters of the role listing: name and description (contained),
/// active, and the creation and update dates.
pub open spec fn role_filter_defs() -> Seq<FilterDef> {
    seq![
        FilterDef { column: Column::Name, kind: FilterKind::Contains },
        FilterDef { column: Column::Description, kind: FilterKind::Contains },
        FilterDef { column: Column::Active, kind: FilterKind::Flag },
        FilterDef { column: Column::CreatedAt, kind: FilterKind::DateRange },
        FilterDef { column: Column::UpdatedAt, kind: FilterKind::DateRange },
    ]
}

/// The columns a role search may cover: name and description.
pub open spec fn role_search_columns() -> Seq<Column> {
    seq![Column::Name, Column::Description]
}

/// The orderings of the role listing: name and description in any case,
/// and the creation date.
pub open spec fn role_orders() -> Seq<OrderDef> {
    seq![
        OrderDef { column: Column::Name, case_insensitive: true },
        OrderDef { column: Column::Description, case_insensitive: true },
        OrderDef { column: Column::CreatedAt, case_insensitive: false },
    ]
}

/// The plan of the role listing: deleted roles left out, ordered by
/// creation date unless the query orders by another allowed column.
pub open spec fn spec_role_listing_plan(f: FiltersView) -> PlanView {
    spec_listing_plan(true, role_filter_defs(), role_search_columns(), role_orders(), Column::CreatedAt, f)
}

/// The permission as a role's permission record gives it.
pub open spec fn permission_request_of(m: role_feature::Model) -> PermissionRequest {
    PermissionRequest {
        feature: m.id_feature,
        create: m.create,
        view: m.view,
        activate: m.activate,
        delete: m.delete,
    }
}

/// The times of a role lie where they can be written out.
pub open spec fn role_times_in_range(r: role::Model) -> bool {
    &&& time_in_range(r.created_at)
    &&& time_in_range(r.updated_at)
    &&& (r.deleted_at matches Some(t) ==> time_in_range(t))
}

/// A role as the API shows it, with its permission records: times in RFC
/// 3339 form, and a role with no deletion mark shown as not deleted.
pub open spec fn is_role_response(resp: RoleResponse, r: role::Model, links: Seq<role_feature::Model>) -> bool {
    &&& resp.id == r.id
    &&& resp.name == r.name
    &&& resp.description == r.description
    &&& resp.active == r.active
    &&& resp.role_feature@ == links.map_values(|m: role_feature::Model| permission_request_of(m))
    &&& resp.created_at@ == rfc3339_utc(r.created_at)
    &&& resp.updated_at@ == rfc3339_utc(r.updated_at)
    &&& resp.is_deleted == (r.is_deleted == Some(true))
    &&& match r.deleted_at {
        Some(t) => resp.deleted_at matches Some(d) && d@ == rfc3339_utc(t),
        None => resp.deleted_at is None,
    }
}

impl RoleModuleService {
    /// The plan of a role listing for a validated query.
    pub fn role_listing_plan(filters: &ParsedFilters) -> (p: ListingPlan)
        requires
            filters.page * filters.size <= u64::MAX,
        ensures
            p@ == spec_role_listing_plan(filters@),
    {
        let mut defs: Vec<FilterDef> = Vec::new();
        defs.push(FilterDef { column: Column::Name, kind: FilterKind::Contains });
        defs.push(FilterDef { column: Column::Description, kind: FilterKind::Contains });
        defs.push(FilterDef { column: Column::Active, kind: FilterKind::Flag });
        defs.push(FilterDef { column: Column::CreatedAt, kind: FilterKind::DateRange });
        defs.push(FilterDef { column: Column::UpdatedAt, kind: FilterKind::DateRange });
        let mut search: Vec<Column> = Vec::new();
        search.push(Column::Name);
        search.push(Column::Description);
        let mut orders: Vec<OrderDef> = Vec::new();
        orders.push(OrderDef { column: Column::Name, case_insensitive: true });
        orders.push(OrderDef { column: Column::Description, case_insensitive: true });
        orders.push(OrderDef { column: Column::CreatedAt, case_insensitive: false });
        assert(defs@ =~= role_filter_defs());
        assert(search@ =~= role_search_columns());
        assert(orders@ =~= role_orders());
        listing_plan(true, &defs, &search, &orders, Column::CreatedAt, filters)
    }

    /// A role as the API shows it, with its permission records.
    pub fn role_response(r: &role::Model, links: &Vec<role_feature::Model>) -> (resp: RoleResponse)
        requires
            role_times_in_range(*r),
        ensures
            is_role_response(resp, *r, links@),
    {
        let mut perms: Vec<PermissionRequest> = Vec::new();
        for i in 0..links.len()
            invariant
                perms@.len() == i,
                forall|j: int| 0 <= j < i ==> #[trigger] perms@[j] == permission_request_of(links@[j]),
        {
            perms.push(Self::permission_of_link(&links[i]));
        }
        assert(perms@ =~= links@.map_values(|m: role_feature::Model| permission_request_of(m)));
        let deleted_at = match r.deleted_at {
            Some(t) => Some(format_rfc3339(t)),
            None => None,
        };
        RoleResponse {
            id: r.id.clone(),
            name: r.name.clone(),
            description: r.description.clone(),
            active: r.active,
            role_feature: perms,
            created_at: format_rfc3339(r.created_at),
            updated_at: format_rfc3339(r.updated_at),
            is_deleted: match r.is_deleted {
                Some(true) => true,
                _ => false,
            },
            deleted_at,
        }
    }

    /// A page of the role listing from the rows found (each role with its
    /// permission records) and the number of rows that meet the query.
    pub fn role_page(
        records: Vec<(role::Model, Vec<role_feature::Model>)>,
        total: u64,
        filters: &ParsedFilters,
    ) -> (r: PaginatedResponse<RoleResponse>)
        requires
            forall|i: int| 0 <= i < records@.len() ==> role_times_in_range(#[trigger] records@[i].0),
        ensures
            r.total == total,
            r.page == filters.page,
            r.size == filters.size,
            r.items@.len() == records@.len(),
            forall|i: int|
                0 <= i < records@.len() ==> is_role_response(
                    #[trigger] r.items@[i],
                    records@[i].0,
                    records@[i].1@,
                ),
    {
        let mut items: Vec<RoleResponse> = Vec::new();
        for i in 0..records.len()
            invariant
                forall|k: int| 0 <= k < records@.len() ==> role_times_in_range(#[trigger] records@[k].0),
                items@.len() == i,
                forall|j: int|
                    0 <= j < i ==> is_role_response(#[trigger] items@[j], records@[j].0, records@[j].1@),
        {
            let rec = &records[i];
            items.push(Self::role_response(&rec.0, &rec.1));
        }
        page_of(items, total, filters)
    }

    /// The condition of the feature listing: active features only.
    pub fn feature_conditions() -> (r: Vec<Condition>)
        ensures
            conditions_view(r@) == seq![ConditionView::Is(Column::Active, true)],
    {
        let mut r: Vec<Condition> = Vec::new();
        r.push(Condition::Is(Column::Active, true));
        assert(conditions_view(r@) =~= seq![ConditionView::Is(Column::Active, true)]);
        r
    }

    /// The feature listing from the features found, in order.
    pub fn list_features(found: &Vec<feature::Model>) -> (r: Vec<FeatureResponse>)
        ensures
            r@.len() == found@.len(),
            forall|i: int|
                0 <= i < found@.len() ==> (#[trigger] r@[i]).id == found@[i].id && r@[i].name
                    == found@[i].name,
    {
        let mut r: Vec<FeatureResponse> = Vec::new();
        for i in 0..found.len()
            invariant
                r@.len() == i,
                forall|j: int|
                    0 <= j < i ==> (#[trigger] r@[j]).id == found@[j].id && r@[j].name
                        == found@[j].name,
        {
            r.push(Self::feature_response(&found[i]));
        }
        r
    }
}

/// What the role listing asks of the store: deleted roles left out; the
/// name and the description the query gives matched anywhere, in any case;
/// the active flag and every date bound the query gives applied; the
/// ordering the query asks for among name, description (both in any case)
/// and creation date, else the creation date; the direction and the page
/// asked for.
pub proof fn lemma_role_listing_plan(f: FiltersView)
    ensures
        ({
            let p = spec_role_listing_plan(f);
            &&& p.conditions.len() > 0 && p.conditions[0] == ConditionView::NotDeleted
            &&& (f.name matches Some(v) ==> p.conditions.contains(ConditionView::Contains(Column::Name, v)))
            &&& (f.description matches Some(v) ==> p.conditions.contains(
                ConditionView::Contains(Column::Description, v),
            ))
            &&& (f.active matches Some(b) ==> p.conditions.contains(ConditionView::Is(Column::Active, b)))
            &&& (f.created_at_start matches Some(t) ==> p.conditions.contains(
                ConditionView::From(Column::CreatedAt, t),
            ))
            &&& (f.created_at_end matches Some(t) ==> p.conditions.contains(
                ConditionView::Until(Column::CreatedAt, t),
            ))
            &&& (f.updated_at_start matches Some(t) ==> p.conditions.contains(
                ConditionView::From(Column::UpdatedAt, t),
            ))
            &&& (f.updated_at_end matches Some(t) ==> p.conditions.contains(
                ConditionView::Until(Column::UpdatedAt, t),
            ))
            &&& (f.order_by == Some("name"@) ==> p.order == OrderDef {
                column: Column::Name,
                case_insensitive: true,
            })
            &&& (f.order_by == Some("description"@) ==> p.order == OrderDef {
                column: Column::Description,
                case_insensitive: true,
            })
            &&& (f.order_by == Some("createdAt"@) ==> p.order == OrderDef {
                column: Column::CreatedAt,
                case_insensitive: false,
            })
            &&& (!(f.order_by == Some("name"@) || f.order_by == Some("description"@) || f.order_by
                == Some("createdAt"@)) ==> p.order == OrderDef {
                column: Column::CreatedAt,
                case_insensitive: false,
            })
            &&& p.descending == (f.order_direction == "desc"@)
            &&& p.limit == f.size
            &&& (f.page * f.size <= u64::MAX ==> p.offset == f.page * f.size)
        }),
{
    let ds = role_filter_defs();
    let os = role_orders();
    let search = role_search_columns();
    let d = Column::CreatedAt;
    if let Some(v) = f.name {
        assert(filter_conditions(ds[0], f)[0] == ConditionView::Contains(Column::Name, v));
        lemma_plan_keeps_filter(true, ds, search, os, d, f, 0, ConditionView::Contains(Column::Name, v));
    }
    if let Some(v) = f.description {
        assert(filter_conditions(ds[1], f)[0] == ConditionView::Contains(Column::Description, v));
        lemma_plan_keeps_filter(true, ds, search, os, d, f, 1, ConditionView::Contains(Column::Description, v));
    }
    if let Some(b) = f.active {
        assert(filter_conditions(ds[2], f)[0] == ConditionView::Is(Column::Active, b));
        lemma_plan_keeps_filter(true, ds, search, os, d, f, 2, ConditionView::Is(Column::Active, b));
    }
    if let Some(t) = f.created_at_start {
        assert(filter_conditions(ds[3], f)[0] == ConditionView::From(Column::CreatedAt, t));
        lemma_plan_keeps_filter(true, ds, search, os, d, f, 3, ConditionView::From(Column::CreatedAt, t));
    }
    if let Some(t) = f.created_at_end {
        let fc = filter_conditions(ds[3], f);
        assert(fc[fc.len() - 1] == ConditionView::Until(Column::CreatedAt, t));
        lemma_plan_keeps_filter(true, ds, search, os, d, f, 3, ConditionView::Until(Column::CreatedAt, t));
    }
    if let Some(t) = f.updated_at_start {
        assert(filter_conditions(ds[4], f)[0] == ConditionView::From(Column::UpdatedAt, t));
        lemma_plan_keeps_filter(true, ds, search, os, d, f, 4, ConditionView::From(Column::UpdatedAt, t));
    }
    if let Some(t) = f.updated_at_end {
        let fc = filter_conditions(ds[4], f);
        assert(fc[fc.len() - 1] == ConditionView::Until(Column::UpdatedAt, t));
        lemma_plan_keeps_filter(true, ds, search, os, d, f, 4, ConditionView::Until(Column::UpdatedAt, t));
    }
    lemma_params_distinct(Column::Name, Column::Description);
    lemma_params_distinct(Column::Name, Column::CreatedAt);
    lemma_params_distinct(Column::Description, Column::CreatedAt);
    if f.order_by == Some("name"@) {
        lemma_order_first_match(os, d, f.order_by, 0);
    } else if f.order_by == Some("description"@) {
        lemma_order_first_match(os, d, f.order_by, 1);
    } else if f.order_by == Some("createdAt"@) {
        lemma_order_first_match(os, d, f.order_by, 2);
    } else {
        lemma_order_default(os, d, f.order_by);
    }
}

/// A search word is searched, in the role listing: name and description, over every
/// one of these columns that the query lists among its search fields, and
/// over no other column.
pub proof fn lemma_role_search(f: FiltersView, c: Column)
    requires
        f.search_word is Some,
        c == Column::Name || c == Column::Description,
        f.search_fields.contains(param_of(c)),
    ensures
        exists|cols: Seq<Column>|
            #![trigger cols.contains(c)]
            spec_role_listing_plan(f).conditions.contains(ConditionView::Search(cols, f.search_word->Some_0))
                && cols.contains(c) && forall|x: Column|
                cols.contains(x) ==> (x == Column::Name || x == Column::Description) && f.search_fields.contains(param_of(x)),
{
    let search = role_search_columns();
    if c == Column::Name {
        assert(search[0] == c);
    }
    if c == Column::Description {
        assert(search[1] == c);
    }
    lemma_plan_search(true, role_filter_defs(), search, role_orders(), Column::CreatedAt, f, c);
}

/// A soft-deleted role is kept, inactive and marked deleted; deleting it
/// again changes nothing but the time of deletion.
pub proof fn lemma_soft_delete_role(r: role::Model, t1: i64, t2: i64)
    ensures
        !soft_deleted(r, t1).active,
        soft_deleted(r, t1).is_deleted == Some(true),
        soft_deleted(r, t1).id == r.id,
        soft_deleted(soft_deleted(r, t1), t2) == soft_deleted(r, t2),
{
}

/// A deleted role is gone for the service: once a delete has stored what
/// it gives, looking the role up, deleting it again or changing its status
/// answers that it is not found.
pub proof fn lemma_deleted_role_not_found(r: role::Model, now: i64)
    ensures
        visible(Some(soft_deleted(r, now))) is None,
        r.is_deleted == Some(false) ==> visible(Some(r)) == Some(r),
{
}

} // verus!
