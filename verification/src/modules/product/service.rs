use vstd::prelude::*;

use crate::errors::{AppError, ErrorKind};
use crate::ids::{new_uuid_text, uuid_text_shape};
use crate::models::product;
use crate::listing::{
    filter_conditions, format_rfc3339, lemma_order_default, lemma_order_first_match,
    lemma_params_distinct, lemma_plan_keeps_filter, lemma_plan_search, listing_plan, page_of, param_of, rfc3339_utc,
    spec_listing_plan, time_in_range, Column, ConditionView, FilterDef, FilterKind, ListingPlan,
    OrderDef, PlanView,
};
use crate::modules::product::schemas::{CreateProductRequest, ProductResponse, UpdateProductRequest};
use crate::query_parser::{FiltersView, PaginatedResponse, ParsedFilters};
use crate::text::str_eq;

verus! {

broadcast use vstd::string::group_string_axioms;

/// Manages the product catalogue.
pub struct ProductModuleService;

/// A product as a soft delete leaves it.
pub open spec fn soft_deleted(p: product::Model, now: i64) -> product::Model {
    product::Model { active: false, is_deleted: Some(true), deleted_at: Some(now), ..p }
}

/// A stored product as the service's lookups see it: only a product marked
/// as not deleted is seen (a product marked deleted, or with no mark, is
/// not: the store's `is_deleted <> true` holds of neither).
pub open spec fn visible(stored: Option<product::Model>) -> Option<product::Model> {
    match stored {
        Some(p) => if p.is_deleted == Some(false) {
            Some(p)
        } else {
            None
        },
        None => None,
    }
}

impl ProductModuleService {
    /// The stored product `stored` (of the id asked for), if the service's
    /// lookups see it.
    pub fn visible_product(stored: Option<product::Model>) -> (r: Option<product::Model>)
        ensures
            r == visible(stored),
    {
        match stored {
            Some(p) => match p.is_deleted {
                Some(false) => Some(p),
                _ => None,
            },
            None => None,
        }
    }

    /// The product asked for, given what is stored under its id; not found
    /// where nothing is, or where it is deleted.
    pub fn get_product_by_id(stored: Option<product::Model>) -> (r: Result<
        product::Model,
        AppError,
    >)
        ensures
            match visible(stored) {
                Some(m) => r == Ok::<product::Model, AppError>(m),
                None => r matches Err(e) && e@ == (ErrorKind::NotFound, "Produto não encontrado"@),
            },
    {
        Self::product_found(Self::visible_product(stored))
    }

    /// The product as its deletion leaves it, given what is stored under
    /// its id; not found where nothing is, or where it is already deleted.
    pub fn delete_product(stored: Option<product::Model>, now: i64) -> (r: Result<
        product::Model,
        AppError,
    >)
        ensures
            match visible(stored) {
                Some(m) => r == Ok::<product::Model, AppError>(soft_deleted(m, now)),
                None => r matches Err(e) && e@ == (ErrorKind::NotFound, "Produto não encontrado"@),
            },
    {
        match Self::product_found(Self::visible_product(stored)) {
            Ok(m) => Ok(Self::soft_delete(m, now)),
            Err(e) => Err(e),
        }
    }

    /// The product with its new active status, given what is stored under
    /// its id; not found where nothing is, or where it is deleted.
    pub fn toggle_product_status(stored: Option<product::Model>, active: bool, now: i64) -> (r:
        Result<product::Model, AppError>)
        ensures
            match visible(stored) {
                Some(m) => r == Ok::<product::Model, AppError>(
                    product::Model { active: active, updated_at: now, ..m },
                ),
                None => r matches Err(e) && e@ == (ErrorKind::NotFound, "Produto não encontrado"@),
            },
    {
        match Self::product_found(Self::visible_product(stored)) {
            Ok(m) => Ok(Self::set_status(m, active, now)),
            Err(e) => Err(e),
        }
    }

    /// A missing (or deleted) product is not found.
    pub fn product_found(found: Option<product::Model>) -> (r: Result<product::Model, AppError>)
        ensures
            match found {
                Some(m) => r == Ok::<product::Model, AppError>(m),
                None => r matches Err(e) && e@ == (ErrorKind::NotFound, "Produto não encontrado"@),
            },
    {
        match found {
            Some(m) => Ok(m),
            None => Err(AppError::with_text(ErrorKind::NotFound, "Produto não encontrado")),
        }
    }

    /// A new product may not take the SKU of a product that is not deleted.
    pub fn check_sku_free(taken: bool) -> (r: Result<(), AppError>)
        ensures
            !taken ==> r is Ok,
            taken ==> (r matches Err(e) && e@ == (ErrorKind::Conflict,
                "SKU já cadastrado no sistema"@)),
    {
        if taken {
            return Err(AppError::with_text(ErrorKind::Conflict, "SKU já cadastrado no sistema"));
        }
        Ok(())
    }

    /// Whether an update changes the SKU, so that its uniqueness is to be
    /// checked.
    pub fn sku_changes(current: &str, requested: &str) -> (r: bool)
        ensures
            r == (current@ != requested@),
    {
        !str_eq(current, requested)
    }

    /// An updated product may not take the SKU of another product that is
    /// not deleted.
    pub fn check_sku_unused(taken: bool) -> (r: Result<(), AppError>)
        ensures
            !taken ==> r is Ok,
            taken ==> (r matches Err(e) && e@ == (ErrorKind::Conflict,
                "SKU já está sendo utilizado por outro produto"@)),
    {
        if taken {
            return Err(
                AppError::with_text(
                    ErrorKind::Conflict,
                    "SKU já está sendo utilizado por outro produto",
                ),
            );
        }
        Ok(())
    }

    /// A new product: active, not deleted, created now.
    pub fn new_product(id: String, payload: CreateProductRequest, now: i64) -> (r: product::Model)
        ensures
            r.id == id,
            r.name == payload.name,
            r.sku == payload.sku,
            r.category == payload.category,
            r.price == payload.price,
            r.stock == payload.stock,
            r.description == payload.description,
            r.active,
            r.is_deleted == Some(false),
            r.deleted_at is None,
            r.created_at == now,
            r.updated_at == now,
    {
        product::Model {
            id,
            name: payload.name,
            sku: payload.sku,
            category: payload.category,
            price: payload.price,
            stock: payload.stock,
            description: payload.description,
            active: true,
            is_deleted: Some(false),
            deleted_at: None,
            created_at: now,
            updated_at: now,
        }
    }

    /// A new product under a fresh random UUID.
    pub fn new_product_with_fresh_id(payload: CreateProductRequest, now: i64) -> (r:
        product::Model)
        ensures
            uuid_text_shape(r.id@),
            r.name == payload.name,
            r.sku == payload.sku,
            r.category == payload.category,
            r.price == payload.price,
            r.stock == payload.stock,
            r.description == payload.description,
            r.active,
            r.is_deleted == Some(false),
            r.deleted_at is None,
            r.created_at == now,
            r.updated_at == now,
    {
        Self::new_product(new_uuid_text(), payload, now)
    }

    /// A product with the details of an update, updated now; the active
    /// status changes only where the update gives one.
    pub fn apply_update(p: product::Model, payload: UpdateProductRequest, now: i64) -> (r:
        product::Model)
        ensures
            r.id == p.id,
            r.name == payload.name,
            r.sku == payload.sku,
            r.category == payload.category,
            r.price == payload.price,
            r.stock == payload.stock,
            r.description == payload.description,
            r.active == match payload.active {
                Some(a) => a,
                None => p.active,
            },
            r.is_deleted == p.is_deleted,
            r.deleted_at == p.deleted_at,
            r.created_at == p.created_at,
            r.updated_at == now,
    {
        let active = match payload.active {
            Some(a) => a,
            None => p.active,
        };
        product::Model {
            name: payload.name,
            sku: payload.sku,
            category: payload.category,
            price: payload.price,
            stock: payload.stock,
            description: payload.description,
            active,
            updated_at: now,
            ..p
        }
    }

    /// A product as a soft delete leaves it: inactive, marked deleted now,
    /// the rest kept.
    pub fn soft_delete(p: product::Model, now: i64) -> (r: product::Model)
        ensures
            r == soft_deleted(p, now),
    {
        product::Model { active: false, is_deleted: Some(true), deleted_at: Some(now), ..p }
    }

    /// A product with a new active status, updated now.
    pub fn set_status(p: product::Model, active: bool, now: i64) -> (r: product::Model)
        ensures
            r == (product::Model { active: active, updated_at: now, ..p }),
    {
        product::Model { active, updated_at: now, ..p }
    }
}

/// A soft delete keeps the product but takes it out of circulation;
/// repeating it changes nothing but the time of deletion.
pub proof fn lemma_soft_delete_product(p: product::Model, t1: i64, t2: i64)
    ensures
        !soft_deleted(p, t1).active,
        soft_deleted(p, t1).is_deleted == Some(true),
        soft_deleted(p, t1).id == p.id,
        soft_deleted(p, t1).sku == p.sku,
        soft_deleted(soft_deleted(p, t1), t2) == soft_deleted(p, t2),
{
}

// ---------------------------------------------------------------------------
// Listing
// ---------------------------------------------------------------------------
/// The filters of the product listing: name (contained), SKU and category
/// (exact), active, and the creation and update dates.
pub open spec fn product_filter_defs() -> Seq<FilterDef> {
    seq![
        FilterDef { column: Column::Name, kind: FilterKind::Contains },
        FilterDef { column: Column::Sku, kind: FilterKind::Equals },
        FilterDef { column: Column::Category, kind: FilterKind::Equals },
        FilterDef { column: Column::Active, kind: FilterKind::Flag },
        FilterDef { column: Column::CreatedAt, kind: FilterKind::DateRange },
        FilterDef { column: Column::UpdatedAt, kind: FilterKind::DateRange },
    ]
}

/// The columns a product search may cover: name, SKU and category.
pub open spec fn product_search_columns() -> Seq<Column> {
    seq![Column::Name, Column::Sku, Column::Category]
}

/// The orderings of the product listing: name and category in any case,
/// SKU and the creation date.
pub open spec fn product_orders() -> Seq<OrderDef> {
    seq![
        OrderDef { column: Column::Name, case_insensitive: true },
        OrderDef { column: Column::Sku, case_insensitive: false },
        OrderDef { column: Column::Category, case_insensitive: true },
        OrderDef { column: Column::CreatedAt, case_insensitive: false },
    ]
}

/// The plan of the product listing: deleted products left out, ordered by
/// creation date unless the query orders by another allowed column.
pub open spec fn spec_product_listing_plan(f: FiltersView) -> PlanView {
    spec_listing_plan(
        true,
        product_filter_defs(),
        product_search_columns(),
        product_orders(),
        Column::CreatedAt,
        f,
    )
}

/// The times of a product lie where they can be written out.
pub open spec fn product_times_in_range(p: product::Model) -> bool {
    time_in_range(p.created_at) && time_in_range(p.updated_at)
}

/// A product as the API shows it, its times in RFC 3339 form.
pub open spec fn is_product_response(r: ProductResponse, p: product::Model) -> bool {
    &&& r.id == p.id
    &&& r.name == p.name
    &&& r.sku == p.sku
    &&& r.category == p.category
    &&& r.price == p.price
    &&& r.stock == p.stock
    &&& r.description == p.description
    &&& r.active == p.active
    &&& r.created_at@ == rfc3339_utc(p.created_at)
    &&& r.updated_at@ == rfc3339_utc(p.updated_at)
}

impl ProductModuleService {
    /// The plan of a product listing for a validated query.
    pub fn product_listing_plan(filters: &ParsedFilters) -> (p: ListingPlan)
        requires
            filters.page * filters.size <= u64::MAX,
        ensures
            p@ == spec_product_listing_plan(filters@),
    {
        let mut defs: Vec<FilterDef> = Vec::new();
        defs.push(FilterDef { column: Column::Name, kind: FilterKind::Contains });
        defs.push(FilterDef { column: Column::Sku, kind: FilterKind::Equals });
        defs.push(FilterDef { column: Column::Category, kind: FilterKind::Equals });
        defs.push(FilterDef { column: Column::Active, kind: FilterKind::Flag });
        defs.push(FilterDef { column: Column::CreatedAt, kind: FilterKind::DateRange });
        defs.push(FilterDef { column: Column::UpdatedAt, kind: FilterKind::DateRange });
        let mut search: Vec<Column> = Vec::new();
        search.push(Column::Name);
        search.push(Column::Sku);
        search.push(Column::Category);
        let mut orders: Vec<OrderDef> = Vec::new();
        orders.push(OrderDef { column: Column::Name, case_insensitive: true });
        orders.push(OrderDef { column: Column::Sku, case_insensitive: false });
        orders.push(OrderDef { column: Column::Category, case_insensitive: true });
        orders.push(OrderDef { column: Column::CreatedAt, case_insensitive: false });
        assert(defs@ =~= product_filter_defs());
        assert(search@ =~= product_search_columns());
        assert(orders@ =~= product_orders());
        listing_plan(true, &defs, &search, &orders, Column::CreatedAt, filters)
    }

    /// A product as the API shows it.
    pub fn product_response(p: &product::Model) -> (r: ProductResponse)
        requires
            product_times_in_range(*p),
        ensures
            is_product_response(r, *p),
    {
        ProductResponse {
            id: p.id.clone(),
            name: p.name.clone(),
            sku: p.sku.clone(),
            category: p.category.clone(),
            price: p.price,
            stock: p.stock,
            description: p.description.clone(),
            active: p.active,
            created_at: format_rfc3339(p.created_at),
            updated_at: format_rfc3339(p.updated_at),
        }
    }

    /// A page of the product listing from the rows found and the number of
    /// rows that meet the query.
    pub fn product_page(records: &Vec<product::Model>, total: u64, filters: &ParsedFilters) -> (r:
        PaginatedResponse<ProductResponse>)
        requires
            forall|i: int| 0 <= i < records@.len() ==> product_times_in_range(#[trigger] records@[i]),
        ensures
            r.total == total,
            r.page == filters.page,
            r.size == filters.size,
            r.items@.len() == records@.len(),
            forall|i: int|
                0 <= i < records@.len() ==> is_product_response(#[trigger] r.items@[i], records@[i]),
    {
        let mut items: Vec<ProductResponse> = Vec::new();
        for i in 0..records.len()
            invariant
                forall|k: int| 0 <= k < records@.len() ==> product_times_in_range(#[trigger] records@[k]),
                items@.len() == i,
                forall|j: int| 0 <= j < i ==> is_product_response(#[trigger] items@[j], records@[j]),
        {
            items.push(Self::product_response(&records[i]));
        }
        page_of(items, total, filters)
    }
}

/// What the product listing asks of the store: deleted products left out;
/// the name the query gives matched anywhere in the name, in any case; the
/// SKU and the category matched exactly; the active flag and every date
/// bound the query gives applied; the ordering the query asks for among
/// name, SKU, category and creation date (name and category in any case),
/// else the creation date; the direction and the page asked for.
pub proof fn lemma_product_listing_plan(f: FiltersView)
    ensures
        ({
            let p = spec_product_listing_plan(f);
            &&& p.conditions.len() > 0 && p.conditions[0] == ConditionView::NotDeleted
            &&& (f.name matches Some(v) ==> p.conditions.contains(ConditionView::Contains(Column::Name, v)))
            &&& (f.sku matches Some(v) ==> p.conditions.contains(ConditionView::Equals(Column::Sku, v)))
            &&& (f.category matches Some(v) ==> p.conditions.contains(
                ConditionView::Equals(Column::Category, v),
            ))
            &&& (f.active matches Some(b) ==> p.conditions.contains(ConditionView::Is(Column::Active, b)))
            &&& (f.created_at_start matches Some(t) ==> p.conditions.contains(
                ConditionView::From(Column::CreatedAt, t),
            ))
            &&& (f.created_at_end matches Some(t) ==> p.conditions.contains(
                ConditionView::Until(Column::CreatedAt, t),
            ))
            &&& (f.updated_at_start matches Some(t) ==> p.conditions.contains(
                ConditionView::From(Column::UpdatedAt, t),
            ))
            &&& (f.updated_at_end matches Some(t) ==> p.conditions.contains(
                ConditionView::Until(Column::UpdatedAt, t),
            ))
            &&& (f.order_by == Some("name"@) ==> p.order == OrderDef {
                column: Column::Name,
                case_insensitive: true,
            })
            &&& (f.order_by == Some("sku"@) ==> p.order == OrderDef {
                column: Column::Sku,
                case_insensitive: false,
            })
            &&& (f.order_by == Some("category"@) ==> p.order == OrderDef {
                column: Column::Category,
                case_insensitive: true,
            })
            &&& (f.order_by == Some("createdAt"@) ==> p.order == OrderDef {
                column: Column::CreatedAt,
                case_insensitive: false,
            })
            &&& (!(f.order_by == Some("name"@) || f.order_by == Some("sku"@) || f.order_by == Some(
                "category"@,
            ) || f.order_by == Some("createdAt"@)) ==> p.order == OrderDef {
                column: Column::CreatedAt,
                case_insensitive: false,
            })
            &&& p.descending == (f.order_direction == "desc"@)
            &&& p.limit == f.size
            &&& (f.page * f.size <= u64::MAX ==> p.offset == f.page * f.size)
        }),
{
    let ds = product_filter_defs();
    let os = product_orders();
    let search = product_search_columns();
    let d = Column::CreatedAt;
    if let Some(v) = f.name {
        assert(filter_conditions(ds[0], f)[0] == ConditionView::Contains(Column::Name, v));
        lemma_plan_keeps_filter(true, ds, search, os, d, f, 0, ConditionView::Contains(Column::Name, v));
    }
    if let Some(v) = f.sku {
        assert(filter_conditions(ds[1], f)[0] == ConditionView::Equals(Column::Sku, v));
        lemma_plan_keeps_filter(true, ds, search, os, d, f, 1, ConditionView::Equals(Column::Sku, v));
    }
    if let Some(v) = f.category {
        assert(filter_conditions(ds[2], f)[0] == ConditionView::Equals(Column::Category, v));
        lemma_plan_keeps_filter(true, ds, search, os, d, f, 2, ConditionView::Equals(Column::Category, v));
    }
    if let Some(b) = f.active {
        assert(filter_conditions(ds[3], f)[0] == ConditionView::Is(Column::Active, b));
        lemma_plan_keeps_filter(true, ds, search, os, d, f, 3, ConditionView::Is(Column::Active, b));
    }
    if let Some(t) = f.created_at_start {
        assert(filter_conditions(ds[4], f)[0] == ConditionView::From(Column::CreatedAt, t));
        lemma_plan_keeps_filter(true, ds, search, os, d, f, 4, ConditionView::From(Column::CreatedAt, t));
    }
    if let Some(t) = f.created_at_end {
        let fc = filter_conditions(ds[4], f);
        assert(fc[fc.len() - 1] == ConditionView::Until(Column::CreatedAt, t));
        lemma_plan_keeps_filter(true, ds, search, os, d, f, 4, ConditionView::Until(Column::CreatedAt, t));
    }
    if let Some(t) = f.updated_at_start {
        assert(filter_conditions(ds[5], f)[0] == ConditionView::From(Column::UpdatedAt, t));
        lemma_plan_keeps_filter(true, ds, search, os, d, f, 5, ConditionView::From(Column::UpdatedAt, t));
    }
    if let Some(t) = f.updated_at_end {
        let fc = filter_conditions(ds[5], f);
        assert(fc[fc.len() - 1] == ConditionView::Until(Column::UpdatedAt, t));
        lemma_plan_keeps_filter(true, ds, search, os, d, f, 5, ConditionView::Until(Column::UpdatedAt, t));
    }
    lemma_params_distinct(Column::Name, Column::Sku);
    lemma_params_distinct(Column::Name, Column::Category);
    lemma_params_distinct(Column::Name, Column::CreatedAt);
    lemma_params_distinct(Column::Sku, Column::Category);
    lemma_params_distinct(Column::Sku, Column::CreatedAt);
    lemma_params_distinct(Column::Category, Column::CreatedAt);
    if f.order_by == Some("name"@) {
        lemma_order_first_match(os, d, f.order_by, 0);
    } else if f.order_by == Some("sku"@) {
        lemma_order_first_match(os, d, f.order_by, 1);
    } else if f.order_by == Some("category"@) {
        lemma_order_first_match(os, d, f.order_by, 2);
    } else if f.order_by == Some("createdAt"@) {
        lemma_order_first_match(os, d, f.order_by, 3);
    } else {
        lemma_order_default(os, d, f.order_by);
    }
}

/// A search word is searched, in the product listing: name, SKU and category, over every
/// one of these columns that the query lists among its search fields, and
/// over no other column.
pub proof fn lemma_product_search(f: FiltersView, c: Column)
    requires
        f.search_word is Some,
        c == Column::Name || c == Column::Sku || c == Column::Category,
        f.search_fields.contains(param_of(c)),
    ensures
        exists|cols: Seq<Column>|
            #![trigger cols.contains(c)]
            spec_product_listing_plan(f).conditions.contains(ConditionView::Search(cols, f.search_word->Some_0))
                && cols.contains(c) && forall|x: Column|
                cols.contains(x) ==> (x == Column::Name || x == Column::Sku || x == Column::Category) && f.search_fields.contains(param_of(x)),
{
    let search = product_search_columns();
    if c == Column::Name {
        assert(search[0] == c);
    }
    if c == Column::Sku {
        assert(search[1] == c);
    }
    if c == Column::Category {
        assert(search[2] == c);
    }
    lemma_plan_search(true, product_filter_defs(), search, product_orders(), Column::CreatedAt, f, c);
}

/// A deleted product is gone for the service: once a delete has stored
/// what it gives, looking the product up, deleting it again or changing
/// its status answers that it is not found. A product that is seen is
/// deleted by keeping it, marked deleted.
pub proof fn lemma_deleted_product_not_found(p: product::Model, now: i64)
    ensures
        visible(Some(soft_deleted(p, now))) is None,
        p.is_deleted == Some(false) ==> visible(Some(p)) == Some(p),
{
}

} // verus!
