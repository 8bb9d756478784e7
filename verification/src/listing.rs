use vstd::prelude::*;

use crate::query_parser::{opt_view, strings_view, FiltersView, PaginatedResponse, ParsedFilters};
use crate::text::str_eq;

verus! {

broadcast use vstd::string::group_string_axioms;

// ---------------------------------------------------------------------------
// What a listing may filter, search and order by
// ---------------------------------------------------------------------------
/// A column that listings filter, search or order by.
#[derive(Debug, Clone, Copy, PartialEq, Eq)]
pub enum Column {
    Name,
    Description,
    Active,
    CreatedAt,
    UpdatedAt,
    Sku,
    Category,
    UserName,
}

/// The query parameter that names a column.
pub open spec fn param_of(c: Column) -> Seq<char> {
    match c {
        Column::Name => "name"@,
        Column::Description => "description"@,
        Column::Active => "active"@,
        Column::CreatedAt => "createdAt"@,
        Column::UpdatedAt => "updatedAt"@,
        Column::Sku => "sku"@,
        Column::Category => "category"@,
        Column::UserName => "userName"@,
    }
}

/// The query parameter that names a column.
pub fn param_name(c: Column) -> (r: &'static str)
    ensures
        r@ == param_of(c),
{
    match c {
        Column::Name => "name",
        Column::Description => "description",
        Column::Active => "active",
        Column::CreatedAt => "createdAt",
        Column::UpdatedAt => "updatedAt",
        Column::Sku => "sku",
        Column::Category => "category",
        Column::UserName => "userName",
    }
}

/// How a filter compares a column with the value asked for.
#[derive(Debug, Clone, Copy, PartialEq, Eq)]
pub enum FilterKind {
    /// The column holds the text, in any case.
    Contains,
    /// The column is the text.
    Equals,
    /// The column is the flag (`active`).
    Flag,
    /// The column lies in the range of the `_start` and `_end` dates.
    DateRange,
}

/// A filter a listing allows.
#[derive(Debug, Clone, Copy, PartialEq, Eq)]
pub struct FilterDef {
    pub column: Column,
    pub kind: FilterKind,
}

/// An ordering a listing allows; case-insensitive orderings compare the
/// column in lower case.
#[derive(Debug, Clone, Copy, PartialEq, Eq)]
pub struct OrderDef {
    pub column: Column,
    pub case_insensitive: bool,
}

// ---------------------------------------------------------------------------
// The plan of a listing query
// ---------------------------------------------------------------------------
/// A condition every listed row meets.
#[derive(Debug, Clone, PartialEq)]
pub enum Condition {
    /// The row is not marked deleted (`is_deleted <> true`).
    NotDeleted,
    /// One of the columns holds the word, in any case.
    Search(Vec<Column>, String),
    /// The column holds the text, in any case.
    Contains(Column, String),
    /// The column is the text.
    Equals(Column, String),
    /// The column is the flag.
    Is(Column, bool),
    /// The column is at or after the time.
    From(Column, i64),
    /// The column is at or before the time.
    Until(Column, i64),
}

pub enum ConditionView {
    NotDeleted,
    Search(Seq<Column>, Seq<char>),
    Contains(Column, Seq<char>),
    Equals(Column, Seq<char>),
    Is(Column, bool),
    From(Column, i64),
    Until(Column, i64),
}

impl View for Condition {
    type V = ConditionView;

    open spec fn view(&self) -> ConditionView {
        match self {
            Condition::NotDeleted => ConditionView::NotDeleted,
            Condition::Search(cs, w) => ConditionView::Search(cs@, w@),
            Condition::Contains(c, v) => ConditionView::Contains(*c, v@),
            Condition::Equals(c, v) => ConditionView::Equals(*c, v@),
            Condition::Is(c, b) => ConditionView::Is(*c, *b),
            Condition::From(c, t) => ConditionView::From(*c, *t),
            Condition::Until(c, t) => ConditionView::Until(*c, *t),
        }
    }
}

pub open spec fn conditions_view(cs: Seq<Condition>) -> Seq<ConditionView> {
    cs.map_values(|c: Condition| c@)
}

/// What a listing query asks of the store: the rows that meet every
/// condition, in the order given (descending or not), the page of `limit`
/// rows after the first `offset`.
#[derive(Debug, Clone)]
pub struct ListingPlan {
    pub conditions: Vec<Condition>,
    pub order: OrderDef,
    pub descending: bool,
    pub offset: u64,
    pub limit: u64,
}

pub struct PlanView {
    pub conditions: Seq<ConditionView>,
    pub order: OrderDef,
    pub descending: bool,
    pub offset: u64,
    pub limit: u64,
}

impl View for ListingPlan {
    type V = PlanView;

    open spec fn view(&self) -> PlanView {
        PlanView {
            conditions: conditions_view(self.conditions@),
            order: self.order,
            descending: self.descending,
            offset: self.offset,
            limit: self.limit,
        }
    }
}

/// The text asked for in a column's filter.
pub open spec fn text_asked(c: Column, f: FiltersView) -> Option<Seq<char>> {
    match c {
        Column::Name => f.name,
        Column::Description => f.description,
        Column::Sku => f.sku,
        Column::Category => f.category,
        _ => None,
    }
}

/// The range of dates asked for in a column's filter.
pub open spec fn range_asked(c: Column, f: FiltersView) -> (Option<i64>, Option<i64>) {
    match c {
        Column::CreatedAt => (f.created_at_start, f.created_at_end),
        Column::UpdatedAt => (f.updated_at_start, f.updated_at_end),
        _ => (None, None),
    }
}

/// The conditions one filter adds: none where nothing is asked of it.
pub open spec fn filter_conditions(d: FilterDef, f: FiltersView) -> Seq<ConditionView> {
    match d.kind {
        FilterKind::Contains => match text_asked(d.column, f) {
            Some(v) => seq![ConditionView::Contains(d.column, v)],
            None => Seq::empty(),
        },
        FilterKind::Equals => match text_asked(d.column, f) {
            Some(v) => seq![ConditionView::Equals(d.column, v)],
            None => Seq::empty(),
        },
        FilterKind::Flag => match f.active {
            Some(b) => seq![ConditionView::Is(d.column, b)],
            None => Seq::empty(),
        },
        FilterKind::DateRange => {
            let (start, end) = range_asked(d.column, f);
            (match start {
                Some(t) => seq![ConditionView::From(d.column, t)],
                None => Seq::empty(),
            }) + (match end {
                Some(t) => seq![ConditionView::Until(d.column, t)],
                None => Seq::empty(),
            })
        },
    }
}

/// The conditions of the filters, one filter after the other.
pub open spec fn all_filter_conditions(ds: Seq<FilterDef>, f: FiltersView) -> Seq<ConditionView>
    decreases ds.len(),
{
    if ds.len() == 0 {
        Seq::empty()
    } else {
        all_filter_conditions(ds.drop_last(), f) + filter_conditions(ds.last(), f)
    }
}

/// The searchable columns that the query lists among its search fields, in
/// the listing's order.
pub open spec fn searched_columns(cs: Seq<Column>, listed: Seq<Seq<char>>) -> Seq<Column>
    decreases cs.len(),
{
    if cs.len() == 0 {
        Seq::empty()
    } else if listed.contains(param_of(cs.last())) {
        searched_columns(cs.drop_last(), listed).push(cs.last())
    } else {
        searched_columns(cs.drop_last(), listed)
    }
}

/// The search condition: a search word over the searchable columns the
/// query lists; none without a word or without such a column.
pub open spec fn search_conditions(cs: Seq<Column>, f: FiltersView) -> Seq<ConditionView> {
    match f.search_word {
        Some(w) => {
            let cols = searched_columns(cs, f.search_fields);
            if cols.len() > 0 {
                seq![ConditionView::Search(cols, w)]
            } else {
                Seq::empty()
            }
        },
        None => Seq::empty(),
    }
}

/// The ordering: the first allowed one on the column the query orders by,
/// else the default column as it is.
pub open spec fn chosen_order(os: Seq<OrderDef>, default: Column, order_by: Option<Seq<char>>) -> OrderDef
    decreases os.len(),
{
    if os.len() == 0 {
        OrderDef { column: default, case_insensitive: false }
    } else if order_by == Some(param_of(os[0].column)) {
        os[0]
    } else {
        chosen_order(os.skip(1), default, order_by)
    }
}

/// The plan of a listing with the given filters, searchable columns,
/// orderings and default ordering column, for the validated query `f`:
/// deleted rows left out where the listing keeps them, then the search, then
/// each filter; descending where the direction is `desc`; the page's rows.
pub open spec fn spec_listing_plan(
    exclude_deleted: bool,
    filters: Seq<FilterDef>,
    search: Seq<Column>,
    orders: Seq<OrderDef>,
    default_order: Column,
    f: FiltersView,
) -> PlanView {
    PlanView {
        conditions: (if exclude_deleted {
            seq![ConditionView::NotDeleted]
        } else {
            Seq::empty()
        }) + search_conditions(search, f) + all_filter_conditions(filters, f),
        order: chosen_order(orders, default_order, f.order_by),
        descending: f.order_direction == "desc"@,
        offset: (f.page * f.size) as u64,
        limit: f.size,
    }
}

// ---------------------------------------------------------------------------
// Laws of plans
// ---------------------------------------------------------------------------
/// Different columns are named by different query parameters.
pub proof fn lemma_params_distinct(c1: Column, c2: Column)
    requires
        c1 != c2,
    ensures
        param_of(c1) != param_of(c2),
{
    reveal_strlit("name");
    reveal_strlit("description");
    reveal_strlit("active");
    reveal_strlit("createdAt");
    reveal_strlit("updatedAt");
    reveal_strlit("sku");
    reveal_strlit("category");
    reveal_strlit("userName");
    if param_of(c1) == param_of(c2) {
        assert(param_of(c1).len() == param_of(c2).len());
        assert(param_of(c1)[0] == param_of(c2)[0]);
    }
}

/// The ordering of a listing is the first allowed one on the column the
/// query orders by.
pub proof fn lemma_order_first_match(os: Seq<OrderDef>, default: Column, order_by: Option<Seq<char>>, i: int)
    requires
        0 <= i < os.len(),
        order_by == Some(param_of(os[i].column)),
        forall|j: int| 0 <= j < i ==> order_by != Some(param_of(#[trigger] os[j].column)),
    ensures
        chosen_order(os, default, order_by) == os[i],
    decreases i,
{
    if i > 0 {
        let rest = os.skip(1);
        assert(order_by != Some(param_of(os[0].column)));
        assert forall|j: int| 0 <= j < i - 1 implies order_by != Some(param_of(#[trigger] rest[j].column)) by {
            assert(rest[j] == os[j + 1]);
        }
        assert(rest[i - 1] == os[i]);
        lemma_order_first_match(rest, default, order_by, i - 1);
    }
}

/// A query that orders by no allowed column is ordered by the default
/// column, as it is.
pub proof fn lemma_order_default(os: Seq<OrderDef>, default: Column, order_by: Option<Seq<char>>)
    requires
        forall|j: int| 0 <= j < os.len() ==> order_by != Some(param_of(#[trigger] os[j].column)),
    ensures
        chosen_order(os, default, order_by) == (OrderDef { column: default, case_insensitive: false }),
    decreases os.len(),
{
    if os.len() > 0 {
        let rest = os.skip(1);
        assert(order_by != Some(param_of(os[0].column)));
        assert forall|j: int| 0 <= j < rest.len() implies order_by != Some(param_of(#[trigger] rest[j].column)) by {
            assert(rest[j] == os[j + 1]);
        }
        lemma_order_default(rest, default, order_by);
    }
}

/// Each condition of each filter stands among the conditions of all the
/// filters.
pub proof fn lemma_filter_condition_kept(ds: Seq<FilterDef>, f: FiltersView, i: int, c: ConditionView)
    requires
        0 <= i < ds.len(),
        filter_conditions(ds[i], f).contains(c),
    ensures
        all_filter_conditions(ds, f).contains(c),
    decreases ds.len(),
{
    let before = all_filter_conditions(ds.drop_last(), f);
    let last = filter_conditions(ds.last(), f);
    assert(all_filter_conditions(ds, f) == before + last);
    if i == ds.len() - 1 {
        let k = choose|k: int| 0 <= k < last.len() && last[k] == c;
        assert((before + last)[before.len() + k] == c);
    } else {
        assert(ds.drop_last()[i] == ds[i]);
        lemma_filter_condition_kept(ds.drop_last(), f, i, c);
        let k = choose|k: int| 0 <= k < before.len() && before[k] == c;
        assert((before + last)[k] == c);
    }
}

/// Every condition that an allowed filter draws from the query stands in
/// the listing's plan, whatever else the plan holds.
pub proof fn lemma_plan_keeps_filter(
    exclude_deleted: bool,
    ds: Seq<FilterDef>,
    search: Seq<Column>,
    orders: Seq<OrderDef>,
    default: Column,
    f: FiltersView,
    i: int,
    c: ConditionView,
)
    requires
        0 <= i < ds.len(),
        filter_conditions(ds[i], f).contains(c),
    ensures
        spec_listing_plan(exclude_deleted, ds, search, orders, default, f).conditions.contains(c),
{
    lemma_filter_condition_kept(ds, f, i, c);
    let head = (if exclude_deleted {
        seq![ConditionView::NotDeleted]
    } else {
        Seq::<ConditionView>::empty()
    }) + search_conditions(search, f);
    let all = all_filter_conditions(ds, f);
    let k = choose|k: int| 0 <= k < all.len() && all[k] == c;
    assert((head + all)[head.len() + k] == c);
}

/// The columns a search covers are exactly the searchable columns that the
/// query lists.
pub proof fn lemma_searched_columns(cs: Seq<Column>, listed: Seq<Seq<char>>, c: Column)
    ensures
        searched_columns(cs, listed).contains(c) <==> (cs.contains(c) && listed.contains(param_of(c))),
    decreases cs.len(),
{
    if cs.len() > 0 {
        let rest = cs.drop_last();
        lemma_searched_columns(rest, listed, c);
        let before = searched_columns(rest, listed);
        if cs.contains(c) && listed.contains(param_of(c)) {
            let i = choose|i: int| 0 <= i < cs.len() && cs[i] == c;
            if i < cs.len() - 1 {
                assert(rest[i] == c);
                let k = choose|k: int| 0 <= k < before.len() && before[k] == c;
                if listed.contains(param_of(cs.last())) {
                    assert(before.push(cs.last())[k] == c);
                }
            } else {
                assert(searched_columns(cs, listed) == before.push(c));
                assert(before.push(c)[before.len() as int] == c);
            }
        }
        if searched_columns(cs, listed).contains(c) {
            let k = choose|k: int| 0 <= k < searched_columns(cs, listed).len() && searched_columns(cs, listed)[k] == c;
            if listed.contains(param_of(cs.last())) && k == before.len() {
                assert(cs[cs.len() - 1] == c);
            } else {
                assert(before[k] == c);
                let i = choose|i: int| 0 <= i < rest.len() && rest[i] == c;
                assert(cs[i] == c);
            }
        }
    }
}

/// With a search word, the plan searches it over every searchable column
/// that the query lists, and over no other column.
pub proof fn lemma_plan_search(
    exclude_deleted: bool,
    ds: Seq<FilterDef>,
    search: Seq<Column>,
    orders: Seq<OrderDef>,
    default: Column,
    f: FiltersView,
    c: Column,
)
    requires
        f.search_word is Some,
        search.contains(c),
        f.search_fields.contains(param_of(c)),
    ensures
        exists|cols: Seq<Column>|
            #![trigger cols.contains(c)]
            spec_listing_plan(exclude_deleted, ds, search, orders, default, f).conditions.contains(
                ConditionView::Search(cols, f.search_word->Some_0),
            ) && cols.contains(c) && forall|x: Column|
                cols.contains(x) ==> search.contains(x) && f.search_fields.contains(param_of(x)),
{
    let w = f.search_word->Some_0;
    let cols = searched_columns(search, f.search_fields);
    lemma_searched_columns(search, f.search_fields, c);
    assert forall|x: Column| cols.contains(x) implies search.contains(x) && f.search_fields.contains(
        param_of(x),
    ) by {
        lemma_searched_columns(search, f.search_fields, x);
    }
    let head = if exclude_deleted {
        seq![ConditionView::NotDeleted]
    } else {
        Seq::<ConditionView>::empty()
    };
    let sc = search_conditions(search, f);
    assert(sc == seq![ConditionView::Search(cols, w)]);
    let conds = spec_listing_plan(exclude_deleted, ds, search, orders, default, f).conditions;
    assert(conds == head + sc + all_filter_conditions(ds, f));
    assert(conds[head.len() as int] == ConditionView::Search(cols, w));
}

// ---------------------------------------------------------------------------
// Building the plan
// ---------------------------------------------------------------------------
fn text_asked_exec(c: Column, f: &ParsedFilters) -> (r: Option<String>)
    ensures
        opt_view(r) == text_asked(c, f@),
{
    let v = match c {
        Column::Name => &f.name,
        Column::Description => &f.description,
        Column::Sku => &f.sku,
        Column::Category => &f.category,
        _ => {
            return None;
        },
    };
    match v {
        Some(s) => Some(s.clone()),
        None => None,
    }
}

fn push_condition(out: &mut Vec<Condition>, c: Condition)
    ensures
        conditions_view(final(out)@) == conditions_view(old(out)@).push(c@),
{
    let ghost before = out@;
    out.push(c);
    assert(out@ == before.push(c));
    assert(conditions_view(out@) =~= conditions_view(before).push(c@));
}

fn push_filter_conditions(out: &mut Vec<Condition>, d: FilterDef, f: &ParsedFilters)
    ensures
        conditions_view(final(out)@) == conditions_view(old(out)@) + filter_conditions(d, f@),
{
    let ghost start = conditions_view(out@);
    match d.kind {
        FilterKind::Contains => match text_asked_exec(d.column, f) {
            Some(v) => push_condition(out, Condition::Contains(d.column, v)),
            None => {},
        },
        FilterKind::Equals => match text_asked_exec(d.column, f) {
            Some(v) => push_condition(out, Condition::Equals(d.column, v)),
            None => {},
        },
        FilterKind::Flag => match f.active {
            Some(b) => push_condition(out, Condition::Is(d.column, b)),
            None => {},
        },
        FilterKind::DateRange => {
            let (start_at, end_at) = match d.column {
                Column::CreatedAt => (f.created_at_start, f.created_at_end),
                Column::UpdatedAt => (f.updated_at_start, f.updated_at_end),
                _ => (None, None),
            };
            match start_at {
                Some(t) => push_condition(out, Condition::From(d.column, t)),
                None => {},
            }
            match end_at {
                Some(t) => push_condition(out, Condition::Until(d.column, t)),
                None => {},
            }
        },
    }
    assert(conditions_view(out@) =~= start + filter_conditions(d, f@));
}

/// Whether `x` is among the texts `v`.
fn listed_in(v: &Vec<String>, x: &str) -> (r: bool)
    ensures
        r == strings_view(v@).contains(x@),
{
    let mut i: usize = 0;
    while i < v.len()
        invariant
            0 <= i <= v@.len(),
            forall|j: int| 0 <= j < i ==> #[trigger] v@[j]@ != x@,
        decreases v@.len() - i,
    {
        if str_eq(v[i].as_str(), x) {
            assert(strings_view(v@)[i as int] == x@);
            return true;
        }
        i = i + 1;
    }
    assert(!strings_view(v@).contains(x@)) by {
        if strings_view(v@).contains(x@) {
            let j = choose|j: int| 0 <= j < strings_view(v@).len() && strings_view(v@)[j] == x@;
            assert(v@[j]@ == x@);
        }
    }
    false
}

/// The plan of a listing query: deleted rows left out where
/// `exclude_deleted`, the search over the searchable columns the query
/// lists, each allowed filter the query asks for, the ordering on the
/// allowed column the query orders by (else `default_order`), and the page.
pub fn listing_plan(
    exclude_deleted: bool,
    filters: &Vec<FilterDef>,
    search: &Vec<Column>,
    orders: &Vec<OrderDef>,
    default_order: Column,
    f: &ParsedFilters,
) -> (p: ListingPlan)
    requires
        f.page * f.size <= u64::MAX,
    ensures
        p@ == spec_listing_plan(exclude_deleted, filters@, search@, orders@, default_order, f@),
{
    let mut conditions: Vec<Condition> = Vec::new();
    if exclude_deleted {
        push_condition(&mut conditions, Condition::NotDeleted);
    }
    let ghost c0 = conditions_view(conditions@);
    // the search
    match &f.search_word {
        Some(w) => {
            let mut cols: Vec<Column> = Vec::new();
            for i in 0..search.len()
                invariant
                    cols@ == searched_columns(search@.take(i as int), f@.search_fields),
            {
                proof {
                    assert(search@.take(i + 1).drop_last() =~= search@.take(i as int));
                    assert(search@.take(i + 1).last() == search@[i as int]);
                }
                let c = search[i];
                if listed_in(&f.search_fields, param_name(c)) {
                    cols.push(c);
                }
            }
            assert(search@.take(search@.len() as int) =~= search@);
            if cols.len() > 0 {
                push_condition(&mut conditions, Condition::Search(cols, w.clone()));
            }
        },
        None => {},
    }
    assert(conditions_view(conditions@) =~= c0 + search_conditions(search@, f@));
    let ghost c1 = conditions_view(conditions@);
    // the filters
    for i in 0..filters.len()
        invariant
            conditions_view(conditions@) == c1 + all_filter_conditions(filters@.take(i as int), f@),
    {
        proof {
            assert(filters@.take(i + 1).drop_last() =~= filters@.take(i as int));
            assert(filters@.take(i + 1).last() == filters@[i as int]);
        }
        push_filter_conditions(&mut conditions, filters[i], f);
        assert(c1 + all_filter_conditions(filters@.take(i + 1), f@) =~= c1
            + all_filter_conditions(filters@.take(i as int), f@) + filter_conditions(filters@[i as int], f@));
    }
    assert(filters@.take(filters@.len() as int) =~= filters@);
    // the ordering
    let mut order = OrderDef { column: default_order, case_insensitive: false };
    let mut k: usize = 0;
    let mut found = false;
    assert(orders@.skip(0) =~= orders@);
    while k < orders.len() && !found
        invariant
            0 <= k <= orders@.len(),
            found ==> order == chosen_order(orders@, default_order, f@.order_by),
            !found ==> chosen_order(orders@, default_order, f@.order_by) == chosen_order(
                orders@.skip(k as int),
                default_order,
                f@.order_by,
            ),
            !found ==> order == (OrderDef { column: default_order, case_insensitive: false }),
        decreases orders@.len() - k,
    {
        let d = orders[k];
        let matches = match &f.order_by {
            Some(o) => str_eq(o.as_str(), param_name(d.column)),
            None => false,
        };
        proof {
            assert(orders@.skip(k as int)[0] == d);
            assert(orders@.skip(k as int).skip(1) =~= orders@.skip(k + 1));
        }
        if matches {
            order = d;
            found = true;
        }
        k = k + 1;
    }
    proof {
        if !found {
            assert(orders@.skip(orders@.len() as int).len() == 0);
            assert(chosen_order(orders@.skip(orders@.len() as int), default_order, f@.order_by)
                == (OrderDef { column: default_order, case_insensitive: false }));
        }
    }
    let descending = str_eq(f.order_direction.as_str(), "desc");
    let p = ListingPlan { conditions, order, descending, offset: f.page * f.size, limit: f.size };
    assert(p@.conditions == spec_listing_plan(exclude_deleted, filters@, search@, orders@, default_order, f@).conditions);
    p
}

// ---------------------------------------------------------------------------
// Pages
// ---------------------------------------------------------------------------
/// A page of a listing: its items, the number of rows that meet the
/// conditions, and the page and size asked for.
pub fn page_of<T>(items: Vec<T>, total: u64, f: &ParsedFilters) -> (r: PaginatedResponse<T>)
    ensures
        r.items == items,
        r.total == total,
        r.page == f.page,
        r.size == f.size,
{
    PaginatedResponse { items, total, page: f.page, size: f.size }
}

/// What chrono writes for an instant, given in seconds since the epoch, in
/// RFC 3339 form in UTC.
pub uninterp spec fn rfc3339_utc(seconds: i64) -> Seq<char>;

/// An instant that chrono can represent: well within its years -262143 to
/// 262142.
pub open spec fn time_in_range(seconds: i64) -> bool {
    -8_000_000_000_000 <= seconds <= 8_000_000_000_000
}

/// Calls chrono's `DateTime::<Utc>::from_timestamp(seconds, 0)` and writes
/// the instant with `to_rfc3339`. The text is named `rfc3339_utc`; within
/// `time_in_range` chrono represents every instant, so the instant always
/// exists.
#[verifier::external_body]
pub(crate) fn format_rfc3339(seconds: i64) -> (r: String)
    requires
        time_in_range(seconds),
    ensures
        r@ == rfc3339_utc(seconds),
{
    match chrono::DateTime::<chrono::Utc>::from_timestamp(seconds, 0) {
        Some(t) => t.to_rfc3339(),
        None => String::new(),
    }
}

} // verus!
