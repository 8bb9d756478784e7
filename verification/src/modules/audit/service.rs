use vstd::prelude::*;

use crate::listing::{
    conditions_view, filter_conditions, Column, Condition, ConditionView, FilterDef, FilterKind,
    ListingPlan, OrderDef, PlanView,
};
use crate::query_parser::{FiltersView, ParsedFilters};
use crate::text::{concat3, lowercase, spec_lowercase};

verus! {

broadcast use vstd::string::group_string_axioms;

/// Lists the audit trail.
pub struct AuditModuleService;

/// The plan of the audit listing: a search word over the user name, in any
/// case; the creation date range; newest first; the page asked for.
pub open spec fn spec_audit_listing_plan(f: FiltersView) -> PlanView {
    PlanView {
        conditions: (match f.search_word {
            Some(w) => seq![ConditionView::Search(seq![Column::UserName], w)],
            None => Seq::empty(),
        }) + filter_conditions(
            FilterDef { column: Column::CreatedAt, kind: FilterKind::DateRange },
            f,
        ),
        order: OrderDef { column: Column::CreatedAt, case_insensitive: false },
        descending: true,
        offset: (f.page * f.size) as u64,
        limit: f.size,
    }
}

impl AuditModuleService {
    /// The number of records before a page.
    pub fn page_offset(page: u64, size: u64) -> (r: u64)
        requires
            page * size <= u64::MAX,
        ensures
            r == page * size,
    {
        page * size
    }

    /// The plan of an audit listing for a validated query.
    pub fn audit_listing_plan(filters: &ParsedFilters) -> (p: ListingPlan)
        requires
            filters.page * filters.size <= u64::MAX,
        ensures
            p@ == spec_audit_listing_plan(filters@),
    {
        let mut conditions: Vec<Condition> = Vec::new();
        match &filters.search_word {
            Some(w) => {
                let mut cols: Vec<Column> = Vec::new();
                cols.push(Column::UserName);
                assert(cols@ =~= seq![Column::UserName]);
                conditions.push(Condition::Search(cols, w.clone()));
            },
            None => {},
        }
        let ghost before = conditions@;
        match filters.created_at_start {
            Some(t) => conditions.push(Condition::From(Column::CreatedAt, t)),
            None => {},
        }
        match filters.created_at_end {
            Some(t) => conditions.push(Condition::Until(Column::CreatedAt, t)),
            None => {},
        }
        assert(conditions_view(conditions@) =~= spec_audit_listing_plan(filters@).conditions);
        ListingPlan {
            conditions,
            order: OrderDef { column: Column::CreatedAt, case_insensitive: false },
            descending: true,
            offset: Self::page_offset(filters.page, filters.size),
            limit: filters.size,
        }
    }

    /// The pattern that finds a search word anywhere in a user name, in any
    /// case.
    pub fn user_name_pattern(word: &str) -> (r: String)
        ensures
            r@ == "%"@ + spec_lowercase(word@) + "%"@,
    {
        let lower = lowercase(word);
        concat3("%", lower.as_str(), "%")
    }
}

/// What the audit listing asks of the store: the search word the query
/// gives over the user name; every creation-date bound the query gives
/// (records created at or after the start, at or before the end); newest
/// first; the page asked for.
pub proof fn lemma_audit_listing_plan(f: FiltersView)
    ensures
        ({
            let p = spec_audit_listing_plan(f);
            &&& (f.search_word matches Some(w) ==> p.conditions.contains(
                ConditionView::Search(seq![Column::UserName], w),
            ))
            &&& (f.created_at_start matches Some(t) ==> p.conditions.contains(
                ConditionView::From(Column::CreatedAt, t),
            ))
            &&& (f.created_at_end matches Some(t) ==> p.conditions.contains(
                ConditionView::Until(Column::CreatedAt, t),
            ))
            &&& p.order == OrderDef { column: Column::CreatedAt, case_insensitive: false }
            &&& p.descending
            &&& p.limit == f.size
            &&& (f.page * f.size <= u64::MAX ==> p.offset == f.page * f.size)
        }),
{
    let p = spec_audit_listing_plan(f);
    let head = match f.search_word {
        Some(w) => seq![ConditionView::Search(seq![Column::UserName], w)],
        None => Seq::<ConditionView>::empty(),
    };
    let dates = filter_conditions(FilterDef { column: Column::CreatedAt, kind: FilterKind::DateRange }, f);
    assert(p.conditions == head + dates);
    if let Some(w) = f.search_word {
        assert(p.conditions[0] == ConditionView::Search(seq![Column::UserName], w));
    }
    if let Some(t) = f.created_at_start {
        assert(dates[0] == ConditionView::From(Column::CreatedAt, t));
        assert(p.conditions[head.len() as int] == ConditionView::From(Column::CreatedAt, t));
    }
    if let Some(t) = f.created_at_end {
        let k = dates.len() - 1;
        assert(dates[k] == ConditionView::Until(Column::CreatedAt, t));
        assert(p.conditions[head.len() + k] == ConditionView::Until(Column::CreatedAt, t));
    }
}

} // verus!
