use vstd::prelude::*;

use crate::errors::{AppError, ErrorKind};
use crate::text::{
    chars_of, concat3, copy_range, ends_with, has_suffix, list_contains, listed,
    parse_unsigned, parse_unsigned_chars, split_chars, split_on, str_eq, string_of, trim,
    trim_chars, views_of,
};

verus! {

broadcast use vstd::string::group_string_axioms;

// ---------------------------------------------------------------------------
// Types
// ---------------------------------------------------------------------------
/// The query parameters a listing endpoint may receive.
#[allow(non_snake_case)]
#[derive(Debug, Clone)]
pub struct FilterParams {
    pub page: Option<u64>,
    pub size: Option<u64>,
    pub searchWord: Option<String>,
    pub searchFields: Option<String>,
    pub orderBy: Option<String>,
    pub orderDirection: Option<String>,
    pub ignoreDefaultFilters: Option<String>,
    pub active: Option<String>,
    pub createdAt_start: Option<String>,
    pub createdAt_end: Option<String>,
    pub updatedAt_start: Option<String>,
    pub updatedAt_end: Option<String>,
    pub name: Option<String>,
    pub email: Option<String>,
    pub role_name: Option<String>,
    pub sku: Option<String>,
    pub category: Option<String>,
    pub description: Option<String>,
}

/// One page of a listing.
#[derive(Debug, Clone)]
pub struct PaginatedResponse<T> {
    pub items: Vec<T>,
    pub total: u64,
    pub page: u64,
    pub size: u64,
}

/// Validates the query parameters of listing endpoints.
pub struct QueryValidator;

/// The validated form of a listing's query parameters. Dates are UTC Unix
/// timestamps in seconds.
#[derive(Debug, Clone)]
pub struct ParsedFilters {
    pub page: u64,
    pub size: u64,
    pub search_word: Option<String>,
    pub search_fields: Vec<String>,
    pub order_by: Option<String>,
    pub order_direction: String,
    pub active: Option<bool>,
    pub created_at_start: Option<i64>,
    pub created_at_end: Option<i64>,
    pub updated_at_start: Option<i64>,
    pub updated_at_end: Option<i64>,
    pub name: Option<String>,
    pub email: Option<String>,
    pub role_name: Option<String>,
    pub sku: Option<String>,
    pub category: Option<String>,
    pub description: Option<String>,
}

/// `ParsedFilters` with its strings taken as character sequences.
pub struct FiltersView {
    pub page: u64,
    pub size: u64,
    pub search_word: Option<Seq<char>>,
    pub search_fields: Seq<Seq<char>>,
    pub order_by: Option<Seq<char>>,
    pub order_direction: Seq<char>,
    pub active: Option<bool>,
    pub created_at_start: Option<i64>,
    pub created_at_end: Option<i64>,
    pub updated_at_start: Option<i64>,
    pub updated_at_end: Option<i64>,
    pub name: Option<Seq<char>>,
    pub email: Option<Seq<char>>,
    pub role_name: Option<Seq<char>>,
    pub sku: Option<Seq<char>>,
    pub category: Option<Seq<char>>,
    pub description: Option<Seq<char>>,
}

pub open spec fn opt_view(o: Option<String>) -> Option<Seq<char>> {
    match o {
        Some(s) => Some(s@),
        None => None,
    }
}

pub open spec fn strings_view(v: Seq<String>) -> Seq<Seq<char>> {
    v.map_values(|s: String| s@)
}

impl View for ParsedFilters {
    type V = FiltersView;

    open spec fn view(&self) -> FiltersView {
        FiltersView {
            page: self.page,
            size: self.size,
            search_word: opt_view(self.search_word),
            search_fields: strings_view(self.search_fields@),
            order_by: opt_view(self.order_by),
            order_direction: self.order_direction@,
            active: self.active,
            created_at_start: self.created_at_start,
            created_at_end: self.created_at_end,
            updated_at_start: self.updated_at_start,
            updated_at_end: self.updated_at_end,
            name: opt_view(self.name),
            email: opt_view(self.email),
            role_name: opt_view(self.role_name),
            sku: opt_view(self.sku),
            category: opt_view(self.category),
            description: opt_view(self.description),
        }
    }
}

// ---------------------------------------------------------------------------
// Dates
// ---------------------------------------------------------------------------
/// The UTC Unix timestamp, in seconds, of midnight at the start of the
/// calendar date that `text` spells as `YYYY-MM-DD`, as chrono's
/// `NaiveDate::parse_from_str(text, "%Y-%m-%d")` reads it; `None` where that
/// parse fails.
pub uninterp spec fn date_midnight_utc(text: Seq<char>) -> Option<i64>;

/// Calls chrono's `NaiveDate::parse_from_str(text, "%Y-%m-%d")` and turns the
/// date into the timestamp of its first second (`and_hms_opt(0, 0, 0)`,
/// `and_utc`, `timestamp`). The result is named `date_midnight_utc`; that it
/// lies far from the ends of `i64` follows from chrono's documented date
/// range (years -262143 to 262142).
#[verifier::external_body]
fn parse_date_midnight(text: &str) -> (r: Option<i64>)
    ensures
        r == date_midnight_utc(text@),
        r matches Some(t) ==> -10_000_000_000_000 <= t <= 10_000_000_000_000,
{
    match chrono::NaiveDate::parse_from_str(text, "%Y-%m-%d") {
        Ok(d) => d.and_hms_opt(0, 0, 0).map(|dt| dt.and_utc().timestamp()),
        Err(_) => None,
    }
}

/// The last second of a day, counted from its first second.
pub open spec fn end_of_day_offset() -> i64 {
    86399
}

/// The bound of a date range, from the first second of its day: that
/// second itself, or the day's last second for the end of a range.
pub open spec fn date_from_midnight(midnight: Option<i64>, end_of_day: bool) -> Option<i64> {
    match midnight {
        None => None,
        Some(t) => Some(
            if end_of_day {
                (t + end_of_day_offset()) as i64
            } else {
                t
            },
        ),
    }
}

/// A date parameter: absent, a timestamp (the first or the last second of
/// the day), or refused.
pub open spec fn date_value(raw: Option<Seq<char>>, end_of_day: bool) -> Result<Option<i64>, ()> {
    match raw {
        None => Ok(None),
        Some(v) => match date_midnight_utc(v) {
            Some(t) => Ok(date_from_midnight(Some(t), end_of_day)),
        None => Err(()),
        },
    }
}

// ---------------------------------------------------------------------------
// The rules, over the parameters as given
// ---------------------------------------------------------------------------
/// Index `i` holds the first parameter named `key`.
pub open spec fn first_with_key(ps: Seq<(String, String)>, key: Seq<char>, i: int) -> bool {
    &&& 0 <= i < ps.len()
    &&& ps[i].0@ == key
    &&& forall|j: int| 0 <= j < i ==> #[trigger] ps[j].0@ != key
}

/// The value of the parameter named `key`, if there is one.
pub open spec fn lookup(ps: Seq<(String, String)>, key: Seq<char>) -> Option<Seq<char>> {
    if exists|i: int| first_with_key(ps, key, i) {
        Some(ps[choose|i: int| first_with_key(ps, key, i)].1@)
    } else {
        None
    }
}

/// A value, where it is not empty.
pub open spec fn nonempty(o: Option<Seq<char>>) -> Option<Seq<char>> {
    match o {
        Some(s) => if s.len() > 0 {
            Some(s)
        } else {
            None
        },
        None => None,
    }
}

/// The search fields that were asked for, trimmed, empty ones left out; or
/// the first one that may not be searched.
pub open spec fn check_search_fields(pieces: Seq<Seq<char>>, allowed: Seq<&str>) -> Result<
    Seq<Seq<char>>,
    Seq<char>,
>
    decreases pieces.len(),
{
    if pieces.len() == 0 {
        Ok(Seq::empty())
    } else {
        match check_search_fields(pieces.drop_last(), allowed) {
            Err(f) => Err(f),
            Ok(acc) => {
                let t = trim(pieces.last());
                if t.len() == 0 {
                    Ok(acc)
                } else if listed(allowed, t) {
                    Ok(acc.push(t))
                } else {
                    Err(t)
                }
            },
        }
    }
}

/// The parameters that are not filters.
pub open spec fn is_reserved_key(k: Seq<char>) -> bool {
    ||| k == "page"@
    ||| k == "size"@
    ||| k == "searchWord"@
    ||| k == "searchFields"@
    ||| k == "orderBy"@
    ||| k == "orderDirection"@
    ||| k == "ignoreDefaultFilters"@
}

/// The field a filter parameter names: its name without a `_start` or `_end`
/// suffix.
pub open spec fn filter_key_base(k: Seq<char>) -> Seq<char> {
    if has_suffix(k, "_start"@) {
        k.take(k.len() - 6)
    } else if has_suffix(k, "_end"@) {
        k.take(k.len() - 4)
    } else {
        k
    }
}

/// A non-empty filter on a field that the resource does not allow.
pub open spec fn filter_refused(p: (String, String), allowed: Seq<&str>) -> bool {
    &&& p.1@.len() > 0
    &&& !is_reserved_key(p.0@)
    &&& !listed(allowed, filter_key_base(p.0@))
}

/// The field of the first refused filter, in the order the parameters come.
pub open spec fn first_refused_filter(ps: Seq<(String, String)>, allowed: Seq<&str>) -> Option<
    Seq<char>,
>
    decreases ps.len(),
{
    if ps.len() == 0 {
        None
    } else {
        match first_refused_filter(ps.drop_last(), allowed) {
            Some(k) => Some(k),
            None => if filter_refused(ps.last(), allowed) {
                Some(filter_key_base(ps.last().0@))
            } else {
                None
            },
        }
    }
}

/// An ordering field that the resource does not allow.
pub open spec fn order_refused(order_by: Option<Seq<char>>, allowed: Seq<&str>) -> bool {
    match order_by {
        Some(f) => !listed(allowed, f) && f != "created_at"@ && f != "updated_at"@,
        None => false,
    }
}

/// A page number or size: the parameter read as a `u64`, else the default.
pub open spec fn number_value(raw: Option<Seq<char>>, default: u64) -> u64 {
    match raw {
        Some(p) => match parse_unsigned(p, u64::MAX as int) {
            Some(v) => v as u64,
            None => default,
        },
        None => default,
    }
}

/// A `true` flag: the text `true` or `1`.
pub open spec fn is_true_text(s: Seq<char>) -> bool {
    s == "true"@ || s == "1"@
}

pub open spec fn ignore_default_value(raw: Option<Seq<char>>) -> bool {
    match raw {
        Some(v) => is_true_text(v),
        None => false,
    }
}

/// The `active` filter: as given, or `true` by default unless default
/// filters are switched off.
pub open spec fn active_value(raw: Option<Seq<char>>, ignore_default: bool) -> Option<bool> {
    match raw {
        Some(s) => if s.len() == 0 {
            None
        } else {
            Some(is_true_text(s))
        },
        None => if !ignore_default {
            Some(true)
        } else {
            None
        },
    }
}

pub open spec fn bad_request(m: Seq<char>) -> (ErrorKind, Seq<char>) {
    (ErrorKind::BadRequest, m)
}

pub open spec fn msg_search_fields_required() -> Seq<char> {
    "O parâmetro \"searchFields\" é obrigatório quando \"searchWord\" é fornecido."@
}

pub open spec fn msg_search_field(f: Seq<char>) -> Seq<char> {
    "O campo '"@ + f + "' não está disponível para pesquisa global."@
}

pub open spec fn msg_filter(k: Seq<char>) -> Seq<char> {
    "O filtro '"@ + k + "' não é permitido para este recurso."@
}

pub open spec fn msg_order(f: Seq<char>) -> Seq<char> {
    "A ordenação pelo campo '"@ + f + "' não é permitida."@
}

pub open spec fn msg_page_size() -> Seq<char> {
    "O tamanho máximo da página é 100 itens."@
}

pub open spec fn msg_date(name: Seq<char>) -> Seq<char> {
    "Formato de '"@ + name + "' inválido. Use YYYY-MM-DD."@
}

/// The largest page size a listing serves.
pub open spec fn max_page_size() -> u64 {
    100
}

/// The page size when none is asked for.
pub open spec fn default_page_size() -> u64 {
    25
}

/// The four date filters, in the order they are checked; the first that
/// fails to parse is reported.
pub open spec fn spec_dates(ps: Seq<(String, String)>) -> Result<
    (Option<i64>, Option<i64>, Option<i64>, Option<i64>),
    Seq<char>,
> {
    let cs = date_value(lookup(ps, "createdAt_start"@), false);
    let ce = date_value(lookup(ps, "createdAt_end"@), true);
    let us = date_value(lookup(ps, "updatedAt_start"@), false);
    let ue = date_value(lookup(ps, "updatedAt_end"@), true);
    if cs is Err {
        Err(msg_date("createdAt_start"@))
    } else if ce is Err {
        Err(msg_date("createdAt_end"@))
    } else if us is Err {
        Err(msg_date("updatedAt_start"@))
    } else if ue is Err {
        Err(msg_date("updatedAt_end"@))
    } else {
        Ok((cs->Ok_0, ce->Ok_0, us->Ok_0, ue->Ok_0))
    }
}

/// What `validate_and_parse` gives for the parameters `ps`: the first rule
/// that they break, in the order the rules are checked, or the filters.
pub open spec fn spec_validate_and_parse(
    ps: Seq<(String, String)>,
    search: Seq<&str>,
    filterable: Seq<&str>,
) -> Result<FiltersView, (ErrorKind, Seq<char>)> {
    let search_word = nonempty(lookup(ps, "searchWord"@));
    let fields_raw = nonempty(lookup(ps, "searchFields"@));
    let fields = match fields_raw {
        Some(s) => check_search_fields(split_on(s, ','), search),
        None => Ok(Seq::empty()),
    };
    let order_by = nonempty(lookup(ps, "orderBy"@));
    let page = number_value(lookup(ps, "page"@), 0);
    let size = number_value(lookup(ps, "size"@), default_page_size());
    let ignore = ignore_default_value(lookup(ps, "ignoreDefaultFilters"@));
    if search_word is Some && fields_raw is None {
        Err(bad_request(msg_search_fields_required()))
    } else if fields is Err {
        Err(bad_request(msg_search_field(fields->Err_0)))
    } else if first_refused_filter(ps, filterable) is Some {
        Err(bad_request(msg_filter(first_refused_filter(ps, filterable)->Some_0)))
    } else if order_refused(order_by, filterable) {
        Err(bad_request(msg_order(order_by->Some_0)))
    } else if size > max_page_size() {
        Err(bad_request(msg_page_size()))
    } else if spec_dates(ps) is Err {
        Err(bad_request(spec_dates(ps)->Err_0))
    } else {
        let dates = spec_dates(ps)->Ok_0;
        Ok(
            FiltersView {
                page: page,
                size: size,
                search_word: search_word,
                search_fields: fields->Ok_0,
                order_by: order_by,
                order_direction: match lookup(ps, "orderDirection"@) {
                    Some(d) => d,
                    None => "asc"@,
                },
                active: active_value(lookup(ps, "active"@), ignore),
                created_at_start: dates.0,
                created_at_end: dates.1,
                updated_at_start: dates.2,
                updated_at_end: dates.3,
                name: nonempty(lookup(ps, "name"@)),
                email: nonempty(lookup(ps, "email"@)),
                role_name: nonempty(lookup(ps, "Role.name"@)),
                sku: nonempty(lookup(ps, "sku"@)),
                category: nonempty(lookup(ps, "category"@)),
                description: nonempty(lookup(ps, "description"@)),
            },
        )
    }
}

/// The view of an outcome.
pub open spec fn outcome_view(r: Result<ParsedFilters, AppError>) -> Result<
    FiltersView,
    (ErrorKind, Seq<char>),
> {
    match r {
        Ok(f) => Ok(f@),
        Err(e) => Err(e@),
    }
}

// ---------------------------------------------------------------------------
// Implementation
// ---------------------------------------------------------------------------
/// The value of the parameter named `key`.
pub fn param_get(ps: &Vec<(String, String)>, key: &str) -> (r: Option<String>)
    ensures
        opt_view(r) == lookup(ps@, key@),
{
    let mut i: usize = 0;
    while i < ps.len()
        invariant
            0 <= i <= ps@.len(),
            forall|j: int| 0 <= j < i ==> #[trigger] ps@[j].0@ != key@,
        decreases ps@.len() - i,
    {
        if str_eq(ps[i].0.as_str(), key) {
            assert(first_with_key(ps@, key@, i as int));
            let ghost k = choose|k: int| first_with_key(ps@, key@, k);
            assert(k == i) by {
                if k < i {
                    assert(ps@[k].0@ != key@);
                } else if k > i {
                    assert(ps@[i as int].0@ != key@);
                }
            }
            return Some(ps[i].1.clone());
        }
        i = i + 1;
    }
    assert(!exists|k: int| first_with_key(ps@, key@, k)) by {
        if exists|k: int| first_with_key(ps@, key@, k) {
            let k = choose|k: int| first_with_key(ps@, key@, k);
            assert(ps@[k].0@ != key@);
        }
    }
    None
}

/// The value of the parameter named `key`, where it is not empty.
pub fn param_nonempty(ps: &Vec<(String, String)>, key: &str) -> (r: Option<String>)
    ensures
        opt_view(r) == nonempty(lookup(ps@, key@)),
{
    match param_get(ps, key) {
        Some(v) => if v.as_str().is_empty() {
            None
        } else {
            Some(v)
        },
        None => None,
    }
}

/// The search fields of `raw` (a comma-separated list), or the bad request
/// that names the first one that may not be searched.
fn parse_search_fields(raw: &String, allowed: &[&str]) -> (r: Result<Vec<String>, AppError>)
    ensures
        match check_search_fields(split_on(raw@, ','), allowed@) {
            Ok(fs) => r matches Ok(v) && strings_view(v@) == fs,
            Err(f) => r matches Err(e) && e@ == bad_request(msg_search_field(f)),
        },
{
    let cs = chars_of(raw.as_str());
    let pieces = split_chars(&cs, ',');
    let ghost all = split_on(raw@, ',');
    let mut out: Vec<String> = Vec::new();
    let mut i: usize = 0;
    assert(all.take(0) =~= Seq::<Seq<char>>::empty());
    assert(strings_view(out@) =~= Seq::<Seq<char>>::empty());
    while i < pieces.len()
        invariant
            views_of(pieces@) == all,
            all == split_on(raw@, ','),
            0 <= i <= pieces@.len(),
            check_search_fields(all.take(i as int), allowed@) == Ok::<
                Seq<Seq<char>>,
                Seq<char>,
            >(strings_view(out@)),
        decreases pieces@.len() - i,
    {
        let t = trim_chars(&pieces[i]);
        let ghost prefix = all.take(i + 1);
        let ghost old_out = strings_view(out@);
        proof {
            assert(prefix.drop_last() =~= all.take(i as int));
            assert(views_of(pieces@)[i as int] == pieces@[i as int]@);
            assert(prefix.last() == pieces@[i as int]@);
            assert(t@ == trim(prefix.last()));
        }
        if t.len() > 0 {
            let ts = string_of(&t);
            if !list_contains(allowed, ts.as_str()) {
                let msg = concat3(
                    "O campo '",
                    ts.as_str(),
                    "' não está disponível para pesquisa global.",
                );
                proof {
                    lemma_check_fields_err_stays(all, allowed@, i as int + 1);
                }
                return Err(AppError::BadRequest(msg));
            }
            out.push(ts);
            proof {
                assert(strings_view(out@) =~= old_out.push(t@));
                assert(check_search_fields(prefix, allowed@) == Ok::<Seq<Seq<char>>, Seq<char>>(
                    old_out.push(t@),
                ));
            }
        } else {
            assert(check_search_fields(prefix, allowed@) == Ok::<Seq<Seq<char>>, Seq<char>>(
                old_out,
            ));
        }
        i = i + 1;
    }
    assert(all.take(pieces@.len() as int) =~= all);
    Ok(out)
}

proof fn lemma_check_fields_err_stays(all: Seq<Seq<char>>, allowed: Seq<&str>, k: int)
    requires
        0 <= k <= all.len(),
        check_search_fields(all.take(k), allowed) is Err,
    ensures
        check_search_fields(all, allowed) == check_search_fields(all.take(k), allowed),
    decreases all.len() - k,
{
    if k < all.len() {
        assert(all.take(k + 1).drop_last() =~= all.take(k));
        lemma_check_fields_err_stays(all, allowed, k + 1);
    } else {
        assert(all.take(k) =~= all);
    }
}

proof fn lemma_first_refused_stays(ps: Seq<(String, String)>, allowed: Seq<&str>, k: int)
    requires
        0 <= k <= ps.len(),
        first_refused_filter(ps.take(k), allowed) is Some,
    ensures
        first_refused_filter(ps, allowed) == first_refused_filter(ps.take(k), allowed),
    decreases ps.len() - k,
{
    if k < ps.len() {
        assert(ps.take(k + 1).drop_last() =~= ps.take(k));
        lemma_first_refused_stays(ps, allowed, k + 1);
    } else {
        assert(ps.take(k) =~= ps);
    }
}

fn is_reserved(k: &str) -> (r: bool)
    ensures
        r == is_reserved_key(k@),
{
    str_eq(k, "page") || str_eq(k, "size") || str_eq(k, "searchWord") || str_eq(k, "searchFields")
        || str_eq(k, "orderBy") || str_eq(k, "orderDirection") || str_eq(k, "ignoreDefaultFilters")
}

/// The field a filter parameter names.
pub fn filter_base(key: &str) -> (r: String)
    ensures
        r@ == filter_key_base(key@),
{
    let kc = chars_of(key);
    if ends_with(&kc, "_start") {
        proof {
            reveal_strlit("_start");
        }
        string_of(&copy_range(&kc, 0, kc.len() - 6))
    } else if ends_with(&kc, "_end") {
        proof {
            reveal_strlit("_end");
        }
        string_of(&copy_range(&kc, 0, kc.len() - 4))
    } else {
        String::from_str(key)
    }
}

/// The bad request for the first refused filter, if any.
fn check_filters(ps: &Vec<(String, String)>, allowed: &[&str]) -> (r: Result<(), AppError>)
    ensures
        match first_refused_filter(ps@, allowed@) {
            Some(k) => r matches Err(e) && e@ == bad_request(msg_filter(k)),
            None => r is Ok,
        },
{
    let mut i: usize = 0;
    while i < ps.len()
        invariant
            0 <= i <= ps@.len(),
            first_refused_filter(ps@.take(i as int), allowed@) is None,
        decreases ps@.len() - i,
    {
        proof {
            assert(ps@.take(i + 1).drop_last() =~= ps@.take(i as int));
            assert(ps@.take(i + 1).last() == ps@[i as int]);
        }
        let key = &ps[i].0;
        let val = &ps[i].1;
        if !val.as_str().is_empty() && !is_reserved(key.as_str()) {
            let base = filter_base(key.as_str());
            if !list_contains(allowed, base.as_str()) {
                let msg = concat3("O filtro '", base.as_str(), "' não é permitido para este recurso.");
                proof {
                    lemma_first_refused_stays(ps@, allowed@, i + 1);
                }
                return Err(AppError::BadRequest(msg));
            }
        }
        i = i + 1;
    }
    assert(ps@.take(ps@.len() as int) =~= ps@);
    Ok(())
}

/// A page number or size parameter.
fn number_param(ps: &Vec<(String, String)>, key: &str, default: u64) -> (r: u64)
    ensures
        r == number_value(lookup(ps@, key@), default),
{
    match param_get(ps, key) {
        Some(p) => {
            let pc = chars_of(p.as_str());
            match parse_unsigned_chars(&pc, u64::MAX) {
                Some(v) => v,
                None => default,
            }
        },
        None => default,
    }
}

fn true_text(s: &str) -> (r: bool)
    ensures
        r == is_true_text(s@),
{
    str_eq(s, "true") || str_eq(s, "1")
}

/// The bound of a date range from the parsed first second of its day
/// (`None` where the date did not parse): the day's last second where
/// `end_of_day`, else that first second.
pub fn date_from_parsed(midnight: Option<i64>, end_of_day: bool) -> (r: Option<i64>)
    requires
        midnight matches Some(t) ==> -10_000_000_000_000 <= t <= 10_000_000_000_000,
    ensures
        r == date_from_midnight(midnight, end_of_day),
{
    match midnight {
        None => None,
        Some(t) => if end_of_day {
            Some(t + 86399)
        } else {
            Some(t)
        },
    }
}

/// A date parameter, or the bad request that names it.
fn date_param(ps: &Vec<(String, String)>, key: &str, end_of_day: bool) -> (r: Result<
    Option<i64>,
    AppError,
>)
    ensures
        match date_value(lookup(ps@, key@), end_of_day) {
            Ok(v) => r == Ok::<Option<i64>, AppError>(v),
            Err(_) => r matches Err(e) && e@ == bad_request(msg_date(key@)),
        },
{
    match param_get(ps, key) {
        None => Ok(None),
        Some(v) => match date_from_parsed(parse_date_midnight(v.as_str()), end_of_day) {
            Some(t) => Ok(Some(t)),
            None => Err(
                AppError::BadRequest(concat3("Formato de '", key, "' inválido. Use YYYY-MM-DD.")),
            ),
        },
    }
}

/// Each parameter name occurs once in the query: it is a map from names to
/// values.
pub open spec fn keys_distinct(params: Seq<(String, String)>) -> bool {
    forall|i: int, j: int|
        0 <= i < j < params.len() ==> #[trigger] params[i].0@ != #[trigger] params[j].0@
}

impl QueryValidator {
    /// Validates the query parameters `params` (each name once) of a listing whose global
    /// search may cover `allowed_search_fields` and whose filters and
    /// ordering may use `allowed_filterable_fields`.
    ///
    /// The rules, in the order they are checked, each answered with a bad
    /// request: a search word needs search fields; every search field must be
    /// searchable; every non-empty parameter that is not paging, search or
    /// ordering must filter an allowed field (a `_start` or `_end` suffix
    /// names a range bound); the ordering field must be allowed
    /// (`created_at` and `updated_at` always are); a page holds at most 100
    /// items; dates are written `YYYY-MM-DD`. The page defaults to 0, the
    /// size to 25, the direction to `asc`, and `active` to `true` unless
    /// default filters are switched off.
    pub fn validate_and_parse(
        params: &Vec<(String, String)>,
        allowed_search_fields: &[&str],
        allowed_filterable_fields: &[&str],
    ) -> (r: Result<ParsedFilters, AppError>)
        requires
            keys_distinct(params@),
        ensures
            outcome_view(r) == spec_validate_and_parse(
                params@,
                allowed_search_fields@,
                allowed_filterable_fields@,
            ),
    {
        let ghost ps = params@;
        let search_word = param_nonempty(params, "searchWord");
        let search_fields_str = param_nonempty(params, "searchFields");
        if search_word.is_some() && search_fields_str.is_none() {
            return Err(
                AppError::BadRequest(
                    String::from_str(
                        "O parâmetro \"searchFields\" é obrigatório quando \"searchWord\" é fornecido.",
                    ),
                ),
            );
        }
        let search_fields = match &search_fields_str {
            Some(raw) => match parse_search_fields(raw, allowed_search_fields) {
                Ok(v) => v,
                Err(e) => {
                    return Err(e);
                },
            },
            None => Vec::new(),
        };
        match check_filters(params, allowed_filterable_fields) {
            Ok(()) => {},
            Err(e) => {
                return Err(e);
            },
        }
        let order_by = param_nonempty(params, "orderBy");
        if let Some(field) = &order_by {
            if !list_contains(allowed_filterable_fields, field.as_str()) && !str_eq(
                field.as_str(),
                "created_at",
            ) && !str_eq(field.as_str(), "updated_at") {
                return Err(
                    AppError::BadRequest(
                        concat3("A ordenação pelo campo '", field.as_str(), "' não é permitida."),
                    ),
                );
            }
        }
        let page = number_param(params, "page", 0);
        let size = number_param(params, "size", 25);
        if size > 100 {
            return Err(
                AppError::BadRequest(String::from_str("O tamanho máximo da página é 100 itens.")),
            );
        }
        let order_direction = match param_get(params, "orderDirection") {
            Some(d) => d,
            None => String::from_str("asc"),
        };
        let ignore_default_filters = match param_get(params, "ignoreDefaultFilters") {
            Some(v) => true_text(v.as_str()),
            None => false,
        };
        let active = match param_get(params, "active") {
            Some(s) => if s.as_str().is_empty() {
                None
            } else {
                Some(true_text(s.as_str()))
            },
            None => if !ignore_default_filters {
                Some(true)
            } else {
                None
            },
        };
        let created_at_start = match date_param(params, "createdAt_start", false) {
            Ok(v) => v,
            Err(e) => {
                return Err(e);
            },
        };
        let created_at_end = match date_param(params, "createdAt_end", true) {
            Ok(v) => v,
            Err(e) => {
                return Err(e);
            },
        };
        let updated_at_start = match date_param(params, "updatedAt_start", false) {
            Ok(v) => v,
            Err(e) => {
                return Err(e);
            },
        };
        let updated_at_end = match date_param(params, "updatedAt_end", true) {
            Ok(v) => v,
            Err(e) => {
                return Err(e);
            },
        };
        let name = param_nonempty(params, "name");
        let email = param_nonempty(params, "email");
        let role_name = param_nonempty(params, "Role.name");
        let sku = param_nonempty(params, "sku");
        let category = param_nonempty(params, "category");
        let description = param_nonempty(params, "description");
        let r = ParsedFilters {
            page,
            size,
            search_word,
            search_fields,
            order_by,
            order_direction,
            active,
            created_at_start,
            created_at_end,
            updated_at_start,
            updated_at_end,
            name,
            email,
            role_name,
            sku,
            category,
            description,
        };
        let ghost sv = spec_validate_and_parse(
            params@,
            allowed_search_fields@,
            allowed_filterable_fields@,
        );
        assert(sv is Ok);
        assert(r@.search_fields == sv->Ok_0.search_fields);
        assert(r@ == sv->Ok_0);
        Ok(r)
    }
}


/// The parameters with `key` set to `value`: the first parameter of that
/// name takes the value, or the pair is added at the end.
pub open spec fn with_param(ps: Seq<(String, String)>, key: Seq<char>, value: Seq<char>) -> Seq<
    (Seq<char>, Seq<char>),
> {
    let v = ps.map_values(|p: (String, String)| (p.0@, p.1@));
    if exists|i: int| first_with_key(ps, key, i) {
        let i = choose|i: int| first_with_key(ps, key, i);
        v.update(i, (key, value))
    } else {
        v.push((key, value))
    }
}

pub open spec fn pairs_view(ps: Seq<(String, String)>) -> Seq<(Seq<char>, Seq<char>)> {
    ps.map_values(|p: (String, String)| (p.0@, p.1@))
}

impl QueryValidator {
    /// A listing reached under a path that ends in `/all` shows every
    /// record: default filters are switched off for it.
    pub fn scope_listing(params: &mut Vec<(String, String)>, path: &str)
        ensures
            has_suffix(path@, "/all"@) ==> pairs_view(final(params)@) == with_param(
                old(params)@,
                "ignoreDefaultFilters"@,
                "true"@,
            ),
            !has_suffix(path@, "/all"@) ==> final(params)@ == old(params)@,
    {
        let pc = chars_of(path);
        if !ends_with(&pc, "/all") {
            return;
        }
        let ghost before = params@;
        let mut i: usize = 0;
        while i < params.len()
            invariant
                params@ == before,
                before == old(params)@,
                has_suffix(path@, "/all"@),
                0 <= i <= params@.len(),
                forall|j: int| 0 <= j < i ==> #[trigger] params@[j].0@ != "ignoreDefaultFilters"@,
            decreases params@.len() - i,
        {
            if str_eq(params[i].0.as_str(), "ignoreDefaultFilters") {
                assert(first_with_key(before, "ignoreDefaultFilters"@, i as int));
                let ghost k = choose|k: int| first_with_key(before, "ignoreDefaultFilters"@, k);
                assert(k == i) by {
                    if k < i {
                        assert(before[k].0@ != "ignoreDefaultFilters"@);
                    } else if k > i {
                        assert(before[i as int].0@ != "ignoreDefaultFilters"@);
                    }
                }
                let key = params[i].0.clone();
                params.set(i, (key, String::from_str("true")));
                assert(pairs_view(params@) =~= with_param(
                    before,
                    "ignoreDefaultFilters"@,
                    "true"@,
                ));
                return;
            }
            i = i + 1;
        }
        assert(!exists|k: int| first_with_key(before, "ignoreDefaultFilters"@, k)) by {
            if exists|k: int| first_with_key(before, "ignoreDefaultFilters"@, k) {
                let k = choose|k: int| first_with_key(before, "ignoreDefaultFilters"@, k);
                assert(before[k].0@ != "ignoreDefaultFilters"@);
            }
        }
        params.push((String::from_str("ignoreDefaultFilters"), String::from_str("true")));
        assert(pairs_view(params@) =~= with_param(before, "ignoreDefaultFilters"@, "true"@));
    }
}

// ---------------------------------------------------------------------------
// What every accepted query satisfies
// ---------------------------------------------------------------------------
proof fn lemma_checked_fields_allowed(pieces: Seq<Seq<char>>, allowed: Seq<&str>)
    requires
        check_search_fields(pieces, allowed) is Ok,
    ensures
        forall|i: int|
            0 <= i < check_search_fields(pieces, allowed)->Ok_0.len() ==> listed(
                allowed,
                #[trigger] check_search_fields(pieces, allowed)->Ok_0[i],
            ) && check_search_fields(pieces, allowed)->Ok_0[i].len() > 0,
    decreases pieces.len(),
{
    if pieces.len() > 0 {
        lemma_checked_fields_allowed(pieces.drop_last(), allowed);
    }
}

proof fn lemma_no_refused_filter(ps: Seq<(String, String)>, allowed: Seq<&str>, i: int)
    requires
        first_refused_filter(ps, allowed) is None,
        0 <= i < ps.len(),
    ensures
        !filter_refused(ps[i], allowed),
    decreases ps.len(),
{
    if i < ps.len() - 1 {
        lemma_no_refused_filter(ps.drop_last(), allowed, i);
        assert(ps.drop_last()[i] == ps[i]);
    }
}

/// A query that is accepted asks for at most 100 items per page (25 where
/// it does not say), searches only allowed fields (none of them empty),
/// names search fields wherever it has a search word, orders by an allowed
/// field, and filters only allowed fields: every non-empty
/// parameter that is not about paging, search or ordering names an allowed
/// field, with or without a `_start`/`_end` suffix.
pub proof fn lemma_accepted_query(
    ps: Seq<(String, String)>,
    search: Seq<&str>,
    filterable: Seq<&str>,
)
    requires
        spec_validate_and_parse(ps, search, filterable) is Ok,
    ensures
        ({
            let f = spec_validate_and_parse(ps, search, filterable)->Ok_0;
            &&& f.size <= 100
            &&& forall|i: int|
                0 <= i < f.search_fields.len() ==> listed(search, #[trigger] f.search_fields[i])
                    && f.search_fields[i].len() > 0
            &&& f.search_word is Some ==> nonempty(lookup(ps, "searchFields"@)) is Some
            &&& f.order_by matches Some(o) ==> (listed(filterable, o) || o == "created_at"@ || o
                == "updated_at"@)
            &&& lookup(ps, "size"@) is None ==> f.size == 25
            &&& forall|i: int|
                0 <= i < ps.len() && (#[trigger] ps[i]).1@.len() > 0 && !is_reserved_key(
                    ps[i].0@,
                ) ==> listed(filterable, filter_key_base(ps[i].0@))
        }),
{
    let fields_raw = nonempty(lookup(ps, "searchFields"@));
    if let Some(s) = fields_raw {
        lemma_checked_fields_allowed(split_on(s, ','), search);
    }
    assert forall|i: int|
        0 <= i < ps.len() && (#[trigger] ps[i]).1@.len() > 0 && !is_reserved_key(
            ps[i].0@,
        ) implies listed(filterable, filter_key_base(ps[i].0@)) by {
        lemma_no_refused_filter(ps, filterable, i);
    }
}

/// Unless default filters are switched off, a listing without an `active`
/// parameter shows active records only; with them switched off it shows
/// all.
pub proof fn lemma_default_filters(ps: Seq<(String, String)>, search: Seq<&str>, filterable: Seq<&str>)
    requires
        spec_validate_and_parse(ps, search, filterable) is Ok,
        lookup(ps, "active"@) is None,
    ensures
        !ignore_default_value(lookup(ps, "ignoreDefaultFilters"@)) ==> spec_validate_and_parse(
            ps,
            search,
            filterable,
        )->Ok_0.active == Some(true),
        ignore_default_value(lookup(ps, "ignoreDefaultFilters"@)) ==> spec_validate_and_parse(
            ps,
            search,
            filterable,
        )->Ok_0.active is None,
{
}

/// The end of a day is 86399 seconds after its start (for every date that
/// chrono reads; their timestamps lie far inside the range of `i64`).
pub proof fn lemma_date_range_covers_day(text: Seq<char>)
    requires
        date_midnight_utc(text) is Some,
        date_midnight_utc(text)->Some_0 <= 10_000_000_000_000,
    ensures
        date_value(Some(text), true) matches Ok(Some(e)) && date_value(Some(text), false) matches Ok(
            Some(b),
        ) && e == b + 86399,
{
}

/// One date bound of an accepted query, from its parameter: absent where
/// the parameter is, else the first second of the date for a `_start` bound
/// and its last second (86399 seconds later) for an `_end` bound.
pub open spec fn bound_covers_day(raw: Option<Seq<char>>, bound: Option<i64>, end_of_day: bool) -> bool {
    match raw {
        None => bound is None,
        Some(v) => date_midnight_utc(v) matches Some(t) && bound matches Some(b) && (if end_of_day {
            b == (t + 86399) as i64 && (t <= 10_000_000_000_000 ==> b == t + 86399)
        } else {
            b == t
        }),
    }
}

/// Every date bound of an accepted query covers whole days: each of
/// `createdAt_start` and `updatedAt_start` is the first second of its date,
/// each of `createdAt_end` and `updatedAt_end` the last second of its date.
pub proof fn lemma_accepted_date_bounds(
    ps: Seq<(String, String)>,
    search: Seq<&str>,
    filterable: Seq<&str>,
)
    requires
        spec_validate_and_parse(ps, search, filterable) is Ok,
    ensures
        ({
            let f = spec_validate_and_parse(ps, search, filterable)->Ok_0;
            &&& bound_covers_day(lookup(ps, "createdAt_start"@), f.created_at_start, false)
            &&& bound_covers_day(lookup(ps, "createdAt_end"@), f.created_at_end, true)
            &&& bound_covers_day(lookup(ps, "updatedAt_start"@), f.updated_at_start, false)
            &&& bound_covers_day(lookup(ps, "updatedAt_end"@), f.updated_at_end, true)
        }),
{
}

} // verus!
