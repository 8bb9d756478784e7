use backend_rust::query_parser::{date_from_parsed, ParsedFilters, QueryValidator};

const SEARCH: [&str; 3] = ["name", "email", "Role.name"];
const FILTERS: [&str; 6] = ["name", "email", "active", "createdAt", "updatedAt", "Role.name"];

fn params(pairs: &[(&str, &str)]) -> Vec<(String, String)> {
    pairs.iter().map(|(k, v)| (k.to_string(), v.to_string())).collect()
}

fn parse(pairs: &[(&str, &str)]) -> Result<ParsedFilters, String> {
    QueryValidator::validate_and_parse(&params(pairs), &SEARCH, &FILTERS).map_err(|e| e.message())
}

#[test]
fn defaults_of_an_empty_query() {
    let f = parse(&[]).unwrap();
    assert_eq!(f.page, 0);
    assert_eq!(f.size, 25);
    assert_eq!(f.order_direction, "asc");
    assert_eq!(f.order_by, None);
    assert_eq!(f.active, Some(true));
    assert_eq!(f.search_word, None);
    assert!(f.search_fields.is_empty());
    assert_eq!(f.created_at_start, None);
}

#[test]
fn search_word_needs_search_fields() {
    let e = parse(&[("searchWord", "ana")]).unwrap_err();
    assert_eq!(
        e,
        "O parâmetro \"searchFields\" é obrigatório quando \"searchWord\" é fornecido."
    );
    // An empty search word asks for nothing.
    assert!(parse(&[("searchWord", "")]).is_ok());
}

#[test]
fn search_fields_are_trimmed_and_checked() {
    let f = parse(&[("searchWord", "ana"), ("searchFields", " name , email ,,Role.name")]).unwrap();
    assert_eq!(f.search_word, Some("ana".to_string()));
    assert_eq!(f.search_fields, vec!["name", "email", "Role.name"]);

    let e = parse(&[("searchWord", "ana"), ("searchFields", "name,password")]).unwrap_err();
    assert_eq!(e, "O campo 'password' não está disponível para pesquisa global.");
}

#[test]
fn filters_must_be_allowed() {
    let e = parse(&[("sku", "X1")]).unwrap_err();
    assert_eq!(e, "O filtro 'sku' não é permitido para este recurso.");
    // Empty values are passed over.
    assert!(parse(&[("sku", "")]).is_ok());
    // Range bounds name their field without the suffix.
    let e = parse(&[("price_start", "1")]).unwrap_err();
    assert_eq!(e, "O filtro 'price' não é permitido para este recurso.");
    assert!(parse(&[("createdAt_start", "2024-01-02"), ("updatedAt_end", "2024-01-03")]).is_ok());
}

#[test]
fn ordering_must_be_allowed() {
    let e = parse(&[("orderBy", "password")]).unwrap_err();
    assert_eq!(e, "A ordenação pelo campo 'password' não é permitida.");
    let f = parse(&[("orderBy", "created_at"), ("orderDirection", "desc")]).unwrap();
    assert_eq!(f.order_by, Some("created_at".to_string()));
    assert_eq!(f.order_direction, "desc");
    let f = parse(&[("orderBy", "Role.name")]).unwrap();
    assert_eq!(f.order_by, Some("Role.name".to_string()));
}

#[test]
fn page_size_is_capped() {
    let e = parse(&[("size", "101")]).unwrap_err();
    assert_eq!(e, "O tamanho máximo da página é 100 itens.");
    let f = parse(&[("size", "100"), ("page", "+3")]).unwrap();
    assert_eq!(f.size, 100);
    assert_eq!(f.page, 3);
    let f = parse(&[("size", "abc"), ("page", "-1")]).unwrap();
    assert_eq!(f.size, 25);
    assert_eq!(f.page, 0);
    let f = parse(&[("page", "18446744073709551616")]).unwrap();
    assert_eq!(f.page, 0);
}

#[test]
fn active_filter_and_default_filters() {
    assert_eq!(parse(&[("active", "false")]).unwrap().active, Some(false));
    assert_eq!(parse(&[("active", "1")]).unwrap().active, Some(true));
    assert_eq!(parse(&[("active", "")]).unwrap().active, None);
    assert_eq!(parse(&[("ignoreDefaultFilters", "true")]).unwrap().active, None);
    assert_eq!(parse(&[("ignoreDefaultFilters", "1")]).unwrap().active, None);
    assert_eq!(parse(&[("ignoreDefaultFilters", "yes")]).unwrap().active, Some(true));
}

#[test]
fn dates_cover_whole_days() {
    let f = parse(&[("createdAt_start", "2024-01-02"), ("createdAt_end", "2024-01-02")]).unwrap();
    assert_eq!(f.created_at_start, Some(1704153600));
    assert_eq!(f.created_at_end, Some(1704153600 + 86399));
    let f = parse(&[("updatedAt_start", "1970-01-01")]).unwrap();
    assert_eq!(f.updated_at_start, Some(0));
    let e = parse(&[("createdAt_end", "2024-13-01")]).unwrap_err();
    assert_eq!(e, "Formato de 'createdAt_end' inválido. Use YYYY-MM-DD.");
    let e = parse(&[("updatedAt_start", "02/01/2024")]).unwrap_err();
    assert_eq!(e, "Formato de 'updatedAt_start' inválido. Use YYYY-MM-DD.");
}

#[test]
fn text_filters_are_kept() {
    let f = parse(&[("name", "Ana"), ("email", ""), ("Role.name", "Gerente")]).unwrap();
    assert_eq!(f.name, Some("Ana".to_string()));
    assert_eq!(f.email, None);
    assert_eq!(f.role_name, Some("Gerente".to_string()));
}

#[test]
fn listing_all_switches_default_filters_off() {
    let mut p = params(&[("page", "1")]);
    QueryValidator::scope_listing(&mut p, "/v1/user/all");
    assert_eq!(p, params(&[("page", "1"), ("ignoreDefaultFilters", "true")]));
    let mut p = params(&[("ignoreDefaultFilters", "false")]);
    QueryValidator::scope_listing(&mut p, "/v1/user/all");
    assert_eq!(p, params(&[("ignoreDefaultFilters", "true")]));
    let mut p = params(&[("ignoreDefaultFilters", "false")]);
    QueryValidator::scope_listing(&mut p, "/v1/user");
    assert_eq!(p, params(&[("ignoreDefaultFilters", "false")]));
}

#[test]
fn range_bounds_from_a_parsed_day() {
    // 2024-01-15 00:00:00 UTC
    assert_eq!(date_from_parsed(Some(1705276800), false), Some(1705276800));
    assert_eq!(date_from_parsed(Some(1705276800), true), Some(1705363199));
    assert_eq!(date_from_parsed(None, true), None);
    assert_eq!(date_from_parsed(None, false), None);
}
