use backend_rust::errors::ErrorKind;
use backend_rust::listing::{Column, Condition, OrderDef};
use backend_rust::models::product::DecimalValue;
use backend_rust::models::{auth, feature, product, role, role_feature, user};
use backend_rust::modules::audit::service::AuditModuleService;
use backend_rust::modules::auth::service::AuthModuleService;
use backend_rust::modules::product::service::ProductModuleService;
use backend_rust::modules::role::service::RoleModuleService;
use backend_rust::modules::user::service::UserModuleService;
use backend_rust::query_parser::{ParsedFilters, QueryValidator};

const ROLE_SEARCH: [&str; 2] = ["name", "description"];
const ROLE_FILTERS: [&str; 5] = ["name", "description", "active", "createdAt", "updatedAt"];

fn filters(pairs: &[(&str, &str)], search: &[&str], allowed: &[&str]) -> ParsedFilters {
    let params: Vec<(String, String)> =
        pairs.iter().map(|(k, v)| (k.to_string(), v.to_string())).collect();
    QueryValidator::validate_and_parse(&params, search, allowed).unwrap()
}

fn a_role() -> role::Model {
    role::Model {
        id: "seller".to_string(),
        name: "Vendedor".to_string(),
        description: "Vendas".to_string(),
        active: true,
        created_at: 0,
        updated_at: 86400,
        is_deleted: Some(false),
        deleted_at: None,
    }
}

fn a_link(feature: &str) -> role_feature::Model {
    role_feature::Model {
        id_role: "seller".to_string(),
        id_feature: feature.to_string(),
        create: false,
        view: true,
        activate: false,
        delete: false,
    }
}

#[test]
fn role_listing_plan_from_a_query() {
    let f = filters(
        &[
            ("searchWord", "adm"),
            ("searchFields", "name"),
            ("description", "total"),
            ("createdAt_start", "2024-01-15"),
            ("orderBy", "name"),
            ("orderDirection", "desc"),
            ("page", "2"),
            ("size", "10"),
        ],
        &ROLE_SEARCH,
        &ROLE_FILTERS,
    );
    let p = RoleModuleService::role_listing_plan(&f);
    assert_eq!(
        p.conditions,
        vec![
            Condition::NotDeleted,
            Condition::Search(vec![Column::Name], "adm".to_string()),
            Condition::Contains(Column::Description, "total".to_string()),
            Condition::Is(Column::Active, true),
            Condition::From(Column::CreatedAt, 1705276800),
        ]
    );
    assert_eq!(p.order, OrderDef { column: Column::Name, case_insensitive: true });
    assert!(p.descending);
    assert_eq!((p.offset, p.limit), (20, 10));
}

#[test]
fn role_listing_defaults() {
    let f = filters(&[("orderBy", "createdAt"), ("ignoreDefaultFilters", "true")], &ROLE_SEARCH, &ROLE_FILTERS);
    let p = RoleModuleService::role_listing_plan(&f);
    assert_eq!(p.conditions, vec![Condition::NotDeleted]);
    assert_eq!(p.order, OrderDef { column: Column::CreatedAt, case_insensitive: false });
    assert!(!p.descending);
    assert_eq!((p.offset, p.limit), (0, 25));
}

#[test]
fn role_page_shows_roles_with_their_permissions() {
    let f = filters(&[("page", "1"), ("size", "5")], &ROLE_SEARCH, &ROLE_FILTERS);
    let mut deleted = a_role();
    deleted.is_deleted = None;
    deleted.deleted_at = Some(172800);
    let page = RoleModuleService::role_page(
        vec![(a_role(), vec![a_link("product"), a_link("user")]), (deleted, vec![])],
        7,
        &f,
    );
    assert_eq!((page.total, page.page, page.size, page.items.len()), (7, 1, 5, 2));
    let r = &page.items[0];
    assert_eq!((r.id.as_str(), r.name.as_str(), r.description.as_str()), ("seller", "Vendedor", "Vendas"));
    assert_eq!(r.created_at, "1970-01-01T00:00:00+00:00");
    assert_eq!(r.updated_at, "1970-01-02T00:00:00+00:00");
    assert!(!r.is_deleted);
    assert_eq!(r.deleted_at, None);
    let features: Vec<&str> = r.role_feature.iter().map(|p| p.feature.as_str()).collect();
    assert_eq!(features, vec!["product", "user"]);
    assert!(r.role_feature[0].view && !r.role_feature[0].create);
    let d = &page.items[1];
    assert!(!d.is_deleted);
    assert_eq!(d.deleted_at, Some("1970-01-03T00:00:00+00:00".to_string()));
}

#[test]
fn product_listing_plan_and_page() {
    let f = filters(
        &[("searchWord", "can"), ("searchFields", "sku,category"), ("sku", "CAN-1"), ("orderBy", "category")],
        &["name", "sku", "category"],
        &["name", "sku", "category", "active", "createdAt", "updatedAt"],
    );
    let p = ProductModuleService::product_listing_plan(&f);
    assert_eq!(
        p.conditions,
        vec![
            Condition::NotDeleted,
            Condition::Search(vec![Column::Sku, Column::Category], "can".to_string()),
            Condition::Equals(Column::Sku, "CAN-1".to_string()),
            Condition::Is(Column::Active, true),
        ]
    );
    assert_eq!(p.order, OrderDef { column: Column::Category, case_insensitive: true });
    let item = product::Model {
        id: "p1".to_string(),
        name: "Caneta".to_string(),
        sku: "CAN-1".to_string(),
        category: "Papelaria".to_string(),
        price: DecimalValue { mantissa: 1990, scale: 2 },
        stock: 5,
        description: "Azul".to_string(),
        active: true,
        is_deleted: Some(false),
        deleted_at: None,
        created_at: 1705276800,
        updated_at: 1705276800,
    };
    let page = ProductModuleService::product_page(&vec![item], 1, &f);
    assert_eq!((page.total, page.items.len()), (1, 1));
    assert_eq!(page.items[0].sku, "CAN-1");
    assert_eq!(page.items[0].price, DecimalValue { mantissa: 1990, scale: 2 });
    assert_eq!(page.items[0].created_at, "2024-01-15T00:00:00+00:00");
}

#[test]
fn audit_listing_plan() {
    let f = filters(
        &[("searchWord", "Ana"), ("searchFields", "name"), ("createdAt_end", "2024-01-15"), ("page", "3"), ("size", "4")],
        &["name"],
        &["createdAt"],
    );
    let p = AuditModuleService::audit_listing_plan(&f);
    assert_eq!(
        p.conditions,
        vec![
            Condition::Search(vec![Column::UserName], "Ana".to_string()),
            Condition::Until(Column::CreatedAt, 1705276800 + 86399),
        ]
    );
    assert_eq!(p.order, OrderDef { column: Column::CreatedAt, case_insensitive: false });
    assert!(p.descending);
    assert_eq!((p.offset, p.limit), (12, 4));
}

#[test]
fn feature_listing() {
    assert_eq!(RoleModuleService::feature_conditions(), vec![Condition::Is(Column::Active, true)]);
    let found = vec![feature::Model {
        id: "user".to_string(),
        name: "user".to_string(),
        description: "Gestão de Usuários".to_string(),
        active: true,
        created_at: 1,
        updated_at: 1,
    }];
    let list = RoleModuleService::list_features(&found);
    assert_eq!((list.len(), list[0].id.as_str(), list[0].name.as_str()), (1, "user", "user"));
}

fn a_user() -> user::Model {
    user::Model {
        id: "u1".to_string(),
        name: "Ana Souza".to_string(),
        phone: None,
        email: "ana@x.com".to_string(),
        cognito_id: None,
        active: true,
        created_at: 10,
        updated_at: 20,
        document: None,
        is_deleted: Some(false),
        deleted_at: None,
        avatar: None,
        id_auth: Some("a1".to_string()),
        id_role: "seller".to_string(),
    }
}

#[test]
fn toggling_a_user_ends_its_sessions() {
    let (u, ended) = UserModuleService::toggle_user_status(a_user(), false, 99);
    assert_eq!((u.active, u.updated_at, u.email.as_str()), (false, 99, "ana@x.com"));
    assert_eq!(ended, vec!["u1".to_string()]);
}

fn credentials(hash: &str) -> auth::Model {
    UserModuleService::new_credentials("a1".to_string(), hash.to_string(), 3)
}

#[test]
fn login_checks_the_password_and_opens_sessions() {
    let hash = bcrypt::hash("secret", 4).unwrap();
    let links = vec![a_link("product")];
    let (resp, sessions) = AuthModuleService::login(
        &Some(a_user()),
        &Some(a_role()),
        &Some(credentials(&hash)),
        "secret",
        &links,
        "acc".to_string(),
        "ref".to_string(),
        900,
    )
    .unwrap();
    assert_eq!((resp.token.as_str(), resp.user.id.as_str(), resp.user.role.id.as_str()), ("acc", "u1", "seller"));
    assert_eq!(resp.user.role.permissions[0].feature, "product");
    assert_eq!(
        sessions,
        vec![
            ("session:u1:access:acc".to_string(), 900),
            ("session:u1:refresh:ref".to_string(), 604800),
        ]
    );

    let wrong = AuthModuleService::login(
        &Some(a_user()),
        &Some(a_role()),
        &Some(credentials(&hash)),
        "other",
        &links,
        "acc".to_string(),
        "ref".to_string(),
        900,
    )
    .unwrap_err();
    let unknown = AuthModuleService::login(
        &None,
        &None,
        &None,
        "secret",
        &links,
        "acc".to_string(),
        "ref".to_string(),
        900,
    )
    .unwrap_err();
    assert_eq!((wrong.kind(), wrong.message()), (ErrorKind::Unauthorized, "Credenciais inválidas".to_string()));
    assert_eq!((unknown.kind(), unknown.message()), (wrong.kind(), wrong.message()));

    let broken = AuthModuleService::login(
        &Some(a_user()),
        &Some(a_role()),
        &Some(credentials("not-a-hash")),
        "secret",
        &links,
        "acc".to_string(),
        "ref".to_string(),
        900,
    )
    .unwrap_err();
    assert_eq!(broken.kind(), ErrorKind::Internal);
    assert!(broken.message().starts_with("Erro de criptografia: "));
}
