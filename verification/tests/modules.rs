use backend_rust::errors::ErrorKind;
use backend_rust::models::product::DecimalValue;
use backend_rust::models::{auth, product, role, role_feature, user};
use backend_rust::modules::audit::service::AuditModuleService;
use backend_rust::modules::auth::service::AuthModuleService;
use backend_rust::modules::debug::controller::{
    get_mock_pdf_bytes, pdf_disposition, pdf_gate_for_lowercase, pdf_route_gate, response_build_error,
};
use backend_rust::modules::product::schemas::{CreateProductRequest, UpdateProductRequest};
use backend_rust::modules::product::service::ProductModuleService;
use backend_rust::modules::role::schemas::PermissionRequest;
use backend_rust::modules::role::service::RoleModuleService;
use backend_rust::modules::user::schemas::UpdateUserRequest;
use backend_rust::modules::user::service::UserModuleService;
use backend_rust::modules::{product as product_module, role as role_module, user as user_module};

fn a_user() -> user::Model {
    user::Model {
        id: "u1".to_string(),
        name: "Ana Souza".to_string(),
        phone: Some("11988887777".to_string()),
        email: "ana@x.com".to_string(),
        cognito_id: None,
        active: true,
        created_at: 10,
        updated_at: 20,
        document: Some("12345678900".to_string()),
        is_deleted: Some(false),
        deleted_at: None,
        avatar: Some("ana.png".to_string()),
        id_auth: Some("a1".to_string()),
        id_role: "seller".to_string(),
    }
}

fn a_role(active: bool) -> role::Model {
    role::Model {
        id: "seller".to_string(),
        name: "Vendedor".to_string(),
        description: "Vendas".to_string(),
        active,
        created_at: 1,
        updated_at: 2,
        is_deleted: Some(false),
        deleted_at: None,
    }
}

fn credentials(active: bool) -> auth::Model {
    UserModuleService::new_credentials("a1".to_string(), "hash".to_string(), 3).with_active(active)
}

trait WithActive {
    fn with_active(self, active: bool) -> Self;
}

impl WithActive for auth::Model {
    fn with_active(mut self, active: bool) -> Self {
        self.active = active;
        self
    }
}

fn a_product() -> product::Model {
    ProductModuleService::new_product(
        "p1".to_string(),
        CreateProductRequest {
            name: "Caneta".to_string(),
            sku: "CAN-1".to_string(),
            category: "Papelaria".to_string(),
            price: DecimalValue { mantissa: 1990, scale: 2 },
            stock: 5,
            description: "Azul".to_string(),
        },
        100,
    )
}

fn is_uuid_text(s: &str) -> bool {
    s.len() == 36
        && s.chars().enumerate().all(|(i, c)| {
            if i == 8 || i == 13 || i == 18 || i == 23 {
                c == '-'
            } else {
                c.is_ascii_hexdigit() && !c.is_ascii_uppercase()
            }
        })
}

#[test]
fn role_ids_come_from_names() {
    assert_eq!(RoleModuleService::role_slug("Gerente de Vendas!"), "gerente-de-vendas");
    assert_eq!(RoleModuleService::role_slug("Ação Rápida"), "ação-rápida");
    assert_eq!(RoleModuleService::role_slug("!!!"), "");
    let uuid = "abcdef12-3456-4789-8abc-def012345678";
    assert_eq!(RoleModuleService::role_id("Gerente", uuid), "gerente-abcdef");
    assert_eq!(RoleModuleService::role_id("***", uuid), uuid);
    let id = RoleModuleService::generate_role_id("Vendas");
    assert!(id.starts_with("vendas-"));
    assert_eq!(id.len(), 13);
    let id = RoleModuleService::generate_role_id("");
    assert!(is_uuid_text(&id));
}

#[test]
fn role_records() {
    assert!(RoleModuleService::check_role_id_free(false).is_ok());
    assert_eq!(
        RoleModuleService::check_role_id_free(true).unwrap_err().message(),
        "Perfil com ID ou nome correspondente já cadastrado"
    );
    assert_eq!(RoleModuleService::role_found(None).unwrap_err().kind(), ErrorKind::NotFound);
    let r = RoleModuleService::new_role("r1".to_string(), "N".to_string(), "D".to_string(), 7);
    assert!(r.active && r.is_deleted == Some(false) && r.created_at == 7);
    let r = RoleModuleService::apply_role_update(r, "N2".to_string(), "D2".to_string(), 8);
    assert_eq!((r.name.as_str(), r.description.as_str(), r.updated_at, r.created_at), ("N2", "D2", 8, 7));
    let r = RoleModuleService::set_status(r, false, 9);
    assert!(!r.active);
    let r = RoleModuleService::soft_delete(RoleModuleService::set_status(r, true, 9), 10);
    assert!(!r.active);
    assert_eq!((r.is_deleted, r.deleted_at), (Some(true), Some(10)));
    let p = PermissionRequest {
        feature: "product".to_string(),
        create: true,
        view: false,
        activate: true,
        delete: false,
    };
    let links = RoleModuleService::permission_links("r1", &vec![p.clone()]);
    assert_eq!(links.len(), 1);
    assert_eq!((links[0].id_role.as_str(), links[0].id_feature.as_str()), ("r1", "product"));
    assert!(links[0].create && !links[0].view && links[0].activate && !links[0].delete);
    let back = RoleModuleService::permission_of_link(&links[0]);
    assert_eq!((back.feature, back.create, back.view), (p.feature, true, false));
}

#[test]
fn deleted_users_keep_no_personal_data() {
    let uuid = "12345678-aaaa-4bbb-8ccc-dddddddddddd";
    assert_eq!(
        UserModuleService::anonymized_email(uuid),
        "deleted-anonymized-12345678@deleted.com"
    );
    let u = UserModuleService::anonymize(a_user(), uuid, 50);
    assert_eq!(u.name, "Deleted User");
    assert_eq!(u.email, "deleted-anonymized-12345678@deleted.com");
    assert_eq!(u.phone, Some("00000000000".to_string()));
    assert_eq!(u.document, Some("00000000000".to_string()));
    assert_eq!(u.avatar, None);
    assert!(!u.active);
    assert_eq!((u.is_deleted, u.deleted_at), (Some(true), Some(50)));
    assert_eq!((u.id.as_str(), u.id_role.as_str()), ("u1", "seller"));
    let u = UserModuleService::anonymize_now(a_user(), 60);
    assert!(u.email.starts_with("deleted-anonymized-"));
    assert!(u.email.ends_with("@deleted.com"));
    assert_eq!(u.email.len(), 39);
    let a = UserModuleService::revoke_credentials(credentials(true), 50);
    assert!(!a.active && a.password.is_none());
    assert_eq!((a.is_deleted, a.deleted_at), (Some(true), Some(50)));
}

#[test]
fn user_records() {
    assert!(UserModuleService::check_role_exists(true).is_ok());
    let e = UserModuleService::check_role_exists(false).unwrap_err();
    assert_eq!((e.kind(), e.message()), (ErrorKind::BadRequest, "ID de perfil (role) fornecido inválido".to_string()));
    let a = UserModuleService::new_credentials("a9".to_string(), "h".to_string(), 4);
    assert!(a.first_access && a.active && a.retries == 0);
    let payload = UpdateUserRequest {
        name: "Bia".to_string(),
        email: "bia@x.com".to_string(),
        id_role: "admin".to_string(),
        phone: None,
        document: None,
        active: None,
    };
    let u = UserModuleService::apply_update(a_user(), payload);
    assert_eq!((u.name.as_str(), u.email.as_str(), u.id_role.as_str()), ("Bia", "bia@x.com", "admin"));
    assert!(u.active);
    assert_eq!(u.phone, None);
}

#[test]
fn product_records() {
    let p = a_product();
    assert!(p.active && p.is_deleted == Some(false) && p.created_at == 100);
    assert_eq!(ProductModuleService::check_sku_free(true).unwrap_err().message(), "SKU já cadastrado no sistema");
    assert!(ProductModuleService::sku_changes("A", "B"));
    assert!(!ProductModuleService::sku_changes("A", "A"));
    assert_eq!(
        ProductModuleService::check_sku_unused(true).unwrap_err().message(),
        "SKU já está sendo utilizado por outro produto"
    );
    assert_eq!(
        ProductModuleService::product_found(None).unwrap_err().message(),
        "Produto não encontrado"
    );
    let upd = UpdateProductRequest {
        name: "Lápis".to_string(),
        sku: "LAP-1".to_string(),
        category: "Papelaria".to_string(),
        price: DecimalValue { mantissa: 150, scale: 2 },
        stock: 9,
        description: "Preto".to_string(),
        active: Some(false),
    };
    let q = ProductModuleService::apply_update(p, upd, 200);
    assert_eq!((q.id.as_str(), q.sku.as_str(), q.stock, q.active, q.updated_at), ("p1", "LAP-1", 9, false, 200));
    let q = ProductModuleService::set_status(q, true, 300);
    assert!(q.active);
    let q = ProductModuleService::soft_delete(q, 400);
    assert_eq!((q.active, q.is_deleted, q.deleted_at), (false, Some(true), Some(400)));
    let fresh = ProductModuleService::new_product_with_fresh_id(
        CreateProductRequest {
            name: "X".to_string(),
            sku: "X".to_string(),
            category: "C".to_string(),
            price: DecimalValue { mantissa: 1, scale: 0 },
            stock: 0,
            description: String::new(),
        },
        1,
    );
    assert!(is_uuid_text(&fresh.id));
}

#[test]
fn login_checks_in_order() {
    let ok = AuthModuleService::login_checks(&Some(a_user()), &Some(a_role(true)), &Some(credentials(true)), true);
    assert!(ok.is_ok());
    let e = AuthModuleService::login_checks(&None, &None, &None, false).unwrap_err();
    assert_eq!((e.kind(), e.message()), (ErrorKind::Unauthorized, "Credenciais inválidas".to_string()));
    let mut inactive = a_user();
    inactive.active = false;
    let e = AuthModuleService::login_checks(&Some(inactive), &None, &None, true).unwrap_err();
    assert_eq!((e.kind(), e.message()), (ErrorKind::Forbidden, "Usuário inativo. Login não permitido.".to_string()));
    let e = AuthModuleService::login_checks(&Some(a_user()), &Some(a_role(false)), &None, true).unwrap_err();
    assert_eq!(e.message(), "Perfil de acesso inativo. Login não permitido.");
    let mut unlinked = a_user();
    unlinked.id_auth = None;
    let e = AuthModuleService::login_checks(&Some(unlinked), &Some(a_role(true)), &None, true).unwrap_err();
    assert_eq!(e.message(), "Credenciais não configuradas");
    let e = AuthModuleService::login_checks(&Some(a_user()), &Some(a_role(true)), &None, true).unwrap_err();
    assert_eq!(e.message(), "Credenciais não encontradas");
    let e = AuthModuleService::login_checks(&Some(a_user()), &Some(a_role(true)), &Some(credentials(false)), true).unwrap_err();
    assert_eq!((e.kind(), e.message()), (ErrorKind::Forbidden, "Credenciais de acesso inativas.".to_string()));
    let e = AuthModuleService::login_checks(&Some(a_user()), &Some(a_role(true)), &Some(credentials(true)), false).unwrap_err();
    assert_eq!((e.kind(), e.message()), (ErrorKind::Unauthorized, "Credenciais inválidas".to_string()));
    assert_eq!(AuthModuleService::stored_hash(&credentials(true)), "hash");
    assert_eq!(AuthModuleService::credentials_id(&a_user()).unwrap(), "a1");
}

#[test]
fn refresh_and_me_checks() {
    assert!(AuthModuleService::refresh_checks(true, &Some(a_user()), &Some(a_role(true))).is_ok());
    assert_eq!(
        AuthModuleService::refresh_checks(false, &Some(a_user()), &Some(a_role(true))).unwrap_err().message(),
        "Sessão revogada ou expirada"
    );
    assert_eq!(AuthModuleService::refresh_checks(true, &None, &None).unwrap_err().message(), "Usuário não encontrado");
    assert_eq!(AuthModuleService::refresh_checks(true, &Some(a_user()), &Some(a_role(false))).unwrap_err().message(), "Perfil inativo");
    let e = AuthModuleService::me_checks(&Some(a_user()), &None).unwrap_err();
    assert_eq!((e.kind(), e.message()), (ErrorKind::NotFound, "Perfil não encontrado".to_string()));
    assert_eq!(AuthModuleService::access_session("t"), "access:t");
    assert_eq!(AuthModuleService::refresh_session("t"), "refresh:t");
    assert_eq!(AuthModuleService::refresh_ttl_seconds(), 604800);
    assert!(AuthModuleService::logout_response().status);
    let links = vec![role_feature::Model {
        id_role: "seller".to_string(),
        id_feature: "product".to_string(),
        create: false,
        view: true,
        activate: false,
        delete: false,
    }];
    let perms = AuthModuleService::permissions_of(&links);
    let info = AuthModuleService::user_info(&a_user(), &a_role(true), perms);
    assert_eq!((info.id.as_str(), info.role.id.as_str()), ("u1", "seller"));
    assert_eq!(info.role.permissions[0].feature, "product");
    assert!(info.role.permissions[0].view);
    let resp = AuthModuleService::auth_response("a".to_string(), "r".to_string(), info);
    assert_eq!((resp.token.as_str(), resp.refresh_token.as_str()), ("a", "r"));
}

#[test]
fn audit_paging_and_search() {
    assert_eq!(AuditModuleService::page_offset(2, 25), 50);
    assert_eq!(AuditModuleService::user_name_pattern("AnA"), "%ana%");
}

#[test]
fn debug_pdf_routes() {
    let bytes = get_mock_pdf_bytes();
    let text = String::from_utf8(bytes).unwrap();
    assert!(text.starts_with("%PDF-"));
    assert!(text.ends_with("%%EOF"));
    assert!(pdf_route_gate("development").is_ok());
    let e = pdf_route_gate("Production").unwrap_err();
    assert_eq!((e.kind(), e.message()), (ErrorKind::NotFound, "Rota não encontrada".to_string()));
    assert!(pdf_disposition(true).contains("inline"));
    assert!(pdf_disposition(false).contains("attachment"));
    assert_eq!(response_build_error("x").message(), "Failed to build response: x");
}

#[test]
fn listing_fields_of_each_resource() {
    assert_eq!(user_module::controller::search_fields(), vec!["name", "email", "Role.name"]);
    assert_eq!(role_module::controller::filter_fields(), vec!["name", "description", "active", "createdAt", "updatedAt"]);
    assert_eq!(product_module::controller::search_fields(), vec!["name", "sku", "category"]);
}

#[test]
fn slug_of_a_lower_case_name() {
    assert_eq!(RoleModuleService::slug_from_lowercase("meu perfil! 2"), "meu-perfil-2");
    assert_eq!(RoleModuleService::slug_from_lowercase("gestão"), "gestão");
    assert_eq!(RoleModuleService::slug_from_lowercase("?!"), "");
}

#[test]
fn pdf_gate_on_lower_case_environment() {
    assert_eq!(
        pdf_gate_for_lowercase("production").unwrap_err().message(),
        "Rota não encontrada"
    );
    assert!(pdf_gate_for_lowercase("development").is_ok());
    // the name is taken as given: only the lower-case spelling closes the route
    assert!(pdf_gate_for_lowercase("PRODUCTION").is_ok());
}

#[test]
fn deleted_product_is_not_found_afterwards() {
    let p = a_product();
    assert_eq!(ProductModuleService::get_product_by_id(Some(p.clone())).unwrap().id, "p1");
    let deleted = ProductModuleService::delete_product(Some(p.clone()), 500).unwrap();
    assert_eq!(deleted.is_deleted, Some(true));
    assert!(!deleted.active);
    assert_eq!(deleted.deleted_at, Some(500));
    assert_eq!(deleted.sku, "CAN-1");
    // what the delete stored is no longer seen
    let again = ProductModuleService::get_product_by_id(Some(deleted.clone())).unwrap_err();
    assert_eq!((again.kind(), again.message()), (ErrorKind::NotFound, "Produto não encontrado".to_string()));
    let twice = ProductModuleService::delete_product(Some(deleted.clone()), 600).unwrap_err();
    assert_eq!(twice.message(), "Produto não encontrado");
    assert!(ProductModuleService::toggle_product_status(Some(deleted), true, 700).is_err());
    assert!(ProductModuleService::get_product_by_id(None).is_err());
    let mut unmarked = a_product();
    unmarked.is_deleted = None;
    assert!(ProductModuleService::visible_product(Some(unmarked)).is_none());
    let toggled = ProductModuleService::toggle_product_status(Some(p), false, 800).unwrap();
    assert_eq!((toggled.active, toggled.updated_at), (false, 800));
}

#[test]
fn deleted_role_is_not_found_afterwards() {
    let r = a_role(true);
    let deleted = RoleModuleService::delete_role(Some(r.clone()), 50).unwrap();
    assert_eq!((deleted.active, deleted.is_deleted, deleted.deleted_at), (false, Some(true), Some(50)));
    assert!(RoleModuleService::visible_role(Some(deleted.clone())).is_none());
    let twice = RoleModuleService::delete_role(Some(deleted.clone()), 60).unwrap_err();
    assert_eq!((twice.kind(), twice.message()), (ErrorKind::NotFound, "Perfil não encontrado".to_string()));
    assert!(RoleModuleService::toggle_role_status(Some(deleted), true, 70).is_err());
    let toggled = RoleModuleService::toggle_role_status(Some(r), false, 80).unwrap();
    assert_eq!((toggled.active, toggled.updated_at, toggled.name.as_str()), (false, 80, "Vendedor"));
}

#[test]
fn role_update_replaces_permissions_only_when_listed() {
    let r = a_role(true);
    let payload = role_module::schemas::UpdateRoleRequest {
        name: "Vendas".to_string(),
        description: "Equipe".to_string(),
        permissions: Some(vec![PermissionRequest {
            feature: "product".to_string(),
            create: true,
            view: true,
            activate: false,
            delete: false,
        }]),
    };
    let (updated, links) = RoleModuleService::update_role(Some(r.clone()), payload, 90).unwrap();
    assert_eq!((updated.id.as_str(), updated.name.as_str(), updated.description.as_str()), ("seller", "Vendas", "Equipe"));
    assert_eq!((updated.created_at, updated.updated_at), (1, 90));
    let links = links.unwrap();
    assert_eq!(links.len(), 1);
    assert_eq!((links[0].id_role.as_str(), links[0].id_feature.as_str()), ("seller", "product"));
    assert!(links[0].create && links[0].view && !links[0].activate && !links[0].delete);

    let keep = role_module::schemas::UpdateRoleRequest {
        name: "Vendas".to_string(),
        description: "Equipe".to_string(),
        permissions: None,
    };
    let (_, links) = RoleModuleService::update_role(Some(r.clone()), keep.clone(), 91).unwrap();
    assert!(links.is_none());
    let gone = RoleModuleService::soft_delete(r, 5);
    let e = RoleModuleService::update_role(Some(gone), keep, 92).unwrap_err();
    assert_eq!(e.message(), "Perfil não encontrado");
}

#[test]
fn login_answer_from_the_role_and_its_records() {
    let links = vec![
        role_feature::Model {
            id_role: "seller".to_string(),
            id_feature: "product".to_string(),
            create: true,
            view: true,
            activate: false,
            delete: false,
        },
        role_feature::Model {
            id_role: "seller".to_string(),
            id_feature: "user".to_string(),
            create: false,
            view: true,
            activate: false,
            delete: false,
        },
    ];
    let resp = AuthModuleService::login_response(
        &a_user(),
        &a_role(true),
        &links,
        "acc".to_string(),
        "ref".to_string(),
    );
    assert_eq!((resp.token.as_str(), resp.refresh_token.as_str()), ("acc", "ref"));
    assert_eq!((resp.user.id.as_str(), resp.user.email.as_str()), ("u1", "ana@x.com"));
    assert_eq!((resp.user.role.id.as_str(), resp.user.role.name.as_str()), ("seller", "Vendedor"));
    let features: Vec<&str> = resp.user.role.permissions.iter().map(|p| p.feature.as_str()).collect();
    assert_eq!(features, vec!["product", "user"]);
    assert!(resp.user.role.permissions[0].create && !resp.user.role.permissions[1].create);
}
