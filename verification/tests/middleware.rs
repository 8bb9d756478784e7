use backend_rust::errors::ErrorKind;
use backend_rust::middleware::auth::{
    access_session_token, authorize as authorize_by_name, bearer_token, check_session, current_user,
};
use backend_rust::middleware::rbac::{action_allowed, authorize, require_current_user};
use backend_rust::models::{role, role_feature, user};

fn a_user(active: bool) -> user::Model {
    user::Model {
        id: "u1".to_string(),
        name: "Ana".to_string(),
        phone: None,
        email: "ana@x.com".to_string(),
        cognito_id: None,
        active,
        created_at: 0,
        updated_at: 0,
        document: None,
        is_deleted: Some(false),
        deleted_at: None,
        avatar: None,
        id_auth: Some("a1".to_string()),
        id_role: "seller".to_string(),
    }
}

fn a_role(id: &str, name: &str, active: bool) -> role::Model {
    role::Model {
        id: id.to_string(),
        name: name.to_string(),
        description: String::new(),
        active,
        created_at: 0,
        updated_at: 0,
        is_deleted: Some(false),
        deleted_at: None,
    }
}

fn a_mapping(create: bool, view: bool, activate: bool, delete: bool) -> role_feature::Model {
    role_feature::Model {
        id_role: "seller".to_string(),
        id_feature: "product".to_string(),
        create,
        view,
        activate,
        delete,
    }
}

#[test]
fn bearer_tokens_are_read_from_the_header() {
    assert_eq!(bearer_token(Some("Bearer abc.def")).unwrap(), "abc.def");
    assert_eq!(bearer_token(Some("Bearer ")).unwrap(), "");
    let e = bearer_token(None).unwrap_err();
    assert_eq!(e.kind(), ErrorKind::Unauthorized);
    assert_eq!(e.message(), "Cabeçalho de autorização ausente");
    let e = bearer_token(Some("Basic abc")).unwrap_err();
    assert_eq!(e.message(), "Token deve ser do tipo Bearer");
    assert!(bearer_token(Some("bearer abc")).is_err());
}

#[test]
fn sessions_of_access_tokens() {
    assert_eq!(access_session_token("t1"), "access:t1");
    assert!(check_session(true).is_ok());
    let e = check_session(false).unwrap_err();
    assert_eq!(e.kind(), ErrorKind::Unauthorized);
    assert_eq!(e.message(), "Sessão revogada ou expirada");
    let u = current_user("u1".to_string(), "a@b.c".to_string(), "admin".to_string());
    assert_eq!((u.id.as_str(), u.email.as_str(), u.role.as_str()), ("u1", "a@b.c", "admin"));
}

#[test]
fn actions_map_to_permission_flags() {
    let m = a_mapping(true, false, true, false);
    assert!(action_allowed(&m, "create"));
    assert!(!action_allowed(&m, "view"));
    assert!(action_allowed(&m, "activate"));
    assert!(!action_allowed(&m, "delete"));
    assert!(!action_allowed(&a_mapping(true, true, true, true), "update"));
}

#[test]
fn authorization_steps_and_refusals() {
    let seller = Some(a_role("seller", "Vendedor", true));
    let m = Some(a_mapping(false, true, false, false));
    assert!(authorize(&Some(a_user(true)), &seller, &m, "product", "view").is_ok());

    let e = authorize(&None, &seller, &m, "product", "view").unwrap_err();
    assert_eq!((e.kind(), e.message()), (ErrorKind::Unauthorized, "Usuário não encontrado ou inativo".to_string()));
    let e = authorize(&Some(a_user(false)), &seller, &m, "product", "view").unwrap_err();
    assert_eq!((e.kind(), e.message()), (ErrorKind::Forbidden, "Usuário inativo no sistema".to_string()));
    let e = authorize(&Some(a_user(true)), &None, &m, "product", "view").unwrap_err();
    assert_eq!((e.kind(), e.message()), (ErrorKind::Unauthorized, "Perfil não encontrado ou inativo".to_string()));
    let e = authorize(&Some(a_user(true)), &Some(a_role("seller", "V", false)), &m, "product", "view").unwrap_err();
    assert_eq!((e.kind(), e.message()), (ErrorKind::Forbidden, "Perfil de acesso inativo".to_string()));
    let e = authorize(&Some(a_user(true)), &seller, &m, "product", "delete").unwrap_err();
    assert_eq!(e.kind(), ErrorKind::Forbidden);
    assert_eq!(e.message(), "Sem permissão para executar a ação 'delete' na funcionalidade 'product'");
    assert!(authorize(&Some(a_user(true)), &seller, &None, "product", "view").is_err());
}

#[test]
fn administrators_may_do_anything() {
    let admin = Some(a_role("administrator", "Administrador", true));
    assert!(authorize(&Some(a_user(true)), &admin, &None, "product", "delete").is_ok());
    assert!(authorize_by_name(&Some(a_user(true)), &admin, &None, "audit", "view").is_ok());
    // A role that is only named like the administrator role gets no bypass.
    let named = Some(a_role("r9", "administrator", true));
    assert!(authorize_by_name(&Some(a_user(true)), &named, &None, "role", "activate").is_err());
    assert!(authorize(&Some(a_user(true)), &named, &None, "role", "activate").is_err());
}

#[test]
fn permission_routes_need_a_user() {
    let e = require_current_user(None).unwrap_err();
    assert_eq!((e.kind(), e.message()), (ErrorKind::Unauthorized, "Usuário não autenticado".to_string()));
    let u = current_user("u1".to_string(), "e".to_string(), "r".to_string());
    assert_eq!(require_current_user(Some(u)).unwrap().id, "u1");
}
