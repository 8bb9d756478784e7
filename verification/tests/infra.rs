use backend_rust::errors::{AppError, ErrorKind};
use backend_rust::infra::bootstrap::{
    admin_permission, admin_role_rename, bootstrap_plan, seed_features, SeedAction, seeded_admin_credentials,
    seeded_admin_role, seeded_admin_user, seeded_feature,
};
use backend_rust::infra::cache::{
    cache_error, rate_limit_admission, rate_limit_key, rate_limit_outcome, rate_limit_window_start, session_key,
    user_sessions_pattern, CacheFailure,
};
use backend_rust::infra::sessions::{
    issued_sessions, refresh_rotation, revocation_outcome, revoked_users, AccountChange,
};
use backend_rust::infra::email::{
    email_error, smtp_settings, EmailFailure, EmailService, MockEmailService,
};
use backend_rust::infra::messaging::{
    channel_gate, channel_plan, delivery_action, ChannelPlan, messaging_error, DeliveryAction, MessagingFailure,
};

#[test]
fn rate_limit_exceeded_after_the_limit() {
    // limit 1: the first request is let through, the second is not
    assert_eq!(rate_limit_outcome(0, 1), (true, 0, 1));
    assert_eq!(rate_limit_outcome(1, 1), (false, 0, 1));
    assert_eq!(rate_limit_outcome(3, 10), (true, 6, 10));
    assert_eq!(rate_limit_outcome(10, 10), (false, 0, 10));
    assert_eq!(rate_limit_outcome(0, 0), (false, 0, 0));
    assert_eq!(rate_limit_window_start(10_000, 10), 0);
    assert_eq!(rate_limit_key("ip:1"), "ratelimit:ip:1");
}

#[test]
fn session_keys() {
    assert_eq!(session_key("u1", "access:t"), "session:u1:access:t");
    assert_eq!(user_sessions_pattern("u1"), "session:u1:*");
}

#[test]
fn cache_errors_name_the_operation() {
    let e = cache_error(CacheFailure::ExpireSessions, "Forced DEL error");
    assert_eq!(e.kind(), ErrorKind::Internal);
    assert!(e.message().contains("Erro ao expirar sessões antigas"));
    assert_eq!(cache_error(CacheFailure::SaveSession, "x").message(), "Erro ao salvar sessão: x");
    assert_eq!(cache_error(CacheFailure::RateLimiter, "x").message(), "Erro no Rate Limiter: x");
}

#[test]
fn messaging_without_a_channel() {
    assert_eq!(channel_gate(false, false).unwrap(), false);
    assert_eq!(channel_gate(true, true).unwrap(), true);
    let e = channel_gate(false, true).unwrap_err();
    assert_eq!(e.message(), "RabbitMQ channel not initialized");
    let e = messaging_error(MessagingFailure::CreateChannel, "limit");
    assert!(e.message().contains("Failed to create RabbitMQ channel"));
    assert_eq!(delivery_action(true, true), DeliveryAction::HandleAndAck);
    assert_eq!(delivery_action(true, false), DeliveryAction::Nack);
    assert_eq!(delivery_action(false, true), DeliveryAction::Ignore);
}

#[test]
fn smtp_settings_and_defaults() {
    let s = smtp_settings(None, None, Some("u".to_string()), None, None);
    assert_eq!(s.host, "localhost");
    assert_eq!(s.port, 1025);
    assert_eq!(s.from_address, "no-reply@mage.com");
    assert!(s.credentials.is_none());
    let s = smtp_settings(
        Some("smtp.x".to_string()),
        Some("2525".to_string()),
        Some("u".to_string()),
        Some("p".to_string()),
        Some("a@b.c".to_string()),
    );
    assert_eq!((s.host.as_str(), s.port, s.from_address.as_str()), ("smtp.x", 2525, "a@b.c"));
    assert_eq!(s.credentials, Some(("u".to_string(), "p".to_string())));
    assert_eq!(smtp_settings(None, Some("70000".to_string()), None, None, None).port, 1025);
    assert_eq!(smtp_settings(None, Some("port".to_string()), None, None, None).port, 1025);
    assert!(MockEmailService.send_email("a@b.c", "s", "b").is_ok());
    assert_eq!(email_error(EmailFailure::Recipient, "").kind(), ErrorKind::BadRequest);
    assert_eq!(email_error(EmailFailure::Send, "down").message(), "Falha no envio de e-mail SMTP: down");
}

#[test]
fn seeded_data() {
    let f = seed_features();
    assert_eq!(f.len(), 3);
    assert_eq!(f[1], ("role".to_string(), "Gestão de Perfis de Acesso".to_string()));
    let feat = seeded_feature("user", "Gestão de Usuários", 5);
    assert_eq!((feat.id.as_str(), feat.name.as_str(), feat.active), ("user", "user", true));
    let r = seeded_admin_role(5);
    assert_eq!((r.id.as_str(), r.name.as_str()), ("administrator", "Administrador"));
    assert!(admin_role_rename(r.clone()).is_none());
    let mut renamed = r.clone();
    renamed.name = "Admin".to_string();
    assert_eq!(admin_role_rename(renamed).unwrap().name, "Administrador");
    let p = admin_permission("product");
    assert!(p.create && p.view && p.activate && p.delete);
    let a = seeded_admin_credentials("hash".to_string(), 5);
    assert_eq!(a.password, Some("hash".to_string()));
    assert!(!a.first_access);
    let u = seeded_admin_user(5);
    assert_eq!(u.email, "admin@email.com");
    assert_eq!(u.id_auth, Some(a.id));
}

#[test]
fn bootstrap_on_an_empty_database_seeds_everything() {
    let plan = bootstrap_plan(
        &vec![false, false, false],
        None,
        &vec![false, false, false],
        false,
        "hash".to_string(),
        7,
    );
    assert_eq!(plan.len(), 9);
    let features: Vec<String> = plan[..3]
        .iter()
        .map(|a| match a {
            SeedAction::InsertFeature(m) => m.id.clone(),
            _ => panic!("expected a feature"),
        })
        .collect();
    assert_eq!(features, vec!["user", "role", "product"]);
    assert!(matches!(&plan[3], SeedAction::InsertAdminRole(r) if r.name == "Administrador" && r.created_at == 7));
    let permissions: Vec<String> = plan[4..7]
        .iter()
        .map(|a| match a {
            SeedAction::InsertPermission(m) => format!("{}/{}", m.id_role, m.id_feature),
            _ => panic!("expected a permission"),
        })
        .collect();
    assert_eq!(
        permissions,
        vec!["administrator/user", "administrator/role", "administrator/product"]
    );
    assert!(matches!(&plan[7], SeedAction::InsertAdminCredentials(a) if a.password == Some("hash".to_string())));
    assert!(matches!(&plan[8], SeedAction::InsertAdminUser(u) if u.email == "admin@email.com"));
}

#[test]
fn bootstrap_twice_changes_nothing() {
    let plan = bootstrap_plan(
        &vec![true, true, true],
        Some(seeded_admin_role(1)),
        &vec![true, true, true],
        true,
        "hash".to_string(),
        7,
    );
    assert!(plan.is_empty());
}

#[test]
fn bootstrap_fills_only_the_gaps() {
    let mut role = seeded_admin_role(1);
    role.name = "Admin".to_string();
    let plan = bootstrap_plan(
        &vec![true, false, true],
        Some(role),
        &vec![true, true, false],
        true,
        "hash".to_string(),
        7,
    );
    assert_eq!(plan.len(), 3);
    assert!(matches!(&plan[0], SeedAction::InsertFeature(m) if m.id == "role" && m.description == "Gestão de Perfis de Acesso"));
    assert!(matches!(&plan[1], SeedAction::RenameAdminRole(r) if r.name == "Administrador" && r.created_at == 1));
    assert!(matches!(&plan[2], SeedAction::InsertPermission(m) if m.id_feature == "product"));
}

#[test]
fn changes_end_the_right_sessions() {
    let members = vec!["u1".to_string(), "u2".to_string()];
    for change in [
        AccountChange::Logout,
        AccountChange::UserUpdated,
        AccountChange::UserDeleted,
        AccountChange::UserStatusChanged,
    ] {
        assert_eq!(revoked_users(change, "u9", &members), vec!["u9".to_string()]);
    }
    for change in [
        AccountChange::RoleUpdated,
        AccountChange::RoleDeleted,
        AccountChange::RoleStatusChanged,
    ] {
        assert_eq!(revoked_users(change, "seller", &members), members);
    }
    assert!(revoked_users(AccountChange::RoleDeleted, "seller", &vec![]).is_empty());
    // each revoked user's pattern reaches that user's entries only
    assert_eq!(user_sessions_pattern("u1"), "session:u1:*");
}

#[test]
fn refresh_rotates_the_sessions() {
    let r = refresh_rotation("u1", "old", "acc", "new", 3600);
    assert_eq!(r.ended, "session:u1:refresh:old");
    assert_eq!(
        r.opened,
        vec![
            ("session:u1:access:acc".to_string(), 3600),
            ("session:u1:refresh:new".to_string(), 604800),
        ]
    );
}

#[test]
fn only_the_first_requests_of_a_window_pass() {
    let limit = 3;
    let mut counted = 0;
    let mut allowed = Vec::new();
    for _ in 0..5 {
        let (ok, _, _) = rate_limit_outcome(counted, limit);
        if ok {
            counted += 1;
        }
        allowed.push(ok);
    }
    assert_eq!(allowed, vec![true, true, true, false, false]);
    assert_eq!(counted, 3);
}

#[test]
fn login_opens_access_and_refresh_sessions() {
    assert_eq!(
        issued_sessions("u1", "acc", "ref", 900),
        vec![
            ("session:u1:access:acc".to_string(), 900),
            ("session:u1:refresh:ref".to_string(), 604800),
        ]
    );
}

#[test]
fn a_failed_revocation_fails_the_change() {
    assert!(revocation_outcome(&vec![Ok(()), Ok(())]).is_ok());
    assert!(revocation_outcome(&vec![]).is_ok());
    let e = revocation_outcome(&vec![
        Ok(()),
        Err(AppError::Internal("first".to_string())),
        Err(AppError::Internal("second".to_string())),
    ])
    .unwrap_err();
    assert_eq!((e.kind(), e.message()), (ErrorKind::Internal, "first".to_string()));
}

#[test]
fn admission_counts_the_request_itself() {
    // limit 2: the first two entries of a window pass, the third does not
    assert_eq!(rate_limit_admission(1, 2), (true, 1, 2));
    assert_eq!(rate_limit_admission(2, 2), (true, 0, 2));
    assert_eq!(rate_limit_admission(3, 2), (false, 0, 2));
}

#[test]
fn lost_channels_are_reopened() {
    assert_eq!(channel_plan(true, true, true).unwrap(), ChannelPlan::Use);
    assert_eq!(channel_plan(true, false, true).unwrap(), ChannelPlan::Reconnect);
    assert_eq!(channel_plan(false, false, false).unwrap(), ChannelPlan::Skip);
    assert_eq!(channel_plan(false, false, true).unwrap_err().message(), "RabbitMQ channel not initialized");
}
