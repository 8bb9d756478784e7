use vstd::prelude::*;

use crate::models::{auth, feature, role, role_feature, user};
use crate::text::str_eq;

verus! {

broadcast use vstd::string::group_string_axioms;

// ---------------------------------------------------------------------------
// The seed data
// ---------------------------------------------------------------------------
/// The id of the `k`-th seeded feature (`user`, `role`, `product`).
pub open spec fn seed_feature_id(k: int) -> Seq<char> {
    if k == 0 {
        "user"@
    } else if k == 1 {
        "role"@
    } else {
        "product"@
    }
}

/// The description of the `k`-th seeded feature.
pub open spec fn seed_feature_description(k: int) -> Seq<char> {
    if k == 0 {
        "Gestão de Usuários"@
    } else if k == 1 {
        "Gestão de Perfis de Acesso"@
    } else {
        "Gestão de Produtos"@
    }
}

/// A seeded feature: named by its id, active, created now.
pub open spec fn is_seeded_feature(m: feature::Model, id: Seq<char>, description: Seq<char>, now: i64) -> bool {
    &&& m.id@ == id
    &&& m.name@ == id
    &&& m.description@ == description
    &&& m.active
    &&& m.created_at == now
    &&& m.updated_at == now
}

/// The administrator role as seeded.
pub open spec fn is_seeded_admin_role(r: role::Model, now: i64) -> bool {
    &&& r.id@ == "administrator"@
    &&& r.name@ == "Administrador"@
    &&& r.description@ == "Perfil com acesso total ao sistema"@
    &&& r.active
    &&& r.created_at == now
    &&& r.updated_at == now
    &&& r.is_deleted == Some(false)
    &&& r.deleted_at is None
}

/// The administrator role's permission record for a feature: everything.
pub open spec fn is_admin_permission(m: role_feature::Model, feature_id: Seq<char>) -> bool {
    &&& m.id_role@ == "administrator"@
    &&& m.id_feature@ == feature_id
    &&& m.create && m.view && m.activate && m.delete
}

/// The credentials of the seeded administrator.
pub open spec fn is_seeded_admin_credentials(r: auth::Model, password_hash: String, now: i64) -> bool {
    &&& r.id@ == "auth-admin-uuid-00000000000000000001"@
    &&& r.password == Some(password_hash)
    &&& r.request_password_token is None
    &&& r.request_password_expiration is None
    &&& r.retries == 0
    &&& !r.first_access
    &&& r.active
    &&& r.is_deleted == Some(false)
    &&& r.deleted_at is None
    &&& r.created_at == now
    &&& r.updated_at == now
}

/// The seeded administrator user, linked to its credentials and to the
/// administrator role.
pub open spec fn is_seeded_admin_user(r: user::Model, now: i64) -> bool {
    &&& r.id@ == "user-admin-uuid-00000000000000000001"@
    &&& r.name@ == "Supreme Administrator"@
    &&& r.phone matches Some(p) && p@ == "11999999999"@
    &&& r.email@ == "admin@email.com"@
    &&& r.cognito_id is None
    &&& r.active
    &&& r.created_at == now
    &&& r.updated_at == now
    &&& r.document matches Some(d) && d@ == "00000000000"@
    &&& r.is_deleted == Some(false)
    &&& r.deleted_at is None
    &&& r.avatar is None
    &&& r.id_auth matches Some(a) && a@ == "auth-admin-uuid-00000000000000000001"@
    &&& r.id_role@ == "administrator"@
}

/// The administrator role under its own name again, the rest kept.
pub open spec fn is_renamed_admin_role(m: role::Model, existing: role::Model) -> bool {
    m == (role::Model { name: m.name, ..existing }) && m.name@ == "Administrador"@
}

/// The id of the administrator role.
pub fn admin_role_id() -> (r: String)
    ensures
        r@ == "administrator"@,
{
    String::from_str("administrator")
}

/// The e-mail of the administrator seeded at start-up.
pub fn admin_email() -> (r: String)
    ensures
        r@ == "admin@email.com"@,
{
    String::from_str("admin@email.com")
}

/// The features seeded at start-up, with their descriptions.
pub fn seed_features() -> (r: Vec<(String, String)>)
    ensures
        r@.len() == 3,
        forall|k: int|
            0 <= k < 3 ==> (#[trigger] r@[k]).0@ == seed_feature_id(k) && r@[k].1@
                == seed_feature_description(k),
{
    let mut r = Vec::new();
    r.push((String::from_str("user"), String::from_str("Gestão de Usuários")));
    r.push((String::from_str("role"), String::from_str("Gestão de Perfis de Acesso")));
    r.push((String::from_str("product"), String::from_str("Gestão de Produtos")));
    r
}

/// A seeded feature: named by its id, active.
pub fn seeded_feature(id: &str, description: &str, now: i64) -> (r: feature::Model)
    ensures
        is_seeded_feature(r, id@, description@, now),
{
    feature::Model {
        id: String::from_str(id),
        name: String::from_str(id),
        description: String::from_str(description),
        active: true,
        created_at: now,
        updated_at: now,
    }
}

/// The administrator role as seeded.
pub fn seeded_admin_role(now: i64) -> (r: role::Model)
    ensures
        is_seeded_admin_role(r, now),
{
    role::Model {
        id: String::from_str("administrator"),
        name: String::from_str("Administrador"),
        description: String::from_str("Perfil com acesso total ao sistema"),
        active: true,
        created_at: now,
        updated_at: now,
        is_deleted: Some(false),
        deleted_at: None,
    }
}

/// An existing administrator role under another name gets its name back;
/// `None` where nothing is to change.
pub fn admin_role_rename(existing: role::Model) -> (r: Option<role::Model>)
    ensures
        existing.name@ == "Administrador"@ ==> r is None,
        existing.name@ != "Administrador"@ ==> (r matches Some(m) && is_renamed_admin_role(
            m,
            existing,
        )),
{
    if str_eq(existing.name.as_str(), "Administrador") {
        None
    } else {
        let mut m = existing;
        m.name = String::from_str("Administrador");
        Some(m)
    }
}

/// The administrator role's permission record for a feature: everything.
pub fn admin_permission(feature_id: &str) -> (r: role_feature::Model)
    ensures
        is_admin_permission(r, feature_id@),
{
    role_feature::Model {
        id_role: String::from_str("administrator"),
        id_feature: String::from_str(feature_id),
        create: true,
        view: true,
        activate: true,
        delete: true,
    }
}

/// The credentials of the seeded administrator, with the hash of the
/// initial password.
pub fn seeded_admin_credentials(password_hash: String, now: i64) -> (r: auth::Model)
    ensures
        is_seeded_admin_credentials(r, password_hash, now),
{
    auth::Model {
        id: String::from_str("auth-admin-uuid-00000000000000000001"),
        password: Some(password_hash),
        request_password_token: None,
        request_password_expiration: None,
        retries: 0,
        first_access: false,
        active: true,
        is_deleted: Some(false),
        deleted_at: None,
        created_at: now,
        updated_at: now,
    }
}

/// The seeded administrator user.
pub fn seeded_admin_user(now: i64) -> (r: user::Model)
    ensures
        is_seeded_admin_user(r, now),
{
    user::Model {
        id: String::from_str("user-admin-uuid-00000000000000000001"),
        name: String::from_str("Supreme Administrator"),
        phone: Some(String::from_str("11999999999")),
        email: String::from_str("admin@email.com"),
        cognito_id: None,
        active: true,
        created_at: now,
        updated_at: now,
        document: Some(String::from_str("00000000000")),
        is_deleted: Some(false),
        deleted_at: None,
        avatar: None,
        id_auth: Some(String::from_str("auth-admin-uuid-00000000000000000001")),
        id_role: String::from_str("administrator"),
    }
}

// ---------------------------------------------------------------------------
// The start-up routine
// ---------------------------------------------------------------------------
/// A change that the start-up routine makes to the database.
#[derive(Debug, Clone)]
pub enum SeedAction {
    InsertFeature(feature::Model),
    InsertAdminRole(role::Model),
    RenameAdminRole(role::Model),
    InsertPermission(role_feature::Model),
    InsertAdminCredentials(auth::Model),
    InsertAdminUser(user::Model),
}

/// Which change, in the order the routine makes them.
pub enum SeedSlot {
    Feature(int),
    AdminRole,
    RenameAdminRole,
    Permission(int),
    AdminCredentials,
    AdminUser,
}

/// The `k`-th item among the first `n` that is absent, for each of them in
/// order.
pub open spec fn absent_features(present: Seq<bool>, n: int) -> Seq<SeedSlot>
    decreases n,
{
    if n <= 0 {
        Seq::empty()
    } else if present[n - 1] {
        absent_features(present, n - 1)
    } else {
        absent_features(present, n - 1).push(SeedSlot::Feature(n - 1))
    }
}

pub open spec fn absent_permissions(present: Seq<bool>, n: int) -> Seq<SeedSlot>
    decreases n,
{
    if n <= 0 {
        Seq::empty()
    } else if present[n - 1] {
        absent_permissions(present, n - 1)
    } else {
        absent_permissions(present, n - 1).push(SeedSlot::Permission(n - 1))
    }
}

/// The role change: insert the administrator role where it is missing,
/// rename it where it has another name.
pub open spec fn role_slots(admin_role: Option<role::Model>) -> Seq<SeedSlot> {
    match admin_role {
        None => seq![SeedSlot::AdminRole],
        Some(r) => if r.name@ == "Administrador"@ {
            Seq::empty()
        } else {
            seq![SeedSlot::RenameAdminRole]
        },
    }
}

/// The user change: credentials and user where the administrator user is
/// missing.
pub open spec fn user_slots(admin_user_present: bool) -> Seq<SeedSlot> {
    if admin_user_present {
        Seq::empty()
    } else {
        seq![SeedSlot::AdminCredentials, SeedSlot::AdminUser]
    }
}

/// The changes of the start-up routine, in order: each seeded feature that
/// is absent, the administrator role, each of its absent permission
/// records, and the administrator's credentials and user.
pub open spec fn planned(
    features_present: Seq<bool>,
    admin_role: Option<role::Model>,
    permissions_present: Seq<bool>,
    admin_user_present: bool,
) -> Seq<SeedSlot> {
    absent_features(features_present, 3) + role_slots(admin_role) + absent_permissions(
        permissions_present,
        3,
    ) + user_slots(admin_user_present)
}

/// The action makes the planned change.
pub open spec fn fulfills(
    a: SeedAction,
    slot: SeedSlot,
    admin_role: Option<role::Model>,
    password_hash: String,
    now: i64,
) -> bool {
    match slot {
        SeedSlot::Feature(k) => a matches SeedAction::InsertFeature(m) && is_seeded_feature(
            m,
            seed_feature_id(k),
            seed_feature_description(k),
            now,
        ),
        SeedSlot::AdminRole => a matches SeedAction::InsertAdminRole(m) && is_seeded_admin_role(
            m,
            now,
        ),
        SeedSlot::RenameAdminRole => a matches SeedAction::RenameAdminRole(m) && admin_role is Some
            && is_renamed_admin_role(m, admin_role->Some_0),
        SeedSlot::Permission(k) => a matches SeedAction::InsertPermission(m) && is_admin_permission(
            m,
            seed_feature_id(k),
        ),
        SeedSlot::AdminCredentials => a matches SeedAction::InsertAdminCredentials(m)
            && is_seeded_admin_credentials(m, password_hash, now),
        SeedSlot::AdminUser => a matches SeedAction::InsertAdminUser(m) && is_seeded_admin_user(
            m,
            now,
        ),
    }
}

/// The actions make exactly the planned changes, in order.
pub open spec fn carries_out(
    actions: Seq<SeedAction>,
    plan: Seq<SeedSlot>,
    admin_role: Option<role::Model>,
    password_hash: String,
    now: i64,
) -> bool {
    &&& actions.len() == plan.len()
    &&& forall|i: int|
        0 <= i < actions.len() ==> fulfills(
            #[trigger] actions[i],
            plan[i],
            admin_role,
            password_hash,
            now,
        )
}

/// The actions insert the `k`-th seeded feature.
pub open spec fn inserts_feature(actions: Seq<SeedAction>, k: int) -> bool {
    exists|i: int|
        0 <= i < actions.len() && (#[trigger] actions[i] matches SeedAction::InsertFeature(m)
            && m.id@ == seed_feature_id(k))
}

/// The actions insert the administrator's permission on the `k`-th seeded
/// feature.
pub open spec fn inserts_permission(actions: Seq<SeedAction>, k: int) -> bool {
    exists|i: int|
        0 <= i < actions.len() && (#[trigger] actions[i] matches SeedAction::InsertPermission(m)
            && m.id_feature@ == seed_feature_id(k))
}

/// The actions rename the administrator role.
pub open spec fn renames_admin_role(actions: Seq<SeedAction>) -> bool {
    exists|i: int| 0 <= i < actions.len() && #[trigger] actions[i] is RenameAdminRole
}

/// Everything that the start-up routine seeds is there, the administrator
/// role under its own name.
pub open spec fn fully_seeded(
    features_present: Seq<bool>,
    admin_role: Option<role::Model>,
    permissions_present: Seq<bool>,
    admin_user_present: bool,
) -> bool {
    &&& forall|k: int| 0 <= k < 3 ==> #[trigger] features_present[k]
    &&& forall|k: int| 0 <= k < 3 ==> #[trigger] permissions_present[k]
    &&& admin_role matches Some(m) && m.name@ == "Administrador"@
    &&& admin_user_present
}

/// What the start-up routine does, given what it found: whether each
/// seeded feature exists (`user`, `role`, `product`), the administrator role
/// if it exists, whether each of its permission records exists (same
/// order), whether the administrator user exists, the hash of the initial
/// password, and the time. Each seed is inserted exactly when it is absent;
/// the administrator role is renamed exactly when it has another name.
pub fn bootstrap_plan(
    features_present: &Vec<bool>,
    admin_role: Option<role::Model>,
    permissions_present: &Vec<bool>,
    admin_user_present: bool,
    password_hash: String,
    now: i64,
) -> (r: Vec<SeedAction>)
    requires
        features_present@.len() == 3,
        permissions_present@.len() == 3,
    ensures
        carries_out(
            r@,
            planned(features_present@, admin_role, permissions_present@, admin_user_present),
            admin_role,
            password_hash,
            now,
        ),
        forall|k: int|
            0 <= k < 3 ==> (inserts_feature(r@, k) <==> !features_present@[k]) && (
            inserts_permission(r@, k) <==> !permissions_present@[k]),
        renames_admin_role(r@) <==> (admin_role matches Some(m) && m.name@ != "Administrador"@),
        r@.len() == 0 <==> fully_seeded(
            features_present@,
            admin_role,
            permissions_present@,
            admin_user_present,
        ),
{
    let ghost role0 = admin_role;
    let ghost hash0 = password_hash;
    let seeds = seed_features();
    let mut r: Vec<SeedAction> = Vec::new();
    let mut k: usize = 0;
    while k < 3
        invariant
            0 <= k <= 3,
            features_present@.len() == 3,
            seeds@.len() == 3,
            forall|j: int|
                0 <= j < 3 ==> (#[trigger] seeds@[j]).0@ == seed_feature_id(j) && seeds@[j].1@
                    == seed_feature_description(j),
            carries_out(r@, absent_features(features_present@, k as int), role0, hash0, now),
        decreases 3 - k,
    {
        let ghost before = r@;
        if !features_present[k] {
            let f = seeded_feature(seeds[k].0.as_str(), seeds[k].1.as_str(), now);
            r.push(SeedAction::InsertFeature(f));
            assert(r@ =~= before.push(SeedAction::InsertFeature(f)));
        }
        k = k + 1;
    }
    let ghost after_features = r@;
    let ghost p1 = absent_features(features_present@, 3);
    match admin_role {
        None => {
            r.push(SeedAction::InsertAdminRole(seeded_admin_role(now)));
        },
        Some(existing) => {
            match admin_role_rename(existing) {
                Some(m) => {
                    r.push(SeedAction::RenameAdminRole(m));
                },
                None => {},
            }
        },
    }
    let ghost p2 = p1 + role_slots(role0);
    assert(carries_out(r@, p2, role0, hash0, now)) by {
        assert forall|i: int| 0 <= i < r@.len() implies fulfills(
            #[trigger] r@[i],
            p2[i],
            role0,
            hash0,
            now,
        ) by {
            if i < p1.len() {
                assert(r@[i] == after_features[i]);
                assert(p2[i] == p1[i]);
            }
        }
    }
    let mut k: usize = 0;
    let ghost after_role = r@;
    while k < 3
        invariant
            0 <= k <= 3,
            permissions_present@.len() == 3,
            seeds@.len() == 3,
            forall|j: int|
                0 <= j < 3 ==> (#[trigger] seeds@[j]).0@ == seed_feature_id(j) && seeds@[j].1@
                    == seed_feature_description(j),
            carries_out(after_role, p2, role0, hash0, now),
            r@.len() >= after_role.len(),
            r@.subrange(0, after_role.len() as int) == after_role,
            carries_out(
                r@.subrange(after_role.len() as int, r@.len() as int),
                absent_permissions(permissions_present@, k as int),
                role0,
                hash0,
                now,
            ),
        decreases 3 - k,
    {
        let ghost before = r@;
        if !permissions_present[k] {
            let m = admin_permission(seeds[k].0.as_str());
            r.push(SeedAction::InsertPermission(m));
            assert(r@.subrange(0, after_role.len() as int) =~= before.subrange(
                0,
                after_role.len() as int,
            ));
            assert(r@.subrange(after_role.len() as int, r@.len() as int) =~= before.subrange(
                after_role.len() as int,
                before.len() as int,
            ).push(SeedAction::InsertPermission(m)));
        }
        k = k + 1;
    }
    let ghost p3 = p2 + absent_permissions(permissions_present@, 3);
    assert(carries_out(r@, p3, role0, hash0, now)) by {
        let n = after_role.len() as int;
        assert forall|i: int| 0 <= i < r@.len() implies fulfills(
            #[trigger] r@[i],
            p3[i],
            role0,
            hash0,
            now,
        ) by {
            if i < n {
                assert(r@[i] == r@.subrange(0, n)[i]);
                assert(p3[i] == p2[i]);
            } else {
                assert(r@[i] == r@.subrange(n, r@.len() as int)[i - n]);
                assert(p3[i] == absent_permissions(permissions_present@, 3)[i - n]);
            }
        }
    }
    let ghost after_permissions = r@;
    if !admin_user_present {
        r.push(SeedAction::InsertAdminCredentials(seeded_admin_credentials(password_hash, now)));
        r.push(SeedAction::InsertAdminUser(seeded_admin_user(now)));
    }
    let ghost p4 = p3 + user_slots(admin_user_present);
    assert(carries_out(r@, p4, role0, hash0, now)) by {
        assert forall|i: int| 0 <= i < r@.len() implies fulfills(
            #[trigger] r@[i],
            p4[i],
            role0,
            hash0,
            now,
        ) by {
            if i < p3.len() {
                assert(r@[i] == after_permissions[i]);
                assert(p4[i] == p3[i]);
            }
        }
    }
    proof {
        assert(p4 == planned(features_present@, role0, permissions_present@, admin_user_present));
        assert forall|k: int| 0 <= k < 3 implies (inserts_feature(r@, k)
            <==> !features_present@[k]) && (inserts_permission(r@, k)
            <==> !permissions_present@[k]) by {
            lemma_plan_inserts_iff_absent(
                r@,
                features_present@,
                role0,
                permissions_present@,
                admin_user_present,
                hash0,
                now,
                k,
            );
        }
        lemma_plan_renames_and_empties(
            r@,
            features_present@,
            role0,
            permissions_present@,
            admin_user_present,
            hash0,
            now,
        );
    }
    r
}

proof fn lemma_seed_ids_distinct(j: int, k: int)
    requires
        0 <= j < 3,
        0 <= k < 3,
        seed_feature_id(j) == seed_feature_id(k),
    ensures
        j == k,
{
    reveal_strlit("user");
    reveal_strlit("role");
    reveal_strlit("product");
    assert("user"@[0] != "role"@[0]);
    assert("user"@.len() != "product"@.len());
    assert("role"@.len() != "product"@.len());
}

/// Actions that carry out the plan insert a seeded feature, or the
/// administrator's permission on it, exactly when it is absent.
pub proof fn lemma_plan_inserts_iff_absent(
    actions: Seq<SeedAction>,
    features_present: Seq<bool>,
    admin_role: Option<role::Model>,
    permissions_present: Seq<bool>,
    admin_user_present: bool,
    password_hash: String,
    now: i64,
    k: int,
)
    requires
        features_present.len() == 3,
        permissions_present.len() == 3,
        0 <= k < 3,
        carries_out(
            actions,
            planned(features_present, admin_role, permissions_present, admin_user_present),
            admin_role,
            password_hash,
            now,
        ),
    ensures
        inserts_feature(actions, k) <==> !features_present[k],
        inserts_permission(actions, k) <==> !permissions_present[k],
{
    let a = absent_features(features_present, 3);
    let rs = role_slots(admin_role);
    let p = absent_permissions(permissions_present, 3);
    let u = user_slots(admin_user_present);
    let plan = planned(features_present, admin_role, permissions_present, admin_user_present);
    let na = a.len() as int;
    let nr = rs.len() as int;
    let np = p.len() as int;
    lemma_seed_inserted_iff_absent(features_present, 3, k);
    lemma_seed_inserted_iff_absent(permissions_present, 3, k);
    lemma_slots_below(features_present, 3);
    lemma_slots_below(permissions_present, 3);
    assert(plan.len() == na + nr + np + u.len());
    if !features_present[k] {
        let i = choose|i: int| 0 <= i < a.len() && a[i] == SeedSlot::Feature(k);
        assert(plan[i] == a[i]);
        assert(fulfills(actions[i], plan[i], admin_role, password_hash, now));
        assert(inserts_feature(actions, k));
    }
    if inserts_feature(actions, k) {
        let i = choose|i: int|
            0 <= i < actions.len() && (#[trigger] actions[i] matches SeedAction::InsertFeature(m)
                && m.id@ == seed_feature_id(k));
        assert(fulfills(actions[i], plan[i], admin_role, password_hash, now));
        if i < na {
            assert(plan[i] == a[i]);
            let j = a[i]->Feature_0;
            lemma_seed_ids_distinct(j, k);
            assert(a.contains(SeedSlot::Feature(k)));
        } else if i < na + nr {
            assert(plan[i] == rs[i - na]);
        } else if i < na + nr + np {
            assert(plan[i] == p[i - na - nr]);
        } else {
            assert(plan[i] == u[i - na - nr - np]);
        }
    }
    if !permissions_present[k] {
        let i = choose|i: int| 0 <= i < p.len() && p[i] == SeedSlot::Permission(k);
        assert(plan[na + nr + i] == p[i]);
        assert(fulfills(actions[na + nr + i], plan[na + nr + i], admin_role, password_hash, now));
        assert(inserts_permission(actions, k));
    }
    if inserts_permission(actions, k) {
        let i = choose|i: int|
            0 <= i < actions.len() && (#[trigger] actions[i] matches SeedAction::InsertPermission(m)
                && m.id_feature@ == seed_feature_id(k));
        assert(fulfills(actions[i], plan[i], admin_role, password_hash, now));
        if i < na {
            assert(plan[i] == a[i]);
        } else if i < na + nr {
            assert(plan[i] == rs[i - na]);
        } else if i < na + nr + np {
            assert(plan[i] == p[i - na - nr]);
            let j = p[i - na - nr]->Permission_0;
            lemma_seed_ids_distinct(j, k);
            assert(p.contains(SeedSlot::Permission(k)));
        } else {
            assert(plan[i] == u[i - na - nr - np]);
        }
    }
}

/// Actions that carry out the plan rename the administrator role exactly
/// when it has another name, and are none exactly when everything is
/// seeded.
pub proof fn lemma_plan_renames_and_empties(
    actions: Seq<SeedAction>,
    features_present: Seq<bool>,
    admin_role: Option<role::Model>,
    permissions_present: Seq<bool>,
    admin_user_present: bool,
    password_hash: String,
    now: i64,
)
    requires
        features_present.len() == 3,
        permissions_present.len() == 3,
        carries_out(
            actions,
            planned(features_present, admin_role, permissions_present, admin_user_present),
            admin_role,
            password_hash,
            now,
        ),
    ensures
        renames_admin_role(actions) <==> (admin_role matches Some(m) && m.name@
            != "Administrador"@),
        actions.len() == 0 <==> fully_seeded(
            features_present,
            admin_role,
            permissions_present,
            admin_user_present,
        ),
{
    let a = absent_features(features_present, 3);
    let rs = role_slots(admin_role);
    let p = absent_permissions(permissions_present, 3);
    let u = user_slots(admin_user_present);
    let plan = planned(features_present, admin_role, permissions_present, admin_user_present);
    let na = a.len() as int;
    let nr = rs.len() as int;
    let np = p.len() as int;
    lemma_slots_below(features_present, 3);
    lemma_slots_below(permissions_present, 3);
    lemma_rename_iff_other_name(admin_role);
    lemma_absent_empty_iff_all_present(features_present, 3);
    lemma_absent_empty_iff_all_present(permissions_present, 3);
    assert(plan.len() == na + nr + np + u.len());
    if admin_role matches Some(m) && m.name@ != "Administrador"@ {
        assert(rs[0] == SeedSlot::RenameAdminRole);
        assert(plan[na] == rs[0]);
        assert(fulfills(actions[na], plan[na], admin_role, password_hash, now));
        assert(renames_admin_role(actions));
    }
    if renames_admin_role(actions) {
        let i = choose|i: int| 0 <= i < actions.len() && #[trigger] actions[i] is RenameAdminRole;
        assert(fulfills(actions[i], plan[i], admin_role, password_hash, now));
        if i < na {
            assert(plan[i] == a[i]);
        } else if i < na + nr {
            assert(plan[i] == rs[i - na]);
            assert(rs.contains(SeedSlot::RenameAdminRole));
        } else if i < na + nr + np {
            assert(plan[i] == p[i - na - nr]);
        } else {
            assert(plan[i] == u[i - na - nr - np]);
        }
    }
    assert(nr == 0 <==> (admin_role matches Some(m) && m.name@ == "Administrador"@));
    assert(u.len() == 0 <==> admin_user_present);
}

proof fn lemma_absent_empty_iff_all_present(present: Seq<bool>, n: int)
    requires
        0 <= n <= present.len(),
    ensures
        absent_features(present, n).len() == 0 <==> (forall|i: int|
            0 <= i < n ==> #[trigger] present[i]),
        absent_permissions(present, n).len() == 0 <==> (forall|i: int|
            0 <= i < n ==> #[trigger] present[i]),
    decreases n,
{
    if n > 0 {
        lemma_absent_empty_iff_all_present(present, n - 1);
    }
}

proof fn lemma_none_absent(present: Seq<bool>, n: int)
    requires
        0 <= n <= present.len(),
        forall|i: int| 0 <= i < n ==> #[trigger] present[i],
    ensures
        absent_features(present, n).len() == 0,
        absent_permissions(present, n).len() == 0,
    decreases n,
{
    if n > 0 {
        lemma_none_absent(present, n - 1);
    }
}

/// Whether each seeded feature exists once the actions are carried out.
pub open spec fn features_after(present: Seq<bool>, actions: Seq<SeedAction>) -> Seq<bool> {
    Seq::new(3, |k: int| present[k] || inserts_feature(actions, k))
}

/// Whether each administrator permission exists once the actions are
/// carried out.
pub open spec fn permissions_after(present: Seq<bool>, actions: Seq<SeedAction>) -> Seq<bool> {
    Seq::new(3, |k: int| present[k] || inserts_permission(actions, k))
}

/// The action writes the administrator role (inserts or renames it).
pub open spec fn writes_admin_role(a: SeedAction) -> bool {
    a is InsertAdminRole || a is RenameAdminRole
}

/// The administrator role once the actions are carried out: the one an
/// action writes, else the one found.
pub open spec fn admin_role_after(admin_role: Option<role::Model>, actions: Seq<SeedAction>) -> Option<
    role::Model,
> {
    if exists|i: int| 0 <= i < actions.len() && writes_admin_role(#[trigger] actions[i]) {
        let i = choose|i: int| 0 <= i < actions.len() && writes_admin_role(#[trigger] actions[i]);
        match actions[i] {
            SeedAction::InsertAdminRole(m) => Some(m),
            SeedAction::RenameAdminRole(m) => Some(m),
            _ => admin_role,
        }
    } else {
        admin_role
    }
}

/// Whether the administrator user exists once the actions are carried out.
pub open spec fn admin_user_after(present: bool, actions: Seq<SeedAction>) -> bool {
    present || exists|i: int| 0 <= i < actions.len() && #[trigger] actions[i] is InsertAdminUser
}

/// A second run of the start-up routine changes nothing: once the actions
/// of a first run are carried out, everything is seeded, and the routine
/// plans no action on what it then finds.
pub proof fn lemma_second_run_changes_nothing(
    actions: Seq<SeedAction>,
    features_present: Seq<bool>,
    admin_role: Option<role::Model>,
    permissions_present: Seq<bool>,
    admin_user_present: bool,
    password_hash: String,
    now: i64,
)
    requires
        features_present.len() == 3,
        permissions_present.len() == 3,
        carries_out(
            actions,
            planned(features_present, admin_role, permissions_present, admin_user_present),
            admin_role,
            password_hash,
            now,
        ),
    ensures
        fully_seeded(
            features_after(features_present, actions),
            admin_role_after(admin_role, actions),
            permissions_after(permissions_present, actions),
            admin_user_after(admin_user_present, actions),
        ),
        planned(
            features_after(features_present, actions),
            admin_role_after(admin_role, actions),
            permissions_after(permissions_present, actions),
            admin_user_after(admin_user_present, actions),
        ).len() == 0,
{
    let plan = planned(features_present, admin_role, permissions_present, admin_user_present);
    let fa = features_after(features_present, actions);
    let pa = permissions_after(permissions_present, actions);
    let ra = admin_role_after(admin_role, actions);
    let ua = admin_user_after(admin_user_present, actions);
    assert forall|k: int| 0 <= k < 3 implies fa[k] && pa[k] by {
        lemma_plan_inserts_iff_absent(
            actions,
            features_present,
            admin_role,
            permissions_present,
            admin_user_present,
            password_hash,
            now,
            k,
        );
    }
    // every action that writes the administrator role gives it its name
    assert forall|i: int| 0 <= i < actions.len() && writes_admin_role(#[trigger] actions[i]) implies (
    match actions[i] {
        SeedAction::InsertAdminRole(m) => m.name@ == "Administrador"@,
        SeedAction::RenameAdminRole(m) => m.name@ == "Administrador"@,
        _ => false,
    }) by {
        assert(fulfills(actions[i], plan[i], admin_role, password_hash, now));
    }
    let a = absent_features(features_present, 3);
    let rs = role_slots(admin_role);
    let p = absent_permissions(permissions_present, 3);
    let u = user_slots(admin_user_present);
    let na = a.len() as int;
    assert(plan.len() == na + rs.len() + p.len() + u.len());
    lemma_plan_renames_and_empties(
        actions,
        features_present,
        admin_role,
        permissions_present,
        admin_user_present,
        password_hash,
        now,
    );
    if admin_role is None {
        assert(rs[0] == SeedSlot::AdminRole);
        assert(plan[na] == rs[0]);
        assert(fulfills(actions[na], plan[na], admin_role, password_hash, now));
        assert(writes_admin_role(actions[na]));
    }
    if admin_role matches Some(m) && m.name@ != "Administrador"@ {
        let i = choose|i: int| 0 <= i < actions.len() && #[trigger] actions[i] is RenameAdminRole;
        assert(writes_admin_role(actions[i]));
    }
    assert(ra matches Some(m) && m.name@ == "Administrador"@);
    if !admin_user_present {
        let last = plan.len() - 1;
        assert(u[1] == SeedSlot::AdminUser);
        assert(plan[last] == u[1]);
        assert(fulfills(actions[last], plan[last], admin_role, password_hash, now));
        assert(actions[last] is InsertAdminUser);
    }
    assert(ua);
    assert(forall|k: int| 0 <= k < 3 ==> #[trigger] fa[k]);
    assert(forall|k: int| 0 <= k < 3 ==> #[trigger] pa[k]);
    assert(fully_seeded(fa, ra, pa, ua));
    lemma_absent_empty_iff_all_present(fa, 3);
    lemma_absent_empty_iff_all_present(pa, 3);
    assert(role_slots(ra).len() == 0);
    assert(user_slots(ua).len() == 0);
}

/// Once everything is seeded, the routine changes nothing: running it again
/// after it has run is a no-op.
pub proof fn lemma_bootstrap_idempotent(admin_role: role::Model)
    requires
        admin_role.name@ == "Administrador"@,
    ensures
        planned(seq![true, true, true], Some(admin_role), seq![true, true, true], true).len()
            == 0,
{
    lemma_none_absent(seq![true, true, true], 3);
}

/// A seed is inserted exactly when it is absent: the plan holds a change
/// for feature `k` (or for the permission on it) exactly when that record
/// was not found.
pub proof fn lemma_seed_inserted_iff_absent(present: Seq<bool>, n: int, k: int)
    requires
        0 <= k < n <= present.len(),
    ensures
        absent_features(present, n).contains(SeedSlot::Feature(k)) <==> !present[k],
        absent_permissions(present, n).contains(SeedSlot::Permission(k)) <==> !present[k],
    decreases n,
{
    if k < n - 1 {
        lemma_seed_inserted_iff_absent(present, n - 1, k);
        if !present[n - 1] {
            lemma_push_keeps_contains(
                absent_features(present, n - 1),
                SeedSlot::Feature(n - 1),
                SeedSlot::Feature(k),
            );
            lemma_push_keeps_contains(
                absent_permissions(present, n - 1),
                SeedSlot::Permission(n - 1),
                SeedSlot::Permission(k),
            );
        }
    } else {
        lemma_slots_below(present, n - 1);
        if !present[k] {
            assert(absent_features(present, n).last() == SeedSlot::Feature(k));
            assert(absent_permissions(present, n).last() == SeedSlot::Permission(k));
        } else {
            if absent_features(present, n).contains(SeedSlot::Feature(k)) {
                let i = choose|i: int|
                    0 <= i < absent_features(present, n).len() && absent_features(present, n)[i]
                        == SeedSlot::Feature(k);
                assert(absent_features(present, n - 1)[i] == SeedSlot::Feature(k));
            }
            if absent_permissions(present, n).contains(SeedSlot::Permission(k)) {
                let i = choose|i: int|
                    0 <= i < absent_permissions(present, n).len() && absent_permissions(
                        present,
                        n,
                    )[i] == SeedSlot::Permission(k);
                assert(absent_permissions(present, n - 1)[i] == SeedSlot::Permission(k));
            }
        }
    }
}

/// The administrator role is renamed exactly when it exists under another
/// name than `Administrador`, and inserted exactly when it is missing.
pub proof fn lemma_rename_iff_other_name(admin_role: Option<role::Model>)
    ensures
        role_slots(admin_role).contains(SeedSlot::RenameAdminRole) <==> (admin_role matches Some(
            m,
        ) && m.name@ != "Administrador"@),
        role_slots(admin_role).contains(SeedSlot::AdminRole) <==> admin_role is None,
{
    match admin_role {
        None => {
            assert(role_slots(admin_role)[0] == SeedSlot::AdminRole);
        },
        Some(m) => {
            if m.name@ != "Administrador"@ {
                assert(role_slots(admin_role)[0] == SeedSlot::RenameAdminRole);
            }
            assert(role_slots(admin_role).len() <= 1);
            if role_slots(admin_role).contains(SeedSlot::AdminRole) {
                let i = choose|i: int|
                    0 <= i < role_slots(admin_role).len() && role_slots(admin_role)[i]
                        == SeedSlot::AdminRole;
                assert(role_slots(admin_role)[i] == SeedSlot::RenameAdminRole);
            }
        },
    }
}

proof fn lemma_push_keeps_contains<A>(s: Seq<A>, x: A, y: A)
    requires
        x != y,
    ensures
        s.push(x).contains(y) <==> s.contains(y),
{
    if s.contains(y) {
        let i = choose|i: int| 0 <= i < s.len() && s[i] == y;
        assert(s.push(x)[i] == y);
    }
    if s.push(x).contains(y) {
        let i = choose|i: int| 0 <= i < s.push(x).len() && s.push(x)[i] == y;
        assert(s[i] == y);
    }
}

proof fn lemma_slots_below(present: Seq<bool>, n: int)
    requires
        0 <= n <= present.len(),
    ensures
        forall|i: int|
            0 <= i < absent_features(present, n).len() ==> (#[trigger] absent_features(
                present,
                n,
            )[i] matches SeedSlot::Feature(j) && 0 <= j < n),
        forall|i: int|
            0 <= i < absent_permissions(present, n).len() ==> (#[trigger] absent_permissions(
                present,
                n,
            )[i] matches SeedSlot::Permission(j) && 0 <= j < n),
    decreases n,
{
    if n > 0 {
        lemma_slots_below(present, n - 1);
    }
}

} // verus!
