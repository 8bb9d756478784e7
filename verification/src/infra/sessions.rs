use vstd::prelude::*;

use crate::errors::AppError;
use crate::middleware::rbac::unit_outcome;
use crate::infra::cache::{colon_free, lemma_sessions_pattern_is_per_user, sessions_prefix};
use crate::modules::auth::service::{refresh_refusal, unauthorized};
use crate::models::{role, user};
use crate::text::{concat2, has_prefix};

verus! {

broadcast use vstd::string::group_string_axioms;

// ---------------------------------------------------------------------------
// The open sessions, as the cache holds them
// ---------------------------------------------------------------------------
/// The cache entry of a user's session token.
pub open spec fn session_entry(user_id: Seq<char>, token: Seq<char>) -> Seq<char> {
    "session:"@ + user_id + ":"@ + token
}

/// The open sessions `keys` once the sessions of each of the users `ids`
/// are ended: every entry under the pattern of one of them goes, the
/// rest stays.
pub open spec fn without_sessions_of(keys: Set<Seq<char>>, ids: Seq<Seq<char>>) -> Set<
    Seq<char>,
> {
    keys.filter(
        |k: Seq<char>|
            !(exists|i: int| 0 <= i < ids.len() && #[trigger] has_prefix(k, sessions_prefix(ids[i]))),
    )
}

/// The open sessions `keys` once a refresh has ended the entry `ended` and
/// opened the entries `opened`, in that order.
pub open spec fn rotated(keys: Set<Seq<char>>, ended: Seq<char>, opened: Seq<Seq<char>>) -> Set<
    Seq<char>,
> {
    keys.remove(ended).union(opened.to_set())
}

// ---------------------------------------------------------------------------
// Which sessions a change ends
// ---------------------------------------------------------------------------
/// A change to the accounts after which sessions may no longer stand.
#[derive(Debug, Clone, Copy, PartialEq, Eq)]
pub enum AccountChange {
    Logout,
    UserUpdated,
    UserDeleted,
    UserStatusChanged,
    RoleUpdated,
    RoleDeleted,
    RoleStatusChanged,
}

/// The change is made to a role, and so reaches each user of the role.
pub open spec fn is_role_change(change: AccountChange) -> bool {
    match change {
        AccountChange::RoleUpdated | AccountChange::RoleDeleted
        | AccountChange::RoleStatusChanged => true,
        _ => false,
    }
}

/// The users whose sessions a change ends: the user it is made to, or
/// each user of the role it is made to.
pub open spec fn ended_by(change: AccountChange, subject_id: Seq<char>, role_members: Seq<Seq<char>>) -> Seq<
    Seq<char>,
> {
    if is_role_change(change) {
        role_members
    } else {
        seq![subject_id]
    }
}

pub open spec fn ids_view(ids: Seq<String>) -> Seq<Seq<char>> {
    ids.map_values(|s: String| s@)
}

/// The users whose sessions `change` ends, given the id of the user or
/// role it is made to and, for a role, the ids of its users.
pub fn revoked_users(change: AccountChange, subject_id: &str, role_members: &Vec<String>) -> (r: Vec<
    String,
>)
    ensures
        ids_view(r@) == ended_by(change, subject_id@, ids_view(role_members@)),
{
    match change {
        AccountChange::RoleUpdated | AccountChange::RoleDeleted
        | AccountChange::RoleStatusChanged => {
            let mut r: Vec<String> = Vec::new();
            for i in 0..role_members.len()
                invariant
                    r@.len() == i,
                    forall|j: int| 0 <= j < i ==> #[trigger] r@[j]@ == role_members@[j]@,
            {
                let ghost before = r@;
                let m = role_members[i].clone();
                r.push(m);
                assert(r@ == before.push(m));
            }
            assert(ids_view(r@) =~= ids_view(role_members@));
            r
        },
        _ => {
            let mut r: Vec<String> = Vec::new();
            r.push(String::from_str(subject_id));
            assert(ids_view(r@) =~= seq![subject_id@]);
            r
        },
    }
}

/// How ending the sessions of several users went, given how it went for
/// each (every one is attempted): done where each was, else the first
/// failure, so that a change never reports success with a session it had
/// to end still standing.
pub fn revocation_outcome(outcomes: &Vec<Result<(), AppError>>) -> (r: Result<(), AppError>)
    ensures
        r is Ok <==> forall|i: int| 0 <= i < outcomes@.len() ==> #[trigger] outcomes@[i] is Ok,
        r is Err ==> exists|i: int|
            0 <= i < outcomes@.len() && unit_outcome(#[trigger] outcomes@[i]) == unit_outcome(r)
                && forall|j: int| 0 <= j < i ==> #[trigger] outcomes@[j] is Ok,
{
    let mut i: usize = 0;
    while i < outcomes.len()
        invariant
            0 <= i <= outcomes@.len(),
            forall|j: int| 0 <= j < i ==> #[trigger] outcomes@[j] is Ok,
        decreases outcomes@.len() - i,
    {
        match &outcomes[i] {
            Ok(()) => {},
            Err(e) => {
                let message = e.message();
                let r = Err(AppError::with_text(e.kind(), message.as_str()));
                assert(unit_outcome(outcomes@[i as int]) == unit_outcome(r));
                return r;
            },
        }
        i = i + 1;
    }
    Ok(())
}

// ---------------------------------------------------------------------------
// Refresh
// ---------------------------------------------------------------------------
/// What a token refresh does to the sessions of a user: it ends the
/// session of the refresh token used, then opens one for the new access
/// token and one for the new refresh token, each with its lifetime in
/// seconds.
pub struct SessionRotation {
    pub ended: String,
    pub opened: Vec<(String, i64)>,
}

pub open spec fn opened_entries(opened: Seq<(String, i64)>) -> Seq<Seq<char>> {
    opened.map_values(|e: (String, i64)| e.0@)
}

/// The sessions of an access token (living `access_ttl` seconds) and a
/// refresh token (living seven days) of a user, with their lifetimes.
pub open spec fn are_issued_sessions(
    v: Seq<(String, i64)>,
    user_id: Seq<char>,
    access_token: Seq<char>,
    refresh_token: Seq<char>,
    access_ttl: i64,
) -> bool {
    &&& v.len() == 2
    &&& v[0].0@ == session_entry(user_id, "access:"@ + access_token)
    &&& v[0].1 == access_ttl
    &&& v[1].0@ == session_entry(user_id, "refresh:"@ + refresh_token)
    &&& v[1].1 == 7 * 24 * 60 * 60
}

/// The sessions that issuing `access_token` (living `access_ttl` seconds)
/// and `refresh_token` (living seven days) to user `user_id` opens, as at
/// a login: each with its lifetime in seconds.
pub fn issued_sessions(user_id: &str, access_token: &str, refresh_token: &str, access_ttl: i64) -> (r:
    Vec<(String, i64)>)
    ensures
        are_issued_sessions(r@, user_id@, access_token@, refresh_token@, access_ttl),
{
    let access = concat2("access:", access_token);
    let refresh = concat2("refresh:", refresh_token);
    let mut opened: Vec<(String, i64)> = Vec::new();
    opened.push((crate::infra::cache::session_key(user_id, access.as_str()), access_ttl));
    opened.push((crate::infra::cache::session_key(user_id, refresh.as_str()), 7 * 24 * 60 * 60));
    opened
}

/// The session changes of a refresh of user `user_id` that used the
/// refresh token `used_refresh` and issued `access_token` (living
/// `access_ttl` seconds) and `new_refresh` (living seven days).
pub fn refresh_rotation(
    user_id: &str,
    used_refresh: &str,
    access_token: &str,
    new_refresh: &str,
    access_ttl: i64,
) -> (r: SessionRotation)
    ensures
        r.ended@ == session_entry(user_id@, "refresh:"@ + used_refresh@),
        r.opened@.len() == 2,
        r.opened@[0].0@ == session_entry(user_id@, "access:"@ + access_token@),
        r.opened@[0].1 == access_ttl,
        r.opened@[1].0@ == session_entry(user_id@, "refresh:"@ + new_refresh@),
        r.opened@[1].1 == 7 * 24 * 60 * 60,
{
    let used = concat2("refresh:", used_refresh);
    let ended = crate::infra::cache::session_key(user_id, used.as_str());
    let opened = issued_sessions(user_id, access_token, new_refresh, access_ttl);
    SessionRotation { ended, opened }
}

// ---------------------------------------------------------------------------
// Laws
// ---------------------------------------------------------------------------
/// The open sessions once a session of user `user_id` with `token` is
/// created (`Cache::create_session`, for as long as its lifetime lasts).
pub open spec fn with_session(keys: Set<Seq<char>>, user_id: Seq<char>, token: Seq<char>) -> Set<
    Seq<char>,
> {
    keys.insert(session_entry(user_id, token))
}

/// The open sessions once that session is deleted (`Cache::delete_session`).
pub open spec fn without_session(keys: Set<Seq<char>>, user_id: Seq<char>, token: Seq<char>) -> Set<
    Seq<char>,
> {
    keys.remove(session_entry(user_id, token))
}

/// A session is valid (`Cache::validate_session`) where its entry is open.
pub open spec fn session_valid(keys: Set<Seq<char>>, user_id: Seq<char>, token: Seq<char>) -> bool {
    keys.contains(session_entry(user_id, token))
}

/// A created session is valid until it is deleted, and creating or
/// deleting one session leaves the validity of every other session as it
/// was.
pub proof fn lemma_session_round_trip(
    keys: Set<Seq<char>>,
    user_id: Seq<char>,
    token: Seq<char>,
    other_user: Seq<char>,
    other_token: Seq<char>,
)
    requires
        session_entry(other_user, other_token) != session_entry(user_id, token),
    ensures
        session_valid(with_session(keys, user_id, token), user_id, token),
        !session_valid(without_session(with_session(keys, user_id, token), user_id, token), user_id, token),
        session_valid(with_session(keys, user_id, token), other_user, other_token)
            == session_valid(keys, other_user, other_token),
        session_valid(without_session(keys, user_id, token), other_user, other_token)
            == session_valid(keys, other_user, other_token),
{
}

proof fn lemma_entry_under_own_pattern(user_id: Seq<char>, token: Seq<char>)
    ensures
        has_prefix(session_entry(user_id, token), sessions_prefix(user_id)),
{
    let k = session_entry(user_id, token);
    let p = sessions_prefix(user_id);
    assert(k =~= p + token);
    assert(k.subrange(0, p.len() as int) =~= p);
}

/// Once the sessions of some users are ended, none of them has a session
/// left, whatever its token: a later request or refresh with any of
/// their tokens finds no session.
pub proof fn lemma_ended_sessions_are_gone(
    keys: Set<Seq<char>>,
    ids: Seq<Seq<char>>,
    i: int,
    token: Seq<char>,
)
    requires
        0 <= i < ids.len(),
    ensures
        !without_sessions_of(keys, ids).contains(session_entry(ids[i], token)),
{
    lemma_entry_under_own_pattern(ids[i], token);
}

/// Ending the sessions of some users keeps every session of every other
/// user (ids without `:`).
pub proof fn lemma_other_sessions_stay(
    keys: Set<Seq<char>>,
    ids: Seq<Seq<char>>,
    v: Seq<char>,
    token: Seq<char>,
)
    requires
        colon_free(v),
        forall|i: int| 0 <= i < ids.len() ==> colon_free(#[trigger] ids[i]) && ids[i] != v,
        keys.contains(session_entry(v, token)),
    ensures
        without_sessions_of(keys, ids).contains(session_entry(v, token)),
{
    let k = session_entry(v, token);
    assert forall|i: int| 0 <= i < ids.len() implies !#[trigger] has_prefix(
        k,
        sessions_prefix(ids[i]),
    ) by {
        if has_prefix(k, sessions_prefix(ids[i])) {
            lemma_sessions_pattern_is_per_user(ids[i], v, token);
        }
    }
}

/// A logout, or a change made to a user, ends every session of that user;
/// a change made to a role ends every session of each of its users.
pub proof fn lemma_change_ends_sessions(
    change: AccountChange,
    keys: Set<Seq<char>>,
    subject_id: Seq<char>,
    role_members: Seq<Seq<char>>,
    token: Seq<char>,
)
    ensures
        !is_role_change(change) ==> !without_sessions_of(
            keys,
            ended_by(change, subject_id, role_members),
        ).contains(session_entry(subject_id, token)),
        is_role_change(change) ==> forall|j: int|
            0 <= j < role_members.len() ==> !without_sessions_of(
                keys,
                ended_by(change, subject_id, role_members),
            ).contains(#[trigger] session_entry(role_members[j], token)),
{
    let ids = ended_by(change, subject_id, role_members);
    if !is_role_change(change) {
        lemma_ended_sessions_are_gone(keys, ids, 0, token);
    } else {
        assert forall|j: int| 0 <= j < role_members.len() implies !without_sessions_of(
            keys,
            ids,
        ).contains(#[trigger] session_entry(role_members[j], token)) by {
            lemma_ended_sessions_are_gone(keys, ids, j, token);
        }
    }
}

/// After a logout, a refresh with any refresh token of that user is
/// refused, whatever the user and role look like.
pub proof fn lemma_no_refresh_after_logout(
    keys: Set<Seq<char>>,
    user_id: Seq<char>,
    refresh_token: Seq<char>,
    u: Option<user::Model>,
    r: Option<role::Model>,
)
    ensures
        refresh_refusal(
            without_sessions_of(keys, seq![user_id]).contains(
                session_entry(user_id, "refresh:"@ + refresh_token),
            ),
            u,
            r,
        ) == Some(unauthorized("Sessão revogada ou expirada"@)),
{
    lemma_ended_sessions_are_gone(keys, seq![user_id], 0, "refresh:"@ + refresh_token);
}

/// After a login, its access and refresh sessions are open, whatever was
/// open before: requests and a refresh with the issued tokens find them.
pub proof fn lemma_login_opens_its_sessions(
    keys: Set<Seq<char>>,
    user_id: Seq<char>,
    access_token: Seq<char>,
    refresh_token: Seq<char>,
)
    ensures
        ({
            let after = keys.union(
                seq![
                    session_entry(user_id, "access:"@ + access_token),
                    session_entry(user_id, "refresh:"@ + refresh_token),
                ].to_set(),
            );
            &&& after.contains(session_entry(user_id, "access:"@ + access_token))
            &&& after.contains(session_entry(user_id, "refresh:"@ + refresh_token))
        }),
{
    let opened = seq![
        session_entry(user_id, "access:"@ + access_token),
        session_entry(user_id, "refresh:"@ + refresh_token),
    ];
    assert(opened[0] == session_entry(user_id, "access:"@ + access_token));
    assert(opened[1] == session_entry(user_id, "refresh:"@ + refresh_token));
    assert(opened.to_set().contains(opened[0]));
    assert(opened.to_set().contains(opened[1]));
}

/// A refresh token serves once: after the refresh that used it (and gave
/// another one), its session is gone, so a second refresh with it is
/// refused.
pub proof fn lemma_refresh_token_single_use(
    keys: Set<Seq<char>>,
    user_id: Seq<char>,
    used: Seq<char>,
    access_token: Seq<char>,
    fresh: Seq<char>,
    u: Option<user::Model>,
    r: Option<role::Model>,
)
    requires
        fresh != used,
    ensures
        ({
            let after = rotated(
                keys,
                session_entry(user_id, "refresh:"@ + used),
                seq![
                    session_entry(user_id, "access:"@ + access_token),
                    session_entry(user_id, "refresh:"@ + fresh),
                ],
            );
            &&& !after.contains(session_entry(user_id, "refresh:"@ + used))
            &&& after.contains(session_entry(user_id, "refresh:"@ + fresh))
            &&& refresh_refusal(after.contains(session_entry(user_id, "refresh:"@ + used)), u, r)
                == Some(unauthorized("Sessão revogada ou expirada"@))
        }),
{
    reveal_strlit("refresh:");
    reveal_strlit("access:");
    let p = sessions_prefix(user_id);
    let n = p.len() as int;
    let old_key = session_entry(user_id, "refresh:"@ + used);
    let access_key = session_entry(user_id, "access:"@ + access_token);
    let fresh_key = session_entry(user_id, "refresh:"@ + fresh);
    let opened = seq![access_key, fresh_key];
    assert(old_key =~= p + ("refresh:"@ + used));
    assert(access_key =~= p + ("access:"@ + access_token));
    assert(fresh_key =~= p + ("refresh:"@ + fresh));
    // the entry of the access token differs at the first letter of its kind
    assert(old_key[n] == 'r');
    assert(access_key[n] == 'a');
    assert(old_key != access_key);
    // the entry of the new refresh token differs where the tokens differ
    if old_key == fresh_key {
        assert(used.len() == fresh.len());
        assert forall|i: int| 0 <= i < used.len() implies used[i] == fresh[i] by {
            assert(old_key[n + 8 + i] == used[i]);
            assert(fresh_key[n + 8 + i] == fresh[i]);
        }
        assert(used =~= fresh);
    }
    assert(opened[1] == fresh_key);
    assert(!opened.contains(old_key)) by {
        if opened.contains(old_key) {
            let i = choose|i: int| 0 <= i < opened.len() && opened[i] == old_key;
            assert(i == 0 || i == 1);
        }
    }
    assert(opened.to_set().contains(fresh_key));
}

} // verus!
