use vstd::prelude::*;

use crate::errors::{AppError, ErrorKind};
use crate::text::{concat2, concat3, has_prefix};

verus! {

broadcast use vstd::string::group_string_axioms;

/// The cache entry that marks a session of a user as open.
pub fn session_key(user_id: &str, token: &str) -> (r: String)
    ensures
        r@ == "session:"@ + user_id@ + ":"@ + token@,
{
    let mut r = concat3("session:", user_id, ":");
    r.append(token);
    r
}

/// The pattern of all session entries of a user, and of no other user's:
/// the user id is closed by its separator.
pub fn user_sessions_pattern(user_id: &str) -> (r: String)
    ensures
        r@ == "session:"@ + user_id@ + ":*"@,
{
    concat3("session:", user_id, ":*")
}

/// No `:` in a text.
pub open spec fn colon_free(s: Seq<char>) -> bool {
    forall|i: int| 0 <= i < s.len() ==> #[trigger] s[i] != ':'
}

/// The fixed part of the pattern of a user's session entries.
pub open spec fn sessions_prefix(user_id: Seq<char>) -> Seq<char> {
    "session:"@ + user_id + ":"@
}

/// Revoking a user's sessions reaches that user's entries only: among ids
/// without `:`, the session entry of user `v` starts with the fixed part of
/// the pattern of user `u` only when `u` is `v`.
pub proof fn lemma_sessions_pattern_is_per_user(u: Seq<char>, v: Seq<char>, token: Seq<char>)
    requires
        colon_free(u),
        colon_free(v),
        has_prefix("session:"@ + v + ":"@ + token, sessions_prefix(u)),
    ensures
        u == v,
{
    reveal_strlit("session:");
    reveal_strlit(":");
    let key = "session:"@ + v + ":"@ + token;
    let pre = sessions_prefix(u);
    assert(key.subrange(0, pre.len() as int) == pre);
    let a = u.len() as int;
    let b = v.len() as int;
    let n = pre.len() as int;
    if a < b {
        assert(pre[8 + a] == ':');
        assert(key[8 + a] == v[a]);
        assert(key.subrange(0, n)[8 + a] == key[8 + a]);
    } else if a > b {
        assert(key[8 + b] == ':');
        assert(pre[8 + b] == u[b]);
        assert(key.subrange(0, n)[8 + b] == key[8 + b]);
    } else {
        assert forall|i: int| 0 <= i < a implies u[i] == v[i] by {
            assert(pre[8 + i] == u[i]);
            assert(key[8 + i] == v[i]);
            assert(key.subrange(0, n)[8 + i] == key[8 + i]);
        }
        assert(u =~= v);
    }
}

/// The cache entry that counts the requests of a client.
pub fn rate_limit_key(rate_key: &str) -> (r: String)
    ensures
        r@ == "ratelimit:"@ + rate_key@,
{
    concat2("ratelimit:", rate_key)
}

/// The first instant (in milliseconds) of the window that ends now.
pub fn rate_limit_window_start(now_ms: i64, window_sec: i64) -> (r: i64)
    requires
        i64::MIN <= window_sec * 1000 <= i64::MAX,
        i64::MIN <= now_ms - window_sec * 1000 <= i64::MAX,
    ensures
        r == now_ms - window_sec * 1000,
{
    now_ms - (window_sec * 1000)
}

/// The answer to a request when `count` requests were already made in the
/// window: whether it is allowed, how many more are left, and the limit.
pub open spec fn spec_rate_limit(count: i64, limit: i64) -> (bool, i64, i64) {
    if count >= limit {
        (false, 0, limit)
    } else {
        let remaining = limit - count - 1;
        (true, if remaining > 0 {
            remaining as i64
        } else {
            0
        }, limit)
    }
}

/// Decides a request against the limit, given the number of requests
/// already counted in the window.
pub fn rate_limit_outcome(count: i64, limit: i64) -> (r: (bool, i64, i64))
    requires
        count >= 0,
    ensures
        r == spec_rate_limit(count, limit),
{
    if count >= limit {
        return (false, 0, limit);
    }
    let remaining = limit - count - 1;
    let shown = if remaining > 0 {
        remaining
    } else {
        0
    };
    (true, shown, limit)
}

/// A request is allowed exactly while fewer than `limit` requests were
/// counted in the window; the requests left are never negative and, once a
/// request is allowed, count it as well.
pub proof fn lemma_rate_limit_outcome(count: i64, limit: i64)
    requires
        count >= 0,
    ensures
        spec_rate_limit(count, limit).0 <==> count < limit,
        spec_rate_limit(count, limit).1 >= 0,
        spec_rate_limit(count, limit).2 == limit,
        count < limit ==> spec_rate_limit(count, limit).1 == limit - count - 1,
        count >= limit ==> spec_rate_limit(count, limit).1 == 0,
{
}

/// The requests counted in a window after `n` requests came in it, each
/// counted only where it was allowed.
pub open spec fn counted_after(n: nat, limit: i64) -> int
    decreases n,
{
    if n == 0 {
        0
    } else {
        let before = counted_after((n - 1) as nat, limit);
        if before < limit {
            before + 1
        } else {
            before
        }
    }
}

/// Over many requests in one window: of `n` requests, the first `limit`
/// are allowed and the rest refused, so no more than `limit` get through.
pub proof fn lemma_rate_limit_over_requests(n: nat, limit: i64)
    requires
        limit >= 0,
    ensures
        counted_after(n, limit) == if n <= limit {
            n as int
        } else {
            limit as int
        },
        spec_rate_limit(counted_after(n, limit) as i64, limit).0 <==> n < limit,
    decreases n,
{
    if n > 0 {
        lemma_rate_limit_over_requests((n - 1) as nat, limit);
    }
}

/// The answer to a request whose own entry was already added to the
/// window, so that `count` (at least one) counts it too: allowed while the
/// window holds no more than `limit` entries, with what is left and the
/// limit, as for the requests counted before it.
pub fn rate_limit_admission(count: i64, limit: i64) -> (r: (bool, i64, i64))
    requires
        count >= 1,
    ensures
        r == spec_rate_limit((count - 1) as i64, limit),
        r.0 == (count <= limit),
{
    rate_limit_outcome(count - 1, limit)
}

/// The window of a client as the cache holds it: one entry (with a member
/// of its own) per request that came in the window and was not withdrawn,
/// and, among them, those of the requests that were let through.
pub struct RateWindow {
    pub entries: Set<Seq<char>>,
    pub admitted: Set<Seq<char>>,
}

/// One atomic change to the window. A request arrives: its entry is added
/// and the window counted in one step, and it is let through where the
/// count is within the limit. The entry of a refused request is withdrawn.
/// An entry leaves as the window moves past it.
pub enum RateStep {
    Arrive(Seq<char>),
    Withdraw(Seq<char>),
    Expire(Seq<char>),
}

/// Members are unique, and only refused requests are withdrawn.
pub open spec fn step_possible(w: RateWindow, s: RateStep) -> bool {
    match s {
        RateStep::Arrive(m) => !w.entries.contains(m),
        RateStep::Withdraw(m) => w.entries.contains(m) && !w.admitted.contains(m),
        RateStep::Expire(_) => true,
    }
}

pub open spec fn after_step(w: RateWindow, s: RateStep, limit: int) -> RateWindow {
    match s {
        RateStep::Arrive(m) => {
            let e = w.entries.insert(m);
            RateWindow {
                entries: e,
                admitted: if e.len() <= limit {
                    w.admitted.insert(m)
                } else {
                    w.admitted
                },
            }
        },
        RateStep::Withdraw(m) => RateWindow { entries: w.entries.remove(m), admitted: w.admitted },
        RateStep::Expire(m) => RateWindow {
            entries: w.entries.remove(m),
            admitted: w.admitted.remove(m),
        },
    }
}

/// The window after the steps, in the order the cache applied them, each
/// possible where it came.
pub open spec fn run_steps(w: RateWindow, steps: Seq<RateStep>, limit: int) -> Option<RateWindow>
    decreases steps.len(),
{
    if steps.len() == 0 {
        Some(w)
    } else {
        match run_steps(w, steps.drop_last(), limit) {
            Some(v) => if step_possible(v, steps.last()) {
                Some(after_step(v, steps.last(), limit))
            } else {
                None
            },
            None => None,
        }
    }
}

/// No more requests of the window were let through than the limit.
pub open spec fn window_within(w: RateWindow, limit: int) -> bool {
    &&& w.entries.finite()
    &&& w.admitted.subset_of(w.entries)
    &&& w.admitted.len() <= limit
}

proof fn lemma_step_keeps_within(w: RateWindow, s: RateStep, limit: int)
    requires
        window_within(w, limit),
        step_possible(w, s),
    ensures
        window_within(after_step(w, s, limit), limit),
{
    broadcast use vstd::set::group_set_axioms;

    let v = after_step(w, s, limit);
    match s {
        RateStep::Arrive(m) => {
            if v.entries.len() <= limit {
                vstd::set_lib::lemma_len_subset(v.admitted, v.entries);
            } else {
                vstd::set_lib::lemma_len_subset(w.admitted, w.entries);
            }
        },
        RateStep::Withdraw(m) => {
            assert(v.admitted.subset_of(v.entries));
        },
        RateStep::Expire(m) => {
            vstd::set_lib::lemma_len_subset(w.admitted, w.entries);
            assert(v.admitted.subset_of(v.entries));
        },
    }
}

/// Over requests that come one after another or at once, from a window
/// within the limit (an empty one, say), every run of atomic steps keeps
/// it within the limit: no more than `limit` requests of a window are let
/// through, however their steps interleave.
pub proof fn lemma_rate_window_bound(w: RateWindow, steps: Seq<RateStep>, limit: int)
    requires
        window_within(w, limit),
        run_steps(w, steps, limit) is Some,
    ensures
        window_within(run_steps(w, steps, limit)->Some_0, limit),
    decreases steps.len(),
{
    if steps.len() > 0 {
        lemma_rate_window_bound(w, steps.drop_last(), limit);
        let v = run_steps(w, steps.drop_last(), limit)->Some_0;
        lemma_step_keeps_within(v, steps.last(), limit);
    }
}

/// The cache operations that can fail.
#[derive(Debug, Clone, Copy, PartialEq, Eq)]
pub enum CacheFailure {
    Connection,
    SaveSession,
    ExpireSessions,
    DeleteSession,
    RateLimiter,
}

pub open spec fn cache_failure_prefix(kind: CacheFailure) -> Seq<char> {
    match kind {
        CacheFailure::Connection => "Erro ao obter conexão do Redis: "@,
        CacheFailure::SaveSession => "Erro ao salvar sessão: "@,
        CacheFailure::ExpireSessions => "Erro ao expirar sessões antigas: "@,
        CacheFailure::DeleteSession => "Erro ao deletar sessão: "@,
        CacheFailure::RateLimiter => "Erro no Rate Limiter: "@,
    }
}

/// The server error for a failed cache operation, given the text of the
/// cache's error.
pub fn cache_error(kind: CacheFailure, detail: &str) -> (r: AppError)
    ensures
        r@ == (ErrorKind::Internal, cache_failure_prefix(kind) + detail@),
{
    let prefix = match kind {
        CacheFailure::Connection => "Erro ao obter conexão do Redis: ",
        CacheFailure::SaveSession => "Erro ao salvar sessão: ",
        CacheFailure::ExpireSessions => "Erro ao expirar sessões antigas: ",
        CacheFailure::DeleteSession => "Erro ao deletar sessão: ",
        CacheFailure::RateLimiter => "Erro no Rate Limiter: ",
    };
    AppError::Internal(concat2(prefix, detail))
}

} // verus!
