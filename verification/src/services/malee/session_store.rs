//! The session store's rules: how a stored session is stamped and when it
//! expires. The store itself is a concurrent map held by the service.
use vstd::prelude::*;
use crate::models::malee::session::SessionState;

verus! {

/// Minutes of inactivity after which a session is dropped.
pub const SESSION_TTL_MINUTES: u64 = 120;

/// Whole minutes from `then` to `now` (seconds since the epoch), rounded
/// toward zero as `chrono::Duration::num_minutes` does.
pub open spec fn elapsed_minutes(then: i64, now: i64) -> int {
    let d = now - then;
    if d >= 0 {
        d / 60
    } else {
        -((-d) / 60)
    }
}

/// Stamps a session that is being stored at instant `now`: its update time
/// becomes `now` and its version goes up by one (staying at the maximum).
pub fn stamp_for_upsert(session: &mut SessionState, now: i64)
    ensures
        final(session).updated_at == now,
        final(session).version == (if old(session).version == u64::MAX {
            u64::MAX as int
        } else {
            old(session).version + 1
        }),
        *final(session) == (SessionState {
            updated_at: now,
            version: final(session).version,
            ..*old(session)
        }),
{
    session.updated_at = now;
    session.version = session.version.saturating_add(1);
}

/// Whether a session last updated at `updated_at` is kept at instant `now`:
/// while fewer than `SESSION_TTL_MINUTES` whole minutes have passed.
pub fn session_alive(updated_at: i64, now: i64) -> (r: bool)
    ensures
        r == (elapsed_minutes(updated_at, now) < SESSION_TTL_MINUTES),
{
    let d: i128 = now as i128 - updated_at as i128;
    let minutes: i128 = if d >= 0 {
        d / 60
    } else {
        -((-d) / 60)
    };
    minutes < SESSION_TTL_MINUTES as i128
}

/// A session just stored stays alive for the whole time-to-live, and is
/// dropped once it has passed.
pub proof fn law_fresh_session_survives_ttl(updated_at: i64, now: i64)
    requires
        updated_at <= now,
    ensures
        now - updated_at < SESSION_TTL_MINUTES * 60 ==> elapsed_minutes(updated_at, now)
            < SESSION_TTL_MINUTES,
        now - updated_at >= SESSION_TTL_MINUTES * 60 ==> elapsed_minutes(updated_at, now)
            >= SESSION_TTL_MINUTES,
{
}

} // verus!
