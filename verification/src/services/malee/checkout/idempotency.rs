//! Guards against placing two orders in quick succession.
use vstd::prelude::*;
use crate::error::MaleeError;
use crate::models::malee::session::SessionState;
use crate::time::{clock_unavailable, now_unix_nanos};

verus! {

/// Seconds that must pass between two orders of one session.
pub const ORDER_COOLDOWN_SECS: u64 = 60;

/// Nanoseconds in a second.
pub const NANOS_PER_SEC: i64 = 1_000_000_000;

/// Whole seconds in `d` nanoseconds, rounded toward zero (as chrono's
/// `Duration::num_seconds` counts them).
pub open spec fn whole_seconds(d: int) -> int {
    if d >= 0 {
        d / NANOS_PER_SEC as int
    } else {
        -((-d) / NANOS_PER_SEC as int)
    }
}

/// Seconds still to wait at instant `now` after an order at `last` (both in
/// nanoseconds since the Unix epoch), when the cooldown has not run out: the
/// cooldown less the whole seconds elapsed. An order "in the future" by a
/// second or more imposes no wait.
pub open spec fn cooldown_left(last: Option<i64>, cooldown_secs: u64, now: i64) -> Option<u64> {
    match last {
        Some(t) => {
            let elapsed = whole_seconds(now - t);
            if 0 <= elapsed < cooldown_secs && cooldown_secs <= i64::MAX {
                Some((cooldown_secs - elapsed) as u64)
            } else {
                None
            }
        },
        None => None,
    }
}

/// At instant `now` (nanoseconds since the epoch): fails with the seconds
/// left while fewer than `cooldown_secs` whole seconds have passed since the
/// session's last order.
pub fn check_order_cooldown_at(session: &SessionState, cooldown_secs: u64, now: i64) -> (r: Result<
    (),
    MaleeError,
>)
    ensures
        match cooldown_left(session.order_last_created_at, cooldown_secs, now) {
            Some(s) => r == Err::<(), MaleeError>(MaleeError::OrderCooldown { seconds: s }),
            None => r is Ok,
        },
{
    match session.order_last_created_at {
        Some(last) => {
            let d: i128 = now as i128 - last as i128;
            let elapsed: i128 = if d >= 0 {
                d / 1_000_000_000
            } else {
                -((-d) / 1_000_000_000)
            };
            if elapsed >= 0 && cooldown_secs <= i64::MAX as u64 && elapsed < cooldown_secs as i128 {
                let remaining = cooldown_secs - elapsed as u64;
                return Err(MaleeError::OrderCooldown { seconds: remaining });
            }
            Ok(())
        },
        None => Ok(()),
    }
}

/// `check_order_cooldown_at` at the current instant; when the clock cannot
/// be read, the clock error.
pub fn check_order_cooldown(session: &SessionState, cooldown_secs: u64) -> (r: Result<
    (),
    MaleeError,
>)
    ensures
        (exists|now: i64|
            match #[trigger] cooldown_left(session.order_last_created_at, cooldown_secs, now) {
                Some(s) => r == Err::<(), MaleeError>(MaleeError::OrderCooldown { seconds: s }),
                None => r is Ok,
            }) || (r matches Err(MaleeError::Validation(m)) && m@
            == "System clock is set before the Unix epoch"@),
{
    match now_unix_nanos() {
        Some(now) => check_order_cooldown_at(session, cooldown_secs, now),
        None => Err(clock_unavailable()),
    }
}

/// Records an order placed at instant `now` (nanoseconds since the epoch);
/// nothing else changes.
pub fn mark_order_created_at(session: &mut SessionState, now: i64)
    ensures
        final(session).order_last_created_at == Some(now),
        *final(session) == (SessionState { order_last_created_at: Some(now), ..*old(session) }),
{
    session.order_last_created_at = Some(now);
}

/// Records an order placed now; when the clock cannot be read, nothing is
/// recorded and the clock error is returned.
pub fn mark_order_created(session: &mut SessionState) -> (r: Result<(), MaleeError>)
    ensures
        r is Ok ==> (final(session).order_last_created_at matches Some(t) && t >= 0),
        r is Ok ==> *final(session) == (SessionState {
            order_last_created_at: final(session).order_last_created_at,
            ..*old(session)
        }),
        r is Err ==> *final(session) == *old(session),
        r is Err ==> (r matches Err(MaleeError::Validation(m)) && m@
            == "System clock is set before the Unix epoch"@),
{
    match now_unix_nanos() {
        Some(now) => {
            mark_order_created_at(session, now);
            Ok(())
        },
        None => Err(clock_unavailable()),
    }
}

/// Right after an order is recorded at `now`, a new order is refused for
/// the whole cooldown: while fewer than `cooldown_secs` whole seconds have
/// passed, with the cooldown less those seconds left to wait (an order 59.5 s
/// after the last one, with a 60 s cooldown, still waits 1 s); after that, it
/// is accepted.
pub proof fn law_cooldown_after_order(now: i64, cooldown_secs: u64)
    requires
        0 < cooldown_secs <= i64::MAX,
    ensures
        cooldown_left(Some(now), cooldown_secs, now) == Some(cooldown_secs),
        forall|later: i64|
            now <= later && #[trigger] whole_seconds(later - now) < cooldown_secs ==> cooldown_left(
                Some(now),
                cooldown_secs,
                later,
            ) == Some((cooldown_secs - whole_seconds(later - now)) as u64),
        forall|later: i64|
            now <= later && #[trigger] whole_seconds(later - now) >= cooldown_secs ==> cooldown_left(
                Some(now),
                cooldown_secs,
                later,
            ) is None,
        forall|later: i64|
            now <= later ==> #[trigger] whole_seconds(later - now) == (later - now) / NANOS_PER_SEC as int,
{
}

} // verus!
