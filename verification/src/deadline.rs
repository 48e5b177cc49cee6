//! Deadline and time-window checks shared by time-sensitive entry points.
use vstd::prelude::*;

verus! {

/// Whether `deadline` has passed at `now`: a zero deadline is always expired,
/// so time-sensitive callers cannot opt out of enforcement.
pub open spec fn expired_at(now: u64, deadline: u64) -> bool {
    deadline == 0 || now > deadline
}

/// `true` once the ledger time has passed `deadline`; a deadline of 0 is
/// treated as already expired.
pub fn is_expired(now: u64, deadline: u64) -> (r: bool)
    ensures
        r == expired_at(now, deadline),
{
    deadline == 0 || now > deadline
}

/// `true` once the ledger time has reached or passed `deadline`.
pub fn is_expired_strict(now: u64, deadline: u64) -> (r: bool)
    ensures
        r == (now >= deadline),
{
    now >= deadline
}

/// Requires the ledger time to be at or before a non-zero `deadline`.
pub fn require_deadline<E: Copy>(now: u64, deadline: u64, error: E) -> (r: Result<(), E>)
    ensures
        r == (if expired_at(now, deadline) { Err(error) } else { Ok(()) }),
{
    if is_expired(now, deadline) {
        return Err(error);
    }
    Ok(())
}

/// Requires the ledger time to be strictly before `deadline`.
pub fn require_strict_deadline<E: Copy>(now: u64, deadline: u64, error: E) -> (r: Result<(), E>)
    ensures
        r == (if now >= deadline { Err(error) } else { Ok(()) }),
{
    if is_expired_strict(now, deadline) {
        return Err(error);
    }
    Ok(())
}

/// Requires the ledger time to lie in `[start_at, end_at]`; `end_at == 0`
/// leaves the upper bound open.
pub fn require_window<E: Copy>(now: u64, start_at: u64, end_at: u64, not_started: E, expired: E) -> (r: Result<(), E>)
    ensures
        r == (if now < start_at { Err(not_started) } else if end_at != 0 && now > end_at { Err(expired) } else { Ok(()) }),
{
    if now < start_at {
        return Err(not_started);
    }
    if end_at != 0 && now > end_at {
        return Err(expired);
    }
    Ok(())
}

/// A deadline that holds strictly also holds inclusively.
pub proof fn lemma_strict_implies_inclusive(now: u64, deadline: u64)
    requires
        now < deadline,
    ensures
        !expired_at(now, deadline),
{
}

} // verus!
