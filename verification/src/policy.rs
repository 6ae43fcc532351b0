//! The policy evaluator: a cap on how long a session may last and on how
//! many clicks a session of a given length may claim.

use crate::error::ClickerError;
use vstd::prelude::*;

verus! {

/// The most clicks that one unit of time (a second) can hold.
pub const RATE_LIMIT: u32 = 10;

/// The time a session took, from its start to its close. It is negative
/// where the clock went backward in between.
pub open spec fn session_duration(start_time: i64, end_time: i64) -> int {
    end_time - start_time
}

/// The most clicks a session of the given duration may claim: `RATE_LIMIT`
/// for each unit of time, and none for a duration that is not positive.
pub open spec fn max_allowed_clicks(duration: int) -> int {
    if duration <= 0 {
        0
    } else {
        duration * RATE_LIMIT
    }
}

/// The evaluator's verdict on a claim of `clicks` for a session of the given
/// duration. The duration cap is judged first.
pub open spec fn policy_verdict(duration: int, max_session_duration: int, clicks: int) -> Result<
    (),
    ClickerError,
> {
    if duration > max_session_duration {
        Err(ClickerError::SessionTooLong)
    } else if clicks > max_allowed_clicks(duration) {
        Err(ClickerError::UnrealisticClickRate)
    } else {
        Ok(())
    }
}

/// Judges a claim of `clicks` for a session that ran from `start_time` to
/// `end_time`, under the cap `max_session_duration` on its length.
///
/// No pair of timestamps is refused: the duration is taken without
/// wrapping, and a negative one admits a claim of zero clicks only.
pub fn evaluate_policy(
    start_time: i64,
    end_time: i64,
    max_session_duration: i64,
    clicks: u32,
) -> (verdict: Result<(), ClickerError>)
    ensures
        verdict == policy_verdict(
            session_duration(start_time, end_time),
            max_session_duration as int,
            clicks as int,
        ),
{
    let duration: i128 = end_time as i128 - start_time as i128;
    if duration > max_session_duration as i128 {
        return Err(ClickerError::SessionTooLong);
    }
    let rate: i128 = RATE_LIMIT as i128;
    assert(rate == 10);
    let allowed: i128 = if duration <= 0 {
        0
    } else {
        duration * rate
    };
    if clicks as i128 > allowed {
        return Err(ClickerError::UnrealisticClickRate);
    }
    Ok(())
}

/// A claim passes the rate cap exactly up to `RATE_LIMIT` clicks for each
/// unit of time: with the duration cap met, a claim of `RATE_LIMIT` times a
/// positive duration is accepted, and one click more is rejected.
pub proof fn lemma_rate_boundary(duration: int, max_session_duration: int)
    requires
        0 < duration <= max_session_duration,
    ensures
        policy_verdict(duration, max_session_duration, duration * RATE_LIMIT) == Ok::<
            (),
            ClickerError,
        >(()),
        policy_verdict(duration, max_session_duration, duration * RATE_LIMIT + 1) == Err::<
            (),
            ClickerError,
        >(ClickerError::UnrealisticClickRate),
{
}

/// The rate cap is monotone: a claim that is accepted stays accepted when
/// fewer clicks are claimed for the same session.
pub proof fn lemma_fewer_clicks_pass(
    duration: int,
    max_session_duration: int,
    clicks: int,
    fewer: int,
)
    requires
        fewer <= clicks,
        policy_verdict(duration, max_session_duration, clicks) is Ok,
    ensures
        policy_verdict(duration, max_session_duration, fewer) is Ok,
{
}

} // verus!
