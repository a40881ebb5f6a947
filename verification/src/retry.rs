//! The retry policy of the reference-rate fetch.
//!
//! The caller sends the request and reports how the attempt ended; the
//! policy says whether to take the rate, to try again, or to give up. No
//! fetch takes more than `MAX_ATTEMPTS` attempts.

use vstd::prelude::*;

verus! {

/// The number of attempts after which the fetch gives up.
pub const MAX_ATTEMPTS: u32 = 3;

/// The seconds to wait before a failed send is tried again.
pub const RETRY_PAUSE_SECS: u64 = 2;

/// How one attempt to fetch the reference rate ended.
#[derive(Clone, Copy, Debug, PartialEq, Eq, Structural)]
pub enum AttemptOutcome {
    /// A reply arrived and holds a rate that is finite and greater than zero.
    Rate,
    /// A reply arrived and holds a rate that is zero, negative or not finite.
    InvalidRate,
    /// A reply arrived and was read, but holds no rate for the currency.
    NoRate,
    /// A reply arrived and could not be read.
    Malformed,
    /// The request could not be sent, or no reply arrived.
    SendFailed,
}

/// Why the fetch gave up.
#[derive(Clone, Copy, Debug, PartialEq, Eq, Structural)]
pub enum FetchFailure {
    /// The reply could not be read.
    Malformed,
    /// The reply holds a rate that cannot be used.
    InvalidRate,
    /// The last permitted send failed too.
    Unreachable,
    /// The last permitted reply held no rate either.
    RateMissing,
}

/// What to do after an attempt.
#[derive(Clone, Copy, Debug, PartialEq, Eq, Structural)]
pub enum Verdict {
    /// Take the rate of this reply.
    Accept,
    /// Wait for `pause_secs` seconds and send again; `attempts` attempts have
    /// been made by now.
    Retry { attempts: u32, pause_secs: u64 },
    /// Give up.
    Fail(FetchFailure),
}

/// The verdict on an attempt that ended in `outcome` after `attempts` earlier
/// attempts.
///
/// A usable rate is taken; an unusable rate and an unreadable reply are
/// final. A failed send is tried again after a pause, and a reply without the
/// rate is asked for again at once; both count as attempts, and the last
/// permitted attempt is final.
pub open spec fn verdict_spec(attempts: u32, outcome: AttemptOutcome) -> Verdict {
    match outcome {
        AttemptOutcome::Rate => Verdict::Accept,
        AttemptOutcome::InvalidRate => Verdict::Fail(FetchFailure::InvalidRate),
        AttemptOutcome::Malformed => Verdict::Fail(FetchFailure::Malformed),
        AttemptOutcome::SendFailed => if attempts + 1 < MAX_ATTEMPTS {
            Verdict::Retry { attempts: (attempts + 1) as u32, pause_secs: RETRY_PAUSE_SECS }
        } else {
            Verdict::Fail(FetchFailure::Unreachable)
        },
        AttemptOutcome::NoRate => if attempts + 1 < MAX_ATTEMPTS {
            Verdict::Retry { attempts: (attempts + 1) as u32, pause_secs: 0 }
        } else {
            Verdict::Fail(FetchFailure::RateMissing)
        },
    }
}

/// Decides what follows an attempt.
pub fn after_attempt(attempts: u32, outcome: AttemptOutcome) -> (verdict: Verdict)
    ensures
        verdict == verdict_spec(attempts, outcome),
{
    match outcome {
        AttemptOutcome::Rate => Verdict::Accept,
        AttemptOutcome::InvalidRate => Verdict::Fail(FetchFailure::InvalidRate),
        AttemptOutcome::Malformed => Verdict::Fail(FetchFailure::Malformed),
        AttemptOutcome::SendFailed => {
            if attempts < MAX_ATTEMPTS - 1 {
                Verdict::Retry { attempts: attempts + 1, pause_secs: RETRY_PAUSE_SECS }
            } else {
                Verdict::Fail(FetchFailure::Unreachable)
            }
        },
        AttemptOutcome::NoRate => {
            if attempts < MAX_ATTEMPTS - 1 {
                Verdict::Retry { attempts: attempts + 1, pause_secs: 0 }
            } else {
                Verdict::Fail(FetchFailure::RateMissing)
            }
        },
    }
}

/// The count of attempts after `outcomes`, if every one of them was answered
/// with `Retry`; `None` if the fetch ended on one of them.
pub open spec fn retried(attempts: u32, outcomes: Seq<AttemptOutcome>) -> Option<u32>
    decreases outcomes.len(),
{
    if outcomes.len() == 0 {
        Some(attempts)
    } else {
        match retried(attempts, outcomes.drop_last()) {
            Some(so_far) => match verdict_spec(so_far, outcomes.last()) {
                Verdict::Retry { attempts: next, pause_secs } => Some(next),
                _ => None,
            },
            None => None,
        }
    }
}

/// Every fetch ends: whatever the attempts give, fewer than `MAX_ATTEMPTS` of
/// them are answered with `Retry`, so the attempt with that number, at the
/// latest, is answered with `Accept` or `Fail`.
pub proof fn lemma_fetch_ends(outcomes: Seq<AttemptOutcome>)
    ensures
        retried(0, outcomes) matches Some(attempts) ==> attempts == outcomes.len()
            && outcomes.len() < MAX_ATTEMPTS,
        outcomes.len() >= MAX_ATTEMPTS ==> retried(0, outcomes) is None,
    decreases outcomes.len(),
{
    if outcomes.len() > 0 {
        lemma_fetch_ends(outcomes.drop_last());
    }
}

} // verus!
