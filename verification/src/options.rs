//! The verification policy a claim set is checked against.

use vstd::prelude::*;
use crate::duration::Duration;
use crate::duration::UnixTimeStamp;

verus! {

/// Clock-skew tolerance applied when the policy sets none, in seconds.
pub const DEFAULT_TIME_TOLERANCE_SECS: u64 = 900;

/// The constraints a claim set must satisfy to be accepted, supplied by the
/// caller for each validation.  Every constraint is optional; an unset one
/// is not checked.
#[derive(Clone, Debug)]
pub struct VerificationOptions {
    /// Clock-skew allowance for the time checks.  When unset, a tolerance of
    /// [`DEFAULT_TIME_TOLERANCE_SECS`] seconds applies.
    pub time_tolerance: Option<Duration>,
    /// Absolute cutoff: validation performed after this instant fails,
    /// whatever the claims say.  Used to invalidate all outstanding tokens
    /// after a key rotation or an incident.
    pub reject_before: Option<UnixTimeStamp>,
    /// Largest accepted age of the claims since `issued_at`.
    pub max_validity: Option<Duration>,
    /// Skip the `invalid_before` check.
    pub accept_future: bool,
    /// The exact issuer the claims must carry.
    pub required_issuer: Option<String>,
    /// The exact subject the claims must carry.
    pub required_subject: Option<String>,
    /// The exact nonce the claims must carry.
    pub required_nonce: Option<String>,
    /// Audiences that must all be present in the claims' audience set.  An
    /// empty list requires nothing, like an unset one.
    pub required_audiences: Option<Vec<String>>,
}

impl Default for VerificationOptions {
    /// The empty policy: no constraint set, future claims not accepted, the
    /// default clock-skew tolerance in force.
    fn default() -> (r: Self)
        ensures
            r.time_tolerance is None,
            r.reject_before is None,
            r.max_validity is None,
            !r.accept_future,
            r.required_issuer is None,
            r.required_subject is None,
            r.required_nonce is None,
            r.required_audiences is None,
    {
        VerificationOptions {
            time_tolerance: None,
            reject_before: None,
            max_validity: None,
            accept_future: false,
            required_issuer: None,
            required_subject: None,
            required_nonce: None,
            required_audiences: None,
        }
    }
}

} // verus!
