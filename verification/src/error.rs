//! The reasons a claim set can be rejected.

use vstd::prelude::*;

verus! {

/// Every way a claim set can be refused, either by the validator or by the
/// audience-format conversion.  A missing required claim is reported apart
/// from a present-but-mismatched one, so callers can audit exactly why a
/// token was rejected.
#[derive(Clone, Copy, Debug, PartialEq, Eq, Structural, Hash)]
pub enum JWTError {
    /// Validation ran after the policy's absolute `reject_before` cutoff.
    OldTokenReused,
    /// The claims were issued further in the future than the clock-skew
    /// tolerance allows.
    ClockDrift,
    /// The claims were issued longer ago than the policy's maximum validity.
    TokenIsTooOld,
    /// The claims are not valid yet.
    TokenNotValidYet,
    /// The claims expired longer ago than the clock-skew tolerance allows.
    TokenHasExpired,
    /// The policy requires an issuer but the claims carry none.
    RequiredIssuerMissing,
    /// The claims carry an issuer other than the required one.
    RequiredIssuerMismatch,
    /// The policy requires a subject but the claims carry none.
    RequiredSubjectMissing,
    /// The claims carry a subject other than the required one.
    RequiredSubjectMismatch,
    /// The policy requires a nonce but the claims carry none.
    RequiredNonceMissing,
    /// The claims carry a nonce other than the required one.
    RequiredNonceMismatch,
    /// The policy requires audiences but the claims carry none.
    RequiredAudiencesMissing,
    /// A required audience is absent from the claims' audience set.
    RequiredAudiencesMismatch,
    /// A set of more than one audience cannot be represented as a string.
    TooManyAudiences,
}

} // verus!
