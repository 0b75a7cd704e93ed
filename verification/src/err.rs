//! The error surface: one externally visible authentication error, and
//! an internal, structured record of why a signup was denied.
//!
//! Distinguishing failure causes externally would let an attacker probe
//! which namespaces, databases and scopes exist, so every denial is
//! collapsed to [`AuthError::InvalidAuth`] at the boundary. The
//! [`Denial`] variants exist for diagnostics only and never cross it.

use vstd::prelude::*;

verus! {

/// The only error kind a caller of the signup operation ever sees.
#[derive(Clone, Copy, Debug, PartialEq, Eq, Structural)]
pub enum AuthError {
    /// Authentication was denied; no further detail is disclosed.
    InvalidAuth,
}

/// The internal, structured cause of a denied signup, kept for
/// diagnostics and never returned across the trust boundary.
#[derive(Clone, Copy, Debug, PartialEq, Eq, Structural)]
pub enum Denial {
    /// The request lacked one of namespace, database or scope name.
    MissingParams,
    /// No scope with the requested name exists in the catalog.
    ScopeNotFound,
    /// The scope exists but has no signup rule: signup is disabled.
    SignupDisabled,
    /// The evaluation engine failed to run the signup rule.
    EvaluationFailed,
    /// Evaluation succeeded but produced no resolvable record.
    NoRecordResolved,
    /// The token expiry would exceed the representable timestamp range.
    ExpiryOverflow,
    /// The signing step failed to produce a token.
    SigningFailed,
}

/// The error normalizer: every internal denial, whatever its cause,
/// maps to the single externally visible authentication error.
pub fn normalize(denial: &Denial) -> (r: AuthError)
    ensures
        r == AuthError::InvalidAuth,
{
    match denial {
        Denial::MissingParams => AuthError::InvalidAuth,
        Denial::ScopeNotFound => AuthError::InvalidAuth,
        Denial::SignupDisabled => AuthError::InvalidAuth,
        Denial::EvaluationFailed => AuthError::InvalidAuth,
        Denial::NoRecordResolved => AuthError::InvalidAuth,
        Denial::ExpiryOverflow => AuthError::InvalidAuth,
        Denial::SigningFailed => AuthError::InvalidAuth,
    }
}

} // verus!
