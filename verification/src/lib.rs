//! Scope-based signup authentication for a multi-tenant data platform.
//!
//! Given a namespace, a database and a named scope (a tenant-defined
//! authentication policy), this library checks the request parameters,
//! looks the scope up in a catalog snapshot, hands the scope's signup
//! rule to an external evaluation engine, and — only on full success —
//! issues a signed, time-bounded token and updates the caller's session
//! in a single atomic step. Every failure, whatever its cause, is
//! reported to the caller as the one uniform authentication error.

pub mod encode;
pub mod err;
pub mod scope;
pub mod session;
pub mod signup;
pub mod token;
pub mod value;

pub use err::AuthError;
pub use err::Denial;
