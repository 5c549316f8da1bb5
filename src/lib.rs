//! Typed results for loading kernels into the CSPICE toolkit.
//!
//! CSPICE reports failure through a process-wide error state rather than a
//! return value. This library classifies the toolkit's short error codes,
//! carries its long message in a [`SpiceError`], and drives the
//! set-policy / load / inspect / drain-and-reset protocol as a verified state
//! machine ([`Stage`]) whose requests the caller performs on the toolkit.

pub mod error;
pub mod kind;
pub mod loader;

pub use error::SpiceError;
pub use kind::Kind;
pub use loader::{Reply, Request, Stage};
