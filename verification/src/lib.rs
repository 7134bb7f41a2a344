//! `NTSTATUS`-based error handling for Windows kernel-mode code.
//!
//! Only `STATUS_SUCCESS` is success: every other status, warnings and
//! informational codes included, is an [`Error`] unless it is deliberately
//! returned as the `Ok` value of a [`StatusResult`].

pub mod common_error;
pub mod codes;
pub mod convert;
pub mod error;
pub mod layout;
pub mod render;
pub mod severity;
pub mod status;

pub use convert::{IntoError, IntoResult, NtStatus, NtStatusOrSuccess, NtStatusResult};
pub use error::Error;
pub use severity::Severity;
pub use status::Status;

use vstd::prelude::*;

verus! {

/// A `Result` whose error defaults to [`Error`], so a signature reads
/// `Result<()>`.
pub type Result<T, E = Error> = core::result::Result<T, E>;

/// A `Result` whose `Ok` value is itself a [`Status`]: a non-success status
/// that is an expected outcome rather than a failure. `ntstatus()` keeps it.
pub type StatusResult = Result<Status>;

} // verus!
