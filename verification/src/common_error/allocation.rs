//! Conversions from allocation-related error types.
//!
//! | Error type | `NTSTATUS` |
//! |---|---|
//! | `alloc::collections::TryReserveError` | `STATUS_INSUFFICIENT_RESOURCES` |

use vstd::prelude::*;
use std::collections::TryReserveError;
use vstd::std_specs::convert::FromSpecImpl;
use crate::error::Error;
use crate::codes::{insufficient_resources_value, status_insufficient_resources};

verus! {

/// Convert `TryReserveError` into `Error(STATUS_INSUFFICIENT_RESOURCES)`.
///
/// A failed reservation is reported as `STATUS_INSUFFICIENT_RESOURCES`
/// whether it failed because of capacity overflow or because the allocator
/// refused the request; `TryReserveError` is opaque and the distinction is not
/// actionable for a caller returning an `NTSTATUS`.
impl From<TryReserveError> for Error {
    fn from(_error: TryReserveError) -> (error: Error)
        ensures
            error == Error::wrapping(insufficient_resources_value()),
            error@ == insufficient_resources_value(),
    {
        Error::from_ntstatus(status_insufficient_resources())
    }
}

impl FromSpecImpl<TryReserveError> for Error {
    open spec fn obeys_from_spec() -> bool {
        true
    }

    open spec fn from_spec(_error: TryReserveError) -> Error {
        Error::wrapping(insufficient_resources_value())
    }
}

} // verus!
