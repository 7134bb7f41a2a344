//! Conversions from integer conversion error types.
//!
//! | Error type | `NTSTATUS` |
//! |---|---|
//! | `core::num::TryFromIntError` | `STATUS_INTEGER_OVERFLOW` |

use vstd::prelude::*;
use core::num::TryFromIntError;
use vstd::std_specs::convert::FromSpecImpl;
use crate::error::Error;
use crate::codes::{integer_overflow_value, status_integer_overflow};

verus! {

/// Convert `TryFromIntError` into `Error(STATUS_INTEGER_OVERFLOW)`.
///
/// `TryFromIntError` covers both directions of a failed narrowing conversion:
/// a value too large for the target type and a negative value converted to an
/// unsigned type. Both map to `STATUS_INTEGER_OVERFLOW`.
impl From<TryFromIntError> for Error {
    fn from(_error: TryFromIntError) -> (error: Error)
        ensures
            error == Error::wrapping(integer_overflow_value()),
            error@ == integer_overflow_value(),
    {
        Error::from_ntstatus(status_integer_overflow())
    }
}

impl FromSpecImpl<TryFromIntError> for Error {
    open spec fn obeys_from_spec() -> bool {
        true
    }

    open spec fn from_spec(_error: TryFromIntError) -> Error {
        Error::wrapping(integer_overflow_value())
    }
}

} // verus!
