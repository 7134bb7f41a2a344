//! The `NTSTATUS` values that the library itself produces, read from
//! `windows_sys`.
//!
//! Each reader below is trusted: its contract states the value that
//! `windows_sys::Win32::Foundation` defines for the constant, written there as
//! an unsigned hexadecimal literal cast to the signed `NTSTATUS`.

use vstd::prelude::*;
use windows_sys::Win32::Foundation::{
    NTSTATUS, STATUS_INSUFFICIENT_RESOURCES, STATUS_INTEGER_OVERFLOW, STATUS_SUCCESS,
};

verus! {

/// `STATUS_SUCCESS` as a plain integer: the only status that means success.
pub open spec fn success_value() -> NTSTATUS {
    0
}

/// `STATUS_INTEGER_OVERFLOW` (`0xC0000095`).
pub open spec fn integer_overflow_value() -> NTSTATUS {
    0xC000_0095u32 as i32
}

/// `STATUS_INSUFFICIENT_RESOURCES` (`0xC000009A`).
pub open spec fn insufficient_resources_value() -> NTSTATUS {
    0xC000_009Au32 as i32
}

/// Reads `windows_sys::Win32::Foundation::STATUS_SUCCESS`, which that crate
/// defines as `0x0_u32 as _`, that is zero.
#[verifier::external_body]
pub(crate) fn status_success() -> (status: NTSTATUS)
    ensures
        status == success_value(),
{
    STATUS_SUCCESS
}

/// Reads `windows_sys::Win32::Foundation::STATUS_INTEGER_OVERFLOW`, which that
/// crate defines as `0xC0000095_u32 as _`.
#[verifier::external_body]
pub(crate) fn status_integer_overflow() -> (status: NTSTATUS)
    ensures
        status == integer_overflow_value(),
{
    STATUS_INTEGER_OVERFLOW
}

/// Reads `windows_sys::Win32::Foundation::STATUS_INSUFFICIENT_RESOURCES`, which
/// that crate defines as `0xC000009A_u32 as _`.
#[verifier::external_body]
pub(crate) fn status_insufficient_resources() -> (status: NTSTATUS)
    ensures
        status == insufficient_resources_value(),
{
    STATUS_INSUFFICIENT_RESOURCES
}

} // verus!
