//! Conversions from common Rust error types into `Error`.
//!
//! Each conversion maps a `core` or `alloc` error onto the `NTSTATUS` code
//! that best describes it, so a Rust-level failure can propagate through `?`
//! and be returned to the kernel as a status code.
//!
//! | Error type | `NTSTATUS` |
//! |---|---|
//! | `alloc::collections::TryReserveError` | `STATUS_INSUFFICIENT_RESOURCES` |
//! | `core::num::TryFromIntError` | `STATUS_INTEGER_OVERFLOW` |

pub mod allocation;
pub mod integer;
