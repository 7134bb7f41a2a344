//! Conversions between raw `NTSTATUS` values, `Error` and `Result`.
//!
//! Only `STATUS_SUCCESS` converts to `Ok`; every other status, warnings and
//! informational codes included, converts to `Err`.

use vstd::prelude::*;
use vstd::std_specs::convert::{FromSpec, FromSpecImpl};
use windows_sys::Win32::Foundation::NTSTATUS;
use crate::error::Error;
use crate::status::Status;
use crate::codes::{status_success, success_value};

verus! {

broadcast use {crate::error::group_error_model, crate::status::group_status_model};

/// A trait for converting various types into a `Result<T, E>`, with `Error`
/// as the default error type.
pub trait IntoResult<T, E = Error>: Sized {
    /// The result that the conversion gives.
    spec fn into_result_spec(self) -> core::result::Result<T, E>;

    /// Convert the value into a `Result<T, E>`.
    fn into_result(self) -> (result: core::result::Result<T, E>)
        ensures
            result == self.into_result_spec(),
    ;
}

/// A trait for converting various types into an `Error`.
pub trait IntoError: Sized {
    /// The error that the conversion gives.
    spec fn into_error_spec(self) -> Error;

    /// Convert the value into an `Error`.
    fn into_error(self) -> (error: Error)
        ensures
            error == self.into_error_spec(),
    ;
}

/// The result that a raw status stands for: `Ok(())` for `STATUS_SUCCESS`,
/// and for every other status an error that carries it.
pub open spec fn status_result(status: NTSTATUS) -> core::result::Result<(), Error> {
    if status == success_value() {
        Ok(())
    } else {
        Err(Error::wrapping(status))
    }
}

impl IntoResult<()> for NTSTATUS {
    open spec fn into_result_spec(self) -> core::result::Result<(), Error> {
        status_result(self)
    }

    /// Convert an `NTSTATUS` to a `Result<(), Error>`: `Ok(())` if the status
    /// is `STATUS_SUCCESS`, `Err(Error(status))` in all other cases.
    fn into_result(self) -> (result: core::result::Result<(), Error>) {
        if self == status_success() {
            Ok(())
        } else {
            Err(Error::from_ntstatus(self))
        }
    }
}

impl<T, E: IntoError> IntoResult<T> for core::result::Result<T, E> {
    open spec fn into_result_spec(self) -> core::result::Result<T, Error> {
        match self {
            Ok(value) => Ok(value),
            Err(error) => Err(error.into_error_spec()),
        }
    }

    /// Keep the `Ok` value and convert the error into an `Error`.
    fn into_result(self) -> (result: core::result::Result<T, Error>) {
        match self {
            Ok(value) => Ok(value),
            Err(error) => Err(error.into_error()),
        }
    }
}

impl IntoError for NTSTATUS {
    open spec fn into_error_spec(self) -> Error {
        Error::wrapping(self)
    }

    /// Convert an `NTSTATUS` to the `Error` that carries it.
    fn into_error(self) -> (error: Error) {
        Error::from_ntstatus(self)
    }
}

/// A trait for retrieving the `NTSTATUS` code from a type.
pub trait NtStatus {
    /// The status that the value stands for.
    spec fn ntstatus_spec(&self) -> NTSTATUS;

    /// Retrieve the `NTSTATUS` code from the value.
    #[must_use]
    fn ntstatus(&self) -> (status: NTSTATUS)
        ensures
            status == self.ntstatus_spec(),
    ;
}

impl NtStatus for core::result::Result<(), Error> {
    open spec fn ntstatus_spec(&self) -> NTSTATUS {
        match self {
            Ok(_) => success_value(),
            Err(error) => error@,
        }
    }

    /// `STATUS_SUCCESS` for `Ok(())`; the error's status for an `Err`.
    fn ntstatus(&self) -> (status: NTSTATUS) {
        match self {
            Ok(_) => status_success(),
            Err(error) => error.ntstatus(),
        }
    }
}

impl NtStatus for core::result::Result<Status, Error> {
    open spec fn ntstatus_spec(&self) -> NTSTATUS {
        match self {
            Ok(status) => status@,
            Err(error) => error@,
        }
    }

    /// The carried status for an `Ok`, which survives and is not collapsed to
    /// `STATUS_SUCCESS`; the error's status for an `Err`.
    fn ntstatus(&self) -> (status: NTSTATUS) {
        match self {
            Ok(status) => status.ntstatus(),
            Err(error) => error.ntstatus(),
        }
    }
}

impl NtStatus for Status {
    open spec fn ntstatus_spec(&self) -> NTSTATUS {
        self@
    }

    fn ntstatus(&self) -> (status: NTSTATUS) {
        Status::ntstatus(*self)
    }
}

/// A trait for collapsing a `Result` whose `Ok` value is data, not a status,
/// into an `NTSTATUS`. The name states that the payload is discarded.
pub trait NtStatusOrSuccess {
    /// The status that the value stands for.
    spec fn ntstatus_or_success_spec(&self) -> NTSTATUS;

    /// `STATUS_SUCCESS` for any `Ok`, whatever it holds; the error's status
    /// for an `Err`.
    #[must_use]
    fn ntstatus_or_success(&self) -> (status: NTSTATUS)
        ensures
            status == self.ntstatus_or_success_spec(),
    ;
}

impl<T> NtStatusOrSuccess for core::result::Result<T, Error> {
    open spec fn ntstatus_or_success_spec(&self) -> NTSTATUS {
        match self {
            Ok(_) => success_value(),
            Err(error) => error@,
        }
    }

    fn ntstatus_or_success(&self) -> (status: NTSTATUS) {
        match self {
            Ok(_) => status_success(),
            Err(error) => error.ntstatus(),
        }
    }
}

impl NtStatus for Error {
    open spec fn ntstatus_spec(&self) -> NTSTATUS {
        self@
    }

    fn ntstatus(&self) -> (status: NTSTATUS) {
        Error::ntstatus(*self)
    }
}

impl From<Error> for NTSTATUS {
    /// Unwrap an `Error` back into its `NTSTATUS` code.
    ///
    /// The reverse conversion is deliberately absent: `NTSTATUS` is an alias
    /// for `i32`, so `From<NTSTATUS> for Error` would turn every integer into
    /// a status code, silently, through `?`. Use `IntoError` instead.
    fn from(error: Error) -> (status: NTSTATUS)
        ensures
            status == error@,
    {
        error.ntstatus()
    }
}

impl FromSpecImpl<Error> for NTSTATUS {
    open spec fn obeys_from_spec() -> bool {
        true
    }

    open spec fn from_spec(error: Error) -> NTSTATUS {
        error@
    }
}

/// A trait for retrieving the `NTSTATUS` code from a `StatusResult`, whether
/// it holds a status that is an expected outcome or an error.
pub trait NtStatusResult {
    /// The status that the result stands for.
    spec fn ntstatus_res_spec(&self) -> NTSTATUS;

    /// Retrieve the `NTSTATUS` code from the `StatusResult`.
    #[must_use]
    fn ntstatus_res(&self) -> (status: NTSTATUS)
        ensures
            status == self.ntstatus_res_spec(),
    ;
}

impl NtStatusResult for core::result::Result<Status, Error> {
    open spec fn ntstatus_res_spec(&self) -> NTSTATUS {
        match self {
            Ok(status) => status@,
            Err(error) => error@,
        }
    }

    /// The carried status for an `Ok`, which is not collapsed to
    /// `STATUS_SUCCESS`; the error's status for an `Err`.
    fn ntstatus_res(&self) -> (status: NTSTATUS) {
        match self {
            Ok(status) => status.ntstatus(),
            Err(error) => error.ntstatus(),
        }
    }
}

/// Only `STATUS_SUCCESS` converts to `Ok`: every other status, warnings and
/// informational codes included, converts to an error carrying that status.
pub proof fn lemma_only_success_is_ok(status: NTSTATUS)
    ensures
        status_result(status) is Ok <==> status == success_value(),
        status != success_value() ==> status_result(status) == Err::<(), Error>(
            status.into_error_spec(),
        ),
        <NTSTATUS as IntoResult<()>>::into_result_spec(status) is Ok <==> status
            == success_value(),
        <NTSTATUS as IntoResult<()>>::into_result_spec(status) matches Err(error) ==> error@
            == status,
{
}

/// Converting a status into a result and taking the status of that result
/// gives back the status that went in.
pub proof fn lemma_result_keeps_the_status(status: NTSTATUS)
    ensures
        status_result(status).ntstatus_spec() == status,
        <NTSTATUS as IntoResult<()>>::into_result_spec(status).ntstatus_spec() == status,
        <NTSTATUS as IntoResult<()>>::into_result_spec(status).ntstatus_or_success_spec() == status,
{
}

/// An error converted into an `NTSTATUS` and back is the same error, and a
/// status converted into an error and back is the same status.
pub proof fn lemma_error_status_round_trip(error: Error, status: NTSTATUS)
    ensures
        Error::wrapping(<NTSTATUS as FromSpec<Error>>::from_spec(error)) == error,
        <NTSTATUS as FromSpec<Error>>::from_spec(status.into_error_spec()) == status,
        status.into_error_spec().ntstatus_spec() == status,
{
}

/// Converting a `Result` touches only its error: an `Ok` value passes through
/// unchanged, and the error that comes out carries the status of the
/// `IntoError` conversion of the error that went in.
pub proof fn lemma_into_result_converts_only_the_error<T, E: IntoError>(
    result: core::result::Result<T, E>,
)
    ensures
        (result is Ok) <==> (<core::result::Result<T, E> as IntoResult<T>>::into_result_spec(
            result,
        ) is Ok),
        result matches Ok(value) ==> <core::result::Result<T, E> as IntoResult<
            T,
        >>::into_result_spec(result) == Ok::<T, Error>(value),
        result matches Err(error) ==> (<core::result::Result<T, E> as IntoResult<
            T,
        >>::into_result_spec(result) matches Err(converted) && converted@
            == error.into_error_spec()@),
{
}

/// A raw status carried in an `Err` keeps its status through `into_result`,
/// whatever its severity: warnings, informational and success-class codes are
/// not turned into other statuses. An `Ok` stands for `STATUS_SUCCESS`.
pub proof fn lemma_err_status_survives_into_result<T>(result: core::result::Result<T, NTSTATUS>)
    ensures
        result matches Err(status) ==> <core::result::Result<T, NTSTATUS> as IntoResult<
            T,
        >>::into_result_spec(result).ntstatus_or_success_spec() == status,
        result matches Err(status) ==> (<core::result::Result<T, NTSTATUS> as IntoResult<
            T,
        >>::into_result_spec(result) matches Err(converted) && converted@ == status),
        result is Ok ==> <core::result::Result<T, NTSTATUS> as IntoResult<
            T,
        >>::into_result_spec(result).ntstatus_or_success_spec() == success_value(),
{
}

/// Converting a raw status into an error keeps the status: the error that
/// `into_error` gives carries exactly the status that went in.
pub proof fn lemma_into_error_keeps_the_status(status: NTSTATUS)
    ensures
        status.into_error_spec()@ == status,
{
}

/// An error that is returned as the result of a function keeps its status:
/// the status of `Err(error)` is the error's own, under every extraction.
pub proof fn lemma_err_keeps_the_error_status<T>(error: Error)
    ensures
        Err::<(), Error>(error).ntstatus_spec() == error.ntstatus_spec(),
        Err::<Status, Error>(error).ntstatus_spec() == error.ntstatus_spec(),
        Err::<Status, Error>(error).ntstatus_res_spec() == error.ntstatus_spec(),
        Err::<T, Error>(error).ntstatus_or_success_spec() == error.ntstatus_spec(),
{
}

/// A status returned as the `Ok` of a `StatusResult` survives extraction and
/// is not collapsed to `STATUS_SUCCESS`; only data returned as `Ok` collapses,
/// and only through `ntstatus_or_success`, as does `Ok(())`.
pub proof fn lemma_ok_status_survives<T>(status: NTSTATUS, value: T)
    ensures
        Ok::<Status, Error>(Status::wrapping(status)).ntstatus_spec() == status,
        Ok::<Status, Error>(Status::wrapping(status)).ntstatus_res_spec() == status,
        Ok::<T, Error>(value).ntstatus_or_success_spec() == success_value(),
        Ok::<(), Error>(()).ntstatus_spec() == success_value(),
{
}

} // verus!
