//! The error type: a transparent wrapper over an `NTSTATUS`.

use vstd::prelude::*;
use windows_sys::Win32::Foundation::NTSTATUS;
use crate::layout::{
    code_bits, code_field, customer_bit, customer_field, facility_bits, facility_field,
    lemma_fields_read_their_bits, lemma_word_is_the_sum_of_its_fields, word,
};
use crate::render::{hex_text, render_hex};
use crate::severity::Severity;

verus! {

/// The error type representing `NTSTATUS` codes.
///
/// It is a transparent wrapper over an `NTSTATUS` value; its model is that
/// value (`error@`). Specifications name the error that carries a status as
/// `Error::wrapping(status)`; `group_error_model` ties the two together.
#[derive(Debug, Clone, Copy, PartialEq, Eq, Structural, Hash)]
pub struct Error(pub(crate) NTSTATUS);

impl View for Error {
    type V = NTSTATUS;

    closed spec fn view(&self) -> NTSTATUS {
        self.0
    }
}

impl Error {
    /// The error that carries `status`.
    pub closed spec fn wrapping(status: NTSTATUS) -> Error {
        Error(status)
    }

    /// The status that `wrapping` puts in is the status that comes out.
    pub broadcast proof fn lemma_wrapping_view(status: NTSTATUS)
        ensures
            #[trigger] Error::wrapping(status)@ == status,
    {
    }

    /// `Error` is transparent over `NTSTATUS`: every error is the wrapping of
    /// its status, so two errors are equal exactly when their statuses are.
    pub broadcast proof fn lemma_error_is_its_status(error: Error)
        ensures
            #[trigger] Error::wrapping(error@) == error,
    {
    }

    /// Create an error from a `status`.
    #[must_use]
    pub fn from_ntstatus(status: NTSTATUS) -> (error: Error)
        ensures
            error == Error::wrapping(status),
            error@ == status,
    {
        Error(status)
    }

    /// Create an error from a raw 32-bit status pattern.
    ///
    /// `NTSTATUS` is signed, but status codes are written as unsigned
    /// hexadecimal by convention. This constructor accepts them in that form.
    #[must_use]
    pub fn from_bits(bits: u32) -> (error: Error)
        ensures
            error == Error::wrapping(#[verifier::truncate] (bits as i32)),
            word(error@) == bits,
    {
        Error(crate::layout::from_bits(bits))
    }

    /// Retrieve the `NTSTATUS` code from the error.
    #[must_use]
    pub fn ntstatus(self) -> (status: NTSTATUS)
        ensures
            status == self@,
    {
        self.0
    }

    /// Check if the error matches a specific `NTSTATUS` code.
    #[must_use]
    pub fn is(self, code: NTSTATUS) -> (matches: bool)
        ensures
            matches == (self@ == code),
    {
        self.ntstatus() == code
    }

    /// Retrieve the severity class encoded in the status.
    #[must_use]
    pub fn severity(self) -> (severity: Severity)
        ensures
            severity == Severity::of_status(self@),
    {
        Severity::from_ntstatus(self.0)
    }

    /// Retrieve the facility code (bits 16-27), identifying the subsystem the
    /// status originates from.
    #[must_use]
    pub fn facility(self) -> (facility: u32)
        ensures
            facility == facility_bits(self@),
            facility < 0x1000,
    {
        proof {
            lemma_fields_read_their_bits(self.0);
            lemma_word_is_the_sum_of_its_fields(self.0);
        }
        facility_field().get(self.0)
    }

    /// Retrieve the status code (bits 0-15), the facility-specific identifier.
    #[must_use]
    pub fn code(self) -> (code: u32)
        ensures
            code == code_bits(self@),
            code < 0x1_0000,
    {
        proof {
            lemma_fields_read_their_bits(self.0);
            lemma_word_is_the_sum_of_its_fields(self.0);
        }
        code_field().get(self.0)
    }

    /// Check whether the status is customer-defined (bit 29) rather than
    /// defined by Microsoft.
    ///
    /// Third parties set this bit when minting their own status codes, which
    /// guarantees the value can never collide with a Microsoft-defined code.
    /// Customer-defined values are recognisable by their leading nibble:
    /// `0x2` success, `0x6` informational, `0xA` warning, `0xE` error.
    #[must_use]
    pub fn is_customer(self) -> (customer: bool)
        ensures
            customer == (customer_bit(self@) == 1),
    {
        proof {
            lemma_fields_read_their_bits(self.0);
            lemma_word_is_the_sum_of_its_fields(self.0);
        }
        customer_field().get(self.0) != 0
    }

    /// Check whether the severity class is `Severity::Success`.
    ///
    /// This is **not** the same question as "would this convert to `Ok`":
    /// only `STATUS_SUCCESS` converts to `Ok`, but the `Success` class also
    /// holds codes such as `STATUS_PENDING` and `STATUS_TIMEOUT`.
    #[must_use]
    pub fn is_success(self) -> (success: bool)
        ensures
            success == (Severity::of_status(self@) == Severity::Success),
    {
        matches!(self.severity(), Severity::Success)
    }

    /// Check whether the severity class is `Severity::Information`.
    #[must_use]
    pub fn is_information(self) -> (information: bool)
        ensures
            information == (Severity::of_status(self@) == Severity::Information),
    {
        matches!(self.severity(), Severity::Information)
    }

    /// Check whether the severity class is `Severity::Warning`.
    #[must_use]
    pub fn is_warning(self) -> (warning: bool)
        ensures
            warning == (Severity::of_status(self@) == Severity::Warning),
    {
        matches!(self.severity(), Severity::Warning)
    }

    /// Check whether the severity class is `Severity::Error`.
    #[must_use]
    pub fn is_error(self) -> (error: bool)
        ensures
            error == (Severity::of_status(self@) == Severity::Error),
    {
        matches!(self.severity(), Severity::Error)
    }

    /// Render the status as `0x` followed by eight zero-padded uppercase
    /// hexadecimal digits, e.g. `0xC0000022`.
    #[must_use]
    pub fn to_string(&self) -> (text: String)
        ensures
            text@ == hex_text(word(self@)),
    {
        render_hex(self.0 as u32)
    }
}

/// The facts that tie an error to its status; a module that reasons about
/// errors built in specifications brings them in with `broadcast use`.
pub broadcast group group_error_model {
    Error::lemma_wrapping_view,
    Error::lemma_error_is_its_status,
}

/// Exactly one of the four severity predicates holds of any status.
pub proof fn lemma_severity_predicates_partition(status: NTSTATUS)
    ensures
        Severity::of_status(status) == Severity::Success || Severity::of_status(status)
            == Severity::Information || Severity::of_status(status) == Severity::Warning
            || Severity::of_status(status) == Severity::Error,
        Severity::of_status(status) == Severity::Success ==> Severity::of_status(status)
            != Severity::Information && Severity::of_status(status) != Severity::Warning
            && Severity::of_status(status) != Severity::Error,
        Severity::of_status(status) == Severity::Information ==> Severity::of_status(status)
            != Severity::Warning && Severity::of_status(status) != Severity::Error,
        Severity::of_status(status) == Severity::Warning ==> Severity::of_status(status)
            != Severity::Error,
{
}

} // verus!
