//! The status type: the same data as `Error`, with the opposite intent.

use vstd::prelude::*;
use windows_sys::Win32::Foundation::NTSTATUS;
use crate::layout::{
    code_bits, code_field, customer_bit, customer_field, facility_bits, facility_field,
    lemma_fields_read_their_bits, lemma_word_is_the_sum_of_its_fields, word,
};
use crate::render::{hex_text, render_hex};
use crate::severity::Severity;

verus! {

/// A status that is an expected outcome rather than a failure, such as
/// `STATUS_BUFFER_TOO_SMALL` returned on purpose.
///
/// It is a newtype rather than a bare `NTSTATUS` because `NTSTATUS` is an
/// alias for `i32`: without it, a `Result<i32>` carrying a byte count would be
/// indistinguishable from one carrying a status code. Its model is the status
/// it carries (`status@`), and it offers the same accessors as `Error`.
#[derive(Debug, Clone, Copy, PartialEq, Eq, Structural, Hash)]
pub struct Status(pub(crate) NTSTATUS);

impl View for Status {
    type V = NTSTATUS;

    closed spec fn view(&self) -> NTSTATUS {
        self.0
    }
}

impl Status {
    /// The status value that carries `status`.
    pub closed spec fn wrapping(status: NTSTATUS) -> Status {
        Status(status)
    }

    /// The status that `wrapping` puts in is the status that comes out.
    pub broadcast proof fn lemma_wrapping_view(status: NTSTATUS)
        ensures
            #[trigger] Status::wrapping(status)@ == status,
    {
    }

    /// `Status` is transparent over `NTSTATUS`: every value is the wrapping of
    /// its status, so two values are equal exactly when their statuses are.
    pub broadcast proof fn lemma_status_is_its_status(status: Status)
        ensures
            #[trigger] Status::wrapping(status@) == status,
    {
    }

    /// Create a status value from an `NTSTATUS`.
    #[must_use]
    pub fn from_ntstatus(status: NTSTATUS) -> (value: Status)
        ensures
            value == Status::wrapping(status),
            value@ == status,
    {
        Status(status)
    }

    /// Create a status value from a raw 32-bit status pattern, written in the
    /// unsigned form status codes are conventionally written in.
    #[must_use]
    pub fn from_bits(bits: u32) -> (value: Status)
        ensures
            value == Status::wrapping(#[verifier::truncate] (bits as i32)),
            word(value@) == bits,
    {
        Status(crate::layout::from_bits(bits))
    }

    /// Retrieve the `NTSTATUS` code.
    #[must_use]
    pub fn ntstatus(self) -> (status: NTSTATUS)
        ensures
            status == self@,
    {
        self.0
    }

    /// Check if the status matches a specific `NTSTATUS` code.
    #[must_use]
    pub fn is(self, code: NTSTATUS) -> (matches: bool)
        ensures
            matches == (self@ == code),
    {
        self.ntstatus() == code
    }

    /// Retrieve the severity class encoded in the status.
    #[must_use]
    pub fn severity(self) -> (severity: Severity)
        ensures
            severity == Severity::of_status(self@),
    {
        Severity::from_ntstatus(self.0)
    }

    /// Retrieve the facility code (bits 16-27), identifying the subsystem the
    /// status originates from.
    #[must_use]
    pub fn facility(self) -> (facility: u32)
        ensures
            facility == facility_bits(self@),
            facility < 0x1000,
    {
        proof {
            lemma_fields_read_their_bits(self.0);
            lemma_word_is_the_sum_of_its_fields(self.0);
        }
        facility_field().get(self.0)
    }

    /// Retrieve the status code (bits 0-15), the facility-specific identifier.
    #[must_use]
    pub fn code(self) -> (code: u32)
        ensures
            code == code_bits(self@),
            code < 0x1_0000,
    {
        proof {
            lemma_fields_read_their_bits(self.0);
            lemma_word_is_the_sum_of_its_fields(self.0);
        }
        code_field().get(self.0)
    }

    /// Check whether the status is customer-defined (bit 29) rather than
    /// defined by Microsoft.
    #[must_use]
    pub fn is_customer(self) -> (customer: bool)
        ensures
            customer == (customer_bit(self@) == 1),
    {
        proof {
            lemma_fields_read_their_bits(self.0);
            lemma_word_is_the_sum_of_its_fields(self.0);
        }
        customer_field().get(self.0) != 0
    }

    /// Check whether the severity class is `Severity::Success`.
    ///
    /// This reports the severity field, **not** whether the value equals
    /// `STATUS_SUCCESS`: the `Success` class also holds codes such as
    /// `STATUS_PENDING` and `STATUS_TIMEOUT`.
    #[must_use]
    pub fn is_success(self) -> (success: bool)
        ensures
            success == (Severity::of_status(self@) == Severity::Success),
    {
        matches!(self.severity(), Severity::Success)
    }

    /// Check whether the severity class is `Severity::Information`.
    #[must_use]
    pub fn is_information(self) -> (information: bool)
        ensures
            information == (Severity::of_status(self@) == Severity::Information),
    {
        matches!(self.severity(), Severity::Information)
    }

    /// Check whether the severity class is `Severity::Warning`.
    #[must_use]
    pub fn is_warning(self) -> (warning: bool)
        ensures
            warning == (Severity::of_status(self@) == Severity::Warning),
    {
        matches!(self.severity(), Severity::Warning)
    }

    /// Check whether the severity class is `Severity::Error`.
    #[must_use]
    pub fn is_error(self) -> (error: bool)
        ensures
            error == (Severity::of_status(self@) == Severity::Error),
    {
        matches!(self.severity(), Severity::Error)
    }

    /// Render the status as `0x` followed by eight zero-padded uppercase
    /// hexadecimal digits, e.g. `0xC0000023`.
    #[must_use]
    pub fn to_string(&self) -> (text: String)
        ensures
            text@ == hex_text(word(self@)),
    {
        render_hex(self.0 as u32)
    }
}

/// The facts that tie a status value to the status it carries; a module that
/// reasons about status values built in specifications brings them in with
/// `broadcast use`.
pub broadcast group group_status_model {
    Status::lemma_wrapping_view,
    Status::lemma_status_is_its_status,
}

} // verus!
