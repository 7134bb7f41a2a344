//! The severity class held in the top two bits of a status.

use vstd::prelude::*;
use core::cmp::Ordering;
use vstd::std_specs::cmp::PartialOrdSpecImpl;
use windows_sys::Win32::Foundation::NTSTATUS;
use crate::layout::{
    lemma_fields_read_their_bits, lemma_word_is_the_sum_of_its_fields, severity_bits, severity_field,
};

verus! {

/// The severity class encoded in the top two bits of an `NTSTATUS`.
///
/// ```text
///  31 30 | 29 | 28 | 27 ------ 16 | 15 ------- 0
///   Sev  | C  | R  |   Facility   |     Code
/// ```
///
/// Variants are ordered by increasing severity, so comparisons such as
/// `severity >= Severity::Warning` work as expected. Their discriminants are
/// the two-bit values of the field: 0, 1, 2 and 3.
#[derive(Debug, Clone, Copy, PartialEq, Eq, Structural, Ord)]
pub enum Severity {
    /// `STATUS_SEVERITY_SUCCESS` (`0b00`).
    ///
    /// Includes `STATUS_SUCCESS`, but also codes like `STATUS_PENDING` and
    /// `STATUS_TIMEOUT`, which this crate still treats as errors.
    Success,
    /// `STATUS_SEVERITY_INFORMATIONAL` (`0b01`).
    Information,
    /// `STATUS_SEVERITY_WARNING` (`0b10`).
    Warning,
    /// `STATUS_SEVERITY_ERROR` (`0b11`).
    Error,
}

impl Severity {
    /// The two-bit value of the severity field that names this class.
    pub open spec fn encoding(self) -> u32 {
        match self {
            Severity::Success => 0,
            Severity::Information => 1,
            Severity::Warning => 2,
            Severity::Error => 3,
        }
    }

    /// The class that a severity field value names; every value from 3 up
    /// is read as `Error`.
    pub open spec fn classify(bits: u32) -> Severity {
        if bits == 0 {
            Severity::Success
        } else if bits == 1 {
            Severity::Information
        } else if bits == 2 {
            Severity::Warning
        } else {
            Severity::Error
        }
    }

    /// The severity class of `status`.
    pub open spec fn of_status(status: NTSTATUS) -> Severity {
        Severity::classify(severity_bits(status))
    }

    /// Extract the severity class from an `NTSTATUS`.
    ///
    /// Accepts any `NTSTATUS`, so a raw status can be classified without
    /// wrapping it in an `Error` first.
    #[must_use]
    pub fn from_ntstatus(status: NTSTATUS) -> (severity: Severity)
        ensures
            severity == Severity::of_status(status),
            severity.encoding() == severity_bits(status),
    {
        proof {
            lemma_fields_read_their_bits(status);
            lemma_word_is_the_sum_of_its_fields(status);
        }
        let bits = severity_field().get(status);
        if bits == 0 {
            Severity::Success
        } else if bits == 1 {
            Severity::Information
        } else if bits == 2 {
            Severity::Warning
        } else {
            Severity::Error
        }
    }

    /// The position of this class in the order of increasing severity.
    fn rank(&self) -> (rank: u32)
        ensures
            rank == self.encoding(),
    {
        match self {
            Severity::Success => 0,
            Severity::Information => 1,
            Severity::Warning => 2,
            Severity::Error => 3,
        }
    }
}

/// Compares two severity classes by how severe they are.
pub open spec fn severity_order(a: Severity, b: Severity) -> Ordering {
    if a.encoding() < b.encoding() {
        Ordering::Less
    } else if a.encoding() == b.encoding() {
        Ordering::Equal
    } else {
        Ordering::Greater
    }
}

impl PartialOrd for Severity {
    fn partial_cmp(&self, other: &Severity) -> (order: Option<Ordering>) {
        let a = self.rank();
        let b = other.rank();
        if a < b {
            Some(Ordering::Less)
        } else if a == b {
            Some(Ordering::Equal)
        } else {
            Some(Ordering::Greater)
        }
    }
}

impl PartialOrdSpecImpl for Severity {
    open spec fn obeys_partial_cmp_spec() -> bool {
        true
    }

    open spec fn partial_cmp_spec(&self, other: &Severity) -> Option<Ordering> {
        Some(severity_order(*self, *other))
    }
}

/// The classes are ordered by increasing severity,
/// `Success < Information < Warning < Error`, and two statuses compare as
/// their severity fields do.
pub proof fn lemma_severity_order(a: NTSTATUS, b: NTSTATUS)
    ensures
        severity_order(Severity::Success, Severity::Information) == Ordering::Less,
        severity_order(Severity::Information, Severity::Warning) == Ordering::Less,
        severity_order(Severity::Warning, Severity::Error) == Ordering::Less,
        severity_order(Severity::of_status(a), Severity::of_status(b)) == Ordering::Less
            <==> severity_bits(a) < severity_bits(b),
        severity_order(Severity::of_status(a), Severity::of_status(b)) == Ordering::Equal
            <==> severity_bits(a) == severity_bits(b),
{
    lemma_word_is_the_sum_of_its_fields(a);
    lemma_word_is_the_sum_of_its_fields(b);
}

/// The order on classes is a total order: it agrees with equality and is
/// antisymmetric and transitive.
pub proof fn lemma_severity_order_is_total(a: Severity, b: Severity, c: Severity)
    ensures
        (severity_order(a, b) == Ordering::Equal) <==> a == b,
        severity_order(a, b) == Ordering::Less <==> severity_order(b, a) == Ordering::Greater,
        severity_order(a, b) == Ordering::Less && severity_order(b, c) == Ordering::Less
            ==> severity_order(a, c) == Ordering::Less,
{
}

} // verus!
