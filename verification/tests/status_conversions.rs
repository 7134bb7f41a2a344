use ntresult::layout::from_bits;
use ntresult::{
    Error, IntoError, IntoResult, NtStatus, NtStatusOrSuccess, NtStatusResult, Result, Severity,
    Status, StatusResult,
};
use windows_sys::Win32::Foundation::{
    NTSTATUS, STATUS_ACCESS_DENIED, STATUS_BUFFER_OVERFLOW, STATUS_OBJECT_NAME_EXISTS,
    STATUS_PENDING, STATUS_SUCCESS, STATUS_TIMEOUT, STATUS_ACPI_INVALID_DATA, STATUS_BUFFER_TOO_SMALL,
};

/// Customer-defined error; leading nibble `0xE`.
const CUSTOMER_ERROR: NTSTATUS = 0xE000_0001_u32 as i32;
/// No real `STATUS_*` constant has a non-zero facility, so the facility mask
/// can only be exercised with a synthetic value.
const FACILITY_0X23: NTSTATUS = 0xC023_0001_u32 as i32;

fn to_status<T: NtStatus>(value: &T) -> NTSTATUS {
    value.ntstatus()
}

#[test]
fn test_nt_status_result() {
    let success: StatusResult = Ok(Status::from_ntstatus(STATUS_SUCCESS));
    let error: StatusResult = Err(Error::from_ntstatus(STATUS_ACCESS_DENIED));

    assert_eq!(success.ntstatus_res(), STATUS_SUCCESS);
    assert_eq!(error.ntstatus_res(), STATUS_ACCESS_DENIED);
}

#[test]
fn test_ntstatus() {
    let success: Result<()> = Ok(());
    let error: Result<()> = Err(Error::from_ntstatus(STATUS_ACCESS_DENIED));

    assert_eq!(success.ntstatus(), STATUS_SUCCESS);
    assert_eq!(error.ntstatus(), STATUS_ACCESS_DENIED);
}

#[test]
fn test_into_result() {
    let success: NTSTATUS = STATUS_SUCCESS;
    let error: NTSTATUS = STATUS_ACCESS_DENIED;

    assert_eq!(success.into_result(), Ok(()));
    assert_eq!(
        error.into_result(),
        Err(Error::from_ntstatus(STATUS_ACCESS_DENIED))
    );
}

#[test]
fn test_into_error() {
    let status: NTSTATUS = STATUS_ACCESS_DENIED;
    assert_eq!(
        status.into_error(),
        Error::from_ntstatus(STATUS_ACCESS_DENIED)
    );
}

#[test]
fn test_from_ntstatus() {
    let status: NTSTATUS = STATUS_ACCESS_DENIED;
    let error = Error::from_ntstatus(status);
    assert_eq!(error.ntstatus(), STATUS_ACCESS_DENIED);
}

#[test]
fn test_ntstatus_trait() {
    let success: Result<()> = Ok(());
    let error: Result<()> = Err(Error::from_ntstatus(STATUS_ACCESS_DENIED));

    assert_eq!(success.ntstatus(), STATUS_SUCCESS);
    assert_eq!(error.ntstatus(), STATUS_ACCESS_DENIED);
}

#[test]
fn severity_classifies_every_class() {
    assert_eq!(Severity::from_ntstatus(STATUS_SUCCESS), Severity::Success);
    assert_eq!(Severity::from_ntstatus(STATUS_PENDING), Severity::Success);
    assert_eq!(Severity::from_ntstatus(STATUS_TIMEOUT), Severity::Success);
    assert_eq!(
        Severity::from_ntstatus(STATUS_OBJECT_NAME_EXISTS),
        Severity::Information
    );
    assert_eq!(
        Severity::from_ntstatus(STATUS_BUFFER_OVERFLOW),
        Severity::Warning
    );
    assert_eq!(
        Severity::from_ntstatus(STATUS_ACCESS_DENIED),
        Severity::Error
    );
}

#[test]
fn severity_does_not_sign_extend() {
    // `NTSTATUS` is signed; an arithmetic shift would collapse both of these
    // to the same wrong answer. Both inputs must be negative for this test to
    // mean anything.
    assert!(STATUS_ACCESS_DENIED < 0);
    assert!(STATUS_BUFFER_OVERFLOW < 0);
    assert_eq!(
        Severity::from_ntstatus(STATUS_ACCESS_DENIED),
        Severity::Error
    );
    assert_eq!(
        Severity::from_ntstatus(STATUS_BUFFER_OVERFLOW),
        Severity::Warning
    );
}

#[test]
fn severity_is_const_evaluable() {
    let severity: Severity = Severity::from_ntstatus(STATUS_ACCESS_DENIED);
    assert_eq!(severity, Severity::Error);
}

#[test]
fn facility_extracts_bits_16_to_27() {
    assert_eq!(Error::from_ntstatus(FACILITY_0X23).facility(), 0x023);
    assert_eq!(Error::from_ntstatus(STATUS_ACCESS_DENIED).facility(), 0);
}

#[test]
fn code_extracts_low_16_bits() {
    assert_eq!(Error::from_ntstatus(STATUS_ACCESS_DENIED).code(), 0x0022);
    assert_eq!(Error::from_ntstatus(FACILITY_0X23).code(), 0x0001);
    assert_eq!(Error::from_ntstatus(STATUS_SUCCESS).code(), 0);
}

#[test]
fn is_customer_reads_bit_29() {
    assert!(Error::from_ntstatus(CUSTOMER_ERROR).is_customer());
    assert!(!Error::from_ntstatus(STATUS_ACCESS_DENIED).is_customer());
    // The customer bit must not disturb the severity field.
    assert_eq!(
        Error::from_ntstatus(CUSTOMER_ERROR).severity(),
        Severity::Error
    );
}

#[test]
fn severity_predicates_are_mutually_exclusive() {
    for status in [
        STATUS_SUCCESS,
        STATUS_OBJECT_NAME_EXISTS,
        STATUS_BUFFER_OVERFLOW,
        STATUS_ACCESS_DENIED,
    ] {
        let error = Error::from_ntstatus(status);
        let flags = [
            error.is_success(),
            error.is_information(),
            error.is_warning(),
            error.is_error(),
        ];

        assert_eq!(
            flags.iter().filter(|set| **set).count(),
            1,
            "exactly one predicate must hold for {status:#010x}"
        );
    }
}

#[test]
fn error_constructors_are_const_evaluable() {
    let error: Error = Error::from_ntstatus(STATUS_ACCESS_DENIED);
    let status: NTSTATUS = error.ntstatus();
    let severity: Severity = error.severity();
    assert!(error.is(STATUS_ACCESS_DENIED));

    assert_eq!(status, STATUS_ACCESS_DENIED);
    assert_eq!(severity, Severity::Error);
}

#[test]
fn from_bits_matches_from_ntstatus() {
    assert_eq!(
        Error::from_bits(0xC000_0022),
        Error::from_ntstatus(STATUS_ACCESS_DENIED)
    );
    assert_eq!(Error::from_bits(0), Error::from_ntstatus(STATUS_SUCCESS));
    assert_eq!(
        Error::from_bits(u32::MAX),
        Error::from_ntstatus(from_bits(u32::MAX))
    );
}

#[test]
fn from_bits_is_const_evaluable() {
    let custom: Error = Error::from_bits(0xE000_0001);

    assert!(custom.is_customer());
    assert!(custom.is_error());
    assert_eq!(custom.code(), 0x0001);
}

#[test]
fn error_converts_into_ntstatus() {
    let error = Error::from_ntstatus(STATUS_ACCESS_DENIED);

    let status: NTSTATUS = error.into();
    assert_eq!(status, STATUS_ACCESS_DENIED);
    assert_eq!(NTSTATUS::from(error), STATUS_ACCESS_DENIED);
}

#[test]
fn error_implements_the_nt_status_trait() {
    let error = Error::from_ntstatus(STATUS_ACCESS_DENIED);
    let failure: Result<()> = Err(error);
    let success: Result<()> = Ok(());

    assert_eq!(to_status(&error), STATUS_ACCESS_DENIED);
    assert_eq!(to_status(&failure), STATUS_ACCESS_DENIED);
    assert_eq!(to_status(&success), STATUS_SUCCESS);
}

#[test]
fn error_is_transparent_over_ntstatus() {
    assert_eq!(
        core::mem::size_of::<Error>(),
        core::mem::size_of::<NTSTATUS>()
    );
    assert_eq!(
        core::mem::align_of::<Error>(),
        core::mem::align_of::<NTSTATUS>()
    );
}

#[test]
fn result_into_result_converts_foreign_error_type() {
    let ok: core::result::Result<u8, NTSTATUS> = Ok(7);
    let err: core::result::Result<u8, NTSTATUS> = Err(STATUS_ACCESS_DENIED);

    assert_eq!(ok.into_result(), Ok(7));
    assert_eq!(
        err.into_result(),
        Err(Error::from_ntstatus(STATUS_ACCESS_DENIED))
    );
}

#[test]
fn display_zero_pads_to_eight_hex_digits() {
    assert_eq!(Error::from_ntstatus(STATUS_SUCCESS).to_string(), "0x00000000");
    assert_eq!(Error::from_ntstatus(STATUS_TIMEOUT).to_string(), "0x00000102");
    assert_eq!(
        Error::from_ntstatus(STATUS_OBJECT_NAME_EXISTS).to_string(),
        "0x40000000"
    );
    assert_eq!(
        Error::from_ntstatus(STATUS_BUFFER_OVERFLOW).to_string(),
        "0x80000005"
    );
    assert_eq!(
        Error::from_ntstatus(STATUS_ACCESS_DENIED).to_string(),
        "0xC0000022"
    );
}

#[test]
fn display_is_uppercase_and_always_ten_characters() {
    for status in [
        STATUS_SUCCESS,
        STATUS_TIMEOUT,
        STATUS_PENDING,
        STATUS_OBJECT_NAME_EXISTS,
        STATUS_BUFFER_OVERFLOW,
        STATUS_ACCESS_DENIED,
        CUSTOMER_ERROR,
        FACILITY_0X23,
        from_bits(u32::MAX),
    ] {
        let text = Error::from_ntstatus(status).to_string();

        assert_eq!(text.len(), 10, "wrong width for {status:#010X}");
        assert!(text.starts_with("0x"), "missing prefix for {status:#010X}");
        assert!(
            !text[2..].chars().any(char::is_lowercase),
            "expected uppercase digits, got {text}"
        );
    }
}

#[test]
fn is_success_reports_severity_not_status_success() {
    // `STATUS_PENDING` has Success severity but is still an error here.
    let pending = Error::from_ntstatus(STATUS_PENDING);

    assert!(pending.is_success());
    assert!(!pending.is(STATUS_SUCCESS));
    assert!(STATUS_PENDING.into_result().is_err());
}

fn driver_fn() -> StatusResult {
    Ok(Status::from_ntstatus(STATUS_BUFFER_TOO_SMALL))
}

fn read_register() -> Result<u32> {
    Ok(0x1234)
}

#[test]
fn status_result_keeps_the_carried_status() {
    // The carried status survives; it is not collapsed to STATUS_SUCCESS.
    assert_eq!(driver_fn().ntstatus(), STATUS_BUFFER_TOO_SMALL);
    assert_eq!(driver_fn().ntstatus_res(), STATUS_BUFFER_TOO_SMALL);
    let failed: StatusResult = Err(Error::from_ntstatus(STATUS_ACCESS_DENIED));
    assert_eq!(failed.ntstatus(), STATUS_ACCESS_DENIED);
}

#[test]
fn ntstatus_or_success_discards_the_payload() {
    assert_eq!(read_register().ntstatus_or_success(), STATUS_SUCCESS);
    let failed: Result<u32> = Err(Error::from_ntstatus(STATUS_ACCESS_DENIED));
    assert_eq!(failed.ntstatus_or_success(), STATUS_ACCESS_DENIED);
}

#[test]
fn status_exposes_the_same_accessors_as_error() {
    // STATUS_ACPI_INVALID_DATA is 0xC014000F
    let value = Status::from_ntstatus(STATUS_ACPI_INVALID_DATA);
    assert_eq!(value.severity(), Severity::Error);
    assert_eq!(value.facility(), 0x014);
    assert_eq!(value.code(), 0x000F);
    assert!(value.is_error());
    assert!(!value.is_customer());
    assert!(value.is(STATUS_ACPI_INVALID_DATA));
    assert_eq!(value.ntstatus(), STATUS_ACPI_INVALID_DATA);
    assert_eq!(value.to_string(), "0xC014000F");

    let mine = Status::from_bits(0xE000_0001);
    assert!(mine.is_customer());
    assert!(mine.is_error());
    assert_eq!(mine.code(), 0x0001);

    assert!(Status::from_ntstatus(STATUS_PENDING).is_success());
    assert!(Status::from_ntstatus(STATUS_OBJECT_NAME_EXISTS).is_information());
    assert!(Status::from_ntstatus(STATUS_BUFFER_OVERFLOW).is_warning());
    assert_eq!(Status::from_bits(0xC000_0023), Status::from_ntstatus(STATUS_BUFFER_TOO_SMALL));
    assert_eq!(NtStatus::ntstatus(&mine), 0xE000_0001_u32 as i32);
}
