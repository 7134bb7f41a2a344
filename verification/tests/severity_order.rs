use ntresult::Severity;
use windows_sys::Win32::Foundation::{
    STATUS_ACCESS_DENIED, STATUS_BUFFER_OVERFLOW, STATUS_OBJECT_NAME_EXISTS, STATUS_SUCCESS,
};

#[test]
fn severity_orders_by_increasing_severity() {
    assert!(Severity::Success < Severity::Information);
    assert!(Severity::Information < Severity::Warning);
    assert!(Severity::Warning < Severity::Error);
}

#[test]
fn severity_of_statuses_compares_as_their_severity_fields() {
    let warning = Severity::from_ntstatus(STATUS_BUFFER_OVERFLOW);

    assert!(warning >= Severity::Warning);
    assert!(Severity::from_ntstatus(STATUS_ACCESS_DENIED) >= Severity::Warning);
    assert!(Severity::from_ntstatus(STATUS_OBJECT_NAME_EXISTS) < Severity::Warning);
    assert!(Severity::from_ntstatus(STATUS_SUCCESS) < warning);
    assert!(warning <= Severity::Warning && warning >= Severity::Warning);
    assert!(!(Severity::Error < Severity::Error));
}
