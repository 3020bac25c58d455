use rocksdb_bridge::status::{
    IOErrorScope, RustIOStatus, RustStatus, StatusCode, StatusSeverity, StatusSubCode,
};

#[test]
fn status_new_is_ok() {
    let s = RustStatus::new();
    assert!(s.ok());
    let (code, sub, sev) = s.err();
    assert_eq!(code, StatusCode::kOk);
    assert_eq!(sub, StatusSubCode::kNone);
    assert_eq!(sev, StatusSeverity::kNoError);
}

#[test]
fn status_new_error_keeps_defaults() {
    let s = RustStatus::new_error(StatusCode::kCorruption);
    assert!(!s.ok());
    let (code, sub, sev) = s.err();
    assert_eq!(code, StatusCode::kCorruption);
    assert_eq!(sub, StatusSubCode::kNone);
    assert_eq!(sev, StatusSeverity::kNoError);
}

#[test]
fn io_status_new_is_ok() {
    let s = RustIOStatus::new();
    assert!(s.ok());
    assert_eq!(s.status.code, StatusCode::kOk);
    assert!(!s.retryable);
    assert!(!s.data_loss);
    assert_eq!(s.scope, IOErrorScope::kIOErrorScopeFile);
}

#[test]
fn io_status_new_error_is_io_error() {
    let s = RustIOStatus::new_error();
    assert!(!s.ok());
    assert_eq!(s.status.code, StatusCode::kIOError);
    assert_eq!(s.status.sub_code, StatusSubCode::kNone);
    assert_eq!(s.status.severity, StatusSeverity::kNoError);
    let copy = s.err();
    assert_eq!(copy, s);
}
