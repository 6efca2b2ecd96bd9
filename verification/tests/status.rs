use napi::sys;
use worker_pool::status::{
    check_status, status_name, CallStatus, NAPI_LAST_CODE, NAPI_OK, NAPI_PENDING_EXCEPTION,
    UNKNOWN_NUMBER,
};

const NAMES: [(i32, CallStatus, &str); 23] = [
    (0, CallStatus::Success, "Ok"),
    (1, CallStatus::InvalidArg, "InvalidArg"),
    (2, CallStatus::ObjectExpected, "ObjectExpected"),
    (3, CallStatus::StringExpected, "StringExpected"),
    (4, CallStatus::NameExpected, "NameExpected"),
    (5, CallStatus::FunctionExpected, "FunctionExpected"),
    (6, CallStatus::NumberExpected, "NumberExpected"),
    (7, CallStatus::BooleanExpected, "BooleanExpected"),
    (8, CallStatus::ArrayExpected, "ArrayExpected"),
    (9, CallStatus::GenericFailure, "GenericFailure"),
    (10, CallStatus::PendingException, "PendingException"),
    (11, CallStatus::Cancelled, "Cancelled"),
    (12, CallStatus::EscapeCalledTwice, "EscapeCalledTwice"),
    (13, CallStatus::HandleScopeMismatch, "HandleScopeMismatch"),
    (14, CallStatus::CallbackScopeMismatch, "CallbackScopeMismatch"),
    (15, CallStatus::QueueFull, "QueueFull"),
    (16, CallStatus::Closing, "Closing"),
    (17, CallStatus::BigintExpected, "BigintExpected"),
    (18, CallStatus::DateExpected, "DateExpected"),
    (19, CallStatus::ArrayBufferExpected, "ArrayBufferExpected"),
    (20, CallStatus::DetachableArraybufferExpected, "DetachableArraybufferExpected"),
    (21, CallStatus::WouldDeadlock, "WouldDeadlock"),
    (22, CallStatus::NoExternalBuffersAllowed, "NoExternalBuffersAllowed"),
];

#[test]
fn codes_have_their_statuses_and_names() {
    for (code, status, name) in NAMES {
        assert_eq!(CallStatus::from(code), status);
        assert_eq!(status_name(code), name);
        assert_eq!(napi::Status::from(code) as i32, code);
    }
}

#[test]
fn undefined_codes_are_unknown() {
    for code in [-1, 23, 1023, 1024, i32::MIN, i32::MAX] {
        assert_eq!(CallStatus::from(code), CallStatus::Unknown);
        assert_eq!(status_name(code), "Unknown");
    }
}

#[test]
fn constants_are_those_of_node() {
    assert_eq!(NAPI_OK, sys::Status::napi_ok);
    assert_eq!(NAPI_PENDING_EXCEPTION, sys::Status::napi_pending_exception);
    assert_eq!(NAPI_LAST_CODE, sys::Status::napi_no_external_buffers_allowed);
    assert_eq!(UNKNOWN_NUMBER, napi::Status::Unknown as i32);
}

#[test]
fn success_is_no_error() {
    assert!(check_status(0).is_ok());
}

#[test]
fn failing_codes_become_errors_without_a_reason() {
    for code in [1, 9, 10, 16, 22, 23, -7] {
        let error = check_status(code).unwrap_err();
        assert_eq!(error.status, CallStatus::from(code));
        assert_ne!(error.status, CallStatus::Success);
        assert_eq!(error.reason, "");
    }
}
