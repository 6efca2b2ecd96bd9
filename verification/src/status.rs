//! Status codes of Node-API and the errors made from them.

use vstd::prelude::*;
use vstd::std_specs::convert::FromSpecImpl;

verus! {

/// The code of a Node-API call that succeeded.
pub const NAPI_OK: i32 = 0;

/// The code of a Node-API call that left a JavaScript exception pending.
pub const NAPI_PENDING_EXCEPTION: i32 = 10;

/// The largest code that Node-API defines; the codes from zero to it are all in use.
pub const NAPI_LAST_CODE: i32 = 22;

/// The number of the status that stands for every undefined code.
pub const UNKNOWN_NUMBER: i32 = 1024;

/// The outcome of a Node-API call.
#[derive(Clone, Copy, Debug, PartialEq, Eq, Structural)]
pub enum CallStatus {
    /// The call succeeded.
    Success,
    InvalidArg,
    ObjectExpected,
    StringExpected,
    NameExpected,
    FunctionExpected,
    NumberExpected,
    BooleanExpected,
    ArrayExpected,
    GenericFailure,
    PendingException,
    Cancelled,
    EscapeCalledTwice,
    HandleScopeMismatch,
    CallbackScopeMismatch,
    /// The queue of a thread-safe function is full.
    QueueFull,
    /// The thread-safe function is closed.
    Closing,
    BigintExpected,
    DateExpected,
    ArrayBufferExpected,
    DetachableArraybufferExpected,
    WouldDeadlock,
    NoExternalBuffersAllowed,
    /// A code that Node-API does not define.
    Unknown,
}

/// The status that a raw code stands for.
pub open spec fn status_of(code: i32) -> CallStatus {
    match code {
        0i32 => CallStatus::Success,
        1i32 => CallStatus::InvalidArg,
        2i32 => CallStatus::ObjectExpected,
        3i32 => CallStatus::StringExpected,
        4i32 => CallStatus::NameExpected,
        5i32 => CallStatus::FunctionExpected,
        6i32 => CallStatus::NumberExpected,
        7i32 => CallStatus::BooleanExpected,
        8i32 => CallStatus::ArrayExpected,
        9i32 => CallStatus::GenericFailure,
        10i32 => CallStatus::PendingException,
        11i32 => CallStatus::Cancelled,
        12i32 => CallStatus::EscapeCalledTwice,
        13i32 => CallStatus::HandleScopeMismatch,
        14i32 => CallStatus::CallbackScopeMismatch,
        15i32 => CallStatus::QueueFull,
        16i32 => CallStatus::Closing,
        17i32 => CallStatus::BigintExpected,
        18i32 => CallStatus::DateExpected,
        19i32 => CallStatus::ArrayBufferExpected,
        20i32 => CallStatus::DetachableArraybufferExpected,
        21i32 => CallStatus::WouldDeadlock,
        22i32 => CallStatus::NoExternalBuffersAllowed,
        _ => CallStatus::Unknown,
    }
}

impl CallStatus {
    /// The number of the status: its code, or the number set aside for undefined codes.
    pub open spec fn number(self) -> i32 {
        match self {
            CallStatus::Success => 0,
            CallStatus::InvalidArg => 1,
            CallStatus::ObjectExpected => 2,
            CallStatus::StringExpected => 3,
            CallStatus::NameExpected => 4,
            CallStatus::FunctionExpected => 5,
            CallStatus::NumberExpected => 6,
            CallStatus::BooleanExpected => 7,
            CallStatus::ArrayExpected => 8,
            CallStatus::GenericFailure => 9,
            CallStatus::PendingException => 10,
            CallStatus::Cancelled => 11,
            CallStatus::EscapeCalledTwice => 12,
            CallStatus::HandleScopeMismatch => 13,
            CallStatus::CallbackScopeMismatch => 14,
            CallStatus::QueueFull => 15,
            CallStatus::Closing => 16,
            CallStatus::BigintExpected => 17,
            CallStatus::DateExpected => 18,
            CallStatus::ArrayBufferExpected => 19,
            CallStatus::DetachableArraybufferExpected => 20,
            CallStatus::WouldDeadlock => 21,
            CallStatus::NoExternalBuffersAllowed => 22,
            CallStatus::Unknown => UNKNOWN_NUMBER,
        }
    }

    /// The name of the status, as it is reported to JavaScript.
    pub open spec fn name(self) -> Seq<char> {
        match self {
            CallStatus::Success => "Ok"@,
            CallStatus::InvalidArg => "InvalidArg"@,
            CallStatus::ObjectExpected => "ObjectExpected"@,
            CallStatus::StringExpected => "StringExpected"@,
            CallStatus::NameExpected => "NameExpected"@,
            CallStatus::FunctionExpected => "FunctionExpected"@,
            CallStatus::NumberExpected => "NumberExpected"@,
            CallStatus::BooleanExpected => "BooleanExpected"@,
            CallStatus::ArrayExpected => "ArrayExpected"@,
            CallStatus::GenericFailure => "GenericFailure"@,
            CallStatus::PendingException => "PendingException"@,
            CallStatus::Cancelled => "Cancelled"@,
            CallStatus::EscapeCalledTwice => "EscapeCalledTwice"@,
            CallStatus::HandleScopeMismatch => "HandleScopeMismatch"@,
            CallStatus::CallbackScopeMismatch => "CallbackScopeMismatch"@,
            CallStatus::QueueFull => "QueueFull"@,
            CallStatus::Closing => "Closing"@,
            CallStatus::BigintExpected => "BigintExpected"@,
            CallStatus::DateExpected => "DateExpected"@,
            CallStatus::ArrayBufferExpected => "ArrayBufferExpected"@,
            CallStatus::DetachableArraybufferExpected => "DetachableArraybufferExpected"@,
            CallStatus::WouldDeadlock => "WouldDeadlock"@,
            CallStatus::NoExternalBuffersAllowed => "NoExternalBuffersAllowed"@,
            CallStatus::Unknown => "Unknown"@,
        }
    }
}

/// Calls `napi::Status::from` on a raw code and reads the number of the variant it gives.
///
/// Claimed of it: a code from zero to the last defined one keeps its number, and every
/// other code gives the variant for unknown codes.
#[verifier::external_body]
fn napi_status_from(code: i32) -> (number: i32)
    ensures
        number == (if 0 <= code <= NAPI_LAST_CODE { code } else { UNKNOWN_NUMBER }),
{
    napi::Status::from(code) as i32
}

/// Formats the `napi::Status` of a raw code with its derived `Debug`.
///
/// Claimed of it: the text is the name of the variant, with nothing around it.
#[verifier::external_body]
fn napi_status_debug(code: i32) -> (text: String)
    ensures
        text@ == status_of(code).name(),
{
    format!("{:?}", napi::Status::from(code))
}

impl From<i32> for CallStatus {
    fn from(code: i32) -> (status: CallStatus) {
        match napi_status_from(code) {
            0 => CallStatus::Success,
            1 => CallStatus::InvalidArg,
            2 => CallStatus::ObjectExpected,
            3 => CallStatus::StringExpected,
            4 => CallStatus::NameExpected,
            5 => CallStatus::FunctionExpected,
            6 => CallStatus::NumberExpected,
            7 => CallStatus::BooleanExpected,
            8 => CallStatus::ArrayExpected,
            9 => CallStatus::GenericFailure,
            10 => CallStatus::PendingException,
            11 => CallStatus::Cancelled,
            12 => CallStatus::EscapeCalledTwice,
            13 => CallStatus::HandleScopeMismatch,
            14 => CallStatus::CallbackScopeMismatch,
            15 => CallStatus::QueueFull,
            16 => CallStatus::Closing,
            17 => CallStatus::BigintExpected,
            18 => CallStatus::DateExpected,
            19 => CallStatus::ArrayBufferExpected,
            20 => CallStatus::DetachableArraybufferExpected,
            21 => CallStatus::WouldDeadlock,
            22 => CallStatus::NoExternalBuffersAllowed,
            _ => CallStatus::Unknown,
        }
    }
}

impl FromSpecImpl<i32> for CallStatus {
    open spec fn obeys_from_spec() -> bool {
        true
    }

    open spec fn from_spec(code: i32) -> CallStatus {
        status_of(code)
    }
}

/// The name under which the status of a raw code is reported to JavaScript.
pub fn status_name(code: i32) -> (text: String)
    ensures
        text@ == status_of(code).name(),
{
    napi_status_debug(code)
}

/// A failed operation: the status that it failed with, and a reason for people to read.
#[derive(Debug)]
pub struct Error {
    pub status: CallStatus,
    pub reason: String,
}

impl View for Error {
    type V = (CallStatus, Seq<char>);

    open spec fn view(&self) -> (CallStatus, Seq<char>) {
        (self.status, self.reason@)
    }
}

/// The error that a failing code is turned into: its status, and no reason.
pub open spec fn error_of(code: i32) -> (CallStatus, Seq<char>) {
    (status_of(code), Seq::empty())
}

/// Turns the code of a Node-API call into a result.
pub fn check_status(code: i32) -> (result: Result<(), Error>)
    ensures
        result is Ok <==> code == NAPI_OK,
        result matches Err(e) ==> e@ == error_of(code) && e.status == status_of(code)
            && e.reason@.len() == 0,
{
    if code == NAPI_OK {
        Ok(())
    } else {
        Err(Error { status: CallStatus::from(code), reason: String::new() })
    }
}

/// A defined code is the number of its status, and the undefined codes are those whose
/// status is unknown; so two defined codes never share a status.
pub proof fn law_status_of_code(code: i32, status: CallStatus)
    ensures
        status_of(code).number() == (if 0 <= code <= NAPI_LAST_CODE {
            code
        } else {
            UNKNOWN_NUMBER
        }),
        status_of(code) == status <==> (if status is Unknown {
            !(0 <= code <= NAPI_LAST_CODE)
        } else {
            code == status.number()
        }),
{
}

/// An error made from a code says which code it was, as far as it is defined, and nothing else;
/// what it looks like is what it holds.
pub proof fn law_error_says_its_code(code: i32, error: Error)
    ensures
        error_of(code).0.number() == (if 0 <= code <= NAPI_LAST_CODE {
            code
        } else {
            UNKNOWN_NUMBER
        }),
        error_of(code).1.len() == 0,
        error@.0 == error.status,
        error@.1 == error.reason@,
{
}

/// An error made from a failing code never carries the status of success.
pub proof fn law_error_is_no_success(code: i32)
    requires
        code != NAPI_OK,
    ensures
        error_of(code).0 != CallStatus::Success,
{
}

} // verus!
