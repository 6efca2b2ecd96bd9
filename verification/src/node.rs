//! The calls into Node-API that the library asks for.
//!
//! The library never calls Node-API itself. It says which call comes next, and is told what
//! the call gave back. Environments, JavaScript values and thread-safe functions are
//! addresses here; zero is the null pointer.

use vstd::prelude::*;

verus! {

/// A call into Node-API that is to be made.
#[derive(Debug)]
pub enum NapiCall {
    /// `napi_create_string_utf8`; gives back the string.
    CreateString { env: usize, text: String },
    /// `napi_create_threadsafe_function`; gives back the thread-safe function.
    CreateThreadsafeFunction {
        env: usize,
        func: usize,
        async_resource_name: usize,
        max_queue_size: usize,
        initial_thread_count: usize,
    },
    /// `napi_add_env_cleanup_hook`, with the hook that marks the function as aborted.
    AddEnvCleanupHook { env: usize },
    /// `napi_acquire_threadsafe_function`.
    AcquireThreadsafeFunction { func: usize },
    /// `napi_release_threadsafe_function`.
    ReleaseThreadsafeFunction { func: usize, mode: i32 },
    /// `napi_get_undefined`; gives back the value `undefined`.
    GetUndefined { env: usize },
    /// `napi_typeof`; gives back the number of the type.
    TypeOf { env: usize, value: usize },
    /// `napi_get_and_clear_last_exception`; gives back the exception.
    GetAndClearLastException { env: usize },
    /// `napi_create_error`; gives back the error.
    CreateError { env: usize, code: usize, msg: usize },
    /// `napi_fatal_exception`.
    FatalException { env: usize, error: usize },
}

/// A [`NapiCall`] with its text as a sequence of characters.
pub enum NapiCallView {
    CreateString { env: usize, text: Seq<char> },
    CreateThreadsafeFunction {
        env: usize,
        func: usize,
        async_resource_name: usize,
        max_queue_size: usize,
        initial_thread_count: usize,
    },
    AddEnvCleanupHook { env: usize },
    AcquireThreadsafeFunction { func: usize },
    ReleaseThreadsafeFunction { func: usize, mode: i32 },
    GetUndefined { env: usize },
    TypeOf { env: usize, value: usize },
    GetAndClearLastException { env: usize },
    CreateError { env: usize, code: usize, msg: usize },
    FatalException { env: usize, error: usize },
}

impl View for NapiCall {
    type V = NapiCallView;

    open spec fn view(&self) -> NapiCallView {
        match *self {
            NapiCall::CreateString { env, text } => NapiCallView::CreateString { env, text: text@ },
            NapiCall::CreateThreadsafeFunction {
                env,
                func,
                async_resource_name,
                max_queue_size,
                initial_thread_count,
            } => NapiCallView::CreateThreadsafeFunction {
                env,
                func,
                async_resource_name,
                max_queue_size,
                initial_thread_count,
            },
            NapiCall::AddEnvCleanupHook { env } => NapiCallView::AddEnvCleanupHook { env },
            NapiCall::AcquireThreadsafeFunction { func } => {
                NapiCallView::AcquireThreadsafeFunction { func }
            },
            NapiCall::ReleaseThreadsafeFunction { func, mode } => {
                NapiCallView::ReleaseThreadsafeFunction { func, mode }
            },
            NapiCall::GetUndefined { env } => NapiCallView::GetUndefined { env },
            NapiCall::TypeOf { env, value } => NapiCallView::TypeOf { env, value },
            NapiCall::GetAndClearLastException { env } => {
                NapiCallView::GetAndClearLastException { env }
            },
            NapiCall::CreateError { env, code, msg } => NapiCallView::CreateError { env, code, msg },
            NapiCall::FatalException { env, error } => NapiCallView::FatalException { env, error },
        }
    }
}

/// The view of a call is the same call with the same arguments.
pub proof fn law_view_is_the_call(call: NapiCall)
    ensures
        match call {
            NapiCall::CreateString { env, text } => call@ == (NapiCallView::CreateString {
                env,
                text: text@,
            }),
            NapiCall::CreateThreadsafeFunction {
                env,
                func,
                async_resource_name,
                max_queue_size,
                initial_thread_count,
            } => call@ == (NapiCallView::CreateThreadsafeFunction {
                env,
                func,
                async_resource_name,
                max_queue_size,
                initial_thread_count,
            }),
            NapiCall::AddEnvCleanupHook { env } => call@ == (NapiCallView::AddEnvCleanupHook {
                env,
            }),
            NapiCall::AcquireThreadsafeFunction { func } => call@ == (
            NapiCallView::AcquireThreadsafeFunction { func }),
            NapiCall::ReleaseThreadsafeFunction { func, mode } => call@ == (
            NapiCallView::ReleaseThreadsafeFunction { func, mode }),
            NapiCall::GetUndefined { env } => call@ == (NapiCallView::GetUndefined { env }),
            NapiCall::TypeOf { env, value } => call@ == (NapiCallView::TypeOf { env, value }),
            NapiCall::GetAndClearLastException { env } => call@ == (
            NapiCallView::GetAndClearLastException { env }),
            NapiCall::CreateError { env, code, msg } => call@ == (NapiCallView::CreateError {
                env,
                code,
                msg,
            }),
            NapiCall::FatalException { env, error } => call@ == (NapiCallView::FatalException {
                env,
                error,
            }),
        },
{
}

/// What a call into Node-API gave back: its code, and the value it wrote, which means
/// something only for a call that gives one back and succeeded.
#[derive(Clone, Copy, Debug, PartialEq, Eq, Structural)]
pub struct Reply {
    pub status: i32,
    pub value: usize,
}

} // verus!
