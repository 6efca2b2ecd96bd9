//! The JavaScript side of a thread-safe function: what is done with a queued call on the
//! thread that owns the function.
//!
//! A call goes through four states, each a type of its own: a [`QueuedCall`] waits for what
//! was queued, a [`TakenCall`] for the receiver, a [`CheckedCall`] for the type of the
//! JavaScript function, and a [`RunningCall`] for the callback.

use vstd::prelude::*;

use crate::node::{NapiCall, NapiCallView, Reply};
use crate::report::{report_start, report_status, ReportStep};
use crate::status::{status_of, CallStatus, Error, NAPI_OK};
use crate::threadsafe_function::CallData;

verus! {

/// The number by which Node-API knows the type of functions.
pub const NAPI_FUNCTION: usize = 7;

/// What the callback of a thread-safe function is given.
#[derive(Debug)]
pub struct ThreadSafeCallContext<T> {
    /// The environment that the JavaScript function lives in.
    pub env: usize,
    /// The value that the caller passed.
    pub value: T,
    /// The JavaScript function.
    pub callback: usize,
}

/// A call that is still in the queue.
#[derive(Clone, Copy, Debug, PartialEq, Eq, Structural)]
pub struct QueuedCall {
    pub env: usize,
    pub callback: usize,
}

/// A call that was taken out of the queue, with what its caller passed.
#[derive(Debug)]
pub struct TakenCall<T> {
    pub env: usize,
    pub callback: usize,
    pub value: Result<T, Error>,
}

/// A call with a value to run the callback with, whose JavaScript function is looked at.
#[derive(Debug)]
pub struct CheckedCall<T> {
    pub env: usize,
    pub callback: usize,
    pub value: T,
}

/// A call whose callback is run.
#[derive(Clone, Copy, Debug, PartialEq, Eq, Structural)]
pub struct RunningCall {
    pub env: usize,
}

/// What a call that was taken out of the queue does next.
#[derive(Debug)]
pub enum FetchStep<T> {
    /// Make the call, which asks for the type of the JavaScript function, then go on with
    /// [`CheckedCall::typed`].
    Check(NapiCall, CheckedCall<T>),
    /// The callback is not run; end with the report.
    Ended(ReportStep),
}

/// What a call does once the type of its JavaScript function is known.
#[derive(Debug)]
pub enum RunStep<T> {
    /// Run the callback with the context, then go on with [`RunningCall::returned`].
    Run(ThreadSafeCallContext<T>, RunningCall),
    /// What was to be called is no function, or could not be looked at. The callback is not
    /// run, and the process must not go on.
    Fail(CallStatus),
}

/// Takes up a call. While the environment shuts down, it or the JavaScript function can be
/// null; then nothing is to be done, and what was queued is not to be touched.
pub fn call_js_cb(raw_env: usize, js_callback: usize) -> (call: Option<QueuedCall>)
    ensures
        call == (if raw_env == 0 || js_callback == 0 {
            None
        } else {
            Some(QueuedCall { env: raw_env, callback: js_callback })
        }),
{
    if raw_env == 0 || js_callback == 0 {
        return None;
    }
    Some(QueuedCall { env: raw_env, callback: js_callback })
}

impl QueuedCall {
    /// The call with what `data` says its caller passed.
    pub open spec fn taken<T>(self, data: CallData<T>) -> TakenCall<T> {
        TakenCall { env: self.env, callback: self.callback, value: data.passed() }
    }

    /// Goes on with what was queued: the receiver is to be fetched next.
    pub fn take<T>(self, data: CallData<T>) -> (next: (NapiCall, TakenCall<T>))
        ensures
            next.0@ == (NapiCallView::GetUndefined { env: self.env }),
            next.0 == (NapiCall::GetUndefined { env: self.env }),
            next.1 == self.taken(data),
            next.1.env == self.env && next.1.callback == self.callback,
            match data {
                CallData::Handled(result) => next.1.value == result,
                CallData::Plain(value) => next.1.value == Ok::<T, Error>(value),
            },
    {
        let value = match data {
            CallData::Handled(result) => result,
            CallData::Plain(value) => Ok(value),
        };
        (
            NapiCall::GetUndefined { env: self.env },
            TakenCall { env: self.env, callback: self.callback, value },
        )
    }
}

impl<T> TakenCall<T> {
    /// What follows: with a value that was passed, the JavaScript function is looked at. With
    /// an error in its place it is not, and the call is over; nothing is reported.
    pub open spec fn fetch_step(self) -> FetchStep<T> {
        match self.value {
            Ok(value) => FetchStep::Check(
                NapiCall::TypeOf { env: self.env, value: self.callback },
                CheckedCall { env: self.env, callback: self.callback, value },
            ),
            Err(_) => FetchStep::Ended(ReportStep::Done),
        }
    }

    /// Goes on once the receiver was fetched. Whether that succeeded is of no matter.
    pub fn fetched(self, reply: Reply) -> (step: FetchStep<T>)
        ensures
            step == self.fetch_step(),
    {
        match self.value {
            Ok(value) => FetchStep::Check(
                NapiCall::TypeOf { env: self.env, value: self.callback },
                CheckedCall { env: self.env, callback: self.callback, value },
            ),
            Err(error) => {
                let running = RunningCall { env: self.env };
                FetchStep::Ended(running.returned(Err(error)))
            },
        }
    }
}

/// Whether `reply`, given back when the type of a value was asked for, says that the value is
/// a function.
pub open spec fn is_function(reply: Reply) -> bool {
    reply.status == NAPI_OK && reply.value == NAPI_FUNCTION
}

impl<T> CheckedCall<T> {
    /// What follows: the callback is run if and only if it is given a function. Otherwise the
    /// call fails, with the status of the code if the type could not be told, and as an
    /// invalid argument if it is another one.
    pub open spec fn run_step(self, reply: Reply) -> RunStep<T> {
        if is_function(reply) {
            RunStep::Run(
                ThreadSafeCallContext { env: self.env, value: self.value, callback: self.callback },
                RunningCall { env: self.env },
            )
        } else if reply.status != NAPI_OK {
            RunStep::Fail(status_of(reply.status))
        } else {
            RunStep::Fail(CallStatus::InvalidArg)
        }
    }

    /// Goes on once Node-API was asked for the type of the JavaScript function.
    pub fn typed(self, reply: Reply) -> (step: RunStep<T>)
        ensures
            step == self.run_step(reply),
            step is Run <==> reply.status == NAPI_OK && reply.value == NAPI_FUNCTION,
    {
        if reply.status != NAPI_OK {
            return RunStep::Fail(CallStatus::from(reply.status));
        }
        if reply.value != NAPI_FUNCTION {
            return RunStep::Fail(CallStatus::InvalidArg);
        }
        RunStep::Run(
            ThreadSafeCallContext { env: self.env, value: self.value, callback: self.callback },
            RunningCall { env: self.env },
        )
    }
}

impl RunningCall {
    /// Ends the call with what came of the callback, or with the error that kept it from being
    /// run. Neither is reported: the call counts as a success.
    pub fn returned(self, result: Result<(), Error>) -> (step: ReportStep)
        ensures
            step@ == report_start(self.env, NAPI_OK),
            step == ReportStep::Done,
    {
        report_status(self.env, NAPI_OK)
    }
}

/// A callback is run if and only if Node-API grants the look at what it is to call and says
/// that this is a function, and then with just what the call holds. A look that is refused
/// fails with its own status, and anything that is no function as an invalid argument.
pub proof fn law_only_functions_are_run<T>(call: CheckedCall<T>, reply: Reply)
    ensures
        call.run_step(reply) is Run <==> reply.status == NAPI_OK && reply.value == NAPI_FUNCTION,
        call.run_step(reply) matches RunStep::Run(context, running) ==> {
            &&& context.env == call.env
            &&& context.value == call.value
            &&& context.callback == call.callback
            &&& running.env == call.env
        },
        reply.status != NAPI_OK ==> call.run_step(reply) == RunStep::<T>::Fail(
            status_of(reply.status),
        ),
        reply.status == NAPI_OK && reply.value != NAPI_FUNCTION ==> call.run_step(reply)
            == RunStep::<T>::Fail(CallStatus::InvalidArg),
{
}

/// A call that was taken out of the queue asks about the very thing it is to call if and only
/// if it was passed a value, and keeps that value; otherwise it is over.
pub proof fn law_values_are_checked<T>(call: TakenCall<T>)
    ensures
        call.value matches Ok(v) ==> (call.fetch_step() matches FetchStep::Check(asked, checked)
            && {
            &&& asked == (NapiCall::TypeOf { env: call.env, value: call.callback })
            &&& checked.env == call.env
            &&& checked.callback == call.callback
            &&& checked.value == v
        }),
        call.value is Err ==> call.fetch_step() == FetchStep::<T>::Ended(ReportStep::Done),
{
}

} // verus!
