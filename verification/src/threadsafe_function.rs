//! Thread-safe functions: handles by which any thread can have a JavaScript function called
//! on the thread that owns it.
//!
//! A [`ThreadsafeFunction`] is the function as every handle to it sees it: there is one value
//! for all of them, so that what one handle does to it the others see. It cannot be cloned;
//! handles are, and [`crate::lifecycle::Family`] keeps count of them.

use std::marker::PhantomData;
use vstd::prelude::*;
use vstd::std_specs::convert::FromSpecImpl;

use crate::node::{NapiCall, NapiCallView, Reply};
use crate::status::{check_status, error_of, status_of, CallStatus, Error, NAPI_OK};

verus! {

/// The code by which Node-API is asked not to wait when the queue is full.
pub const NAPI_NONBLOCKING: i32 = 0;

/// The code by which Node-API is asked to wait when the queue is full.
pub const NAPI_BLOCKING: i32 = 1;

/// The code by which a handle gives a thread-safe function back.
pub const NAPI_RELEASE: i32 = 0;

/// The code by which a thread-safe function is closed for every handle.
pub const NAPI_ABORT: i32 = 1;

/// The number of threads that a thread-safe function starts out with: the one that makes it.
pub const INITIAL_THREAD_COUNT: usize = 1;

/// What a call does when the queue of the thread-safe function is full.
#[derive(Clone, Copy, Debug, PartialEq, Eq, Structural)]
pub enum ThreadsafeFunctionCallMode {
    /// It fails at once.
    NonBlocking,
    /// It waits for room.
    Blocking,
}

impl ThreadsafeFunctionCallMode {
    /// The code by which Node-API knows the mode.
    pub open spec fn code(self) -> i32 {
        match self {
            ThreadsafeFunctionCallMode::NonBlocking => NAPI_NONBLOCKING,
            ThreadsafeFunctionCallMode::Blocking => NAPI_BLOCKING,
        }
    }
}

impl From<ThreadsafeFunctionCallMode> for i32 {
    fn from(value: ThreadsafeFunctionCallMode) -> (code: i32) {
        match value {
            ThreadsafeFunctionCallMode::Blocking => NAPI_BLOCKING,
            ThreadsafeFunctionCallMode::NonBlocking => NAPI_NONBLOCKING,
        }
    }
}

impl FromSpecImpl<ThreadsafeFunctionCallMode> for i32 {
    open spec fn obeys_from_spec() -> bool {
        true
    }

    open spec fn from_spec(value: ThreadsafeFunctionCallMode) -> i32 {
        value.code()
    }
}

/// Who deals with an error that a caller passes in place of a value.
#[derive(Clone, Copy, Debug, PartialEq, Eq, Structural)]
pub enum ErrorStrategy {
    /// The callback's side: callers pass a result.
    CalleeHandled,
    /// Nobody: callers pass plain values.
    Fatal,
}

/// An [`ErrorStrategy`] as a type.
pub trait Strategy {
    /// The strategy that the type stands for.
    spec fn strategy() -> ErrorStrategy;
}

/// The type that stands for [`ErrorStrategy::CalleeHandled`].
#[derive(Clone, Copy, Debug, PartialEq, Eq, Structural)]
pub struct CalleeHandled;

/// The type that stands for [`ErrorStrategy::Fatal`].
#[derive(Clone, Copy, Debug, PartialEq, Eq, Structural)]
pub struct Fatal;

impl Strategy for CalleeHandled {
    open spec fn strategy() -> ErrorStrategy {
        ErrorStrategy::CalleeHandled
    }
}

impl Strategy for Fatal {
    open spec fn strategy() -> ErrorStrategy {
        ErrorStrategy::Fatal
    }
}

/// What a call leaves in the queue of a thread-safe function.
#[derive(Debug)]
pub enum CallData<T> {
    /// Left by a caller under [`CalleeHandled`].
    Handled(Result<T, Error>),
    /// Left by a caller under [`Fatal`].
    Plain(T),
}

impl<T> CallData<T> {
    /// The strategy under which the data was left.
    pub open spec fn strategy(self) -> ErrorStrategy {
        match self {
            CallData::Handled(_) => ErrorStrategy::CalleeHandled,
            CallData::Plain(_) => ErrorStrategy::Fatal,
        }
    }

    /// What the caller passed, a plain value being a success.
    pub open spec fn passed(self) -> Result<T, Error> {
        match self {
            CallData::Handled(result) => result,
            CallData::Plain(value) => Ok(value),
        }
    }
}

/// What a call does next.
#[derive(Debug)]
pub enum CallStep<T> {
    /// Return the status; nothing is queued, and what was passed is dropped.
    Return(CallStatus),
    /// Make `napi_call_threadsafe_function` with these arguments, and return the
    /// [`CallStatus`] of its code.
    Enqueue { func: usize, data: CallData<T>, mode: i32 },
}

/// A thread-safe function, shared by all handles to it.
pub struct ThreadsafeFunction<T, ES: Strategy = CalleeHandled> {
    pub raw_tsfn: usize,
    pub aborted: bool,
    pub ref_count: usize,
    pub phantom: PhantomData<(T, ES)>,
}

/// A thread-safe function that is being made, by the call into Node-API that it waits for.
#[derive(Clone, Copy, Debug, PartialEq, Eq, Structural)]
pub enum Creation {
    /// Its name is being made into a JavaScript string.
    Naming { env: usize, func: usize, max_queue_size: usize },
    /// It is being made.
    Making { env: usize },
    /// The hook that marks it as aborted is being added.
    Hooking { raw_tsfn: usize },
}

/// What the making of a thread-safe function does next.
pub enum CreateStep<T, ES: Strategy> {
    /// Make the call, then go on with [`Creation::resume`].
    Ask(NapiCall, Creation),
    /// It has come to an end.
    Done(Result<ThreadsafeFunction<T, ES>, Error>),
}

/// A [`CreateStep`] with its call and its error as views.
pub enum CreateStepView<T, ES: Strategy> {
    Ask(NapiCallView, Creation),
    Created(ThreadsafeFunction<T, ES>),
    Failed((CallStatus, Seq<char>)),
}

impl<T, ES: Strategy> View for CreateStep<T, ES> {
    type V = CreateStepView<T, ES>;

    open spec fn view(&self) -> CreateStepView<T, ES> {
        match *self {
            CreateStep::Ask(call, creation) => CreateStepView::Ask(call@, creation),
            CreateStep::Done(Ok(function)) => CreateStepView::Created(function),
            CreateStep::Done(Err(error)) => CreateStepView::Failed(error@),
        }
    }
}

/// The name that Node-API shows for the asynchronous resource of a thread-safe function.
pub open spec fn resource_name() -> Seq<char> {
    "napi_rs_threadsafe_function"@
}

impl Creation {
    /// What follows a call that succeeded.
    pub open spec fn follow<T, ES: Strategy>(self, value: usize) -> CreateStepView<T, ES> {
        match self {
            Creation::Naming { env, func, max_queue_size } => CreateStepView::Ask(
                NapiCallView::CreateThreadsafeFunction {
                    env,
                    func,
                    async_resource_name: value,
                    max_queue_size,
                    initial_thread_count: INITIAL_THREAD_COUNT,
                },
                Creation::Making { env },
            ),
            Creation::Making { env } => CreateStepView::Ask(
                NapiCallView::AddEnvCleanupHook { env },
                Creation::Hooking { raw_tsfn: value },
            ),
            Creation::Hooking { raw_tsfn } => CreateStepView::Created(
                ThreadsafeFunction::fresh(raw_tsfn),
            ),
        }
    }

    /// What follows any reply.
    pub open spec fn next<T, ES: Strategy>(self, reply: Reply) -> CreateStepView<T, ES> {
        if reply.status == NAPI_OK {
            self.follow(reply.value)
        } else {
            CreateStepView::Failed(error_of(reply.status))
        }
    }

    /// Goes on with making the thread-safe function once the call it waited for came back.
    pub fn resume<T, ES: Strategy>(self, reply: Reply) -> (step: CreateStep<T, ES>)
        ensures
            step@ == self.next::<T, ES>(reply),
            reply.status != NAPI_OK ==> (step matches CreateStep::Done(Err(e)) && e.status
                == status_of(reply.status) && e.reason@.len() == 0),
            reply.status == NAPI_OK ==> match self {
                Creation::Hooking { raw_tsfn } => {
                    step matches CreateStep::Done(Ok(function)) && {
                        &&& function.raw_tsfn == raw_tsfn
                        &&& !function.aborted
                        &&& function.ref_count == INITIAL_THREAD_COUNT
                    }
                },
                Creation::Making { env } => step == CreateStep::<T, ES>::Ask(
                    NapiCall::AddEnvCleanupHook { env },
                    Creation::Hooking { raw_tsfn: reply.value },
                ),
                Creation::Naming { env, func, max_queue_size } => step == CreateStep::<
                    T,
                    ES,
                >::Ask(
                    NapiCall::CreateThreadsafeFunction {
                        env,
                        func,
                        async_resource_name: reply.value,
                        max_queue_size,
                        initial_thread_count: INITIAL_THREAD_COUNT,
                    },
                    Creation::Making { env },
                ),
            },
    {
        match check_status(reply.status) {
            Err(error) => CreateStep::Done(Err(error)),
            Ok(()) => match self {
                Creation::Naming { env, func, max_queue_size } => CreateStep::Ask(
                    NapiCall::CreateThreadsafeFunction {
                        env,
                        func,
                        async_resource_name: reply.value,
                        max_queue_size,
                        initial_thread_count: INITIAL_THREAD_COUNT,
                    },
                    Creation::Making { env },
                ),
                Creation::Making { env } => CreateStep::Ask(
                    NapiCall::AddEnvCleanupHook { env },
                    Creation::Hooking { raw_tsfn: reply.value },
                ),
                Creation::Hooking { raw_tsfn } => CreateStep::Done(
                    Ok(
                        ThreadsafeFunction {
                            raw_tsfn,
                            aborted: false,
                            ref_count: INITIAL_THREAD_COUNT,
                            phantom: PhantomData,
                        },
                    ),
                ),
            },
        }
    }
}

impl<T, ES: Strategy> ThreadsafeFunction<T, ES> {
    /// What making a thread-safe function gives: a function that is not aborted, with the
    /// count of the thread that made it.
    pub open spec fn fresh(raw_tsfn: usize) -> Self {
        ThreadsafeFunction {
            raw_tsfn,
            aborted: false,
            ref_count: INITIAL_THREAD_COUNT,
            phantom: PhantomData,
        }
    }

    /// The function marked as aborted.
    pub open spec fn closed(self) -> Self {
        ThreadsafeFunction { aborted: true, ..self }
    }

    /// How the making of a thread-safe function starts.
    pub open spec fn create_start(env: usize, func: usize, max_queue_size: usize) -> CreateStepView<
        T,
        ES,
    > {
        CreateStepView::Ask(
            NapiCallView::CreateString { env, text: resource_name() },
            Creation::Naming { env, func, max_queue_size },
        )
    }

    /// Starts to make a thread-safe function that calls `func`. Its queue holds
    /// `max_queue_size` calls at the most, or any number of them if that is zero.
    pub fn create(env: usize, func: usize, max_queue_size: usize) -> (step: CreateStep<T, ES>)
        ensures
            step@ == Self::create_start(env, func, max_queue_size),
            step matches CreateStep::Ask(call, creation) && {
                &&& call@ == (NapiCallView::CreateString {
                    env,
                    text: "napi_rs_threadsafe_function"@,
                })
                &&& creation == (Creation::Naming { env, func, max_queue_size })
            },
    {
        CreateStep::Ask(
            NapiCall::CreateString { env, text: "napi_rs_threadsafe_function".to_owned() },
            Creation::Naming { env, func, max_queue_size },
        )
    }

    /// Whether the function was aborted, by a handle or because its environment shut down.
    pub fn aborted(&self) -> (aborted: bool)
        ensures
            aborted == self.aborted,
    {
        self.aborted
    }

    /// The address of the thread-safe function.
    pub fn raw(&self) -> (raw_tsfn: usize)
        ensures
            raw_tsfn == self.raw_tsfn,
    {
        self.raw_tsfn
    }

    /// The call by which the function is closed for every handle.
    pub fn abort_call(&self) -> (call: NapiCall)
        ensures
            call@ == (NapiCallView::ReleaseThreadsafeFunction {
                func: self.raw_tsfn,
                mode: NAPI_ABORT,
            }),
            call == (NapiCall::ReleaseThreadsafeFunction {
                func: self.raw_tsfn,
                mode: NAPI_ABORT,
            }),
    {
        NapiCall::ReleaseThreadsafeFunction { func: self.raw_tsfn, mode: NAPI_ABORT }
    }

    /// Aborts the function for every handle, `status` being the code that
    /// [`Self::abort_call`] gave. Where that call failed, the function stays as it was.
    pub fn abort(&mut self, status: i32) -> (result: Result<(), Error>)
        ensures
            result is Ok <==> status == NAPI_OK,
            result matches Err(e) ==> e@ == error_of(status) && e.status == status_of(status)
                && e.reason@.len() == 0,
            *final(self) == (if status == NAPI_OK { old(self).closed() } else { *old(self) }),
            final(self).aborted == (old(self).aborted || status == NAPI_OK),
            final(self).raw_tsfn == old(self).raw_tsfn,
            final(self).ref_count == old(self).ref_count,
    {
        match check_status(status) {
            Err(error) => Err(error),
            Ok(()) => {
                self.aborted = true;
                Ok(())
            },
        }
    }

    /// Marks the function as aborted for every handle, because its environment shuts down.
    pub fn cleanup_cb(&mut self)
        ensures
            *final(self) == old(self).closed(),
            final(self).aborted,
            final(self).raw_tsfn == old(self).raw_tsfn,
            final(self).ref_count == old(self).ref_count,
    {
        self.aborted = true;
    }

    /// Whether another handle is announced to Node-API: only while the function is open.
    pub open spec fn acquires(self) -> bool {
        !self.aborted
    }

    /// The call by which another handle is announced, if it is. Where Node-API refuses it,
    /// [`acquired`] tells so.
    pub fn acquire(&self) -> (call: Option<NapiCall>)
        ensures
            call is Some <==> self.acquires(),
            call matches Some(c) ==> c@ == (NapiCallView::AcquireThreadsafeFunction {
                func: self.raw_tsfn,
            }),
            call == (if self.aborted {
                None
            } else {
                Some(NapiCall::AcquireThreadsafeFunction { func: self.raw_tsfn })
            }),
    {
        if self.aborted {
            None
        } else {
            Some(NapiCall::AcquireThreadsafeFunction { func: self.raw_tsfn })
        }
    }

    /// Whether a handle that goes away is given back to Node-API: only while the function is
    /// open and in use.
    pub open spec fn releases(self) -> bool {
        !self.aborted && self.ref_count > 0
    }

    /// The call by which a handle that goes away is given back, if it is. Where Node-API
    /// refuses it, [`released`] tells so.
    pub fn release(&self) -> (call: Option<NapiCall>)
        ensures
            call is Some <==> self.releases(),
            call matches Some(c) ==> c@ == (NapiCallView::ReleaseThreadsafeFunction {
                func: self.raw_tsfn,
                mode: NAPI_RELEASE,
            }),
            call == (if self.aborted || self.ref_count == 0 {
                None
            } else {
                Some(
                    NapiCall::ReleaseThreadsafeFunction { func: self.raw_tsfn, mode: NAPI_RELEASE },
                )
            }),
    {
        if !self.aborted && self.ref_count > 0 {
            Some(NapiCall::ReleaseThreadsafeFunction { func: self.raw_tsfn, mode: NAPI_RELEASE })
        } else {
            None
        }
    }
}

/// The failure of a handle that Node-API did not take note of.
pub open spec fn acquire_failure() -> Seq<char> {
    "Acquire threadsafe function failed in clone"@
}

/// The failure of a handle that Node-API did not take back.
pub open spec fn release_failure() -> Seq<char> {
    "Threadsafe Function release failed"@
}

/// Checks the code that announcing a handle gave. What it fails with is a fault in the
/// program, which a debug build stops at.
pub fn acquired(status: i32) -> (result: Result<(), String>)
    ensures
        result is Ok <==> status == NAPI_OK,
        result matches Err(failure) ==> failure@ == acquire_failure() && failure@
            == "Acquire threadsafe function failed in clone"@,
{
    if status == NAPI_OK {
        Ok(())
    } else {
        Err("Acquire threadsafe function failed in clone".to_owned())
    }
}

/// Checks the code that giving a handle back gave. What it fails with is a fault in the
/// program, which every build stops at.
pub fn released(status: i32) -> (result: Result<(), String>)
    ensures
        result is Ok <==> status == NAPI_OK,
        result matches Err(failure) ==> failure@ == release_failure() && failure@
            == "Threadsafe Function release failed"@,
{
    if status == NAPI_OK {
        Ok(())
    } else {
        Err("Threadsafe Function release failed".to_owned())
    }
}

impl<T> ThreadsafeFunction<T, CalleeHandled> {
    /// What a call with `value` does.
    pub open spec fn call_step(
        self,
        value: Result<T, Error>,
        mode: ThreadsafeFunctionCallMode,
    ) -> CallStep<T> {
        if self.aborted {
            CallStep::Return(CallStatus::Closing)
        } else {
            CallStep::Enqueue {
                func: self.raw_tsfn,
                data: CallData::Handled(value),
                mode: mode.code(),
            }
        }
    }

    /// Has the function called with a value, or with the error that took its place.
    pub fn call(&self, value: Result<T, Error>, mode: ThreadsafeFunctionCallMode) -> (step: CallStep<
        T,
    >)
        ensures
            step == self.call_step(value, mode),
            self.aborted ==> step == CallStep::<T>::Return(CallStatus::Closing),
            !self.aborted ==> (step matches CallStep::Enqueue { func, data, mode: code } && {
                &&& func == self.raw_tsfn
                &&& data == CallData::Handled(value)
                &&& code == (if mode is Blocking {
                    NAPI_BLOCKING
                } else {
                    NAPI_NONBLOCKING
                })
            }),
    {
        if self.aborted {
            return CallStep::Return(CallStatus::Closing);
        }
        CallStep::Enqueue {
            func: self.raw_tsfn,
            data: CallData::Handled(value),
            mode: i32::from(mode),
        }
    }
}

impl<T> ThreadsafeFunction<T, Fatal> {
    /// What a call with `value` does.
    pub open spec fn call_step(self, value: T, mode: ThreadsafeFunctionCallMode) -> CallStep<T> {
        if self.aborted {
            CallStep::Return(CallStatus::Closing)
        } else {
            CallStep::Enqueue {
                func: self.raw_tsfn,
                data: CallData::Plain(value),
                mode: mode.code(),
            }
        }
    }

    /// Has the function called with a value.
    pub fn call(&self, value: T, mode: ThreadsafeFunctionCallMode) -> (step: CallStep<T>)
        ensures
            step == self.call_step(value, mode),
            self.aborted ==> step == CallStep::<T>::Return(CallStatus::Closing),
            !self.aborted ==> (step matches CallStep::Enqueue { func, data, mode: code } && {
                &&& func == self.raw_tsfn
                &&& data == CallData::Plain(value)
                &&& code == (if mode is Blocking {
                    NAPI_BLOCKING
                } else {
                    NAPI_NONBLOCKING
                })
            }),
    {
        if self.aborted {
            return CallStep::Return(CallStatus::Closing);
        }
        CallStep::Enqueue {
            func: self.raw_tsfn,
            data: CallData::Plain(value),
            mode: i32::from(mode),
        }
    }
}

} // verus!
