use std::marker::PhantomData;
use std::sync::{Arc, Mutex};

use napi::sys;
use worker_pool::lifecycle::Family;
use worker_pool::node::{NapiCall, Reply};
use worker_pool::status::{CallStatus, Error};
use worker_pool::threadsafe_function::{
    acquired, released, CallData, CallStep, CalleeHandled, CreateStep, Creation, Fatal, Strategy,
    ThreadsafeFunction, ThreadsafeFunctionCallMode, NAPI_ABORT, NAPI_BLOCKING, NAPI_NONBLOCKING,
    NAPI_RELEASE,
};

fn open<T, ES: Strategy>() -> ThreadsafeFunction<T, ES> {
    ThreadsafeFunction { raw_tsfn: 0x7000, aborted: false, ref_count: 1, phantom: PhantomData }
}

fn ask<T, ES: Strategy>(step: CreateStep<T, ES>) -> (NapiCall, Creation) {
    match step {
        CreateStep::Ask(call, creation) => (call, creation),
        CreateStep::Done(_) => panic!("creation ended"),
    }
}

fn failed<T, ES: Strategy>(step: CreateStep<T, ES>) -> Error {
    match step {
        CreateStep::Done(Err(error)) => error,
        _ => panic!("creation did not fail"),
    }
}

fn granted(value: usize) -> Reply {
    Reply { status: 0, value }
}

#[test]
fn modes_have_the_codes_of_node() {
    assert_eq!(i32::from(ThreadsafeFunctionCallMode::NonBlocking), 0);
    assert_eq!(i32::from(ThreadsafeFunctionCallMode::Blocking), 1);
    assert_eq!(NAPI_NONBLOCKING, sys::ThreadsafeFunctionCallMode::nonblocking);
    assert_eq!(NAPI_BLOCKING, sys::ThreadsafeFunctionCallMode::blocking);
    assert_eq!(NAPI_RELEASE, sys::ThreadsafeFunctionReleaseMode::release);
    assert_eq!(NAPI_ABORT, sys::ThreadsafeFunctionReleaseMode::abort);
}

#[test]
fn creation_takes_three_calls() {
    let (call, creation) = ask(ThreadsafeFunction::<u32, CalleeHandled>::create(1, 2, 5));
    match call {
        NapiCall::CreateString { env, text } => {
            assert_eq!(env, 1);
            assert_eq!(text, "napi_rs_threadsafe_function");
            assert_eq!(text.len(), 27);
            assert!(!text.contains('\0'));
        }
        other => panic!("{:?}", other),
    }
    let (call, creation) = ask(creation.resume::<u32, CalleeHandled>(granted(30)));
    match call {
        NapiCall::CreateThreadsafeFunction {
            env,
            func,
            async_resource_name,
            max_queue_size,
            initial_thread_count,
        } => {
            assert_eq!((env, func, async_resource_name), (1, 2, 30));
            assert_eq!((max_queue_size, initial_thread_count), (5, 1));
        }
        other => panic!("{:?}", other),
    }
    let (call, creation) = ask(creation.resume::<u32, CalleeHandled>(granted(40)));
    assert!(matches!(call, NapiCall::AddEnvCleanupHook { env: 1 }));
    match creation.resume::<u32, CalleeHandled>(granted(0)) {
        CreateStep::Done(Ok(function)) => {
            assert_eq!(function.raw(), 40);
            assert!(!function.aborted());
            assert_eq!(function.ref_count, 1);
        }
        _ => panic!("creation did not succeed"),
    }
}

#[test]
fn creation_stops_at_the_first_failure() {
    let refused = Reply { status: 9, value: 77 };
    let (_, naming) = ask(ThreadsafeFunction::<u32, Fatal>::create(1, 2, 0));
    let error = failed(naming.resume::<u32, Fatal>(refused));
    assert_eq!(error.status, CallStatus::GenericFailure);
    assert_eq!(error.reason, "");
    let (_, making) = ask(naming.resume::<u32, Fatal>(granted(3)));
    assert_eq!(
        failed(making.resume::<u32, Fatal>(Reply { status: 1, value: 0 })).status,
        CallStatus::InvalidArg
    );
    let (_, hooking) = ask(making.resume::<u32, Fatal>(granted(4)));
    assert_eq!(
        failed(hooking.resume::<u32, Fatal>(Reply { status: 4711, value: 0 })).status,
        CallStatus::Unknown
    );
}

#[test]
fn open_function_queues_what_it_is_passed() {
    let function = open::<u32, CalleeHandled>();
    match function.call(Ok(12), ThreadsafeFunctionCallMode::Blocking) {
        CallStep::Enqueue { func, data: CallData::Handled(Ok(12)), mode } => {
            assert_eq!((func, mode), (0x7000, 1));
        }
        other => panic!("{:?}", other),
    }
    let error = Error { status: CallStatus::Cancelled, reason: "no".to_string() };
    match function.call(Err(error), ThreadsafeFunctionCallMode::NonBlocking) {
        CallStep::Enqueue { func, data: CallData::Handled(Err(error)), mode } => {
            assert_eq!((func, mode), (0x7000, 0));
            assert_eq!(error.status, CallStatus::Cancelled);
            assert_eq!(error.reason, "no");
        }
        other => panic!("{:?}", other),
    }
}

#[test]
fn open_fatal_function_queues_plain_values() {
    match open::<u32, Fatal>().call(12, ThreadsafeFunctionCallMode::NonBlocking) {
        CallStep::Enqueue { func, data: CallData::Plain(12), mode } => {
            assert_eq!((func, mode), (0x7000, 0));
        }
        other => panic!("{:?}", other),
    }
}

#[test]
fn aborted_function_is_left_alone() {
    let mut handled = open::<u32, CalleeHandled>();
    let mut fatal = open::<u32, Fatal>();
    handled.cleanup_cb();
    assert!(fatal.abort(0).is_ok());
    assert!(handled.aborted() && fatal.aborted());
    assert!(handled.acquire().is_none() && handled.release().is_none());
    assert!(fatal.acquire().is_none() && fatal.release().is_none());
    let mode = ThreadsafeFunctionCallMode::Blocking;
    assert!(matches!(handled.call(Ok(1), mode), CallStep::Return(CallStatus::Closing)));
    assert!(matches!(fatal.call(1, mode), CallStep::Return(CallStatus::Closing)));
    assert!(fatal.abort(9).is_err());
    assert!(fatal.aborted());
}

#[test]
fn abort_asks_for_the_abort_mode() {
    let function = open::<u32, CalleeHandled>();
    assert!(matches!(
        function.abort_call(),
        NapiCall::ReleaseThreadsafeFunction { func: 0x7000, mode: 1 }
    ));
}

#[test]
fn failed_abort_changes_nothing() {
    let mut function = open::<u32, CalleeHandled>();
    let error = function.abort(1).unwrap_err();
    assert_eq!(error.status, CallStatus::InvalidArg);
    assert!(!function.aborted());
    assert!(matches!(
        function.release(),
        Some(NapiCall::ReleaseThreadsafeFunction { func: 0x7000, mode: 0 })
    ));
}

#[test]
fn open_function_announces_its_handles() {
    assert!(matches!(
        open::<u32, CalleeHandled>().acquire(),
        Some(NapiCall::AcquireThreadsafeFunction { func: 0x7000 })
    ));
}

/// A handle, as the surroundings keep one: all of them share the family.
struct Handle(Arc<Mutex<Family<u32, CalleeHandled>>>);

impl Handle {
    fn created(raw_tsfn: usize) -> Handle {
        let hooking = Creation::Hooking { raw_tsfn };
        match hooking.resume::<u32, CalleeHandled>(granted(0)) {
            CreateStep::Done(Ok(function)) => Handle(Arc::new(Mutex::new(Family::open(function)))),
            _ => panic!("creation did not succeed"),
        }
    }

    fn duplicate(&self) -> Handle {
        let mut family = self.0.lock().unwrap();
        let status = family.function.acquire().map(|_| 0);
        family.handle_cloned(status);
        Handle(Arc::clone(&self.0))
    }

    /// Lets the handle go, and says whether it was given back.
    fn discard(self) -> bool {
        let mut family = self.0.lock().unwrap();
        let status = family.function.release().map(|_| 0);
        family.handle_dropped(status);
        status.is_some()
    }

    fn abort(&self, status: i32) -> Result<(), Error> {
        self.0.lock().unwrap().abort(status)
    }

    fn aborted(&self) -> bool {
        self.0.lock().unwrap().function.aborted()
    }

    fn is_closed(&self) -> bool {
        let mode = ThreadsafeFunctionCallMode::Blocking;
        match self.0.lock().unwrap().function.call(Ok(1), mode) {
            CallStep::Return(status) => status == CallStatus::Closing,
            CallStep::Enqueue { .. } => false,
        }
    }

    fn handles(&self) -> usize {
        self.0.lock().unwrap().handles
    }
}

#[test]
fn abort_through_one_handle_is_seen_through_the_others() {
    let first = Handle::created(0x7000);
    let second = first.duplicate();
    assert!(first.abort(0).is_ok());
    let third = second.duplicate();
    for handle in [&first, &second, &third] {
        assert!(handle.aborted());
        assert!(handle.is_closed());
    }
    assert!(!first.discard() && !second.discard() && !third.discard());
}

#[test]
fn abort_through_a_clone_is_seen_through_the_first_handle() {
    let first = Handle::created(0x7000);
    let second = first.duplicate();
    assert!(second.abort(0).is_ok());
    assert!(first.aborted() && first.is_closed());
    assert!(!second.discard());
    assert!(!first.discard());
}

#[test]
fn refused_abort_leaves_every_handle_open() {
    let first = Handle::created(0x7000);
    let second = first.duplicate();
    assert_eq!(first.abort(9).unwrap_err().status, CallStatus::GenericFailure);
    assert!(!first.aborted() && !second.aborted());
    assert!(first.discard());
    assert!(!second.is_closed());
    assert!(second.discard());
}

#[test]
fn cleanup_closes_every_handle() {
    let first = Handle::created(0x7000);
    let second = first.duplicate();
    first.0.lock().unwrap().cleanup_cb();
    assert!(first.aborted() && second.aborted());
    assert!(first.is_closed() && second.is_closed());
    assert!(!first.discard() && !second.discard());
}

#[test]
fn cleanup_may_come_after_the_last_handle() {
    let first = Handle::created(0x7000);
    let family = Arc::clone(&first.0);
    assert!(first.discard());
    family.lock().unwrap().cleanup_cb();
    assert!(family.lock().unwrap().function.aborted());
    assert_eq!(family.lock().unwrap().handles, 0);
}

#[test]
fn functions_are_aborted_apart_from_each_other() {
    let one = Handle::created(0x7000);
    let other = Handle::created(0x8000);
    let clone = one.duplicate();
    assert!(one.abort(0).is_ok());
    assert!(clone.aborted());
    assert!(!other.aborted() && !other.is_closed());
}

#[test]
fn unused_function_is_not_released() {
    let mut function = open::<u32, CalleeHandled>();
    function.ref_count = 0;
    assert!(function.release().is_none());
}

#[test]
fn handles_pair_up() {
    let first = Handle::created(0x7000);
    let mut handles: Vec<Handle> = (0..5).map(|_| first.duplicate()).collect();
    assert_eq!(first.handles(), 6);
    handles.push(first);
    let given_back = handles.into_iter().map(Handle::discard);
    assert_eq!(given_back.filter(|&released| released).count(), 6);
}

#[test]
fn refused_handles_count_all_the_same() {
    let first = Handle::created(0x7000);
    first.0.lock().unwrap().handle_cloned(Some(16));
    assert_eq!(first.handles(), 2);
    first.0.lock().unwrap().handle_dropped(Some(1));
    assert_eq!(first.handles(), 1);
    assert!(!first.aborted());
}

#[test]
fn refused_handles_are_faults() {
    assert!(acquired(0).is_ok());
    assert!(released(0).is_ok());
    assert_eq!(acquired(16).unwrap_err(), "Acquire threadsafe function failed in clone");
    assert_eq!(released(1).unwrap_err(), "Threadsafe Function release failed");
}
