use napi::sys;
use worker_pool::call_js::{
    call_js_cb, CheckedCall, FetchStep, QueuedCall, RunStep, RunningCall, NAPI_FUNCTION,
};
use worker_pool::node::{NapiCall, Reply};
use worker_pool::report::{report_status, Report, ReportStep};
use worker_pool::status::{CallStatus, Error};
use worker_pool::threadsafe_function::CallData;

fn error() -> Error {
    Error { status: CallStatus::GenericFailure, reason: "broken".to_string() }
}

fn reply(status: i32, value: usize) -> Reply {
    Reply { status, value }
}

fn ask(step: ReportStep) -> (NapiCall, Report) {
    match step {
        ReportStep::Ask(call, report) => (call, report),
        other => panic!("{:?}", other),
    }
}

#[test]
fn nothing_is_done_while_shutting_down() {
    assert!(call_js_cb(0, 0).is_none());
    assert!(call_js_cb(0, 9).is_none());
    assert!(call_js_cb(8, 0).is_none());
    assert_eq!(call_js_cb(8, 9), Some(QueuedCall { env: 8, callback: 9 }));
}

fn check<T: std::fmt::Debug>(step: FetchStep<T>) -> (NapiCall, CheckedCall<T>) {
    match step {
        FetchStep::Check(call, checked) => (call, checked),
        other => panic!("{:?}", other),
    }
}

#[test]
fn passed_values_reach_the_callback() {
    for data in [CallData::Handled(Ok(5u32)), CallData::Plain(5u32)] {
        let (receiver, taken) = call_js_cb(8, 9).unwrap().take(data);
        assert!(matches!(receiver, NapiCall::GetUndefined { env: 8 }));
        let (call, checked) = check(taken.fetched(reply(0, 1)));
        assert!(matches!(call, NapiCall::TypeOf { env: 8, value: 9 }));
        match checked.typed(reply(0, 7)) {
            RunStep::Run(context, running) => {
                assert_eq!((context.env, context.value, context.callback), (8, 5, 9));
                assert_eq!(running, RunningCall { env: 8 });
                assert!(matches!(running.returned(Ok(())), ReportStep::Done));
                assert!(matches!(running.returned(Err(error())), ReportStep::Done));
            }
            other => panic!("{:?}", other),
        }
    }
}

#[test]
fn passed_errors_keep_the_callback_from_being_run() {
    let queued = QueuedCall { env: 8, callback: 9 };
    let (_, taken) = queued.take::<u32>(CallData::Handled(Err(error())));
    assert!(matches!(taken.fetched(reply(0, 1)), FetchStep::Ended(ReportStep::Done)));
}

#[test]
fn only_functions_are_called() {
    assert_eq!(NAPI_FUNCTION, sys::ValueType::napi_function as usize);
    for kind in [0, 1, 2, 3, 4, 5, 6, 8, 9, usize::MAX] {
        let (_, taken) = QueuedCall { env: 8, callback: 9 }.take(CallData::Plain(3u32));
        let (_, checked) = check(taken.fetched(reply(0, 1)));
        assert!(matches!(
            checked.typed(reply(0, kind)),
            RunStep::Fail(CallStatus::InvalidArg)
        ));
    }
}

#[test]
fn untold_type_fails_the_call() {
    let (_, taken) = QueuedCall { env: 8, callback: 9 }.take(CallData::Handled(Ok(3u32)));
    let (_, checked) = check(taken.fetched(reply(0, 1)));
    assert!(matches!(
        checked.typed(reply(10, 7)),
        RunStep::Fail(CallStatus::PendingException)
    ));
}

#[test]
fn receiver_may_fail() {
    let queued = QueuedCall { env: 8, callback: 9 };
    let (_, taken) = queued.take(CallData::Plain(3u32));
    assert!(matches!(taken.fetched(reply(9, 0)), FetchStep::Check(_, _)));
}

#[test]
fn success_is_not_reported() {
    assert!(matches!(report_status(8, 0), ReportStep::Done));
}

#[test]
fn pending_exception_is_raised() {
    let (call, taking) = ask(report_status(8, 10));
    assert!(matches!(call, NapiCall::GetAndClearLastException { env: 8 }));
    let (call, raising) = ask(taking.resume(reply(0, 55)));
    assert!(matches!(call, NapiCall::FatalException { env: 8, error: 55 }));
    assert!(matches!(raising.resume(reply(0, 0)), ReportStep::Done));
    assert!(matches!(raising.resume(reply(10, 0)), ReportStep::Done));
    assert!(matches!(raising.resume(reply(1, 0)), ReportStep::Fail(1)));
    assert!(matches!(taking.resume(reply(10, 55)), ReportStep::Fail(10)));
}

#[test]
fn failure_is_raised_as_an_error() {
    let (call, naming) = ask(report_status(8, 16));
    match call {
        NapiCall::CreateString { env: 8, text } => assert_eq!(text, "Closing"),
        other => panic!("{:?}", other),
    }
    let (call, writing) = ask(naming.resume(reply(0, 61)));
    match call {
        NapiCall::CreateString { env: 8, text } => {
            assert_eq!(text, "Call JavaScript callback failed in thread safe function")
        }
        other => panic!("{:?}", other),
    }
    let (call, building) = ask(writing.resume(reply(0, 62)));
    assert!(matches!(call, NapiCall::CreateError { env: 8, code: 61, msg: 62 }));
    let (call, raising) = ask(building.resume(reply(0, 63)));
    assert!(matches!(call, NapiCall::FatalException { env: 8, error: 63 }));
    assert!(matches!(raising.resume(reply(0, 0)), ReportStep::Done));
    for stage in [naming, writing, building, raising] {
        assert!(matches!(stage.resume(reply(10, 1)), ReportStep::Fail(10)));
        assert!(matches!(stage.resume(reply(-3, 1)), ReportStep::Fail(-3)));
    }
}

#[test]
fn unknown_failure_is_named_so() {
    match ask(report_status(8, 999)).0 {
        NapiCall::CreateString { env: 8, text } => assert_eq!(text, "Unknown"),
        other => panic!("{:?}", other),
    }
}

#[test]
fn reports_end_after_four_calls() {
    for status in [-1, 0, 1, 9, 10, 16, 23] {
        let mut calls = 0;
        let mut step = report_status(8, status);
        while let ReportStep::Ask(_, report) = step {
            calls += 1;
            step = report.resume(reply(0, calls));
        }
        assert!(calls <= 4);
        assert!(matches!(step, ReportStep::Done));
    }
}
