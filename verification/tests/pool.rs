use std::sync::mpsc;

use worker_pool::node::NapiCall;
use worker_pool::pool::{register_worker, Message, Pool, Worker};
use worker_pool::status::{CallStatus, Error};
use worker_pool::threadsafe_function::{CreateStep, Creation, ThreadsafeFunctionCallMode};

fn pool_of(loads: &[usize]) -> Pool<usize> {
    Pool {
        workers: loads
            .iter()
            .enumerate()
            .map(|(callback, &queue_size)| Worker { callback, queue_size })
            .collect(),
    }
}

fn loads(pool: &Pool<usize>) -> Vec<usize> {
    pool.workers.iter().map(|worker| worker.queue_size).collect()
}

#[test]
fn workers_have_unbounded_queues() {
    match register_worker::<u8>(3, 4) {
        CreateStep::Ask(NapiCall::CreateString { env: 3, text }, creation) => {
            assert_eq!(text, "napi_rs_threadsafe_function");
            assert_eq!(creation, Creation::Naming { env: 3, func: 4, max_queue_size: 0 });
        }
        _ => panic!("the name comes first"),
    }
}

#[test]
fn workers_are_enrolled_in_order() {
    let mut pool = Pool::new();
    assert!(pool.is_empty());
    assert!(pool.enroll(Ok("a")).is_ok());
    assert!(pool.enroll(Ok("b")).is_ok());
    assert!(!pool.is_empty());
    let error = Error { status: CallStatus::Closing, reason: "late".to_string() };
    let error = pool.enroll(Err(error)).unwrap_err();
    assert_eq!(error.status, CallStatus::Closing);
    assert_eq!(error.reason, "late");
    let names: Vec<&str> = pool.workers.iter().map(|worker| worker.callback).collect();
    assert_eq!(names, ["a", "b"]);
    assert!(pool.workers.iter().all(|worker| worker.queue_size == 0));
}

#[test]
fn least_loaded_worker_is_the_first_of_the_least() {
    assert_eq!(pool_of(&[5]).least_loaded(), 0);
    assert_eq!(pool_of(&[3, 1, 2, 1]).least_loaded(), 1);
    assert_eq!(pool_of(&[2, 2, 2]).least_loaded(), 0);
    assert_eq!(pool_of(&[9, 8, 7]).least_loaded(), 2);
}

#[test]
fn dispatch_counts_the_call() {
    let mut pool = pool_of(&[3, 1, 2, 1]);
    let sent = pool.dispatch(42, 'x');
    assert_eq!(sent.worker, 1);
    assert_eq!((sent.message.value, sent.message.tx), (42, 'x'));
    assert_eq!(sent.mode, ThreadsafeFunctionCallMode::Blocking);
    assert_eq!(loads(&pool), [3, 2, 2, 1]);
    assert_eq!(pool.dispatch(43, 'y').worker, 3);
    assert_eq!(loads(&pool), [3, 2, 2, 2]);
    assert!(pool.workers.iter().enumerate().all(|(i, worker)| worker.callback == i));
}

#[test]
fn answers_undo_calls() {
    let mut pool = pool_of(&[3, 1]);
    let sent = pool.dispatch(42, ());
    assert_eq!(pool.settle(sent.worker, Some(7)), Some(7));
    assert_eq!(loads(&pool), [3, 1]);
}

#[test]
fn missing_answers_still_count() {
    let mut pool = pool_of(&[0, 4]);
    let sent = pool.dispatch(42, ());
    assert_eq!(pool.settle(sent.worker, None), None);
    assert_eq!(loads(&pool), [1, 4]);
}

#[test]
fn counters_wrap() {
    let mut pool = pool_of(&[usize::MAX]);
    pool.dispatch(1, ());
    assert_eq!(loads(&pool), [0]);
    assert_eq!(pool.settle(0, Some(1)), Some(1));
    assert_eq!(loads(&pool), [usize::MAX]);
}

#[test]
fn calls_go_round() {
    let mut pool = pool_of(&[0, 0, 0]);
    for call in 0..20 {
        assert_eq!(pool.dispatch(0, ()).worker, call % 3);
        let loads = loads(&pool);
        let most = *loads.iter().max().unwrap();
        let least = *loads.iter().min().unwrap();
        assert!(most - least <= 1);
    }
    assert_eq!(loads(&pool), [7, 7, 6]);
}

#[test]
fn new_worker_is_next() {
    let mut pool = pool_of(&[2, 1]);
    assert!(pool.enroll(Ok(2)).is_ok());
    assert_eq!(pool.dispatch(0, ()).worker, 2);
    assert_eq!(loads(&pool), [2, 1, 1]);
}

#[test]
fn pool_is_quiet_again_once_all_is_answered() {
    let mut pool = pool_of(&[1, 0, 5, 2]);
    let sent: Vec<usize> = (0..30).map(|value| pool.dispatch(value, ()).worker).collect();
    assert_eq!(loads(&pool).iter().sum::<usize>(), 38);
    for worker in sent.into_iter().rev() {
        pool.settle(worker, Some(0));
    }
    assert_eq!(loads(&pool), [1, 0, 5, 2]);
}

#[test]
fn answers_go_back_the_way_that_was_sent_along() {
    let (tx, rx) = mpsc::channel();
    let message = Message { value: 21, tx };
    let argument = message.argument();
    assert_eq!(argument, 21);
    let (tx, number) = message.answer(Ok(argument * 2)).unwrap();
    tx.send(number).unwrap();
    assert_eq!(rx.recv(), Ok(42));
}

#[test]
fn errors_close_the_way_back() {
    let (tx, rx) = mpsc::channel::<u32>();
    let message = Message { value: 21, tx };
    let error = Error { status: CallStatus::NumberExpected, reason: "not a number".to_string() };
    let error = message.answer(Err(error)).unwrap_err();
    assert_eq!(error.status, CallStatus::NumberExpected);
    assert_eq!(error.reason, "not a number");
    assert!(rx.recv().is_err());
}
