use std::sync::atomic::{AtomicU32, Ordering};
use std::sync::mpsc;
use std::sync::Mutex;

use worker_pool::batch::{do_stuff, narrow, Sum};
use worker_pool::pool::Pool;

#[test]
fn answers_are_added_up() {
    assert_eq!(do_stuff(5, |x| x * x), Sum::Exact(30));
    assert_eq!(do_stuff(1000, |x| 2 * x + 1), Sum::Exact(1_000_000));
    assert_eq!(do_stuff(7, |_| 3), Sum::Exact(21));
}

#[test]
fn no_calls_add_up_to_nothing() {
    assert_eq!(do_stuff(0, |x| x + 1), Sum::Exact(0));
}

#[test]
fn each_number_is_asked_once() {
    let asked: Vec<AtomicU32> = (0..500).map(|_| AtomicU32::new(0)).collect();
    do_stuff(500, |x| asked[x as usize].fetch_add(1, Ordering::Relaxed));
    assert!(asked.iter().all(|times| times.load(Ordering::Relaxed) == 1));
}

#[test]
fn large_sums_overflow() {
    assert_eq!(do_stuff(2, |x| u32::MAX - 1 + x), Sum::Overflowed(u32::MAX - 2));
    assert_eq!(do_stuff(3, |_| u32::MAX), Sum::Overflowed(u32::MAX - 2));
    assert_eq!(do_stuff(2, |x| u32::MAX - x * u32::MAX), Sum::Exact(u32::MAX));
}

#[test]
fn sums_are_brought_to_a_word() {
    assert_eq!(narrow(0), Sum::Exact(0));
    assert_eq!(narrow(0xffff_ffff), Sum::Exact(0xffff_ffff));
    assert_eq!(narrow(0x1_0000_0000), Sum::Overflowed(0));
    assert_eq!(narrow(u64::MAX), Sum::Overflowed(0xffff_ffff));
}

#[test]
fn calls_through_a_pool_are_answered_and_leave_it_quiet() {
    let pool = Mutex::new(Pool::new());
    for worker in 0..3u32 {
        assert!(pool.lock().unwrap().enroll(Ok(worker)).is_ok());
    }
    let sum = do_stuff(100, |value| {
        let (tx, rx) = mpsc::channel();
        let sent = pool.lock().unwrap().dispatch(value, tx);
        let argument = sent.message.argument();
        let (tx, number) = sent.message.answer(Ok(argument + 1)).unwrap();
        tx.send(number).unwrap();
        let answer = rx.recv().ok();
        pool.lock().unwrap().settle(sent.worker, answer).unwrap()
    });
    assert_eq!(sum, Sum::Exact(5050));
    assert!(pool.lock().unwrap().workers.iter().all(|worker| worker.queue_size == 0));
}
