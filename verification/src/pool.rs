//! The registered workers, and which of them a call goes to.

use vstd::prelude::*;

use crate::status::Error;
use crate::threadsafe_function::{
    CalleeHandled, CreateStep, Creation, ThreadsafeFunction, ThreadsafeFunctionCallMode,
};

verus! {

/// The queue of a worker has no bound.
pub const WORKER_QUEUE_SIZE: usize = 0;

/// What a worker is sent: its argument, and the way back for its answer.
#[derive(Debug)]
pub struct Message<S> {
    pub value: u32,
    pub tx: S,
}

/// A worker, and how many calls it was sent that it has not answered.
#[derive(Debug)]
pub struct Worker<C> {
    pub callback: C,
    pub queue_size: usize,
}

/// A call that was given to a worker: which one, what to send it, and in which mode.
#[derive(Debug)]
pub struct Dispatch<S> {
    pub worker: usize,
    pub message: Message<S>,
    pub mode: ThreadsafeFunctionCallMode,
}

/// The workers, in the order in which they were registered.
#[derive(Debug)]
pub struct Pool<C> {
    pub workers: Vec<Worker<C>>,
}

/// Whether `worker` is the first among those with the fewest unanswered calls.
pub open spec fn is_first_least(loads: Seq<usize>, worker: int) -> bool {
    &&& 0 <= worker < loads.len()
    &&& forall|j: int| 0 <= j < loads.len() ==> loads[worker] <= #[trigger] loads[j]
    &&& forall|j: int| 0 <= j < worker ==> loads[worker] < #[trigger] loads[j]
}

/// The load of a worker that was sent one call more. A counter that is full starts again
/// at zero.
pub open spec fn one_more(load: usize) -> usize {
    if load == usize::MAX {
        0
    } else {
        (load + 1) as usize
    }
}

/// The load of a worker that answered one call; what [`one_more`] is undone by.
pub open spec fn one_less(load: usize) -> usize {
    if load == 0 {
        usize::MAX
    } else {
        (load - 1) as usize
    }
}

impl<C> View for Pool<C> {
    type V = Seq<Worker<C>>;

    open spec fn view(&self) -> Seq<Worker<C>> {
        self.workers@
    }
}

impl<C> Pool<C> {
    /// How many unanswered calls each worker has.
    pub open spec fn loads(self) -> Seq<usize> {
        self@.map_values(|w: Worker<C>| w.queue_size)
    }

    /// The callback of each worker.
    pub open spec fn callbacks(self) -> Seq<C> {
        self@.map_values(|w: Worker<C>| w.callback)
    }

    /// A pool without workers.
    pub fn new() -> (pool: Self)
        ensures
            pool@ == Seq::<Worker<C>>::empty(),
    {
        Pool { workers: Vec::new() }
    }

    /// Adds the worker whose callback was made, behind the others and with no calls. Where
    /// making it failed, the pool stays as it was and the error is handed on.
    pub fn enroll(&mut self, created: Result<C, Error>) -> (result: Result<(), Error>)
        ensures
            match created {
                Ok(callback) => {
                    &&& result is Ok
                    &&& final(self)@ == old(self)@.push(Worker { callback, queue_size: 0 })
                },
                Err(error) => {
                    &&& result == Err::<(), Error>(error)
                    &&& final(self)@ == old(self)@
                },
            },
    {
        match created {
            Ok(callback) => {
                self.workers.push(Worker { callback, queue_size: 0 });
                Ok(())
            },
            Err(error) => Err(error),
        }
    }

    /// Whether there is no worker that a call could go to.
    pub fn is_empty(&self) -> (empty: bool)
        ensures
            empty == (self@.len() == 0),
    {
        self.workers.len() == 0
    }

    /// The worker with the fewest unanswered calls; among several, the one registered first.
    pub fn least_loaded(&self) -> (worker: usize)
        requires
            self@.len() > 0,
        ensures
            is_first_least(self.loads(), worker as int),
            worker < self@.len(),
            forall|j: int|
                0 <= j < self@.len() ==> self@[worker as int].queue_size <= (
                #[trigger] self@[j]).queue_size,
            forall|j: int|
                0 <= j < worker ==> self@[worker as int].queue_size < (
                #[trigger] self@[j]).queue_size,
    {
        let mut least: usize = 0;
        let mut i: usize = 1;
        while i < self.workers.len()
            invariant
                least < i <= self@.len(),
                forall|j: int|
                    0 <= j < i ==> self@[least as int].queue_size <= (
                    #[trigger] self@[j]).queue_size,
                forall|j: int|
                    0 <= j < least ==> self@[least as int].queue_size < (
                    #[trigger] self@[j]).queue_size,
            decreases self@.len() - i,
        {
            if self.workers[i].queue_size < self.workers[least].queue_size {
                least = i;
            }
            i += 1;
        }
        least
    }

    /// Gives a call with `value` to the least loaded worker, which from now on has one
    /// unanswered call more. The answer is to come back through `tx`.
    pub fn dispatch<S>(&mut self, value: u32, tx: S) -> (sent: Dispatch<S>)
        requires
            old(self)@.len() > 0,
        ensures
            is_first_least(old(self).loads(), sent.worker as int),
            sent.message == (Message { value, tx }),
            sent.mode == ThreadsafeFunctionCallMode::Blocking,
            final(self).loads() == old(self).loads().update(
                sent.worker as int,
                one_more(old(self).loads()[sent.worker as int]),
            ),
            final(self).callbacks() == old(self).callbacks(),
            sent.worker < old(self)@.len(),
            forall|j: int|
                0 <= j < old(self)@.len() ==> old(self)@[sent.worker as int].queue_size <= (
                #[trigger] old(self)@[j]).queue_size,
            forall|j: int|
                0 <= j < sent.worker ==> old(self)@[sent.worker as int].queue_size < (
                #[trigger] old(self)@[j]).queue_size,
            final(self)@ == old(self)@.update(
                sent.worker as int,
                Worker {
                    callback: old(self)@[sent.worker as int].callback,
                    queue_size: one_more(old(self)@[sent.worker as int].queue_size),
                },
            ),
    {
        let worker = self.least_loaded();
        let load: usize = self.workers[worker].queue_size;
        self.workers[worker].queue_size = load.wrapping_add(1);
        Dispatch {
            worker,
            message: Message { value, tx },
            mode: ThreadsafeFunctionCallMode::Blocking,
        }
    }

    /// Ends the wait for the answer of `worker`. With an answer, the worker has one
    /// unanswered call less, and the answer is handed on. Where the way back was closed
    /// without one, there is none, and the call still counts.
    pub fn settle(&mut self, worker: usize, answer: Option<u32>) -> (result: Option<u32>)
        requires
            worker < old(self)@.len(),
        ensures
            result == answer,
            final(self).loads() == (if answer is Some {
                old(self).loads().update(
                    worker as int,
                    one_less(old(self).loads()[worker as int]),
                )
            } else {
                old(self).loads()
            }),
            final(self).callbacks() == old(self).callbacks(),
            final(self)@ == (if answer is Some {
                old(self)@.update(
                    worker as int,
                    Worker {
                        callback: old(self)@[worker as int].callback,
                        queue_size: one_less(old(self)@[worker as int].queue_size),
                    },
                )
            } else {
                old(self)@
            }),
    {
        if answer.is_some() {
            let load: usize = self.workers[worker].queue_size;
            self.workers[worker].queue_size = load.wrapping_sub(1);
        }
        answer
    }
}

impl<S> Message<S> {
    /// What comes of the message when `read` came of the JavaScript call: the answer and where
    /// it goes, or the error.
    pub open spec fn outcome(self, read: Result<u32, Error>) -> Result<(S, u32), Error> {
        match read {
            Ok(number) => Ok((self.tx, number)),
            Err(error) => Err(error),
        }
    }

    /// The argument that the JavaScript function of a worker is called with.
    pub fn argument(&self) -> (value: u32)
        ensures
            value == self.value,
    {
        self.value
    }

    /// What is sent back, and where, once the JavaScript function was called and what it
    /// returned was read as a number. An error on the way is handed on, and nothing is sent.
    pub fn answer(self, read: Result<u32, Error>) -> (reply: Result<(S, u32), Error>)
        ensures
            reply == self.outcome(read),
            reply is Ok <==> read is Ok,
            read matches Ok(number) ==> reply == Ok::<(S, u32), Error>((self.tx, number)),
            read matches Err(error) ==> reply == Err::<(S, u32), Error>(error),
    {
        match read {
            Ok(number) => Ok((self.tx, number)),
            Err(error) => Err(error),
        }
    }
}

/// Starts to register a worker: makes the thread-safe function that has its JavaScript
/// function called. What comes of it is handed to [`Pool::enroll`].
pub fn register_worker<S>(env: usize, callback: usize) -> (step: CreateStep<
    Message<S>,
    CalleeHandled,
>)
    ensures
        step@ == ThreadsafeFunction::<Message<S>, CalleeHandled>::create_start(
            env,
            callback,
            WORKER_QUEUE_SIZE,
        ),
        step matches CreateStep::Ask(_, creation) && creation == (Creation::Naming {
            env,
            func: callback,
            max_queue_size: WORKER_QUEUE_SIZE,
        }),
{
    ThreadsafeFunction::create(env, callback, WORKER_QUEUE_SIZE)
}

/// What the JavaScript function returned is sent back as it is, where the message says; and
/// whatever error came in its place is what comes of the message, with nothing to send.
pub proof fn law_answers_are_sent_and_errors_are_not<S>(
    message: Message<S>,
    number: u32,
    error: Error,
)
    ensures
        message.outcome(Ok(number)) == Ok::<(S, u32), Error>((message.tx, number)),
        message.outcome(Err(error)) == Err::<(S, u32), Error>(error),
{
}

/// A call more and a call less move a load by one, but where the counter has no room for it,
/// and there it goes round; either one undoes the other.
pub proof fn law_loads_move_by_one(load: usize)
    ensures
        load < usize::MAX ==> one_more(load) == load + 1,
        load > 0 ==> one_less(load) == load - 1,
        one_more(usize::MAX) == 0,
        one_less(0) == usize::MAX,
        one_less(one_more(load)) == load,
        one_more(one_less(load)) == load,
{
}

/// What is said of a pool by loads and callbacks is what its workers hold, one by one.
pub proof fn law_loads_are_those_of_the_workers<C>(pool: Pool<C>)
    ensures
        pool@ == pool.workers@,
        pool.loads().len() == pool.workers@.len(),
        pool.callbacks().len() == pool.workers@.len(),
        forall|i: int|
            0 <= i < pool.workers@.len() ==> #[trigger] pool.loads()[i]
                == pool.workers@[i].queue_size,
        forall|i: int|
            0 <= i < pool.workers@.len() ==> #[trigger] pool.callbacks()[i]
                == pool.workers@[i].callback,
{
}

} // verus!
