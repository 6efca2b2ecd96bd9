//! What holds of the loads of the workers while calls go out and answers come in.

use vstd::arithmetic::div_mod::{
    lemma_fundamental_div_mod, lemma_fundamental_div_mod_converse, lemma_mod_add_multiples_vanish,
    lemma_small_mod,
};
use vstd::prelude::*;

use crate::call_js::{is_function, FetchStep, QueuedCall, RunStep};
use crate::node::Reply;
use crate::pool::{is_first_least, one_less, one_more, Message};
use crate::status::Error;
use crate::threadsafe_function::{
    CallStep, CalleeHandled, ThreadsafeFunction, ThreadsafeFunctionCallMode,
};

verus! {

/// The worker that the next call goes to.
pub open spec fn pick(loads: Seq<usize>) -> int {
    choose|worker: int| is_first_least(loads, worker)
}

/// There is one worker, and one only, that is first among the least loaded, so long as there
/// are workers at all.
pub proof fn law_pick_is_unique(loads: Seq<usize>, worker: int)
    requires
        loads.len() > 0,
    ensures
        is_first_least(loads, worker) <==> worker == pick(loads),
{
    lemma_least_exists(loads);
    let picked = pick(loads);
    assert(is_first_least(loads, picked));
    if is_first_least(loads, worker) && worker != picked {
        assert(loads[worker] <= loads[picked]);
        assert(loads[picked] <= loads[worker]);
        assert(false);
    }
}

proof fn lemma_least_exists(loads: Seq<usize>)
    requires
        loads.len() > 0,
    ensures
        exists|worker: int| is_first_least(loads, worker),
    decreases loads.len(),
{
    if loads.len() == 1 {
        assert(is_first_least(loads, 0));
    } else {
        let init = loads.drop_last();
        lemma_least_exists(init);
        let w = choose|worker: int| is_first_least(init, worker);
        let last = loads.len() - 1;
        assert forall|j: int| 0 <= j < last implies #[trigger] loads[j] == init[j] by {}
        if loads[last] < loads[w] {
            assert(is_first_least(loads, last));
        } else {
            assert(is_first_least(loads, w));
        }
    }
}

/// An answer undoes what the call did to the load of its worker, and to no other load.
pub proof fn law_answer_undoes_call(loads: Seq<usize>, worker: int)
    requires
        0 <= worker < loads.len(),
    ensures
        one_less(one_more(loads[worker])) == loads[worker],
        ({
            let sent = loads.update(worker, one_more(loads[worker]));
            sent.update(worker, one_less(sent[worker])) == loads
        }),
{
    let sent = loads.update(worker, one_more(loads[worker]));
    assert(sent.update(worker, one_less(sent[worker])) =~= loads);
}

/// Whether no two loads are more than one call apart.
pub open spec fn is_even(loads: Seq<usize>) -> bool {
    forall|i: int, j: int|
        0 <= i < loads.len() && 0 <= j < loads.len() ==> #[trigger] loads[i] <= #[trigger] loads[j]
            + 1
}

/// A call does not make even loads uneven.
pub proof fn law_call_keeps_even(loads: Seq<usize>, worker: int)
    requires
        is_even(loads),
        is_first_least(loads, worker),
        loads[worker] < usize::MAX,
    ensures
        is_even(loads.update(worker, one_more(loads[worker]))),
{
}

/// A worker just registered has no calls, and the next call goes to it if all the others are
/// at work.
pub proof fn law_new_worker_is_next(loads: Seq<usize>)
    requires
        forall|j: int| 0 <= j < loads.len() ==> #[trigger] loads[j] > 0,
    ensures
        pick(loads.push(0)) == loads.len(),
{
    let all = loads.push(0);
    assert forall|j: int| 0 <= j < loads.len() implies #[trigger] all[j] == loads[j] by {}
    assert(is_first_least(all, loads.len() as int));
    law_pick_is_unique(all, loads.len() as int);
}

/// The loads after `calls` calls that went out without an answer coming in.
pub open spec fn after_calls(loads: Seq<usize>, calls: nat) -> Seq<usize>
    decreases calls,
{
    if calls == 0 {
        loads
    } else {
        let before = after_calls(loads, (calls - 1) as nat);
        before.update(pick(before), one_more(before[pick(before)]))
    }
}

/// `workers` workers without calls.
pub open spec fn idle(workers: nat) -> Seq<usize> {
    Seq::new(workers, |i: int| 0usize)
}

/// Calls to idle workers go round: each worker in turn gets one, in the order in which they
/// were registered, and the loads stay as even as they can be.
pub proof fn law_calls_go_round(workers: nat, calls: nat)
    requires
        workers > 0,
        calls / workers < usize::MAX,
    ensures
        after_calls(idle(workers), calls).len() == workers,
        forall|j: int|
            0 <= j < workers ==> #[trigger] after_calls(idle(workers), calls)[j] == calls / workers
                + (if j < calls % workers {
                1int
            } else {
                0int
            }),
        pick(after_calls(idle(workers), calls)) == calls % workers,
    decreases calls,
{
    let loads = after_calls(idle(workers), calls);
    lemma_fundamental_div_mod(calls as int, workers as int);
    if calls == 0 {
        lemma_small_mod(0, workers);
        assert(calls / workers == 0) by {
            lemma_fundamental_div_mod_converse(0, workers as int, 0, 0);
        }
    } else {
        let c = (calls - 1) as nat;
        lemma_fundamental_div_mod(c as int, workers as int);
        let q = c as int / workers as int;
        let r = c as int % workers as int;
        if r + 1 < workers {
            lemma_fundamental_div_mod_converse(calls as int, workers as int, q, r + 1);
        } else {
            assert(workers * q + workers == workers * (q + 1)) by (nonlinear_arith);
            lemma_fundamental_div_mod_converse(calls as int, workers as int, q + 1, 0);
        }
        law_calls_go_round(workers, c);
        let before = after_calls(idle(workers), c);
        assert(loads == before.update(r, one_more(before[r])));
    }
    let w = calls as int % workers as int;
    assert(is_first_least(loads, w)) by {
        assert forall|j: int| 0 <= j < loads.len() implies loads[w] <= #[trigger] loads[j] by {}
        assert forall|j: int| 0 <= j < w implies loads[w] < #[trigger] loads[j] by {}
    }
    law_pick_is_unique(loads, w);
}

/// What happens to a pool.
pub enum PoolEvent {
    /// A worker is registered.
    Enroll,
    /// A call goes out.
    Dispatch,
    /// The wait for an answer of `worker` ends, with one or without.
    Settle { worker: int, answered: bool },
}

/// The number of values that the counter of a worker can have.
pub open spec fn counter_range() -> int {
    usize::MAX + 1
}

/// The loads after `event`.
pub open spec fn after(loads: Seq<usize>, event: PoolEvent) -> Seq<usize> {
    match event {
        PoolEvent::Enroll => loads.push(0),
        PoolEvent::Dispatch => loads.update(pick(loads), one_more(loads[pick(loads)])),
        PoolEvent::Settle { worker, answered } => if answered {
            loads.update(worker, one_less(loads[worker]))
        } else {
            loads
        },
    }
}

/// Whether `event` can happen: a call needs a worker to go to, an answer one to come from.
pub open spec fn admits(loads: Seq<usize>, event: PoolEvent) -> bool {
    match event {
        PoolEvent::Enroll => true,
        PoolEvent::Dispatch => loads.len() > 0,
        PoolEvent::Settle { worker, .. } => 0 <= worker < loads.len(),
    }
}

/// Whether `events` can happen one after the other.
pub open spec fn admits_all(loads: Seq<usize>, events: Seq<PoolEvent>) -> bool
    decreases events.len(),
{
    events.len() == 0 || (admits(loads, events[0]) && admits_all(
        after(loads, events[0]),
        events.drop_first(),
    ))
}

/// The loads after `events`.
pub open spec fn after_all(loads: Seq<usize>, events: Seq<PoolEvent>) -> Seq<usize>
    decreases events.len(),
{
    if events.len() == 0 {
        loads
    } else {
        after_all(after(loads, events[0]), events.drop_first())
    }
}

/// How many of the calls went to `worker`.
pub open spec fn sent_to(loads: Seq<usize>, events: Seq<PoolEvent>, worker: int) -> nat
    decreases events.len(),
{
    if events.len() == 0 {
        0
    } else {
        sent_to(after(loads, events[0]), events.drop_first(), worker) + (if events[0] is Dispatch
            && pick(loads) == worker {
            1nat
        } else {
            0nat
        })
    }
}

/// How many answers came from `worker`.
pub open spec fn answered_by(events: Seq<PoolEvent>, worker: int) -> nat
    decreases events.len(),
{
    if events.len() == 0 {
        0
    } else {
        answered_by(events.drop_first(), worker) + (if events[0] == (PoolEvent::Settle {
            worker,
            answered: true,
        }) {
            1nat
        } else {
            0nat
        })
    }
}

/// The load that `worker` starts with: none, if it is registered only later.
pub open spec fn load_at_start(loads: Seq<usize>, worker: int) -> int {
    if 0 <= worker < loads.len() {
        loads[worker] as int
    } else {
        0
    }
}

/// Whatever happens, in whatever order, the load of a worker is the one it started with, and
/// one more for each call that went to it, and one less for each answer that came from it,
/// counted as its counter counts. Workers do not leave.
pub proof fn law_loads_count_calls(loads: Seq<usize>, events: Seq<PoolEvent>, worker: int)
    requires
        admits_all(loads, events),
        0 <= worker < after_all(loads, events).len(),
    ensures
        after_all(loads, events)[worker] == (load_at_start(loads, worker) + sent_to(
            loads,
            events,
            worker,
        ) - answered_by(events, worker)) % counter_range(),
        after_all(loads, events).len() >= loads.len(),
    decreases events.len(),
{
    if events.len() == 0 {
        lemma_small_mod(loads[worker] as nat, counter_range() as nat);
    } else {
        let next = after(loads, events[0]);
        let rest = events.drop_first();
        law_loads_count_calls(next, rest, worker);
        if events[0] is Dispatch {
            law_pick_is_unique(loads, pick(loads));
        }
        let now = load_at_start(loads, worker) + sent_to(loads, events, worker) - answered_by(
            events,
            worker,
        );
        let then = load_at_start(next, worker) + sent_to(next, rest, worker) - answered_by(
            rest,
            worker,
        );
        assert(then == now || then == now + counter_range() || now == then + counter_range());
        lemma_mod_add_multiples_vanish(now, counter_range());
        lemma_mod_add_multiples_vanish(then, counter_range());
    }
}

/// Once each call that went to a worker is answered, its load is what it was before.
pub proof fn law_quiet_again(loads: Seq<usize>, events: Seq<PoolEvent>, worker: int)
    requires
        admits_all(loads, events),
        0 <= worker < loads.len(),
        sent_to(loads, events, worker) == answered_by(events, worker),
    ensures
        worker < after_all(loads, events).len(),
        after_all(loads, events)[worker] == loads[worker],
{
    lemma_workers_stay(loads, events);
    law_loads_count_calls(loads, events, worker);
    lemma_small_mod(loads[worker] as nat, counter_range() as nat);
}

proof fn lemma_workers_stay(loads: Seq<usize>, events: Seq<PoolEvent>)
    requires
        admits_all(loads, events),
    ensures
        after_all(loads, events).len() >= loads.len(),
    decreases events.len(),
{
    if events.len() > 0 {
        if events[0] is Dispatch {
            law_pick_is_unique(loads, pick(loads));
        }
        lemma_workers_stay(after(loads, events[0]), events.drop_first());
    }
}

/// In a pool that started without workers, the load of a worker is the number of its
/// unanswered calls, so long as its counter can hold it.
pub proof fn law_load_is_unanswered_calls(events: Seq<PoolEvent>, worker: int)
    requires
        admits_all(Seq::empty(), events),
        0 <= worker < after_all(Seq::empty(), events).len(),
        0 <= sent_to(Seq::empty(), events, worker) - answered_by(events, worker) <= usize::MAX,
    ensures
        after_all(Seq::empty(), events)[worker] == sent_to(Seq::empty(), events, worker)
            - answered_by(events, worker),
{
    law_loads_count_calls(Seq::empty(), events, worker);
    lemma_small_mod(
        (sent_to(Seq::empty(), events, worker) - answered_by(events, worker)) as nat,
        counter_range() as nat,
    );
}

/// A call goes to a worker with the fewest unanswered calls, the first registered of them. It
/// has one more from then on, and every other worker has as many as before.
pub proof fn law_call_goes_to_the_fewest(loads: Seq<usize>)
    requires
        loads.len() > 0,
    ensures
        ({
            let worker = pick(loads);
            let end = after(loads, PoolEvent::Dispatch);
            &&& 0 <= worker < loads.len()
            &&& forall|i: int| 0 <= i < loads.len() ==> loads[worker] <= #[trigger] loads[i]
            &&& forall|i: int| 0 <= i < worker ==> loads[worker] < #[trigger] loads[i]
            &&& end.len() == loads.len()
            &&& end[worker] == one_more(loads[worker])
            &&& forall|i: int|
                0 <= i < loads.len() && i != worker ==> #[trigger] end[i] == loads[i]
        }),
{
    law_pick_is_unique(loads, pick(loads));
}

/// Each of the calls that a batch makes goes to a worker that has the fewest unanswered calls
/// at that moment, whatever workers were registered, calls sent and answers counted before.
pub proof fn law_every_call_goes_to_the_fewest(
    loads: Seq<usize>,
    events: Seq<PoolEvent>,
    call: int,
)
    requires
        admits_all(loads, events),
        0 <= call < events.len(),
        events[call] is Dispatch,
    ensures
        ({
            let now = after_all(loads, events.take(call));
            let next = after_all(loads, events.take(call + 1));
            let worker = pick(now);
            &&& 0 <= worker < now.len()
            &&& forall|i: int| 0 <= i < now.len() ==> now[worker] <= #[trigger] now[i]
            &&& next == now.update(worker, one_more(now[worker]))
        }),
    decreases events.len(),
{
    if call == 0 {
        assert(events.take(0) =~= Seq::empty());
        assert(events.take(1).drop_first() =~= Seq::empty());
        reveal_with_fuel(after_all, 2);
        law_call_goes_to_the_fewest(loads);
    } else {
        let rest = events.drop_first();
        law_every_call_goes_to_the_fewest(after(loads, events[0]), rest, call - 1);
        assert(events.take(call).drop_first() =~= rest.take(call - 1));
        assert(events.take(call + 1).drop_first() =~= rest.take(call));
    }
}

/// A call to a worker whose function is open comes back to its caller: the JavaScript function
/// gets the number as its argument, and what it returns goes back the way that was sent along.
pub proof fn law_answer_comes_back<S>(
    function: ThreadsafeFunction<Message<S>, CalleeHandled>,
    value: u32,
    tx: S,
    call: QueuedCall,
    reply: Reply,
    number: u32,
)
    requires
        !function.aborted,
        is_function(reply),
    ensures
        function.call_step(Ok(Message { value, tx }), ThreadsafeFunctionCallMode::Blocking) matches
            CallStep::Enqueue { data, .. } && {
            &&& call.taken(data).fetch_step() matches FetchStep::Check(_, checked) && {
                &&& checked.run_step(reply) matches RunStep::Run(context, _) && {
                    &&& context.value.value == value
                    &&& context.value.outcome(Ok(number)) == Ok::<(S, u32), Error>((tx, number))
                }
            }
        },
{
}

} // verus!
