//! A thread-safe function from its making to the end of its last handle: the steps that its
//! handles take, and what holds over any number of them.

use vstd::prelude::*;

use crate::call_js::{
    is_function, CheckedCall, FetchStep, QueuedCall, RunStep, RunningCall, ThreadSafeCallContext,
};
use crate::node::{NapiCall, NapiCallView, Reply};
use crate::report::ReportStep;
use crate::status::{error_of, status_of, CallStatus, Error, NAPI_OK};
use crate::threadsafe_function::{
    resource_name, CallStep, CalleeHandled, CreateStep, CreateStepView, Creation, Fatal, Strategy,
    ThreadsafeFunction, ThreadsafeFunctionCallMode, INITIAL_THREAD_COUNT,
};

verus! {

/// The calls that making a thread-safe function needs from `step` on when Node-API gives back
/// `replies` in turn, and the step that it stands at when it has ended or the replies have
/// run out.
pub open spec fn creation_run<T, ES: Strategy>(
    step: CreateStepView<T, ES>,
    replies: Seq<Reply>,
) -> (Seq<NapiCallView>, CreateStepView<T, ES>)
    decreases replies.len(),
{
    match step {
        CreateStepView::Ask(call, creation) if replies.len() > 0 => {
            let (calls, end) = creation_run(
                creation.next::<T, ES>(replies[0]),
                replies.drop_first(),
            );
            (seq![call] + calls, end)
        },
        _ => (Seq::empty(), step),
    }
}

/// The calls of a creation that succeeds, `name` being what the first of them gives back.
pub open spec fn creation_calls(
    env: usize,
    func: usize,
    max_queue_size: usize,
    name: usize,
) -> Seq<NapiCallView> {
    seq![
        NapiCallView::CreateString { env, text: resource_name() },
        NapiCallView::CreateThreadsafeFunction {
            env,
            func,
            async_resource_name: name,
            max_queue_size,
            initial_thread_count: INITIAL_THREAD_COUNT,
        },
        NapiCallView::AddEnvCleanupHook { env },
    ]
}

/// Making a thread-safe function takes the same three calls in the same order. The first one
/// to fail is the last one made, and its code is the error; if none fails, there is a fresh
/// function, at the address that the second one gave back.
pub proof fn law_creation<T, ES: Strategy>(
    env: usize,
    func: usize,
    max_queue_size: usize,
    replies: Seq<Reply>,
)
    requires
        replies.len() == 3,
    ensures
        ({
            let (calls, end) = creation_run(
                ThreadsafeFunction::<T, ES>::create_start(env, func, max_queue_size),
                replies,
            );
            let all = creation_calls(env, func, max_queue_size, replies[0].value);
            if replies[0].status != NAPI_OK {
                calls == all.take(1) && end == CreateStepView::<T, ES>::Failed(
                    error_of(replies[0].status),
                )
            } else if replies[1].status != NAPI_OK {
                calls == all.take(2) && end == CreateStepView::<T, ES>::Failed(
                    error_of(replies[1].status),
                )
            } else if replies[2].status != NAPI_OK {
                calls == all && end == CreateStepView::<T, ES>::Failed(error_of(replies[2].status))
            } else {
                calls == all && end == CreateStepView::Created(
                    ThreadsafeFunction::<T, ES>::fresh(replies[1].value),
                )
            }
        }),
{
    reveal_with_fuel(creation_run, 4);
    let r1 = replies.drop_first();
    let r2 = r1.drop_first();
    let r3 = r2.drop_first();
    assert(r1[0] == replies[1] && r2[0] == replies[2] && r3.len() == 0);
    let start = ThreadsafeFunction::<T, ES>::create_start(env, func, max_queue_size);
    let (calls, end) = creation_run(start, replies);
    let all = creation_calls(env, func, max_queue_size, replies[0].value);
    if replies[0].status != NAPI_OK {
        assert(calls =~= all.take(1));
    } else if replies[1].status != NAPI_OK {
        assert(calls =~= all.take(2));
    } else {
        assert(calls =~= all);
    }
}

/// The name of the asynchronous resource holds no null character, so that it can be handed on
/// as a C string.
pub proof fn law_resource_name_is_a_c_string()
    ensures
        !resource_name().contains('\0'),
        resource_name().len() == 27,
{
    reveal_strlit("napi_rs_threadsafe_function");
}

/// The two call modes are told apart by their codes, which are those of Node-API.
pub proof fn law_call_modes_differ(a: ThreadsafeFunctionCallMode, b: ThreadsafeFunctionCallMode)
    ensures
        a.code() == b.code() <==> a == b,
        a.code() == (if a is Blocking { 1i32 } else { 0i32 }),
{
}

/// What happens to the handles of a thread-safe function. `status` is the code of the call into
/// Node-API that went with it, where one was made.
pub enum HandleEvent {
    /// Another handle is made of one.
    Clone { status: Option<i32> },
    /// A handle goes away.
    Drop { status: Option<i32> },
    /// The function is aborted through a handle, which goes away next.
    Abort { status: i32 },
    /// The environment shuts down.
    Cleanup,
}

/// A thread-safe function with its handles: how many there are, and how many times more
/// Node-API granted it to them than took it back. It is granted once when it is made.
pub struct Ledger<T, ES: Strategy> {
    pub function: ThreadsafeFunction<T, ES>,
    pub handles: nat,
    pub held: int,
}

impl<T, ES: Strategy> Ledger<T, ES> {
    /// The ledger of a function just made.
    pub open spec fn opened(raw_tsfn: usize) -> Self {
        Ledger {
            function: ThreadsafeFunction::fresh(raw_tsfn),
            handles: 1,
            held: INITIAL_THREAD_COUNT as int,
        }
    }

    /// The ledger after `event`. There is one function for all handles; what aborts it aborts
    /// it for each of them.
    pub open spec fn after(self, event: HandleEvent) -> Self {
        match event {
            HandleEvent::Clone { status } => Ledger {
                handles: self.handles + 1,
                held: if status == Some(NAPI_OK) { self.held + 1 } else { self.held },
                ..self
            },
            HandleEvent::Drop { status } => Ledger {
                handles: (self.handles - 1) as nat,
                held: if status == Some(NAPI_OK) { self.held - 1 } else { self.held },
                ..self
            },
            HandleEvent::Abort { status } => if status == NAPI_OK {
                Ledger { function: self.function.closed(), held: self.held - 1, ..self }
            } else {
                self
            },
            HandleEvent::Cleanup => Ledger { function: self.function.closed(), ..self },
        }
    }

    /// Whether `event` can happen. All but the end of the environment need a handle. While the
    /// function is open, a handle that comes or goes is told to Node-API; once it is aborted,
    /// only one that had asked before can still have been.
    pub open spec fn admits(self, event: HandleEvent) -> bool {
        match event {
            HandleEvent::Clone { status } => {
                self.handles > 0 && (self.function.acquires() ==> status is Some)
            },
            HandleEvent::Drop { status } => {
                self.handles > 0 && (self.function.releases() ==> status is Some)
            },
            HandleEvent::Abort { .. } => self.handles > 0,
            HandleEvent::Cleanup => true,
        }
    }

    /// Whether `events` can happen one after the other.
    pub open spec fn admits_all(self, events: Seq<HandleEvent>) -> bool
        decreases events.len(),
    {
        events.len() == 0 || (self.admits(events[0]) && self.after(events[0]).admits_all(
            events.drop_first(),
        ))
    }

    /// The ledger after `events`.
    pub open spec fn after_all(self, events: Seq<HandleEvent>) -> Self
        decreases events.len(),
    {
        if events.len() == 0 {
            self
        } else {
            self.after(events[0]).after_all(events.drop_first())
        }
    }
}

/// A thread-safe function and the count of its handles. All handles share it.
pub struct Family<T, ES: Strategy> {
    pub function: ThreadsafeFunction<T, ES>,
    pub handles: usize,
    pub held: Ghost<int>,
}

impl<T, ES: Strategy> View for Family<T, ES> {
    type V = Ledger<T, ES>;

    open spec fn view(&self) -> Ledger<T, ES> {
        Ledger { function: self.function, handles: self.handles as nat, held: self.held@ }
    }
}

impl<T, ES: Strategy> Family<T, ES> {
    /// The first handle to a function that was just made.
    pub fn open(function: ThreadsafeFunction<T, ES>) -> (family: Self)
        ensures
            family@ == (Ledger { function, handles: 1, held: INITIAL_THREAD_COUNT as int }),
            family.function == function,
            family.handles == 1,
            family.held@ == 1,
    {
        Family { function, handles: 1, held: Ghost(INITIAL_THREAD_COUNT as int) }
    }

    /// Adds a handle made of another one, which shares the function with it. `status` is the
    /// code that the call of [`ThreadsafeFunction::acquire`] gave, if there was one to make.
    pub fn handle_cloned(&mut self, status: Option<i32>)
        requires
            old(self)@.admits(HandleEvent::Clone { status }),
            old(self).handles < usize::MAX,
        ensures
            final(self)@ == old(self)@.after(HandleEvent::Clone { status }),
            final(self).handles == old(self).handles + 1,
            final(self).function == old(self).function,
            final(self).held@ == old(self).held@ + (if status == Some(NAPI_OK) {
                1int
            } else {
                0int
            }),
    {
        self.handles = self.handles + 1;
        proof {
            if status == Some(NAPI_OK) {
                self.held@ = self.held@ + 1;
            }
        }
    }

    /// Takes a handle away. `status` is the code that the call of
    /// [`ThreadsafeFunction::release`] gave, if there was one to make.
    pub fn handle_dropped(&mut self, status: Option<i32>)
        requires
            old(self)@.admits(HandleEvent::Drop { status }),
        ensures
            final(self)@ == old(self)@.after(HandleEvent::Drop { status }),
            final(self).handles == old(self).handles - 1,
            final(self).function == old(self).function,
            final(self).held@ == old(self).held@ - (if status == Some(NAPI_OK) {
                1int
            } else {
                0int
            }),
    {
        self.handles = self.handles - 1;
        proof {
            if status == Some(NAPI_OK) {
                self.held@ = self.held@ - 1;
            }
        }
    }

    /// Aborts the function for every handle. `status` is the code that the call of
    /// [`ThreadsafeFunction::abort_call`] gave; where that call failed, nothing changes.
    pub fn abort(&mut self, status: i32) -> (result: Result<(), Error>)
        requires
            old(self)@.admits(HandleEvent::Abort { status }),
        ensures
            final(self)@ == old(self)@.after(HandleEvent::Abort { status }),
            result is Ok <==> status == NAPI_OK,
            result matches Err(e) ==> e@ == error_of(status) && e.status == status_of(status)
                && e.reason@.len() == 0,
            final(self).handles == old(self).handles,
            final(self).held@ == old(self).held@ - (if status == NAPI_OK { 1int } else { 0int }),
            final(self).function.aborted == (old(self).function.aborted || status == NAPI_OK),
            final(self).function.raw_tsfn == old(self).function.raw_tsfn,
            final(self).function.ref_count == old(self).function.ref_count,
    {
        let result = self.function.abort(status);
        proof {
            if status == NAPI_OK {
                self.held@ = self.held@ - 1;
            }
        }
        result
    }

    /// Marks the function as aborted for every handle, because its environment shuts down.
    /// The handles may all be gone by then.
    pub fn cleanup_cb(&mut self)
        ensures
            final(self)@ == old(self)@.after(HandleEvent::Cleanup),
            final(self).handles == old(self).handles,
            final(self).held@ == old(self).held@,
            final(self).function.aborted,
            final(self).function.raw_tsfn == old(self).function.raw_tsfn,
            final(self).function.ref_count == old(self).function.ref_count,
    {
        self.function.cleanup_cb();
    }
}

/// A function just made is open, at whatever address: it takes calls, and its handles are told
/// to Node-API when they come and given back when they go.
pub proof fn law_fresh_function_is_open<T>(
    raw_tsfn: usize,
    result: Result<T, Error>,
    value: T,
    mode: ThreadsafeFunctionCallMode,
)
    ensures
        ({
            let function = ThreadsafeFunction::<T, CalleeHandled>::fresh(raw_tsfn);
            &&& function.raw_tsfn == raw_tsfn
            &&& !function.aborted
            &&& function.ref_count == 1
            &&& function.acquires() && function.releases()
            &&& function.call_step(result, mode) is Enqueue
        }),
        ({
            let function = ThreadsafeFunction::<T, Fatal>::fresh(raw_tsfn);
            &&& function.raw_tsfn == raw_tsfn
            &&& !function.aborted
            &&& function.ref_count == 1
            &&& function.acquires() && function.releases()
            &&& function.call_step(value, mode) is Enqueue
        }),
{
}

/// The ledger of a function just made has one handle, which holds it once; and the ledger of
/// a family is what it holds.
pub proof fn law_ledger_starts_with_one<T, ES: Strategy>(raw_tsfn: usize, family: Family<T, ES>)
    ensures
        ({
            let ledger = Ledger::<T, ES>::opened(raw_tsfn);
            &&& ledger.handles == 1 && ledger.held == 1
            &&& ledger.function.raw_tsfn == raw_tsfn && !ledger.function.aborted
        }),
        family@.function == family.function,
        family@.handles == family.handles,
        family@.held == family.held@,
{
}

/// A creation names its function, makes it under that name and adds the hook, in this order and
/// up to the first call that is not granted. Where all three are, it gives a function that is
/// open and at the address that the second of them gave back; otherwise it gives none, and
/// fails with the status of the call that was not.
pub proof fn law_creation_gives_an_open_function<T, ES: Strategy>(
    env: usize,
    func: usize,
    max_queue_size: usize,
    replies: Seq<Reply>,
)
    requires
        replies.len() == 3,
    ensures
        ({
            let (calls, end) = creation_run(
                ThreadsafeFunction::<T, ES>::create_start(env, func, max_queue_size),
                replies,
            );
            let granted = forall|i: int| 0 <= i < 3 ==> (#[trigger] replies[i]).status == NAPI_OK;
            &&& calls.len() == (if replies[0].status != NAPI_OK {
                1int
            } else if replies[1].status != NAPI_OK {
                2int
            } else {
                3int
            })
            &&& calls[0] == (NapiCallView::CreateString {
                env,
                text: "napi_rs_threadsafe_function"@,
            })
            &&& calls.len() > 1 ==> calls[1] == (NapiCallView::CreateThreadsafeFunction {
                env,
                func,
                async_resource_name: replies[0].value,
                max_queue_size,
                initial_thread_count: 1,
            })
            &&& calls.len() > 2 ==> calls[2] == (NapiCallView::AddEnvCleanupHook { env })
            &&& end is Created <==> granted
            &&& end matches CreateStepView::Created(function) ==> {
                &&& function.raw_tsfn == replies[1].value
                &&& !function.aborted
                &&& function.ref_count == 1
            }
            &&& !granted ==> (end matches CreateStepView::Failed(error) && error.1.len() == 0
                && replies[calls.len() - 1].status != NAPI_OK && error.0 == status_of(
                replies[calls.len() - 1].status,
            ))
        }),
{
    law_creation::<T, ES>(env, func, max_queue_size, replies);
    if replies[0].status == NAPI_OK && replies[1].status == NAPI_OK && replies[2].status
        == NAPI_OK {
        assert forall|i: int| 0 <= i < 3 implies (#[trigger] replies[i]).status == NAPI_OK by {
            assert(i == 0 || i == 1 || i == 2);
        }
    }
}

/// The view of a step is the same step.
pub proof fn law_view_is_the_step<T, ES: Strategy>(
    call: NapiCall,
    creation: Creation,
    function: ThreadsafeFunction<T, ES>,
    error: Error,
)
    ensures
        CreateStep::<T, ES>::Ask(call, creation)@ == CreateStepView::<T, ES>::Ask(call@, creation),
        CreateStep::Done(Ok(function))@ == CreateStepView::Created(function),
        CreateStep::<T, ES>::Done(Err(error))@ == CreateStepView::<T, ES>::Failed(
            (error.status, error.reason@),
        ),
{
}

/// Handles come and go with notice to Node-API so long as the function is open, and it is in
/// use where they go; marking it as aborted ends that and changes nothing else.
pub proof fn law_open_function_is_kept_track_of<T, ES: Strategy>(
    function: ThreadsafeFunction<T, ES>,
)
    ensures
        function.acquires() <==> !function.aborted,
        function.releases() <==> !function.aborted && function.ref_count > 0,
        function.closed().aborted,
        function.closed().raw_tsfn == function.raw_tsfn,
        function.closed().ref_count == function.ref_count,
        !function.closed().acquires() && !function.closed().releases(),
{
}

/// What one event does to a ledger: a clone adds one handle and a drop takes one away, whatever
/// the count and whatever Node-API said, and nothing else moves the count; what Node-API grants
/// moves what is held by one; and only an abort that is granted and the end of the environment
/// touch the function, which they close.
pub proof fn law_events_move_by_one<T, ES: Strategy>(ledger: Ledger<T, ES>, event: HandleEvent)
    requires
        ledger.admits(event),
    ensures
        ({
            let end = ledger.after(event);
            &&& end.handles == ledger.handles + (if event is Clone { 1int } else { 0int }) - (
            if event is Drop { 1int } else { 0int })
            &&& end.held == ledger.held + (if event == (HandleEvent::Clone {
                status: Some(NAPI_OK),
            }) {
                1int
            } else {
                0int
            }) - (if event == (HandleEvent::Drop { status: Some(NAPI_OK) }) || event == (
            HandleEvent::Abort { status: NAPI_OK }) {
                1int
            } else {
                0int
            })
            &&& end.function.raw_tsfn == ledger.function.raw_tsfn
            &&& end.function.ref_count == ledger.function.ref_count
            &&& end.function.aborted <==> ledger.function.aborted || event is Cleanup || event == (
            HandleEvent::Abort { status: NAPI_OK })
        }),
{
}

/// With a handle at hand, any event can happen, whatever code goes with it, so long as
/// Node-API is told when the function is open; and the environment can end at any time.
pub proof fn law_any_event_can_happen<T, ES: Strategy>(ledger: Ledger<T, ES>, code: i32)
    ensures
        ledger.handles > 0 ==> {
            &&& ledger.admits(HandleEvent::Clone { status: Some(code) })
            &&& ledger.admits(HandleEvent::Drop { status: Some(code) })
            &&& ledger.admits(HandleEvent::Abort { status: code })
            &&& ledger.admits(HandleEvent::Clone { status: None }) <==> ledger.function.aborted
            &&& ledger.admits(HandleEvent::Drop { status: None }) <==> ledger.function.aborted
                || ledger.function.ref_count == 0
        },
        ledger.admits(HandleEvent::Cleanup),
{
}

/// How many handles were made of others.
pub open spec fn clones(events: Seq<HandleEvent>) -> nat
    decreases events.len(),
{
    if events.len() == 0 {
        0
    } else {
        clones(events.drop_first()) + (if events[0] is Clone { 1nat } else { 0nat })
    }
}

/// How many handles went away.
pub open spec fn drops(events: Seq<HandleEvent>) -> nat
    decreases events.len(),
{
    if events.len() == 0 {
        0
    } else {
        drops(events.drop_first()) + (if events[0] is Drop { 1nat } else { 0nat })
    }
}

/// Over any run, aborted or not, there are as many handles as there were, and one more for each
/// clone and one less for each drop.
pub proof fn law_handles_are_counted<T, ES: Strategy>(
    ledger: Ledger<T, ES>,
    events: Seq<HandleEvent>,
)
    requires
        ledger.admits_all(events),
    ensures
        ledger.after_all(events).handles == ledger.handles + clones(events) - drops(events),
    decreases events.len(),
{
    if events.len() > 0 {
        law_handles_are_counted(ledger.after(events[0]), events.drop_first());
    }
}

/// How many handles were made that Node-API refused to take note of.
pub open spec fn refused_clones(events: Seq<HandleEvent>) -> nat
    decreases events.len(),
{
    if events.len() == 0 {
        0
    } else {
        refused_clones(events.drop_first()) + (match events[0] {
            HandleEvent::Clone { status: Some(code) } if code != NAPI_OK => 1nat,
            _ => 0nat,
        })
    }
}

/// How many handles went away that Node-API refused to take back.
pub open spec fn refused_drops(events: Seq<HandleEvent>) -> nat
    decreases events.len(),
{
    if events.len() == 0 {
        0
    } else {
        refused_drops(events.drop_first()) + (match events[0] {
            HandleEvent::Drop { status: Some(code) } if code != NAPI_OK => 1nat,
            _ => 0nat,
        })
    }
}

proof fn lemma_events_keep_balance<T, ES: Strategy>(
    ledger: Ledger<T, ES>,
    events: Seq<HandleEvent>,
)
    requires
        ledger.function.ref_count == INITIAL_THREAD_COUNT,
        ledger.admits_all(events),
    ensures
        ledger.after_all(events).function.ref_count == INITIAL_THREAD_COUNT,
        ledger.after_all(events).function.raw_tsfn == ledger.function.raw_tsfn,
        !ledger.after_all(events).function.aborted ==> ledger.after_all(events).held
            - ledger.after_all(events).handles == ledger.held - ledger.handles - refused_clones(
            events,
        ) + refused_drops(events),
    decreases events.len(),
{
    if events.len() > 0 {
        lemma_events_keep_balance(ledger.after(events[0]), events.drop_first());
        if ledger.after(events[0]).function.aborted {
            law_aborted_iff_closed(ledger.after(events[0]), events.drop_first());
        }
    }
}

/// Whatever happens to the handles of a function that is never aborted, it is held once for
/// each of them, but for the handles that Node-API refused to take note of or to take back.
/// Where it refused none, clones and drops pair up, and once the last handle is gone the
/// function has been given back in full. Its address and its count never change.
pub proof fn law_handles_pair_up<T, ES: Strategy>(raw_tsfn: usize, events: Seq<HandleEvent>)
    requires
        Ledger::<T, ES>::opened(raw_tsfn).admits_all(events),
    ensures
        ({
            let end = Ledger::<T, ES>::opened(raw_tsfn).after_all(events);
            &&& end.function.raw_tsfn == raw_tsfn
            &&& end.function.ref_count == INITIAL_THREAD_COUNT
            &&& !end.function.aborted ==> end.held == end.handles - refused_clones(events)
                + refused_drops(events)
            &&& !end.function.aborted && end.handles == 0 && refused_clones(events) == 0
                && refused_drops(events) == 0 ==> end.held == 0
        }),
{
    lemma_events_keep_balance(Ledger::<T, ES>::opened(raw_tsfn), events);
}

/// Whether `event` closes the function: an abort that Node-API granted, through any handle, or
/// the end of the environment.
pub open spec fn closes(event: HandleEvent) -> bool {
    event is Cleanup || event == (HandleEvent::Abort { status: NAPI_OK })
}

/// A function is aborted if and only if it was so before or something closed it since: no
/// other event aborts it, and nothing opens it again.
pub proof fn law_aborted_iff_closed<T, ES: Strategy>(
    ledger: Ledger<T, ES>,
    events: Seq<HandleEvent>,
)
    ensures
        ledger.after_all(events).function.aborted <==> ledger.function.aborted || exists|i: int|
            0 <= i < events.len() && closes(#[trigger] events[i]),
    decreases events.len(),
{
    if events.len() > 0 {
        let rest = events.drop_first();
        law_aborted_iff_closed(ledger.after(events[0]), rest);
        if exists|i: int| 0 <= i < rest.len() && closes(#[trigger] rest[i]) {
            let i = choose|i: int| 0 <= i < rest.len() && closes(#[trigger] rest[i]);
            assert(events[i + 1] == rest[i]);
        }
        if exists|i: int| 0 <= i < events.len() && closes(#[trigger] events[i]) {
            let i = choose|i: int| 0 <= i < events.len() && closes(#[trigger] events[i]);
            if i > 0 {
                assert(rest[i - 1] == events[i]);
            }
        }
    }
}

/// An aborted function is left alone: handles to it are neither told to Node-API nor given
/// back, and a call is answered with the status of a closed function and queues nothing.
pub proof fn law_aborted_is_left_alone<T>(
    handled: ThreadsafeFunction<T, CalleeHandled>,
    fatal: ThreadsafeFunction<T, Fatal>,
    result: Result<T, Error>,
    value: T,
    mode: ThreadsafeFunctionCallMode,
)
    requires
        handled.aborted,
        fatal.aborted,
    ensures
        !handled.acquires() && !handled.releases(),
        !fatal.acquires() && !fatal.releases(),
        handled.call_step(result, mode) == CallStep::<T>::Return(CallStatus::Closing),
        fatal.call_step(value, mode) == CallStep::<T>::Return(CallStatus::Closing),
{
}

/// Once something closed a function, every handle to it finds it closed, those made before and
/// those made since: none is told to Node-API or given back, and a call is answered with the
/// status of a closed function and queues nothing.
pub proof fn law_closed_for_every_handle<T>(
    handled: Ledger<T, CalleeHandled>,
    fatal: Ledger<T, Fatal>,
    events: Seq<HandleEvent>,
    i: int,
    result: Result<T, Error>,
    value: T,
    mode: ThreadsafeFunctionCallMode,
)
    requires
        0 <= i < events.len(),
        closes(events[i]),
    ensures
        ({
            let function = handled.after_all(events).function;
            &&& function.aborted && !function.acquires() && !function.releases()
            &&& function.call_step(result, mode) == CallStep::<T>::Return(CallStatus::Closing)
        }),
        ({
            let function = fatal.after_all(events).function;
            &&& function.aborted && !function.acquires() && !function.releases()
            &&& function.call_step(value, mode) == CallStep::<T>::Return(CallStatus::Closing)
        }),
{
    law_aborted_iff_closed(handled, events);
    law_aborted_iff_closed(fatal, events);
}

/// The handle through which a function was aborted does not give it back a second time when
/// it goes away, while one whose attempt failed still does: either way it is given back once.
pub proof fn law_abort_gives_back_once<T, ES: Strategy>(
    ledger: Ledger<T, ES>,
    status: i32,
    dropped: Option<i32>,
)
    requires
        ledger.handles > 0,
        ledger.function.ref_count == INITIAL_THREAD_COUNT,
        !ledger.function.aborted,
        dropped == (if ledger.after(HandleEvent::Abort { status }).function.releases() {
            Some(NAPI_OK)
        } else {
            None
        }),
    ensures
        dropped is None <==> status == NAPI_OK,
        ({
            let end = ledger.after(HandleEvent::Abort { status }).after(
                HandleEvent::Drop { status: dropped },
            );
            &&& end.handles == ledger.handles - 1
            &&& end.held == ledger.held - 1
            &&& end.function.aborted == (status == NAPI_OK)
        }),
{
}

/// What a caller passes to an open function arrives: the callback is run with the very value,
/// in the environment and with the JavaScript function of the call, once Node-API said that
/// this is a function; if it is none, the call fails and the callback is not run. An error
/// passed in place of a value ends the call without either. What is queued is marked with the
/// strategy of the handle.
pub proof fn law_call_arrives<T>(
    function: ThreadsafeFunction<T, CalleeHandled>,
    value: Result<T, Error>,
    mode: ThreadsafeFunctionCallMode,
    call: QueuedCall,
    reply: Reply,
)
    requires
        !function.aborted,
    ensures
        function.call_step(value, mode) matches CallStep::Enqueue { func, data, mode: code } && {
            &&& func == function.raw_tsfn
            &&& code == mode.code()
            &&& data.strategy() == CalleeHandled::strategy()
            &&& match value {
                Ok(v) => {
                    call.taken(data).fetch_step() matches FetchStep::Check(asked, checked)
                        && runs_with(call, v, reply, asked, checked)
                },
                Err(_) => call.taken(data).fetch_step() == FetchStep::<T>::Ended(ReportStep::Done),
            }
        },
{
}

/// The same for a function whose callers pass plain values: nothing takes their place, so that
/// the JavaScript function is always looked at.
pub proof fn law_fatal_call_arrives<T>(
    function: ThreadsafeFunction<T, Fatal>,
    value: T,
    mode: ThreadsafeFunctionCallMode,
    call: QueuedCall,
    reply: Reply,
)
    requires
        !function.aborted,
    ensures
        function.call_step(value, mode) matches CallStep::Enqueue { func, data, mode: code } && {
            &&& func == function.raw_tsfn
            &&& code == mode.code()
            &&& data.strategy() == Fatal::strategy()
            &&& call.taken(data).fetch_step() matches FetchStep::Check(asked, checked)
                && runs_with(call, value, reply, asked, checked)
        },
{
}

/// Whether `asked` asks for the type of what `call` is to call, and `checked` then runs the
/// callback with `value` if `reply` says that this is a function, and fails if not.
pub open spec fn runs_with<T>(
    call: QueuedCall,
    value: T,
    reply: Reply,
    asked: NapiCall,
    checked: CheckedCall<T>,
) -> bool {
    &&& asked == (NapiCall::TypeOf { env: call.env, value: call.callback })
    &&& is_function(reply) ==> checked.run_step(reply) == RunStep::Run(
        ThreadSafeCallContext { env: call.env, value, callback: call.callback },
        RunningCall { env: call.env },
    )
    &&& !is_function(reply) ==> checked.run_step(reply) is Fail
}

} // verus!
