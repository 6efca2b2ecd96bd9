//! How a failed JavaScript call is raised in the environment that it was made in.

use vstd::prelude::*;

use crate::node::{NapiCall, NapiCallView, Reply};
use crate::status::{status_name, status_of, NAPI_OK, NAPI_PENDING_EXCEPTION};

verus! {

/// A report under way, by the call into Node-API that it waits for.
#[derive(Clone, Copy, Debug, PartialEq, Eq, Structural)]
pub enum Report {
    /// The pending exception is being taken out of the environment.
    TakingException { env: usize },
    /// That exception is being raised.
    RaisingException,
    /// The name of the status is being made into a JavaScript string.
    NamingStatus { env: usize },
    /// The message is being made into a JavaScript string; `code` is the name of the status.
    WritingMessage { env: usize, code: usize },
    /// Both strings are being made into a JavaScript error.
    BuildingError { env: usize },
    /// That error is being raised.
    RaisingError,
}

/// What a report does next.
#[derive(Debug)]
pub enum ReportStep {
    /// Nothing is left to do.
    Done,
    /// Make the call, then go on with [`Report::resume`].
    Ask(NapiCall, Report),
    /// Node-API gave back a code that no report can go on from; the process must not.
    Fail(i32),
}

/// A [`ReportStep`] with its call as a view.
pub enum ReportStepView {
    Done,
    Ask(NapiCallView, Report),
    Fail(i32),
}

impl View for ReportStep {
    type V = ReportStepView;

    open spec fn view(&self) -> ReportStepView {
        match *self {
            ReportStep::Done => ReportStepView::Done,
            ReportStep::Ask(call, report) => ReportStepView::Ask(call@, report),
            ReportStep::Fail(status) => ReportStepView::Fail(status),
        }
    }
}

/// The message of the error that is raised for a call that failed without an exception.
pub open spec fn failure_message() -> Seq<char> {
    "Call JavaScript callback failed in thread safe function"@
}

/// How the report of `status` starts: a success needs none, a pending exception is taken and
/// raised as it is, and for any other status an error is made that carries its name.
pub open spec fn report_start(env: usize, status: i32) -> ReportStepView {
    if status == NAPI_OK {
        ReportStepView::Done
    } else if status == NAPI_PENDING_EXCEPTION {
        ReportStepView::Ask(
            NapiCallView::GetAndClearLastException { env },
            Report::TakingException { env },
        )
    } else {
        ReportStepView::Ask(
            NapiCallView::CreateString { env, text: status_of(status).name() },
            Report::NamingStatus { env },
        )
    }
}

impl Report {
    /// Whether the report can go on from `status`. Raising an exception while the environment
    /// shuts down may leave another one pending, which is put up with.
    pub open spec fn accepts(self, status: i32) -> bool {
        status == NAPI_OK || (self is RaisingException && status == NAPI_PENDING_EXCEPTION)
    }

    /// What follows a reply that is accepted.
    pub open spec fn follow(self, value: usize) -> ReportStepView {
        match self {
            Report::TakingException { env } => ReportStepView::Ask(
                NapiCallView::FatalException { env, error: value },
                Report::RaisingException,
            ),
            Report::NamingStatus { env } => ReportStepView::Ask(
                NapiCallView::CreateString { env, text: failure_message() },
                Report::WritingMessage { env, code: value },
            ),
            Report::WritingMessage { env, code } => ReportStepView::Ask(
                NapiCallView::CreateError { env, code, msg: value },
                Report::BuildingError { env },
            ),
            Report::BuildingError { env } => ReportStepView::Ask(
                NapiCallView::FatalException { env, error: value },
                Report::RaisingError,
            ),
            Report::RaisingException => ReportStepView::Done,
            Report::RaisingError => ReportStepView::Done,
        }
    }

    /// What follows any reply.
    pub open spec fn next(self, reply: Reply) -> ReportStepView {
        if self.accepts(reply.status) {
            self.follow(reply.value)
        } else {
            ReportStepView::Fail(reply.status)
        }
    }

    /// Goes on with the report once the call it waited for came back.
    pub fn resume(self, reply: Reply) -> (step: ReportStep)
        ensures
            step@ == self.next(reply),
            step is Fail <==> reply.status != NAPI_OK && !(self is RaisingException && reply.status
                == NAPI_PENDING_EXCEPTION),
            step matches ReportStep::Fail(status) ==> status == reply.status,
            self is RaisingException || self is RaisingError ==> !(step is Ask),
            reply.status == NAPI_OK ==> match self {
                Report::TakingException { env } => step == ReportStep::Ask(
                    NapiCall::FatalException { env, error: reply.value },
                    Report::RaisingException,
                ),
                Report::NamingStatus { env } => step matches ReportStep::Ask(call, report) && {
                    &&& call@ == (NapiCallView::CreateString {
                        env,
                        text: "Call JavaScript callback failed in thread safe function"@,
                    })
                    &&& report == (Report::WritingMessage { env, code: reply.value })
                },
                Report::WritingMessage { env, code } => step == ReportStep::Ask(
                    NapiCall::CreateError { env, code, msg: reply.value },
                    Report::BuildingError { env },
                ),
                Report::BuildingError { env } => step == ReportStep::Ask(
                    NapiCall::FatalException { env, error: reply.value },
                    Report::RaisingError,
                ),
                _ => step is Done,
            },
    {
        match self {
            Report::RaisingException => {
                if reply.status == NAPI_OK || reply.status == NAPI_PENDING_EXCEPTION {
                    return ReportStep::Done;
                }
            },
            _ => {},
        }
        if reply.status != NAPI_OK {
            return ReportStep::Fail(reply.status);
        }
        match self {
            Report::TakingException { env } => ReportStep::Ask(
                NapiCall::FatalException { env, error: reply.value },
                Report::RaisingException,
            ),
            Report::NamingStatus { env } => ReportStep::Ask(
                NapiCall::CreateString {
                    env,
                    text: "Call JavaScript callback failed in thread safe function".to_owned(),
                },
                Report::WritingMessage { env, code: reply.value },
            ),
            Report::WritingMessage { env, code } => ReportStep::Ask(
                NapiCall::CreateError { env, code, msg: reply.value },
                Report::BuildingError { env },
            ),
            Report::BuildingError { env } => ReportStep::Ask(
                NapiCall::FatalException { env, error: reply.value },
                Report::RaisingError,
            ),
            Report::RaisingException => ReportStep::Done,
            Report::RaisingError => ReportStep::Done,
        }
    }
}

/// Starts the report of the status that a JavaScript call ended with.
pub fn report_status(env: usize, status: i32) -> (step: ReportStep)
    ensures
        step@ == report_start(env, status),
        step is Done <==> status == NAPI_OK,
        !(step is Fail),
        step matches ReportStep::Ask(call, report) ==> if status == NAPI_PENDING_EXCEPTION {
            &&& call == (NapiCall::GetAndClearLastException { env })
            &&& report == (Report::TakingException { env })
        } else {
            &&& call@ == (NapiCallView::CreateString { env, text: status_of(status).name() })
            &&& report == (Report::NamingStatus { env })
        },
{
    if status == NAPI_OK {
        ReportStep::Done
    } else if status == NAPI_PENDING_EXCEPTION {
        ReportStep::Ask(
            NapiCall::GetAndClearLastException { env },
            Report::TakingException { env },
        )
    } else {
        ReportStep::Ask(
            NapiCall::CreateString { env, text: status_name(status) },
            Report::NamingStatus { env },
        )
    }
}

/// The calls that a report makes from `step` on when Node-API gives back `replies` in turn,
/// and the step that it stands at when it has ended or the replies have run out.
pub open spec fn report_run(step: ReportStepView, replies: Seq<Reply>) -> (
    Seq<NapiCallView>,
    ReportStepView,
)
    decreases replies.len(),
{
    match step {
        ReportStepView::Ask(call, report) if replies.len() > 0 => {
            let (calls, end) = report_run(report.next(replies[0]), replies.drop_first());
            (seq![call] + calls, end)
        },
        _ => (Seq::empty(), step),
    }
}

/// How many calls a report can still make, the one it waits for included.
pub open spec fn calls_left(step: ReportStepView) -> nat {
    match step {
        ReportStepView::Ask(_, Report::TakingException { .. }) => 2,
        ReportStepView::Ask(_, Report::RaisingException) => 1,
        ReportStepView::Ask(_, Report::NamingStatus { .. }) => 4,
        ReportStepView::Ask(_, Report::WritingMessage { .. }) => 3,
        ReportStepView::Ask(_, Report::BuildingError { .. }) => 2,
        ReportStepView::Ask(_, Report::RaisingError) => 1,
        _ => 0,
    }
}

proof fn lemma_run_ends(step: ReportStepView, replies: Seq<Reply>)
    requires
        replies.len() >= calls_left(step),
    ensures
        !(report_run(step, replies).1 is Ask),
        report_run(step, replies).0.len() <= calls_left(step),
    decreases replies.len(),
{
    match step {
        ReportStepView::Ask(call, report) => {
            lemma_run_ends(report.next(replies[0]), replies.drop_first());
        },
        _ => {},
    }
}

/// Every report ends after four calls at the most, whatever Node-API gives back.
pub proof fn law_report_ends(env: usize, status: i32, replies: Seq<Reply>)
    requires
        replies.len() >= 4,
    ensures
        !(report_run(report_start(env, status), replies).1 is Ask),
        report_run(report_start(env, status), replies).0.len() <= 4,
{
    lemma_run_ends(report_start(env, status), replies);
}

/// A pending exception that can be taken out is raised as it is, and nothing else is called.
/// The report then ends well when raising it succeeds or leaves another exception pending.
pub proof fn law_pending_exception_is_raised(env: usize, taken: Reply, raised: Reply)
    requires
        taken.status == NAPI_OK,
    ensures
        report_run(report_start(env, NAPI_PENDING_EXCEPTION), seq![taken, raised]) == (
            seq![
                NapiCallView::GetAndClearLastException { env },
                NapiCallView::FatalException { env, error: taken.value },
            ],
            if raised.status == NAPI_OK || raised.status == NAPI_PENDING_EXCEPTION {
                ReportStepView::Done
            } else {
                ReportStepView::Fail(raised.status)
            },
        ),
{
    reveal_with_fuel(report_run, 3);
    let replies = seq![taken, raised];
    assert(replies.drop_first() =~= seq![raised]);
    assert(seq![raised].drop_first() =~= Seq::<Reply>::empty());
    assert(report_run(report_start(env, NAPI_PENDING_EXCEPTION), replies).0 =~= seq![
        NapiCallView::GetAndClearLastException { env },
        NapiCallView::FatalException { env, error: taken.value },
    ]);
}

/// Any other failure raises one error, whose code is the name of the status and whose message
/// is always the same, when Node-API grants each call.
pub proof fn law_failure_is_raised(env: usize, status: i32, replies: Seq<Reply>)
    requires
        status != NAPI_OK,
        status != NAPI_PENDING_EXCEPTION,
        replies.len() == 4,
        forall|i: int| 0 <= i < 4 ==> (#[trigger] replies[i]).status == NAPI_OK,
    ensures
        report_run(report_start(env, status), replies) == (
            seq![
                NapiCallView::CreateString { env, text: status_of(status).name() },
                NapiCallView::CreateString {
                    env,
                    text: "Call JavaScript callback failed in thread safe function"@,
                },
                NapiCallView::CreateError { env, code: replies[0].value, msg: replies[1].value },
                NapiCallView::FatalException { env, error: replies[2].value },
            ],
            ReportStepView::Done,
        ),
{
    reveal_with_fuel(report_run, 5);
    let r1 = replies.drop_first();
    let r2 = r1.drop_first();
    let r3 = r2.drop_first();
    let r4 = r3.drop_first();
    assert(r1[0] == replies[1] && r2[0] == replies[2] && r3[0] == replies[3] && r4.len() == 0);
    assert(report_run(report_start(env, status), replies).0 =~= seq![
        NapiCallView::CreateString { env, text: status_of(status).name() },
        NapiCallView::CreateString {
            env,
            text: "Call JavaScript callback failed in thread safe function"@,
        },
        NapiCallView::CreateError { env, code: replies[0].value, msg: replies[1].value },
        NapiCallView::FatalException { env, error: replies[2].value },
    ]);
}

/// The view of a step is the same step.
pub proof fn law_view_is_the_step(call: NapiCall, report: Report, status: i32)
    ensures
        ReportStep::Done@ == ReportStepView::Done,
        ReportStep::Ask(call, report)@ == ReportStepView::Ask(call@, report),
        ReportStep::Fail(status)@ == ReportStepView::Fail(status),
{
}

/// A success is not reported: no call is made for it.
pub proof fn law_success_is_not_reported(env: usize, replies: Seq<Reply>)
    ensures
        report_run(report_start(env, NAPI_OK), replies) == (
            Seq::<NapiCallView>::empty(),
            ReportStepView::Done,
        ),
{
}

/// A pending exception that cannot be taken out ends its report, with the code that came back.
pub proof fn law_exception_that_cannot_be_taken(env: usize, taken: Reply)
    requires
        taken.status != NAPI_OK,
    ensures
        report_run(report_start(env, NAPI_PENDING_EXCEPTION), seq![taken]) == (
            seq![NapiCallView::GetAndClearLastException { env }],
            ReportStepView::Fail(taken.status),
        ),
{
    reveal_with_fuel(report_run, 2);
    assert(seq![NapiCallView::GetAndClearLastException { env }] + Seq::<NapiCallView>::empty()
        =~= seq![NapiCallView::GetAndClearLastException { env }]);
}

/// The report of any other failure stops at the first call that Node-API does not grant, be it
/// for a pending exception or for another reason: the calls up to it are made, those after it
/// are not, and the code is what the report fails with.
pub proof fn law_failed_report_stops(env: usize, status: i32, replies: Seq<Reply>, refused: int)
    requires
        status != NAPI_OK,
        status != NAPI_PENDING_EXCEPTION,
        replies.len() == 4,
        0 <= refused < 4,
        forall|i: int| 0 <= i < refused ==> (#[trigger] replies[i]).status == NAPI_OK,
        replies[refused].status != NAPI_OK,
    ensures
        report_run(report_start(env, status), replies) == (
            seq![
                NapiCallView::CreateString { env, text: status_of(status).name() },
                NapiCallView::CreateString {
                    env,
                    text: "Call JavaScript callback failed in thread safe function"@,
                },
                NapiCallView::CreateError { env, code: replies[0].value, msg: replies[1].value },
                NapiCallView::FatalException { env, error: replies[2].value },
            ].take(refused + 1),
            ReportStepView::Fail(replies[refused].status),
        ),
{
    reveal_with_fuel(report_run, 5);
    let r1 = replies.drop_first();
    let r2 = r1.drop_first();
    let r3 = r2.drop_first();
    let r4 = r3.drop_first();
    assert(r1[0] == replies[1] && r2[0] == replies[2] && r3[0] == replies[3] && r4.len() == 0);
    let all = seq![
        NapiCallView::CreateString { env, text: status_of(status).name() },
        NapiCallView::CreateString {
            env,
            text: "Call JavaScript callback failed in thread safe function"@,
        },
        NapiCallView::CreateError { env, code: replies[0].value, msg: replies[1].value },
        NapiCallView::FatalException { env, error: replies[2].value },
    ];
    let calls = report_run(report_start(env, status), replies).0;
    assert(refused == 0 || refused == 1 || refused == 2 || refused == 3);
    assert(calls =~= all.take(refused + 1));
}

/// Where a report waits for a call and the code that comes back is one it cannot go on from,
/// it fails with that very code and makes no call more.
pub proof fn law_refused_code_ends_the_report(
    call: NapiCallView,
    report: Report,
    replies: Seq<Reply>,
)
    requires
        replies.len() > 0,
        !report.accepts(replies[0].status),
    ensures
        report_run(ReportStepView::Ask(call, report), replies) == (
            seq![call],
            ReportStepView::Fail(replies[0].status),
        ),
{
    reveal_with_fuel(report_run, 2);
    assert(seq![call] + Seq::<NapiCallView>::empty() =~= seq![call]);
}

} // verus!
