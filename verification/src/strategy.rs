//! Execution strategies: where a unit of work runs, whether it pauses, and
//! what the request is answered once the execution context hands back what
//! became of the unit.

use vstd::prelude::*;
use vstd::string::StringExecFns;
use crate::decimal::{decimal_text, render_decimal};
use crate::error::{error_message, error_source_text, ServerError, ServerErrorView};
use crate::work::{
    inner, inner_withoutsleep, Delay, PhaseView, RowCounts, UnitOfWork, UnitView,
};

verus! {

/// The status of every answer that is not a failure.
pub const SUCCESS_STATUS: u16 = 200;

/// Where a unit of work runs.
#[derive(Clone, Copy, Debug, PartialEq, Eq, Structural)]
pub enum Context {
    /// On the request's own context, which all requests share.
    Inline,
    /// As a task of its own on the shared context, which the request waits
    /// for. A failure of the task fails the request as an inline failure
    /// does.
    Task,
    /// On a worker of its own with its own scheduler, created for the
    /// request; the request waits until the worker has finished.
    Isolated,
}

/// What the body of an answer shows when nothing failed.
#[derive(Clone, Copy, Debug, PartialEq, Eq, Structural)]
pub enum Shows {
    /// The fixed text of the route.
    Text,
    /// The number of rows that each of the two reads returned.
    Counts,
}

/// How the failure of a unit that ran on an isolated worker is worded.
#[derive(Clone, Copy, Debug, PartialEq, Eq, Structural)]
pub enum Wording {
    /// By the message a client would be shown for it.
    Message,
    /// By the text its source renders for it.
    Source,
}

/// What a route does with a request.
#[derive(Clone, Copy, Debug, PartialEq, Eq)]
pub struct Plan {
    pub context: Context,
    pub delay: Delay,
    /// The name of the unit of work in the log.
    pub label: &'static str,
    /// The name of the isolated worker.
    pub worker: &'static str,
    /// The fixed text of the route's answer when nothing fails.
    pub success: &'static str,
    /// What the body of that answer shows.
    pub shows: Shows,
    pub wording: Wording,
}

/// The mathematical value of a [`Plan`].
pub struct PlanView {
    pub context: Context,
    pub delay: Delay,
    pub label: Seq<char>,
    pub worker: Seq<char>,
    pub success: Seq<char>,
    pub shows: Shows,
    pub wording: Wording,
}

impl View for Plan {
    type V = PlanView;

    open spec fn view(&self) -> PlanView {
        PlanView {
            context: self.context,
            delay: self.delay,
            label: self.label@,
            worker: self.worker@,
            success: self.success@,
            shows: self.shows,
            wording: self.wording,
        }
    }
}

/// What an execution context hands back for one request.
#[derive(Debug, PartialEq, Eq)]
pub enum Outcome {
    /// The isolated worker could not be created.
    SpawnFailed,
    /// The worker ended without a result.
    JoinFailed,
    /// The unit of work ran to its end.
    Finished(Result<RowCounts, ServerError>),
}

/// The mathematical value of an [`Outcome`].
pub enum OutcomeView {
    SpawnFailed,
    JoinFailed,
    Finished(Result<RowCounts, ServerErrorView>),
}

impl View for Outcome {
    type V = OutcomeView;

    open spec fn view(&self) -> OutcomeView {
        match self {
            Outcome::SpawnFailed => OutcomeView::SpawnFailed,
            Outcome::JoinFailed => OutcomeView::JoinFailed,
            Outcome::Finished(Ok(counts)) => OutcomeView::Finished(Ok(*counts)),
            Outcome::Finished(Err(error)) => OutcomeView::Finished(Err(error@)),
        }
    }
}

/// The answer to a request that did not fail.
#[derive(Clone, Debug, PartialEq, Eq)]
pub struct Reply {
    /// The fixed text of the route.
    pub text: &'static str,
    /// The rows that the unit of work counted; `None` where no unit ran.
    pub counts: Option<RowCounts>,
    /// What the body shows.
    pub shows: Shows,
}

/// The mathematical value of a [`Reply`].
pub struct ReplyView {
    pub text: Seq<char>,
    pub counts: Option<RowCounts>,
    pub shows: Shows,
}

impl View for Reply {
    type V = ReplyView;

    open spec fn view(&self) -> ReplyView {
        ReplyView { text: self.text@, counts: self.counts, shows: self.shows }
    }
}

/// The two counts as a body shows them.
pub open spec fn counts_text(counts: RowCounts) -> Seq<char> {
    "id<=2 is "@ + decimal_text(counts.le2 as nat) + ", id>2 is "@ + decimal_text(
        counts.gt2 as nat,
    )
}

/// The body of an answer: the two counts where the answer shows counts and
/// has them, the fixed text otherwise.
pub open spec fn reply_body(reply: ReplyView) -> Seq<char> {
    match (reply.shows, reply.counts) {
        (Shows::Counts, Some(counts)) => counts_text(counts),
        _ => reply.text,
    }
}

/// The mathematical value of what a request is answered.
pub open spec fn answer_view(answer: Result<Reply, ServerError>) -> Result<
    ReplyView,
    ServerErrorView,
> {
    match answer {
        Ok(reply) => Ok(reply@),
        Err(error) => Err(error@),
    }
}

/// The description of a unit's failure in the given wording.
pub open spec fn worded(wording: Wording, error: ServerErrorView) -> Seq<char> {
    match wording {
        Wording::Message => error_message(error),
        Wording::Source => error_source_text(error),
    }
}

/// What a request is answered, given the plan of its route and what its
/// execution context handed back.
///
/// A unit that completed gives the plan's fixed text together with its
/// counts. Every failure fails the request. A worker or task that could not
/// be created, one that ended without a result, and a failure inside the
/// unit are three failures with three texts. The failure of a unit that ran
/// inline or as a task is passed on as it is; that of a unit on an isolated
/// worker is passed on by its description.
pub open spec fn conclusion(plan: PlanView, outcome: OutcomeView) -> Result<
    ReplyView,
    ServerErrorView,
> {
    match outcome {
        OutcomeView::SpawnFailed => Err(ServerErrorView::Str("thread spawn error"@)),
        OutcomeView::JoinFailed => Err(ServerErrorView::Str("thread join error"@)),
        OutcomeView::Finished(Ok(counts)) => Ok(
            ReplyView { text: plan.success, counts: Some(counts), shows: plan.shows },
        ),
        OutcomeView::Finished(Err(error)) => match plan.context {
            Context::Isolated => Err(ServerErrorView::String(worded(plan.wording, error))),
            _ => Err(error),
        },
    }
}

impl Reply {
    /// Every answer that is not a failure has the same status.
    pub fn status_code(&self) -> (status: u16)
        ensures
            status == SUCCESS_STATUS,
    {
        SUCCESS_STATUS
    }

    /// The body of the answer.
    pub fn body(&self) -> (body: String)
        ensures
            body@ == reply_body(self@),
    {
        match (self.shows, self.counts) {
            (Shows::Counts, Some(counts)) => {
                let mut body = String::from_str("id<=2 is ");
                let le2 = render_decimal(counts.le2);
                body.append(le2.as_str());
                body.append(", id>2 is ");
                let gt2 = render_decimal(counts.gt2);
                body.append(gt2.as_str());
                body
            },
            _ => self.text.to_owned(),
        }
    }
}

impl Plan {
    /// The unit of work that a request of this plan runs, not yet picked up.
    pub fn unit(&self) -> (unit: UnitOfWork)
        ensures
            unit@ == (UnitView {
                label: self@.label,
                delay: self@.delay,
                phase: PhaseView::Dispatched,
            }),
    {
        match self.delay {
            Delay::FixedDelay => inner(self.label),
            Delay::NoDelay => inner_withoutsleep(self.label),
        }
    }

    /// Turns what the execution context handed back into the answer to the
    /// request.
    pub fn conclude(&self, outcome: Outcome) -> (answer: Result<Reply, ServerError>)
        ensures
            answer_view(answer) == conclusion(self@, outcome@),
    {
        match outcome {
            Outcome::SpawnFailed => Err(ServerError::Str("thread spawn error")),
            Outcome::JoinFailed => Err(ServerError::Str("thread join error")),
            Outcome::Finished(Ok(counts)) => Ok(
                Reply { text: self.success, counts: Some(counts), shows: self.shows },
            ),
            Outcome::Finished(Err(error)) => match self.context {
                Context::Isolated => {
                    let text = match self.wording {
                        Wording::Message => error.message(),
                        Wording::Source => error.source_text(),
                    };
                    Err(ServerError::String(text))
                },
                _ => Err(error),
            },
        }
    }
}

} // verus!
