//! The routes of the service. Each one but the liveness route runs one unit
//! of work under one execution strategy and answers with a fixed text.
//! Every route is served for `GET` and reads no request body.

use vstd::prelude::*;
use crate::error::{error_message, worded_by_driver, DbFaultView, ServerError, ServerErrorView};
use crate::lifecycle::{clean_events, lemma_clean_run_reports_counts};
use crate::pool::{fleet_step, lemma_no_wait_within_capacity, pool_allows, within_capacity};
use crate::strategy::{
    answer_view, conclusion, Context, Outcome, OutcomeView, Plan, PlanView, Reply, ReplyView,
    Shows, Wording,
};
use crate::work::{
    holds_connection, phase_result, run, Delay, EventView, PhaseView, Row, RowCounts, UnitView,
};

verus! {

/// The routes.
#[derive(Clone, Copy, Debug, PartialEq, Eq, Structural)]
pub enum Route {
    Test,
    Nostuck,
    Stuck,
    Nostuck2,
    Stuck2,
    Nostuck3,
    Nostuck4,
}

/// The path of a route.
pub open spec fn route_path(route: Route) -> Seq<char> {
    match route {
        Route::Test => "/test"@,
        Route::Nostuck => "/nostuck"@,
        Route::Stuck => "/stuck"@,
        Route::Nostuck2 => "/nostuck2"@,
        Route::Stuck2 => "/stuck2"@,
        Route::Nostuck3 => "/nostuck3"@,
        Route::Nostuck4 => "/nostuck4"@,
    }
}

/// The execution context of a route; the liveness route has none.
pub open spec fn route_context(route: Route) -> Option<Context> {
    match route {
        Route::Test => None,
        Route::Nostuck => Some(Context::Inline),
        Route::Stuck => Some(Context::Isolated),
        Route::Nostuck2 => Some(Context::Task),
        Route::Stuck2 => Some(Context::Isolated),
        Route::Nostuck3 => Some(Context::Isolated),
        Route::Nostuck4 => Some(Context::Isolated),
    }
}

/// Whether the unit of work of a route pauses after its commit.
pub open spec fn route_delay(route: Route) -> Delay {
    match route {
        Route::Stuck => Delay::FixedDelay,
        Route::Nostuck3 => Delay::FixedDelay,
        Route::Nostuck4 => Delay::FixedDelay,
        _ => Delay::NoDelay,
    }
}

/// The name a route goes by in the log.
pub open spec fn route_label(route: Route) -> Seq<char> {
    match route {
        Route::Test => "test"@,
        Route::Nostuck => "nostuck"@,
        Route::Stuck => "stuck"@,
        Route::Nostuck2 => "nostuck2"@,
        Route::Stuck2 => "stuck2"@,
        Route::Nostuck3 => "nostuck3"@,
        Route::Nostuck4 => "nostuck4"@,
    }
}

/// The text a route answers with when nothing fails.
pub open spec fn route_success(route: Route) -> Seq<char> {
    match route {
        Route::Test => "actix_web is ok"@,
        Route::Nostuck => "nostuck"@,
        Route::Stuck => "stuck"@,
        Route::Nostuck2 => "nostuck2"@,
        Route::Stuck2 => "stuck2"@,
        Route::Nostuck3 => "stuck2"@,
        Route::Nostuck4 => "stuck"@,
    }
}

/// What the body of a route's answer shows when nothing fails.
pub open spec fn route_shows(route: Route) -> Shows {
    match route {
        Route::Nostuck => Shows::Counts,
        Route::Stuck => Shows::Counts,
        _ => Shows::Text,
    }
}

/// How a route words the failure of its isolated worker's unit.
pub open spec fn route_wording(route: Route) -> Wording {
    match route {
        Route::Stuck => Wording::Source,
        Route::Nostuck4 => Wording::Source,
        _ => Wording::Message,
    }
}

/// The plan of a route; the liveness route has none.
pub open spec fn route_plan(route: Route) -> Option<PlanView> {
    match route_context(route) {
        None => None,
        Some(context) => Some(
            PlanView {
                context,
                delay: route_delay(route),
                label: route_label(route),
                worker: "stuck"@,
                success: route_success(route),
                shows: route_shows(route),
                wording: route_wording(route),
            },
        ),
    }
}

/// What the liveness route answers.
pub open spec fn liveness_reply() -> ReplyView {
    ReplyView { text: route_success(Route::Test), counts: None, shows: Shows::Text }
}

/// What a route answers, given what its execution context handed back. The
/// liveness route runs nothing and answers the same whatever it is handed.
pub open spec fn route_answer(route: Route, outcome: OutcomeView) -> Result<
    ReplyView,
    ServerErrorView,
> {
    match route_plan(route) {
        None => Ok(liveness_reply()),
        Some(plan) => conclusion(plan, outcome),
    }
}

impl Route {
    /// The path under which the route is served.
    pub fn path(self) -> (path: &'static str)
        ensures
            path@ == route_path(self),
    {
        match self {
            Route::Test => "/test",
            Route::Nostuck => "/nostuck",
            Route::Stuck => "/stuck",
            Route::Nostuck2 => "/nostuck2",
            Route::Stuck2 => "/stuck2",
            Route::Nostuck3 => "/nostuck3",
            Route::Nostuck4 => "/nostuck4",
        }
    }

    /// What the route does with a request: `None` for the liveness route,
    /// which runs nothing.
    pub fn plan(self) -> (plan: Option<Plan>)
        ensures
            plan is Some <==> self != Route::Test,
            match plan {
                Some(p) => route_plan(self) == Some(p@),
                None => route_plan(self) is None,
            },
    {
        let worker = "stuck";
        match self {
            Route::Test => None,
            Route::Nostuck => Some(
                Plan {
                    context: Context::Inline,
                    delay: Delay::NoDelay,
                    label: "nostuck",
                    worker,
                    success: "nostuck",
                    shows: Shows::Counts,
                    wording: Wording::Message,
                },
            ),
            Route::Stuck => Some(
                Plan {
                    context: Context::Isolated,
                    delay: Delay::FixedDelay,
                    label: "stuck",
                    worker,
                    success: "stuck",
                    shows: Shows::Counts,
                    wording: Wording::Source,
                },
            ),
            Route::Nostuck2 => Some(
                Plan {
                    context: Context::Task,
                    delay: Delay::NoDelay,
                    label: "nostuck2",
                    worker,
                    success: "nostuck2",
                    shows: Shows::Text,
                    wording: Wording::Message,
                },
            ),
            Route::Stuck2 => Some(
                Plan {
                    context: Context::Isolated,
                    delay: Delay::NoDelay,
                    label: "stuck2",
                    worker,
                    success: "stuck2",
                    shows: Shows::Text,
                    wording: Wording::Message,
                },
            ),
            Route::Nostuck3 => Some(
                Plan {
                    context: Context::Isolated,
                    delay: Delay::FixedDelay,
                    label: "nostuck3",
                    worker,
                    success: "stuck2",
                    shows: Shows::Text,
                    wording: Wording::Message,
                },
            ),
            Route::Nostuck4 => Some(
                Plan {
                    context: Context::Isolated,
                    delay: Delay::FixedDelay,
                    label: "nostuck4",
                    worker,
                    success: "stuck",
                    shows: Shows::Text,
                    wording: Wording::Source,
                },
            ),
        }
    }

    /// The answer to a request of this route, given what its execution
    /// context handed back.
    pub fn respond(self, outcome: Outcome) -> (answer: Result<Reply, ServerError>)
        ensures
            answer_view(answer) == route_answer(self, outcome@),
    {
        match self.plan() {
            None => test(),
            Some(plan) => plan.conclude(outcome),
        }
    }
}

/// The liveness route: always the same text, never a failure, and nothing of
/// the database is touched.
pub fn test() -> (answer: Result<Reply, ServerError>)
    ensures
        answer_view(answer) == Ok::<ReplyView, ServerErrorView>(liveness_reply()),
{
    Ok(Reply { text: "actix_web is ok", counts: None, shows: Shows::Text })
}

/// `/nostuck`: the unit runs inline and does not pause; the body of the
/// answer shows the counts.
pub fn nostuck(outcome: Outcome) -> (answer: Result<Reply, ServerError>)
    ensures
        answer_view(answer) == route_answer(Route::Nostuck, outcome@),
{
    Route::Nostuck.respond(outcome)
}

/// `/stuck`: the unit runs on an isolated worker and pauses after its
/// commit; the body of the answer shows the counts.
pub fn stuck(outcome: Outcome) -> (answer: Result<Reply, ServerError>)
    ensures
        answer_view(answer) == route_answer(Route::Stuck, outcome@),
{
    Route::Stuck.respond(outcome)
}

/// `/nostuck2`: the unit runs as a task of its own on the shared context and
/// does not pause; a failure of the task fails the request.
pub fn nostuck2(outcome: Outcome) -> (answer: Result<Reply, ServerError>)
    ensures
        answer_view(answer) == route_answer(Route::Nostuck2, outcome@),
{
    Route::Nostuck2.respond(outcome)
}

/// `/stuck2`: the unit runs on an isolated worker and does not pause.
pub fn stuck2(outcome: Outcome) -> (answer: Result<Reply, ServerError>)
    ensures
        answer_view(answer) == route_answer(Route::Stuck2, outcome@),
{
    Route::Stuck2.respond(outcome)
}

/// `/nostuck3`: the unit runs on an isolated worker and pauses after its
/// commit.
pub fn nostuck3(outcome: Outcome) -> (answer: Result<Reply, ServerError>)
    ensures
        answer_view(answer) == route_answer(Route::Nostuck3, outcome@),
{
    Route::Nostuck3.respond(outcome)
}

/// `/nostuck4`: the unit runs on an isolated worker and pauses after its
/// commit; a failure of the unit is worded as its source renders it.
pub fn nostuck4(outcome: Outcome) -> (answer: Result<Reply, ServerError>)
    ensures
        answer_view(answer) == route_answer(Route::Nostuck4, outcome@),
{
    Route::Nostuck4.respond(outcome)
}

/// Every route that runs a unit of work answers a unit that nothing failed
/// with its fixed text and with exactly the number of rows that each of the
/// two reads returned.
pub proof fn lemma_successful_routes_report_counts(route: Route, le2: Seq<Row>, gt2: Seq<Row>)
    requires
        route != Route::Test,
        le2.len() <= usize::MAX,
        gt2.len() <= usize::MAX,
    ensures
        route_plan(route) is Some,
        phase_result(
            run(
                PhaseView::Dispatched,
                route_delay(route),
                clean_events(route_delay(route), le2, gt2),
            ),
        ) == Some(
            Ok::<RowCounts, ServerErrorView>(
                RowCounts { le2: le2.len() as usize, gt2: gt2.len() as usize },
            ),
        ),
        route_answer(
            route,
            OutcomeView::Finished(
                Ok(RowCounts { le2: le2.len() as usize, gt2: gt2.len() as usize }),
            ),
        ) == Ok::<ReplyView, ServerErrorView>(
            ReplyView {
                text: route_success(route),
                counts: Some(RowCounts { le2: le2.len() as usize, gt2: gt2.len() as usize }),
                shows: route_shows(route),
            },
        ),
{
    lemma_clean_run_reports_counts(route_delay(route), le2, gt2);
}

/// While no more requests are in flight than the pool has connections, a
/// request to any route that runs a unit of work is granted its connection
/// without waiting; and with the database answering every operation, its unit
/// completes and the request is answered, without a failure, with the fixed
/// text of its route and the exact number of rows of each read.
pub proof fn lemma_load_within_capacity_completes(
    route: Route,
    fleet: Seq<UnitView>,
    max_connections: nat,
    who: int,
    le2: Seq<Row>,
    gt2: Seq<Row>,
)
    requires
        route != Route::Test,
        0 <= who < fleet.len(),
        fleet.len() <= max_connections,
        fleet[who].phase is Acquiring,
        le2.len() <= usize::MAX,
        gt2.len() <= usize::MAX,
    ensures
        pool_allows(fleet, max_connections, who, EventView::Acquired),
        holds_connection(fleet_step(fleet, who, EventView::Acquired)[who].phase),
        within_capacity(fleet_step(fleet, who, EventView::Acquired), max_connections),
        run(
            PhaseView::Dispatched,
            route_delay(route),
            clean_events(route_delay(route), le2, gt2),
        ) == (PhaseView::Completed {
            counts: RowCounts { le2: le2.len() as usize, gt2: gt2.len() as usize },
        }),
        route_answer(
            route,
            OutcomeView::Finished(
                Ok(RowCounts { le2: le2.len() as usize, gt2: gt2.len() as usize }),
            ),
        ) == Ok::<ReplyView, ServerErrorView>(
            ReplyView {
                text: route_success(route),
                counts: Some(RowCounts { le2: le2.len() as usize, gt2: gt2.len() as usize }),
                shows: route_shows(route),
            },
        ),
{
    lemma_no_wait_within_capacity(fleet, max_connections, who);
    lemma_clean_run_reports_counts(route_delay(route), le2, gt2);
}

/// The liveness route answers the same whatever it is handed, so any two
/// requests to it are answered alike.
pub proof fn lemma_liveness_is_constant(first: OutcomeView, second: OutcomeView)
    ensures
        route_answer(Route::Test, first) == route_answer(Route::Test, second),
        route_answer(Route::Test, first) == Ok::<ReplyView, ServerErrorView>(liveness_reply()),
{
}

/// On every route that runs a unit of work, whatever fails fails the
/// request: a worker or task that could not be created, one that ended
/// without a result, and a unit that failed are all answered with a failure.
pub proof fn lemma_every_failure_fails_the_request(route: Route, outcome: OutcomeView)
    requires
        route != Route::Test,
        !(outcome matches OutcomeView::Finished(Ok(_))),
    ensures
        route_answer(route, outcome) is Err,
        route_context(route) != Some(Context::Isolated) ==> (outcome matches OutcomeView::Finished(
            Err(error),
        ) ==> route_answer(route, outcome) == Err::<ReplyView, ServerErrorView>(error)),
{
}

/// On every route that runs a unit of work, a unit that could not get a
/// connection before the connect timeout fails the request with the driver's
/// sentence as its message, which is not empty.
pub proof fn lemma_timeout_fails_with_a_message(route: Route, fault: DbFaultView)
    requires
        route != Route::Test,
        fault.kind is PoolTimedOut,
        worded_by_driver(fault),
    ensures
        route_answer(route, OutcomeView::Finished(Err(ServerErrorView::DB(fault)))) is Err,
        error_message(
            route_answer(route, OutcomeView::Finished(Err(ServerErrorView::DB(fault))))->Err_0,
        ) == "pool timed out while waiting for an open connection"@,
        error_message(
            route_answer(route, OutcomeView::Finished(Err(ServerErrorView::DB(fault))))->Err_0,
        ).len() > 0,
{
    reveal_strlit("pool timed out while waiting for an open connection");
}

/// A worker that could not be created, a worker that ended without a result
/// and a failure inside the unit are told apart by their text: the first two
/// have fixed texts that differ, and the third carries the unit's own
/// description.
pub proof fn lemma_failures_are_told_apart(route: Route, error: ServerErrorView)
    requires
        route_context(route) == Some(Context::Isolated),
    ensures
        route_answer(route, OutcomeView::SpawnFailed) == Err::<ReplyView, ServerErrorView>(
            ServerErrorView::Str("thread spawn error"@),
        ),
        route_answer(route, OutcomeView::JoinFailed) == Err::<ReplyView, ServerErrorView>(
            ServerErrorView::Str("thread join error"@),
        ),
        route_answer(route, OutcomeView::Finished(Err(error))) == Err::<
            ReplyView,
            ServerErrorView,
        >(ServerErrorView::String(crate::strategy::worded(route_wording(route), error))),
        "thread spawn error"@ != "thread join error"@,
{
    reveal_strlit("thread spawn error");
    reveal_strlit("thread join error");
    assert("thread spawn error"@.len() == 18);
    assert("thread join error"@.len() == 17);
}

} // verus!
