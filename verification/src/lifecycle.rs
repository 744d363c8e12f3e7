//! What holds of every unit of work, whatever events reach it.

use vstd::prelude::*;
use crate::error::{DbFaultView, ServerErrorView};
use crate::work::{
    after_read, holds_connection, is_terminal, next_phase, occupies_context, pending_action,
    phase_result, run, Action, Delay, EventView, PhaseView, Query, Row, RowCounts,
};

verus! {

/// How far a unit has come. Both terminal phases are the end of the way.
pub open spec fn phase_rank(phase: PhaseView) -> nat {
    match phase {
        PhaseView::Dispatched => 0,
        PhaseView::Acquiring => 1,
        PhaseView::InTransaction { first: None } => 2,
        PhaseView::InTransaction { first: Some(_) } => 3,
        PhaseView::Committed { .. } => 4,
        PhaseView::Delaying { .. } => 5,
        PhaseView::Completed { .. } => 6,
        PhaseView::Failed { .. } => 6,
    }
}

/// The events of a unit for which nothing fails: it is picked up, granted a
/// connection, answered by both reads and by the commit, and, where it
/// pauses, woken again.
pub open spec fn clean_events(delay: Delay, le2: Seq<Row>, gt2: Seq<Row>) -> Seq<EventView> {
    let upto_commit = seq![
        EventView::Begun,
        EventView::Acquired,
        EventView::Rows(le2),
        EventView::Rows(gt2),
        EventView::Committed,
    ];
    match delay {
        Delay::NoDelay => upto_commit,
        Delay::FixedDelay => upto_commit.push(EventView::Elapsed),
    }
}

/// A terminal unit stays as it is, whatever events follow.
pub proof fn lemma_terminal_is_final(phase: PhaseView, delay: Delay, events: Seq<EventView>)
    requires
        is_terminal(phase),
    ensures
        run(phase, delay, events) == phase,
    decreases events.len(),
{
    if events.len() > 0 {
        lemma_terminal_is_final(phase, delay, events.skip(1));
    }
}

/// A unit that nothing fails completes, with or without a pause, and reports
/// exactly the number of rows that each read returned.
pub proof fn lemma_clean_run_reports_counts(delay: Delay, le2: Seq<Row>, gt2: Seq<Row>)
    requires
        le2.len() <= usize::MAX,
        gt2.len() <= usize::MAX,
    ensures
        run(PhaseView::Dispatched, delay, clean_events(delay, le2, gt2)) == (PhaseView::Completed {
            counts: RowCounts { le2: le2.len() as usize, gt2: gt2.len() as usize },
        }),
        phase_result(run(PhaseView::Dispatched, delay, clean_events(delay, le2, gt2))) == Some(
            Ok::<RowCounts, ServerErrorView>(
                RowCounts { le2: le2.len() as usize, gt2: gt2.len() as usize },
            ),
        ),
{
    let events = clean_events(delay, le2, gt2);
    let counts = RowCounts { le2: le2.len() as usize, gt2: gt2.len() as usize };
    let acquiring = PhaseView::Acquiring;
    let first_read = PhaseView::InTransaction { first: None };
    let second_read = PhaseView::InTransaction { first: Some(le2.len() as usize) };
    let committing = PhaseView::Committed { counts };
    let after_begun = events.skip(1);
    let after_grant = after_begun.skip(1);
    let after_first = after_grant.skip(1);
    let after_second = after_first.skip(1);
    let after_commit = after_second.skip(1);
    assert(events[0] == EventView::Begun);
    assert(after_begun[0] == EventView::Acquired);
    assert(after_grant[0] == EventView::Rows(le2));
    assert(after_first[0] == EventView::Rows(gt2));
    assert(after_second[0] == EventView::Committed);
    assert(run(PhaseView::Dispatched, delay, events) == run(acquiring, delay, after_begun));
    assert(run(acquiring, delay, after_begun) == run(first_read, delay, after_grant));
    assert(run(first_read, delay, after_grant) == run(second_read, delay, after_first));
    assert(run(second_read, delay, after_first) == run(committing, delay, after_second));
    match delay {
        Delay::NoDelay => {
            assert(after_commit.len() == 0);
            assert(run(committing, delay, after_second) == run(
                PhaseView::Completed { counts },
                delay,
                after_commit,
            ));
        },
        Delay::FixedDelay => {
            assert(after_commit[0] == EventView::Elapsed);
            assert(after_commit.skip(1).len() == 0);
            assert(run(committing, delay, after_second) == run(
                PhaseView::Delaying { counts },
                delay,
                after_commit,
            ));
            assert(run(PhaseView::Delaying { counts }, delay, after_commit) == run(
                PhaseView::Completed { counts },
                delay,
                after_commit.skip(1),
            ));
        },
    }
}

/// A unit fails only while it acquires, reads or commits, only because the
/// pending database operation failed, and the failure it then carries is that
/// database failure. A read that found no row does not fail the unit.
pub proof fn lemma_failure_origin(phase: PhaseView, delay: Delay, event: EventView)
    requires
        !(phase is Failed),
        next_phase(phase, delay, event) is Failed,
    ensures
        phase is Acquiring || phase is InTransaction || phase is Committed,
        event is Failed,
        next_phase(phase, delay, event) == (PhaseView::Failed {
            error: ServerErrorView::DB(event->Failed_0),
        }),
        phase is InTransaction ==> !(event->Failed_0.kind is RowNotFound),
{
}

/// Any failure of the pending database operation fails a unit that acquires
/// or commits; it fails a unit that reads unless it says that no row was
/// found.
pub proof fn lemma_database_failure_fails(phase: PhaseView, delay: Delay, fault: DbFaultView)
    requires
        phase is Acquiring || phase is InTransaction || phase is Committed,
        phase is InTransaction ==> !(fault.kind is RowNotFound),
    ensures
        next_phase(phase, delay, EventView::Failed(fault)) == (PhaseView::Failed {
            error: ServerErrorView::DB(fault),
        }),
{
}

/// A read that reports that no row was found is a read of zero rows.
pub proof fn lemma_row_not_found_reads_as_empty(
    first: Option<usize>,
    delay: Delay,
    fault: DbFaultView,
)
    requires
        fault.kind is RowNotFound,
    ensures
        next_phase(PhaseView::InTransaction { first }, delay, EventView::Failed(fault))
            == next_phase(
            PhaseView::InTransaction { first },
            delay,
            EventView::Rows(Seq::<Row>::empty()),
        ),
        next_phase(PhaseView::InTransaction { first }, delay, EventView::Failed(fault))
            == after_read(first, 0),
{
}

/// A unit gains a connection only by a grant of the pool, and gives it back
/// on leaving the transaction: when the commit has answered, or when an
/// operation inside the transaction has failed. It never holds one while it
/// pauses or after it is terminal.
pub proof fn lemma_connection_span(phase: PhaseView, delay: Delay, event: EventView)
    ensures
        !holds_connection(phase) && holds_connection(next_phase(phase, delay, event)) ==> phase
            is Acquiring && event is Acquired,
        phase is Acquiring && event is Acquired ==> holds_connection(
            next_phase(phase, delay, event),
        ),
        holds_connection(phase) && !holds_connection(next_phase(phase, delay, event)) ==> (phase
            is Committed && event is Committed) || event is Failed,
        phase is Committed && (event is Committed || event is Failed) ==> !holds_connection(
            next_phase(phase, delay, event),
        ),
        next_phase(phase, delay, event) is Delaying || is_terminal(next_phase(phase, delay, event))
            ==> !holds_connection(next_phase(phase, delay, event)),
{
}

/// A delayed unit gives its connection back when its commit has answered,
/// yet keeps its execution context busy until the pause is over.
pub proof fn lemma_release_at_commit_not_at_teardown(counts: RowCounts)
    ensures
        holds_connection(PhaseView::Committed { counts }),
        next_phase(PhaseView::Committed { counts }, Delay::FixedDelay, EventView::Committed) == (
        PhaseView::Delaying { counts }),
        !holds_connection(PhaseView::Delaying { counts }),
        occupies_context(PhaseView::Delaying { counts }),
        pending_action(PhaseView::Delaying { counts }, Delay::FixedDelay) == Action::Sleep(
            crate::work::FIXED_DELAY_SECS,
        ),
        next_phase(PhaseView::Delaying { counts }, Delay::FixedDelay, EventView::Elapsed) == (
        PhaseView::Completed { counts }),
        !occupies_context(PhaseView::Completed { counts }),
{
}

/// A unit never goes back: every event leaves it where it is or moves it
/// forward, and it moves only when the event answers the pending action.
pub proof fn lemma_steps_move_forward(phase: PhaseView, delay: Delay, event: EventView)
    ensures
        phase_rank(phase) <= phase_rank(next_phase(phase, delay, event)),
        phase_rank(phase) == phase_rank(next_phase(phase, delay, event)) ==> next_phase(
            phase,
            delay,
            event,
        ) == phase,
{
}

/// Along any run of events a unit never goes back.
pub proof fn lemma_runs_move_forward(phase: PhaseView, delay: Delay, events: Seq<EventView>)
    ensures
        phase_rank(phase) <= phase_rank(run(phase, delay, events)),
    decreases events.len(),
{
    if events.len() > 0 {
        lemma_steps_move_forward(phase, delay, events[0]);
        lemma_runs_move_forward(next_phase(phase, delay, events[0]), delay, events.skip(1));
    }
}

/// A unit holds a connection at most once: after it has given its connection
/// back it never holds one again, whatever events follow.
pub proof fn lemma_connection_is_held_once(phase: PhaseView, delay: Delay, events: Seq<EventView>)
    requires
        phase is Delaying || is_terminal(phase),
    ensures
        !holds_connection(run(phase, delay, events)),
{
    lemma_runs_move_forward(phase, delay, events);
}

/// Within one unit the read of `id <= 2` strictly precedes the read of
/// `id > 2`: the second read becomes pending only when the first has
/// answered, and the first only when the connection was granted.
pub proof fn lemma_reads_in_order(phase: PhaseView, delay: Delay, event: EventView)
    requires
        next_phase(phase, delay, event) != phase,
    ensures
        pending_action(next_phase(phase, delay, event), delay) == Action::Run(Query::IdAboveTwo)
            ==> pending_action(phase, delay) == Action::Run(Query::IdAtMostTwo),
        pending_action(next_phase(phase, delay, event), delay) == Action::Run(Query::IdAtMostTwo)
            ==> pending_action(phase, delay) == Action::Acquire && event is Acquired,
        pending_action(next_phase(phase, delay, event), delay) == Action::Commit
            ==> pending_action(phase, delay) == Action::Run(Query::IdAboveTwo),
{
}

/// The counts a unit reports are fixed once both reads have answered: neither
/// the commit nor the pause changes them.
pub proof fn lemma_counts_are_kept(counts: RowCounts, delay: Delay, events: Seq<EventView>)
    ensures
        match run(PhaseView::Committed { counts }, delay, events) {
            PhaseView::Committed { counts: c } => c == counts,
            PhaseView::Delaying { counts: c } => c == counts,
            PhaseView::Completed { counts: c } => c == counts,
            PhaseView::Failed { .. } => true,
            _ => false,
        },
{
    lemma_counts_are_kept_from(PhaseView::Committed { counts }, counts, delay, events);
}

/// From the commit on, a unit keeps the counts it has.
proof fn lemma_counts_are_kept_from(
    phase: PhaseView,
    counts: RowCounts,
    delay: Delay,
    events: Seq<EventView>,
)
    requires
        phase == (PhaseView::Committed { counts }) || phase == (PhaseView::Delaying { counts })
            || phase == (PhaseView::Completed { counts }) || phase is Failed,
    ensures
        match run(phase, delay, events) {
            PhaseView::Committed { counts: c } => c == counts,
            PhaseView::Delaying { counts: c } => c == counts,
            PhaseView::Completed { counts: c } => c == counts,
            PhaseView::Failed { .. } => true,
            _ => false,
        },
    decreases events.len(),
{
    if events.len() > 0 {
        lemma_counts_are_kept_from(
            next_phase(phase, delay, events[0]),
            counts,
            delay,
            events.skip(1),
        );
    }
}

} // verus!
