use pool_contention::error::{DbFault, DbKind, ServerError};
use pool_contention::work::{
    inner, inner_withoutsleep, Action, Delay, Event, Phase, Query, Row, RowCounts, UnitOfWork,
    FIXED_DELAY_SECS,
};

fn rows(ids: &[i64]) -> Vec<Row> {
    ids.iter().map(|id| Row { id: *id, value: format!("v{}", id) }).collect()
}

fn fault(kind: DbKind, text: &str) -> DbFault {
    DbFault { kind, text: text.to_string() }
}

fn drive(unit: UnitOfWork, events: Vec<Event>) -> (UnitOfWork, Vec<Action>) {
    let mut unit = unit;
    let mut actions = Vec::new();
    for event in events {
        let (next, action) = unit.step(event);
        unit = next;
        actions.push(action);
    }
    (unit, actions)
}

#[test]
fn a_new_unit_is_dispatched_and_waits_to_begin() {
    let unit = UnitOfWork::new("nostuck", Delay::NoDelay);
    assert_eq!(unit.label(), "nostuck");
    assert_eq!(unit.delay(), Delay::NoDelay);
    assert_eq!(*unit.phase(), Phase::Dispatched);
    assert_eq!(unit.action(), Action::Begin);
    assert!(!unit.is_terminal());
    assert!(!unit.holds_connection());
    assert!(unit.occupies_context());
    assert_eq!(unit.into_result(), None);
}

#[test]
fn inner_pauses_and_inner_withoutsleep_does_not() {
    let paused = inner("nostuck3");
    assert_eq!(paused.label(), "nostuck3");
    assert_eq!(paused.delay(), Delay::FixedDelay);
    assert_eq!(*paused.phase(), Phase::Dispatched);
    let direct = inner_withoutsleep("stuck2");
    assert_eq!(direct.label(), "stuck2");
    assert_eq!(direct.delay(), Delay::NoDelay);
    assert_eq!(*direct.phase(), Phase::Dispatched);
}

#[test]
fn the_delay_is_five_seconds() {
    assert_eq!(FIXED_DELAY_SECS, 5);
    assert_eq!(Delay::FixedDelay.seconds(), 5);
    assert_eq!(Delay::NoDelay.seconds(), 0);
}

#[test]
fn the_two_reads_have_their_texts() {
    assert_eq!(Query::IdAtMostTwo.sql(), "select * from test where id <=2");
    assert_eq!(Query::IdAboveTwo.sql(), "select * from test where id > 2");
}

#[test]
fn clean_run_without_delay() {
    let (unit, actions) = drive(
        inner_withoutsleep("nostuck"),
        vec![
            Event::Begun,
            Event::Acquired,
            Event::Rows(rows(&[1, 2])),
            Event::Rows(rows(&[3, 4, 5])),
            Event::Committed,
        ],
    );
    assert_eq!(
        actions,
        vec![
            Action::Acquire,
            Action::Run(Query::IdAtMostTwo),
            Action::Run(Query::IdAboveTwo),
            Action::Commit,
            Action::Finish,
        ]
    );
    assert_eq!(*unit.phase(), Phase::Completed { counts: RowCounts { le2: 2, gt2: 3 } });
    assert!(unit.is_terminal());
    assert!(!unit.holds_connection());
    assert!(!unit.occupies_context());
    assert_eq!(unit.into_result(), Some(Ok(RowCounts { le2: 2, gt2: 3 })));
}

#[test]
fn clean_run_with_delay() {
    let (unit, actions) = drive(
        inner("stuck"),
        vec![
            Event::Begun,
            Event::Acquired,
            Event::Rows(rows(&[1, 2])),
            Event::Rows(rows(&[3])),
            Event::Committed,
            Event::Elapsed,
        ],
    );
    assert_eq!(
        actions,
        vec![
            Action::Acquire,
            Action::Run(Query::IdAtMostTwo),
            Action::Run(Query::IdAboveTwo),
            Action::Commit,
            Action::Sleep(5),
            Action::Finish,
        ]
    );
    assert_eq!(unit.into_result(), Some(Ok(RowCounts { le2: 2, gt2: 1 })));
}

#[test]
fn phases_in_order() {
    let unit = inner("nostuck4");
    let (unit, _) = unit.step(Event::Begun);
    assert_eq!(*unit.phase(), Phase::Acquiring);
    assert!(!unit.holds_connection());
    let (unit, _) = unit.step(Event::Acquired);
    assert_eq!(*unit.phase(), Phase::InTransaction { first: None });
    assert!(unit.holds_connection());
    let (unit, _) = unit.step(Event::Rows(rows(&[1])));
    assert_eq!(*unit.phase(), Phase::InTransaction { first: Some(1) });
    assert!(unit.holds_connection());
    let (unit, _) = unit.step(Event::Rows(rows(&[7, 8, 9, 10])));
    assert_eq!(*unit.phase(), Phase::Committed { counts: RowCounts { le2: 1, gt2: 4 } });
    assert!(unit.holds_connection());
    let (unit, _) = unit.step(Event::Committed);
    assert_eq!(*unit.phase(), Phase::Delaying { counts: RowCounts { le2: 1, gt2: 4 } });
    let (unit, _) = unit.step(Event::Elapsed);
    assert_eq!(*unit.phase(), Phase::Completed { counts: RowCounts { le2: 1, gt2: 4 } });
}

#[test]
fn connection_goes_back_at_commit_while_the_context_stays_busy() {
    let (unit, _) = drive(
        inner("stuck"),
        vec![Event::Begun, Event::Acquired, Event::Rows(rows(&[1, 2])), Event::Rows(rows(&[3]))],
    );
    assert!(unit.holds_connection());
    let (unit, action) = unit.step(Event::Committed);
    assert_eq!(action, Action::Sleep(5));
    assert!(!unit.holds_connection());
    assert!(unit.occupies_context());
    assert!(!unit.is_terminal());
    let (unit, action) = unit.step(Event::Elapsed);
    assert_eq!(action, Action::Finish);
    assert!(!unit.occupies_context());
}

#[test]
fn empty_reads_count_zero() {
    let (unit, _) = drive(
        inner_withoutsleep("nostuck"),
        vec![
            Event::Begun,
            Event::Acquired,
            Event::Rows(Vec::new()),
            Event::Rows(Vec::new()),
            Event::Committed,
        ],
    );
    assert_eq!(unit.into_result(), Some(Ok(RowCounts { le2: 0, gt2: 0 })));
}

#[test]
fn row_not_found_counts_as_zero_rows() {
    let missing = fault(DbKind::RowNotFound, "no rows");
    let (unit, actions) = drive(
        inner_withoutsleep("nostuck"),
        vec![
            Event::Begun,
            Event::Acquired,
            Event::Failed(missing.clone()),
            Event::Rows(rows(&[3, 4])),
            Event::Committed,
        ],
    );
    assert_eq!(actions[2], Action::Run(Query::IdAboveTwo));
    assert_eq!(unit.into_result(), Some(Ok(RowCounts { le2: 0, gt2: 2 })));

    let (unit, actions) = drive(
        inner_withoutsleep("nostuck"),
        vec![
            Event::Begun,
            Event::Acquired,
            Event::Rows(rows(&[1, 2])),
            Event::Failed(missing),
            Event::Committed,
        ],
    );
    assert_eq!(actions[3], Action::Commit);
    assert_eq!(unit.into_result(), Some(Ok(RowCounts { le2: 2, gt2: 0 })));
}

#[test]
fn acquire_failure_fails_the_unit() {
    let timeout =
        fault(DbKind::PoolTimedOut, "pool timed out while waiting for an open connection");
    let (unit, actions) =
        drive(inner("stuck"), vec![Event::Begun, Event::Failed(timeout.clone())]);
    assert_eq!(actions, vec![Action::Acquire, Action::Finish]);
    assert_eq!(*unit.phase(), Phase::Failed { error: ServerError::DB(timeout.clone()) });
    assert!(unit.is_terminal());
    assert!(!unit.holds_connection());
    assert_eq!(unit.into_result(), Some(Err(ServerError::DB(timeout))));
}

#[test]
fn row_not_found_while_acquiring_is_a_failure() {
    let missing = fault(DbKind::RowNotFound, "no rows");
    let (unit, _) = drive(inner("stuck"), vec![Event::Begun, Event::Failed(missing.clone())]);
    assert_eq!(unit.into_result(), Some(Err(ServerError::DB(missing))));
}

#[test]
fn read_failure_fails_the_unit_and_gives_the_connection_back() {
    let broken = fault(DbKind::Database("relation \"test\" does not exist".to_string()), "db");
    let (unit, actions) = drive(
        inner_withoutsleep("stuck2"),
        vec![Event::Begun, Event::Acquired, Event::Failed(broken.clone())],
    );
    assert_eq!(actions[2], Action::Finish);
    assert!(!unit.holds_connection());
    assert_eq!(unit.into_result(), Some(Err(ServerError::DB(broken.clone()))));

    let (unit, _) = drive(
        inner_withoutsleep("stuck2"),
        vec![Event::Begun, Event::Acquired, Event::Rows(rows(&[1])), Event::Failed(broken.clone())],
    );
    assert!(!unit.holds_connection());
    assert_eq!(unit.into_result(), Some(Err(ServerError::DB(broken))));
}

#[test]
fn commit_failure_fails_the_unit() {
    let lost = fault(DbKind::Other, "error communicating with database: broken pipe");
    let (unit, actions) = drive(
        inner("nostuck3"),
        vec![
            Event::Begun,
            Event::Acquired,
            Event::Rows(rows(&[1, 2])),
            Event::Rows(rows(&[3])),
            Event::Failed(lost.clone()),
        ],
    );
    assert_eq!(actions[4], Action::Finish);
    assert!(!unit.holds_connection());
    assert_eq!(unit.into_result(), Some(Err(ServerError::DB(lost))));
}

#[test]
fn row_not_found_at_commit_is_a_failure() {
    let missing = fault(DbKind::RowNotFound, "no rows");
    let (unit, _) = drive(
        inner("nostuck3"),
        vec![
            Event::Begun,
            Event::Acquired,
            Event::Rows(rows(&[1, 2])),
            Event::Rows(rows(&[3])),
            Event::Failed(missing.clone()),
        ],
    );
    assert_eq!(unit.into_result(), Some(Err(ServerError::DB(missing))));
}

#[test]
fn events_that_do_not_answer_the_pending_action_change_nothing() {
    let unit = inner("stuck");
    let (unit, action) = unit.step(Event::Acquired);
    assert_eq!(*unit.phase(), Phase::Dispatched);
    assert_eq!(action, Action::Begin);
    let (unit, _) = unit.step(Event::Rows(rows(&[1])));
    assert_eq!(*unit.phase(), Phase::Dispatched);
    let (unit, _) = unit.step(Event::Failed(fault(DbKind::Other, "x")));
    assert_eq!(*unit.phase(), Phase::Dispatched);
    let (unit, _) = unit.step(Event::Begun);
    let (unit, action) = unit.step(Event::Committed);
    assert_eq!(*unit.phase(), Phase::Acquiring);
    assert_eq!(action, Action::Acquire);
    let (unit, _) = unit.step(Event::Acquired);
    let (unit, action) = unit.step(Event::Elapsed);
    assert_eq!(*unit.phase(), Phase::InTransaction { first: None });
    assert_eq!(action, Action::Run(Query::IdAtMostTwo));
    let (unit, _) = drive(unit, vec![Event::Rows(rows(&[1])), Event::Rows(rows(&[3]))]);
    let (unit, action) = unit.step(Event::Rows(rows(&[9])));
    assert_eq!(*unit.phase(), Phase::Committed { counts: RowCounts { le2: 1, gt2: 1 } });
    assert_eq!(action, Action::Commit);
    let (unit, _) = unit.step(Event::Committed);
    let (unit, action) = unit.step(Event::Committed);
    assert_eq!(*unit.phase(), Phase::Delaying { counts: RowCounts { le2: 1, gt2: 1 } });
    assert_eq!(action, Action::Sleep(5));
    let (unit, _) = unit.step(Event::Failed(fault(DbKind::Other, "late")));
    assert_eq!(*unit.phase(), Phase::Delaying { counts: RowCounts { le2: 1, gt2: 1 } });
}

#[test]
fn terminal_units_take_no_further_step() {
    let (done, _) = drive(
        inner_withoutsleep("nostuck"),
        vec![
            Event::Begun,
            Event::Acquired,
            Event::Rows(rows(&[1])),
            Event::Rows(rows(&[3])),
            Event::Committed,
        ],
    );
    let (done, actions) = drive(
        done,
        vec![
            Event::Begun,
            Event::Acquired,
            Event::Rows(rows(&[1, 2, 3])),
            Event::Committed,
            Event::Elapsed,
            Event::Failed(fault(DbKind::Other, "late")),
        ],
    );
    assert!(actions.iter().all(|a| *a == Action::Finish));
    assert_eq!(*done.phase(), Phase::Completed { counts: RowCounts { le2: 1, gt2: 1 } });

    let first = fault(DbKind::Other, "first");
    let (failed, _) = drive(inner("stuck"), vec![Event::Begun, Event::Failed(first.clone())]);
    let (failed, actions) = drive(
        failed,
        vec![Event::Acquired, Event::Failed(fault(DbKind::Other, "second")), Event::Committed],
    );
    assert!(actions.iter().all(|a| *a == Action::Finish));
    assert_eq!(failed.into_result(), Some(Err(ServerError::DB(first))));
}

#[test]
fn a_result_is_there_only_at_the_end() {
    let clean = || {
        vec![
            Event::Begun,
            Event::Acquired,
            Event::Rows(rows(&[1])),
            Event::Rows(rows(&[3])),
            Event::Committed,
            Event::Elapsed,
        ]
    };
    for taken in 0..6 {
        let events: Vec<Event> = clean().into_iter().take(taken).collect();
        let (unit, _) = drive(inner("stuck"), events);
        assert!(!unit.is_terminal());
        assert_eq!(unit.into_result(), None);
    }
    let (unit, _) = drive(inner("stuck"), clean());
    assert_eq!(unit.into_result(), Some(Ok(RowCounts { le2: 1, gt2: 1 })));
}

#[test]
fn whatever_fails_a_unit_is_a_database_failure() {
    let lost = fault(DbKind::Other, "connection reset");
    let before_failure = [
        vec![Event::Begun],
        vec![Event::Begun, Event::Acquired],
        vec![Event::Begun, Event::Acquired, Event::Rows(rows(&[1]))],
        vec![Event::Begun, Event::Acquired, Event::Rows(rows(&[1])), Event::Rows(rows(&[3]))],
    ];
    for events in before_failure {
        let (unit, _) = drive(inner("nostuck4"), events);
        let (unit, action) = unit.step(Event::Failed(lost.clone()));
        assert_eq!(action, Action::Finish);
        assert!(matches!(unit.into_result(), Some(Err(ServerError::DB(f))) if f == lost));
    }
}
