//! The transactional unit of work: one acquire, two reads inside one
//! transaction, a commit, and then, for some strategies, a pause.
//!
//! The unit is a state machine. Whoever runs it performs the pending
//! [`Action`] against the pool and hands the answer back as an [`Event`];
//! [`UnitOfWork::step`] decides what comes next.

use vstd::prelude::*;
use crate::error::{DbFault, DbFaultView, ServerError, ServerErrorView};

verus! {

/// How long a delayed unit pauses after its commit, in seconds.
pub const FIXED_DELAY_SECS: u64 = 5;

/// One row of the table `test`.
#[derive(Clone, Debug, PartialEq, Eq)]
pub struct Row {
    pub id: i64,
    pub value: String,
}

/// How many rows each of the two reads returned.
#[derive(Clone, Copy, Debug, PartialEq, Eq, Structural)]
pub struct RowCounts {
    /// Rows with `id <= 2`.
    pub le2: usize,
    /// Rows with `id > 2`.
    pub gt2: usize,
}

/// Whether a unit pauses after its commit.
#[derive(Clone, Copy, Debug, PartialEq, Eq, Structural)]
pub enum Delay {
    NoDelay,
    FixedDelay,
}

/// The two reads of a unit, in the order in which it makes them.
#[derive(Clone, Copy, Debug, PartialEq, Eq, Structural)]
pub enum Query {
    /// Rows with `id <= 2`.
    IdAtMostTwo,
    /// Rows with `id > 2`.
    IdAboveTwo,
}

/// What the unit asks of whoever runs it.
#[derive(Clone, Copy, Debug, PartialEq, Eq, Structural)]
pub enum Action {
    /// Pick the unit up; answered by [`Event::Begun`].
    Begin,
    /// Take a connection from the pool and begin a transaction on it;
    /// answered by [`Event::Acquired`] or [`Event::Failed`]. The pool may
    /// suspend the caller for as long as no connection is free.
    Acquire,
    /// Run a read inside the transaction; answered by [`Event::Rows`] or
    /// [`Event::Failed`].
    Run(Query),
    /// Commit the transaction; answered by [`Event::Committed`] or
    /// [`Event::Failed`]. Either answer returns the connection to the pool.
    Commit,
    /// Pause for so many seconds; answered by [`Event::Elapsed`].
    Sleep(u64),
    /// Nothing is left to do.
    Finish,
}

/// What happened to the action that the unit was waiting for.
#[derive(Clone, Debug, PartialEq, Eq)]
pub enum Event {
    Begun,
    Acquired,
    Rows(Vec<Row>),
    Committed,
    Elapsed,
    /// The pending database operation failed.
    Failed(DbFault),
}

/// The mathematical value of an [`Event`].
pub enum EventView {
    Begun,
    Acquired,
    Rows(Seq<Row>),
    Committed,
    Elapsed,
    Failed(DbFaultView),
}

impl View for Event {
    type V = EventView;

    open spec fn view(&self) -> EventView {
        match self {
            Event::Begun => EventView::Begun,
            Event::Acquired => EventView::Acquired,
            Event::Rows(rows) => EventView::Rows(rows@),
            Event::Committed => EventView::Committed,
            Event::Elapsed => EventView::Elapsed,
            Event::Failed(fault) => EventView::Failed(fault@),
        }
    }
}

/// Where a unit stands.
#[derive(Clone, Debug, PartialEq, Eq)]
pub enum Phase {
    /// Handed to an execution context, not yet picked up.
    Dispatched,
    /// Waiting for the pool to grant a connection.
    Acquiring,
    /// Inside the transaction. `first` is the number of rows of the first
    /// read once it has answered; until then the first read is pending,
    /// afterwards the second.
    InTransaction { first: Option<usize> },
    /// Both reads have answered and the commit is under way. The connection
    /// is held until the commit has answered.
    Committed { counts: RowCounts },
    /// The commit succeeded and the connection is back in the pool; the
    /// unit pauses and keeps its execution context busy.
    Delaying { counts: RowCounts },
    Completed { counts: RowCounts },
    Failed { error: ServerError },
}

/// The mathematical value of a [`Phase`].
pub enum PhaseView {
    Dispatched,
    Acquiring,
    InTransaction { first: Option<usize> },
    Committed { counts: RowCounts },
    Delaying { counts: RowCounts },
    Completed { counts: RowCounts },
    Failed { error: ServerErrorView },
}

impl View for Phase {
    type V = PhaseView;

    open spec fn view(&self) -> PhaseView {
        match self {
            Phase::Dispatched => PhaseView::Dispatched,
            Phase::Acquiring => PhaseView::Acquiring,
            Phase::InTransaction { first } => PhaseView::InTransaction { first: *first },
            Phase::Committed { counts } => PhaseView::Committed { counts: *counts },
            Phase::Delaying { counts } => PhaseView::Delaying { counts: *counts },
            Phase::Completed { counts } => PhaseView::Completed { counts: *counts },
            Phase::Failed { error } => PhaseView::Failed { error: error@ },
        }
    }
}

/// The seconds a unit pauses after its commit.
pub open spec fn delay_seconds(delay: Delay) -> u64 {
    match delay {
        Delay::NoDelay => 0,
        Delay::FixedDelay => FIXED_DELAY_SECS,
    }
}

/// A unit in a terminal phase takes no further step.
pub open spec fn is_terminal(phase: PhaseView) -> bool {
    phase is Completed || phase is Failed
}

/// A unit holds a pooled connection from the grant until its commit has
/// answered or an operation inside the transaction has failed.
pub open spec fn holds_connection(phase: PhaseView) -> bool {
    phase is InTransaction || phase is Committed
}

/// A unit keeps its execution context busy until it is terminal.
pub open spec fn occupies_context(phase: PhaseView) -> bool {
    !is_terminal(phase)
}

/// The phase after a read has answered with `rows` rows.
pub open spec fn after_read(first: Option<usize>, rows: usize) -> PhaseView {
    match first {
        None => PhaseView::InTransaction { first: Some(rows) },
        Some(le2) => PhaseView::Committed { counts: RowCounts { le2, gt2: rows } },
    }
}

/// The phase after the commit has succeeded.
pub open spec fn after_commit(counts: RowCounts, delay: Delay) -> PhaseView {
    match delay {
        Delay::NoDelay => PhaseView::Completed { counts },
        Delay::FixedDelay => PhaseView::Delaying { counts },
    }
}

/// The transition relation of a unit. An event that does not answer the
/// pending action leaves the phase as it is. A read that reports that no row
/// was found counts as a read of zero rows.
pub open spec fn next_phase(phase: PhaseView, delay: Delay, event: EventView) -> PhaseView {
    match (phase, event) {
        (PhaseView::Dispatched, EventView::Begun) => PhaseView::Acquiring,
        (PhaseView::Acquiring, EventView::Acquired) => PhaseView::InTransaction { first: None },
        (PhaseView::Acquiring, EventView::Failed(fault)) => PhaseView::Failed {
            error: ServerErrorView::DB(fault),
        },
        (PhaseView::InTransaction { first }, EventView::Rows(rows)) => after_read(
            first,
            rows.len() as usize,
        ),
        (PhaseView::InTransaction { first }, EventView::Failed(fault)) => {
            if fault.kind is RowNotFound {
                after_read(first, 0)
            } else {
                PhaseView::Failed { error: ServerErrorView::DB(fault) }
            }
        },
        (PhaseView::Committed { counts }, EventView::Committed) => after_commit(counts, delay),
        (PhaseView::Committed { counts }, EventView::Failed(fault)) => PhaseView::Failed {
            error: ServerErrorView::DB(fault),
        },
        (PhaseView::Delaying { counts }, EventView::Elapsed) => PhaseView::Completed { counts },
        _ => phase,
    }
}

/// The unit after it has taken an event: only its phase changes.
pub open spec fn advance(unit: UnitView, event: EventView) -> UnitView {
    UnitView {
        label: unit.label,
        delay: unit.delay,
        phase: next_phase(unit.phase, unit.delay, event),
    }
}

/// What a unit in the given phase waits for.
pub open spec fn pending_action(phase: PhaseView, delay: Delay) -> Action {
    match phase {
        PhaseView::Dispatched => Action::Begin,
        PhaseView::Acquiring => Action::Acquire,
        PhaseView::InTransaction { first: None } => Action::Run(Query::IdAtMostTwo),
        PhaseView::InTransaction { first: Some(_) } => Action::Run(Query::IdAboveTwo),
        PhaseView::Committed { .. } => Action::Commit,
        PhaseView::Delaying { .. } => Action::Sleep(delay_seconds(delay)),
        PhaseView::Completed { .. } => Action::Finish,
        PhaseView::Failed { .. } => Action::Finish,
    }
}

/// What a terminal unit hands back: its counts or its failure.
pub open spec fn phase_result(phase: PhaseView) -> Option<Result<RowCounts, ServerErrorView>> {
    match phase {
        PhaseView::Completed { counts } => Some(Ok(counts)),
        PhaseView::Failed { error } => Some(Err(error)),
        _ => None,
    }
}

/// The phase reached from `phase` by the events in order.
pub open spec fn run(phase: PhaseView, delay: Delay, events: Seq<EventView>) -> PhaseView
    decreases events.len(),
{
    if events.len() == 0 {
        phase
    } else {
        run(next_phase(phase, delay, events[0]), delay, events.skip(1))
    }
}

impl Delay {
    /// The seconds a unit with this delay pauses after its commit.
    pub fn seconds(self) -> (secs: u64)
        ensures
            secs == delay_seconds(self),
    {
        match self {
            Delay::NoDelay => 0,
            Delay::FixedDelay => FIXED_DELAY_SECS,
        }
    }
}

impl Query {
    /// The text of the read.
    pub fn sql(self) -> (text: &'static str)
        ensures
            self == Query::IdAtMostTwo ==> text@ == "select * from test where id <=2"@,
            self == Query::IdAboveTwo ==> text@ == "select * from test where id > 2"@,
    {
        match self {
            Query::IdAtMostTwo => "select * from test where id <=2",
            Query::IdAboveTwo => "select * from test where id > 2",
        }
    }
}

/// One unit of work, with the name it goes by in the log.
#[derive(Debug, PartialEq, Eq)]
pub struct UnitOfWork {
    label: &'static str,
    delay: Delay,
    phase: Phase,
}

/// The mathematical value of a [`UnitOfWork`].
pub struct UnitView {
    pub label: Seq<char>,
    pub delay: Delay,
    pub phase: PhaseView,
}

impl View for UnitOfWork {
    type V = UnitView;

    closed spec fn view(&self) -> UnitView {
        UnitView { label: self.label@, delay: self.delay, phase: self.phase@ }
    }
}

impl UnitOfWork {
    /// Whatever fails a unit is a failure of the database.
    #[verifier::type_invariant]
    spec fn failure_is_from_database(self) -> bool {
        self.phase matches Phase::Failed { error } ==> error is DB
    }

    /// A unit that has been dispatched and not yet picked up.
    pub fn new(label: &'static str, delay: Delay) -> (unit: UnitOfWork)
        ensures
            unit@ == (UnitView { label: label@, delay, phase: PhaseView::Dispatched }),
    {
        UnitOfWork { label, delay, phase: Phase::Dispatched }
    }

    pub fn label(&self) -> (label: &'static str)
        ensures
            label@ == self@.label,
    {
        self.label
    }

    pub fn delay(&self) -> (delay: Delay)
        ensures
            delay == self@.delay,
    {
        self.delay
    }

    pub fn phase(&self) -> (phase: &Phase)
        ensures
            phase@ == self@.phase,
    {
        &self.phase
    }

    /// The action the unit is waiting for.
    pub fn action(&self) -> (action: Action)
        ensures
            action == pending_action(self@.phase, self@.delay),
    {
        match &self.phase {
            Phase::Dispatched => Action::Begin,
            Phase::Acquiring => Action::Acquire,
            Phase::InTransaction { first: None } => Action::Run(Query::IdAtMostTwo),
            Phase::InTransaction { first: Some(_) } => Action::Run(Query::IdAboveTwo),
            Phase::Committed { .. } => Action::Commit,
            Phase::Delaying { .. } => Action::Sleep(self.delay.seconds()),
            Phase::Completed { .. } => Action::Finish,
            Phase::Failed { .. } => Action::Finish,
        }
    }

    pub fn is_terminal(&self) -> (yes: bool)
        ensures
            yes == is_terminal(self@.phase),
    {
        match &self.phase {
            Phase::Completed { .. } => true,
            Phase::Failed { .. } => true,
            _ => false,
        }
    }

    pub fn holds_connection(&self) -> (yes: bool)
        ensures
            yes == holds_connection(self@.phase),
    {
        match &self.phase {
            Phase::InTransaction { .. } => true,
            Phase::Committed { .. } => true,
            _ => false,
        }
    }

    pub fn occupies_context(&self) -> (yes: bool)
        ensures
            yes == occupies_context(self@.phase),
    {
        !self.is_terminal()
    }

    /// Takes the answer to the pending action and moves on: the unit enters
    /// the next phase and says what it waits for now.
    pub fn step(self, event: Event) -> (out: (UnitOfWork, Action))
        ensures
            out.0@ == advance(self@, event@),
            out.1 == pending_action(out.0@.phase, self@.delay),
    {
        proof {
            use_type_invariant(&self);
        }
        let UnitOfWork { label, delay, phase } = self;
        let next = match phase {
            Phase::Dispatched => match event {
                Event::Begun => Phase::Acquiring,
                _ => Phase::Dispatched,
            },
            Phase::Acquiring => match event {
                Event::Acquired => Phase::InTransaction { first: None },
                Event::Failed(fault) => Phase::Failed { error: ServerError::DB(fault) },
                _ => Phase::Acquiring,
            },
            Phase::InTransaction { first } => match event {
                Event::Rows(rows) => read_done(first, rows.len()),
                Event::Failed(fault) => {
                    if fault.is_row_not_found() {
                        read_done(first, 0)
                    } else {
                        Phase::Failed { error: ServerError::DB(fault) }
                    }
                },
                _ => Phase::InTransaction { first },
            },
            Phase::Committed { counts } => match event {
                Event::Committed => match delay {
                    Delay::NoDelay => Phase::Completed { counts },
                    Delay::FixedDelay => Phase::Delaying { counts },
                },
                Event::Failed(fault) => Phase::Failed { error: ServerError::DB(fault) },
                _ => Phase::Committed { counts },
            },
            Phase::Delaying { counts } => match event {
                Event::Elapsed => Phase::Completed { counts },
                _ => Phase::Delaying { counts },
            },
            Phase::Completed { counts } => Phase::Completed { counts },
            Phase::Failed { error } => Phase::Failed { error },
        };
        let unit = UnitOfWork { label, delay, phase: next };
        let action = unit.action();
        (unit, action)
    }

    /// What the unit hands back to the strategy that ran it: its counts or
    /// its failure once it is terminal, nothing before. A failure is always
    /// one of the database.
    pub fn into_result(self) -> (result: Option<Result<RowCounts, ServerError>>)
        ensures
            result is Some <==> is_terminal(self@.phase),
            result matches Some(Err(error)) ==> error@ is DB,
            match result {
                Some(Ok(counts)) => phase_result(self@.phase) == Some(
                    Ok::<RowCounts, ServerErrorView>(counts),
                ),
                Some(Err(error)) => phase_result(self@.phase) == Some(
                    Err::<RowCounts, ServerErrorView>(error@),
                ),
                None => phase_result(self@.phase) is None,
            },
    {
        proof {
            use_type_invariant(&self);
        }
        match self.phase {
            Phase::Completed { counts } => Some(Ok(counts)),
            Phase::Failed { error } => Some(Err(error)),
            _ => None,
        }
    }
}

/// The phase after a read has answered with `rows` rows.
fn read_done(first: Option<usize>, rows: usize) -> (phase: Phase)
    ensures
        phase@ == after_read(first, rows),
{
    match first {
        None => Phase::InTransaction { first: Some(rows) },
        Some(le2) => Phase::Committed { counts: RowCounts { le2, gt2: rows } },
    }
}

/// A unit that pauses after its commit.
pub fn inner(name: &'static str) -> (unit: UnitOfWork)
    ensures
        unit@ == (UnitView {
            label: name@,
            delay: Delay::FixedDelay,
            phase: PhaseView::Dispatched,
        }),
{
    UnitOfWork::new(name, Delay::FixedDelay)
}

/// A unit that is done as soon as its commit has answered.
pub fn inner_withoutsleep(name: &'static str) -> (unit: UnitOfWork)
    ensures
        unit@ == (UnitView {
            label: name@,
            delay: Delay::NoDelay,
            phase: PhaseView::Dispatched,
        }),
{
    UnitOfWork::new(name, Delay::NoDelay)
}

} // verus!
