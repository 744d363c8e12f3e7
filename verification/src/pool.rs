//! The contract of the connection pool, and what follows from it for the
//! units of work that share one pool.
//!
//! The pool itself belongs to the database driver. What is relied on here is
//! its one promise: it grants a connection only while fewer than its maximum
//! are out, and a request that finds none free is suspended, not failed,
//! until one comes back or the connect timeout has passed.

use vstd::prelude::*;
use crate::lifecycle::phase_rank;
use crate::work::{
    advance, holds_connection, is_terminal, occupies_context, EventView, PhaseView, RowCounts,
    UnitView,
};

verus! {

/// One if the unit holds a connection, zero if not.
pub open spec fn holding(unit: UnitView) -> nat {
    if holds_connection(unit.phase) {
        1
    } else {
        0
    }
}

/// The number of connections that the units of a fleet hold together.
pub open spec fn held(fleet: Seq<UnitView>) -> nat
    decreases fleet.len(),
{
    if fleet.len() == 0 {
        0
    } else {
        held(fleet.drop_last()) + holding(fleet.last())
    }
}

/// No more connections are out than the pool has.
pub open spec fn within_capacity(fleet: Seq<UnitView>, max_connections: nat) -> bool {
    held(fleet) <= max_connections
}

/// The pool's promise for one event: a unit that waits for a connection is
/// granted one only while fewer than the maximum are out. Every other event
/// is none of the pool's business.
pub open spec fn pool_allows(
    fleet: Seq<UnitView>,
    max_connections: nat,
    who: int,
    event: EventView,
) -> bool {
    fleet[who].phase is Acquiring && event is Acquired ==> held(fleet) < max_connections
}

/// The fleet after the unit `who` has taken an event.
pub open spec fn fleet_step(fleet: Seq<UnitView>, who: int, event: EventView) -> Seq<UnitView> {
    fleet.update(who, advance(fleet[who], event))
}

/// A fleet holds at most one connection for each of its units.
pub proof fn lemma_held_at_most_len(fleet: Seq<UnitView>)
    ensures
        held(fleet) <= fleet.len(),
    decreases fleet.len(),
{
    if fleet.len() > 0 {
        lemma_held_at_most_len(fleet.drop_last());
    }
}

/// Changing one unit changes what the fleet holds by what that unit holds.
pub proof fn lemma_held_after_change(fleet: Seq<UnitView>, who: int, unit: UnitView)
    requires
        0 <= who < fleet.len(),
    ensures
        held(fleet.update(who, unit)) + holding(fleet[who]) == held(fleet) + holding(unit),
    decreases fleet.len(),
{
    let changed = fleet.update(who, unit);
    if who == fleet.len() - 1 {
        assert(changed.drop_last() =~= fleet.drop_last());
    } else {
        assert(changed.drop_last() =~= fleet.drop_last().update(who, unit));
        lemma_held_after_change(fleet.drop_last(), who, unit);
    }
}

/// As long as the pool keeps its promise, no more connections are out than
/// it has, whatever the units do.
pub proof fn lemma_capacity_is_kept(
    fleet: Seq<UnitView>,
    max_connections: nat,
    who: int,
    event: EventView,
)
    requires
        0 <= who < fleet.len(),
        within_capacity(fleet, max_connections),
        pool_allows(fleet, max_connections, who, event),
    ensures
        within_capacity(fleet_step(fleet, who, event), max_connections),
{
    lemma_held_after_change(fleet, who, advance(fleet[who], event));
}

/// A unit that gives its connection back frees one slot of the pool.
pub proof fn lemma_release_frees_a_slot(fleet: Seq<UnitView>, who: int, event: EventView)
    requires
        0 <= who < fleet.len(),
        holds_connection(fleet[who].phase),
        !holds_connection(advance(fleet[who], event).phase),
    ensures
        held(fleet_step(fleet, who, event)) + 1 == held(fleet),
{
    lemma_held_after_change(fleet, who, advance(fleet[who], event));
}

/// While there are no more requests in flight than the pool has connections,
/// a unit that asks for a connection finds one free: the pool can grant it at
/// once and never has to suspend it.
pub proof fn lemma_no_wait_within_capacity(fleet: Seq<UnitView>, max_connections: nat, who: int)
    requires
        0 <= who < fleet.len(),
        fleet.len() <= max_connections,
        fleet[who].phase is Acquiring,
    ensures
        held(fleet) < max_connections,
        pool_allows(fleet, max_connections, who, EventView::Acquired),
        holds_connection(fleet_step(fleet, who, EventView::Acquired)[who].phase),
        within_capacity(fleet_step(fleet, who, EventView::Acquired), max_connections),
{
    let holder = UnitView {
        label: fleet[who].label,
        delay: fleet[who].delay,
        phase: PhaseView::InTransaction { first: None },
    };
    lemma_held_after_change(fleet, who, holder);
    lemma_held_at_most_len(fleet.update(who, holder));
    lemma_held_after_change(fleet, who, advance(fleet[who], EventView::Acquired));
}

/// While every connection is out, a unit that asks for one is suspended and
/// does not fail: whatever event the pool allows, the unit either still waits
/// or has been told by the database layer that it failed, as it is when the
/// connect timeout has passed.
pub proof fn lemma_full_pool_suspends(
    fleet: Seq<UnitView>,
    max_connections: nat,
    who: int,
    event: EventView,
)
    requires
        0 <= who < fleet.len(),
        held(fleet) >= max_connections,
        fleet[who].phase is Acquiring,
        pool_allows(fleet, max_connections, who, event),
    ensures
        !pool_allows(fleet, max_connections, who, EventView::Acquired),
        !(event is Acquired),
        event is Failed || advance(fleet[who], event).phase is Acquiring,
        event is Failed ==> advance(fleet[who], event).phase is Failed,
        !holds_connection(advance(fleet[who], event).phase),
{
}

/// With a pool of one connection, a unit is granted the connection only when
/// no other unit holds it: each other unit has either not been granted it
/// yet, or has had its commit answered, or has failed.
pub proof fn lemma_single_connection_is_exclusive(fleet: Seq<UnitView>, who: int, other: int)
    requires
        0 <= who < fleet.len(),
        0 <= other < fleet.len(),
        other != who,
        fleet[who].phase is Acquiring,
        pool_allows(fleet, 1, who, EventView::Acquired),
    ensures
        !holds_connection(fleet[other].phase),
        !(fleet[other].phase is InTransaction),
        !(fleet[other].phase is Committed),
        phase_rank(fleet[other].phase) >= 2 ==> fleet[other].phase is Delaying || is_terminal(
            fleet[other].phase,
        ),
{
    if holds_connection(fleet[other].phase) {
        let idle = UnitView {
            label: fleet[other].label,
            delay: fleet[other].delay,
            phase: PhaseView::Dispatched,
        };
        lemma_held_after_change(fleet, other, idle);
        assert(held(fleet) >= 1);
    }
}

/// A unit that pauses after its commit does not keep the pool's one
/// connection from the next unit, although it still keeps its own execution
/// context busy: the connection goes back at the commit, not when the
/// context is torn down.
pub proof fn lemma_pause_does_not_block_the_pool(
    first: UnitView,
    second: UnitView,
    counts: RowCounts,
)
    requires
        first.phase == (PhaseView::Delaying { counts }),
        second.phase is Acquiring,
    ensures
        occupies_context(first.phase),
        within_capacity(seq![first, second], 1),
        pool_allows(seq![first, second], 1, 1, EventView::Acquired),
        holds_connection(fleet_step(seq![first, second], 1, EventView::Acquired)[1].phase),
        within_capacity(fleet_step(seq![first, second], 1, EventView::Acquired), 1),
{
    let fleet = seq![first, second];
    assert(fleet.drop_last() =~= seq![first]);
    assert(seq![first].drop_last() =~= Seq::<UnitView>::empty());
    assert(held(seq![first]) == 0) by {
        assert(held(seq![first]) == held(seq![first].drop_last()) + holding(first));
    }
    assert(held(fleet) == 0);
    lemma_capacity_is_kept(fleet, 1, 1, EventView::Acquired);
}

/// A unit that is still inside its transaction, or whose commit has not
/// answered yet, keeps the pool's one connection from every other unit.
pub proof fn lemma_open_transaction_blocks_the_pool(fleet: Seq<UnitView>, who: int, other: int)
    requires
        0 <= who < fleet.len(),
        0 <= other < fleet.len(),
        other != who,
        fleet[who].phase is Acquiring,
        holds_connection(fleet[other].phase),
    ensures
        !pool_allows(fleet, 1, who, EventView::Acquired),
{
    if pool_allows(fleet, 1, who, EventView::Acquired) {
        lemma_single_connection_is_exclusive(fleet, who, other);
    }
}

} // verus!
