//! The shared execution context: a scheduler with a fixed number of workers
//! that serves all requests.
//!
//! This module is about the requests that block a worker of that context:
//! those whose unit of work runs on an isolated worker, which the request
//! waits to join. Such a request engages its worker from the moment the unit
//! is picked up until the unit is terminal, the pause of a delayed unit
//! included. (A unit that runs inline yields its worker wherever it is
//! suspended and is not counted here.) A request that finds no worker free is
//! queued: its unit stays dispatched until a worker is free.

use vstd::prelude::*;
use crate::pool::{fleet_step, held};
use crate::work::{advance, holds_connection, is_terminal, EventView, PhaseView, UnitView};

verus! {

/// Whether a unit in the given phase engages a worker of the shared context.
pub open spec fn engages_worker(phase: PhaseView) -> bool {
    !(phase is Dispatched) && !is_terminal(phase)
}

/// One if the unit engages a worker, zero if not.
pub open spec fn engaging(unit: UnitView) -> nat {
    if engages_worker(unit.phase) {
        1
    } else {
        0
    }
}

/// The number of workers that the units of a fleet engage together.
pub open spec fn engaged(fleet: Seq<UnitView>) -> nat
    decreases fleet.len(),
{
    if fleet.len() == 0 {
        0
    } else {
        engaged(fleet.drop_last()) + engaging(fleet.last())
    }
}

/// The context's rule for one event: a dispatched unit is picked up only
/// while fewer workers are engaged than the context has.
pub open spec fn context_allows(
    fleet: Seq<UnitView>,
    workers: nat,
    who: int,
    event: EventView,
) -> bool {
    fleet[who].phase is Dispatched && event is Begun ==> engaged(fleet) < workers
}

/// Every unit that engages a worker is in its pause.
pub open spec fn all_engaged_pause(fleet: Seq<UnitView>) -> bool {
    forall|i: int|
        0 <= i < fleet.len() && engages_worker(#[trigger] fleet[i].phase) ==> fleet[i].phase
            is Delaying
}

/// Changing one unit changes what the fleet engages by what that unit
/// engages.
pub proof fn lemma_engaged_after_change(fleet: Seq<UnitView>, who: int, unit: UnitView)
    requires
        0 <= who < fleet.len(),
    ensures
        engaged(fleet.update(who, unit)) + engaging(fleet[who]) == engaged(fleet) + engaging(unit),
    decreases fleet.len(),
{
    let changed = fleet.update(who, unit);
    if who == fleet.len() - 1 {
        assert(changed.drop_last() =~= fleet.drop_last());
    } else {
        assert(changed.drop_last() =~= fleet.drop_last().update(who, unit));
        lemma_engaged_after_change(fleet.drop_last(), who, unit);
    }
}

/// As long as the context keeps its rule, no more workers are engaged than
/// it has.
pub proof fn lemma_workers_are_kept(
    fleet: Seq<UnitView>,
    workers: nat,
    who: int,
    event: EventView,
)
    requires
        0 <= who < fleet.len(),
        engaged(fleet) <= workers,
        context_allows(fleet, workers, who, event),
    ensures
        engaged(fleet_step(fleet, who, event)) <= workers,
{
    lemma_engaged_after_change(fleet, who, advance(fleet[who], event));
}

/// When every worker is engaged, a request that arrives is queued and does
/// not fail: no event that the context allows moves its unit, and when the
/// next event reaches it the unit is still dispatched.
pub proof fn lemma_saturated_context_queues(
    fleet: Seq<UnitView>,
    workers: nat,
    who: int,
    event: EventView,
)
    requires
        0 <= who < fleet.len(),
        engaged(fleet) == workers,
        fleet[who].phase is Dispatched,
        context_allows(fleet, workers, who, event),
    ensures
        !context_allows(fleet, workers, who, EventView::Begun),
        advance(fleet[who], event).phase is Dispatched,
        fleet_step(fleet, who, event) =~= fleet,
{
}

/// Units in their pause hold no connection. So when every engaged unit
/// pauses, the whole pool is free, however many workers are engaged: what
/// is used up then is the context, not the pool.
pub proof fn lemma_pauses_engage_workers_not_connections(fleet: Seq<UnitView>)
    requires
        all_engaged_pause(fleet),
    ensures
        held(fleet) == 0,
    decreases fleet.len(),
{
    if fleet.len() > 0 {
        let rest = fleet.drop_last();
        assert forall|i: int|
            0 <= i < rest.len() && engages_worker(#[trigger] rest[i].phase) implies rest[i].phase
            is Delaying by {
            assert(rest[i] == fleet[i]);
        }
        lemma_pauses_engage_workers_not_connections(rest);
        let last = fleet.last();
        assert(last == fleet[fleet.len() - 1]);
        if holds_connection(last.phase) {
            assert(engages_worker(fleet[fleet.len() - 1].phase));
        }
    }
}

/// When a pause is over the unit completes and its worker is free again, so
/// that the next queued request can be picked up.
pub proof fn lemma_end_of_pause_frees_a_worker(
    fleet: Seq<UnitView>,
    workers: nat,
    who: int,
    queued: int,
)
    requires
        0 <= who < fleet.len(),
        0 <= queued < fleet.len(),
        engaged(fleet) <= workers,
        fleet[who].phase is Delaying,
        fleet[queued].phase is Dispatched,
    ensures
        advance(fleet[who], EventView::Elapsed).phase is Completed,
        engaged(fleet_step(fleet, who, EventView::Elapsed)) + 1 == engaged(fleet),
        context_allows(
            fleet_step(fleet, who, EventView::Elapsed),
            workers,
            queued,
            EventView::Begun,
        ),
{
    lemma_engaged_after_change(fleet, who, advance(fleet[who], EventView::Elapsed));
}

} // verus!
