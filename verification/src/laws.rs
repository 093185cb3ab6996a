//! What holds of the game over more than one step.

use vstd::prelude::*;
use crate::buildings::{distinct_ids, Building, BuildingId};
use crate::game::{GameModel, Input};
use crate::over_bldg::{
    first_interactive, is_first_interactive, is_interactive, lemma_first_interactive_unique,
};
use crate::state::{
    entry_for, initial_status, lemma_deliver_keeps_wf, pending, BldgState, Config, SleighModel,
};

verus! {

/// A building whose number no later building of the catalog shares enters
/// the game in the state that it alone decides.
pub proof fn lemma_initial_status_of_last(
    catalog: Seq<Building>,
    costs: Map<usize, u64>,
    i: int,
)
    requires
        0 <= i < catalog.len(),
        forall|j: int| i < j < catalog.len() ==> (#[trigger] catalog[j]).id != catalog[i].id,
    ensures
        initial_status(catalog, costs, catalog[i].id.0) == if entry_for(catalog[i], costs) is Some {
            entry_for(catalog[i], costs)
        } else {
            initial_status(catalog.take(i), costs, catalog[i].id.0)
        },
    decreases catalog.len(),
{
    if i == catalog.len() - 1 {
        assert(catalog.drop_last() =~= catalog.take(i));
    } else {
        let shorter = catalog.drop_last();
        assert(catalog.last().id != catalog[i].id);
        assert(shorter[i] == catalog[i]);
        assert forall|j: int| i < j < shorter.len() implies (#[trigger] shorter[j]).id
            != shorter[i].id by {
            assert(shorter[j] == catalog[j]);
        }
        lemma_initial_status_of_last(shorter, costs, i);
        assert(shorter.take(i) =~= catalog.take(i));
    }
}

/// A number that no building of the catalog carries takes no part.
pub proof fn lemma_strangers_take_no_part(catalog: Seq<Building>, costs: Map<usize, u64>, k: usize)
    requires
        forall|j: int| 0 <= j < catalog.len() ==> (#[trigger] catalog[j]).id.0 != k,
    ensures
        initial_status(catalog, costs, k) is None,
    decreases catalog.len(),
{
    if catalog.len() > 0 {
        let shorter = catalog.drop_last();
        assert(catalog.last() == catalog[catalog.len() - 1]);
        assert forall|j: int| 0 <= j < shorter.len() implies (#[trigger] shorter[j]).id.0 != k by {
            assert(shorter[j] == catalog[j]);
        }
        lemma_strangers_take_no_part(shorter, costs, k);
    }
}

/// On a map whose buildings have ids of their own, every building enters
/// the game by what it is: a residential building waits for its delivery; a
/// building that is not residential and has an amenity is a depot; any other
/// building takes no part.
pub proof fn lemma_classification(
    catalog: Seq<Building>,
    depot: BuildingId,
    costs: Map<usize, u64>,
    config: Config,
    i: int,
)
    requires
        distinct_ids(catalog),
        0 <= i < catalog.len(),
    ensures
        ({
            let ledger = SleighModel::initial(catalog, depot, costs, config);
            let b = catalog[i];
            &&& ledger.status(b.id) == entry_for(b, costs)
            &&& ledger.status(b.id) == Some(BldgState::Depot) <==> b.is_depot()
            &&& ledger.can_deliver(b.id) <==> b.is_residential()
            &&& ledger.status(b.id) is None <==> !b.is_residential() && !b.is_depot()
        }),
{
    let b = catalog[i];
    assert forall|j: int| i < j < catalog.len() implies (#[trigger] catalog[j]).id != b.id by {}
    lemma_initial_status_of_last(catalog, costs, i);
    let before = catalog.take(i);
    assert forall|j: int| 0 <= j < before.len() implies (#[trigger] before[j]).id.0 != b.id.0 by {
        assert(before[j] == catalog[j]);
        assert(catalog[j].id != catalog[i].id);
    }
    lemma_strangers_take_no_part(before, costs, b.id.0);
}

/// Every ledger can come after itself.
pub proof fn lemma_evolves_reflexive(ledger: SleighModel)
    ensures
        ledger.evolves_to(ledger),
{
}

/// What can come after what can come after a ledger can come after it.
pub proof fn lemma_evolves_transitive(a: SleighModel, b: SleighModel, c: SleighModel)
    requires
        a.evolves_to(b),
        b.evolves_to(c),
    ensures
        a.evolves_to(c),
{
    assert forall|k: usize| #[trigger] a.houses.contains_key(k) implies c.houses[k] == a.houses[k]
        || (a.houses[k] is Undelivered && c.houses[k] is Done) by {
        assert(b.houses.contains_key(k));
    }
}

/// A delivery, a recharge and the passing of time each lead to a ledger that
/// can come after the one they began with: no building joins or leaves, no
/// depot and no finished house changes, and the score does not sink.
pub proof fn lemma_every_step_evolves(ledger: SleighModel, id: BuildingId, dt: nat)
    ensures
        ledger.evolves_to(ledger.deliver(id)),
        ledger.evolves_to(ledger.recharge(id, dt)),
        ledger.evolves_to(ledger.decay(dt)),
{
}

/// Only a recharge adds energy, and it adds the recharge rate times the time
/// spent, up to the ceiling; a delivery and the passing of time take energy,
/// down to zero. So a sleigh without energy stays without until it recharges.
pub proof fn lemma_energy_moves(ledger: SleighModel, id: BuildingId, dt: nat)
    requires
        ledger.wf(),
    ensures
        ledger.deliver(id).energy <= ledger.energy,
        ledger.decay(dt).energy <= ledger.energy,
        dt >= ledger.energy ==> !ledger.decay(dt).has_energy(),
        ledger.status(id) == Some(BldgState::Depot) ==> ledger.recharge(id, dt).energy == ({
            let sum = ledger.energy + ledger.config.recharge_rate * dt;
            if sum <= ledger.config.max_energy {
                sum
            } else {
                ledger.config.max_energy as int
            }
        }),
        ledger.status(id) != Some(BldgState::Depot) ==> ledger.recharge(id, dt) == ledger,
        ledger.energy <= ledger.recharge(id, dt).energy <= ledger.config.max_energy,
{
    assert(ledger.config.recharge_rate * dt >= 0) by (nonlinear_arith)
        requires
            ledger.config.recharge_rate >= 0,
            dt >= 0,
    ;
}

/// A second delivery to the same house does nothing: after the first the
/// house does not wait any more, and an attempt on a house that does not
/// wait leaves the ledger as it is.
pub proof fn lemma_deliver_once(ledger: SleighModel, id: BuildingId)
    ensures
        !ledger.deliver(id).can_deliver(id),
        ledger.deliver(id).deliver(id) == ledger.deliver(id),
        !ledger.can_deliver(id) ==> ledger.deliver(id) == ledger,
{
}

/// One thing that can be done to a ledger.
pub enum Op {
    Deliver(BuildingId),
    Recharge(BuildingId, nat),
    Decay(nat),
}

/// The ledger after one thing has been done to it.
pub open spec fn apply(ledger: SleighModel, op: Op) -> SleighModel {
    match op {
        Op::Deliver(id) => ledger.deliver(id),
        Op::Recharge(id, dt) => ledger.recharge(id, dt),
        Op::Decay(dt) => ledger.decay(dt),
    }
}

/// The ledger after a row of things has been done to it, one after the other.
pub open spec fn run(ledger: SleighModel, ops: Seq<Op>) -> SleighModel
    decreases ops.len(),
{
    if ops.len() == 0 {
        ledger
    } else {
        apply(run(ledger, ops.drop_last()), ops.last())
    }
}

/// Whatever is done to a sound ledger, in whatever order: the energy stays
/// between zero and the ceiling, the score fits and does not sink, and the
/// buildings keep their classes.
pub proof fn lemma_run_keeps_wf(ledger: SleighModel, ops: Seq<Op>)
    requires
        ledger.wf(),
    ensures
        run(ledger, ops).wf(),
        0 <= run(ledger, ops).energy <= ledger.config.max_energy,
        ledger.score <= run(ledger, ops).score <= usize::MAX,
        ledger.evolves_to(run(ledger, ops)),
    decreases ops.len(),
{
    if ops.len() > 0 {
        let before = run(ledger, ops.drop_last());
        lemma_run_keeps_wf(ledger, ops.drop_last());
        match ops.last() {
            Op::Deliver(id) => {
                lemma_deliver_keeps_wf(before, id);
            },
            _ => {},
        }
        lemma_every_step_evolves(
            before,
            match ops.last() {
                Op::Deliver(id) => id,
                Op::Recharge(id, _) => id,
                Op::Decay(_) => BuildingId(0),
            },
            match ops.last() {
                Op::Deliver(_) => 0,
                Op::Recharge(_, dt) => dt,
                Op::Decay(dt) => dt,
            },
        );
        lemma_evolves_transitive(ledger, before, run(ledger, ops));
    }
}

/// The ledger after an attempt to deliver to each of `ids` in turn.
pub open spec fn deliver_all(ledger: SleighModel, ids: Seq<BuildingId>) -> SleighModel
    decreases ids.len(),
{
    if ids.len() == 0 {
        ledger
    } else {
        deliver_all(ledger, ids.drop_last()).deliver(ids.last())
    }
}

/// The rewards that the ledger holds for `ids`, added up.
pub open spec fn rewards(ledger: SleighModel, ids: Seq<BuildingId>) -> nat
    decreases ids.len(),
{
    if ids.len() == 0 {
        0
    } else {
        rewards(ledger, ids.drop_last()) + ledger.houses[ids.last().0].reward()
    }
}

/// The houses after an attempt to deliver to each of `ids`: those of them
/// that waited are done, in whatever order they were visited, and nothing
/// else has changed.
pub open spec fn houses_after(houses: Map<usize, BldgState>, ids: Seq<BuildingId>) -> Map<
    usize,
    BldgState,
> {
    Map::new(
        |k: usize| houses.contains_key(k),
        |k: usize|
            if ids.contains(BuildingId(k)) && houses[k] is Undelivered {
                BldgState::Done
            } else {
                houses[k]
            },
    )
}

/// Deliveries in a row leave the houses as `houses_after` says, and move
/// from what is pending to the score exactly what they take: score and
/// pending rewards together stay what they were.
pub proof fn lemma_deliver_all(ledger: SleighModel, ids: Seq<BuildingId>)
    ensures
        deliver_all(ledger, ids).houses == houses_after(ledger.houses, ids),
        deliver_all(ledger, ids).score + pending(deliver_all(ledger, ids).houses) == ledger.score
            + pending(ledger.houses),
    decreases ids.len(),
{
    if ids.len() == 0 {
        assert(deliver_all(ledger, ids).houses =~= houses_after(ledger.houses, ids));
    } else {
        let earlier = ids.drop_last();
        let before = deliver_all(ledger, earlier);
        lemma_deliver_all(ledger, earlier);
        lemma_deliver_keeps_wf(before, ids.last());
        assert forall|id: BuildingId| ids.contains(id) <==> earlier.contains(id) || id
            == ids.last() by {
            if earlier.contains(id) {
                let i = choose|i: int| 0 <= i < earlier.len() && earlier[i] == id;
                assert(ids[i] == id);
            }
            if ids.contains(id) && id != ids.last() {
                let i = choose|i: int| 0 <= i < ids.len() && ids[i] == id;
                assert(earlier[i] == id);
            }
            if id == ids.last() {
                assert(ids[ids.len() - 1] == id);
            }
        }
        assert(before.deliver(ids.last()).houses =~= houses_after(ledger.houses, ids));
    }
}

/// The score after deliveries to houses that all wait, each visited once, is
/// the score before and the rewards of those houses together.
pub proof fn lemma_score_is_sum_of_rewards(ledger: SleighModel, ids: Seq<BuildingId>)
    requires
        ids.no_duplicates(),
        forall|i: int| 0 <= i < ids.len() ==> ledger.can_deliver(#[trigger] ids[i]),
    ensures
        deliver_all(ledger, ids).score == ledger.score + rewards(ledger, ids),
    decreases ids.len(),
{
    if ids.len() > 0 {
        let earlier = ids.drop_last();
        let last = ids.last();
        assert(earlier.no_duplicates());
        assert forall|i: int| 0 <= i < earlier.len() implies ledger.can_deliver(
            #[trigger] earlier[i],
        ) by {
            assert(earlier[i] == ids[i]);
        }
        lemma_score_is_sum_of_rewards(ledger, earlier);
        lemma_deliver_all(ledger, earlier);
        assert(ledger.can_deliver(ids[ids.len() - 1]));
        if earlier.contains(last) {
            let i = choose|i: int| 0 <= i < earlier.len() && earlier[i] == last;
            assert(ids[i] == ids[ids.len() - 1]);
        }
        assert(deliver_all(ledger, earlier).status(last) == ledger.status(last));
    }
}

/// The order of deliveries does not matter to the score: two rows of visits
/// to the same houses end with the same score and the same houses.
pub proof fn lemma_delivery_order(ledger: SleighModel, a: Seq<BuildingId>, b: Seq<BuildingId>)
    requires
        forall|id: BuildingId| a.contains(id) <==> b.contains(id),
    ensures
        deliver_all(ledger, a).score == deliver_all(ledger, b).score,
        deliver_all(ledger, a).houses == deliver_all(ledger, b).houses,
{
    lemma_deliver_all(ledger, a);
    lemma_deliver_all(ledger, b);
    assert(houses_after(ledger.houses, a) =~= houses_after(ledger.houses, b));
}

/// A tick in which the sleigh does not move leaves the building under it,
/// and its mark, as they were.
pub proof fn lemma_still_keeps_key(game: GameModel, input: Input)
    requires
        game.wf(),
        input.under_sleigh is None,
    ensures
        game.step(input).over_bldg == game.over_bldg,
        game.step(input).key() == game.key(),
        !game.reaction(input).highlight_changed,
{
}

/// What a tick does not report has not happened: without `redraw` the houses
/// are as they were, and without `panel_changed` the panel has nothing new
/// to say.
pub proof fn lemma_quiet_tick(game: GameModel, input: Input)
    ensures
        !game.reaction(input).redraw ==> game.step(input).state.houses == game.state.houses,
        !game.reaction(input).panel_changed ==> game.step(input).state == game.state
            && game.step(input).panel() == game.panel(),
        !game.reaction(input).highlight_changed ==> game.step(input).layers() == game.layers(),
        game.state.evolves_to(game.step(input).state),
{
    let moved = game.after_move(input.hits());
    let delivered = moved.after_delivery();
    if moved.delivers() {
        lemma_every_step_evolves(moved.state, moved.key().unwrap(), 0);
    }
    if input.dt is Some {
        let id = if delivered.key() is Some {
            delivered.key().unwrap()
        } else {
            game.state.depot
        };
        lemma_every_step_evolves(delivered.state, id, input.dt.unwrap() as nat);
    }
    lemma_evolves_transitive(game.state, delivered.state, game.step(input).state);
}

/// Where footprints do not overlap, at most one building is under the
/// sleigh: that building is the one it is over if the sleigh can do
/// something there, and else the sleigh is over none.
pub proof fn lemma_over_one_building(ledger: SleighModel, id: BuildingId)
    ensures
        first_interactive(seq![id], ledger) == if is_interactive(ledger, id) {
            Some(id)
        } else {
            None
        },
        first_interactive(Seq::<BuildingId>::empty(), ledger) is None,
{
    let hits = seq![id];
    if is_interactive(ledger, id) {
        assert(is_first_interactive(hits, ledger, 0));
        let w = choose|w: int| is_first_interactive(hits, ledger, w);
        lemma_first_interactive_unique(hits, ledger, 0, w);
    }
}

/// After a tick in which the sleigh moved onto the footprint of `id` alone:
/// the sleigh is over `id` if `id` is a depot, or a house that waits while
/// the sleigh has no energy to deliver; a house with energy at hand is
/// delivered to at once; and over a house that is done, or a building that
/// takes no part, the sleigh is over nothing.
pub proof fn lemma_moved_onto(game: GameModel, input: Input, id: BuildingId)
    requires
        game.wf(),
        input.hits() == Some(seq![id]),
    ensures
        ({
            let next = game.step(input);
            &&& next.key() is Some ==> next.key() == Some(id) && is_interactive(next.state, id)
            &&& !is_interactive(game.state, id) ==> next.key() is None
            &&& game.state.status(id) == Some(BldgState::Depot) ==> next.key() == Some(id)
            &&& game.state.can_deliver(id) && game.state.has_energy() ==> next.key() is None
                && next.state.status(id) == Some(BldgState::Done)
            &&& game.state.can_deliver(id) && !game.state.has_energy() ==> next.key() == Some(id)
        }),
{
    lemma_over_one_building(game.state, id);
}

/// Between ticks the sleigh is never over a house that is done, nor over a
/// building that takes no part.
pub proof fn lemma_key_is_interactive(game: GameModel)
    requires
        game.wf(),
    ensures
        game.key() matches Some(id) ==> is_interactive(game.state, id),
{
}

} // verus!
