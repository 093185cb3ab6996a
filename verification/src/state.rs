//! The ledger of one game: which houses wait for a delivery, the score and
//! the energy of the sleigh.

use std::collections::HashMap;
use vstd::prelude::*;
use vstd::std_specs::iter::IteratorSpec;
use crate::buildings::{Building, BuildingId, BuildingType};
use crate::render::{cost_color, cost_color_spec, Color, Fill, ScoreLabel};

verus! {

broadcast use vstd::std_specs::hash::group_hash_axioms;

/// Where one building stands in the game.
#[derive(Clone, Copy, Debug, PartialEq, Eq, Structural)]
pub enum BldgState {
    /// A house that waits for its delivery. `score` is the reward, `cost` the
    /// travel time from the depot, which the delivery takes out of the
    /// sleigh's energy.
    Undelivered { score: usize, cost: u64 },
    /// A building at which the sleigh may recharge.
    Depot,
    /// A house that has had its delivery. Nothing leads out of this state.
    Done,
}

impl BldgState {
    /// What delivering to a building in this state would add to the score.
    pub open spec fn reward(self) -> nat {
        match self {
            BldgState::Undelivered { score, .. } => score as nat,
            _ => 0,
        }
    }

    /// The sleigh can do something at a building in this state.
    pub open spec fn is_interactive(self) -> bool {
        self !is Done
    }
}

/// The two numbers that tune the energy of the sleigh.
#[derive(Clone, Copy, Debug, PartialEq, Eq, Structural)]
pub struct Config {
    /// Energy gained per unit of time spent recharging.
    pub recharge_rate: u64,
    /// The ceiling of the energy, and the energy a game starts with.
    pub max_energy: u64,
}

/// Why a game could not be set up.
#[derive(Clone, Copy, Debug, PartialEq, Eq, Structural)]
pub enum SetupError {
    /// The map has no commercial building to start from.
    NoDepot,
    /// The rewards of all houses together do not fit the score.
    ScoreOverflow,
}

/// The reward waiting at key `k`, nothing where there is no such house.
pub open spec fn reward_at(houses: Map<usize, BldgState>, k: int) -> nat {
    if 0 <= k <= usize::MAX && houses.contains_key(k as usize) {
        houses[k as usize].reward()
    } else {
        0
    }
}

/// The rewards waiting at the keys below `n`, added up.
pub open spec fn pending_below(houses: Map<usize, BldgState>, n: int) -> nat
    decreases n,
{
    if n <= 0 {
        0
    } else {
        pending_below(houses, n - 1) + reward_at(houses, n - 1)
    }
}

/// All rewards that still wait for their delivery, added up.
pub open spec fn pending(houses: Map<usize, BldgState>) -> nat {
    pending_below(houses, usize::MAX + 1)
}

/// Changing the entry of one key changes the sum by that key's reward alone.
pub proof fn lemma_pending_insert(houses: Map<usize, BldgState>, k: usize, v: BldgState, n: int)
    ensures
        pending_below(houses.insert(k, v), n) + (if k < n {
            reward_at(houses, k as int)
        } else {
            0
        }) == pending_below(houses, n) + (if k < n {
            v.reward()
        } else {
            0
        }),
    decreases n,
{
    if n > 0 {
        lemma_pending_insert(houses, k, v, n - 1);
    }
}

/// Where there are no houses, nothing waits.
pub proof fn lemma_pending_empty(n: int)
    ensures
        pending_below(Map::<usize, BldgState>::empty(), n) == 0,
    decreases n,
{
    if n > 0 {
        lemma_pending_empty(n - 1);
    }
}

/// No single reward is more than all of them together.
pub proof fn lemma_pending_covers(houses: Map<usize, BldgState>, k: usize)
    ensures
        reward_at(houses, k as int) <= pending(houses),
{
    lemma_pending_insert(houses, k, BldgState::Done, usize::MAX + 1);
}

/// The travel time to a building: what the cost field says, and zero for a
/// building it does not reach.
pub open spec fn cost_of(costs: Map<usize, u64>, id: BuildingId) -> u64 {
    if costs.contains_key(id.0) {
        costs[id.0]
    } else {
        0
    }
}

/// The state in which a building enters the game: a residential building
/// waits for its delivery, with its number as the reward; any other building
/// with an amenity is a depot; the rest take no part.
pub open spec fn entry_for(b: Building, costs: Map<usize, u64>) -> Option<BldgState> {
    if b.is_residential() {
        Some(BldgState::Undelivered { score: b.id.0, cost: cost_of(costs, b.id) })
    } else if b.amenities > 0 {
        Some(BldgState::Depot)
    } else {
        None
    }
}

/// The state in which the building numbered `k` enters the game. Should
/// several buildings of the catalog carry that number, the last of them that
/// takes part decides.
pub open spec fn initial_status(catalog: Seq<Building>, costs: Map<usize, u64>, k: usize) -> Option<
    BldgState,
>
    decreases catalog.len(),
{
    if catalog.len() == 0 {
        None
    } else if catalog.last().id.0 == k && entry_for(catalog.last(), costs) is Some {
        entry_for(catalog.last(), costs)
    } else {
        initial_status(catalog.drop_last(), costs, k)
    }
}

/// The houses of a game that begins on this catalog.
pub open spec fn initial_houses(catalog: Seq<Building>, costs: Map<usize, u64>) -> Map<
    usize,
    BldgState,
> {
    Map::new(
        |k: usize| initial_status(catalog, costs, k) is Some,
        |k: usize| initial_status(catalog, costs, k).unwrap(),
    )
}

/// What is written on a residential building.
pub open spec fn label_for(b: Building, costs: Map<usize, u64>) -> ScoreLabel {
    ScoreLabel {
        building: b.id,
        score: b.id.0,
        cost: cost_of(costs, b.id),
        color: cost_color_spec(cost_of(costs, b.id)),
    }
}

/// The labels of a game that begins on this catalog: one for each
/// residential building, in catalog order.
pub open spec fn initial_labels(catalog: Seq<Building>, costs: Map<usize, u64>) -> Seq<ScoreLabel>
    decreases catalog.len(),
{
    if catalog.len() == 0 {
        Seq::empty()
    } else if catalog.last().is_residential() {
        initial_labels(catalog.drop_last(), costs).push(label_for(catalog.last(), costs))
    } else {
        initial_labels(catalog.drop_last(), costs)
    }
}

/// The mathematical content of a `SleighState`.
pub struct SleighModel {
    /// The building the game started from.
    pub depot: BuildingId,
    pub score: nat,
    pub energy: nat,
    /// The state of every building that takes part, by the number of its id.
    pub houses: Map<usize, BldgState>,
    pub config: Config,
    /// The labels of the houses, as they were written when the game began.
    pub labels: Seq<ScoreLabel>,
}

impl SleighModel {
    /// The state of a building; `None` for one that takes no part.
    pub open spec fn status(self, id: BuildingId) -> Option<BldgState> {
        if self.houses.contains_key(id.0) {
            Some(self.houses[id.0])
        } else {
            None
        }
    }

    /// The sleigh has energy left.
    pub open spec fn has_energy(self) -> bool {
        self.energy > 0
    }

    /// The ledger of a game that begins: nothing scored, full energy.
    pub open spec fn initial(
        catalog: Seq<Building>,
        depot: BuildingId,
        costs: Map<usize, u64>,
        config: Config,
    ) -> SleighModel {
        SleighModel {
            depot,
            score: 0,
            energy: config.max_energy as nat,
            houses: initial_houses(catalog, costs),
            config,
            labels: initial_labels(catalog, costs),
        }
    }

    /// The house `id` waits for its delivery.
    pub open spec fn can_deliver(self, id: BuildingId) -> bool {
        self.status(id) matches Some(BldgState::Undelivered { .. })
    }

    /// `next` can come after this ledger in a game: the same buildings take
    /// part, a depot is still a depot, a house that is done is still done, a
    /// house that waits still waits for the same or is done, the score is not
    /// less, and what was fixed at the beginning is as it was.
    pub open spec fn evolves_to(self, next: SleighModel) -> bool {
        &&& next.depot == self.depot
        &&& next.config == self.config
        &&& next.labels == self.labels
        &&& next.score >= self.score
        &&& forall|k: usize| self.houses.contains_key(k) <==> next.houses.contains_key(k)
        &&& forall|k: usize| #[trigger]
            self.houses.contains_key(k) ==> {
                ||| next.houses[k] == self.houses[k]
                ||| self.houses[k] is Undelivered && next.houses[k] is Done
            }
    }

    /// What holds of every state a game can be in.
    pub open spec fn wf(self) -> bool {
        &&& self.energy <= self.config.max_energy
        &&& self.score + pending(self.houses) <= usize::MAX
    }

    /// `batch` paints this ledger: every house that is done in black, each
    /// once, and after them the depot in green.
    pub open spec fn painted_by(self, batch: Seq<Fill>) -> bool {
        &&& batch.len() >= 1
        &&& batch.last() == Fill { color: Color::Green, building: self.depot }
        &&& forall|i: int|
            0 <= i < batch.len() - 1 ==> (#[trigger] batch[i]).color == Color::Black
                && self.status(batch[i].building) == Some(BldgState::Done)
        &&& forall|i: int, j: int|
            0 <= i < j < batch.len() - 1 ==> (#[trigger] batch[i]).building != (
            #[trigger] batch[j]).building
        &&& forall|id: BuildingId|
            self.status(id) == Some(BldgState::Done) ==> exists|i: int|
                0 <= i < batch.len() - 1 && (#[trigger] batch[i]).building == id
    }

    /// The ledger after an attempt to deliver to `id`.
    pub open spec fn deliver(self, id: BuildingId) -> SleighModel {
        match self.status(id) {
            Some(BldgState::Undelivered { score, cost }) => SleighModel {
                score: self.score + score as nat,
                energy: if self.energy >= cost {
                    (self.energy - cost) as nat
                } else {
                    0
                },
                houses: self.houses.insert(id.0, BldgState::Done),
                ..self
            },
            _ => self,
        }
    }

    /// The ledger after an attempt to recharge at `id` for `dt`.
    pub open spec fn recharge(self, id: BuildingId, dt: nat) -> SleighModel {
        if self.status(id) == Some(BldgState::Depot) {
            let sum = self.energy + self.config.recharge_rate as nat * dt;
            SleighModel {
                energy: if sum <= self.config.max_energy {
                    sum
                } else {
                    self.config.max_energy as nat
                },
                ..self
            }
        } else {
            self
        }
    }

    /// The ledger after `dt` has passed without recharging.
    pub open spec fn decay(self, dt: nat) -> SleighModel {
        SleighModel {
            energy: if self.energy >= dt {
                (self.energy - dt) as nat
            } else {
                0
            },
            ..self
        }
    }
}

/// A delivery moves the reward of the house from what is pending to the
/// score, so that the two together stay what they were, and a sound ledger
/// stays sound.
pub proof fn lemma_deliver_keeps_wf(ledger: SleighModel, id: BuildingId)
    ensures
        ledger.deliver(id).score + pending(ledger.deliver(id).houses) == ledger.score + pending(
            ledger.houses,
        ),
        ledger.wf() ==> ledger.deliver(id).wf(),
{
    lemma_pending_insert(ledger.houses, id.0, BldgState::Done, usize::MAX + 1);
}

/// The ledger of a running game.
pub struct SleighState {
    depot: BuildingId,
    score: usize,
    energy: u64,
    houses: HashMap<usize, BldgState>,
    draw_scores: Vec<ScoreLabel>,
    config: Config,
}

impl View for SleighState {
    type V = SleighModel;

    closed spec fn view(&self) -> SleighModel {
        SleighModel {
            depot: self.depot,
            score: self.score as nat,
            energy: self.energy as nat,
            houses: self.houses@,
            config: self.config,
            labels: self.draw_scores@,
        }
    }
}

impl SleighState {
    #[verifier::type_invariant]
    spec fn inv(&self) -> bool {
        self@.wf()
    }

    /// Begins a game on `catalog`. `house_costs` holds the travel time from
    /// `depot` to every building that can be reached from it, by the number
    /// of the building's id.
    ///
    /// Fails only where the rewards of all houses together are more than a
    /// score can hold.
    pub fn new(
        catalog: &Vec<Building>,
        depot: BuildingId,
        house_costs: &HashMap<usize, u64>,
        config: Config,
    ) -> (made: Result<SleighState, SetupError>)
        ensures
            made is Ok <==> pending(initial_houses(catalog@, house_costs@)) <= usize::MAX,
            made matches Ok(s) ==> s@ == SleighModel::initial(
                catalog@,
                depot,
                house_costs@,
                config,
            ) && s@.wf(),
            made matches Err(e) ==> e == SetupError::ScoreOverflow,
    {
        let mut houses: HashMap<usize, BldgState> = HashMap::new();
        let mut labels: Vec<ScoreLabel> = Vec::new();
        let mut total: u128 = 0;
        let mut i: usize = 0;
        proof {
            lemma_pending_empty(usize::MAX + 1);
            assert(houses@ =~= initial_houses(catalog@.take(0), house_costs@));
        }
        while i < catalog.len()
            invariant
                i <= catalog.len(),
                houses@ == initial_houses(catalog@.take(i as int), house_costs@),
                labels@ == initial_labels(catalog@.take(i as int), house_costs@),
                total == pending(houses@),
                total <= i * 0xffff_ffff_ffff_ffff,
            decreases catalog.len() - i,
        {
            let b = catalog[i];
            let ghost before = houses@;
            proof {
                assert(catalog@.take(i + 1).drop_last() =~= catalog@.take(i as int));
                assert(catalog@.take(i + 1).last() == b);
                lemma_pending_covers(before, b.id.0);
            }
            match b.bldg_type {
                BuildingType::Residential => {
                    let score = b.id.0;
                    let cost = match house_costs.get(&b.id.0) {
                        Some(c) => *c,
                        None => 0,
                    };
                    let state = BldgState::Undelivered { score, cost };
                    proof {
                        lemma_pending_insert(before, b.id.0, state, usize::MAX + 1);
                    }
                    let gone = match houses.insert(b.id.0, state) {
                        Some(BldgState::Undelivered { score, .. }) => score as u128,
                        _ => 0,
                    };
                    total = total + score as u128 - gone;
                    labels.push(
                        ScoreLabel { building: b.id, score, cost, color: cost_color(cost) },
                    );
                },
                _ => {
                    if b.amenities > 0 {
                        proof {
                            lemma_pending_insert(before, b.id.0, BldgState::Depot, usize::MAX + 1);
                        }
                        let gone = match houses.insert(b.id.0, BldgState::Depot) {
                            Some(BldgState::Undelivered { score, .. }) => score as u128,
                            _ => 0,
                        };
                        total = total - gone;
                    }
                },
            }
            i += 1;
            proof {
                assert(houses@ =~= initial_houses(catalog@.take(i as int), house_costs@));
            }
        }
        proof {
            assert(catalog@.take(catalog.len() as int) =~= catalog@);
        }
        if total > usize::MAX as u128 {
            Err(SetupError::ScoreOverflow)
        } else {
            Ok(SleighState {
                depot,
                score: 0,
                energy: config.max_energy,
                houses,
                draw_scores: labels,
                config,
            })
        }
    }

    /// The building the game started from.
    pub fn depot(&self) -> (depot: BuildingId)
        ensures
            depot == self@.depot,
    {
        self.depot
    }

    /// The rewards of all deliveries made so far.
    pub fn score(&self) -> (score: usize)
        ensures
            score == self@.score,
            self@.wf(),
    {
        proof {
            use_type_invariant(self);
        }
        self.score
    }

    /// The energy the sleigh has left, between zero and the ceiling.
    pub fn energy(&self) -> (energy: u64)
        ensures
            energy == self@.energy,
            energy <= self@.config.max_energy,
            self@.wf(),
    {
        proof {
            use_type_invariant(self);
        }
        self.energy
    }

    /// The numbers this game is tuned with.
    pub fn config(&self) -> (config: Config)
        ensures
            config == self@.config,
    {
        self.config
    }

    /// The state of a building; `None` for one that takes no part.
    pub fn status(&self, id: BuildingId) -> (status: Option<BldgState>)
        ensures
            status == self@.status(id),
    {
        match self.houses.get(&id.0) {
            Some(state) => Some(*state),
            None => None,
        }
    }

    /// The labels of the houses, as written when the game began.
    pub fn draw_scores(&self) -> (labels: &Vec<ScoreLabel>)
        ensures
            labels@ == self@.labels,
    {
        &self.draw_scores
    }

    /// The sleigh has energy left. Without it no delivery is made until it
    /// has recharged.
    pub fn has_energy(&self) -> (yes: bool)
        ensures
            yes == self@.has_energy(),
    {
        self.energy > 0
    }

    /// Recharges the sleigh if `id` is a depot: the energy grows by the
    /// recharge rate times `dt`, but not beyond the ceiling. Tells whether it
    /// did; if not, nothing has changed.
    pub fn recharge(&mut self, id: BuildingId, dt: u64) -> (changed: bool)
        ensures
            changed == (old(self)@.status(id) == Some(BldgState::Depot)),
            final(self)@ == old(self)@.recharge(id, dt as nat),
            final(self)@.wf(),
    {
        proof {
            use_type_invariant(&*self);
        }
        match self.houses.get(&id.0) {
            Some(BldgState::Depot) => {
                let rate = self.config.recharge_rate as u128;
                assert(rate * (dt as u128) <= 0xffff_ffff_ffff_ffff * 0xffff_ffff_ffff_ffff)
                    by (nonlinear_arith)
                    requires
                        rate <= 0xffff_ffff_ffff_ffff,
                        dt <= 0xffff_ffff_ffff_ffff,
                ;
                let sum: u128 = self.energy as u128 + rate * (dt as u128);
                if sum <= self.config.max_energy as u128 {
                    self.energy = sum as u64;
                } else {
                    self.energy = self.config.max_energy;
                }
                true
            },
            _ => false,
        }
    }

    /// Lets `dt` pass without recharging: the energy sinks by `dt`, but not
    /// below zero.
    pub fn apply_decay(&mut self, dt: u64)
        ensures
            final(self)@ == old(self)@.decay(dt as nat),
            final(self)@.wf(),
    {
        proof {
            use_type_invariant(&*self);
        }
        if self.energy >= dt {
            self.energy = self.energy - dt;
        } else {
            self.energy = 0;
        }
    }

    /// Delivers to `id` if that house still waits: the house is done, its
    /// reward goes to the score and its travel time comes out of the energy,
    /// which stops at zero. Tells whether it did; if not, nothing has
    /// changed.
    pub fn present_dropped(&mut self, id: BuildingId) -> (changed: bool)
        ensures
            changed == old(self)@.can_deliver(id),
            final(self)@ == old(self)@.deliver(id),
            final(self)@.wf(),
    {
        proof {
            use_type_invariant(&*self);
        }
        let found = match self.houses.get(&id.0) {
            Some(BldgState::Undelivered { score, cost }) => Some((*score, *cost)),
            _ => None,
        };
        match found {
            Some((score, cost)) => {
                proof {
                    lemma_pending_insert(self.houses@, id.0, BldgState::Done, usize::MAX + 1);
                    lemma_pending_empty(usize::MAX + 1);
                }
                // The houses are taken out while they change, so that the
                // ledger is sound at every point in between.
                let mut houses = HashMap::new();
                std::mem::swap(&mut houses, &mut self.houses);
                houses.insert(id.0, BldgState::Done);
                std::mem::swap(&mut houses, &mut self.houses);
                self.score = self.score + score;
                if self.energy >= cost {
                    self.energy = self.energy - cost;
                } else {
                    self.energy = 0;
                }
                true
            },
            None => false,
        }
    }

    /// Lists what shows the progress of the game on the map: a black fill
    /// for every house that is done, then a green one for the depot. The
    /// order of the black fills is not fixed.
    pub fn redraw(&self) -> (batch: Vec<Fill>)
        ensures
            self@.painted_by(batch@),
    {
        let mut batch: Vec<Fill> = Vec::new();
        for entry in it: self.houses.iter()
            invariant
                it.seq() == self.houses.iter().remaining(),
                it.seq().no_duplicates(),
                forall|j: int|
                    0 <= j < batch.len() ==> (#[trigger] batch[j]).color == Color::Black
                        && self.houses@.contains_key(batch[j].building.0)
                        && self.houses@[batch[j].building.0] == BldgState::Done
                        && exists|p: int|
                        0 <= p < it.index() && *(#[trigger] it.seq()[p]).0 == batch[j].building.0,
                forall|p: int|
                    0 <= p < it.index() && *(#[trigger] it.seq()[p]).1 == BldgState::Done
                        ==> exists|j: int|
                        0 <= j < batch.len() && (#[trigger] batch[j]).building.0 == *it.seq()[p].0,
                forall|i: int, j: int|
                    0 <= i < j < batch.len() ==> (#[trigger] batch[i]).building != (
                    #[trigger] batch[j]).building,
        {
            let (k, v) = entry;
            let ghost seen = batch@;
            match v {
                BldgState::Done => {
                    batch.push(Fill { color: Color::Black, building: BuildingId(*k) });
                },
                _ => {},
            }
            proof {
                assert forall|p: int|
                    0 <= p < it.index() + 1 && *(#[trigger] it.seq()[p]).1
                        == BldgState::Done implies exists|j: int|
                    0 <= j < batch.len() && (#[trigger] batch[j]).building.0 == *it.seq()[p].0 by {
                    if p < it.index() {
                        let key = *it.seq()[p].0;
                        let j = choose|j: int|
                            0 <= j < seen.len() && (#[trigger] seen[j]).building.0 == key;
                        assert(batch[j] == seen[j]);
                    } else {
                        assert(batch[batch.len() - 1].building.0 == *k);
                    }
                }
            }
        }
        proof {
            let walked = self.houses.iter().remaining();
            assert forall|id: BuildingId|
                self@.status(id) == Some(BldgState::Done) implies exists|i: int|
                0 <= i < batch.len() && (#[trigger] batch[i]).building == id by {
                assert(self.houses@.contains_key(id.0));
                assert(walked.contains((&id.0, &self.houses@[id.0])));
                let p = choose|p: int|
                    0 <= p < walked.len() && walked[p] == (&id.0, &self.houses@[id.0]);
                assert(*walked[p].1 == BldgState::Done);
                let j = choose|j: int|
                    0 <= j < batch.len() && (#[trigger] batch[j]).building.0 == *walked[p].0;
                assert(batch[j].building == id);
            }
        }
        let ghost blacks = batch@;
        batch.push(Fill { color: Color::Green, building: self.depot });
        proof {
            assert forall|i: int| 0 <= i < batch.len() - 1 implies (#[trigger] batch[i])
                == blacks[i] by {}
            assert forall|id: BuildingId|
                self@.status(id) == Some(BldgState::Done) implies exists|i: int|
                0 <= i < batch.len() - 1 && (#[trigger] batch[i]).building == id by {
                let i = choose|i: int|
                    0 <= i < blacks.len() && (#[trigger] blacks[i]).building == id;
                assert(batch[i] == blacks[i]);
            }
        }
        batch
    }
}

} // verus!
