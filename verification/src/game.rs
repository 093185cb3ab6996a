//! One game, and what one tick does to it.
//!
//! The caller owns the window, the map and the position of the sleigh. Once
//! per tick it gathers what happened into an `Input`, hands it to
//! `Game::event`, and carries out what the `Reaction` asks for.

use std::collections::HashMap;
use vstd::prelude::*;
use crate::buildings::{find_depot, first_commercial, Building, BuildingId};
use crate::cached::{key_of, Cached};
use crate::over_bldg::{first_interactive, highlight, is_interactive, OverBldg};
use crate::render::Fill;
use crate::state::{
    initial_houses, lemma_deliver_keeps_wf, pending, BldgState, Config, SetupError, SleighModel,
    SleighState,
};

verus! {

/// Energy gained per unit of time spent recharging.
pub const RECHARGE_RATE: u64 = 1000;

/// The energy a sleigh can hold: ninety minutes.
pub const MAX_ENERGY: u64 = 54_000_000;

/// How far from the depot travel times are worked out: three hours.
pub const COST_BUDGET: u64 = 108_000_000;

/// The speed of the sleigh, in miles per hour.
pub const SPEED_MPH: u64 = 30;

/// Buildings within this many meters of the sleigh are looked at when the
/// building under it is sought.
pub const PROBE_RADIUS_METERS: u64 = 3;

/// The radius of the disc that shows the sleigh, in meters.
pub const SLEIGH_RADIUS_METERS: u64 = 5;

/// How the keys move the sleigh.
#[derive(Clone, Copy, Debug, PartialEq, Eq, Structural)]
pub enum ControlType {
    /// The arrow keys move the sleigh along the axes of the map.
    Instant,
    /// The sleigh has a heading; keys turn it and drive it forward.
    Rotate,
}

/// What the panel reported this tick.
#[derive(Clone, Copy, Debug, PartialEq, Eq, Structural)]
pub enum PanelEvent {
    Nothing,
    /// The close button was clicked.
    Close,
    /// The button to change the map was clicked.
    ChangeMap,
    /// The control type was switched; `rotate` is the new setting.
    ControlType { rotate: bool },
}

/// What the caller saw happen in one tick.
#[derive(Clone, Debug)]
pub struct Input {
    /// `None` where the sleigh did not move. Where it did, the buildings
    /// whose footprint holds its new position, in the order in which the map
    /// hands them out.
    pub under_sleigh: Option<Vec<BuildingId>>,
    /// The time that has passed, where this tick is driven by the clock.
    pub dt: Option<u64>,
    /// The recharge key is held down.
    pub recharge_held: bool,
}

impl Input {
    /// The buildings under the sleigh, where it moved.
    pub open spec fn hits(self) -> Option<Seq<BuildingId>> {
        match self.under_sleigh {
            Some(under) => Some(under@),
            None => None,
        }
    }
}

/// What becomes of the game once the panel has been heard.
#[derive(Clone, Copy, Debug, PartialEq, Eq, Structural)]
pub enum Transition {
    /// The game goes on.
    Keep,
    /// The game is left.
    Pop,
    /// The player picks another map, on which a new game begins.
    ChangeMap,
}

/// What the caller has to do after a tick.
#[derive(Clone, Copy, Debug, PartialEq, Eq, Structural)]
pub struct Reaction {
    /// The mark on the building under the sleigh is no longer the one that
    /// was drawn.
    pub highlight_changed: bool,
    /// A delivery was made: the fills of `SleighState::redraw` are new.
    pub redraw: bool,
    /// Score or energy were touched: the panel is to be written again.
    pub panel_changed: bool,
}

/// The energy line of the panel.
#[derive(Clone, Copy, Debug, PartialEq, Eq, Structural)]
pub enum EnergyLine {
    /// The energy that is left.
    Left(u64),
    /// The energy is used up: the player is told to refuel.
    Refuel,
}

/// What the panel says.
#[derive(Clone, Copy, Debug, PartialEq, Eq, Structural)]
pub struct PanelText {
    pub score: usize,
    pub energy: EnergyLine,
}

/// One thing drawn in a frame.
#[derive(Clone, Copy, Debug, PartialEq, Eq, Structural)]
pub enum Layer {
    Panel,
    /// The labels of the houses.
    Scores,
    /// The fills of `SleighState::redraw`.
    Done,
    /// The mark on the building under the sleigh.
    Highlight(Fill),
    /// The red disc of the sleigh.
    Sleigh,
}

/// The mathematical content of a `Game`.
pub struct GameModel {
    pub controls: ControlType,
    pub state: SleighModel,
    pub over_bldg: Option<(BuildingId, OverBldg)>,
}

impl GameModel {
    /// The game as it begins on a catalog with the given depot.
    pub open spec fn initial(
        catalog: Seq<Building>,
        depot: BuildingId,
        costs: Map<usize, u64>,
    ) -> GameModel {
        GameModel {
            controls: ControlType::Instant,
            state: SleighModel::initial(
                catalog,
                depot,
                costs,
                Config { recharge_rate: RECHARGE_RATE, max_energy: MAX_ENERGY },
            ),
            over_bldg: None,
        }
    }

    /// What holds of every game between two ticks: the ledger is sound; the
    /// marked building is marked in the one way there is; and it is a depot,
    /// or a house that still waits because the sleigh has no energy to
    /// deliver.
    pub open spec fn wf(self) -> bool {
        &&& self.state.wf()
        &&& self.over_bldg matches Some((id, mark)) ==> {
            &&& mark == highlight(id)
            &&& self.state.status(id) matches Some(state)
            &&& state is Depot || (state is Undelivered && !self.state.has_energy())
        }
    }

    /// The building the sleigh is over.
    pub open spec fn key(self) -> Option<BuildingId> {
        key_of(self.over_bldg)
    }

    /// The game after the sleigh has moved, or has not.
    pub open spec fn after_move(self, hits: Option<Seq<BuildingId>>) -> GameModel {
        match hits {
            Some(hits) => {
                let key = first_interactive(hits, self.state);
                if key == self.key() {
                    self
                } else {
                    GameModel {
                        over_bldg: match key {
                            Some(id) => Some((id, highlight(id))),
                            None => None,
                        },
                        ..self
                    }
                }
            },
            None => self,
        }
    }

    /// The sleigh is over a house that waits, and has the energy to deliver.
    pub open spec fn delivers(self) -> bool {
        &&& self.over_bldg matches Some((id, _))
        &&& self.state.has_energy()
        &&& self.state.can_deliver(id)
    }

    /// The game after the delivery that is due, if one is.
    pub open spec fn after_delivery(self) -> GameModel {
        if self.delivers() {
            GameModel { state: self.state.deliver(self.key().unwrap()), over_bldg: None, ..self }
        } else {
            self
        }
    }

    /// Time passes, the recharge key is held, and the sleigh is over a depot.
    pub open spec fn recharges(self, dt: Option<u64>, held: bool) -> bool {
        &&& dt is Some
        &&& held
        &&& self.over_bldg matches Some((id, _))
        &&& self.state.status(id) == Some(BldgState::Depot)
    }

    /// Time passes without a recharge while the sleigh has energy.
    pub open spec fn decays(self, dt: Option<u64>, held: bool) -> bool {
        &&& dt is Some
        &&& !self.recharges(dt, held)
        &&& self.state.has_energy()
    }

    /// The game after the time of this tick has passed, if any has.
    pub open spec fn after_time(self, dt: Option<u64>, held: bool) -> GameModel {
        if self.recharges(dt, held) {
            GameModel {
                state: self.state.recharge(self.key().unwrap(), dt.unwrap() as nat),
                ..self
            }
        } else if self.decays(dt, held) {
            GameModel { state: self.state.decay(dt.unwrap() as nat), ..self }
        } else {
            self
        }
    }

    /// What becomes of the game on a word from the panel.
    pub open spec fn transition(panel: PanelEvent) -> Transition {
        match panel {
            PanelEvent::Close => Transition::Pop,
            PanelEvent::ChangeMap => Transition::ChangeMap,
            _ => Transition::Keep,
        }
    }

    /// The game after the panel has had its say.
    pub open spec fn after_panel(self, panel: PanelEvent) -> GameModel {
        match panel {
            PanelEvent::ControlType { rotate } => GameModel {
                controls: if rotate {
                    ControlType::Rotate
                } else {
                    ControlType::Instant
                },
                ..self
            },
            _ => self,
        }
    }

    /// The game after one tick: the sleigh moves, delivers where it can, and
    /// recharges or loses energy.
    pub open spec fn step(self, input: Input) -> GameModel {
        self.after_move(input.hits()).after_delivery().after_time(input.dt, input.recharge_held)
    }

    /// What the caller is asked to do after that tick.
    pub open spec fn reaction(self, input: Input) -> Reaction {
        let moved = self.after_move(input.hits());
        let delivered = moved.after_delivery();
        Reaction {
            highlight_changed: self.step(input).over_bldg != self.over_bldg,
            redraw: moved.delivers(),
            panel_changed: moved.delivers() || delivered.recharges(input.dt, input.recharge_held)
                || delivered.decays(input.dt, input.recharge_held),
        }
    }

    /// What the panel says of this game.
    pub open spec fn panel(self) -> PanelText {
        PanelText {
            score: self.state.score as usize,
            energy: if self.state.has_energy() {
                EnergyLine::Left(self.state.energy as u64)
            } else {
                EnergyLine::Refuel
            },
        }
    }

    /// What a frame of this game shows, in the order in which it is drawn.
    pub open spec fn layers(self) -> Seq<Layer> {
        match self.over_bldg {
            Some((_, mark)) => seq![
                Layer::Panel,
                Layer::Scores,
                Layer::Done,
                Layer::Highlight(mark.0),
                Layer::Sleigh,
            ],
            None => seq![Layer::Panel, Layer::Scores, Layer::Done, Layer::Sleigh],
        }
    }
}

/// A game in progress.
pub struct Game {
    controls: ControlType,
    state: SleighState,
    over_bldg: Cached<OverBldg>,
}

impl View for Game {
    type V = GameModel;

    closed spec fn view(&self) -> GameModel {
        GameModel { controls: self.controls, state: self.state@, over_bldg: self.over_bldg@ }
    }
}

impl Game {
    /// Begins a game on `catalog`. The sleigh starts from the first
    /// commercial building, `find_depot(catalog)`, and `house_costs` holds
    /// the travel time from there to every building that can be reached, by
    /// the number of the building's id.
    ///
    /// Fails where the map has no commercial building, and where the rewards
    /// of all houses together are more than a score can hold.
    pub fn new(catalog: &Vec<Building>, house_costs: &HashMap<usize, u64>) -> (made: Result<
        Game,
        SetupError,
    >)
        ensures
            match first_commercial(catalog@) {
                None => made matches Err(e) && e == SetupError::NoDepot,
                Some(depot) => if pending(initial_houses(catalog@, house_costs@)) <= usize::MAX {
                    made matches Ok(game) && game@ == GameModel::initial(
                        catalog@,
                        depot,
                        house_costs@,
                    ) && game@.wf()
                } else {
                    made matches Err(e) && e == SetupError::ScoreOverflow
                },
            },
    {
        let depot = match find_depot(catalog) {
            Some(depot) => depot,
            None => {
                return Err(SetupError::NoDepot);
            },
        };
        let config = Config { recharge_rate: RECHARGE_RATE, max_energy: MAX_ENERGY };
        match SleighState::new(catalog, depot, house_costs, config) {
            Ok(state) => Ok(
                Game { controls: ControlType::Instant, state, over_bldg: Cached::new() },
            ),
            Err(e) => Err(e),
        }
    }

    /// How the keys move the sleigh at present.
    pub fn controls(&self) -> (controls: ControlType)
        ensures
            controls == self@.controls,
    {
        self.controls
    }

    /// The ledger of the game.
    pub fn state(&self) -> (state: &SleighState)
        ensures
            state@ == self@.state,
    {
        &self.state
    }

    /// The building the sleigh is over, and its mark.
    pub fn over_bldg(&self) -> (over_bldg: &Cached<OverBldg>)
        ensures
            over_bldg@ == self@.over_bldg,
    {
        &self.over_bldg
    }

    /// Plays one tick.
    ///
    /// Where the sleigh has moved, the building under it is sought again.
    /// Where it is over a house that waits and has energy, it delivers, and
    /// the house is no longer marked. Where time has passed, the sleigh
    /// recharges if the key is held over a depot, and else loses that time
    /// from its energy, as long as it has any.
    pub fn event(&mut self, input: &Input) -> (reaction: Reaction)
        ensures
            final(self)@ == old(self)@.step(*input),
            reaction == old(self)@.reaction(*input),
            old(self)@.wf() ==> final(self)@.wf(),
    {
        proof {
            if self@.wf() {
                lemma_step_keeps_wf(self@, *input);
            }
        }
        let key_before = self.over_bldg.key();
        match &input.under_sleigh {
            Some(under) => {
                let key = OverBldg::key(under, &self.state);
                self.over_bldg.update(key, OverBldg::value);
            },
            None => {},
        }
        let mut delivered = false;
        match self.over_bldg.key() {
            Some(id) => {
                if self.state.has_energy() && self.state.present_dropped(id) {
                    self.over_bldg.clear();
                    delivered = true;
                }
            },
            None => {},
        }
        let mut recharged = false;
        let mut decayed = false;
        match input.dt {
            Some(dt) => {
                match self.over_bldg.key() {
                    Some(id) => {
                        if input.recharge_held && self.state.recharge(id, dt) {
                            recharged = true;
                        }
                    },
                    None => {},
                }
                if !recharged && self.state.has_energy() {
                    self.state.apply_decay(dt);
                    decayed = true;
                }
            },
            None => {},
        }
        let key_after = self.over_bldg.key();
        let highlight_changed = match (key_before, key_after) {
            (Some(a), Some(b)) => a != b,
            (None, None) => false,
            _ => true,
        };
        Reaction {
            highlight_changed,
            redraw: delivered,
            panel_changed: delivered || recharged || decayed,
        }
    }

    /// Hears the panel, after the tick has been played and shown: it can
    /// switch the controls, end the game or ask for another map. Score,
    /// energy and the building under the sleigh are not touched.
    pub fn panel_event(&mut self, panel: PanelEvent) -> (transition: Transition)
        ensures
            final(self)@ == old(self)@.after_panel(panel),
            transition == GameModel::transition(panel),
            old(self)@.wf() ==> final(self)@.wf(),
    {
        match panel {
            PanelEvent::Nothing => Transition::Keep,
            PanelEvent::Close => Transition::Pop,
            PanelEvent::ChangeMap => Transition::ChangeMap,
            PanelEvent::ControlType { rotate } => {
                self.controls = if rotate {
                    ControlType::Rotate
                } else {
                    ControlType::Instant
                };
                Transition::Keep
            },
        }
    }

    /// What the panel is to say now.
    pub fn update_panel(&self) -> (text: PanelText)
        ensures
            text == self@.panel(),
    {
        PanelText {
            score: self.state.score(),
            energy: if self.state.has_energy() {
                EnergyLine::Left(self.state.energy())
            } else {
                EnergyLine::Refuel
            },
        }
    }

    /// What a frame is to show now, in the order in which it is drawn.
    pub fn draw(&self) -> (layers: Vec<Layer>)
        ensures
            layers@ == self@.layers(),
    {
        let mut layers: Vec<Layer> = Vec::new();
        layers.push(Layer::Panel);
        layers.push(Layer::Scores);
        layers.push(Layer::Done);
        match self.over_bldg.value() {
            Some(mark) => {
                layers.push(Layer::Highlight(mark.0));
            },
            None => {},
        }
        layers.push(Layer::Sleigh);
        layers
    }
}

/// A tick leaves a sound game sound.
pub proof fn lemma_step_keeps_wf(game: GameModel, input: Input)
    requires
        game.wf(),
    ensures
        game.step(input).wf(),
{
    let moved = game.after_move(input.hits());
    assert(moved.over_bldg matches Some((id, mark)) ==> mark == highlight(id) && is_interactive(
        moved.state,
        id,
    ));
    let delivered = moved.after_delivery();
    if moved.delivers() {
        lemma_deliver_keeps_wf(moved.state, moved.key().unwrap());
    }
    assert(delivered.wf());
}

} // verus!
