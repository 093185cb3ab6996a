//! What the game asks to have drawn, as plain values. Turning them into
//! pixels is the caller's business.

use vstd::prelude::*;
use crate::buildings::BuildingId;
use crate::units::MINUTE;

verus! {

/// The colors the game paints with.
#[derive(Clone, Copy, Debug, PartialEq, Eq, Structural)]
pub enum Color {
    Green,
    Yellow,
    Red,
    Black,
}

/// Fill the footprint of one building with one color.
#[derive(Clone, Copy, Debug, PartialEq, Eq, Structural)]
pub struct Fill {
    pub color: Color,
    pub building: BuildingId,
}

/// The two lines written on a house that waits for a delivery: its reward,
/// and the travel time from the depot in the color of its distance class.
#[derive(Clone, Copy, Debug, PartialEq, Eq, Structural)]
pub struct ScoreLabel {
    pub building: BuildingId,
    pub score: usize,
    pub cost: u64,
    pub color: Color,
}

/// Houses closer than this to the depot count as near: five minutes.
pub const NEAR_LIMIT: u64 = 3_000_000;

/// Houses closer than this to the depot, but not near, count as medium;
/// all others are far: fifteen minutes.
pub const FAR_LIMIT: u64 = 9_000_000;

/// The color of a travel time: green under five minutes, yellow under
/// fifteen, red from there on.
pub open spec fn cost_color_spec(cost: u64) -> Color {
    if cost < 5 * MINUTE {
        Color::Green
    } else if cost < 15 * MINUTE {
        Color::Yellow
    } else {
        Color::Red
    }
}

/// Picks the color in which a travel time is written.
pub fn cost_color(cost: u64) -> (color: Color)
    ensures
        color == cost_color_spec(cost),
{
    if cost < NEAR_LIMIT {
        Color::Green
    } else if cost < FAR_LIMIT {
        Color::Yellow
    } else {
        Color::Red
    }
}

} // verus!
