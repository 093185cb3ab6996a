//! The rules of a small delivery game, verified.
//!
//! A sleigh moves over a city map. Residential buildings wait for one
//! delivery each, buildings with amenities let the sleigh recharge, and every
//! tick costs energy. This crate holds the bookkeeping of that game: which
//! building the sleigh is over, what a delivery or a recharge does to score
//! and energy, and what has to be drawn again after a tick. Geometry, input
//! and drawing stay with the caller, who hands in plain values.

pub mod buildings;
pub mod cached;
pub mod game;
pub mod laws;
pub mod over_bldg;
pub mod render;
pub mod state;
pub mod units;
