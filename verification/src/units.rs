//! Time in this crate is a whole number of ticks, held in a `u64`. A tick is
//! a tenth of a millisecond.

use vstd::prelude::*;

verus! {

/// One second, in ticks.
pub const SECOND: u64 = 10_000;

/// One minute, in ticks.
pub const MINUTE: u64 = 600_000;

/// One hour, in ticks.
pub const HOUR: u64 = 36_000_000;

} // verus!
