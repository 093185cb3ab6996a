//! Which building the sleigh is over, and how that building is marked.

use vstd::prelude::*;
use crate::buildings::BuildingId;
use crate::render::{Color, Fill};
use crate::state::{BldgState, SleighModel, SleighState};

verus! {

/// The mark on the building the sleigh is over.
#[derive(Clone, Copy, Debug, PartialEq, Eq, Structural)]
pub struct OverBldg(pub Fill);

/// The sleigh can do something at `id`: deliver to it or recharge at it.
/// Houses that are done, and buildings that take no part, are passed over.
pub open spec fn is_interactive(ledger: SleighModel, id: BuildingId) -> bool {
    ledger.status(id) matches Some(state) && state.is_interactive()
}

/// `i` is the position of the first building among `hits` at which the
/// sleigh can do something.
pub open spec fn is_first_interactive(hits: Seq<BuildingId>, ledger: SleighModel, i: int) -> bool {
    &&& 0 <= i < hits.len()
    &&& is_interactive(ledger, hits[i])
    &&& forall|j: int| 0 <= j < i ==> !is_interactive(ledger, #[trigger] hits[j])
}

/// The first building among `hits` at which the sleigh can do something.
pub open spec fn first_interactive(hits: Seq<BuildingId>, ledger: SleighModel) -> Option<
    BuildingId,
> {
    if exists|i: int| is_first_interactive(hits, ledger, i) {
        Some(hits[choose|i: int| is_first_interactive(hits, ledger, i)])
    } else {
        None
    }
}

/// At most one position is the first interactive one.
pub proof fn lemma_first_interactive_unique(
    hits: Seq<BuildingId>,
    ledger: SleighModel,
    i: int,
    j: int,
)
    requires
        is_first_interactive(hits, ledger, i),
        is_first_interactive(hits, ledger, j),
    ensures
        i == j,
{
    if i < j {
        assert(!is_interactive(ledger, hits[i]));
    } else if j < i {
        assert(!is_interactive(ledger, hits[j]));
    }
}

/// How the building under the sleigh is marked: filled in yellow.
pub open spec fn highlight(key: BuildingId) -> OverBldg {
    OverBldg(Fill { color: Color::Yellow, building: key })
}

impl OverBldg {
    /// Picks the building the sleigh is over. `under_sleigh` lists the
    /// buildings whose footprint holds the position of the sleigh, in the
    /// order in which the map hands them out; the first of them at which the
    /// sleigh can do something is the one.
    pub fn key(under_sleigh: &Vec<BuildingId>, state: &SleighState) -> (found: Option<BuildingId>)
        ensures
            found == first_interactive(under_sleigh@, state@),
            found matches Some(id) ==> under_sleigh@.contains(id) && is_interactive(state@, id),
            found is None <==> forall|i: int|
                0 <= i < under_sleigh.len() ==> !is_interactive(state@, #[trigger] under_sleigh[i]),
    {
        let mut i: usize = 0;
        while i < under_sleigh.len()
            invariant
                i <= under_sleigh.len(),
                forall|j: int| 0 <= j < i ==> !is_interactive(state@, #[trigger] under_sleigh[j]),
            decreases under_sleigh.len() - i,
        {
            let id = under_sleigh[i];
            let live = match state.status(id) {
                Some(BldgState::Undelivered { .. }) => true,
                Some(BldgState::Depot) => true,
                _ => false,
            };
            if live {
                proof {
                    assert(is_first_interactive(under_sleigh@, state@, i as int));
                    let w = choose|w: int| is_first_interactive(under_sleigh@, state@, w);
                    lemma_first_interactive_unique(under_sleigh@, state@, i as int, w);
                }
                return Some(id);
            }
            i += 1;
        }
        proof {
            assert forall|w: int| !is_first_interactive(under_sleigh@, state@, w) by {
                if 0 <= w < under_sleigh.len() {
                    assert(!is_interactive(state@, under_sleigh[w]));
                }
            }
        }
        None
    }

    /// Makes the mark for the building the sleigh is over.
    pub fn value(key: BuildingId) -> (mark: OverBldg)
        ensures
            mark == highlight(key),
    {
        OverBldg(Fill { color: Color::Yellow, building: key })
    }
}

} // verus!
