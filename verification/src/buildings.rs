//! The buildings of a map, reduced to what the game reads of them.

use vstd::prelude::*;

verus! {

/// Names one building of the map. The number is unique per building and is
/// also the reward for delivering to it.
#[derive(Clone, Copy, Debug, PartialEq, Eq, Structural, Hash)]
pub struct BuildingId(pub usize);

/// What a building is used for.
#[derive(Clone, Copy, Debug, PartialEq, Eq, Structural)]
pub enum BuildingType {
    Residential,
    ResidentialCommercial,
    Commercial,
    Empty,
}

/// One building of the map.
#[derive(Clone, Copy, Debug)]
pub struct Building {
    pub id: BuildingId,
    pub bldg_type: BuildingType,
    /// How many amenities (shops, restaurants, ...) the building houses.
    pub amenities: usize,
}

impl Building {
    /// Purely residential buildings are the ones that wait for a delivery.
    pub open spec fn is_residential(self) -> bool {
        self.bldg_type == BuildingType::Residential
    }

    /// Purely commercial buildings are the ones the sleigh may start from.
    pub open spec fn is_commercial(self) -> bool {
        self.bldg_type == BuildingType::Commercial
    }

    /// A building that is not residential and has at least one amenity lets
    /// the sleigh recharge.
    pub open spec fn is_depot(self) -> bool {
        !self.is_residential() && self.amenities > 0
    }
}

/// No two buildings of the catalog share an id.
pub open spec fn distinct_ids(catalog: Seq<Building>) -> bool {
    forall|i: int, j: int|
        0 <= i < j < catalog.len() ==> (#[trigger] catalog[i]).id != (#[trigger] catalog[j]).id
}

/// `i` is the position of the first commercial building of the catalog.
pub open spec fn is_first_commercial(catalog: Seq<Building>, i: int) -> bool {
    &&& 0 <= i < catalog.len()
    &&& catalog[i].is_commercial()
    &&& forall|j: int| 0 <= j < i ==> !(#[trigger] catalog[j]).is_commercial()
}

/// The id of the first commercial building of the catalog, if there is one.
pub open spec fn first_commercial(catalog: Seq<Building>) -> Option<BuildingId> {
    if exists|i: int| is_first_commercial(catalog, i) {
        Some(catalog[choose|i: int| is_first_commercial(catalog, i)].id)
    } else {
        None
    }
}

/// At most one position is the first commercial one.
pub proof fn lemma_first_commercial_unique(catalog: Seq<Building>, i: int, j: int)
    requires
        is_first_commercial(catalog, i),
        is_first_commercial(catalog, j),
    ensures
        i == j,
{
    if i < j {
        assert(!catalog[i].is_commercial());
    } else if j < i {
        assert(!catalog[j].is_commercial());
    }
}

/// Finds the building the sleigh starts from: the first commercial building
/// in catalog order. `None` means the map has no commercial building at all.
pub fn find_depot(catalog: &Vec<Building>) -> (depot: Option<BuildingId>)
    ensures
        depot == first_commercial(catalog@),
        depot is None <==> forall|i: int|
            0 <= i < catalog.len() ==> !(#[trigger] catalog[i]).is_commercial(),
{
    let mut i: usize = 0;
    while i < catalog.len()
        invariant
            i <= catalog.len(),
            forall|j: int| 0 <= j < i ==> !(#[trigger] catalog[j]).is_commercial(),
        decreases catalog.len() - i,
    {
        if catalog[i].bldg_type == BuildingType::Commercial {
            proof {
                assert(is_first_commercial(catalog@, i as int));
                let w = choose|w: int| is_first_commercial(catalog@, w);
                lemma_first_commercial_unique(catalog@, i as int, w);
            }
            return Some(catalog[i].id);
        }
        i += 1;
    }
    proof {
        assert forall|w: int| !is_first_commercial(catalog@, w) by {
            if 0 <= w < catalog.len() {
                assert(!catalog[w].is_commercial());
            }
        }
    }
    None
}

} // verus!
