use std::collections::HashMap;

use sleigh::buildings::{Building, BuildingId, BuildingType};
use sleigh::cached::Cached;
use sleigh::over_bldg::OverBldg;
use sleigh::render::{Color, Fill};
use sleigh::state::{Config, SleighState};
use sleigh::units::MINUTE;

fn building(id: usize, bldg_type: BuildingType, amenities: usize) -> Building {
    Building { id: BuildingId(id), bldg_type, amenities }
}

/// A depot numbered 1, houses numbered 7 and 8, and an empty lot numbered 20.
fn ledger() -> SleighState {
    let catalog = vec![
        building(1, BuildingType::Commercial, 1),
        building(7, BuildingType::Residential, 0),
        building(8, BuildingType::Residential, 0),
        building(20, BuildingType::Empty, 0),
    ];
    let mut costs = HashMap::new();
    costs.insert(7, 4 * MINUTE);
    costs.insert(8, 10 * MINUTE);
    let config = Config { recharge_rate: 1000, max_energy: 90 * MINUTE };
    SleighState::new(&catalog, BuildingId(1), &costs, config).unwrap()
}

#[test]
fn over_nothing_where_no_footprint_holds_the_sleigh() {
    let state = ledger();
    assert_eq!(OverBldg::key(&Vec::new(), &state), None);
}

#[test]
fn over_a_house_that_waits() {
    let state = ledger();
    assert_eq!(OverBldg::key(&vec![BuildingId(7)], &state), Some(BuildingId(7)));
}

#[test]
fn over_a_depot() {
    let state = ledger();
    assert_eq!(OverBldg::key(&vec![BuildingId(1)], &state), Some(BuildingId(1)));
}

#[test]
fn not_over_a_house_that_is_done() {
    let mut state = ledger();
    assert!(state.present_dropped(BuildingId(7)));
    assert_eq!(OverBldg::key(&vec![BuildingId(7)], &state), None);
}

#[test]
fn not_over_a_building_that_takes_no_part() {
    let state = ledger();
    assert_eq!(OverBldg::key(&vec![BuildingId(20)], &state), None);
    assert_eq!(OverBldg::key(&vec![BuildingId(4242)], &state), None);
}

#[test]
fn the_first_building_that_counts_wins() {
    let mut state = ledger();
    assert!(state.present_dropped(BuildingId(7)));
    let under = vec![BuildingId(20), BuildingId(7), BuildingId(8), BuildingId(1)];
    assert_eq!(OverBldg::key(&under, &state), Some(BuildingId(8)));
    let under = vec![BuildingId(1), BuildingId(8)];
    assert_eq!(OverBldg::key(&under, &state), Some(BuildingId(1)));
    let under = vec![BuildingId(20), BuildingId(7)];
    assert_eq!(OverBldg::key(&under, &state), None);
}

#[test]
fn the_mark_is_a_yellow_fill() {
    assert_eq!(
        OverBldg::value(BuildingId(3)),
        OverBldg(Fill { color: Color::Yellow, building: BuildingId(3) })
    );
}

#[test]
fn a_new_cache_is_empty() {
    let cache: Cached<u32> = Cached::new();
    assert_eq!(cache.key(), None);
    assert_eq!(cache.value(), None);
}

#[test]
fn update_makes_the_value_for_a_new_key() {
    let mut cache: Cached<usize> = Cached::new();
    assert!(cache.update(Some(BuildingId(4)), |key| key.0 * 10));
    assert_eq!(cache.key(), Some(BuildingId(4)));
    assert_eq!(cache.value(), Some(&40));
    assert!(cache.update(Some(BuildingId(5)), |key| key.0 * 10));
    assert_eq!(cache.key(), Some(BuildingId(5)));
    assert_eq!(cache.value(), Some(&50));
}

#[test]
fn update_with_the_same_key_makes_nothing_anew() {
    let mut made = 0;
    let mut cache: Cached<usize> = Cached::new();
    assert!(cache.update(Some(BuildingId(4)), |key| {
        made += 1;
        key.0
    }));
    assert_eq!(made, 1);
    for _ in 0..5 {
        assert!(!cache.update(Some(BuildingId(4)), |key| {
            made += 1;
            key.0 + 1000
        }));
    }
    assert_eq!(made, 1);
    assert_eq!(cache.key(), Some(BuildingId(4)));
    assert_eq!(cache.value(), Some(&4));
}

#[test]
fn update_with_no_key_empties_the_cache() {
    let mut made = 0;
    let mut cache: Cached<usize> = Cached::new();
    assert!(!cache.update(None, |key| {
        made += 1;
        key.0
    }));
    assert!(cache.update(Some(BuildingId(4)), |key| {
        made += 1;
        key.0
    }));
    assert!(cache.update(None, |key| {
        made += 1;
        key.0
    }));
    assert_eq!(cache.key(), None);
    assert_eq!(cache.value(), None);
    assert!(!cache.update(None, |key| {
        made += 1;
        key.0
    }));
    assert_eq!(made, 1);
}

#[test]
fn clear_forces_the_value_to_be_made_again() {
    let mut made = 0;
    let mut cache: Cached<usize> = Cached::new();
    cache.update(Some(BuildingId(4)), |key| {
        made += 1;
        key.0
    });
    cache.clear();
    assert_eq!(cache.key(), None);
    assert_eq!(cache.value(), None);
    assert!(cache.update(Some(BuildingId(4)), |key| {
        made += 1;
        key.0
    }));
    assert_eq!(made, 2);
    assert_eq!(cache.value(), Some(&4));
}
