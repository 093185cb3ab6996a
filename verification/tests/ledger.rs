use std::collections::HashMap;

use sleigh::buildings::{Building, BuildingId, BuildingType};
use sleigh::render::{Color, Fill};
use sleigh::state::{BldgState, Config, SleighState};
use sleigh::units::{MINUTE, SECOND};

fn building(id: usize, bldg_type: BuildingType, amenities: usize) -> Building {
    Building { id: BuildingId(id), bldg_type, amenities }
}

/// A depot numbered 1 and houses numbered 7, 8 and 9, at 4, 10 and 100
/// minutes from it.
fn ledger(config: Config) -> SleighState {
    let catalog = vec![
        building(1, BuildingType::Commercial, 1),
        building(7, BuildingType::Residential, 0),
        building(8, BuildingType::Residential, 0),
        building(9, BuildingType::Residential, 0),
        building(20, BuildingType::Empty, 0),
    ];
    let mut costs = HashMap::new();
    costs.insert(7, 4 * MINUTE);
    costs.insert(8, 10 * MINUTE);
    costs.insert(9, 100 * MINUTE);
    SleighState::new(&catalog, BuildingId(1), &costs, config).unwrap()
}

fn standard() -> Config {
    Config { recharge_rate: 1000, max_energy: 90 * MINUTE }
}

#[test]
fn delivery_scores_and_costs_energy() {
    let mut state = ledger(standard());
    assert_eq!(state.score(), 0);
    assert_eq!(state.energy(), 90 * MINUTE);
    assert!(state.present_dropped(BuildingId(7)));
    assert_eq!(state.score(), 7);
    assert_eq!(state.energy(), 86 * MINUTE);
    assert_eq!(state.status(BuildingId(7)), Some(BldgState::Done));
}

#[test]
fn second_delivery_to_a_house_does_nothing() {
    let mut state = ledger(standard());
    assert!(state.present_dropped(BuildingId(7)));
    assert!(!state.present_dropped(BuildingId(7)));
    assert_eq!(state.score(), 7);
    assert_eq!(state.energy(), 86 * MINUTE);
    assert_eq!(state.status(BuildingId(7)), Some(BldgState::Done));
    assert!(!state.present_dropped(BuildingId(7)));
    assert_eq!(state.score(), 7);
    assert_eq!(state.energy(), 86 * MINUTE);
}

#[test]
fn no_delivery_to_a_depot_or_a_stranger() {
    let mut state = ledger(standard());
    assert!(!state.present_dropped(BuildingId(1)));
    assert!(!state.present_dropped(BuildingId(20)));
    assert!(!state.present_dropped(BuildingId(12345)));
    assert_eq!(state.score(), 0);
    assert_eq!(state.energy(), 90 * MINUTE);
    assert_eq!(state.status(BuildingId(1)), Some(BldgState::Depot));
    assert_eq!(state.status(BuildingId(20)), None);
    assert_eq!(state.status(BuildingId(12345)), None);
}

#[test]
fn a_delivery_that_costs_more_than_is_left_empties_the_sleigh() {
    let mut state = ledger(standard());
    assert!(state.present_dropped(BuildingId(9)));
    assert_eq!(state.score(), 9);
    assert_eq!(state.energy(), 0);
    assert!(!state.has_energy());
    // The ledger itself does not ask for energy: that is the game's rule.
    assert!(state.present_dropped(BuildingId(8)));
    assert_eq!(state.score(), 17);
    assert_eq!(state.energy(), 0);
}

#[test]
fn score_is_the_sum_of_rewards_in_any_order() {
    let mut one = ledger(standard());
    assert!(one.present_dropped(BuildingId(7)));
    assert!(one.present_dropped(BuildingId(8)));
    assert!(one.present_dropped(BuildingId(9)));
    let mut other = ledger(standard());
    assert!(other.present_dropped(BuildingId(9)));
    assert!(other.present_dropped(BuildingId(7)));
    assert!(other.present_dropped(BuildingId(8)));
    assert_eq!(one.score(), 7 + 8 + 9);
    assert_eq!(other.score(), 7 + 8 + 9);
    for id in [1, 7, 8, 9, 20] {
        assert_eq!(one.status(BuildingId(id)), other.status(BuildingId(id)));
    }
}

#[test]
fn score_never_sinks() {
    let mut state = ledger(standard());
    let mut last = state.score();
    let visits = [7, 1, 7, 9, 20, 8, 8, 1];
    for id in visits {
        state.present_dropped(BuildingId(id));
        state.recharge(BuildingId(id), SECOND);
        state.apply_decay(MINUTE);
        assert!(state.score() >= last);
        last = state.score();
    }
    assert_eq!(last, 24);
}

#[test]
fn energy_decays_by_the_time_that_passes() {
    let mut state = ledger(standard());
    state.apply_decay(0);
    assert_eq!(state.energy(), 90 * MINUTE);
    state.apply_decay(1);
    assert_eq!(state.energy(), 90 * MINUTE - 1);
    state.apply_decay(30 * MINUTE);
    assert_eq!(state.energy(), 60 * MINUTE - 1);
}

#[test]
fn energy_is_used_up_after_max_energy_has_passed() {
    let mut state = ledger(standard());
    for _ in 0..89 {
        state.apply_decay(MINUTE);
        assert!(state.has_energy());
    }
    assert_eq!(state.energy(), MINUTE);
    state.apply_decay(MINUTE);
    assert_eq!(state.energy(), 0);
    assert!(!state.has_energy());
    state.apply_decay(MINUTE);
    assert_eq!(state.energy(), 0);
    assert!(!state.has_energy());
    // Neither a recharge away from a depot nor a delivery brings energy.
    assert!(!state.recharge(BuildingId(7), MINUTE));
    assert!(state.present_dropped(BuildingId(7)));
    assert!(!state.has_energy());
    assert!(state.recharge(BuildingId(1), 1));
    assert!(state.has_energy());
    assert_eq!(state.energy(), 1000);
}

#[test]
fn decay_stops_at_zero() {
    let mut state = ledger(standard());
    state.apply_decay(u64::MAX);
    assert_eq!(state.energy(), 0);
}

#[test]
fn recharge_adds_rate_times_time() {
    let mut state = ledger(standard());
    state.apply_decay(80 * MINUTE);
    assert_eq!(state.energy(), 10 * MINUTE);
    assert!(state.recharge(BuildingId(1), 2 * SECOND));
    assert_eq!(state.energy(), 10 * MINUTE + 1000 * 2 * SECOND);
    assert!(state.recharge(BuildingId(1), 0));
    assert_eq!(state.energy(), 10 * MINUTE + 1000 * 2 * SECOND);
}

#[test]
fn recharge_stops_at_the_ceiling() {
    let mut state = ledger(standard());
    state.apply_decay(60_000);
    assert!(state.recharge(BuildingId(1), 59));
    assert_eq!(state.energy(), 90 * MINUTE - 1_000);
    assert!(state.recharge(BuildingId(1), 1));
    assert_eq!(state.energy(), 90 * MINUTE);
    assert!(state.recharge(BuildingId(1), 10 * SECOND));
    assert_eq!(state.energy(), 90 * MINUTE);
    assert!(state.recharge(BuildingId(1), u64::MAX));
    assert_eq!(state.energy(), 90 * MINUTE);
}

#[test]
fn recharge_with_the_largest_numbers_does_not_overflow() {
    let config = Config { recharge_rate: u64::MAX, max_energy: u64::MAX };
    let mut state = ledger(config);
    assert_eq!(state.energy(), u64::MAX);
    state.apply_decay(u64::MAX);
    assert!(state.recharge(BuildingId(1), u64::MAX));
    assert_eq!(state.energy(), u64::MAX);
    state.apply_decay(u64::MAX - 5);
    assert_eq!(state.energy(), 5);
    assert!(state.recharge(BuildingId(1), 1));
    assert_eq!(state.energy(), u64::MAX);
}

#[test]
fn recharge_only_at_a_depot() {
    let mut state = ledger(standard());
    state.apply_decay(10 * MINUTE);
    assert!(!state.recharge(BuildingId(7), MINUTE));
    assert!(!state.recharge(BuildingId(20), MINUTE));
    assert!(!state.recharge(BuildingId(555), MINUTE));
    assert_eq!(state.energy(), 80 * MINUTE);
    state.present_dropped(BuildingId(7));
    assert!(!state.recharge(BuildingId(7), MINUTE));
    assert_eq!(state.energy(), 76 * MINUTE);
}

#[test]
fn energy_stays_between_zero_and_the_ceiling() {
    let config = Config { recharge_rate: 7, max_energy: 1_000 };
    let mut state = ledger(config);
    let steps: [(bool, u64); 10] = [
        (false, 300),
        (true, 10),
        (true, 1_000),
        (false, 999),
        (false, 2),
        (true, 0),
        (true, 142),
        (true, 1),
        (false, u64::MAX),
        (true, u64::MAX),
    ];
    let expected = [700, 770, 1_000, 1, 0, 0, 994, 1_000, 0, 1_000];
    for (step, want) in steps.iter().zip(expected) {
        if step.0 {
            assert!(state.recharge(BuildingId(1), step.1));
        } else {
            state.apply_decay(step.1);
        }
        assert_eq!(state.energy(), want);
        assert!(state.energy() <= 1_000);
    }
}

#[test]
fn classes_do_not_change_during_a_game() {
    let mut state = ledger(standard());
    for id in [7, 1, 20, 7, 8] {
        state.present_dropped(BuildingId(id));
        state.recharge(BuildingId(id), SECOND);
        state.apply_decay(SECOND);
        assert_eq!(state.status(BuildingId(1)), Some(BldgState::Depot));
        assert_eq!(state.status(BuildingId(20)), None);
        assert_eq!(state.status(BuildingId(7)), Some(BldgState::Done));
    }
    assert_eq!(state.status(BuildingId(8)), Some(BldgState::Done));
    assert_eq!(
        state.status(BuildingId(9)),
        Some(BldgState::Undelivered { score: 9, cost: 100 * MINUTE })
    );
    assert_eq!(state.draw_scores().len(), 3);
}

#[test]
fn redraw_of_a_new_game_shows_the_depot() {
    let state = ledger(standard());
    assert_eq!(state.redraw(), vec![Fill { color: Color::Green, building: BuildingId(1) }]);
}

#[test]
fn redraw_paints_done_houses_black_and_the_depot_green() {
    let mut state = ledger(standard());
    state.present_dropped(BuildingId(9));
    state.present_dropped(BuildingId(7));
    let batch = state.redraw();
    assert_eq!(batch.len(), 3);
    assert_eq!(batch[2], Fill { color: Color::Green, building: BuildingId(1) });
    let mut blacks = vec![batch[0], batch[1]];
    blacks.sort_by_key(|fill| fill.building.0);
    assert_eq!(
        blacks,
        vec![
            Fill { color: Color::Black, building: BuildingId(7) },
            Fill { color: Color::Black, building: BuildingId(9) },
        ]
    );
}
