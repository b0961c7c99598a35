use adsb_indicator::geo::Position;
use adsb_indicator::select::{select_nearest, NEAREST_SENTINEL_MILLI};
use adsb_indicator::table::{EntityState, EntityTable};

fn state(distance_milli: Option<u64>) -> EntityState {
    EntityState { position: None, distance_milli }
}

#[test]
fn record_then_get_returns_recorded_state() {
    let mut table = EntityTable::new();
    let position = Some(Position { latitude_micro: 52_257_202, longitude_micro: 3_919_372 });
    table.record(0x40621D, EntityState { position, distance_milli: Some(96_000) });
    assert_eq!(table.len(), 1);
    let got = table.get(0x40621D).expect("recorded identifier is retrievable");
    assert_eq!(got.position, position);
    assert_eq!(got.distance_milli, Some(96_000));
    assert_eq!(table.get(0x111111), None);
}

#[test]
fn record_updates_in_place_and_leaves_others_alone() {
    let mut table = EntityTable::new();
    table.record(1, state(Some(10_000)));
    table.record(2, state(Some(20_000)));
    table.record(1, state(Some(5_000)));
    assert_eq!(table.len(), 2);
    assert_eq!(table.get(1).unwrap().distance_milli, Some(5_000));
    assert_eq!(table.get(2).unwrap().distance_milli, Some(20_000));
    assert_eq!(table.entry_at(0).id, 1);
    assert_eq!(table.entry_at(1).id, 2);
}

#[test]
fn select_over_empty_table_is_none() {
    let table = EntityTable::new();
    assert_eq!(select_nearest(&table), None);
}

#[test]
fn select_single_entity_returns_it_with_its_distance() {
    let mut table = EntityTable::new();
    table.record(42, state(Some(5_000)));
    assert_eq!(select_nearest(&table), Some((42, 5_000)));
}

#[test]
fn select_at_or_beyond_sentinel_is_none() {
    let mut table = EntityTable::new();
    table.record(42, state(Some(NEAREST_SENTINEL_MILLI)));
    assert_eq!(select_nearest(&table), None);
    table.record(43, state(Some(NEAREST_SENTINEL_MILLI + 1)));
    assert_eq!(select_nearest(&table), None);
    table.record(44, state(Some(NEAREST_SENTINEL_MILLI - 1)));
    assert_eq!(select_nearest(&table), Some((44, NEAREST_SENTINEL_MILLI - 1)));
}

#[test]
fn select_two_entities_nearer_wins_in_either_order() {
    let mut first = EntityTable::new();
    first.record(1, state(Some(10_000)));
    first.record(2, state(Some(20_000)));
    assert_eq!(select_nearest(&first), Some((1, 10_000)));

    let mut second = EntityTable::new();
    second.record(2, state(Some(20_000)));
    second.record(1, state(Some(10_000)));
    assert_eq!(select_nearest(&second), Some((1, 10_000)));
}

#[test]
fn unresolved_distance_is_skipped() {
    let mut table = EntityTable::new();
    table.record(1, state(None));
    assert_eq!(select_nearest(&table), None);
    table.record(2, state(Some(300_000)));
    assert_eq!(select_nearest(&table), Some((2, 300_000)));
}

#[test]
fn equal_distances_break_ties_by_first_seen() {
    let mut table = EntityTable::new();
    table.record(7, state(Some(10_000)));
    table.record(3, state(Some(10_000)));
    assert_eq!(select_nearest(&table), Some((7, 10_000)));
}
