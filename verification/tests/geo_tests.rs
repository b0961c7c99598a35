use adsb_indicator::geo::{quadrant_of, Position, Quadrant, ReferenceLocation};

#[test]
fn reference_point_classifies_south_west() {
    let reference = ReferenceLocation { latitude_micro: 1_000, longitude_micro: -500 };
    let position = Position { latitude_micro: 1_000, longitude_micro: -500 };
    assert_eq!(quadrant_of(position, reference), Quadrant::SouthWest);
}

#[test]
fn equality_on_one_axis_falls_south_or_west() {
    let reference = ReferenceLocation { latitude_micro: 0, longitude_micro: 0 };
    let east_only = Position { latitude_micro: 0, longitude_micro: 7 };
    assert_eq!(quadrant_of(east_only, reference), Quadrant::SouthEast);
    let north_only = Position { latitude_micro: 7, longitude_micro: 0 };
    assert_eq!(quadrant_of(north_only, reference), Quadrant::NorthWest);
}

#[test]
fn all_four_quadrants() {
    let reference = ReferenceLocation { latitude_micro: 10, longitude_micro: 20 };
    let ne = Position { latitude_micro: 11, longitude_micro: 21 };
    let nw = Position { latitude_micro: 11, longitude_micro: 19 };
    let se = Position { latitude_micro: 9, longitude_micro: 21 };
    let sw = Position { latitude_micro: 9, longitude_micro: 19 };
    assert_eq!(quadrant_of(ne, reference), Quadrant::NorthEast);
    assert_eq!(quadrant_of(nw, reference), Quadrant::NorthWest);
    assert_eq!(quadrant_of(se, reference), Quadrant::SouthEast);
    assert_eq!(quadrant_of(sw, reference), Quadrant::SouthWest);
}
