use adsb_indicator::geo::{quadrant_of, Position, Quadrant, ReferenceLocation};
use adsb_indicator::pipeline::Pipeline;
use adsb_indicator::table::EntityState;

use rsadsb_common::Airplanes;

/// Even and odd frames of the same aircraft (address 0x40621D); together they
/// resolve to latitude 52.2572..., longitude 3.9193...
const EVEN_FRAME: [u8; 14] = [
    0x8D, 0x40, 0x62, 0x1D, 0x58, 0xC3, 0x82, 0xD6, 0x90, 0xC8, 0xAC, 0x28, 0x63, 0xA7,
];
const ODD_FRAME: [u8; 14] = [
    0x8D, 0x40, 0x62, 0x1D, 0x58, 0xC3, 0x86, 0x43, 0x5C, 0xC4, 0x12, 0x69, 0x2A, 0xD6,
];

fn micro(degrees: f64) -> i64 {
    (degrees * 1_000_000.0) as i64
}

/// Mirrors the external tracker's findings into the pipeline's entity table.
fn sync_entities(pipeline: &mut Pipeline, planes: &Airplanes) {
    for (icao, state) in planes.iter() {
        let id = ((icao.0[0] as u32) << 16) | ((icao.0[1] as u32) << 8) | (icao.0[2] as u32);
        let position = state.coords.position.map(|p| Position {
            latitude_micro: micro(p.latitude),
            longitude_micro: micro(p.longitude),
        });
        let distance_milli = state.coords.kilo_distance.map(|d| (d * 1000.0) as u64);
        pipeline.update_entity(id, EntityState { position, distance_milli });
    }
}

/// Runs one 14-byte window through the pipeline and returns the message.
fn feed_window(pipeline: &mut Pipeline, window: &[u8; 14]) -> adsb_indicator::frame::Message {
    let mut last = None;
    for (i, byte) in window.iter().enumerate() {
        let outcome = pipeline.on_byte(*byte);
        assert!(!outcome.dropped);
        if i < 13 {
            assert!(outcome.decoded.is_none());
        } else {
            last = outcome.decoded;
        }
    }
    last.expect("a complete window forces a decode attempt")
        .expect("a well-formed window decodes")
}

#[test]
fn position_bearing_message_end_to_end() {
    let reference = ReferenceLocation { latitude_micro: 0, longitude_micro: 0 };
    let mut pipeline = Pipeline::new(reference);
    let mut planes = Airplanes::new();

    let message = feed_window(&mut pipeline, &EVEN_FRAME);
    assert_eq!(message.identifier, Some(0x40621D));
    planes.action(message.frame, (0.0, 0.0), f64::MAX);

    let companion = feed_window(&mut pipeline, &ODD_FRAME);
    assert_eq!(companion.identifier, Some(0x40621D));
    planes.action(companion.frame, (0.0, 0.0), f64::MAX);

    sync_entities(&mut pipeline, &planes);
    let state = pipeline.entity(0x40621D).expect("the aircraft is tracked");
    let position = state.position.expect("the frame pair resolves a position");
    assert!(52_200_000 <= position.latitude_micro && position.latitude_micro <= 52_300_000);
    assert!(3_900_000 <= position.longitude_micro && position.longitude_micro <= 4_000_000);
    assert!(state.distance_milli.is_some());
    assert_eq!(quadrant_of(position, reference), Quadrant::NorthEast);

    // About 5 800 km from this reference: beyond the sentinel, so the cycle
    // selects nothing and renders nothing.
    assert_eq!(pipeline.nearest(), None);
    assert!(pipeline.render_decision().is_none());
}

#[test]
fn nearby_aircraft_is_selected_and_rendered() {
    let reference = ReferenceLocation {
        latitude_micro: 52_000_000,
        longitude_micro: 3_000_000,
    };
    let mut pipeline = Pipeline::new(reference);
    let mut planes = Airplanes::new();

    let message = feed_window(&mut pipeline, &EVEN_FRAME);
    planes.action(message.frame, (52.0, 3.0), f64::MAX);
    let companion = feed_window(&mut pipeline, &ODD_FRAME);
    planes.action(companion.frame, (52.0, 3.0), f64::MAX);

    sync_entities(&mut pipeline, &planes);
    let (id, distance) = pipeline.nearest().expect("an aircraft within range is selected");
    assert_eq!(id, 0x40621D);
    let target = pipeline.render_decision().expect("a resolved position is rendered");
    assert_eq!(target.id, 0x40621D);
    assert_eq!(target.distance_milli, distance);
    assert_eq!(target.quadrant, Quadrant::NorthEast);
}

#[test]
fn all_zero_window_is_discarded_and_loop_continues() {
    let reference = ReferenceLocation { latitude_micro: 0, longitude_micro: 0 };
    let mut pipeline = Pipeline::new(reference);
    let mut planes = Airplanes::new();

    let mut last = None;
    for _ in 0..14 {
        last = pipeline.on_byte(0x00).decoded;
    }
    let outcome = last.expect("a complete window forces a decode attempt");
    // Whether or not the all-zero window decodes, it carries no identifier
    // the tracker can resolve a position for.
    if let Ok(message) = outcome {
        assert_eq!(message.identifier, None);
        planes.action(message.frame, (0.0, 0.0), f64::MAX);
    }
    for (_, state) in planes.iter() {
        assert!(state.coords.position.is_none());
    }
    sync_entities(&mut pipeline, &planes);
    assert!(pipeline.render_decision().is_none());

    // The buffer was cleared: the next byte starts a fresh window.
    let next = pipeline.on_byte(0x8D);
    assert!(!next.dropped);
    assert!(next.decoded.is_none());
}

#[test]
fn malformed_window_yields_decode_error_without_panic() {
    let reference = ReferenceLocation { latitude_micro: 0, longitude_micro: 0 };
    let mut pipeline = Pipeline::new(reference);
    let mut last = None;
    // First five bits name a downlink format the decoder does not know.
    for _ in 0..14 {
        last = pipeline.on_byte(0x08).decoded;
    }
    let outcome = last.expect("a complete window forces a decode attempt");
    assert!(outcome.is_err());
    // The window was sacrificed; accumulation restarts cleanly.
    let next = pipeline.on_byte(0x00);
    assert!(!next.dropped);
    assert!(next.decoded.is_none());
}
