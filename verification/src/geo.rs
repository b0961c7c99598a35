//! Positions, the fixed reference location, and the direction mapper.
//!
//! Coordinates are carried as integer microdegrees (millionths of a degree),
//! so that the comparison rules below are exact. The conversion from the
//! tracker's floating-point coordinates happens outside the library, at the
//! edge that reads the tracker.

use vstd::prelude::*;

verus! {

/// An absolute position: latitude and longitude in microdegrees.
#[derive(Debug, Clone, Copy, PartialEq, Eq, Structural)]
pub struct Position {
    pub latitude_micro: i64,
    pub longitude_micro: i64,
}

/// The fixed observer coordinate against which all distances and quadrants
/// are computed; never mutated once the pipeline is built.
#[derive(Debug, Clone, Copy, PartialEq, Eq, Structural)]
pub struct ReferenceLocation {
    pub latitude_micro: i64,
    pub longitude_micro: i64,
}

/// One of the four relative directions a resolved position can fall in,
/// seen from the reference location.
#[derive(Debug, Clone, Copy, PartialEq, Eq, Structural)]
pub enum Quadrant {
    NorthEast,
    NorthWest,
    SouthEast,
    SouthWest,
}

/// The quadrant of `position` relative to `reference`.
///
/// Both comparisons are strict: a position equal to the reference on an axis
/// counts as not-north / not-east, so the reference point itself falls in the
/// south-west quadrant. This boundary rule is part of the format and must be
/// kept.
pub open spec fn quadrant_spec(position: Position, reference: ReferenceLocation) -> Quadrant {
    if position.latitude_micro > reference.latitude_micro {
        if position.longitude_micro > reference.longitude_micro {
            Quadrant::NorthEast
        } else {
            Quadrant::NorthWest
        }
    } else {
        if position.longitude_micro > reference.longitude_micro {
            Quadrant::SouthEast
        } else {
            Quadrant::SouthWest
        }
    }
}

/// Maps a resolved position to its quadrant relative to the reference
/// location, by strict comparison on each axis.
pub fn quadrant_of(position: Position, reference: ReferenceLocation) -> (q: Quadrant)
    ensures
        q == quadrant_spec(position, reference),
{
    let is_north = position.latitude_micro > reference.latitude_micro;
    let is_east = position.longitude_micro > reference.longitude_micro;
    if is_north {
        if is_east {
            Quadrant::NorthEast
        } else {
            Quadrant::NorthWest
        }
    } else {
        if is_east {
            Quadrant::SouthEast
        } else {
            Quadrant::SouthWest
        }
    }
}

/// Law: a position equal to the reference on both axes is classified
/// south-west, because both comparisons are strict.
pub proof fn lemma_reference_point_is_south_west(
    position: Position,
    reference: ReferenceLocation,
)
    requires
        position.latitude_micro == reference.latitude_micro,
        position.longitude_micro == reference.longitude_micro,
    ensures
        quadrant_spec(position, reference) == Quadrant::SouthWest,
{
}

} // verus!
