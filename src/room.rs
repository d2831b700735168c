//! Room-local coordinates and room-grid indices.
use vstd::prelude::*;

verus! {

/// Width and height of a room, in tiles.
pub const ROOM_SIZE: u8 = 50;

/// A coordinate inside one room, on one axis: a value in `0..=49`.
#[derive(Debug, Clone, Copy, PartialEq, Eq, Structural, Hash, PartialOrd, Ord)]
pub struct RoomCoordinate(pub u8);

/// Returned when a room-local coordinate is built from a value of 50 or more.
#[derive(Debug, Clone, Copy, PartialEq, Eq, Structural)]
pub struct OutOfBoundsError(pub u8);

impl RoomCoordinate {
    /// The coordinate holds a value inside a room.
    pub open spec fn is_valid(self) -> bool {
        self.0 < ROOM_SIZE
    }

    /// Builds a coordinate, refusing values outside `0..=49`.
    pub fn new(coord: u8) -> (r: Result<RoomCoordinate, OutOfBoundsError>)
        ensures
            coord < ROOM_SIZE <==> r is Ok,
            r is Ok ==> r->Ok_0 == RoomCoordinate(coord),
            r is Err ==> r->Err_0 == OutOfBoundsError(coord),
    {
        if coord < ROOM_SIZE {
            Ok(RoomCoordinate(coord))
        } else {
            Err(OutOfBoundsError(coord))
        }
    }

    /// The coordinate as a plain integer.
    pub fn u8(self) -> (r: u8)
        ensures
            r == self.0,
    {
        self.0
    }
}

/// A room's index in the room grid: one signed value per axis, each in
/// `-128..=127`. Negative x lies west of the origin, negative y north of it.
#[derive(Debug, Clone, Copy, PartialEq, Eq, Structural, Hash)]
pub struct RoomName {
    pub x_coord: i8,
    pub y_coord: i8,
}

} // verus!
