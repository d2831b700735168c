//! Positions in the world, and their projection onto one flat signed grid
//! of world coordinates.
use vstd::prelude::*;

use std::ops::Neg;
use vstd::std_specs::ops::{AddSpec, NegSpec, SubSpec};

use crate::direction::Direction;
use crate::room::{RoomCoordinate, RoomName, ROOM_SIZE};

verus! {

/// Smallest room-grid index on either axis.
pub const ROOM_INDEX_MIN: i32 = -128;

/// Largest room-grid index on either axis.
pub const ROOM_INDEX_MAX: i32 = 127;

/// Smallest world coordinate on either axis: the west or north edge of the
/// outermost room.
pub const WORLD_MIN: i64 = -6400;

/// One past the largest world coordinate on either axis.
pub const WORLD_END: i64 = 6400;

/// Returned when a world coordinate pair lies outside every room.
#[derive(Debug, Clone, Copy, PartialEq, Eq, Structural)]
pub struct WorldPositionOutOfBoundsError;

/// One tile of the world: a room and a coordinate pair inside it.
#[derive(Debug, Clone, Copy, PartialEq, Eq, Structural, Hash)]
pub struct Position {
    pub x: RoomCoordinate,
    pub y: RoomCoordinate,
    pub room_name: RoomName,
}

/// The room-grid index that holds world coordinate `w` (division rounding
/// towards negative infinity).
pub open spec fn room_index_of(w: int) -> int {
    w / ROOM_SIZE as int
}

/// The coordinate inside its room of world coordinate `w`.
pub open spec fn local_of(w: int) -> int {
    w % ROOM_SIZE as int
}

/// World coordinate `w` lies in a room whose index is representable.
pub open spec fn in_world(w: int) -> bool {
    ROOM_INDEX_MIN <= room_index_of(w) <= ROOM_INDEX_MAX
}

/// The position with world coordinates `(wx, wy)`; meaningful where both lie
/// in the world.
pub open spec fn position_at(wx: int, wy: int) -> Position {
    Position {
        x: RoomCoordinate(local_of(wx) as u8),
        y: RoomCoordinate(local_of(wy) as u8),
        room_name: RoomName { x_coord: room_index_of(wx) as i8, y_coord: room_index_of(wy) as i8 },
    }
}

/// The position with world coordinates `(wx, wy)`, or the error where either
/// lies outside the world.
pub open spec fn checked_position_at(wx: int, wy: int) -> Result<
    Position,
    WorldPositionOutOfBoundsError,
> {
    if in_world(wx) && in_world(wy) {
        Ok(position_at(wx, wy))
    } else {
        Err(WorldPositionOutOfBoundsError)
    }
}

/// Absolute value of an integer.
pub open spec fn abs(v: int) -> int {
    if v < 0 {
        -v
    } else {
        v
    }
}

impl Position {
    /// Both local coordinates lie inside the room.
    pub open spec fn wf(self) -> bool {
        self.x.is_valid() && self.y.is_valid()
    }

    /// The world x coordinate: room index times room size plus local x.
    pub open spec fn world_x(self) -> int {
        self.room_name.x_coord as int * ROOM_SIZE as int + self.x.0 as int
    }

    /// The world y coordinate: room index times room size plus local y.
    pub open spec fn world_y(self) -> int {
        self.room_name.y_coord as int * ROOM_SIZE as int + self.y.0 as int
    }

    /// Sum of the distances along each axis, in world coordinates.
    pub open spec fn manhattan_distance(self, other: Position) -> int {
        abs(self.world_x() - other.world_x()) + abs(self.world_y() - other.world_y())
    }
}

/// The floor-division form of a world coordinate, obtained through a shift
/// onto non-negative values; its room index is representable exactly when
/// the coordinate lies in `WORLD_MIN..WORLD_END`.
proof fn lemma_shifted_division(w: int)
    ensures
        room_index_of(w) == (w - WORLD_MIN) / ROOM_SIZE as int + ROOM_INDEX_MIN,
        local_of(w) == (w - WORLD_MIN) % ROOM_SIZE as int,
        in_world(w) <==> WORLD_MIN <= w < WORLD_END,
        0 <= local_of(w) < ROOM_SIZE,
{
}

/// The tiles of a room with a representable index lie between `WORLD_MIN`
/// and `WORLD_END`.
proof fn lemma_room_span(index: int)
    requires
        ROOM_INDEX_MIN <= index <= ROOM_INDEX_MAX,
    ensures
        WORLD_MIN <= index * ROOM_SIZE as int <= WORLD_END - ROOM_SIZE as int,
{
    assert(-6400 <= index * 50 <= 6350) by (nonlinear_arith)
        requires
            -128 <= index <= 127,
    ;
}

/// Splits one world coordinate into its room index and local coordinate.
fn split_world_coord(w: i64) -> (r: Option<(i8, u8)>)
    ensures
        match r {
            Some((room, local)) => in_world(w as int) && room == room_index_of(w as int) && local
                == local_of(w as int),
            None => !in_world(w as int),
        },
{
    proof {
        lemma_shifted_division(w as int);
    }
    if w < WORLD_MIN || w >= WORLD_END {
        None
    } else {
        let shifted: u32 = (w - WORLD_MIN) as u32;
        let room: i32 = (shifted / (ROOM_SIZE as u32)) as i32 + ROOM_INDEX_MIN;
        let local: u8 = (shifted % (ROOM_SIZE as u32)) as u8;
        Some((room as i8, local))
    }
}

/// The position at world coordinates `(wx, wy)`, taken at a width where no
/// sum of two `i32` overflows.
fn position_from_wide(wx: i64, wy: i64) -> (r: Result<Position, WorldPositionOutOfBoundsError>)
    ensures
        r == checked_position_at(wx as int, wy as int),
{
    match (split_world_coord(wx), split_world_coord(wy)) {
        (Some((rx, lx)), Some((ry, ly))) => Ok(
            Position {
                x: RoomCoordinate(lx),
                y: RoomCoordinate(ly),
                room_name: RoomName { x_coord: rx, y_coord: ry },
            },
        ),
        _ => Err(WorldPositionOutOfBoundsError),
    }
}

/// Reconstructing a position from world coordinates in the world gives a
/// valid position whose world coordinates are those same coordinates.
pub proof fn lemma_world_round_trip(wx: int, wy: int)
    requires
        in_world(wx),
        in_world(wy),
    ensures
        position_at(wx, wy).wf(),
        position_at(wx, wy).world_x() == wx,
        position_at(wx, wy).world_y() == wy,
{
    lemma_shifted_division(wx);
    lemma_shifted_division(wy);
}

/// A valid position lies in the world, and reconstructing a position from
/// its world coordinates gives the position back.
pub proof fn lemma_position_round_trip(p: Position)
    requires
        p.wf(),
    ensures
        in_world(p.world_x()),
        in_world(p.world_y()),
        position_at(p.world_x(), p.world_y()) == p,
        checked_position_at(p.world_x(), p.world_y()) == Ok::<
            Position,
            WorldPositionOutOfBoundsError,
        >(p),
{
    lemma_axis_round_trip(p.room_name.x_coord as int, p.x.0 as int);
    lemma_axis_round_trip(p.room_name.y_coord as int, p.y.0 as int);
}

/// Reconstruction from world coordinates fails exactly where the room index
/// of either coordinate lies outside `-128..=127`, which is where the
/// coordinate lies outside `WORLD_MIN..WORLD_END`.
pub proof fn lemma_world_bounds(wx: int, wy: int)
    ensures
        checked_position_at(wx, wy) is Err <==> !(ROOM_INDEX_MIN <= room_index_of(wx)
            <= ROOM_INDEX_MAX && ROOM_INDEX_MIN <= room_index_of(wy) <= ROOM_INDEX_MAX),
        in_world(wx) <==> WORLD_MIN <= wx < WORLD_END,
        in_world(wy) <==> WORLD_MIN <= wy < WORLD_END,
{
    lemma_shifted_division(wx);
    lemma_shifted_division(wy);
}

/// Where adding `(dx, dy)` to a position succeeds, the result's world
/// coordinates are the position's plus `(dx, dy)`.
pub proof fn lemma_add_moves_world_coords(p: Position, dx: int, dy: int)
    ensures
        checked_position_at(p.world_x() + dx, p.world_y() + dy) is Ok ==> {
            let q = checked_position_at(p.world_x() + dx, p.world_y() + dy)->Ok_0;
            &&& q.wf()
            &&& q.world_x() == p.world_x() + dx
            &&& q.world_y() == p.world_y() + dy
        },
{
    if in_world(p.world_x() + dx) && in_world(p.world_y() + dy) {
        lemma_world_round_trip(p.world_x() + dx, p.world_y() + dy);
    }
}

/// Stepping in a direction and then stepping back against it returns to the
/// starting position, whenever the first step stays in the world; negating a
/// direction twice gives it back.
pub proof fn lemma_direction_step_back(p: Position, d: Direction)
    requires
        p.wf(),
        p.add_req(d),
    ensures
        p.add_spec(d).sub_req(d),
        p.add_spec(d).sub_spec(d) == p,
        d.neg_spec().neg_spec() == d,
{
    lemma_world_round_trip(p.world_x() + d.dx(), p.world_y() + d.dy());
    lemma_position_round_trip(p);
    d.lemma_opposite();
}

/// The Manhattan distance is symmetric and never negative, and between valid
/// positions it is zero exactly when they are equal.
pub proof fn lemma_manhattan_symmetric(a: Position, b: Position)
    requires
        a.wf(),
        b.wf(),
    ensures
        a.manhattan_distance(b) == b.manhattan_distance(a),
        a.manhattan_distance(b) >= 0,
        a.manhattan_distance(b) == 0 <==> a == b,
{
    lemma_position_round_trip(a);
    lemma_position_round_trip(b);
}

/// Splitting `index * ROOM_SIZE + local` gives back the room index and the
/// local coordinate.
proof fn lemma_axis_round_trip(index: int, local: int)
    requires
        ROOM_INDEX_MIN <= index <= ROOM_INDEX_MAX,
        0 <= local < ROOM_SIZE,
    ensures
        room_index_of(index * ROOM_SIZE as int + local) == index,
        local_of(index * ROOM_SIZE as int + local) == local,
        in_world(index * ROOM_SIZE as int + local),
{
    vstd::arithmetic::div_mod::lemma_fundamental_div_mod_converse(
        index * ROOM_SIZE as int + local,
        ROOM_SIZE as int,
        index,
        local,
    );
}

impl Position {
    /// Builds a position from a room and a coordinate pair inside it.
    pub fn new(x: RoomCoordinate, y: RoomCoordinate, room_name: RoomName) -> (r: Position)
        ensures
            r == (Position { x, y, room_name }),
    {
        Position { x, y, room_name }
    }

    /// Projects the position onto world coordinates.
    pub fn world_coords(self) -> (r: (i32, i32))
        ensures
            r.0 == self.world_x(),
            r.1 == self.world_y(),
    {
        proof {
            lemma_room_span(self.room_name.x_coord as int);
            lemma_room_span(self.room_name.y_coord as int);
        }
        let wx: i32 = self.room_name.x_coord as i32 * (ROOM_SIZE as i32) + self.x.0 as i32;
        let wy: i32 = self.room_name.y_coord as i32 * (ROOM_SIZE as i32) + self.y.0 as i32;
        (wx, wy)
    }

    /// The position at world coordinates `(x, y)`, or an error where the room
    /// holding either coordinate has an index outside `-128..=127`.
    pub fn checked_from_world_coords(x: i32, y: i32) -> (r: Result<
        Position,
        WorldPositionOutOfBoundsError,
    >)
        ensures
            r == checked_position_at(x as int, y as int),
    {
        position_from_wide(x as i64, y as i64)
    }

    /// The position at world coordinates `(x, y)`; both must lie in the world.
    pub fn from_world_coords(x: i32, y: i32) -> (r: Position)
        requires
            in_world(x as int),
            in_world(y as int),
        ensures
            r == position_at(x as int, y as int),
    {
        Position::checked_from_world_coords(x, y).unwrap()
    }

    /// The position whose world coordinates are this one's plus `rhs`,
    /// moving into another room where needed, or an error where that lies
    /// outside the world.
    pub fn checked_add(self, rhs: (i32, i32)) -> (r: Result<Position, WorldPositionOutOfBoundsError>)
        ensures
            r == checked_position_at(self.world_x() + rhs.0, self.world_y() + rhs.1),
    {
        let (x1, y1) = self.world_coords();
        let (x2, y2) = rhs;
        position_from_wide(x1 as i64 + x2 as i64, y1 as i64 + y2 as i64)
    }

    /// The neighbouring position in `direction`, moving into another room
    /// where needed, or an error where that lies outside the world.
    pub fn checked_add_direction(self, direction: Direction) -> (r: Result<
        Position,
        WorldPositionOutOfBoundsError,
    >)
        ensures
            r == checked_position_at(
                self.world_x() + direction.dx(),
                self.world_y() + direction.dy(),
            ),
    {
        let (x1, y1) = self.world_coords();
        let (x2, y2) = <(i32, i32)>::from(direction);
        position_from_wide(x1 as i64 + x2 as i64, y1 as i64 + y2 as i64)
    }

    /// Moves this position by `(x, y)` in world coordinates; the result must
    /// lie in the world.
    pub fn offset(&mut self, x: i32, y: i32)
        requires
            in_world(old(self).world_x() + x),
            in_world(old(self).world_y() + y),
        ensures
            *final(self) == position_at(old(self).world_x() + x, old(self).world_y() + y),
    {
        *self = *self + (x, y);
    }

    /// Sum of the distances along each axis to `target`, in world
    /// coordinates; exact across rooms.
    pub fn get_manhattan_range_to(self, target: Position) -> (r: u32)
        ensures
            r == self.manhattan_distance(target),
    {
        proof {
            lemma_room_span(self.room_name.x_coord as int);
            lemma_room_span(self.room_name.y_coord as int);
            lemma_room_span(target.room_name.x_coord as int);
            lemma_room_span(target.room_name.y_coord as int);
        }
        let (dx, dy) = self - target;
        magnitude(dx) + magnitude(dy)
    }

    /// Whether the position lies on the border of its room: a local
    /// coordinate of 0 or 49.
    pub fn is_room_edge(self) -> (r: bool)
        ensures
            r == (self.x.0 == 0 || self.x.0 == ROOM_SIZE - 1 || self.y.0 == 0 || self.y.0
                == ROOM_SIZE - 1),
    {
        self.x.0 == 0 || self.x.0 == ROOM_SIZE - 1 || self.y.0 == 0 || self.y.0 == ROOM_SIZE - 1
    }
}

/// The absolute value of a difference of world coordinates.
fn magnitude(v: i32) -> (r: u32)
    requires
        v > i32::MIN,
    ensures
        r == abs(v as int),
{
    if v < 0 {
        (-v) as u32
    } else {
        v as u32
    }
}

impl std::ops::Add<(i32, i32)> for Position {
    type Output = Position;

    /// Adds `rhs` to the world coordinates; the result must lie in the world.
    fn add(self, rhs: (i32, i32)) -> (r: Position) {
        self.checked_add(rhs).unwrap()
    }
}

impl vstd::std_specs::ops::AddSpecImpl<(i32, i32)> for Position {
    open spec fn obeys_add_spec() -> bool {
        true
    }

    open spec fn add_req(self, rhs: (i32, i32)) -> bool {
        in_world(self.world_x() + rhs.0) && in_world(self.world_y() + rhs.1)
    }

    open spec fn add_spec(self, rhs: (i32, i32)) -> Position {
        position_at(self.world_x() + rhs.0, self.world_y() + rhs.1)
    }
}

impl std::ops::Add<Direction> for Position {
    type Output = Position;

    /// The neighbouring position in `direction`; it must lie in the world.
    fn add(self, direction: Direction) -> (r: Position) {
        self.checked_add_direction(direction).unwrap()
    }
}

impl vstd::std_specs::ops::AddSpecImpl<Direction> for Position {
    open spec fn obeys_add_spec() -> bool {
        true
    }

    open spec fn add_req(self, direction: Direction) -> bool {
        in_world(self.world_x() + direction.dx()) && in_world(self.world_y() + direction.dy())
    }

    open spec fn add_spec(self, direction: Direction) -> Position {
        position_at(self.world_x() + direction.dx(), self.world_y() + direction.dy())
    }
}

impl std::ops::Sub<(i32, i32)> for Position {
    type Output = Position;

    /// Subtracts `rhs` from the world coordinates; the result must lie in the
    /// world.
    fn sub(self, rhs: (i32, i32)) -> (r: Position) {
        let (x1, y1) = self.world_coords();
        let (x2, y2) = rhs;
        position_from_wide(x1 as i64 - x2 as i64, y1 as i64 - y2 as i64).unwrap()
    }
}

impl vstd::std_specs::ops::SubSpecImpl<(i32, i32)> for Position {
    open spec fn obeys_sub_spec() -> bool {
        true
    }

    open spec fn sub_req(self, rhs: (i32, i32)) -> bool {
        in_world(self.world_x() - rhs.0) && in_world(self.world_y() - rhs.1)
    }

    open spec fn sub_spec(self, rhs: (i32, i32)) -> Position {
        position_at(self.world_x() - rhs.0, self.world_y() - rhs.1)
    }
}

impl std::ops::Sub<Direction> for Position {
    type Output = Position;

    /// The neighbouring position opposite to `direction`; it must lie in the
    /// world.
    fn sub(self, direction: Direction) -> (r: Position) {
        proof {
            direction.lemma_opposite();
        }
        self.checked_add_direction(direction.neg()).unwrap()
    }
}

impl vstd::std_specs::ops::SubSpecImpl<Direction> for Position {
    open spec fn obeys_sub_spec() -> bool {
        true
    }

    open spec fn sub_req(self, direction: Direction) -> bool {
        in_world(self.world_x() - direction.dx()) && in_world(self.world_y() - direction.dy())
    }

    open spec fn sub_spec(self, direction: Direction) -> Position {
        position_at(self.world_x() - direction.dx(), self.world_y() - direction.dy())
    }
}

impl std::ops::Sub<Position> for Position {
    type Output = (i32, i32);

    /// The difference of the two positions' world coordinates.
    fn sub(self, other: Position) -> (r: (i32, i32)) {
        let (mx, my) = self.world_coords();
        let (ox, oy) = other.world_coords();
        (mx - ox, my - oy)
    }
}

impl vstd::std_specs::ops::SubSpecImpl<Position> for Position {
    open spec fn obeys_sub_spec() -> bool {
        true
    }

    open spec fn sub_req(self, other: Position) -> bool {
        true
    }

    open spec fn sub_spec(self, other: Position) -> (i32, i32) {
        ((self.world_x() - other.world_x()) as i32, (self.world_y() - other.world_y()) as i32)
    }
}

} // verus!
