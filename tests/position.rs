use screeps::direction::Direction;
use screeps::part::Part;
use screeps::position::{Position, WorldPositionOutOfBoundsError};
use screeps::room::{OutOfBoundsError, RoomCoordinate, RoomName};

fn coord(v: u8) -> RoomCoordinate {
    RoomCoordinate::new(v).unwrap()
}

fn room(x: i8, y: i8) -> RoomName {
    RoomName { x_coord: x, y_coord: y }
}

fn pos(x: u8, y: u8, rx: i8, ry: i8) -> Position {
    Position::new(coord(x), coord(y), room(rx, ry))
}

const ALL_DIRECTIONS: [Direction; 8] = [
    Direction::Top,
    Direction::TopRight,
    Direction::Right,
    Direction::BottomRight,
    Direction::Bottom,
    Direction::BottomLeft,
    Direction::Left,
    Direction::TopLeft,
];

#[test]
fn room_coordinate_rejects_fifty() {
    assert_eq!(RoomCoordinate::new(49), Ok(RoomCoordinate(49)));
    assert_eq!(RoomCoordinate::new(0).map(|c| c.u8()), Ok(0));
    assert_eq!(RoomCoordinate::new(50), Err(OutOfBoundsError(50)));
    assert_eq!(RoomCoordinate::new(255), Err(OutOfBoundsError(255)));
}

#[test]
fn world_coords_scale_room_index() {
    assert_eq!(pos(40, 40, 5, -6).world_coords(), (290, -260));
    assert_eq!(pos(0, 0, -128, -128).world_coords(), (-6400, -6400));
    assert_eq!(pos(49, 49, 127, 127).world_coords(), (6399, 6399));
}

#[test]
fn from_world_coords_floors_negative_values() {
    assert_eq!(Position::checked_from_world_coords(-1, 0), Ok(pos(49, 0, -1, 0)));
    assert_eq!(Position::checked_from_world_coords(-50, -51), Ok(pos(0, 49, -1, -2)));
    assert_eq!(Position::checked_from_world_coords(50, 99), Ok(pos(0, 49, 1, 1)));
    assert_eq!(Position::from_world_coords(-6400, 6399), pos(0, 49, -128, 127));
}

#[test]
fn from_world_coords_boundary() {
    assert!(Position::checked_from_world_coords(-6400, -6400).is_ok());
    assert!(Position::checked_from_world_coords(6399, 6399).is_ok());
    assert_eq!(
        Position::checked_from_world_coords(-6401, 0),
        Err(WorldPositionOutOfBoundsError)
    );
    assert_eq!(
        Position::checked_from_world_coords(0, 6400),
        Err(WorldPositionOutOfBoundsError)
    );
    assert_eq!(
        Position::checked_from_world_coords(i32::MIN, i32::MAX),
        Err(WorldPositionOutOfBoundsError)
    );
}

#[test]
fn world_round_trip() {
    for wx in [-6400, -6399, -51, -50, -49, -1, 0, 1, 49, 50, 6350, 6399] {
        for wy in [-6400, -2, 0, 77, 6399] {
            let p = Position::checked_from_world_coords(wx, wy).unwrap();
            assert_eq!(p.world_coords(), (wx, wy));
        }
    }
}

#[test]
fn position_round_trip() {
    for p in [pos(0, 0, -128, -128), pos(49, 49, 127, 127), pos(17, 3, -1, 0), pos(25, 48, 4, -9)] {
        let (wx, wy) = p.world_coords();
        assert_eq!(Position::checked_from_world_coords(wx, wy), Ok(p));
    }
}

#[test]
fn add_moves_world_coords() {
    let p = pos(10, 20, -3, 2);
    for (dx, dy) in [(0, 0), (1, -1), (-500, 250), (39, 29), (-11, -21)] {
        let q = p + (dx, dy);
        let (wx, wy) = p.world_coords();
        assert_eq!(q.world_coords(), (wx + dx, wy + dy));
    }
}

#[test]
fn checked_add_rejects_leaving_world() {
    let corner = pos(0, 0, -128, -128);
    assert_eq!(corner.checked_add((-1, 0)), Err(WorldPositionOutOfBoundsError));
    assert_eq!(corner.checked_add((0, -1)), Err(WorldPositionOutOfBoundsError));
    assert_eq!(corner.checked_add((i32::MAX, 0)), Err(WorldPositionOutOfBoundsError));
    assert_eq!(corner.checked_add((1, 1)), Ok(pos(1, 1, -128, -128)));
    let far = pos(49, 49, 127, 127);
    assert_eq!(far.checked_add((1, 0)), Err(WorldPositionOutOfBoundsError));
    assert_eq!(far.checked_add((i32::MIN, i32::MIN)), Err(WorldPositionOutOfBoundsError));
}

#[test]
fn checked_add_direction_crosses_rooms() {
    let p = pos(0, 0, 3, 3);
    assert_eq!(p.checked_add_direction(Direction::TopLeft), Ok(pos(49, 49, 2, 2)));
    assert_eq!(p.checked_add_direction(Direction::Bottom), Ok(pos(0, 1, 3, 3)));
    assert_eq!(
        pos(0, 10, -128, 0).checked_add_direction(Direction::Left),
        Err(WorldPositionOutOfBoundsError)
    );
}

#[test]
fn direction_vectors_and_negation() {
    assert_eq!(<(i32, i32)>::from(Direction::Top), (0, -1));
    assert_eq!(Direction::BottomLeft.to_vector(), (-1, 1));
    assert_eq!(-Direction::TopRight, Direction::BottomLeft);
    for d in ALL_DIRECTIONS {
        assert_eq!(-(-d), d);
        let (dx, dy) = d.to_vector();
        assert_eq!((-d).to_vector(), (-dx, -dy));
        assert_ne!((dx, dy), (0, 0));
    }
}

#[test]
fn direction_step_back() {
    for p in [pos(0, 0, 0, 0), pos(49, 49, -1, -1), pos(25, 0, 5, 5)] {
        for d in ALL_DIRECTIONS {
            assert_eq!(p + d - d, p);
        }
    }
}

#[test]
fn manhattan_symmetric_and_zero_only_on_equal() {
    let a = pos(3, 4, -2, 7);
    let b = pos(45, 1, 1, -3);
    assert_eq!(a.get_manhattan_range_to(b), b.get_manhattan_range_to(a));
    assert_eq!(a.get_manhattan_range_to(b), 192 + 503);
    assert_eq!(a.get_manhattan_range_to(a), 0);
    assert_ne!(a.get_manhattan_range_to(pos(3, 5, -2, 7)), 0);
}

#[test]
fn manhattan_range_across_whole_world() {
    let top_left = pos(0, 0, -128, -128);
    let diagonal_room = pos(0, 0, -127, -127);
    let bottom_left = pos(0, 0, -128, 127);
    let bottom_right = pos(49, 49, 127, 127);
    assert_eq!(top_left.get_manhattan_range_to(diagonal_room), 100);
    assert_eq!(top_left.get_manhattan_range_to(bottom_left), 255 * 50);
    assert_eq!(diagonal_room.get_manhattan_range_to(bottom_left), 255 * 50);
    assert_eq!(top_left.get_manhattan_range_to(bottom_right), 255 * 50 * 2 + 49 * 2);
}

#[test]
fn room_edge_detection() {
    assert!(pos(0, 20, 0, 0).is_room_edge());
    assert!(pos(49, 20, 0, 0).is_room_edge());
    assert!(pos(20, 0, 0, 0).is_room_edge());
    assert!(pos(20, 49, 0, 0).is_room_edge());
    assert!(!pos(1, 48, 0, 0).is_room_edge());
    assert!(!pos(25, 25, 0, 0).is_room_edge());
}

#[test]
fn add_and_sub_tuples_across_rooms() {
    let start = pos(42, 42, -6, 6);
    let p2 = start + (7, 7);
    assert_eq!(p2, pos(49, 49, -6, 6));
    let p3 = p2 + (0, -59);
    assert_eq!(p3, pos(49, 40, -6, 5));
    let p4 = p3 - (49, 0);
    assert_eq!(p4, pos(0, 40, -6, 5));
    assert_eq!(p4 + (-1, 0), pos(49, 40, -7, 5));
}

#[test]
fn offset_in_place() {
    let mut p = pos(21, 21, 21, 21);
    p.offset(5, 5);
    assert_eq!(p, pos(26, 26, 21, 21));
    p.offset(0, 49);
    assert_eq!(p, pos(26, 25, 21, 22));
}

#[test]
fn subtract_positions() {
    let a = pos(40, 40, 5, -6);
    let b = pos(0, 20, 5, -7);
    assert_eq!(a - b, (40, 70));
    assert_eq!(b - a, (-40, -70));
}

#[test]
fn part_costs() {
    assert_eq!(Part::Move.cost(), 50);
    assert_eq!(Part::Work.cost(), 100);
    assert_eq!(Part::Carry.cost(), 50);
    assert_eq!(Part::Attack.cost(), 80);
    assert_eq!(Part::RangedAttack.cost(), 150);
    assert_eq!(Part::Tough.cost(), 10);
    assert_eq!(Part::Heal.cost(), 250);
    assert_eq!(Part::Claim.cost(), 600);
}
