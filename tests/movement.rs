use libaoc::absolute::Absolute;
use libaoc::movement::{Direction, ManhattenDst, Position};

const ALL: [Direction; 4] = [Direction::Up, Direction::Down, Direction::Right, Direction::Left];

#[test]
fn direction_constructors() {
    assert_eq!(Direction::init_up(), Direction::Up);
    assert_eq!(Direction::init_down(), Direction::Down);
    assert_eq!(Direction::init_left(), Direction::Left);
    assert_eq!(Direction::init_right(), Direction::Right);
}

#[test]
fn direction_turns() {
    assert_eq!(Direction::Up.turn_right(), Direction::Right);
    assert_eq!(Direction::Right.turn_right(), Direction::Down);
    assert_eq!(Direction::Down.turn_right(), Direction::Left);
    assert_eq!(Direction::Left.turn_right(), Direction::Up);
    assert_eq!(Direction::Up.turn_left(), Direction::Left);
    assert_eq!(Direction::Left.turn_left(), Direction::Down);
    assert_eq!(Direction::Down.turn_left(), Direction::Right);
    assert_eq!(Direction::Right.turn_left(), Direction::Up);
    assert_eq!(Direction::Up.reverse(), Direction::Down);
    assert_eq!(Direction::Down.reverse(), Direction::Up);
    assert_eq!(Direction::Left.reverse(), Direction::Right);
    assert_eq!(Direction::Right.reverse(), Direction::Left);
}

#[test]
fn direction_laws_on_every_direction() {
    for d in ALL {
        assert_eq!(d.reverse().reverse(), d);
        assert_eq!(d.turn_right().turn_right().turn_right().turn_right(), d);
        assert_eq!(d.turn_left().turn_left().turn_left().turn_left(), d);
        assert_eq!(d.turn_left().turn_right(), d);
        assert_eq!(d.turn_right().turn_left(), d);
    }
}

#[test]
fn position_arithmetic() {
    let first = Position::new(10, 20);
    let second = Position::new(20, 30);
    assert_eq!(Position::new(10, 10), second - first);

    let first_ref = &Position::new(10, 20);
    let other = Position::new(-20, 30);
    let third = other - first_ref;
    assert_eq!(Position::new(-30, 10), third);
    assert_eq!(Position::new(30, 10), third.abs());
    assert_eq!(Position::new(-10, 40), third + second);

    assert_eq!(Position::new(10, 20) + Position::new(-20, 30), Position::new(-10, 50));
    assert_eq!(&Position::new(1, 2) + Position::new(3, 4), Position::new(4, 6));
    assert_eq!(Position::new(1, 2) + &Position::new(3, 4), Position::new(4, 6));
    assert_eq!(&Position::new(1, 2) + &Position::new(3, 4), Position::new(4, 6));
    assert_eq!(&Position::new(1, 2) - Position::new(3, 4), Position::new(-2, -2));
    assert_eq!(Position::new(1, 2) - &Position::new(3, 4), Position::new(-2, -2));
    assert_eq!(&Position::new(1, 2) - &Position::new(3, 4), Position::new(-2, -2));
}

#[test]
fn position_sum_laws() {
    let p = Position::new(-7i64, 12);
    let q = Position::new(100i64, -3);
    assert_eq!((p + q) - q, p);
    assert_eq!(p + q, q + p);
}

#[test]
fn position_from_tuple() {
    let tup = (-10i32, 21i32);
    let pos = Position::new(-10i32, 21i32);
    assert_eq!(Position::from(tup), pos);
    let tuple = (10u16, 1u16);
    assert_eq!(Position::from(tuple), Position::new(10u16, 1u16));
    assert_eq!(Position::from((3i8, -4i8)).to_tuple(), (3, -4));
    assert_eq!(Position::new(5u8, 6u8).cpy_into_tuple(), (5, 6));
    let t: (i64, i64) = Position::new(8, 9).into();
    assert_eq!(t, (8, 9));
}

#[test]
fn position_getters() {
    let p = Position::new(4i32, -2i32);
    assert_eq!(*p.get_ref_x(), 4);
    assert_eq!(*p.get_ref_y(), -2);
    assert_eq!(p.get_ref(), (&4, &-2));
}

#[test]
fn change_moves_on_a_screen() {
    let mut pos = Position::new(0, 0);
    pos.change(&Direction::init_up(), 1);
    assert_eq!(pos, Position::new(0, -1));
    pos.change(&Direction::Down, 3);
    assert_eq!(pos, Position::new(0, 2));
    pos.change(&Direction::Right, 5);
    assert_eq!(pos, Position::new(5, 2));
    pos.change(&Direction::Left, 2);
    assert_eq!(pos, Position::new(3, 2));
}

#[test]
fn rev_change_moves_on_a_plot() {
    let mut pos = Position::new(0, 0);
    pos.rev_change(&Direction::init_up(), 1);
    assert_eq!(pos, Position::new(0, 1));
    pos.rev_change(&Direction::Down, 3);
    assert_eq!(pos, Position::new(0, -2));
    pos.rev_change(&Direction::Right, 5);
    assert_eq!(pos, Position::new(5, -2));
    pos.rev_change(&Direction::Left, 2);
    assert_eq!(pos, Position::new(3, -2));
}

#[test]
fn change_and_back() {
    for d in ALL {
        let start = Position::new(-4i32, 9i32);
        let mut p = start;
        p.change(&d, 6);
        assert_ne!(p, start);
        p.change(&d.reverse(), 6);
        assert_eq!(p, start);
    }
}

#[test]
fn increments_and_decrements() {
    let mut pos = Position::new(0, 0);
    pos.increment_y(10);
    assert_eq!(Position::new(0, 10), pos);
    pos.decrement_y(3);
    assert_eq!(Position::new(0, 7), pos);
    pos.increment_x(4);
    assert_eq!(Position::new(4, 7), pos);
    pos.decrement_x(9);
    assert_eq!(Position::new(-5, 7), pos);
}

#[test]
fn adjacency() {
    let pos1 = Position::new(5, 6);
    let pos2 = Position::new(6, 7);
    assert!(pos1.is_adjecent(&pos2));
    assert!(pos2.is_adjecent(&pos1));

    let pos3 = Position::new(-1, 0);
    let pos4 = Position::new(0, 0);
    assert!(pos3.is_adjecent(&pos4));
    assert!(pos4.is_adjecent(&pos3));

    assert!(!pos4.is_adjecent(&pos4));
    assert!(!pos3.is_adjecent(&pos1));
    assert!(!Position::new(-1, 0).is_adjecent(&Position::new(1, 0)));
    assert!(!Position::new(i64::MIN, 0).is_adjecent(&Position::new(i64::MAX, 0)));
    assert!(Position::new(u8::MAX, 0).is_adjecent(&Position::new(254, 1)));
}

#[test]
fn manhattan_distance() {
    let pos = Position::new(-1, 11i16);
    assert_eq!(12, pos.manhattendst());
    assert_eq!(7, (-3i32, 4i32).manhattendst());
    assert_eq!(9, (2i64, -3i64, -4i64).manhattendst());
    assert_eq!(5u8, (2u8, 3u8).manhattendst());
}

#[test]
fn absolute_values() {
    assert_eq!(10, Absolute::abs(-10i32));
    assert_eq!(20, Absolute::abs(20u32));
    assert_eq!(i64::MAX, Absolute::abs(-i64::MAX));
    assert_eq!(0, Absolute::abs(0i8));
    assert_eq!(u64::MAX, Absolute::abs(u64::MAX));
    assert_eq!((3, 4), Absolute::abs((-3isize, 4isize)));
    assert_eq!(Position::new(30, 10), Position::new(-30, 10).abs());
}
