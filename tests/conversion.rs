use libaoc::convert::{Convert, TryConvert};
use libaoc::movement::Position;
use std::collections::VecDeque;

fn split<'a>(s: &'a str) -> Vec<&'a str> {
    s.split(", ").collect()
}

#[test]
fn try_convert_reads_all() {
    let r: Result<Vec<i64>, _> = split("1, 2, 3, 4, 5").try_convert();
    assert_eq!(vec![1, 2, 3, 4, 5], r.unwrap());

    let s = String::from("1\n2\n3\n4\n5\n6");
    let lines: Vec<&str> = s.lines().collect();
    let r: Result<Vec<u32>, _> = lines.try_convert();
    assert_eq!(vec![1, 2, 3, 4, 5, 6], r.unwrap());
}

#[test]
fn try_convert_fails_on_a_bad_item() {
    let r: Result<Vec<i64>, _> = split("1, 2, 3,4, 5").try_convert();
    assert!(r.is_err());
    let r: Result<Vec<u8>, _> = split("1, 256").try_convert();
    assert!(r.is_err());
    let r: Result<Vec<u8>, _> = split("1, -1").try_convert();
    assert!(r.is_err());
    let r: Result<Vec<i8>, _> = split("+1, -128").try_convert();
    assert_eq!(r.unwrap(), vec![1, -128]);
}

#[test]
fn try_convert_of_no_items() {
    let r: Result<Vec<i64>, _> = Vec::<&str>::new().try_convert();
    assert_eq!(r.unwrap(), Vec::<i64>::new());
}

#[test]
fn try_convert_iter_goes_on_after_errors() {
    let mut iter: VecDeque<Result<i64, _>> = split("1, 2, 3,4, 5").try_convert_iter();
    assert_eq!(Some(Ok(1)), iter.pop_front());
    assert_eq!(Some(Ok(2)), iter.pop_front());
    assert!(matches!(iter.pop_front(), Some(Err(_))));
    assert_eq!(Some(Ok(5)), iter.pop_front());
    assert_eq!(None, iter.pop_front());
}

#[test]
fn try_convert_into_slice_stops_at_error() {
    let mut buff = [0i64; 6];
    let succeded = split("1, 2, 3, 4, 5,6").try_convert_into_slice(&mut buff);
    assert_eq!([1, 2, 3, 4, 0, 0], buff);
    assert_eq!(Err(4), succeded);

    let written = split("1, 2, 3, 4, 5, 6, 7, 8, 9").try_convert_into_slice(&mut buff);
    assert_eq!(Ok(6), written);
    assert_eq!([1, 2, 3, 4, 5, 6], buff);

    let two: Vec<&str> = "9, 8, 7".split(", ").take(2).collect();
    let written = two.try_convert_into_slice(&mut buff);
    assert_eq!(Ok(2), written);
    assert_eq!([9, 8, 3, 4, 5, 6], buff);
}

#[test]
fn string_round_trip() {
    let v: Vec<i64> = vec![-5, 0, 17, 123456789, i64::MIN, i64::MAX];
    let text = v.iter().map(|n| n.to_string()).collect::<Vec<String>>().join(", ");
    let r: Result<Vec<i64>, _> = split(&text).try_convert();
    assert_eq!(r.unwrap(), v);
}

#[test]
fn convert_into_vec_makes_positions() {
    let tuples = vec![(0, 0), (1, 1), (2, 2)];
    let positions: Vec<Position<usize>> = tuples.convert_into_vec();
    assert_eq!(
        vec![Position::new(0, 0), Position::new(1, 1), Position::new(2, 2)],
        positions
    );
}

#[test]
fn convert_iter_hands_out_in_order() {
    let tups = vec![(4, 4), (5, 5), (3, 4)];
    let reversed: Vec<(i32, i32)> = tups.into_iter().rev().collect();
    let mut convert_iter: VecDeque<Position<i32>> = reversed.convert_iter();
    assert_eq!(Some(Position::new(3, 4)), convert_iter.pop_front());
    assert_eq!(Some(Position::new(5, 5)), convert_iter.pop_front());
    assert_eq!(Some(Position::new(4, 4)), convert_iter.pop_front());
    assert_eq!(None, convert_iter.pop_front());
}

#[test]
fn convert_into_slice_writes_what_fits() {
    let chars: Vec<u8> = vec![97, 98, 99, 100, 101];
    let mut slice: [char; 5] = ['-'; 5];
    let written = chars.convert_into_slice(&mut slice);
    assert_eq!(['a', 'b', 'c', 'd', 'e'], slice);
    assert_eq!(5, written);

    let short: Vec<u8> = vec![120, 121];
    let written = short.convert_into_slice(&mut slice);
    assert_eq!(2, written);
    assert_eq!(['x', 'y', 'c', 'd', 'e'], slice);

    let mut small: [u64; 2] = [0; 2];
    let long: Vec<u32> = vec![1, 2, 3];
    assert_eq!(2, long.convert_into_slice(&mut small));
    assert_eq!([1, 2], small);
}
