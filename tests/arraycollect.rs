use libaoc::convert::{arraycollect, arraycollect_converted, FillError};
use std::collections::VecDeque;
use std::rc::Rc;

#[derive(Debug, PartialEq)]
struct NonCopy {
    item: i64,
}

impl From<i64> for NonCopy {
    fn from(num: i64) -> NonCopy {
        NonCopy { item: num }
    }
}

impl NonCopy {
    fn new(num: i64) -> NonCopy {
        NonCopy { item: num }
    }
}

#[test]
fn test_array_collect() {
    let mut range: VecDeque<i64> = (0..3).collect();
    let result = arraycollect_converted::<i64, NonCopy, 2>(&mut range);

    let cmp = [NonCopy::new(0), NonCopy::new(1)];

    assert_eq!(result, Ok(cmp));
    assert_eq!(range.pop_front(), Some(2));

    let s = String::from("Hello world!");
    let mut chars: VecDeque<char> = s.chars().collect();
    let result = arraycollect::<char, 3>(&mut chars);
    assert_eq!(result, Ok(['H', 'e', 'l']));
}

#[test]
fn test_mut_array_collect() {
    let mut v = vec![NonCopy::new(1), NonCopy::new(2), NonCopy::new(4)];

    {
        let mut refs: VecDeque<&mut NonCopy> = v.iter_mut().collect();
        let mut arr = arraycollect::<&mut NonCopy, 3>(&mut refs).unwrap();

        for item in arr.iter_mut() {
            **item = NonCopy::new(0);
        }
        assert_eq!(
            [
                &mut NonCopy::new(0),
                &mut NonCopy::new(0),
                &mut NonCopy::new(0)
            ],
            arr
        );
    }
    assert_eq!(vec![NonCopy::new(0), NonCopy::new(0), NonCopy::new(0)], v);
}

#[test]
fn array_collect_short_source_fails_and_drops() {
    let shared = Rc::new(10);
    let mut src: VecDeque<Rc<i32>> = VecDeque::new();
    src.push_back(Rc::clone(&shared));
    assert_eq!(Rc::strong_count(&shared), 2);
    let result = arraycollect::<Rc<i32>, 3>(&mut src);
    assert_eq!(result, Err(FillError::FillError));
    assert!(src.is_empty());
    assert_eq!(Rc::strong_count(&shared), 1);
}

#[test]
fn array_collect_short_source_with_conversion() {
    let mut src: VecDeque<i64> = VecDeque::from(vec![10]);
    let result = arraycollect_converted::<i64, NonCopy, 3>(&mut src);
    assert_eq!(result, Err(FillError::FillError));
    assert!(src.is_empty());
}

#[test]
fn array_collect_exact_length_empties_source() {
    let mut src: VecDeque<u8> = VecDeque::from(vec![7, 8]);
    assert_eq!(arraycollect::<u8, 2>(&mut src), Ok([7, 8]));
    assert!(src.is_empty());
}

#[test]
fn array_collect_of_nothing() {
    let mut src: VecDeque<u8> = VecDeque::from(vec![7, 8]);
    assert_eq!(arraycollect::<u8, 0>(&mut src), Ok([]));
    assert_eq!(src.len(), 2);
}

#[test]
fn fill_error_description() {
    assert_eq!(
        FillError::FillError.description(),
        "The array was partially filled, and therefore dropped."
    );
}
