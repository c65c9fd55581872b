use libaoc::{clone, copy, moved, sort_biggest, sort_smallest, MinMax};

#[derive(Ord, PartialOrd, PartialEq, Eq, Debug)]
struct Labelled {
    item: i64,
    message: String,
}

#[test]
fn sort_pairs() {
    assert_eq!((20, 10), sort_biggest(10, 20));
    assert_eq!((20, 10), sort_biggest(20, 10));
    assert_eq!((10, 20), sort_smallest(20, 10));
    assert_eq!((10, 20), sort_smallest(10, 20));

    let a = Labelled { item: 10, message: String::from("hello") };
    let b = Labelled { item: 11, message: String::from("world!") };
    assert_eq!((&a, &b), sort_smallest(&a, &b));
    assert_eq!((&b, &a), sort_biggest(&a, &b));
}

#[test]
fn minmax_and_maxmin() {
    assert_eq!((10, 20), (20, 10).minmax());
    assert_eq!((10, 20), (10, 20).minmax());
    assert_eq!((20, 10), (10, 20).maxmin());
    assert_eq!((20, 10), (20, 10).maxmin());
    assert_eq!((5, 5), (5, 5).minmax());

    let mut a = 1;
    let mut b = 2;
    let t = (&mut a, &mut b);
    assert_eq!((&mut 2, &mut 1), t.maxmin());
}

#[test]
fn ties_keep_their_places() {
    let a = Labelled { item: 1, message: String::from("a") };
    let b = Labelled { item: 1, message: String::from("a") };
    let (x, y) = (&a, &b).minmax();
    assert!(std::ptr::eq(x, &a) && std::ptr::eq(y, &b));
    let (x, y) = (&a, &b).maxmin();
    assert!(std::ptr::eq(x, &a) && std::ptr::eq(y, &b));
}

#[test]
fn moved_copy_clone() {
    assert_eq!(moved(String::from("x")), "x");
    let mut n = 10;
    let mut c = {
        let mut_ref = &mut n;
        let c = copy(mut_ref);
        *mut_ref += 1;
        c
    };
    c += 1;
    assert_eq!(c, n);

    let mut s = String::from("Hello!");
    let mut cl = {
        let mut_ref = &mut s;
        let cl = clone(mut_ref);
        mut_ref.push('!');
        cl
    };
    cl.push('!');
    assert_eq!(cl, s);
}
