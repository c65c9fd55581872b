//! Absolute values, uniformly over the integer widths and over pairs.
use vstd::prelude::*;

verus! {

/// The absolute value of an integer, for reasoning.
pub open spec fn abs_int(v: int) -> int {
    if v < 0 {
        -v
    } else {
        v
    }
}

/// Types with an absolute value. For the unsigned widths it is the value
/// itself; for the signed widths it is the magnitude. The most negative value
/// of a signed width has no magnitude in its own type, so `abs` asks that it
/// not be given.
pub trait Absolute: Sized {
    /// Whether the absolute value of `self` can be represented.
    spec fn abs_ok(self) -> bool;

    /// The absolute value of `self`.
    spec fn abs_of(self) -> Self;

    fn abs(self) -> (r: Self)
        requires
            self.abs_ok(),
        ensures
            r == self.abs_of(),
    ;
}

impl Absolute for i64 {
    open spec fn abs_ok(self) -> bool {
        self != i64::MIN
    }

    open spec fn abs_of(self) -> i64 {
        abs_int(self as int) as i64
    }

    fn abs(self) -> (r: i64) {
        if self < 0 {
            -self
        } else {
            self
        }
    }
}

impl Absolute for i32 {
    open spec fn abs_ok(self) -> bool {
        self != i32::MIN
    }

    open spec fn abs_of(self) -> i32 {
        abs_int(self as int) as i32
    }

    fn abs(self) -> (r: i32) {
        if self < 0 {
            -self
        } else {
            self
        }
    }
}

impl Absolute for i16 {
    open spec fn abs_ok(self) -> bool {
        self != i16::MIN
    }

    open spec fn abs_of(self) -> i16 {
        abs_int(self as int) as i16
    }

    fn abs(self) -> (r: i16) {
        if self < 0 {
            -self
        } else {
            self
        }
    }
}

impl Absolute for i8 {
    open spec fn abs_ok(self) -> bool {
        self != i8::MIN
    }

    open spec fn abs_of(self) -> i8 {
        abs_int(self as int) as i8
    }

    fn abs(self) -> (r: i8) {
        if self < 0 {
            -self
        } else {
            self
        }
    }
}

impl Absolute for isize {
    open spec fn abs_ok(self) -> bool {
        self != isize::MIN
    }

    open spec fn abs_of(self) -> isize {
        abs_int(self as int) as isize
    }

    fn abs(self) -> (r: isize) {
        if self < 0 {
            -self
        } else {
            self
        }
    }
}

impl Absolute for u64 {
    open spec fn abs_ok(self) -> bool {
        true
    }

    open spec fn abs_of(self) -> u64 {
        self
    }

    fn abs(self) -> (r: u64) {
        self
    }
}

impl Absolute for u32 {
    open spec fn abs_ok(self) -> bool {
        true
    }

    open spec fn abs_of(self) -> u32 {
        self
    }

    fn abs(self) -> (r: u32) {
        self
    }
}

impl Absolute for u16 {
    open spec fn abs_ok(self) -> bool {
        true
    }

    open spec fn abs_of(self) -> u16 {
        self
    }

    fn abs(self) -> (r: u16) {
        self
    }
}

impl Absolute for u8 {
    open spec fn abs_ok(self) -> bool {
        true
    }

    open spec fn abs_of(self) -> u8 {
        self
    }

    fn abs(self) -> (r: u8) {
        self
    }
}

impl Absolute for usize {
    open spec fn abs_ok(self) -> bool {
        true
    }

    open spec fn abs_of(self) -> usize {
        self
    }

    fn abs(self) -> (r: usize) {
        self
    }
}

impl<N: Absolute> Absolute for (N, N) {
    open spec fn abs_ok(self) -> bool {
        self.0.abs_ok() && self.1.abs_ok()
    }

    open spec fn abs_of(self) -> (N, N) {
        (self.0.abs_of(), self.1.abs_of())
    }

    fn abs(self) -> (r: (N, N)) {
        (self.0.abs(), self.1.abs())
    }
}

} // verus!
