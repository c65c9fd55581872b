//! The integer widths as numbers: each value has a mathematical value, each
//! width a range, and the arithmetic that positions and conversions need is
//! stated over those values.
use vstd::prelude::*;
use crate::absolute::{abs_int, Absolute};
use std::num::ParseIntError;

verus! {

/// The error that `str::parse` gives for the integer widths
/// (`std::num::ParseIntError`), handed on to callers as it is.
#[verifier::external_type_specification]
#[verifier::external_body]
pub struct ExParseIntError(std::num::ParseIntError);

/// Whether `v` can be represented in the width `N`.
pub open spec fn fits<N: Number>(v: int) -> bool {
    N::lowest() <= v <= N::highest()
}

/// Whether `c` is an ASCII decimal digit.
pub open spec fn is_digit(c: char) -> bool {
    '0' <= c <= '9'
}

/// The value of a decimal digit.
pub open spec fn digit_value(c: char) -> int {
    c as int - '0' as int
}

/// Whether `s` is one or more decimal digits and nothing else.
pub open spec fn all_digits(s: Seq<char>) -> bool {
    s.len() > 0 && forall|i: int| 0 <= i < s.len() ==> is_digit(#[trigger] s[i])
}

/// The value of a run of decimal digits, most significant first.
pub open spec fn digits_value(s: Seq<char>) -> int
    decreases s.len(),
{
    if s.len() == 0 {
        0
    } else {
        digits_value(s.drop_last()) * 10 + digit_value(s.last())
    }
}

/// The number that `s` writes in decimal: an optional sign followed by one or
/// more digits, with nothing before or after. A minus sign is accepted only
/// where `signed` holds.
pub open spec fn decimal_value(s: Seq<char>, signed: bool) -> Option<int> {
    if s.len() > 0 && s[0] == '+' && all_digits(s.drop_first()) {
        Some(digits_value(s.drop_first()))
    } else if signed && s.len() > 0 && s[0] == '-' && all_digits(s.drop_first()) {
        Some(-digits_value(s.drop_first()))
    } else if all_digits(s) {
        Some(digits_value(s))
    } else {
        None
    }
}

/// Whether `s` is the decimal form of a number from `lo` to `hi`; a minus
/// sign is accepted only where `lo` is negative.
pub open spec fn decimal_in(s: Seq<char>, lo: int, hi: int) -> bool {
    match decimal_value(s, lo < 0) {
        Some(v) => lo <= v <= hi,
        None => false,
    }
}

/// Whether `s` is the decimal form of a value of the width `N`.
pub open spec fn parses_as<N: Number>(s: Seq<char>) -> bool {
    decimal_in(s, N::lowest(), N::highest())
}

/// The value that `s` writes, where `parses_as::<N>(s)`.
pub open spec fn parsed_value<N: Number>(s: Seq<char>) -> int {
    decimal_value(s, N::lowest() < 0)->Some_0
}

/// The digit character for `d`, from 0 to 9.
pub open spec fn digit_char(d: int) -> char {
    if d == 0 {
        '0'
    } else if d == 1 {
        '1'
    } else if d == 2 {
        '2'
    } else if d == 3 {
        '3'
    } else if d == 4 {
        '4'
    } else if d == 5 {
        '5'
    } else if d == 6 {
        '6'
    } else if d == 7 {
        '7'
    } else if d == 8 {
        '8'
    } else {
        '9'
    }
}

/// The shortest run of decimal digits that writes `m`.
pub open spec fn digits_text(m: nat) -> Seq<char>
    decreases m,
{
    if m < 10 {
        seq![digit_char(m as int)]
    } else {
        digits_text(m / 10).push(digit_char(m as int % 10))
    }
}

/// The usual decimal form of `n`: a minus sign where it is negative, then the
/// digits of its magnitude.
pub open spec fn decimal_text(n: int) -> Seq<char> {
    if n < 0 {
        seq!['-'] + digits_text((-n) as nat)
    } else {
        digits_text(n as nat)
    }
}

proof fn lemma_digit_char(d: int)
    requires
        0 <= d < 10,
    ensures
        is_digit(digit_char(d)),
        digit_value(digit_char(d)) == d,
{
}

proof fn lemma_digits_text(m: nat)
    ensures
        all_digits(digits_text(m)),
        digits_value(digits_text(m)) == m,
    decreases m,
{
    let s = digits_text(m);
    if m >= 10 {
        lemma_digits_text(m / 10);
        lemma_digit_char(m as int % 10);
        assert(s.drop_last() =~= digits_text(m / 10));
        assert(digits_value(s) == digits_value(s.drop_last()) * 10 + digit_value(s.last()));
        assert(digits_value(s) == (m / 10) * 10 + m % 10);
        assert(m == (m / 10) * 10 + m % 10);
    } else {
        lemma_digit_char(m as int);
        assert(s.drop_last() =~= Seq::<char>::empty());
        assert(digits_value(s) == digits_value(s.drop_last()) * 10 + digit_value(s.last()));
    }
}

/// A primitive integer width.
pub trait Number: Absolute + Copy {
    /// The mathematical value of `self`.
    spec fn val(self) -> int;

    /// The least value of the width.
    spec fn lowest() -> int;

    /// The greatest value of the width.
    spec fn highest() -> int;

    /// The value of the width that stands for `v`, where `v` fits.
    spec fn from_val(v: int) -> Self;

    proof fn lemma_range()
        ensures
            Self::lowest() <= 0,
            1 <= Self::highest(),
            Self::lowest() == 0 || Self::lowest() == -Self::highest() - 1,
    ;

    proof fn lemma_val(self)
        ensures
            Self::lowest() <= self.val() <= Self::highest(),
            Self::from_val(self.val()) == self,
    ;

    proof fn lemma_from_val(v: int)
        requires
            Self::lowest() <= v <= Self::highest(),
        ensures
            Self::from_val(v).val() == v,
    ;

    proof fn lemma_abs(self)
        ensures
            self.abs_ok() <==> abs_int(self.val()) <= Self::highest(),
            self.abs_ok() ==> self.abs_of().val() == abs_int(self.val()),
    ;

    fn one() -> (r: Self)
        ensures
            r.val() == 1,
    ;

    fn plus(self, other: Self) -> (r: Self)
        requires
            Self::lowest() <= self.val() + other.val() <= Self::highest(),
        ensures
            r.val() == self.val() + other.val(),
    ;

    fn minus(self, other: Self) -> (r: Self)
        requires
            Self::lowest() <= self.val() - other.val() <= Self::highest(),
        ensures
            r.val() == self.val() - other.val(),
    ;

    fn less(self, other: Self) -> (r: bool)
        ensures
            r == (self.val() < other.val()),
    ;

    fn same(self, other: Self) -> (r: bool)
        ensures
            r == (self.val() == other.val()),
    ;

    /// Reads the decimal form of a value of the width.
    fn parse_decimal(s: &str) -> (r: Result<Self, ParseIntError>)
        ensures
            r is Ok <==> decimal_in(s@, Self::lowest(), Self::highest()),
            r is Ok ==> r->Ok_0.val() == decimal_value(s@, Self::lowest() < 0)->Some_0,
    ;
}

/// Two values of a width are equal exactly when their values are.
pub proof fn lemma_val_injective<N: Number>(a: N, b: N)
    ensures
        (a.val() == b.val()) == (a == b),
{
    a.lemma_val();
    b.lemma_val();
}

/// The absolute value of a signed number is never negative, wherever it can
/// be represented: every value but the most negative one.
pub proof fn lemma_abs_nonnegative<N: Number>(n: N)
    requires
        n.abs_ok(),
    ensures
        n.abs_of().val() >= 0,
        n.abs_of().val() == abs_int(n.val()),
{
    n.lemma_abs();
}

/// The absolute value of an unsigned number is the number itself.
pub proof fn lemma_abs_unsigned<N: Number>(n: N)
    requires
        N::lowest() == 0,
    ensures
        n.abs_ok(),
        n.abs_of() == n,
{
    n.lemma_abs();
    n.lemma_val();
    lemma_val_injective(n.abs_of(), n);
}

/// The decimal form of any value of a width reads back as that value.
pub proof fn lemma_decimal_round_trip<N: Number>(n: N)
    ensures
        parses_as::<N>(decimal_text(n.val())),
        parsed_value::<N>(decimal_text(n.val())) == n.val(),
{
    n.lemma_val();
    N::lemma_range();
    let v = n.val();
    if v < 0 {
        let m = (-v) as nat;
        lemma_digits_text(m);
        let s = decimal_text(v);
        assert(s.drop_first() =~= digits_text(m));
    } else {
        lemma_digits_text(v as nat);
    }
}

impl Number for i64 {
    open spec fn val(self) -> int {
        self as int
    }

    open spec fn lowest() -> int {
        i64::MIN as int
    }

    open spec fn highest() -> int {
        i64::MAX as int
    }

    open spec fn from_val(v: int) -> i64 {
        v as i64
    }

    proof fn lemma_range() {
    }

    proof fn lemma_val(self) {
    }

    proof fn lemma_from_val(v: int) {
    }

    proof fn lemma_abs(self) {
    }

    fn one() -> (r: i64) {
        1
    }

    fn plus(self, other: i64) -> (r: i64) {
        self + other
    }

    fn minus(self, other: i64) -> (r: i64) {
        self - other
    }

    fn less(self, other: i64) -> (r: bool) {
        self < other
    }

    fn same(self, other: i64) -> (r: bool) {
        self == other
    }

    fn parse_decimal(s: &str) -> (r: Result<i64, ParseIntError>) {
        parse_i64(s)
    }
}

impl Number for i32 {
    open spec fn val(self) -> int {
        self as int
    }

    open spec fn lowest() -> int {
        i32::MIN as int
    }

    open spec fn highest() -> int {
        i32::MAX as int
    }

    open spec fn from_val(v: int) -> i32 {
        v as i32
    }

    proof fn lemma_range() {
    }

    proof fn lemma_val(self) {
    }

    proof fn lemma_from_val(v: int) {
    }

    proof fn lemma_abs(self) {
    }

    fn one() -> (r: i32) {
        1
    }

    fn plus(self, other: i32) -> (r: i32) {
        self + other
    }

    fn minus(self, other: i32) -> (r: i32) {
        self - other
    }

    fn less(self, other: i32) -> (r: bool) {
        self < other
    }

    fn same(self, other: i32) -> (r: bool) {
        self == other
    }

    fn parse_decimal(s: &str) -> (r: Result<i32, ParseIntError>) {
        parse_i32(s)
    }
}

impl Number for i16 {
    open spec fn val(self) -> int {
        self as int
    }

    open spec fn lowest() -> int {
        i16::MIN as int
    }

    open spec fn highest() -> int {
        i16::MAX as int
    }

    open spec fn from_val(v: int) -> i16 {
        v as i16
    }

    proof fn lemma_range() {
    }

    proof fn lemma_val(self) {
    }

    proof fn lemma_from_val(v: int) {
    }

    proof fn lemma_abs(self) {
    }

    fn one() -> (r: i16) {
        1
    }

    fn plus(self, other: i16) -> (r: i16) {
        self + other
    }

    fn minus(self, other: i16) -> (r: i16) {
        self - other
    }

    fn less(self, other: i16) -> (r: bool) {
        self < other
    }

    fn same(self, other: i16) -> (r: bool) {
        self == other
    }

    fn parse_decimal(s: &str) -> (r: Result<i16, ParseIntError>) {
        parse_i16(s)
    }
}

impl Number for i8 {
    open spec fn val(self) -> int {
        self as int
    }

    open spec fn lowest() -> int {
        i8::MIN as int
    }

    open spec fn highest() -> int {
        i8::MAX as int
    }

    open spec fn from_val(v: int) -> i8 {
        v as i8
    }

    proof fn lemma_range() {
    }

    proof fn lemma_val(self) {
    }

    proof fn lemma_from_val(v: int) {
    }

    proof fn lemma_abs(self) {
    }

    fn one() -> (r: i8) {
        1
    }

    fn plus(self, other: i8) -> (r: i8) {
        self + other
    }

    fn minus(self, other: i8) -> (r: i8) {
        self - other
    }

    fn less(self, other: i8) -> (r: bool) {
        self < other
    }

    fn same(self, other: i8) -> (r: bool) {
        self == other
    }

    fn parse_decimal(s: &str) -> (r: Result<i8, ParseIntError>) {
        parse_i8(s)
    }
}

impl Number for isize {
    open spec fn val(self) -> int {
        self as int
    }

    open spec fn lowest() -> int {
        isize::MIN as int
    }

    open spec fn highest() -> int {
        isize::MAX as int
    }

    open spec fn from_val(v: int) -> isize {
        v as isize
    }

    proof fn lemma_range() {
    }

    proof fn lemma_val(self) {
    }

    proof fn lemma_from_val(v: int) {
    }

    proof fn lemma_abs(self) {
    }

    fn one() -> (r: isize) {
        1
    }

    fn plus(self, other: isize) -> (r: isize) {
        self + other
    }

    fn minus(self, other: isize) -> (r: isize) {
        self - other
    }

    fn less(self, other: isize) -> (r: bool) {
        self < other
    }

    fn same(self, other: isize) -> (r: bool) {
        self == other
    }

    fn parse_decimal(s: &str) -> (r: Result<isize, ParseIntError>) {
        parse_isize(s)
    }
}

impl Number for u64 {
    open spec fn val(self) -> int {
        self as int
    }

    open spec fn lowest() -> int {
        0
    }

    open spec fn highest() -> int {
        u64::MAX as int
    }

    open spec fn from_val(v: int) -> u64 {
        v as u64
    }

    proof fn lemma_range() {
    }

    proof fn lemma_val(self) {
    }

    proof fn lemma_from_val(v: int) {
    }

    proof fn lemma_abs(self) {
    }

    fn one() -> (r: u64) {
        1
    }

    fn plus(self, other: u64) -> (r: u64) {
        self + other
    }

    fn minus(self, other: u64) -> (r: u64) {
        self - other
    }

    fn less(self, other: u64) -> (r: bool) {
        self < other
    }

    fn same(self, other: u64) -> (r: bool) {
        self == other
    }

    fn parse_decimal(s: &str) -> (r: Result<u64, ParseIntError>) {
        parse_u64(s)
    }
}

impl Number for u32 {
    open spec fn val(self) -> int {
        self as int
    }

    open spec fn lowest() -> int {
        0
    }

    open spec fn highest() -> int {
        u32::MAX as int
    }

    open spec fn from_val(v: int) -> u32 {
        v as u32
    }

    proof fn lemma_range() {
    }

    proof fn lemma_val(self) {
    }

    proof fn lemma_from_val(v: int) {
    }

    proof fn lemma_abs(self) {
    }

    fn one() -> (r: u32) {
        1
    }

    fn plus(self, other: u32) -> (r: u32) {
        self + other
    }

    fn minus(self, other: u32) -> (r: u32) {
        self - other
    }

    fn less(self, other: u32) -> (r: bool) {
        self < other
    }

    fn same(self, other: u32) -> (r: bool) {
        self == other
    }

    fn parse_decimal(s: &str) -> (r: Result<u32, ParseIntError>) {
        parse_u32(s)
    }
}

impl Number for u16 {
    open spec fn val(self) -> int {
        self as int
    }

    open spec fn lowest() -> int {
        0
    }

    open spec fn highest() -> int {
        u16::MAX as int
    }

    open spec fn from_val(v: int) -> u16 {
        v as u16
    }

    proof fn lemma_range() {
    }

    proof fn lemma_val(self) {
    }

    proof fn lemma_from_val(v: int) {
    }

    proof fn lemma_abs(self) {
    }

    fn one() -> (r: u16) {
        1
    }

    fn plus(self, other: u16) -> (r: u16) {
        self + other
    }

    fn minus(self, other: u16) -> (r: u16) {
        self - other
    }

    fn less(self, other: u16) -> (r: bool) {
        self < other
    }

    fn same(self, other: u16) -> (r: bool) {
        self == other
    }

    fn parse_decimal(s: &str) -> (r: Result<u16, ParseIntError>) {
        parse_u16(s)
    }
}

impl Number for u8 {
    open spec fn val(self) -> int {
        self as int
    }

    open spec fn lowest() -> int {
        0
    }

    open spec fn highest() -> int {
        u8::MAX as int
    }

    open spec fn from_val(v: int) -> u8 {
        v as u8
    }

    proof fn lemma_range() {
    }

    proof fn lemma_val(self) {
    }

    proof fn lemma_from_val(v: int) {
    }

    proof fn lemma_abs(self) {
    }

    fn one() -> (r: u8) {
        1
    }

    fn plus(self, other: u8) -> (r: u8) {
        self + other
    }

    fn minus(self, other: u8) -> (r: u8) {
        self - other
    }

    fn less(self, other: u8) -> (r: bool) {
        self < other
    }

    fn same(self, other: u8) -> (r: bool) {
        self == other
    }

    fn parse_decimal(s: &str) -> (r: Result<u8, ParseIntError>) {
        parse_u8(s)
    }
}

impl Number for usize {
    open spec fn val(self) -> int {
        self as int
    }

    open spec fn lowest() -> int {
        0
    }

    open spec fn highest() -> int {
        usize::MAX as int
    }

    open spec fn from_val(v: int) -> usize {
        v as usize
    }

    proof fn lemma_range() {
    }

    proof fn lemma_val(self) {
    }

    proof fn lemma_from_val(v: int) {
    }

    proof fn lemma_abs(self) {
    }

    fn one() -> (r: usize) {
        1
    }

    fn plus(self, other: usize) -> (r: usize) {
        self + other
    }

    fn minus(self, other: usize) -> (r: usize) {
        self - other
    }

    fn less(self, other: usize) -> (r: bool) {
        self < other
    }

    fn same(self, other: usize) -> (r: bool) {
        self == other
    }

    fn parse_decimal(s: &str) -> (r: Result<usize, ParseIntError>) {
        parse_usize(s)
    }
}

/// Relies on `str::parse::<i64>` (`i64::from_str`): an optional `+` or `-`
/// followed by decimal digits and nothing else, giving a value in range, is
/// read as that value; anything else is an error.
#[verifier::external_body]
fn parse_i64(s: &str) -> (r: Result<i64, ParseIntError>)
    ensures
        r is Ok <==> decimal_in(s@, i64::MIN as int, i64::MAX as int),
        r is Ok ==> r->Ok_0 as int == decimal_value(s@, true)->Some_0,
{
    s.parse::<i64>()
}

/// Relies on `str::parse::<i32>` (`i32::from_str`): an optional `+` or `-`
/// followed by decimal digits and nothing else, giving a value in range, is
/// read as that value; anything else is an error.
#[verifier::external_body]
fn parse_i32(s: &str) -> (r: Result<i32, ParseIntError>)
    ensures
        r is Ok <==> decimal_in(s@, i32::MIN as int, i32::MAX as int),
        r is Ok ==> r->Ok_0 as int == decimal_value(s@, true)->Some_0,
{
    s.parse::<i32>()
}

/// Relies on `str::parse::<i16>` (`i16::from_str`): an optional `+` or `-`
/// followed by decimal digits and nothing else, giving a value in range, is
/// read as that value; anything else is an error.
#[verifier::external_body]
fn parse_i16(s: &str) -> (r: Result<i16, ParseIntError>)
    ensures
        r is Ok <==> decimal_in(s@, i16::MIN as int, i16::MAX as int),
        r is Ok ==> r->Ok_0 as int == decimal_value(s@, true)->Some_0,
{
    s.parse::<i16>()
}

/// Relies on `str::parse::<i8>` (`i8::from_str`): an optional `+` or `-`
/// followed by decimal digits and nothing else, giving a value in range, is
/// read as that value; anything else is an error.
#[verifier::external_body]
fn parse_i8(s: &str) -> (r: Result<i8, ParseIntError>)
    ensures
        r is Ok <==> decimal_in(s@, i8::MIN as int, i8::MAX as int),
        r is Ok ==> r->Ok_0 as int == decimal_value(s@, true)->Some_0,
{
    s.parse::<i8>()
}

/// Relies on `str::parse::<isize>` (`isize::from_str`): an optional `+` or `-`
/// followed by decimal digits and nothing else, giving a value in range, is
/// read as that value; anything else is an error.
#[verifier::external_body]
fn parse_isize(s: &str) -> (r: Result<isize, ParseIntError>)
    ensures
        r is Ok <==> decimal_in(s@, isize::MIN as int, isize::MAX as int),
        r is Ok ==> r->Ok_0 as int == decimal_value(s@, true)->Some_0,
{
    s.parse::<isize>()
}

/// Relies on `str::parse::<u64>` (`u64::from_str`): an optional `+` followed
/// by decimal digits and nothing else, giving a value in range, is read as that
/// value; anything else is an error.
#[verifier::external_body]
fn parse_u64(s: &str) -> (r: Result<u64, ParseIntError>)
    ensures
        r is Ok <==> decimal_in(s@, 0, u64::MAX as int),
        r is Ok ==> r->Ok_0 as int == decimal_value(s@, false)->Some_0,
{
    s.parse::<u64>()
}

/// Relies on `str::parse::<u32>` (`u32::from_str`): an optional `+` followed
/// by decimal digits and nothing else, giving a value in range, is read as that
/// value; anything else is an error.
#[verifier::external_body]
fn parse_u32(s: &str) -> (r: Result<u32, ParseIntError>)
    ensures
        r is Ok <==> decimal_in(s@, 0, u32::MAX as int),
        r is Ok ==> r->Ok_0 as int == decimal_value(s@, false)->Some_0,
{
    s.parse::<u32>()
}

/// Relies on `str::parse::<u16>` (`u16::from_str`): an optional `+` followed
/// by decimal digits and nothing else, giving a value in range, is read as that
/// value; anything else is an error.
#[verifier::external_body]
fn parse_u16(s: &str) -> (r: Result<u16, ParseIntError>)
    ensures
        r is Ok <==> decimal_in(s@, 0, u16::MAX as int),
        r is Ok ==> r->Ok_0 as int == decimal_value(s@, false)->Some_0,
{
    s.parse::<u16>()
}

/// Relies on `str::parse::<u8>` (`u8::from_str`): an optional `+` followed
/// by decimal digits and nothing else, giving a value in range, is read as that
/// value; anything else is an error.
#[verifier::external_body]
fn parse_u8(s: &str) -> (r: Result<u8, ParseIntError>)
    ensures
        r is Ok <==> decimal_in(s@, 0, u8::MAX as int),
        r is Ok ==> r->Ok_0 as int == decimal_value(s@, false)->Some_0,
{
    s.parse::<u8>()
}

/// Relies on `str::parse::<usize>` (`usize::from_str`): an optional `+` followed
/// by decimal digits and nothing else, giving a value in range, is read as that
/// value; anything else is an error.
#[verifier::external_body]
fn parse_usize(s: &str) -> (r: Result<usize, ParseIntError>)
    ensures
        r is Ok <==> decimal_in(s@, 0, usize::MAX as int),
        r is Ok ==> r->Ok_0 as int == decimal_value(s@, false)->Some_0,
{
    s.parse::<usize>()
}

} // verus!
