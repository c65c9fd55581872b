//! Directions on a grid and positions that move along them.
use vstd::prelude::*;
use crate::absolute::{abs_int, Absolute};
use crate::number::{fits, Number};
use vstd::std_specs::convert::FromSpec;

verus! {

/// One of the four directions on a grid. Use `Option<Direction>` where a
/// direction may be missing.
#[derive(Debug, PartialEq, Eq, Structural, PartialOrd, Ord, Copy, Clone, Hash)]
pub enum Direction {
    Up,
    Down,
    Right,
    Left,
}

/// The direction after a quarter turn clockwise.
pub open spec fn right_of(d: Direction) -> Direction {
    match d {
        Direction::Up => Direction::Right,
        Direction::Right => Direction::Down,
        Direction::Down => Direction::Left,
        Direction::Left => Direction::Up,
    }
}

/// The direction after a quarter turn counter-clockwise.
pub open spec fn left_of(d: Direction) -> Direction {
    match d {
        Direction::Up => Direction::Left,
        Direction::Left => Direction::Down,
        Direction::Down => Direction::Right,
        Direction::Right => Direction::Up,
    }
}

/// The opposite direction.
pub open spec fn opposite_of(d: Direction) -> Direction {
    match d {
        Direction::Up => Direction::Down,
        Direction::Down => Direction::Up,
        Direction::Left => Direction::Right,
        Direction::Right => Direction::Left,
    }
}

impl Direction {
    /// A direction facing to the left.
    pub fn init_left() -> (r: Direction)
        ensures
            r == Direction::Left,
    {
        Direction::Left
    }

    /// A direction facing to the right.
    pub fn init_right() -> (r: Direction)
        ensures
            r == Direction::Right,
    {
        Direction::Right
    }

    /// A direction facing up.
    pub fn init_up() -> (r: Direction)
        ensures
            r == Direction::Up,
    {
        Direction::Up
    }

    /// A direction facing down.
    pub fn init_down() -> (r: Direction)
        ensures
            r == Direction::Down,
    {
        Direction::Down
    }

    /// Turns a quarter to the right: Up, Right, Down, Left, Up.
    pub fn turn_right(self) -> (r: Direction)
        ensures
            r == right_of(self),
    {
        match self {
            Direction::Up => Direction::Right,
            Direction::Right => Direction::Down,
            Direction::Down => Direction::Left,
            Direction::Left => Direction::Up,
        }
    }

    /// Turns a quarter to the left: Up, Left, Down, Right, Up.
    pub fn turn_left(self) -> (r: Direction)
        ensures
            r == left_of(self),
    {
        match self {
            Direction::Up => Direction::Left,
            Direction::Left => Direction::Down,
            Direction::Down => Direction::Right,
            Direction::Right => Direction::Up,
        }
    }

    /// Faces the other way: Up and Down swap, Left and Right swap.
    pub fn reverse(self) -> (r: Direction)
        ensures
            r == opposite_of(self),
    {
        match self {
            Direction::Up => Direction::Down,
            Direction::Down => Direction::Up,
            Direction::Left => Direction::Right,
            Direction::Right => Direction::Left,
        }
    }
}

/// Reversing twice gives the direction back; four right turns, or four left
/// turns, are no turn at all; a left turn undoes a right turn and the other way
/// round.
pub proof fn lemma_direction_laws(d: Direction)
    ensures
        opposite_of(opposite_of(d)) == d,
        right_of(right_of(right_of(right_of(d)))) == d,
        left_of(left_of(left_of(left_of(d)))) == d,
        right_of(left_of(d)) == d,
        left_of(right_of(d)) == d,
{
}

/// A position on a grid, `x` across and `y` down. Equality and order go by
/// `x`, then `y`.
#[derive(Debug, PartialEq, Eq, PartialOrd, Ord, Copy, Clone, Hash)]
pub struct Position<N> {
    pub x: N,
    pub y: N,
}

/// The offset of `k` steps towards `d` on a screen, where `Up` is towards
/// smaller `y`.
pub open spec fn offset(d: Direction, k: int) -> (int, int) {
    match d {
        Direction::Up => (0, -k),
        Direction::Down => (0, k),
        Direction::Right => (k, 0),
        Direction::Left => (-k, 0),
    }
}

/// The offset of `k` steps towards `d` on a plot, where `Up` is towards
/// larger `y`.
pub open spec fn rev_offset(d: Direction, k: int) -> (int, int) {
    (offset(d, k).0, -offset(d, k).1)
}

/// Whether `p` moved by `(dx, dy)` can be represented.
pub open spec fn can_shift<N: Number>(p: Position<N>, dx: int, dy: int) -> bool {
    fits::<N>(p.x.val() + dx) && fits::<N>(p.y.val() + dy)
}

/// `p` moved by `(dx, dy)`.
pub open spec fn shifted<N: Number>(p: Position<N>, dx: int, dy: int) -> Position<N> {
    Position { x: N::from_val(p.x.val() + dx), y: N::from_val(p.y.val() + dy) }
}

/// The componentwise sum of `p` and `q`.
pub open spec fn sum_of<N: Number>(p: Position<N>, q: Position<N>) -> Position<N> {
    shifted(p, q.x.val(), q.y.val())
}

/// The componentwise difference of `p` and `q`.
pub open spec fn difference_of<N: Number>(p: Position<N>, q: Position<N>) -> Position<N> {
    shifted(p, -q.x.val(), -q.y.val())
}

/// Whether the two positions are neighbours in one of the eight directions;
/// a position is no neighbour of itself.
pub open spec fn adjacent<N: Number>(p: Position<N>, q: Position<N>) -> bool {
    let dx = abs_int(p.x.val() - q.x.val());
    let dy = abs_int(p.y.val() - q.y.val());
    (dx == 1 && dy == 0) || (dx == 0 && dy == 1) || (dx == 1 && dy == 1)
}

/// The pair of coordinates of `p`.
pub open spec fn tuple_of<N>(p: Position<N>) -> (N, N) {
    (p.x, p.y)
}

/// A value of a width is the one that its own value stands for.
proof fn lemma_is_from_val<N: Number>(a: N, v: int)
    requires
        a.val() == v,
    ensures
        N::from_val(v) == a,
{
    a.lemma_val();
}

/// What `shifted` holds, where the move can be represented.
proof fn lemma_shifted<N: Number>(p: Position<N>, dx: int, dy: int)
    requires
        can_shift(p, dx, dy),
    ensures
        shifted(p, dx, dy).x.val() == p.x.val() + dx,
        shifted(p, dx, dy).y.val() == p.y.val() + dy,
{
    N::lemma_from_val(p.x.val() + dx);
    N::lemma_from_val(p.y.val() + dy);
}

/// `|a - b|` where it is at most one, else two.
fn unit_gap<N: Number>(a: N, b: N) -> (r: u8)
    ensures
        r == (if abs_int(a.val() - b.val()) <= 1 {
            abs_int(a.val() - b.val())
        } else {
            2
        }),
{
    proof {
        a.lemma_val();
        b.lemma_val();
    }
    if a.same(b) {
        0
    } else if b.less(a) {
        if a.minus(N::one()).same(b) {
            1
        } else {
            2
        }
    } else if b.minus(N::one()).same(a) {
        1
    } else {
        2
    }
}

impl<N> Position<N> {
    /// A position at `(x, y)`.
    pub fn new(x: N, y: N) -> (r: Position<N>)
        ensures
            r.x == x,
            r.y == y,
    {
        Position { x, y }
    }

    /// The `x` coordinate.
    pub fn get_ref_x(&self) -> (r: &N)
        ensures
            *r == self.x,
    {
        &self.x
    }

    /// The `y` coordinate.
    pub fn get_ref_y(&self) -> (r: &N)
        ensures
            *r == self.y,
    {
        &self.y
    }

    /// Both coordinates, `x` first.
    pub fn get_ref(&self) -> (r: (&N, &N))
        ensures
            *r.0 == self.x,
            *r.1 == self.y,
    {
        (&self.x, &self.y)
    }
}

impl<N: Copy> Position<N> {
    /// The coordinates as a pair `(x, y)`.
    pub fn to_tuple(&self) -> (r: (N, N))
        ensures
            r == tuple_of(*self),
    {
        (self.x, self.y)
    }

    /// The coordinates as a pair `(x, y)`.
    pub fn cpy_into_tuple(&self) -> (r: (N, N))
        ensures
            r == tuple_of(*self),
    {
        (self.x, self.y)
    }
}

impl<N: Number> Position<N> {
    /// Moves `steps` towards `direction` on a screen: `Up` decreases `y`,
    /// `Down` increases it, `Right` increases `x`, `Left` decreases it.
    pub fn change(&mut self, direction: &Direction, steps: N)
        requires
            can_shift(*old(self), offset(*direction, steps.val()).0, offset(*direction, steps.val()).1),
        ensures
            *final(self) == shifted(*old(self), offset(*direction, steps.val()).0, offset(*direction, steps.val()).1),
    {
        proof {
            lemma_shifted(*self, offset(*direction, steps.val()).0, offset(*direction, steps.val()).1);
        }
        match *direction {
            Direction::Up => self.y = self.y.minus(steps),
            Direction::Down => self.y = self.y.plus(steps),
            Direction::Right => self.x = self.x.plus(steps),
            Direction::Left => self.x = self.x.minus(steps),
        }
        proof {
            lemma_is_from_val(self.x, self.x.val());
            lemma_is_from_val(self.y, self.y.val());
        }
    }

    /// Moves `steps` towards `direction` on a plot: as `change`, but `Up`
    /// increases `y` and `Down` decreases it.
    pub fn rev_change(&mut self, direction: &Direction, steps: N)
        requires
            can_shift(*old(self), rev_offset(*direction, steps.val()).0, rev_offset(*direction, steps.val()).1),
        ensures
            *final(self) == shifted(*old(self), rev_offset(*direction, steps.val()).0, rev_offset(*direction, steps.val()).1),
    {
        proof {
            lemma_shifted(*self, rev_offset(*direction, steps.val()).0, rev_offset(*direction, steps.val()).1);
        }
        match *direction {
            Direction::Up => self.y = self.y.plus(steps),
            Direction::Down => self.y = self.y.minus(steps),
            Direction::Right => self.x = self.x.plus(steps),
            Direction::Left => self.x = self.x.minus(steps),
        }
        proof {
            lemma_is_from_val(self.x, self.x.val());
            lemma_is_from_val(self.y, self.y.val());
        }
    }

    /// Whether `other` is one of the eight neighbours of `self`: the absolute
    /// differences of the coordinates are `(1, 0)`, `(0, 1)` or `(1, 1)`.
    pub fn is_adjecent(&self, other: &Position<N>) -> (r: bool)
        ensures
            r == adjacent(*self, *other),
    {
        let dx = unit_gap(self.x, other.x);
        let dy = unit_gap(self.y, other.y);
        (dx == 1 && dy == 0) || (dx == 0 && dy == 1) || (dx == 1 && dy == 1)
    }

    /// Adds `steps` to `y`.
    pub fn increment_y(&mut self, steps: N)
        requires
            can_shift(*old(self), 0, steps.val()),
        ensures
            *final(self) == shifted(*old(self), 0, steps.val()),
    {
        proof {
            lemma_shifted(*self, 0, steps.val());
        }
        self.y = self.y.plus(steps);
        proof {
            lemma_is_from_val(self.x, self.x.val());
            lemma_is_from_val(self.y, self.y.val());
        }
    }

    /// Subtracts `steps` from `y`.
    pub fn decrement_y(&mut self, steps: N)
        requires
            can_shift(*old(self), 0, -steps.val()),
        ensures
            *final(self) == shifted(*old(self), 0, -steps.val()),
    {
        proof {
            lemma_shifted(*self, 0, -steps.val());
        }
        self.y = self.y.minus(steps);
        proof {
            lemma_is_from_val(self.x, self.x.val());
            lemma_is_from_val(self.y, self.y.val());
        }
    }

    /// Adds `steps` to `x`.
    pub fn increment_x(&mut self, steps: N)
        requires
            can_shift(*old(self), steps.val(), 0),
        ensures
            *final(self) == shifted(*old(self), steps.val(), 0),
    {
        proof {
            lemma_shifted(*self, steps.val(), 0);
        }
        self.x = self.x.plus(steps);
        proof {
            lemma_is_from_val(self.x, self.x.val());
            lemma_is_from_val(self.y, self.y.val());
        }
    }

    /// Subtracts `steps` from `x`.
    pub fn decrement_x(&mut self, steps: N)
        requires
            can_shift(*old(self), -steps.val(), 0),
        ensures
            *final(self) == shifted(*old(self), -steps.val(), 0),
    {
        proof {
            lemma_shifted(*self, -steps.val(), 0);
        }
        self.x = self.x.minus(steps);
        proof {
            lemma_is_from_val(self.x, self.x.val());
            lemma_is_from_val(self.y, self.y.val());
        }
    }
}

impl<N: Number> std::ops::Add for Position<N> {
    type Output = Position<N>;

    fn add(self, other: Position<N>) -> (r: Position<N>) {
        proof {
            lemma_shifted(self, other.x.val(), other.y.val());
        }
        let r = Position { x: self.x.plus(other.x), y: self.y.plus(other.y) };
        proof {
            lemma_is_from_val(r.x, r.x.val());
            lemma_is_from_val(r.y, r.y.val());
        }
        r
    }
}

impl<N: Number> vstd::std_specs::ops::AddSpecImpl for Position<N> {
    open spec fn obeys_add_spec() -> bool {
        true
    }

    open spec fn add_req(self, other: Position<N>) -> bool {
        can_shift(self, other.x.val(), other.y.val())
    }

    open spec fn add_spec(self, other: Position<N>) -> Position<N> {
        sum_of(self, other)
    }
}

impl<'a, N: Number> std::ops::Add<Position<N>> for &'a Position<N> {
    type Output = Position<N>;

    fn add(self, other: Position<N>) -> (r: Position<N>) {
        *self + other
    }
}

impl<'a, N: Number> vstd::std_specs::ops::AddSpecImpl<Position<N>> for &'a Position<N> {
    open spec fn obeys_add_spec() -> bool {
        true
    }

    open spec fn add_req(self, other: Position<N>) -> bool {
        can_shift(*self, other.x.val(), other.y.val())
    }

    open spec fn add_spec(self, other: Position<N>) -> Position<N> {
        sum_of(*self, other)
    }
}

impl<'b, N: Number> std::ops::Add<&'b Position<N>> for Position<N> {
    type Output = Position<N>;

    fn add(self, other: &'b Position<N>) -> (r: Position<N>) {
        self + *other
    }
}

impl<'b, N: Number> vstd::std_specs::ops::AddSpecImpl<&'b Position<N>> for Position<N> {
    open spec fn obeys_add_spec() -> bool {
        true
    }

    open spec fn add_req(self, other: &'b Position<N>) -> bool {
        can_shift(self, other.x.val(), other.y.val())
    }

    open spec fn add_spec(self, other: &'b Position<N>) -> Position<N> {
        sum_of(self, *other)
    }
}

impl<'a, 'b, N: Number> std::ops::Add<&'b Position<N>> for &'a Position<N> {
    type Output = Position<N>;

    fn add(self, other: &'b Position<N>) -> (r: Position<N>) {
        *self + *other
    }
}

impl<'a, 'b, N: Number> vstd::std_specs::ops::AddSpecImpl<&'b Position<N>> for &'a Position<N> {
    open spec fn obeys_add_spec() -> bool {
        true
    }

    open spec fn add_req(self, other: &'b Position<N>) -> bool {
        can_shift(*self, other.x.val(), other.y.val())
    }

    open spec fn add_spec(self, other: &'b Position<N>) -> Position<N> {
        sum_of(*self, *other)
    }
}

impl<N: Number> std::ops::Sub for Position<N> {
    type Output = Position<N>;

    fn sub(self, other: Position<N>) -> (r: Position<N>) {
        proof {
            lemma_shifted(self, -other.x.val(), -other.y.val());
        }
        let r = Position { x: self.x.minus(other.x), y: self.y.minus(other.y) };
        proof {
            lemma_is_from_val(r.x, r.x.val());
            lemma_is_from_val(r.y, r.y.val());
        }
        r
    }
}

impl<N: Number> vstd::std_specs::ops::SubSpecImpl for Position<N> {
    open spec fn obeys_sub_spec() -> bool {
        true
    }

    open spec fn sub_req(self, other: Position<N>) -> bool {
        can_shift(self, -other.x.val(), -other.y.val())
    }

    open spec fn sub_spec(self, other: Position<N>) -> Position<N> {
        difference_of(self, other)
    }
}

impl<'a, N: Number> std::ops::Sub<Position<N>> for &'a Position<N> {
    type Output = Position<N>;

    fn sub(self, other: Position<N>) -> (r: Position<N>) {
        *self - other
    }
}

impl<'a, N: Number> vstd::std_specs::ops::SubSpecImpl<Position<N>> for &'a Position<N> {
    open spec fn obeys_sub_spec() -> bool {
        true
    }

    open spec fn sub_req(self, other: Position<N>) -> bool {
        can_shift(*self, -other.x.val(), -other.y.val())
    }

    open spec fn sub_spec(self, other: Position<N>) -> Position<N> {
        difference_of(*self, other)
    }
}

impl<'b, N: Number> std::ops::Sub<&'b Position<N>> for Position<N> {
    type Output = Position<N>;

    fn sub(self, other: &'b Position<N>) -> (r: Position<N>) {
        self - *other
    }
}

impl<'b, N: Number> vstd::std_specs::ops::SubSpecImpl<&'b Position<N>> for Position<N> {
    open spec fn obeys_sub_spec() -> bool {
        true
    }

    open spec fn sub_req(self, other: &'b Position<N>) -> bool {
        can_shift(self, -other.x.val(), -other.y.val())
    }

    open spec fn sub_spec(self, other: &'b Position<N>) -> Position<N> {
        difference_of(self, *other)
    }
}

impl<'a, 'b, N: Number> std::ops::Sub<&'b Position<N>> for &'a Position<N> {
    type Output = Position<N>;

    fn sub(self, other: &'b Position<N>) -> (r: Position<N>) {
        *self - *other
    }
}

impl<'a, 'b, N: Number> vstd::std_specs::ops::SubSpecImpl<&'b Position<N>> for &'a Position<N> {
    open spec fn obeys_sub_spec() -> bool {
        true
    }

    open spec fn sub_req(self, other: &'b Position<N>) -> bool {
        can_shift(*self, -other.x.val(), -other.y.val())
    }

    open spec fn sub_spec(self, other: &'b Position<N>) -> Position<N> {
        difference_of(*self, *other)
    }
}

impl<N: Absolute> Absolute for Position<N> {
    open spec fn abs_ok(self) -> bool {
        self.x.abs_ok() && self.y.abs_ok()
    }

    open spec fn abs_of(self) -> Position<N> {
        Position { x: self.x.abs_of(), y: self.y.abs_of() }
    }

    fn abs(self) -> (r: Position<N>) {
        Position { x: self.x.abs(), y: self.y.abs() }
    }
}

impl<N> From<(N, N)> for Position<N> {
    fn from(t: (N, N)) -> (r: Position<N>) {
        Position { x: t.0, y: t.1 }
    }
}

impl<N> vstd::std_specs::convert::FromSpecImpl<(N, N)> for Position<N> {
    open spec fn obeys_from_spec() -> bool {
        true
    }

    open spec fn from_spec(t: (N, N)) -> Position<N> {
        Position { x: t.0, y: t.1 }
    }
}

impl<N> From<Position<N>> for (N, N) {
    fn from(p: Position<N>) -> (r: (N, N)) {
        (p.x, p.y)
    }
}

impl<N> vstd::std_specs::convert::FromSpecImpl<Position<N>> for (N, N) {
    open spec fn obeys_from_spec() -> bool {
        true
    }

    open spec fn from_spec(p: Position<N>) -> (N, N) {
        tuple_of(p)
    }
}

/// The Manhattan distance from the origin: the sum of the absolute values of
/// the coordinates.
pub trait ManhattenDst<N: Number> {
    /// Whether the distance and each absolute value in it can be represented.
    spec fn dst_ok(self) -> bool;

    /// The distance, as a number.
    spec fn dst_of(self) -> int;

    fn manhattendst(self) -> (r: N)
        requires
            self.dst_ok(),
        ensures
            r.val() == self.dst_of(),
    ;
}

impl<N: Number> ManhattenDst<N> for Position<N> {
    open spec fn dst_ok(self) -> bool {
        self.x.abs_ok() && self.y.abs_ok() && fits::<N>(abs_int(self.x.val()) + abs_int(self.y.val()))
    }

    open spec fn dst_of(self) -> int {
        abs_int(self.x.val()) + abs_int(self.y.val())
    }

    fn manhattendst(self) -> (r: N) {
        proof {
            self.x.lemma_abs();
            self.y.lemma_abs();
        }
        self.x.abs().plus(self.y.abs())
    }
}

impl<N: Number> ManhattenDst<N> for (N, N) {
    open spec fn dst_ok(self) -> bool {
        self.0.abs_ok() && self.1.abs_ok() && fits::<N>(abs_int(self.0.val()) + abs_int(self.1.val()))
    }

    open spec fn dst_of(self) -> int {
        abs_int(self.0.val()) + abs_int(self.1.val())
    }

    fn manhattendst(self) -> (r: N) {
        proof {
            self.0.lemma_abs();
            self.1.lemma_abs();
        }
        self.0.abs().plus(self.1.abs())
    }
}

impl<N: Number> ManhattenDst<N> for (N, N, N) {
    open spec fn dst_ok(self) -> bool {
        &&& self.0.abs_ok()
        &&& self.1.abs_ok()
        &&& self.2.abs_ok()
        &&& fits::<N>(abs_int(self.0.val()) + abs_int(self.1.val()) + abs_int(self.2.val()))
    }

    open spec fn dst_of(self) -> int {
        abs_int(self.0.val()) + abs_int(self.1.val()) + abs_int(self.2.val())
    }

    fn manhattendst(self) -> (r: N) {
        proof {
            self.0.lemma_abs();
            self.1.lemma_abs();
            self.2.lemma_abs();
            N::lemma_range();
        }
        self.0.abs().plus(self.1.abs()).plus(self.2.abs())
    }
}

/// Moving `k` steps one way and then `k` steps the opposite way returns to the
/// starting position, on a screen and on a plot alike.
pub proof fn lemma_change_and_back<N: Number>(p: Position<N>, d: Direction, k: int)
    requires
        can_shift(p, offset(d, k).0, offset(d, k).1),
    ensures
        can_shift(shifted(p, offset(d, k).0, offset(d, k).1), offset(opposite_of(d), k).0, offset(opposite_of(d), k).1),
        shifted(shifted(p, offset(d, k).0, offset(d, k).1), offset(opposite_of(d), k).0, offset(opposite_of(d), k).1) == p,
        can_shift(p, rev_offset(d, k).0, rev_offset(d, k).1) ==> {
            &&& can_shift(shifted(p, rev_offset(d, k).0, rev_offset(d, k).1), rev_offset(opposite_of(d), k).0, rev_offset(opposite_of(d), k).1)
            &&& shifted(shifted(p, rev_offset(d, k).0, rev_offset(d, k).1), rev_offset(opposite_of(d), k).0, rev_offset(opposite_of(d), k).1) == p
        },
{
    lemma_shifted(p, offset(d, k).0, offset(d, k).1);
    p.x.lemma_val();
    p.y.lemma_val();
    if can_shift(p, rev_offset(d, k).0, rev_offset(d, k).1) {
        lemma_shifted(p, rev_offset(d, k).0, rev_offset(d, k).1);
    }
}

/// Adding `q` and then subtracting it gives `p` back, and addition does not
/// depend on the order of its operands.
pub proof fn lemma_sum_laws<N: Number>(p: Position<N>, q: Position<N>)
    requires
        can_shift(p, q.x.val(), q.y.val()),
    ensures
        can_shift(sum_of(p, q), -q.x.val(), -q.y.val()),
        difference_of(sum_of(p, q), q) == p,
        can_shift(q, p.x.val(), p.y.val()),
        sum_of(p, q) == sum_of(q, p),
{
    lemma_shifted(p, q.x.val(), q.y.val());
    p.x.lemma_val();
    p.y.lemma_val();
    q.x.lemma_val();
    q.y.lemma_val();
}

/// A position built from a pair gives that pair back.
pub proof fn lemma_tuple_round_trip<N>(x: N, y: N)
    ensures
        tuple_of(<Position<N> as FromSpec<(N, N)>>::from_spec((x, y))) == (x, y),
{
}

} // verus!
