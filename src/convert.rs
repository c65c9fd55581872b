//! Conversion of sequences: texts read as numbers, values mapped through
//! `From`, and the collection of a sequence into an array of fixed length.
use vstd::prelude::*;
use vstd::std_specs::convert::FromSpec;
use crate::number::{decimal_text, lemma_decimal_round_trip, lemma_val_injective, parsed_value, parses_as, Number};
use std::collections::VecDeque;
use std::num::ParseIntError;

verus! {

/// The smaller of two lengths.
pub open spec fn min_len(a: int, b: int) -> int {
    if a <= b {
        a
    } else {
        b
    }
}

/// Whether each of the first `k` texts reads as a value of `N`.
pub open spec fn parse_upto<N: Number>(texts: Seq<Seq<char>>, k: int) -> bool {
    forall|i: int| 0 <= i < k ==> parses_as::<N>(#[trigger] texts[i])
}

/// Whether each of the first `k` slots of `out` holds the value that the text
/// at its index reads as.
pub open spec fn holds_parsed<N: Number>(out: Seq<N>, texts: Seq<Seq<char>>, k: int) -> bool {
    forall|i: int| 0 <= i < k ==> (#[trigger] out[i]).val() == parsed_value::<N>(texts[i])
}

/// Whether `r` is what reading `text` as a value of `N` gives.
pub open spec fn read_as<N: Number>(r: Result<N, ParseIntError>, text: Seq<char>) -> bool {
    &&& r is Ok <==> parses_as::<N>(text)
    &&& r is Ok ==> r->Ok_0.val() == parsed_value::<N>(text)
}

/// The characters of each text, in order.
pub open spec fn texts_of<'a>(v: Seq<&'a str>) -> Seq<Seq<char>> {
    v.map_values(|s: &'a str| s@)
}

/// Reading a sequence of texts as numbers of the width `U`.
pub trait TryConvert<U: Number>: Sized {
    /// The texts, in order.
    spec fn texts(&self) -> Seq<Seq<char>>;

    /// All the values, in order, or an error where some text does not read as
    /// a value of `U`; reading stops at the first such text.
    fn try_convert(self) -> (r: Result<Vec<U>, ParseIntError>)
        ensures
            r is Ok <==> parse_upto::<U>(self.texts(), self.texts().len() as int),
            r is Ok ==> r->Ok_0@.len() == self.texts().len() && holds_parsed(
                r->Ok_0@,
                self.texts(),
                self.texts().len() as int,
            ),
    ;

    /// Writes the values, in order, into the front of `slice`, as many as both
    /// have room for. `Ok(n)` gives the number written; `Err(k)` says that the
    /// text at index `k` did not read, after the `k` before it were written.
    /// The slots after the last one written keep their values.
    fn try_convert_into_slice(self, slice: &mut [U]) -> (r: Result<usize, usize>)
        ensures
            final(slice)@.len() == old(slice)@.len(),
            match r {
                Ok(n) => {
                    &&& n == min_len(old(slice)@.len() as int, self.texts().len() as int)
                    &&& parse_upto::<U>(self.texts(), n as int)
                    &&& holds_parsed(final(slice)@, self.texts(), n as int)
                    &&& forall|i: int| n <= i < old(slice)@.len() ==> final(slice)@[i] == old(slice)@[i]
                },
                Err(k) => {
                    &&& k < min_len(old(slice)@.len() as int, self.texts().len() as int)
                    &&& parse_upto::<U>(self.texts(), k as int)
                    &&& !parses_as::<U>(self.texts()[k as int])
                    &&& holds_parsed(final(slice)@, self.texts(), k as int)
                    &&& forall|i: int| k <= i < old(slice)@.len() ==> final(slice)@[i] == old(slice)@[i]
                },
            },
    ;

    /// The outcome of reading each text, in order, one outcome per text; an
    /// error does not stop the texts after it from being read.
    fn try_convert_iter(self) -> (r: VecDeque<Result<U, ParseIntError>>)
        ensures
            r@.len() == self.texts().len(),
            forall|i: int| 0 <= i < r@.len() ==> read_as(#[trigger] r@[i], self.texts()[i]),
    ;
}

impl<'a, U: Number> TryConvert<U> for Vec<&'a str> {
    open spec fn texts(&self) -> Seq<Seq<char>> {
        texts_of(self@)
    }

    fn try_convert(self) -> (r: Result<Vec<U>, ParseIntError>) {
        let mut out: Vec<U> = Vec::new();
        let mut i: usize = 0;
        while i < self.len()
            invariant
                i <= self.len(),
                out@.len() == i,
                parse_upto::<U>(texts_of(self@), i as int),
                holds_parsed(out@, texts_of(self@), i as int),
            decreases self.len() - i,
        {
            match U::parse_decimal(self[i]) {
                Ok(v) => out.push(v),
                Err(e) => {
                    assert(!parses_as::<U>(texts_of(self@)[i as int]));
                    return Err(e);
                },
            }
            i = i + 1;
        }
        Ok(out)
    }

    fn try_convert_into_slice(self, slice: &mut [U]) -> (r: Result<usize, usize>) {
        let n: usize = if slice.len() <= self.len() {
            slice.len()
        } else {
            self.len()
        };
        let mut i: usize = 0;
        while i < n
            invariant
                n == min_len(old(slice)@.len() as int, texts_of(self@).len() as int),
                i <= n,
                slice@.len() == old(slice)@.len(),
                parse_upto::<U>(texts_of(self@), i as int),
                holds_parsed(slice@, texts_of(self@), i as int),
                forall|j: int| i <= j < old(slice)@.len() ==> slice@[j] == old(slice)@[j],
            decreases n - i,
        {
            match U::parse_decimal(self[i]) {
                Ok(v) => slice[i] = v,
                Err(_) => return Err(i),
            }
            i = i + 1;
        }
        Ok(n)
    }

    fn try_convert_iter(self) -> (r: VecDeque<Result<U, ParseIntError>>) {
        let mut out: VecDeque<Result<U, ParseIntError>> = VecDeque::new();
        let mut i: usize = 0;
        while i < self.len()
            invariant
                i <= self.len(),
                out@.len() == i,
                forall|j: int| 0 <= j < i ==> read_as(#[trigger] out@[j], texts_of(self@)[j]),
            decreases self.len() - i,
        {
            out.push_back(U::parse_decimal(self[i]));
            i = i + 1;
        }
        out
    }
}

/// Values written out in decimal read back as themselves: where each text is
/// the decimal form of the value at its index, every text reads, and what
/// `try_convert` then gives back, one value per text, is exactly the values.
pub proof fn lemma_try_convert_round_trip<U: Number>(values: Seq<U>, texts: Seq<Seq<char>>)
    requires
        texts.len() == values.len(),
        forall|i: int| 0 <= i < texts.len() ==> #[trigger] texts[i] == decimal_text(values[i].val()),
    ensures
        parse_upto::<U>(texts, texts.len() as int),
        forall|out: Seq<U>|
            out.len() == texts.len() && #[trigger] holds_parsed(out, texts, texts.len() as int) ==> out
                == values,
{
    assert forall|i: int| 0 <= i < texts.len() implies parses_as::<U>(#[trigger] texts[i])
        && parsed_value::<U>(texts[i]) == values[i].val() by {
        lemma_decimal_round_trip(values[i]);
    }
    assert forall|out: Seq<U>|
        out.len() == texts.len() && #[trigger] holds_parsed(out, texts, texts.len() as int) implies out
        == values by {
        assert forall|i: int| 0 <= i < out.len() implies out[i] == values[i] by {
            assert(out[i].val() == parsed_value::<U>(texts[i]));
            lemma_val_injective(out[i], values[i]);
        }
        assert(out =~= values);
    }
}

/// Each item of `items` mapped through `U::from`.
pub open spec fn converted<T, U: From<T>>(items: Seq<T>) -> Seq<U> {
    items.map_values(|t: T| U::from_spec(t))
}

/// Moves the items of `v` into a queue, in the same order.
fn into_queue<T>(v: Vec<T>) -> (q: VecDeque<T>)
    ensures
        q@ == v@,
{
    let mut v = v;
    let ghost all = v@;
    let mut q: VecDeque<T> = VecDeque::new();
    while v.len() > 0
        invariant
            v@ + q@ == all,
        decreases v.len(),
    {
        match v.pop() {
            Some(t) => q.push_front(t),
            None => {},
        }
        assert(v@ + q@ =~= all);
    }
    assert(q@ =~= all);
    q
}

/// Mapping a sequence of values into another type through `From`, which is
/// total: nothing can fail.
pub trait Convert<T, U: From<T>>: Sized {
    /// The items, in order.
    spec fn items(&self) -> Seq<T>;

    /// All the items, mapped, in order.
    fn convert_into_vec(self) -> (r: Vec<U>)
        ensures
            r@.len() == self.items().len(),
            U::obeys_from_spec() ==> r@ == converted::<T, U>(self.items()),
    ;

    /// Writes the mapped items, in order, into the front of `slice`, as many
    /// as both have room for, and gives their number. The slots after them
    /// keep their values.
    fn convert_into_slice(self, slice: &mut [U]) -> (r: usize)
        ensures
            r == min_len(old(slice)@.len() as int, self.items().len() as int),
            final(slice)@.len() == old(slice)@.len(),
            forall|i: int| r <= i < old(slice)@.len() ==> final(slice)@[i] == old(slice)@[i],
            U::obeys_from_spec() ==> forall|i: int|
                0 <= i < r ==> final(slice)@[i] == U::from_spec(#[trigger] self.items()[i]),
    ;

    /// The mapped items as a queue, to be taken from the front one at a time.
    fn convert_iter(self) -> (r: VecDeque<U>)
        ensures
            r@.len() == self.items().len(),
            U::obeys_from_spec() ==> r@ == converted::<T, U>(self.items()),
    ;
}

impl<T, U: From<T>> Convert<T, U> for Vec<T> {
    open spec fn items(&self) -> Seq<T> {
        self@
    }

    fn convert_into_vec(self) -> (r: Vec<U>) {
        let ghost items = self@;
        let mut q = into_queue(self);
        let mut out: Vec<U> = Vec::new();
        while q.len() > 0
            invariant
                out@.len() + q@.len() == items.len(),
                q@ == items.skip(out@.len() as int),
                U::obeys_from_spec() ==> out@ == converted::<T, U>(items.take(out@.len() as int)),
            decreases q.len(),
        {
            match q.pop_front() {
                Some(t) => out.push(U::from(t)),
                None => {},
            }
            assert(q@ =~= items.skip(out@.len() as int));
            assert(U::obeys_from_spec() ==> out@ =~= converted::<T, U>(items.take(out@.len() as int)));
        }
        assert(items.take(items.len() as int) =~= items);
        out
    }

    fn convert_into_slice(self, slice: &mut [U]) -> (r: usize) {
        let ghost items = self@;
        let n: usize = if slice.len() <= self.len() {
            slice.len()
        } else {
            self.len()
        };
        let mut q = into_queue(self);
        let mut i: usize = 0;
        while i < n
            invariant
                n == min_len(old(slice)@.len() as int, items.len() as int),
                i <= n,
                q@ == items.skip(i as int),
                slice@.len() == old(slice)@.len(),
                forall|j: int| i <= j < old(slice)@.len() ==> slice@[j] == old(slice)@[j],
                U::obeys_from_spec() ==> forall|j: int|
                    0 <= j < i ==> slice@[j] == U::from_spec(#[trigger] items[j]),
            decreases n - i,
        {
            match q.pop_front() {
                Some(t) => slice[i] = U::from(t),
                None => {},
            }
            assert(q@ =~= items.skip(i + 1));
            i = i + 1;
        }
        n
    }

    fn convert_iter(self) -> (r: VecDeque<U>) {
        let ghost items = self@;
        let mut v = self;
        let mut q: VecDeque<U> = VecDeque::new();
        while v.len() > 0
            invariant
                v@ == items.take(v@.len() as int),
                v@.len() + q@.len() == items.len(),
                U::obeys_from_spec() ==> q@ == converted::<T, U>(items.skip(v@.len() as int)),
            decreases v.len(),
        {
            match v.pop() {
                Some(t) => q.push_front(U::from(t)),
                None => {},
            }
            assert(v@ =~= items.take(v@.len() as int));
            assert(U::obeys_from_spec() ==> q@ =~= converted::<T, U>(items.skip(v@.len() as int)));
        }
        assert(items.skip(0) =~= items);
        q
    }
}

/// The sequence ran out before the array was full; the items taken were
/// dropped.
#[derive(Debug, PartialEq, Eq, Structural, PartialOrd, Ord)]
pub enum FillError {
    FillError,
}

impl FillError {
    /// What went wrong, in words.
    pub fn description(&self) -> (r: &'static str)
        ensures
            r@ == "The array was partially filled, and therefore dropped."@,
    {
        match self {
            FillError::FillError => "The array was partially filled, and therefore dropped.",
        }
    }
}

/// Relies on `<[T; N]>::try_from(Vec<T>)` (`TryFrom<Vec<T>> for [T; N]`): a
/// vector of exactly `N` items becomes the array of those items in order; any
/// other vector is handed back unchanged.
#[verifier::external_body]
fn vec_into_array<T, const N: usize>(v: Vec<T>) -> (r: Result<[T; N], Vec<T>>)
    ensures
        v@.len() == N ==> r is Ok && r->Ok_0@ == v@,
        v@.len() != N ==> r is Err && r->Err_0@ == v@,
{
    <[T; N]>::try_from(v)
}

/// Takes the first `N` items from the front of `src` into an array. Where
/// `src` holds fewer, all of them are taken and dropped and the result is a
/// `FillError`; where it holds more, the rest stay in `src`.
pub fn arraycollect<T, const N: usize>(src: &mut VecDeque<T>) -> (r: Result<[T; N], FillError>)
    ensures
        old(src)@.len() >= N ==> r is Ok && r->Ok_0@ == old(src)@.take(N as int) && final(src)@
            == old(src)@.skip(N as int),
        old(src)@.len() < N ==> r == Err::<[T; N], FillError>(FillError::FillError) && final(src)@.len()
            == 0,
{
    let mut filled: Vec<T> = Vec::new();
    while filled.len() < N
        invariant
            filled@.len() <= N,
            filled@.len() <= old(src)@.len(),
            filled@ == old(src)@.take(filled@.len() as int),
            src@ == old(src)@.skip(filled@.len() as int),
        decreases N - filled@.len(),
    {
        match src.pop_front() {
            Some(t) => filled.push(t),
            None => return Err(FillError::FillError),
        }
        assert(filled@ =~= old(src)@.take(filled@.len() as int));
        assert(src@ =~= old(src)@.skip(filled@.len() as int));
    }
    match vec_into_array::<T, N>(filled) {
        Ok(a) => Ok(a),
        Err(_) => Err(FillError::FillError),
    }
}

/// As `arraycollect`, with each item taken mapped through `U::from`.
pub fn arraycollect_converted<T, U: From<T>, const N: usize>(src: &mut VecDeque<T>) -> (r: Result<
    [U; N],
    FillError,
>)
    ensures
        old(src)@.len() >= N ==> r is Ok && r->Ok_0@.len() == N && final(src)@ == old(src)@.skip(
            N as int,
        ),
        old(src)@.len() >= N && U::obeys_from_spec() ==> r->Ok_0@ == converted::<T, U>(
            old(src)@.take(N as int),
        ),
        old(src)@.len() < N ==> r == Err::<[U; N], FillError>(FillError::FillError) && final(src)@.len()
            == 0,
{
    let mut filled: Vec<U> = Vec::new();
    while filled.len() < N
        invariant
            filled@.len() <= N,
            filled@.len() <= old(src)@.len(),
            U::obeys_from_spec() ==> filled@ == converted::<T, U>(old(src)@.take(filled@.len() as int)),
            src@ == old(src)@.skip(filled@.len() as int),
        decreases N - filled@.len(),
    {
        match src.pop_front() {
            Some(t) => filled.push(U::from(t)),
            None => return Err(FillError::FillError),
        }
        assert(U::obeys_from_spec() ==> filled@ =~= converted::<T, U>(old(src)@.take(filled@.len() as int)));
        assert(src@ =~= old(src)@.skip(filled@.len() as int));
    }
    match vec_into_array::<U, N>(filled) {
        Ok(a) => Ok(a),
        Err(_) => Err(FillError::FillError),
    }
}

} // verus!
