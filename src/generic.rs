use vstd::prelude::*;
use vstd::std_specs::cmp::{PartialOrdIs, PartialOrdSpec};

verus! {

/// The larger of `x` and `y`: `x` when `x >= y`, otherwise `y`.
pub fn max<T: PartialOrd>(x: T, y: T) -> (r: T)
    ensures
        r == x || r == y,
        T::obeys_partial_cmp_spec() ==> r == (if x.is_ge(&y) {
            x
        } else {
            y
        }),
{
    if x.ge(&y) {
        x
    } else {
        y
    }
}

/// Two values of one type.
pub struct Pair<T> {
    pub first: T,
    pub second: T,
}

impl<T> Pair<T> {
    pub fn new(first: T, second: T) -> (r: Self)
        ensures
            r.first == first,
            r.second == second,
    {
        Self { first, second }
    }

    /// Whether `first >= second`.
    pub fn cmp_first_to_second(&self) -> (r: bool)
        where
            T: PartialOrd,
        ensures
            T::obeys_partial_cmp_spec() ==> r == self.first.is_ge(&self.second),
    {
        self.first.ge(&self.second)
    }
}

/// A short account of a value.
pub trait Summary<T> {
    fn summarize(&self) -> T;
}

/// A string is summarised by its length in bytes.
impl Summary<usize> for String {
    fn summarize(&self) -> usize {
        self.as_str().len()
    }
}

/// An article with a headline and a body.
pub struct NewsArticle {
    pub headline: String,
    pub content: String,
}

/// An article is summarised by its headline.
impl Summary<String> for NewsArticle {
    fn summarize(&self) -> String {
        self.headline.clone()
    }
}

/// The outcome of a computation: a value, or an error message.
#[derive(Debug)]
pub enum MathResult<T> {
    Value(T),
    Error(String),
}

/// Two values of one cloneable, displayable type.
pub struct PairTs<T> where T: std::fmt::Display + Clone {
    pub first: T,
    pub second: T,
}

impl<T> PairTs<T> where T: std::fmt::Display + Clone {
    pub fn new(first: T, second: T) -> (r: Self)
        ensures
            r.first == first,
            r.second == second,
    {
        PairTs { first, second }
    }
}

} // verus!
