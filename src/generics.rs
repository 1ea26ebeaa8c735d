//! Largest elements of slices, and generic points and pairs.
use vstd::prelude::*;

verus! {

/// The largest number in `list`, which must not be empty.
pub fn largest(list: &[i32]) -> (r: i32)
    requires
        list@.len() > 0,
    ensures
        list@.contains(r),
        forall|i: int| 0 <= i < list@.len() ==> list@[i] <= r,
{
    largest_i32(list)
}

/// The largest number in `list`, which must not be empty.
pub fn largest_i32(list: &[i32]) -> (r: i32)
    requires
        list@.len() > 0,
    ensures
        list@.contains(r),
        forall|i: int| 0 <= i < list@.len() ==> list@[i] <= r,
{
    let mut best = list[0];
    let ghost mut at: int = 0;
    let mut i: usize = 1;
    while i < list.len()
        invariant
            1 <= i <= list@.len(),
            0 <= at < list@.len(),
            list@[at] == best,
            forall|j: int| 0 <= j < i ==> list@[j] <= best,
        decreases list@.len() - i,
    {
        if list[i] > best {
            best = list[i];
            proof {
                at = i as int;
            }
        }
        i = i + 1;
    }
    best
}

/// The largest character in `list`, which must not be empty.
pub fn largest_char(list: &[char]) -> (r: char)
    requires
        list@.len() > 0,
    ensures
        list@.contains(r),
        forall|i: int| 0 <= i < list@.len() ==> list@[i] <= r,
{
    let mut best = list[0];
    let ghost mut at: int = 0;
    let mut i: usize = 1;
    while i < list.len()
        invariant
            1 <= i <= list@.len(),
            0 <= at < list@.len(),
            list@[at] == best,
            forall|j: int| 0 <= j < i ==> list@[j] <= best,
        decreases list@.len() - i,
    {
        if list[i] > best {
            best = list[i];
            proof {
                at = i as int;
            }
        }
        i = i + 1;
    }
    best
}

/// A point whose coordinates may have different types.
pub struct Point<T, U> {
    pub x: T,
    pub y: U,
}

impl<T, U> Point<T, U> {
    /// The first coordinate.
    pub fn x(&self) -> (r: &T)
        ensures
            *r == self.x,
    {
        &self.x
    }

    /// A point with the `x` of `self` and the `y` of `other`.
    pub fn mixup<V, W>(self, other: Point<V, W>) -> (r: Point<T, W>)
        ensures
            r.x == self.x,
            r.y == other.y,
    {
        Point { x: self.x, y: other.y }
    }
}

pub struct Pair<T> {
    pub x: T,
    pub y: T,
}

impl<T> Pair<T> {
    pub fn new(x: T, y: T) -> (r: Self)
        ensures
            r.x == x,
            r.y == y,
    {
        Self { x, y }
    }
}

} // verus!
