//! A pair of coordinates.

use vstd::prelude::*;
use vstd::std_specs::convert::FromSpecImpl;

verus! {

/// Two values of one type, named `x` and `y`.
#[derive(Debug)]
pub struct Vec2<T> {
    pub x: T,
    pub y: T,
}

impl<T: Copy> Copy for Vec2<T> {
}

impl<T: Copy> Clone for Vec2<T> {
    fn clone(&self) -> (v: Self)
        ensures
            v == *self,
    {
        *self
    }
}

impl<T> Vec2<T> {
    /// The pair with the given components.
    pub fn new(x: T, y: T) -> (v: Self)
        ensures
            v == (Vec2 { x, y }),
    {
        Self { x, y }
    }
}

impl<T: Copy> From<[T; 2]> for Vec2<T> {
    fn from(array: [T; 2]) -> (v: Self) {
        Self { x: array[0], y: array[1] }
    }
}

impl<T: Copy> FromSpecImpl<[T; 2]> for Vec2<T> {
    open spec fn obeys_from_spec() -> bool {
        true
    }

    open spec fn from_spec(array: [T; 2]) -> Self {
        Vec2 { x: array@[0], y: array@[1] }
    }
}

impl<T: Copy> From<Vec2<T>> for [T; 2] {
    fn from(vec2: Vec2<T>) -> (array: Self) {
        [vec2.x, vec2.y]
    }
}

impl<T: Copy> FromSpecImpl<Vec2<T>> for [T; 2] {
    open spec fn obeys_from_spec() -> bool {
        true
    }

    open spec fn from_spec(vec2: Vec2<T>) -> Self {
        [vec2.x, vec2.y]
    }
}

} // verus!
