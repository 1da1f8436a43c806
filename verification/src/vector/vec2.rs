//! The 2-dimensional specialization and its named-field view.

use crate::vector::Vec;
use vstd::prelude::*;

verus! {

/// A shorthand for a 2-dimensional vector.
pub type Vec2<T> = Vec<2, T>;

/// The named-field reading of a 2-dimensional vector: `x` and `y` carry the
/// elements at indices 0 and 1, in that order.
///
/// The fields are a projection of the vector's elements, not a second copy
/// kept in step with it: `window` builds the projection and `from` rebuilds
/// the vector, and each is proved to map field `x` to index 0 and field `y`
/// to index 1.
#[derive(Clone, Copy, Debug, PartialEq, Eq)]
pub struct Window2<T> {
    pub x: T,
    pub y: T,
}

impl<T> Vec2<T> {
    /// Build a 2-dimensional vector from its components, `x` first.
    pub fn new(x: T, y: T) -> (r: Self)
        ensures
            r@ =~= seq![x, y],
    {
        Vec([x, y])
    }
}

impl<T: Copy> Vec2<T> {
    /// The elements under their names: `x` is the element at index 0 and `y`
    /// the element at index 1.
    pub fn window(&self) -> (w: Window2<T>)
        ensures
            w.x == self@[0],
            w.y == self@[1],
    {
        Window2 { x: self.0[0], y: self.0[1] }
    }

    /// The element at index 0 under its name.
    pub fn x(&self) -> (r: T)
        ensures
            r == self@[0],
    {
        self.0[0]
    }

    /// The element at index 1 under its name.
    pub fn y(&self) -> (r: T)
        ensures
            r == self@[1],
    {
        self.0[1]
    }

    /// Write the element at index 0, the one named `x`.
    pub fn set_x(&mut self, v: T)
        ensures
            final(self)@ =~= old(self)@.update(0, v),
    {
        self.0[0] = v;
    }

    /// Write the element at index 1, the one named `y`.
    pub fn set_y(&mut self, v: T)
        ensures
            final(self)@ =~= old(self)@.update(1, v),
    {
        self.0[1] = v;
    }
}

impl<T> vstd::std_specs::convert::FromSpecImpl<Window2<T>> for Vec<2, T> {
    open spec fn obeys_from_spec() -> bool {
        true
    }

    open spec fn from_spec(w: Window2<T>) -> Self {
        Vec([w.x, w.y])
    }
}

impl<T> From<Window2<T>> for Vec<2, T> {
    /// Rebuild the vector from its named-field view, `x` at index 0.
    fn from(w: Window2<T>) -> (r: Self)
        ensures
            r@ =~= seq![w.x, w.y],
    {
        Vec([w.x, w.y])
    }
}

impl<T> vstd::std_specs::convert::FromSpecImpl<(T, T)> for Vec2<T> {
    open spec fn obeys_from_spec() -> bool {
        true
    }

    open spec fn from_spec(t: (T, T)) -> Self {
        Vec([t.0, t.1])
    }
}

impl<T> From<(T, T)> for Vec2<T> {
    /// Build the vector from a tuple, first field at index 0.
    fn from(t: (T, T)) -> (r: Self)
        ensures
            r@ =~= seq![t.0, t.1],
    {
        Vec([t.0, t.1])
    }
}

impl vstd::std_specs::cmp::PartialEqSpecImpl<(i64, i64)> for Vec2<i64> {
    open spec fn obeys_eq_spec() -> bool {
        true
    }

    open spec fn eq_spec(&self, other: &(i64, i64)) -> bool {
        self@[0] == other.0 && self@[1] == other.1
    }
}

impl PartialEq<(i64, i64)> for Vec2<i64> {
    /// Compare the elements, in index order, with a tuple's fields.
    fn eq(&self, other: &(i64, i64)) -> (r: bool) {
        self.0[0] == other.0 && self.0[1] == other.1
    }
}

} // verus!
