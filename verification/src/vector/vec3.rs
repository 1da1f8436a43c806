//! The 3-dimensional specialization and its named-field view.

use crate::vector::Vec;
use vstd::prelude::*;

verus! {

/// A shorthand for a 3-dimensional vector.
pub type Vec3<T> = Vec<3, T>;

/// The named-field reading of a 3-dimensional vector: `x`, `y` and `z` carry
/// the elements at indices 0, 1 and 2, in that order.
///
/// The fields are a projection of the vector's elements, not a second copy
/// kept in step with it: `window` builds the projection and `from` rebuilds
/// the vector, and each is proved to bind the fields to their indices.
#[derive(Clone, Copy, Debug, PartialEq, Eq)]
pub struct Window3<T> {
    pub x: T,
    pub y: T,
    pub z: T,
}

impl<T> Vec3<T> {
    /// Build a 3-dimensional vector from its components, `x` first.
    pub fn new(x: T, y: T, z: T) -> (r: Self)
        ensures
            r@ =~= seq![x, y, z],
    {
        Vec([x, y, z])
    }
}

impl<T: Copy> Vec3<T> {
    /// The elements under their names: `x`, `y` and `z` are the elements at
    /// indices 0, 1 and 2.
    pub fn window(&self) -> (w: Window3<T>)
        ensures
            w.x == self@[0],
            w.y == self@[1],
            w.z == self@[2],
    {
        Window3 { x: self.0[0], y: self.0[1], z: self.0[2] }
    }

    /// The element at index 0 under its name.
    pub fn x(&self) -> (r: T)
        ensures
            r == self@[0],
    {
        self.0[0]
    }

    /// The element at index 1 under its name.
    pub fn y(&self) -> (r: T)
        ensures
            r == self@[1],
    {
        self.0[1]
    }

    /// The element at index 2 under its name.
    pub fn z(&self) -> (r: T)
        ensures
            r == self@[2],
    {
        self.0[2]
    }

    /// Write the element at index 0, the one named `x`.
    pub fn set_x(&mut self, v: T)
        ensures
            final(self)@ =~= old(self)@.update(0, v),
    {
        self.0[0] = v;
    }

    /// Write the element at index 1, the one named `y`.
    pub fn set_y(&mut self, v: T)
        ensures
            final(self)@ =~= old(self)@.update(1, v),
    {
        self.0[1] = v;
    }

    /// Write the element at index 2, the one named `z`.
    pub fn set_z(&mut self, v: T)
        ensures
            final(self)@ =~= old(self)@.update(2, v),
    {
        self.0[2] = v;
    }
}

impl<T> vstd::std_specs::convert::FromSpecImpl<Window3<T>> for Vec<3, T> {
    open spec fn obeys_from_spec() -> bool {
        true
    }

    open spec fn from_spec(w: Window3<T>) -> Self {
        Vec([w.x, w.y, w.z])
    }
}

impl<T> From<Window3<T>> for Vec<3, T> {
    /// Rebuild the vector from its named-field view, `x` at index 0.
    fn from(w: Window3<T>) -> (r: Self)
        ensures
            r@ =~= seq![w.x, w.y, w.z],
    {
        Vec([w.x, w.y, w.z])
    }
}

impl<T> vstd::std_specs::convert::FromSpecImpl<(T, T, T)> for Vec3<T> {
    open spec fn obeys_from_spec() -> bool {
        true
    }

    open spec fn from_spec(t: (T, T, T)) -> Self {
        Vec([t.0, t.1, t.2])
    }
}

impl<T> From<(T, T, T)> for Vec3<T> {
    /// Build the vector from a tuple, first field at index 0.
    fn from(t: (T, T, T)) -> (r: Self)
        ensures
            r@ =~= seq![t.0, t.1, t.2],
    {
        Vec([t.0, t.1, t.2])
    }
}

impl vstd::std_specs::cmp::PartialEqSpecImpl<(i64, i64, i64)> for Vec3<i64> {
    open spec fn obeys_eq_spec() -> bool {
        true
    }

    open spec fn eq_spec(&self, other: &(i64, i64, i64)) -> bool {
        self@[0] == other.0 && self@[1] == other.1 && self@[2] == other.2
    }
}

impl PartialEq<(i64, i64, i64)> for Vec3<i64> {
    /// Compare the elements, in index order, with a tuple's fields.
    fn eq(&self, other: &(i64, i64, i64)) -> (r: bool) {
        self.0[0] == other.0 && self.0[1] == other.1 && self.0[2] == other.2
    }
}

} // verus!
