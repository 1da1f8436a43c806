//! Extra arithmetic operators.
//!
//! The dot product has no operator in `core::ops`, so it gets a trait of its
//! own, shaped like the standard binary-operator traits.

use vstd::prelude::*;

verus! {

/// The dot product operation, in the style of the `core::ops` traits.
///
/// An implementation states when the product is defined (`dot_req`) and what
/// value it returns (`dot_spec`); `dot` is then proved to return exactly that
/// value.
pub trait DotProduct<Rhs = Self>: Sized where Rhs: Sized {
    type Output;

    /// When the dot product of `self` and `other` is defined.
    spec fn dot_req(self, other: Rhs) -> bool;

    /// The value the dot product returns.
    spec fn dot_spec(self, other: Rhs) -> Self::Output;

    fn dot(self, other: Rhs) -> (r: Self::Output)
        requires
            self.dot_req(other),
        ensures
            r == self.dot_spec(other),
    ;
}

} // verus!
