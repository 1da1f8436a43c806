//! Fixed-dimension vector and matrix arithmetic.
//!
//! The dimension of a vector is a compile-time constant carried in its type,
//! so operations on vectors of different dimensions are rejected by the type
//! checker rather than at runtime. All arithmetic operators reduce to a small
//! family of element-wise combinators, and every operator is available for
//! each combination of consuming and borrowing its operands.
//!
//! The combinators are generic over the element types and the combining
//! closure, and their contracts carry the closure's contract to every index.
//! The arithmetic operators themselves are bound for vectors and matrices of
//! `i64` elements, with exact element-wise contracts and preconditions that
//! rule overflow out; `laws` states the properties that relate the
//! operators to one another.

pub mod laws;
pub mod matrix;
pub mod ops;
pub mod vector;
