//! A generic vector type with compile-time dimensionality.
//!
//! The element count `D` is part of the type, so the compiler rejects any
//! operation that mixes vectors of different dimensions. The storage is a
//! plain array of `D` elements; index order is significant, since it fixes
//! the dot-product summation order and the named-field correspondence of the
//! low-dimensional specializations.

mod vec2;
mod vec3;
mod vec4;

pub use vec2::Vec2;
pub use vec2::Window2;
pub use vec3::Vec3;
pub use vec3::Window3;
pub use vec4::Vec4;
pub use vec4::Window4;

pub use crate::ops::DotProduct;

use vstd::prelude::*;

verus! {

broadcast use vstd::array::group_array_axioms;

/// A fixed-dimension vector: exactly `D` elements of type `T`, in order.
///
/// This is the crate's own value type, not the growable `std::vec::Vec`; it
/// has no heap allocation. The element array is public; `v.0[i]` and the
/// `index` method read the same storage.
#[derive(Clone, Copy, Debug, PartialEq, Eq)]
#[verifier::ext_equal]
pub struct Vec<const D: usize, T>(pub [T; D]);

/// The array whose first `n` elements are those of `s`; past `n` it keeps the
/// fill value. A building block for `arr_from_seq`.
pub open spec fn arr_from_prefix<T: Copy, const D: usize>(s: Seq<T>, n: nat) -> [T; D]
    decreases n,
{
    if n == 0 {
        vstd::array::spec_array_fill_for_copy_type::<T, D>(s[0])
    } else {
        vstd::array::spec_array_update(arr_from_prefix::<T, D>(s, (n - 1) as nat), n - 1, s[n - 1])
    }
}

/// The array holding the elements of `s`, which must have length `D`.
///
/// This names, at the specification level, the one array value with a given
/// view; the operator contracts use it to pin their result down to a value.
pub open spec fn arr_from_seq<T: Copy, const D: usize>(s: Seq<T>) -> [T; D] {
    arr_from_prefix::<T, D>(s, D as nat)
}

proof fn lemma_arr_from_prefix_view<T: Copy, const D: usize>(s: Seq<T>, n: nat)
    requires
        n <= D,
    ensures
        forall|i: int| 0 <= i < n ==> arr_from_prefix::<T, D>(s, n)@[i] == s[i],
    decreases n,
{
    if n > 0 {
        lemma_arr_from_prefix_view::<T, D>(s, (n - 1) as nat);
    }
}

/// `arr_from_seq` returns an array whose view is exactly its argument.
pub broadcast proof fn lemma_arr_from_seq_view<T: Copy, const D: usize>(s: Seq<T>)
    requires
        s.len() == D,
    ensures
        (#[trigger] arr_from_seq::<T, D>(s))@ =~= s,
{
    lemma_arr_from_prefix_view::<T, D>(s, D as nat);
}

/// Element-wise sum of two equal-length sequences, each sum truncated to
/// `i64`; the operator preconditions rule the truncation out.
pub open spec fn seq_add(a: Seq<i64>, b: Seq<i64>) -> Seq<i64> {
    Seq::new(a.len(), |i: int| (a[i] + b[i]) as i64)
}

/// Element-wise difference, truncated as in `seq_add`.
pub open spec fn seq_sub(a: Seq<i64>, b: Seq<i64>) -> Seq<i64> {
    Seq::new(a.len(), |i: int| (a[i] - b[i]) as i64)
}

/// Every element of the sequence multiplied by `k`, truncated as in `seq_add`.
pub open spec fn seq_mul_scalar(a: Seq<i64>, k: i64) -> Seq<i64> {
    Seq::new(a.len(), |i: int| (a[i] * k) as i64)
}

/// Truncating (round-toward-zero) signed division, written over the Euclidean
/// division of the specification language; this is the value the executable
/// `/` on `i64` returns.
pub open spec fn div_i64(a: i64, k: i64) -> i64 {
    if a >= 0 {
        (a / k) as i64
    } else {
        (-((-a) / (k as int))) as i64
    }
}

/// Every element of the sequence divided by `k`, with truncating division.
pub open spec fn seq_div_scalar(a: Seq<i64>, k: i64) -> Seq<i64> {
    Seq::new(a.len(), |i: int| div_i64(a[i], k))
}

/// The dot product of the first `n` index pairs, as a left-to-right fold:
/// multiply index-wise, then add in ascending index order. Defined for
/// `n >= 1`; the fold starts from the product at index 0.
pub open spec fn seq_dot_prefix(a: Seq<i64>, b: Seq<i64>, n: nat) -> int
    decreases n,
{
    if n <= 1 {
        a[0] * b[0]
    } else {
        seq_dot_prefix(a, b, (n - 1) as nat) + a[n - 1] * b[n - 1]
    }
}

/// The dot product of two equal-length sequences, summed in ascending index
/// order.
pub open spec fn seq_dot(a: Seq<i64>, b: Seq<i64>) -> int {
    seq_dot_prefix(a, b, a.len())
}

/// When the dot product is defined: dimension at least one, every index-wise
/// product in range, and every partial sum of the fold in range.
pub open spec fn vec_dot_req(a: Seq<i64>, b: Seq<i64>) -> bool {
    &&& a.len() >= 1
    &&& forall|i: int|
        #![trigger a[i], b[i]]
        0 <= i < a.len() ==> i64::MIN <= a[i] * b[i] <= i64::MAX
    &&& forall|k: nat|
        1 <= k <= a.len() ==> i64::MIN <= #[trigger] seq_dot_prefix(a, b, k) <= i64::MAX
}

/// When element-wise addition of two `i64` vectors with these views is
/// defined: dimension at least one, every element-wise sum in range.
pub open spec fn vec_add_req(a: Seq<i64>, b: Seq<i64>) -> bool {
    &&& a.len() >= 1
    &&& forall|i: int|
        #![trigger a[i], b[i]]
        0 <= i < a.len() ==> i64::MIN <= a[i] + b[i] <= i64::MAX
}

/// When element-wise subtraction is defined: dimension at least one, every
/// element-wise difference in range.
pub open spec fn vec_sub_req(a: Seq<i64>, b: Seq<i64>) -> bool {
    &&& a.len() >= 1
    &&& forall|i: int|
        #![trigger a[i], b[i]]
        0 <= i < a.len() ==> i64::MIN <= a[i] - b[i] <= i64::MAX
}

/// When scalar multiplication by `k` is defined: dimension at least one,
/// every product in range.
pub open spec fn vec_mul_req(a: Seq<i64>, k: i64) -> bool {
    &&& a.len() >= 1
    &&& forall|i: int| 0 <= i < a.len() ==> i64::MIN <= #[trigger] a[i] * k <= i64::MAX
}

/// When scalar division by `k` is defined: dimension at least one, `k` is not
/// zero, and no element is `i64::MIN` while `k` is minus one (the one
/// overflowing quotient).
pub open spec fn vec_div_req(a: Seq<i64>, k: i64) -> bool {
    &&& a.len() >= 1
    &&& k != 0
    &&& forall|i: int| 0 <= i < a.len() ==> !(#[trigger] a[i] == i64::MIN && k == -1)
}

proof fn lemma_dot_prefix_bound(a: Seq<i64>, b: Seq<i64>, m: int, k: nat)
    requires
        1 <= k <= a.len(),
        0 <= m,
        forall|i: int| #![trigger a[i], b[i]] 0 <= i < a.len() ==> -m <= a[i] * b[i] <= m,
    ensures
        -(k as int) * m <= seq_dot_prefix(a, b, k) <= (k as int) * m,
    decreases k,
{
    if k == 1 {
        assert(-m <= a[0] * b[0] <= m);
    } else {
        lemma_dot_prefix_bound(a, b, m, (k - 1) as nat);
        assert(-m <= a[k - 1] * b[k - 1] <= m);
        assert((k - 1) * m + m == k as int * m) by (nonlinear_arith);
        assert(-((k - 1) as int) * m - m == -(k as int) * m) by (nonlinear_arith);
    }
}

/// A convenient way to discharge `vec_dot_req`: when every index-wise product
/// lies within a common bound `m` whose `len`-fold multiple is still in
/// range, every partial sum of the fold is in range too.
pub proof fn lemma_dot_req_from_element_bound(a: Seq<i64>, b: Seq<i64>, m: int)
    requires
        a.len() >= 1,
        b.len() == a.len(),
        0 <= m,
        a.len() * m <= i64::MAX,
        forall|i: int| #![trigger a[i], b[i]] 0 <= i < a.len() ==> -m <= a[i] * b[i] <= m,
    ensures
        vec_dot_req(a, b),
{
    assert forall|i: int| 0 <= i < a.len() implies i64::MIN <= #[trigger] (a[i] * b[i])
        <= i64::MAX by {
        assert(-m <= a[i] * b[i] <= m);
        assert(m <= a.len() * m) by (nonlinear_arith)
            requires
                0 <= m && a.len() >= 1,
        ;
    }
    assert forall|k: nat| 1 <= k <= a.len() implies i64::MIN <= #[trigger] seq_dot_prefix(
        a,
        b,
        k,
    ) <= i64::MAX by {
        lemma_dot_prefix_bound(a, b, m, k);
        assert(k as int * m <= a.len() * m) by (nonlinear_arith)
            requires
                0 <= m && k <= a.len(),
        ;
        assert((-(k as int)) * m == -(k as int * m)) by (nonlinear_arith);
    }
}

impl<const D: usize, T> View for Vec<D, T> {
    type V = Seq<T>;

    open spec fn view(&self) -> Seq<T> {
        self.0@
    }
}

impl<const D: usize, T: Copy> Vec<D, T> {
    /// Build a new vector by combining two vectors element by element, both
    /// operands consumed.
    ///
    /// The result at each index is an output of `f` on the operands' elements
    /// at that same index. The dimension must be at least one; zero-dimension
    /// vectors are out of scope.
    pub fn combine<U: Copy, R: Copy, F: Fn(T, U) -> R>(self, other: Vec<D, U>, f: F) -> (r:
        Vec<D, R>)
        requires
            D >= 1,
            forall|i: int| 0 <= i < D ==> call_requires(f, (self@[i], other@[i])),
        ensures
            forall|i: int| 0 <= i < D ==> call_ensures(f, (self@[i], other@[i]), #[trigger] r@[i]),
    {
        proof {
            assert(call_requires(f, (self@[0], other@[0])));
        }
        let first = f(self.0[0], other.0[0]);
        let mut out: [R; D] = [first; D];
        let mut i: usize = 1;
        while i < D
            invariant
                1 <= i <= D,
                forall|j: int| 0 <= j < D ==> call_requires(f, (self@[j], other@[j])),
                forall|j: int|
                    0 <= j < i ==> call_ensures(f, (self@[j], other@[j]), #[trigger] out@[j]),
            decreases D - i,
        {
            proof {
                assert(call_requires(f, (self@[i as int], other@[i as int])));
            }
            out[i] = f(self.0[i], other.0[i]);
            i += 1;
        }
        Vec(out)
    }

    /// Like `combine`, but the right operand is only borrowed, so the caller
    /// keeps ownership of it.
    pub fn combine_ref<U: Copy, R: Copy, F: Fn(T, U) -> R>(self, other: &Vec<D, U>, f: F) -> (r:
        Vec<D, R>)
        requires
            D >= 1,
            forall|i: int| 0 <= i < D ==> call_requires(f, (self@[i], other@[i])),
        ensures
            forall|i: int| 0 <= i < D ==> call_ensures(f, (self@[i], other@[i]), #[trigger] r@[i]),
    {
        proof {
            assert(call_requires(f, (self@[0], other@[0])));
        }
        let first = f(self.0[0], other.0[0]);
        let mut out: [R; D] = [first; D];
        let mut i: usize = 1;
        while i < D
            invariant
                1 <= i <= D,
                forall|j: int| 0 <= j < D ==> call_requires(f, (self@[j], other@[j])),
                forall|j: int|
                    0 <= j < i ==> call_ensures(f, (self@[j], other@[j]), #[trigger] out@[j]),
            decreases D - i,
        {
            proof {
                assert(call_requires(f, (self@[i as int], other@[i as int])));
            }
            out[i] = f(self.0[i], other.0[i]);
            i += 1;
        }
        Vec(out)
    }

    /// Like `combine`, but both operands are only borrowed.
    pub fn combine_both_ref<U: Copy, R: Copy, F: Fn(T, U) -> R>(
        &self,
        other: &Vec<D, U>,
        f: F,
    ) -> (r: Vec<D, R>)
        requires
            D >= 1,
            forall|i: int| 0 <= i < D ==> call_requires(f, (self@[i], other@[i])),
        ensures
            forall|i: int| 0 <= i < D ==> call_ensures(f, (self@[i], other@[i]), #[trigger] r@[i]),
    {
        proof {
            assert(call_requires(f, (self@[0], other@[0])));
        }
        let first = f(self.0[0], other.0[0]);
        let mut out: [R; D] = [first; D];
        let mut i: usize = 1;
        while i < D
            invariant
                1 <= i <= D,
                forall|j: int| 0 <= j < D ==> call_requires(f, (self@[j], other@[j])),
                forall|j: int|
                    0 <= j < i ==> call_ensures(f, (self@[j], other@[j]), #[trigger] out@[j]),
            decreases D - i,
        {
            proof {
                assert(call_requires(f, (self@[i as int], other@[i as int])));
            }
            out[i] = f(self.0[i], other.0[i]);
            i += 1;
        }
        Vec(out)
    }

    /// Build a new vector by combining every element with one scalar, the
    /// scalar copied for each application.
    pub fn combine_scalar<U: Copy, R: Copy, F: Fn(T, U) -> R>(self, other: U, f: F) -> (r: Vec<
        D,
        R,
    >)
        requires
            D >= 1,
            forall|i: int| 0 <= i < D ==> call_requires(f, (self@[i], other)),
        ensures
            forall|i: int| 0 <= i < D ==> call_ensures(f, (self@[i], other), #[trigger] r@[i]),
    {
        proof {
            assert(call_requires(f, (self@[0], other)));
        }
        let first = f(self.0[0], other);
        let mut out: [R; D] = [first; D];
        let mut i: usize = 1;
        while i < D
            invariant
                1 <= i <= D,
                forall|j: int| 0 <= j < D ==> call_requires(f, (self@[j], other)),
                forall|j: int| 0 <= j < i ==> call_ensures(f, (self@[j], other), #[trigger] out@[j]),
            decreases D - i,
        {
            proof {
                assert(call_requires(f, (self@[i as int], other)));
            }
            out[i] = f(self.0[i], other);
            i += 1;
        }
        Vec(out)
    }

    /// Like `combine_scalar`, but the vector is only borrowed.
    pub fn combine_scalar_ref<U: Copy, R: Copy, F: Fn(T, U) -> R>(&self, other: U, f: F) -> (r:
        Vec<D, R>)
        requires
            D >= 1,
            forall|i: int| 0 <= i < D ==> call_requires(f, (self@[i], other)),
        ensures
            forall|i: int| 0 <= i < D ==> call_ensures(f, (self@[i], other), #[trigger] r@[i]),
    {
        proof {
            assert(call_requires(f, (self@[0], other)));
        }
        let first = f(self.0[0], other);
        let mut out: [R; D] = [first; D];
        let mut i: usize = 1;
        while i < D
            invariant
                1 <= i <= D,
                forall|j: int| 0 <= j < D ==> call_requires(f, (self@[j], other)),
                forall|j: int| 0 <= j < i ==> call_ensures(f, (self@[j], other), #[trigger] out@[j]),
            decreases D - i,
        {
            proof {
                assert(call_requires(f, (self@[i as int], other)));
            }
            out[i] = f(self.0[i], other);
            i += 1;
        }
        Vec(out)
    }

    /// Rewrite every element of `self` from its old value and the matching
    /// element of `other`, in ascending index order; `other` is consumed.
    pub fn combine_assign<U: Copy, F: Fn(T, U) -> T>(&mut self, other: Vec<D, U>, f: F)
        requires
            forall|i: int| 0 <= i < D ==> call_requires(f, (old(self)@[i], other@[i])),
        ensures
            forall|i: int|
                0 <= i < D ==> call_ensures(
                    f,
                    (old(self)@[i], other@[i]),
                    #[trigger] final(self)@[i],
                ),
    {
        let mut i: usize = 0;
        while i < D
            invariant
                i <= D,
                forall|j: int| 0 <= j < D ==> call_requires(f, (old(self)@[j], other@[j])),
                forall|j: int| i <= j < D ==> self@[j] == old(self)@[j],
                forall|j: int|
                    0 <= j < i ==> call_ensures(f, (old(self)@[j], other@[j]), #[trigger] self@[j]),
            decreases D - i,
        {
            proof {
                assert(self@[i as int] == old(self)@[i as int]);
                assert(call_requires(f, (old(self)@[i as int], other@[i as int])));
            }
            self.0[i] = f(self.0[i], other.0[i]);
            i += 1;
        }
    }

    /// Like `combine_assign`, but the right operand is only borrowed.
    pub fn combine_assign_ref<U: Copy, F: Fn(T, U) -> T>(&mut self, other: &Vec<D, U>, f: F)
        requires
            forall|i: int| 0 <= i < D ==> call_requires(f, (old(self)@[i], other@[i])),
        ensures
            forall|i: int|
                0 <= i < D ==> call_ensures(
                    f,
                    (old(self)@[i], other@[i]),
                    #[trigger] final(self)@[i],
                ),
    {
        let mut i: usize = 0;
        while i < D
            invariant
                i <= D,
                forall|j: int| 0 <= j < D ==> call_requires(f, (old(self)@[j], other@[j])),
                forall|j: int| i <= j < D ==> self@[j] == old(self)@[j],
                forall|j: int|
                    0 <= j < i ==> call_ensures(f, (old(self)@[j], other@[j]), #[trigger] self@[j]),
            decreases D - i,
        {
            proof {
                assert(self@[i as int] == old(self)@[i as int]);
                assert(call_requires(f, (old(self)@[i as int], other@[i as int])));
            }
            self.0[i] = f(self.0[i], other.0[i]);
            i += 1;
        }
    }

    /// Rewrite every element of `self` from its old value and one scalar, the
    /// scalar copied for each application.
    pub fn combine_assign_scalar<U: Copy, F: Fn(T, U) -> T>(&mut self, other: U, f: F)
        requires
            forall|i: int| 0 <= i < D ==> call_requires(f, (old(self)@[i], other)),
        ensures
            forall|i: int|
                0 <= i < D ==> call_ensures(f, (old(self)@[i], other), #[trigger] final(self)@[i]),
    {
        let mut i: usize = 0;
        while i < D
            invariant
                i <= D,
                forall|j: int| 0 <= j < D ==> call_requires(f, (old(self)@[j], other)),
                forall|j: int| i <= j < D ==> self@[j] == old(self)@[j],
                forall|j: int|
                    0 <= j < i ==> call_ensures(f, (old(self)@[j], other), #[trigger] self@[j]),
            decreases D - i,
        {
            proof {
                assert(self@[i as int] == old(self)@[i as int]);
                assert(call_requires(f, (old(self)@[i as int], other)));
            }
            self.0[i] = f(self.0[i], other);
            i += 1;
        }
    }
}

impl<const D: usize, T> Vec<D, T> {
    /// Replace the element at `index`.
    ///
    /// Writing at or past `D` is excluded by the precondition; no call that
    /// verifies can reach the bounds failure.
    pub fn set(&mut self, index: usize, v: T)
        requires
            index < D,
        ensures
            final(self)@ =~= old(self)@.update(index as int, v),
    {
        self.0[index] = v;
    }

    /// Give the elements up as a plain fixed-length array.
    pub fn into_array(self) -> (r: [T; D])
        ensures
            r@ == self@,
    {
        self.0
    }

    /// Read the element at `index`.
    ///
    /// Indexing at or past `D` is excluded by the precondition; no call that
    /// verifies can reach the bounds failure.
    pub fn index(&self, index: usize) -> (r: &T)
        requires
            index < D,
        ensures
            *r == self@[index as int],
    {
        &self.0[index]
    }
}

impl<const D: usize, T> vstd::std_specs::convert::FromSpecImpl<[T; D]> for Vec<D, T> {
    open spec fn obeys_from_spec() -> bool {
        true
    }

    open spec fn from_spec(x: [T; D]) -> Self {
        Vec(x)
    }
}

impl<const D: usize, T> From<[T; D]> for Vec<D, T> {
    fn from(x: [T; D]) -> (r: Self)
        ensures
            r@ == x@,
    {
        Vec(x)
    }
}

// Addition, for each of the four ownership combinations. All four return the
// same value for equal operand views: each contract fixes the result to
// `arr_from_seq(seq_add(..))` of the operand views.
impl<const D: usize> vstd::std_specs::ops::AddSpecImpl<Vec<D, i64>> for Vec<D, i64> {
    open spec fn obeys_add_spec() -> bool {
        true
    }

    open spec fn add_req(self, rhs: Vec<D, i64>) -> bool {
        vec_add_req(self@, rhs@)
    }

    open spec fn add_spec(self, rhs: Vec<D, i64>) -> Vec<D, i64> {
        Vec(arr_from_seq(seq_add(self@, rhs@)))
    }
}

impl<const D: usize> core::ops::Add<Vec<D, i64>> for Vec<D, i64> {
    type Output = Vec<D, i64>;

    /// Element-wise addition, both operands consumed.
    fn add(self, rhs: Vec<D, i64>) -> (r: Vec<D, i64>)
        ensures
            r@ == seq_add(self@, rhs@),
    {
        let f = |a: i64, b: i64| -> (c: i64)
            requires
                i64::MIN <= a + b <= i64::MAX,
            ensures
                c == a + b,
            { a + b };
        let out = self.combine(rhs, f);
        proof {
            lemma_arr_from_seq_view::<i64, D>(seq_add(self@, rhs@));
            assert(out@ =~= seq_add(self@, rhs@));
            assert(out =~= (Vec(arr_from_seq(seq_add(self@, rhs@)))));
        }
        out
    }
}

impl<'a, const D: usize> vstd::std_specs::ops::AddSpecImpl<&'a Vec<D, i64>> for Vec<D, i64> {
    open spec fn obeys_add_spec() -> bool {
        true
    }

    open spec fn add_req(self, rhs: &'a Vec<D, i64>) -> bool {
        vec_add_req(self@, rhs@)
    }

    open spec fn add_spec(self, rhs: &'a Vec<D, i64>) -> Vec<D, i64> {
        Vec(arr_from_seq(seq_add(self@, rhs@)))
    }
}

impl<'a, const D: usize> core::ops::Add<&'a Vec<D, i64>> for Vec<D, i64> {
    type Output = Vec<D, i64>;

    /// Element-wise addition, the right operand only borrowed.
    fn add(self, rhs: &'a Vec<D, i64>) -> (r: Vec<D, i64>)
        ensures
            r@ == seq_add(self@, rhs@),
    {
        let f = |a: i64, b: i64| -> (c: i64)
            requires
                i64::MIN <= a + b <= i64::MAX,
            ensures
                c == a + b,
            { a + b };
        let out = self.combine_ref(rhs, f);
        proof {
            lemma_arr_from_seq_view::<i64, D>(seq_add(self@, rhs@));
            assert(out@ =~= seq_add(self@, rhs@));
            assert(out =~= (Vec(arr_from_seq(seq_add(self@, rhs@)))));
        }
        out
    }
}

impl<'a, const D: usize> vstd::std_specs::ops::AddSpecImpl<Vec<D, i64>> for &'a Vec<D, i64> {
    open spec fn obeys_add_spec() -> bool {
        true
    }

    open spec fn add_req(self, rhs: Vec<D, i64>) -> bool {
        vec_add_req(self@, rhs@)
    }

    open spec fn add_spec(self, rhs: Vec<D, i64>) -> Vec<D, i64> {
        Vec(arr_from_seq(seq_add(self@, rhs@)))
    }
}

impl<'a, const D: usize> core::ops::Add<Vec<D, i64>> for &'a Vec<D, i64> {
    type Output = Vec<D, i64>;

    /// Element-wise addition, the left operand only borrowed.
    ///
    /// Delegates with the operands swapped, since the borrowed side must be
    /// the combinator's reference argument; the closure swaps them back.
    fn add(self, rhs: Vec<D, i64>) -> (r: Vec<D, i64>)
        ensures
            r@ == seq_add(self@, rhs@),
    {
        let f = |a: i64, b: i64| -> (c: i64)
            requires
                i64::MIN <= a + b <= i64::MAX,
            ensures
                c == b + a,
            { b + a };
        let out = rhs.combine_ref(self, f);
        proof {
            lemma_arr_from_seq_view::<i64, D>(seq_add(self@, rhs@));
            assert(out@ =~= seq_add(self@, rhs@));
            assert(out =~= (Vec(arr_from_seq(seq_add(self@, rhs@)))));
        }
        out
    }
}

impl<'a, 'b, const D: usize> vstd::std_specs::ops::AddSpecImpl<&'b Vec<D, i64>> for &'a Vec<D, i64> {
    open spec fn obeys_add_spec() -> bool {
        true
    }

    open spec fn add_req(self, rhs: &'b Vec<D, i64>) -> bool {
        vec_add_req(self@, rhs@)
    }

    open spec fn add_spec(self, rhs: &'b Vec<D, i64>) -> Vec<D, i64> {
        Vec(arr_from_seq(seq_add(self@, rhs@)))
    }
}

impl<'a, 'b, const D: usize> core::ops::Add<&'b Vec<D, i64>> for &'a Vec<D, i64> {
    type Output = Vec<D, i64>;

    /// Element-wise addition, both operands only borrowed.
    fn add(self, rhs: &'b Vec<D, i64>) -> (r: Vec<D, i64>)
        ensures
            r@ == seq_add(self@, rhs@),
    {
        let f = |a: i64, b: i64| -> (c: i64)
            requires
                i64::MIN <= a + b <= i64::MAX,
            ensures
                c == a + b,
            { a + b };
        let out = self.combine_both_ref(rhs, f);
        proof {
            lemma_arr_from_seq_view::<i64, D>(seq_add(self@, rhs@));
            assert(out@ =~= seq_add(self@, rhs@));
            assert(out =~= (Vec(arr_from_seq(seq_add(self@, rhs@)))));
        }
        out
    }
}

// Subtraction, for each of the four ownership combinations; the contracts
// fix the result to `arr_from_seq(seq_sub(..))` of the operand views.

impl<const D: usize> vstd::std_specs::ops::SubSpecImpl<Vec<D, i64>> for Vec<D, i64> {
    open spec fn obeys_sub_spec() -> bool {
        true
    }

    open spec fn sub_req(self, rhs: Vec<D, i64>) -> bool {
        vec_sub_req(self@, rhs@)
    }

    open spec fn sub_spec(self, rhs: Vec<D, i64>) -> Vec<D, i64> {
        Vec(arr_from_seq(seq_sub(self@, rhs@)))
    }
}


impl<const D: usize> core::ops::Sub<Vec<D, i64>> for Vec<D, i64> {
    type Output = Vec<D, i64>;

    /// Element-wise subtraction, both operands consumed.
    fn sub(self, rhs: Vec<D, i64>) -> (r: Vec<D, i64>)
        ensures
            r@ == seq_sub(self@, rhs@),
    {
        let f = |a: i64, b: i64| -> (c: i64)
            requires
                i64::MIN <= a - b <= i64::MAX,
            ensures
                c == a - b,
            { a - b };
        let out = self.combine(rhs, f);
        proof {
            lemma_arr_from_seq_view::<i64, D>(seq_sub(self@, rhs@));
            assert(out@ =~= seq_sub(self@, rhs@));
            assert(out =~= (Vec(arr_from_seq(seq_sub(self@, rhs@)))));
        }
        out
    }
}

impl<'a, const D: usize> vstd::std_specs::ops::SubSpecImpl<&'a Vec<D, i64>> for Vec<D, i64> {
    open spec fn obeys_sub_spec() -> bool {
        true
    }

    open spec fn sub_req(self, rhs: &'a Vec<D, i64>) -> bool {
        vec_sub_req(self@, rhs@)
    }

    open spec fn sub_spec(self, rhs: &'a Vec<D, i64>) -> Vec<D, i64> {
        Vec(arr_from_seq(seq_sub(self@, rhs@)))
    }
}


impl<'a, const D: usize> core::ops::Sub<&'a Vec<D, i64>> for Vec<D, i64> {
    type Output = Vec<D, i64>;

    /// Element-wise subtraction, the right operand only borrowed.
    fn sub(self, rhs: &'a Vec<D, i64>) -> (r: Vec<D, i64>)
        ensures
            r@ == seq_sub(self@, rhs@),
    {
        let f = |a: i64, b: i64| -> (c: i64)
            requires
                i64::MIN <= a - b <= i64::MAX,
            ensures
                c == a - b,
            { a - b };
        let out = self.combine_ref(rhs, f);
        proof {
            lemma_arr_from_seq_view::<i64, D>(seq_sub(self@, rhs@));
            assert(out@ =~= seq_sub(self@, rhs@));
            assert(out =~= (Vec(arr_from_seq(seq_sub(self@, rhs@)))));
        }
        out
    }
}

impl<'a, const D: usize> vstd::std_specs::ops::SubSpecImpl<Vec<D, i64>> for &'a Vec<D, i64> {
    open spec fn obeys_sub_spec() -> bool {
        true
    }

    open spec fn sub_req(self, rhs: Vec<D, i64>) -> bool {
        vec_sub_req(self@, rhs@)
    }

    open spec fn sub_spec(self, rhs: Vec<D, i64>) -> Vec<D, i64> {
        Vec(arr_from_seq(seq_sub(self@, rhs@)))
    }
}


impl<'a, const D: usize> core::ops::Sub<Vec<D, i64>> for &'a Vec<D, i64> {
    type Output = Vec<D, i64>;

    /// Element-wise subtraction, the left operand only borrowed.
    ///
    /// Delegates with the operands swapped, since the borrowed side must be
    /// the combinator's reference argument; the closure swaps them back.
    fn sub(self, rhs: Vec<D, i64>) -> (r: Vec<D, i64>)
        ensures
            r@ == seq_sub(self@, rhs@),
    {
        let f = |a: i64, b: i64| -> (c: i64)
            requires
                i64::MIN <= b - a <= i64::MAX,
            ensures
                c == b - a,
            { b - a };
        let out = rhs.combine_ref(self, f);
        proof {
            lemma_arr_from_seq_view::<i64, D>(seq_sub(self@, rhs@));
            assert(out@ =~= seq_sub(self@, rhs@));
            assert(out =~= (Vec(arr_from_seq(seq_sub(self@, rhs@)))));
        }
        out
    }
}

impl<'a, 'b, const D: usize> vstd::std_specs::ops::SubSpecImpl<&'b Vec<D, i64>> for &'a Vec<D, i64> {
    open spec fn obeys_sub_spec() -> bool {
        true
    }

    open spec fn sub_req(self, rhs: &'b Vec<D, i64>) -> bool {
        vec_sub_req(self@, rhs@)
    }

    open spec fn sub_spec(self, rhs: &'b Vec<D, i64>) -> Vec<D, i64> {
        Vec(arr_from_seq(seq_sub(self@, rhs@)))
    }
}


impl<'a, 'b, const D: usize> core::ops::Sub<&'b Vec<D, i64>> for &'a Vec<D, i64> {
    type Output = Vec<D, i64>;

    /// Element-wise subtraction, both operands only borrowed.
    fn sub(self, rhs: &'b Vec<D, i64>) -> (r: Vec<D, i64>)
        ensures
            r@ == seq_sub(self@, rhs@),
    {
        let f = |a: i64, b: i64| -> (c: i64)
            requires
                i64::MIN <= a - b <= i64::MAX,
            ensures
                c == a - b,
            { a - b };
        let out = self.combine_both_ref(rhs, f);
        proof {
            lemma_arr_from_seq_view::<i64, D>(seq_sub(self@, rhs@));
            assert(out@ =~= seq_sub(self@, rhs@));
            assert(out =~= (Vec(arr_from_seq(seq_sub(self@, rhs@)))));
        }
        out
    }
}

// Scalar multiplication: the right operand is one scalar, broadcast to
// every element.

impl<const D: usize> vstd::std_specs::ops::MulSpecImpl<i64> for Vec<D, i64> {
    open spec fn obeys_mul_spec() -> bool {
        true
    }

    open spec fn mul_req(self, rhs: i64) -> bool {
        vec_mul_req(self@, rhs)
    }

    open spec fn mul_spec(self, rhs: i64) -> Vec<D, i64> {
        Vec(arr_from_seq(seq_mul_scalar(self@, rhs)))
    }
}


impl<const D: usize> core::ops::Mul<i64> for Vec<D, i64> {
    type Output = Vec<D, i64>;

    /// Multiply every element by the scalar, the vector consumed.
    fn mul(self, rhs: i64) -> (r: Vec<D, i64>)
        ensures
            r@ == seq_mul_scalar(self@, rhs),
    {
        let f = |a: i64, k: i64| -> (c: i64)
            requires
                i64::MIN <= a * k <= i64::MAX,
            ensures
                c == a * k,
            { a * k };
        let out = self.combine_scalar(rhs, f);
        proof {
            lemma_arr_from_seq_view::<i64, D>(seq_mul_scalar(self@, rhs));
            assert(out@ =~= seq_mul_scalar(self@, rhs));
            assert(out =~= (Vec(arr_from_seq(seq_mul_scalar(self@, rhs)))));
        }
        out
    }
}

impl<'a, const D: usize> vstd::std_specs::ops::MulSpecImpl<i64> for &'a Vec<D, i64> {
    open spec fn obeys_mul_spec() -> bool {
        true
    }

    open spec fn mul_req(self, rhs: i64) -> bool {
        vec_mul_req(self@, rhs)
    }

    open spec fn mul_spec(self, rhs: i64) -> Vec<D, i64> {
        Vec(arr_from_seq(seq_mul_scalar(self@, rhs)))
    }
}


impl<'a, const D: usize> core::ops::Mul<i64> for &'a Vec<D, i64> {
    type Output = Vec<D, i64>;

    /// Multiply every element by the scalar, the vector only borrowed.
    fn mul(self, rhs: i64) -> (r: Vec<D, i64>)
        ensures
            r@ == seq_mul_scalar(self@, rhs),
    {
        let f = |a: i64, k: i64| -> (c: i64)
            requires
                i64::MIN <= a * k <= i64::MAX,
            ensures
                c == a * k,
            { a * k };
        let out = self.combine_scalar_ref(rhs, f);
        proof {
            lemma_arr_from_seq_view::<i64, D>(seq_mul_scalar(self@, rhs));
            assert(out@ =~= seq_mul_scalar(self@, rhs));
            assert(out =~= (Vec(arr_from_seq(seq_mul_scalar(self@, rhs)))));
        }
        out
    }
}

// Scalar division, with the truncating division of the executable `/`.

impl<const D: usize> vstd::std_specs::ops::DivSpecImpl<i64> for Vec<D, i64> {
    open spec fn obeys_div_spec() -> bool {
        true
    }

    open spec fn div_req(self, rhs: i64) -> bool {
        vec_div_req(self@, rhs)
    }

    open spec fn div_spec(self, rhs: i64) -> Vec<D, i64> {
        Vec(arr_from_seq(seq_div_scalar(self@, rhs)))
    }
}


impl<const D: usize> core::ops::Div<i64> for Vec<D, i64> {
    type Output = Vec<D, i64>;

    /// Divide every element by the scalar, the vector consumed.
    fn div(self, rhs: i64) -> (r: Vec<D, i64>)
        ensures
            r@ == seq_div_scalar(self@, rhs),
    {
        let f = |a: i64, k: i64| -> (c: i64)
            requires
                k != 0,
                !(a == i64::MIN && k == -1),
            ensures
                c == div_i64(a, k),
            { a / k };
        let out = self.combine_scalar(rhs, f);
        proof {
            lemma_arr_from_seq_view::<i64, D>(seq_div_scalar(self@, rhs));
            assert(out@ =~= seq_div_scalar(self@, rhs));
            assert(out =~= (Vec(arr_from_seq(seq_div_scalar(self@, rhs)))));
        }
        out
    }
}

impl<'a, const D: usize> vstd::std_specs::ops::DivSpecImpl<i64> for &'a Vec<D, i64> {
    open spec fn obeys_div_spec() -> bool {
        true
    }

    open spec fn div_req(self, rhs: i64) -> bool {
        vec_div_req(self@, rhs)
    }

    open spec fn div_spec(self, rhs: i64) -> Vec<D, i64> {
        Vec(arr_from_seq(seq_div_scalar(self@, rhs)))
    }
}


impl<'a, const D: usize> core::ops::Div<i64> for &'a Vec<D, i64> {
    type Output = Vec<D, i64>;

    /// Divide every element by the scalar, the vector only borrowed.
    fn div(self, rhs: i64) -> (r: Vec<D, i64>)
        ensures
            r@ == seq_div_scalar(self@, rhs),
    {
        let f = |a: i64, k: i64| -> (c: i64)
            requires
                k != 0,
                !(a == i64::MIN && k == -1),
            ensures
                c == div_i64(a, k),
            { a / k };
        let out = self.combine_scalar_ref(rhs, f);
        proof {
            lemma_arr_from_seq_view::<i64, D>(seq_div_scalar(self@, rhs));
            assert(out@ =~= seq_div_scalar(self@, rhs));
            assert(out =~= (Vec(arr_from_seq(seq_div_scalar(self@, rhs)))));
        }
        out
    }
}

impl<const D: usize> core::ops::AddAssign<Vec<D, i64>> for Vec<D, i64> {
    /// Element-wise addition in place, the right operand consumed.
    fn add_assign(&mut self, rhs: Vec<D, i64>)
        requires
            vec_add_req(old(self)@, rhs@),
        ensures
            final(self)@ == seq_add(old(self)@, rhs@),
    {
        let f = |a: i64, b: i64| -> (c: i64)
            requires
                i64::MIN <= a + b <= i64::MAX,
            ensures
                c == a + b,
            { a + b };
        self.combine_assign(rhs, f);
        proof {
            assert(self@ =~= seq_add(old(self)@, rhs@));
        }
    }
}

impl<'a, const D: usize> core::ops::AddAssign<&'a Vec<D, i64>> for Vec<D, i64> {
    /// Element-wise addition in place, the right operand only borrowed.
    fn add_assign(&mut self, rhs: &'a Vec<D, i64>)
        requires
            vec_add_req(old(self)@, rhs@),
        ensures
            final(self)@ == seq_add(old(self)@, rhs@),
    {
        let f = |a: i64, b: i64| -> (c: i64)
            requires
                i64::MIN <= a + b <= i64::MAX,
            ensures
                c == a + b,
            { a + b };
        self.combine_assign_ref(rhs, f);
        proof {
            assert(self@ =~= seq_add(old(self)@, rhs@));
        }
    }
}

impl<const D: usize> core::ops::SubAssign<Vec<D, i64>> for Vec<D, i64> {
    /// Element-wise subtraction in place, the right operand consumed.
    fn sub_assign(&mut self, rhs: Vec<D, i64>)
        requires
            vec_sub_req(old(self)@, rhs@),
        ensures
            final(self)@ == seq_sub(old(self)@, rhs@),
    {
        let f = |a: i64, b: i64| -> (c: i64)
            requires
                i64::MIN <= a - b <= i64::MAX,
            ensures
                c == a - b,
            { a - b };
        self.combine_assign(rhs, f);
        proof {
            assert(self@ =~= seq_sub(old(self)@, rhs@));
        }
    }
}

impl<'a, const D: usize> core::ops::SubAssign<&'a Vec<D, i64>> for Vec<D, i64> {
    /// Element-wise subtraction in place, the right operand only borrowed.
    fn sub_assign(&mut self, rhs: &'a Vec<D, i64>)
        requires
            vec_sub_req(old(self)@, rhs@),
        ensures
            final(self)@ == seq_sub(old(self)@, rhs@),
    {
        let f = |a: i64, b: i64| -> (c: i64)
            requires
                i64::MIN <= a - b <= i64::MAX,
            ensures
                c == a - b,
            { a - b };
        self.combine_assign_ref(rhs, f);
        proof {
            assert(self@ =~= seq_sub(old(self)@, rhs@));
        }
    }
}

impl<const D: usize> core::ops::MulAssign<i64> for Vec<D, i64> {
    /// Multiply every element by the scalar, in place.
    fn mul_assign(&mut self, rhs: i64)
        requires
            vec_mul_req(old(self)@, rhs),
        ensures
            final(self)@ == seq_mul_scalar(old(self)@, rhs),
    {
        let f = |a: i64, k: i64| -> (c: i64)
            requires
                i64::MIN <= a * k <= i64::MAX,
            ensures
                c == a * k,
            { a * k };
        self.combine_assign_scalar(rhs, f);
        proof {
            assert(self@ =~= seq_mul_scalar(old(self)@, rhs));
        }
    }
}

impl<const D: usize> core::ops::DivAssign<i64> for Vec<D, i64> {
    /// Divide every element by the scalar, in place, with truncating division.
    fn div_assign(&mut self, rhs: i64)
        requires
            vec_div_req(old(self)@, rhs),
        ensures
            final(self)@ == seq_div_scalar(old(self)@, rhs),
    {
        let f = |a: i64, k: i64| -> (c: i64)
            requires
                k != 0,
                !(a == i64::MIN && k == -1),
            ensures
                c == div_i64(a, k),
            { a / k };
        self.combine_assign_scalar(rhs, f);
        proof {
            assert(self@ =~= seq_div_scalar(old(self)@, rhs));
        }
    }
}

// The dot product, both operands consumed.
impl<const D: usize> crate::ops::DotProduct<Vec<D, i64>> for Vec<D, i64> {
    type Output = i64;

    open spec fn dot_req(self, other: Vec<D, i64>) -> bool {
        vec_dot_req(self@, other@)
    }

    open spec fn dot_spec(self, other: Vec<D, i64>) -> i64 {
        seq_dot(self@, other@) as i64
    }

    fn dot(self, other: Vec<D, i64>) -> (r: i64) {
        let mut acc = self.0[0] * other.0[0];
        let mut i: usize = 1;
        while i < D
            invariant
                1 <= i <= D,
                vec_dot_req(self@, other@),
                self@.len() == D,
                acc == seq_dot_prefix(self@, other@, i as nat),
            decreases D - i,
        {
            proof {
                assert(seq_dot_prefix(self@, other@, (i + 1) as nat) == seq_dot_prefix(
                    self@,
                    other@,
                    i as nat,
                ) + self@[i as int] * other@[i as int]);
                assert(i64::MIN <= seq_dot_prefix(self@, other@, (i + 1) as nat) <= i64::MAX);
            }
            acc = acc + self.0[i] * other.0[i];
            i += 1;
        }
        acc
    }
}

// The dot product, the right operand only borrowed.
impl<'a, const D: usize> crate::ops::DotProduct<&'a Vec<D, i64>> for Vec<D, i64> {
    type Output = i64;

    open spec fn dot_req(self, other: &'a Vec<D, i64>) -> bool {
        vec_dot_req(self@, other@)
    }

    open spec fn dot_spec(self, other: &'a Vec<D, i64>) -> i64 {
        seq_dot(self@, other@) as i64
    }

    fn dot(self, other: &'a Vec<D, i64>) -> (r: i64) {
        let mut acc = self.0[0] * other.0[0];
        let mut i: usize = 1;
        while i < D
            invariant
                1 <= i <= D,
                vec_dot_req(self@, other@),
                self@.len() == D,
                acc == seq_dot_prefix(self@, other@, i as nat),
            decreases D - i,
        {
            proof {
                assert(seq_dot_prefix(self@, other@, (i + 1) as nat) == seq_dot_prefix(
                    self@,
                    other@,
                    i as nat,
                ) + self@[i as int] * other@[i as int]);
                assert(i64::MIN <= seq_dot_prefix(self@, other@, (i + 1) as nat) <= i64::MAX);
            }
            acc = acc + self.0[i] * other.0[i];
            i += 1;
        }
        acc
    }
}

// The dot product, the left operand only borrowed.
impl<'a, const D: usize> crate::ops::DotProduct<Vec<D, i64>> for &'a Vec<D, i64> {
    type Output = i64;

    open spec fn dot_req(self, other: Vec<D, i64>) -> bool {
        vec_dot_req(self@, other@)
    }

    open spec fn dot_spec(self, other: Vec<D, i64>) -> i64 {
        seq_dot(self@, other@) as i64
    }

    fn dot(self, other: Vec<D, i64>) -> (r: i64) {
        let mut acc = self.0[0] * other.0[0];
        let mut i: usize = 1;
        while i < D
            invariant
                1 <= i <= D,
                vec_dot_req(self@, other@),
                self@.len() == D,
                acc == seq_dot_prefix(self@, other@, i as nat),
            decreases D - i,
        {
            proof {
                assert(seq_dot_prefix(self@, other@, (i + 1) as nat) == seq_dot_prefix(
                    self@,
                    other@,
                    i as nat,
                ) + self@[i as int] * other@[i as int]);
                assert(i64::MIN <= seq_dot_prefix(self@, other@, (i + 1) as nat) <= i64::MAX);
            }
            acc = acc + self.0[i] * other.0[i];
            i += 1;
        }
        acc
    }
}

// The dot product, both operands only borrowed.
impl<'a, 'b, const D: usize> crate::ops::DotProduct<&'b Vec<D, i64>> for &'a Vec<D, i64> {
    type Output = i64;

    open spec fn dot_req(self, other: &'b Vec<D, i64>) -> bool {
        vec_dot_req(self@, other@)
    }

    open spec fn dot_spec(self, other: &'b Vec<D, i64>) -> i64 {
        seq_dot(self@, other@) as i64
    }

    fn dot(self, other: &'b Vec<D, i64>) -> (r: i64) {
        let mut acc = self.0[0] * other.0[0];
        let mut i: usize = 1;
        while i < D
            invariant
                1 <= i <= D,
                vec_dot_req(self@, other@),
                self@.len() == D,
                acc == seq_dot_prefix(self@, other@, i as nat),
            decreases D - i,
        {
            proof {
                assert(seq_dot_prefix(self@, other@, (i + 1) as nat) == seq_dot_prefix(
                    self@,
                    other@,
                    i as nat,
                ) + self@[i as int] * other@[i as int]);
                assert(i64::MIN <= seq_dot_prefix(self@, other@, (i + 1) as nat) <= i64::MAX);
            }
            acc = acc + self.0[i] * other.0[i];
            i += 1;
        }
        acc
    }
}

impl<const D: usize, T> vstd::std_specs::core::IndexSpecImpl<usize> for Vec<D, T> {
    open spec fn index_req(&self, index: &usize) -> bool {
        *index < D
    }
}

impl<const D: usize, T> core::ops::Index<usize> for Vec<D, T> {
    type Output = T;

    /// Read the element at `index` through the `[]` operator; same bounds and
    /// result as the `index` method.
    fn index(&self, index: usize) -> (r: &T)
        ensures
            *r == self@[index as int],
    {
        &self.0[index]
    }
}

} // verus!
