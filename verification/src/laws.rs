//! General properties of the vector and matrix arithmetic, stated and proved
//! once over the views that the operator contracts use.

use crate::matrix::mat_add_req;
use crate::vector::div_i64;
use crate::vector::seq_add;
use crate::vector::seq_div_scalar;
use crate::vector::seq_mul_scalar;
use crate::vector::vec_add_req;
use crate::vector::vec_mul_req;
use crate::vector::Vec;
use vstd::prelude::*;

verus! {

broadcast use vstd::array::group_array_axioms;

/// Cross-combination consistency of addition: every ownership form of `+`
/// fixes its result view to `seq_add` of the operand views, and a vector
/// value is determined by its view, so any two results that any of the four
/// forms may return for equal operand views are equal.
pub proof fn lemma_add_forms_agree<const D: usize>(
    r1: Vec<D, i64>,
    r2: Vec<D, i64>,
    a: Seq<i64>,
    b: Seq<i64>,
)
    requires
        r1@ == seq_add(a, b),
        r2@ == seq_add(a, b),
    ensures
        r1 == r2,
{
    assert(r1.0 =~= r2.0);
    assert(r1 =~= r2);
}

/// Addition is commutative: combining element-wise in either order gives the
/// same view.
pub proof fn lemma_add_commutative(a: Seq<i64>, b: Seq<i64>)
    requires
        a.len() == b.len(),
    ensures
        seq_add(a, b) =~= seq_add(b, a),
{
}

/// Addition is associative, on operands whose pairwise element sums are in
/// range: grouping either way gives the same view.
pub proof fn lemma_add_associative(a: Seq<i64>, b: Seq<i64>, c: Seq<i64>)
    requires
        a.len() == b.len(),
        b.len() == c.len(),
        vec_add_req(a, b),
        vec_add_req(b, c),
    ensures
        seq_add(seq_add(a, b), c) =~= seq_add(a, seq_add(b, c)),
{
}

/// Dividing an exact multiple of `k` by `k` recovers the co-factor, for any
/// non-zero `k`, under the Euclidean division of the specification language.
proof fn lemma_exact_div(c: int, k: int)
    requires
        k != 0,
    ensures
        (c * k) / k == c,
{
    if k > 0 {
        vstd::arithmetic::div_mod::lemma_div_multiples_vanish(c, k);
        vstd::arithmetic::mul::lemma_mul_is_commutative(c, k);
    } else {
        assert((c * k) / k == c) by (nonlinear_arith)
            requires
                k < 0,
        ;
    }
}

/// Scalar round trip: multiplying every element by a non-zero scalar `k` and
/// dividing by `k` again returns the original elements, provided no product
/// leaves the element range.
pub proof fn lemma_scalar_round_trip(v: Seq<i64>, k: i64)
    requires
        k != 0,
        vec_mul_req(v, k),
    ensures
        seq_div_scalar(seq_mul_scalar(v, k), k) =~= v,
{
    assert forall|i: int| 0 <= i < v.len() implies seq_div_scalar(seq_mul_scalar(v, k), k)[i]
        == v[i] by {
        let m = seq_mul_scalar(v, k)[i];
        assert(m == v[i] * k);
        lemma_exact_div(v[i] as int, k as int);
        if m < 0 {
            assert(-(m as int) == (-(v[i] as int)) * k) by (nonlinear_arith)
                requires
                    m == v[i] * k,
            ;
            lemma_exact_div(-(v[i] as int), k as int);
            assert(div_i64(m, k) == v[i]);
        } else {
            assert(div_i64(m, k) == v[i]);
        }
    }
}

/// In-place equivalence of addition: the in-place form leaves its receiver
/// with the very view that the pure form returns, so the updated vector and
/// the pure sum are equal as values.
pub proof fn lemma_add_assign_matches_add<const D: usize>(
    updated: Vec<D, i64>,
    pure_sum: Vec<D, i64>,
    a_before: Seq<i64>,
    b: Seq<i64>,
)
    requires
        updated@ == seq_add(a_before, b),
        pure_sum@ == seq_add(a_before, b),
    ensures
        updated == pure_sum,
{
    lemma_add_forms_agree(updated, pure_sum, a_before, b);
}

/// Matrix addition is entry-wise: in a sum of two same-shape matrices, the
/// entry in row `r`, column `c` is the sum of the operands' entries there.
pub proof fn lemma_mat_add_entrywise(out: Seq<Seq<i64>>, a: Seq<Seq<i64>>, b: Seq<Seq<i64>>)
    requires
        a.len() == b.len(),
        out.len() == a.len(),
        forall|r: int| #![trigger b[r]] 0 <= r < a.len() ==> b[r].len() == a[r].len(),
        mat_add_req(a, b),
        forall|r: int| 0 <= r < out.len() ==> #[trigger] out[r] == seq_add(a[r], b[r]),
    ensures
        forall|r: int, c: int|
            0 <= r < a.len() && 0 <= c < a[r].len() ==> #[trigger] out[r][c] == a[r][c] + b[r][c],
{
}

} // verus!

