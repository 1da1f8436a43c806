//! A generic matrix type with compile-time dimensionality.
//!
//! A matrix is an ordered array of row vectors; both the row count and the
//! column count are part of the type, so addition of matrices of different
//! shapes is rejected by the type checker. Addition delegates row-wise to
//! vector addition.

use crate::vector::arr_from_seq;
use crate::vector::lemma_arr_from_seq_view;
use crate::vector::seq_add;
use crate::vector::vec_add_req;
use crate::vector::Vec;
use vstd::prelude::*;

verus! {

broadcast use vstd::array::group_array_axioms;

/// A fixed-shape matrix: `ROW` rows, each a `Vec<COL, T>`.
///
/// The row array is public; `m.0[r]` and the `index` method read the same
/// storage.
#[derive(Clone, Copy, Debug, PartialEq, Eq)]
#[verifier::ext_equal]
pub struct Mat<const ROW: usize, const COL: usize, T>(pub [Vec<COL, T>; ROW]);

impl<const ROW: usize, const COL: usize, T> View for Mat<ROW, COL, T> {
    type V = Seq<Seq<T>>;

    open spec fn view(&self) -> Seq<Seq<T>> {
        Seq::new(ROW as nat, |r: int| self.0@[r]@)
    }
}

/// When element-wise addition of two `i64` matrices with these views is
/// defined: at least one row, and addition defined row-wise.
pub open spec fn mat_add_req(a: Seq<Seq<i64>>, b: Seq<Seq<i64>>) -> bool {
    &&& a.len() >= 1
    &&& forall|r: int| #![trigger a[r], b[r]] 0 <= r < a.len() ==> vec_add_req(a[r], b[r])
}

/// The row array of the element-wise sum of two matrices with these views.
pub open spec fn mat_add_rows<const ROW: usize, const COL: usize>(
    a: Seq<Seq<i64>>,
    b: Seq<Seq<i64>>,
) -> [Vec<COL, i64>; ROW] {
    arr_from_seq(Seq::new(ROW as nat, |r: int| Vec(arr_from_seq(seq_add(a[r], b[r])))))
}

impl<const ROW: usize, const COL: usize, T> Mat<ROW, COL, T> {
    /// Read the row at `index`.
    ///
    /// Indexing at or past `ROW` is excluded by the precondition; no call
    /// that verifies can reach the bounds failure.
    pub fn index(&self, index: usize) -> (r: &Vec<COL, T>)
        requires
            index < ROW,
        ensures
            r@ == self@[index as int],
    {
        &self.0[index]
    }

    /// Replace the row at `index`.
    pub fn set_row(&mut self, index: usize, row: Vec<COL, T>)
        requires
            index < ROW,
        ensures
            final(self)@ =~= old(self)@.update(index as int, row@),
    {
        self.0[index] = row;
    }

    /// Read the element in row `row`, column `col`, by delegating to the row
    /// vector's positional index.
    pub fn at(&self, row: usize, col: usize) -> (v: &T)
        requires
            row < ROW,
            col < COL,
        ensures
            *v == self@[row as int][col as int],
    {
        &self.0[row].0[col]
    }

    /// Replace the element in row `row`, column `col`.
    pub fn set_at(&mut self, row: usize, col: usize, v: T)
        requires
            row < ROW,
            col < COL,
        ensures
            final(self)@ =~= old(self)@.update(
                row as int,
                old(self)@[row as int].update(col as int, v),
            ),
    {
        self.0[row].0[col] = v;
    }
}

// Addition, for each of the four ownership combinations. Each row of the
// result is the vector sum of the operands' rows at the same index.
impl<const ROW: usize, const COL: usize> vstd::std_specs::ops::AddSpecImpl<Mat<ROW, COL, i64>> for Mat<ROW, COL, i64> {
    open spec fn obeys_add_spec() -> bool {
        true
    }

    open spec fn add_req(self, rhs: Mat<ROW, COL, i64>) -> bool {
        mat_add_req(self@, rhs@)
    }

    open spec fn add_spec(self, rhs: Mat<ROW, COL, i64>) -> Mat<ROW, COL, i64> {
        Mat(mat_add_rows(self@, rhs@))
    }
}

impl<const ROW: usize, const COL: usize> core::ops::Add<Mat<ROW, COL, i64>> for Mat<ROW, COL, i64> {
    type Output = Mat<ROW, COL, i64>;

    /// Element-wise addition of two matrices of the same shape, both operands
    /// consumed; each result row is the vector sum of the operand rows.
    fn add(self, rhs: Mat<ROW, COL, i64>) -> (out: Mat<ROW, COL, i64>)
        ensures
            forall|r: int| 0 <= r < ROW ==> #[trigger] out@[r] == seq_add(self@[r], rhs@[r]),
    {
        proof {
            assert(vec_add_req(self@[0], rhs@[0]));
            assert(self@[0] == self.0@[0]@);
            assert(rhs@[0] == rhs.0@[0]@);
        }
        let first = self.0[0] + rhs.0[0];
        let mut rows: [Vec<COL, i64>; ROW] = [first; ROW];
        let mut i: usize = 1;
        while i < ROW
            invariant
                1 <= i <= ROW,
                mat_add_req(self@, rhs@),
                forall|j: int|
                    0 <= j < i ==> #[trigger] rows@[j] == (Vec(
                        arr_from_seq::<i64, COL>(seq_add(self@[j], rhs@[j])),
                    )),
            decreases ROW - i,
        {
            proof {
                assert(vec_add_req(self@[i as int], rhs@[i as int]));
                assert(self@[i as int] == self.0@[i as int]@);
                assert(rhs@[i as int] == rhs.0@[i as int]@);
            }
            rows[i] = self.0[i] + rhs.0[i];
            proof {
                lemma_arr_from_seq_view::<i64, COL>(seq_add(self@[i as int], rhs@[i as int]));
                assert(rows@[i as int]@ =~= seq_add(self@[i as int], rhs@[i as int]));
                assert(rows@[i as int] =~= (Vec(
                    arr_from_seq::<i64, COL>(seq_add(self@[i as int], rhs@[i as int])),
                )));
            }
            i += 1;
        }
        proof {
            lemma_arr_from_seq_view::<i64, COL>(seq_add(self@[0], rhs@[0]));
            assert(rows@[0]@ =~= seq_add(self@[0], rhs@[0]));
            assert(rows@[0] =~= (Vec(arr_from_seq::<i64, COL>(seq_add(self@[0], rhs@[0])))));
            lemma_arr_from_seq_view::<Vec<COL, i64>, ROW>(
                Seq::new(ROW as nat, |r: int| Vec(arr_from_seq(seq_add(self@[r], rhs@[r])))),
            );
            assert(rows =~= mat_add_rows::<ROW, COL>(self@, rhs@));
            assert forall|r: int| 0 <= r < ROW implies rows@[r]@ == seq_add(
                self@[r],
                rhs@[r],
            ) by {
                assert(self@[r] == self.0@[r]@);
                lemma_arr_from_seq_view::<i64, COL>(seq_add(self@[r], rhs@[r]));
            }
        }
        Mat(rows)
    }
}

impl<'a, const ROW: usize, const COL: usize> vstd::std_specs::ops::AddSpecImpl<&'a Mat<ROW, COL, i64>> for Mat<ROW, COL, i64> {
    open spec fn obeys_add_spec() -> bool {
        true
    }

    open spec fn add_req(self, rhs: &'a Mat<ROW, COL, i64>) -> bool {
        mat_add_req(self@, rhs@)
    }

    open spec fn add_spec(self, rhs: &'a Mat<ROW, COL, i64>) -> Mat<ROW, COL, i64> {
        Mat(mat_add_rows(self@, rhs@))
    }
}

impl<'a, const ROW: usize, const COL: usize> core::ops::Add<&'a Mat<ROW, COL, i64>> for Mat<ROW, COL, i64> {
    type Output = Mat<ROW, COL, i64>;

    /// Element-wise addition of two matrices of the same shape, the right operand only borrowed;
    /// each result row is the vector sum of the operand rows.
    fn add(self, rhs: &'a Mat<ROW, COL, i64>) -> (out: Mat<ROW, COL, i64>)
        ensures
            forall|r: int| 0 <= r < ROW ==> #[trigger] out@[r] == seq_add(self@[r], rhs@[r]),
    {
        proof {
            assert(vec_add_req(self@[0], rhs@[0]));
            assert(self@[0] == self.0@[0]@);
            assert(rhs@[0] == rhs.0@[0]@);
        }
        let first = self.0[0] + rhs.0[0];
        let mut rows: [Vec<COL, i64>; ROW] = [first; ROW];
        let mut i: usize = 1;
        while i < ROW
            invariant
                1 <= i <= ROW,
                mat_add_req(self@, rhs@),
                forall|j: int|
                    0 <= j < i ==> #[trigger] rows@[j] == (Vec(
                        arr_from_seq::<i64, COL>(seq_add(self@[j], rhs@[j])),
                    )),
            decreases ROW - i,
        {
            proof {
                assert(vec_add_req(self@[i as int], rhs@[i as int]));
                assert(self@[i as int] == self.0@[i as int]@);
                assert(rhs@[i as int] == rhs.0@[i as int]@);
            }
            rows[i] = self.0[i] + rhs.0[i];
            proof {
                lemma_arr_from_seq_view::<i64, COL>(seq_add(self@[i as int], rhs@[i as int]));
                assert(rows@[i as int]@ =~= seq_add(self@[i as int], rhs@[i as int]));
                assert(rows@[i as int] =~= (Vec(
                    arr_from_seq::<i64, COL>(seq_add(self@[i as int], rhs@[i as int])),
                )));
            }
            i += 1;
        }
        proof {
            lemma_arr_from_seq_view::<i64, COL>(seq_add(self@[0], rhs@[0]));
            assert(rows@[0]@ =~= seq_add(self@[0], rhs@[0]));
            assert(rows@[0] =~= (Vec(arr_from_seq::<i64, COL>(seq_add(self@[0], rhs@[0])))));
            lemma_arr_from_seq_view::<Vec<COL, i64>, ROW>(
                Seq::new(ROW as nat, |r: int| Vec(arr_from_seq(seq_add(self@[r], rhs@[r])))),
            );
            assert(rows =~= mat_add_rows::<ROW, COL>(self@, rhs@));
            assert forall|r: int| 0 <= r < ROW implies rows@[r]@ == seq_add(
                self@[r],
                rhs@[r],
            ) by {
                assert(self@[r] == self.0@[r]@);
                lemma_arr_from_seq_view::<i64, COL>(seq_add(self@[r], rhs@[r]));
            }
        }
        Mat(rows)
    }
}

impl<'a, const ROW: usize, const COL: usize> vstd::std_specs::ops::AddSpecImpl<Mat<ROW, COL, i64>> for &'a Mat<ROW, COL, i64> {
    open spec fn obeys_add_spec() -> bool {
        true
    }

    open spec fn add_req(self, rhs: Mat<ROW, COL, i64>) -> bool {
        mat_add_req(self@, rhs@)
    }

    open spec fn add_spec(self, rhs: Mat<ROW, COL, i64>) -> Mat<ROW, COL, i64> {
        Mat(mat_add_rows(self@, rhs@))
    }
}

impl<'a, const ROW: usize, const COL: usize> core::ops::Add<Mat<ROW, COL, i64>> for &'a Mat<ROW, COL, i64> {
    type Output = Mat<ROW, COL, i64>;

    /// Element-wise addition of two matrices of the same shape, the left operand only borrowed;
    /// each result row is the vector sum of the operand rows.
    fn add(self, rhs: Mat<ROW, COL, i64>) -> (out: Mat<ROW, COL, i64>)
        ensures
            forall|r: int| 0 <= r < ROW ==> #[trigger] out@[r] == seq_add(self@[r], rhs@[r]),
    {
        proof {
            assert(vec_add_req(self@[0], rhs@[0]));
            assert(self@[0] == self.0@[0]@);
            assert(rhs@[0] == rhs.0@[0]@);
        }
        let first = self.0[0] + rhs.0[0];
        let mut rows: [Vec<COL, i64>; ROW] = [first; ROW];
        let mut i: usize = 1;
        while i < ROW
            invariant
                1 <= i <= ROW,
                mat_add_req(self@, rhs@),
                forall|j: int|
                    0 <= j < i ==> #[trigger] rows@[j] == (Vec(
                        arr_from_seq::<i64, COL>(seq_add(self@[j], rhs@[j])),
                    )),
            decreases ROW - i,
        {
            proof {
                assert(vec_add_req(self@[i as int], rhs@[i as int]));
                assert(self@[i as int] == self.0@[i as int]@);
                assert(rhs@[i as int] == rhs.0@[i as int]@);
            }
            rows[i] = self.0[i] + rhs.0[i];
            proof {
                lemma_arr_from_seq_view::<i64, COL>(seq_add(self@[i as int], rhs@[i as int]));
                assert(rows@[i as int]@ =~= seq_add(self@[i as int], rhs@[i as int]));
                assert(rows@[i as int] =~= (Vec(
                    arr_from_seq::<i64, COL>(seq_add(self@[i as int], rhs@[i as int])),
                )));
            }
            i += 1;
        }
        proof {
            lemma_arr_from_seq_view::<i64, COL>(seq_add(self@[0], rhs@[0]));
            assert(rows@[0]@ =~= seq_add(self@[0], rhs@[0]));
            assert(rows@[0] =~= (Vec(arr_from_seq::<i64, COL>(seq_add(self@[0], rhs@[0])))));
            lemma_arr_from_seq_view::<Vec<COL, i64>, ROW>(
                Seq::new(ROW as nat, |r: int| Vec(arr_from_seq(seq_add(self@[r], rhs@[r])))),
            );
            assert(rows =~= mat_add_rows::<ROW, COL>(self@, rhs@));
            assert forall|r: int| 0 <= r < ROW implies rows@[r]@ == seq_add(
                self@[r],
                rhs@[r],
            ) by {
                assert(self@[r] == self.0@[r]@);
                lemma_arr_from_seq_view::<i64, COL>(seq_add(self@[r], rhs@[r]));
            }
        }
        Mat(rows)
    }
}

impl<'a, 'b, const ROW: usize, const COL: usize> vstd::std_specs::ops::AddSpecImpl<&'b Mat<ROW, COL, i64>> for &'a Mat<ROW, COL, i64> {
    open spec fn obeys_add_spec() -> bool {
        true
    }

    open spec fn add_req(self, rhs: &'b Mat<ROW, COL, i64>) -> bool {
        mat_add_req(self@, rhs@)
    }

    open spec fn add_spec(self, rhs: &'b Mat<ROW, COL, i64>) -> Mat<ROW, COL, i64> {
        Mat(mat_add_rows(self@, rhs@))
    }
}

impl<'a, 'b, const ROW: usize, const COL: usize> core::ops::Add<&'b Mat<ROW, COL, i64>> for &'a Mat<ROW, COL, i64> {
    type Output = Mat<ROW, COL, i64>;

    /// Element-wise addition of two matrices of the same shape, both operands only borrowed;
    /// each result row is the vector sum of the operand rows.
    fn add(self, rhs: &'b Mat<ROW, COL, i64>) -> (out: Mat<ROW, COL, i64>)
        ensures
            forall|r: int| 0 <= r < ROW ==> #[trigger] out@[r] == seq_add(self@[r], rhs@[r]),
    {
        proof {
            assert(vec_add_req(self@[0], rhs@[0]));
            assert(self@[0] == self.0@[0]@);
            assert(rhs@[0] == rhs.0@[0]@);
        }
        let first = self.0[0] + rhs.0[0];
        let mut rows: [Vec<COL, i64>; ROW] = [first; ROW];
        let mut i: usize = 1;
        while i < ROW
            invariant
                1 <= i <= ROW,
                mat_add_req(self@, rhs@),
                forall|j: int|
                    0 <= j < i ==> #[trigger] rows@[j] == (Vec(
                        arr_from_seq::<i64, COL>(seq_add(self@[j], rhs@[j])),
                    )),
            decreases ROW - i,
        {
            proof {
                assert(vec_add_req(self@[i as int], rhs@[i as int]));
                assert(self@[i as int] == self.0@[i as int]@);
                assert(rhs@[i as int] == rhs.0@[i as int]@);
            }
            rows[i] = self.0[i] + rhs.0[i];
            proof {
                lemma_arr_from_seq_view::<i64, COL>(seq_add(self@[i as int], rhs@[i as int]));
                assert(rows@[i as int]@ =~= seq_add(self@[i as int], rhs@[i as int]));
                assert(rows@[i as int] =~= (Vec(
                    arr_from_seq::<i64, COL>(seq_add(self@[i as int], rhs@[i as int])),
                )));
            }
            i += 1;
        }
        proof {
            lemma_arr_from_seq_view::<i64, COL>(seq_add(self@[0], rhs@[0]));
            assert(rows@[0]@ =~= seq_add(self@[0], rhs@[0]));
            assert(rows@[0] =~= (Vec(arr_from_seq::<i64, COL>(seq_add(self@[0], rhs@[0])))));
            lemma_arr_from_seq_view::<Vec<COL, i64>, ROW>(
                Seq::new(ROW as nat, |r: int| Vec(arr_from_seq(seq_add(self@[r], rhs@[r])))),
            );
            assert(rows =~= mat_add_rows::<ROW, COL>(self@, rhs@));
            assert forall|r: int| 0 <= r < ROW implies rows@[r]@ == seq_add(
                self@[r],
                rhs@[r],
            ) by {
                assert(self@[r] == self.0@[r]@);
                lemma_arr_from_seq_view::<i64, COL>(seq_add(self@[r], rhs@[r]));
            }
        }
        Mat(rows)
    }
}

impl<const ROW: usize, const COL: usize, T> vstd::std_specs::core::IndexSpecImpl<usize> for Mat<ROW, COL, T> {
    open spec fn index_req(&self, index: &usize) -> bool {
        *index < ROW
    }
}

impl<const ROW: usize, const COL: usize, T> core::ops::Index<usize> for Mat<ROW, COL, T> {
    type Output = Vec<COL, T>;

    /// Read the row at `index` through the `[]` operator; same bounds and
    /// result as the `index` method.
    fn index(&self, index: usize) -> (r: &Vec<COL, T>)
        ensures
            r@ == self@[index as int],
    {
        &self.0[index]
    }
}

} // verus!

