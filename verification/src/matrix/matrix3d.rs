//! Three-by-three matrices: submatrices, minors, cofactors and the
//! determinant by expansion along the first row.

use vstd::prelude::*;
use crate::fixed::Fixed;
use crate::matrix::matrix2d::{det2_formula, Matrix2D};

verus! {

/// The three-by-three determinant by cofactor expansion along the first row,
/// with the same operation order as the executable code.
pub open spec fn det3_formula(
    e00: Fixed, e01: Fixed, e02: Fixed,
    e10: Fixed, e11: Fixed, e12: Fixed,
    e20: Fixed, e21: Fixed, e22: Fixed,
) -> Fixed {
    let c0 = det2_formula(e11, e12, e21, e22);
    let c1 = det2_formula(e10, e12, e20, e22).spec_neg();
    let c2 = det2_formula(e10, e11, e20, e21);
    c0.spec_mul(e00).spec_add(c1.spec_mul(e01)).spec_add(c2.spec_mul(e02))
}

/// The row or column index of the parent matrix that lands at index `k` of a
/// submatrix skipping index `skip`.
pub open spec fn spec_skip_index(k: int, skip: int) -> int {
    if k < skip {
        k
    } else {
        k + 1
    }
}

/// Maps a submatrix index back to the parent index across a skipped row or column.
pub fn skip_index(k: usize, skip: usize) -> (r: usize)
    requires
        k < 16,
    ensures
        r == spec_skip_index(k as int, skip as int),
{
    if k < skip {
        k
    } else {
        k + 1
    }
}

#[derive(Clone, Copy, Debug)]
pub struct Matrix3D {
    pub data: [[Fixed; 3]; 3],
}

impl Matrix3D {
    /// The entry in row `i`, column `j`.
    pub open spec fn at(self, i: int, j: int) -> Fixed {
        self.data[i][j]
    }

    /// The entry of the submatrix skipping row `rs` and column `cs`.
    pub open spec fn spec_submatrix_at(self, rs: int, cs: int, i: int, j: int) -> Fixed {
        self.at(spec_skip_index(i, rs), spec_skip_index(j, cs))
    }

    /// The determinant of the submatrix skipping row `rs` and column `cs`.
    pub open spec fn spec_minor(self, rs: int, cs: int) -> Fixed {
        det2_formula(
            self.spec_submatrix_at(rs, cs, 0, 0),
            self.spec_submatrix_at(rs, cs, 0, 1),
            self.spec_submatrix_at(rs, cs, 1, 0),
            self.spec_submatrix_at(rs, cs, 1, 1),
        )
    }

    /// The signed minor.
    pub open spec fn spec_cofactor(self, rs: int, cs: int) -> Fixed {
        if (rs + cs) % 2 == 0 {
            self.spec_minor(rs, cs)
        } else {
            self.spec_minor(rs, cs).spec_neg()
        }
    }

    pub open spec fn spec_det(self) -> Fixed {
        det3_formula(
            self.at(0, 0), self.at(0, 1), self.at(0, 2),
            self.at(1, 0), self.at(1, 1), self.at(1, 2),
            self.at(2, 0), self.at(2, 1), self.at(2, 2),
        )
    }

    /// The product entry in row `i`, column `j`: the inner product of a row
    /// of `self` with a column of `rhs`, accumulated left to right.
    pub open spec fn spec_mul_entry(self, rhs: Matrix3D, i: int, j: int) -> Fixed {
        self.at(i, 0).spec_mul(rhs.at(0, j))
            .spec_add(self.at(i, 1).spec_mul(rhs.at(1, j)))
            .spec_add(self.at(i, 2).spec_mul(rhs.at(2, j)))
    }

    pub fn new(data: [[Fixed; 3]; 3]) -> (r: Matrix3D)
        ensures
            r.data == data,
    {
        Matrix3D { data }
    }

    pub fn identity() -> (r: Matrix3D)
        ensures
            forall|i: int, j: int|
                0 <= i < 3 && 0 <= j < 3 ==> r.at(i, j) == (Fixed {
                    raw: if i == j { crate::fixed::SCALE } else { 0 },
                }),
    {
        let o = Fixed::one();
        let z = Fixed::zero();
        Matrix3D { data: [[o, z, z], [z, o, z], [z, z, o]] }
    }

    pub fn transpose(&self) -> (r: Matrix3D)
        ensures
            forall|i: int, j: int| 0 <= i < 3 && 0 <= j < 3 ==> r.at(i, j) == self.at(j, i),
    {
        Matrix3D {
            data: [
                [self.data[0][0], self.data[1][0], self.data[2][0]],
                [self.data[0][1], self.data[1][1], self.data[2][1]],
                [self.data[0][2], self.data[1][2], self.data[2][2]],
            ],
        }
    }

    pub fn submatrix(&self, row_idx_skip: usize, col_idx_skip: usize) -> (r: Matrix2D)
        requires
            row_idx_skip < 3,
            col_idx_skip < 3,
        ensures
            forall|i: int, j: int|
                0 <= i < 2 && 0 <= j < 2 ==> r.at(i, j) == self.spec_submatrix_at(
                    row_idx_skip as int,
                    col_idx_skip as int,
                    i,
                    j,
                ),
    {
        let r0 = skip_index(0, row_idx_skip);
        let r1 = skip_index(1, row_idx_skip);
        let c0 = skip_index(0, col_idx_skip);
        let c1 = skip_index(1, col_idx_skip);
        Matrix2D {
            data: [
                [self.data[r0][c0], self.data[r0][c1]],
                [self.data[r1][c0], self.data[r1][c1]],
            ],
        }
    }

    pub fn minor(&self, row_idx: usize, col_idx: usize) -> (r: Fixed)
        requires
            row_idx < 3,
            col_idx < 3,
        ensures
            r == self.spec_minor(row_idx as int, col_idx as int),
    {
        let submatrix = self.submatrix(row_idx, col_idx);
        submatrix.det()
    }

    pub fn cofactor(&self, row_idx: usize, col_idx: usize) -> (r: Fixed)
        requires
            row_idx < 3,
            col_idx < 3,
        ensures
            r == self.spec_cofactor(row_idx as int, col_idx as int),
    {
        let minor_value = self.minor(row_idx, col_idx);
        if (row_idx + col_idx) % 2 == 0 {
            minor_value
        } else {
            minor_value.neg()
        }
    }

    pub fn det(&self) -> (r: Fixed)
        ensures
            r == self.spec_det(),
    {
        let c0 = self.cofactor(0, 0);
        let c1 = self.cofactor(0, 1);
        let c2 = self.cofactor(0, 2);
        c0.mul(self.data[0][0]).add(c1.mul(self.data[0][1])).add(c2.mul(self.data[0][2]))
    }

    pub fn mul(&self, rhs: &Matrix3D) -> (r: Matrix3D)
        ensures
            forall|i: int, j: int|
                0 <= i < 3 && 0 <= j < 3 ==> r.at(i, j) == self.spec_mul_entry(*rhs, i, j),
    {
        let mut rows: [[Fixed; 3]; 3] = [[Fixed::zero(); 3]; 3];
        let mut i: usize = 0;
        while i < 3
            invariant
                i <= 3,
                forall|a: int, b: int|
                    0 <= a < i && 0 <= b < 3 ==> rows[a][b] == self.spec_mul_entry(*rhs, a, b),
            decreases 3 - i,
        {
            let mut j: usize = 0;
            while j < 3
                invariant
                    i < 3,
                    j <= 3,
                    forall|a: int, b: int|
                        0 <= a < i && 0 <= b < 3 ==> rows[a][b] == self.spec_mul_entry(*rhs, a, b),
                    forall|b: int|
                        0 <= b < j ==> rows[i as int][b] == self.spec_mul_entry(*rhs, i as int, b),
                decreases 4 - j,
            {
                let v = self.data[i][0].mul(rhs.data[0][j])
                    .add(self.data[i][1].mul(rhs.data[1][j]))
                    .add(self.data[i][2].mul(rhs.data[2][j]));
                rows[i][j] = v;
                j += 1;
            }
            i += 1;
        }
        Matrix3D { data: rows }
    }
}

impl PartialEq for Matrix3D {
    fn eq(&self, o: &Matrix3D) -> (r: bool) {
        self.data[0][0] == o.data[0][0] && self.data[0][1] == o.data[0][1]
            && self.data[0][2] == o.data[0][2] && self.data[1][0] == o.data[1][0]
            && self.data[1][1] == o.data[1][1] && self.data[1][2] == o.data[1][2]
            && self.data[2][0] == o.data[2][0] && self.data[2][1] == o.data[2][1]
            && self.data[2][2] == o.data[2][2]
    }
}

impl vstd::std_specs::cmp::PartialEqSpecImpl for Matrix3D {
    open spec fn obeys_eq_spec() -> bool {
        true
    }

    open spec fn eq_spec(&self, o: &Matrix3D) -> bool {
        self.at(0, 0) == o.at(0, 0) && self.at(0, 1) == o.at(0, 1) && self.at(0, 2) == o.at(0, 2)
            && self.at(1, 0) == o.at(1, 0) && self.at(1, 1) == o.at(1, 1)
            && self.at(1, 2) == o.at(1, 2) && self.at(2, 0) == o.at(2, 0)
            && self.at(2, 1) == o.at(2, 1) && self.at(2, 2) == o.at(2, 2)
    }
}

} // verus!
