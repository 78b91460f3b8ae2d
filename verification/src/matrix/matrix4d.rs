//! Four-by-four matrices: the affine transforms of the renderer, with
//! determinants by cofactor expansion and inversion via the adjugate.

use vstd::prelude::*;
use crate::fixed::Fixed;
use crate::matrix::matrix3d::{det3_formula, skip_index, spec_skip_index, Matrix3D};
use crate::point::Point;
use crate::tuple::Tuple;
use crate::vector::Vector;

verus! {

/// The entry of the identity matrix.
pub open spec fn spec_identity_at(i: int, j: int) -> Fixed {
    Fixed { raw: if i == j { crate::fixed::SCALE } else { 0 } }
}

#[derive(Clone, Copy, Debug)]
pub struct Matrix4D {
    pub data: [[Fixed; 4]; 4],
}

impl Matrix4D {
    /// The entry in row `i`, column `j`.
    pub open spec fn at(self, i: int, j: int) -> Fixed {
        self.data[i][j]
    }

    /// The entry of the submatrix skipping row `rs` and column `cs`.
    pub open spec fn spec_submatrix_at(self, rs: int, cs: int, i: int, j: int) -> Fixed {
        self.at(spec_skip_index(i, rs), spec_skip_index(j, cs))
    }

    /// The determinant of the submatrix skipping row `rs` and column `cs`.
    pub open spec fn spec_minor(self, rs: int, cs: int) -> Fixed {
        det3_formula(
            self.spec_submatrix_at(rs, cs, 0, 0),
            self.spec_submatrix_at(rs, cs, 0, 1),
            self.spec_submatrix_at(rs, cs, 0, 2),
            self.spec_submatrix_at(rs, cs, 1, 0),
            self.spec_submatrix_at(rs, cs, 1, 1),
            self.spec_submatrix_at(rs, cs, 1, 2),
            self.spec_submatrix_at(rs, cs, 2, 0),
            self.spec_submatrix_at(rs, cs, 2, 1),
            self.spec_submatrix_at(rs, cs, 2, 2),
        )
    }

    /// The signed minor.
    pub open spec fn spec_cofactor(self, rs: int, cs: int) -> Fixed {
        if (rs + cs) % 2 == 0 {
            self.spec_minor(rs, cs)
        } else {
            self.spec_minor(rs, cs).spec_neg()
        }
    }

    /// The determinant, by cofactor expansion along the first row.
    pub open spec fn spec_det(self) -> Fixed {
        self.spec_cofactor(0, 0).spec_mul(self.at(0, 0))
            .spec_add(self.spec_cofactor(0, 1).spec_mul(self.at(0, 1)))
            .spec_add(self.spec_cofactor(0, 2).spec_mul(self.at(0, 2)))
            .spec_add(self.spec_cofactor(0, 3).spec_mul(self.at(0, 3)))
    }

    /// The entry of the inverse: the transposed cofactor divided by the
    /// determinant.
    pub open spec fn spec_inverse_at(self, i: int, j: int) -> Fixed {
        self.spec_cofactor(j, i).spec_div(self.spec_det())
    }

    /// One component of the inverse matrix applied to a tuple.
    pub open spec fn spec_inv_row_dot(self, i: int, t: Tuple) -> Fixed {
        self.spec_inverse_at(i, 0).spec_mul(t.x)
            .spec_add(self.spec_inverse_at(i, 1).spec_mul(t.y))
            .spec_add(self.spec_inverse_at(i, 2).spec_mul(t.z))
            .spec_add(self.spec_inverse_at(i, 3).spec_mul(t.w))
    }

    /// The inverse of this matrix applied to a homogeneous tuple.
    pub open spec fn spec_inverse_mul_tuple(self, t: Tuple) -> Tuple {
        Tuple {
            x: self.spec_inv_row_dot(0, t),
            y: self.spec_inv_row_dot(1, t),
            z: self.spec_inv_row_dot(2, t),
            w: self.spec_inv_row_dot(3, t),
        }
    }

    /// One component of the transposed inverse applied to a tuple.
    pub open spec fn spec_inv_transpose_row_dot(self, i: int, t: Tuple) -> Fixed {
        self.spec_inverse_at(0, i).spec_mul(t.x)
            .spec_add(self.spec_inverse_at(1, i).spec_mul(t.y))
            .spec_add(self.spec_inverse_at(2, i).spec_mul(t.z))
            .spec_add(self.spec_inverse_at(3, i).spec_mul(t.w))
    }

    /// The transpose of the inverse applied to a homogeneous tuple: the
    /// correct carrier for surface normals under non-uniform scale.
    pub open spec fn spec_inv_transpose_mul_tuple(self, t: Tuple) -> Tuple {
        Tuple {
            x: self.spec_inv_transpose_row_dot(0, t),
            y: self.spec_inv_transpose_row_dot(1, t),
            z: self.spec_inv_transpose_row_dot(2, t),
            w: self.spec_inv_transpose_row_dot(3, t),
        }
    }

    /// The product entry in row `i`, column `j`: the inner product of a row
    /// of `self` with a column of `rhs`, accumulated left to right.
    pub open spec fn spec_mul_entry(self, rhs: Matrix4D, i: int, j: int) -> Fixed {
        self.at(i, 0).spec_mul(rhs.at(0, j))
            .spec_add(self.at(i, 1).spec_mul(rhs.at(1, j)))
            .spec_add(self.at(i, 2).spec_mul(rhs.at(2, j)))
            .spec_add(self.at(i, 3).spec_mul(rhs.at(3, j)))
    }

    /// One component of a matrix-tuple product.
    pub open spec fn spec_row_dot(self, i: int, t: Tuple) -> Fixed {
        self.at(i, 0).spec_mul(t.x)
            .spec_add(self.at(i, 1).spec_mul(t.y))
            .spec_add(self.at(i, 2).spec_mul(t.z))
            .spec_add(self.at(i, 3).spec_mul(t.w))
    }

    /// The matrix applied to a homogeneous tuple.
    pub open spec fn spec_mul_tuple(self, t: Tuple) -> Tuple {
        Tuple {
            x: self.spec_row_dot(0, t),
            y: self.spec_row_dot(1, t),
            z: self.spec_row_dot(2, t),
            w: self.spec_row_dot(3, t),
        }
    }

    pub fn new(data: [[Fixed; 4]; 4]) -> (r: Matrix4D)
        ensures
            r.data == data,
    {
        Matrix4D { data }
    }

    pub fn identity() -> (r: Matrix4D)
        ensures
            forall|i: int, j: int| 0 <= i < 4 && 0 <= j < 4 ==> r.at(i, j) == spec_identity_at(i, j),
    {
        let o = Fixed::one();
        let z = Fixed::zero();
        Matrix4D {
            data: [[o, z, z, z], [z, o, z, z], [z, z, o, z], [z, z, z, o]],
        }
    }

    pub fn transpose(&self) -> (r: Matrix4D)
        ensures
            forall|i: int, j: int| 0 <= i < 4 && 0 <= j < 4 ==> r.at(i, j) == self.at(j, i),
    {
        Matrix4D {
            data: [
                [self.data[0][0], self.data[1][0], self.data[2][0], self.data[3][0]],
                [self.data[0][1], self.data[1][1], self.data[2][1], self.data[3][1]],
                [self.data[0][2], self.data[1][2], self.data[2][2], self.data[3][2]],
                [self.data[0][3], self.data[1][3], self.data[2][3], self.data[3][3]],
            ],
        }
    }

    pub fn submatrix(&self, row_idx_skip: usize, col_idx_skip: usize) -> (r: Matrix3D)
        requires
            row_idx_skip < 4,
            col_idx_skip < 4,
        ensures
            forall|i: int, j: int|
                0 <= i < 3 && 0 <= j < 3 ==> r.at(i, j) == self.spec_submatrix_at(
                    row_idx_skip as int,
                    col_idx_skip as int,
                    i,
                    j,
                ),
    {
        let r0 = skip_index(0, row_idx_skip);
        let r1 = skip_index(1, row_idx_skip);
        let r2 = skip_index(2, row_idx_skip);
        let c0 = skip_index(0, col_idx_skip);
        let c1 = skip_index(1, col_idx_skip);
        let c2 = skip_index(2, col_idx_skip);
        Matrix3D {
            data: [
                [self.data[r0][c0], self.data[r0][c1], self.data[r0][c2]],
                [self.data[r1][c0], self.data[r1][c1], self.data[r1][c2]],
                [self.data[r2][c0], self.data[r2][c1], self.data[r2][c2]],
            ],
        }
    }

    pub fn minor(&self, row_idx: usize, col_idx: usize) -> (r: Fixed)
        requires
            row_idx < 4,
            col_idx < 4,
        ensures
            r == self.spec_minor(row_idx as int, col_idx as int),
    {
        let submatrix = self.submatrix(row_idx, col_idx);
        submatrix.det()
    }

    pub fn cofactor(&self, row_idx: usize, col_idx: usize) -> (r: Fixed)
        requires
            row_idx < 4,
            col_idx < 4,
        ensures
            r == self.spec_cofactor(row_idx as int, col_idx as int),
    {
        let minor_value = self.minor(row_idx, col_idx);
        if (row_idx + col_idx) % 2 == 0 {
            minor_value
        } else {
            minor_value.neg()
        }
    }

    pub fn det(&self) -> (r: Fixed)
        ensures
            r == self.spec_det(),
    {
        let c0 = self.cofactor(0, 0);
        let c1 = self.cofactor(0, 1);
        let c2 = self.cofactor(0, 2);
        let c3 = self.cofactor(0, 3);
        c0.mul(self.data[0][0])
            .add(c1.mul(self.data[0][1]))
            .add(c2.mul(self.data[0][2]))
            .add(c3.mul(self.data[0][3]))
    }

    /// A matrix is invertible exactly when its determinant is non-zero.
    pub fn is_invertible(&self) -> (r: bool)
        ensures
            r == (self.spec_det().raw != 0),
    {
        let d = self.det();
        d.raw != 0
    }

    /// The inverse by the adjugate: `None` exactly on a singular matrix.
    pub fn inverse(&self) -> (r: Option<Matrix4D>)
        ensures
            r.is_some() == (self.spec_det().raw != 0),
            r matches Some(m) ==> forall|i: int, j: int|
                0 <= i < 4 && 0 <= j < 4 ==> m.at(i, j) == self.spec_inverse_at(i, j),
    {
        if !self.is_invertible() {
            return None;
        }

        let det = self.det();
        let mut rows: [[Fixed; 4]; 4] = [[Fixed::zero(); 4]; 4];
        let mut row_idx: usize = 0;
        while row_idx < 4
            invariant
                row_idx <= 4,
                det == self.spec_det(),
                forall|a: int, b: int|
                    0 <= b < row_idx && 0 <= a < 4 ==> rows[a][b] == self.spec_inverse_at(a, b),
            decreases 4 - row_idx,
        {
            let mut col_idx: usize = 0;
            while col_idx < 4
                invariant
                    row_idx < 4,
                    col_idx <= 4,
                    det == self.spec_det(),
                    forall|a: int, b: int|
                        0 <= b < row_idx && 0 <= a < 4 ==> rows[a][b] == self.spec_inverse_at(a, b),
                    forall|a: int|
                        0 <= a < col_idx ==> rows[a][row_idx as int] == self.spec_inverse_at(
                            a,
                            row_idx as int,
                        ),
                decreases 4 - col_idx,
            {
                let c = self.cofactor(row_idx, col_idx);
                rows[col_idx][row_idx] = c.div(det);
                col_idx += 1;
            }
            row_idx += 1;
        }
        Some(Matrix4D { data: rows })
    }

    pub fn mul(&self, rhs: &Matrix4D) -> (r: Matrix4D)
        ensures
            forall|i: int, j: int|
                0 <= i < 4 && 0 <= j < 4 ==> r.at(i, j) == self.spec_mul_entry(*rhs, i, j),
    {
        let mut rows: [[Fixed; 4]; 4] = [[Fixed::zero(); 4]; 4];
        let mut i: usize = 0;
        while i < 4
            invariant
                i <= 4,
                forall|a: int, b: int|
                    0 <= a < i && 0 <= b < 4 ==> rows[a][b] == self.spec_mul_entry(*rhs, a, b),
            decreases 4 - i,
        {
            let mut j: usize = 0;
            while j < 4
                invariant
                    i < 4,
                    j <= 4,
                    forall|a: int, b: int|
                        0 <= a < i && 0 <= b < 4 ==> rows[a][b] == self.spec_mul_entry(*rhs, a, b),
                    forall|b: int|
                        0 <= b < j ==> rows[i as int][b] == self.spec_mul_entry(*rhs, i as int, b),
                decreases 4 - j,
            {
                let v = self.data[i][0].mul(rhs.data[0][j])
                    .add(self.data[i][1].mul(rhs.data[1][j]))
                    .add(self.data[i][2].mul(rhs.data[2][j]))
                    .add(self.data[i][3].mul(rhs.data[3][j]));
                rows[i][j] = v;
                j += 1;
            }
            i += 1;
        }
        Matrix4D { data: rows }
    }

    pub fn mul_tuple(&self, t: Tuple) -> (r: Tuple)
        ensures
            r == self.spec_mul_tuple(t),
    {
        let x = self.data[0][0].mul(t.x)
            .add(self.data[0][1].mul(t.y))
            .add(self.data[0][2].mul(t.z))
            .add(self.data[0][3].mul(t.w));
        let y = self.data[1][0].mul(t.x)
            .add(self.data[1][1].mul(t.y))
            .add(self.data[1][2].mul(t.z))
            .add(self.data[1][3].mul(t.w));
        let z = self.data[2][0].mul(t.x)
            .add(self.data[2][1].mul(t.y))
            .add(self.data[2][2].mul(t.z))
            .add(self.data[2][3].mul(t.w));
        let w = self.data[3][0].mul(t.x)
            .add(self.data[3][1].mul(t.y))
            .add(self.data[3][2].mul(t.z))
            .add(self.data[3][3].mul(t.w));
        Tuple { x, y, z, w }
    }

    pub fn mul_point(&self, p: Point) -> (r: Point)
        ensures
            r.tuple == self.spec_mul_tuple(p.tuple),
    {
        Point { tuple: self.mul_tuple(p.tuple) }
    }

    pub fn mul_vector(&self, v: Vector) -> (r: Vector)
        ensures
            r.tuple == self.spec_mul_tuple(v.tuple),
    {
        Vector { tuple: self.mul_tuple(v.tuple) }
    }
}

impl PartialEq for Matrix4D {
    fn eq(&self, o: &Matrix4D) -> (r: bool) {
        self.data[0][0] == o.data[0][0] && self.data[0][1] == o.data[0][1]
            && self.data[0][2] == o.data[0][2] && self.data[0][3] == o.data[0][3]
            && self.data[1][0] == o.data[1][0] && self.data[1][1] == o.data[1][1]
            && self.data[1][2] == o.data[1][2] && self.data[1][3] == o.data[1][3]
            && self.data[2][0] == o.data[2][0] && self.data[2][1] == o.data[2][1]
            && self.data[2][2] == o.data[2][2] && self.data[2][3] == o.data[2][3]
            && self.data[3][0] == o.data[3][0] && self.data[3][1] == o.data[3][1]
            && self.data[3][2] == o.data[3][2] && self.data[3][3] == o.data[3][3]
    }
}

impl vstd::std_specs::cmp::PartialEqSpecImpl for Matrix4D {
    open spec fn obeys_eq_spec() -> bool {
        true
    }

    open spec fn eq_spec(&self, o: &Matrix4D) -> bool {
        self.at(0, 0) == o.at(0, 0) && self.at(0, 1) == o.at(0, 1) && self.at(0, 2) == o.at(0, 2)
            && self.at(0, 3) == o.at(0, 3) && self.at(1, 0) == o.at(1, 0)
            && self.at(1, 1) == o.at(1, 1) && self.at(1, 2) == o.at(1, 2)
            && self.at(1, 3) == o.at(1, 3) && self.at(2, 0) == o.at(2, 0)
            && self.at(2, 1) == o.at(2, 1) && self.at(2, 2) == o.at(2, 2)
            && self.at(2, 3) == o.at(2, 3) && self.at(3, 0) == o.at(3, 0)
            && self.at(3, 1) == o.at(3, 1) && self.at(3, 2) == o.at(3, 2)
            && self.at(3, 3) == o.at(3, 3)
    }
}

} // verus!

use crate::matrix::matrix2d::det2_formula;

verus! {

/// The identity transform has a unit determinant, so it is invertible.
#[verifier::rlimit(100)]
pub proof fn lemma_identity_det(m: Matrix4D)
    requires
        forall|i: int, j: int| 0 <= i < 4 && 0 <= j < 4 ==> #[trigger] m.at(i, j)
            == spec_identity_at(i, j),
    ensures
        m.spec_det().raw == crate::fixed::SCALE,
{
    let s = crate::fixed::SCALE as int;
    assert(vstd::math::abs(s) as int == s);
    assert((s * s) / s == s) by (nonlinear_arith)
        requires s == 4294967296;
    assert(0int / s == 0) by (nonlinear_arith)
        requires s == 4294967296;
    assert(crate::fixed::fx_mul(s, s) == s);
    assert forall|x: int| #[trigger] crate::fixed::fx_mul(x, 0int) == 0 by {
        let a = vstd::math::abs(x) as int;
        assert(vstd::math::abs(0int) as int == 0);
        assert(a * 0 == 0) by (nonlinear_arith);
        assert(0int / s == 0) by (nonlinear_arith)
            requires s == 4294967296;
    }
    assert forall|x: int| #[trigger] crate::fixed::fx_mul(0int, x) == 0 by {
        let a = vstd::math::abs(x) as int;
        assert(vstd::math::abs(0int) as int == 0);
        assert(0 * a == 0) by (nonlinear_arith);
        assert(0int / s == 0) by (nonlinear_arith)
            requires s == 4294967296;
    }
    let one = Fixed { raw: crate::fixed::SCALE };
    let zero = Fixed { raw: 0 };
    assert(one.spec_mul(one) == one);
    assert forall|f: Fixed| #[trigger] f.spec_mul(zero) == zero by {
        assert(crate::fixed::fx_mul(f.v(), 0int) == 0);
    }
    assert forall|f: Fixed| #[trigger] zero.spec_mul(f) == zero by {
        assert(crate::fixed::fx_mul(0int, f.v()) == 0);
    }
    assert(m.at(0, 0) == one);
    assert(m.at(0, 1) == zero);
    assert(m.at(0, 2) == zero);
    assert(m.at(0, 3) == zero);
    assert(m.at(1, 0) == zero);
    assert(m.at(1, 1) == one);
    assert(m.at(1, 2) == zero);
    assert(m.at(1, 3) == zero);
    assert(m.at(2, 0) == zero);
    assert(m.at(2, 1) == zero);
    assert(m.at(2, 2) == one);
    assert(m.at(2, 3) == zero);
    assert(m.at(3, 0) == zero);
    assert(m.at(3, 1) == zero);
    assert(m.at(3, 2) == zero);
    assert(m.at(3, 3) == one);
    assert(det2_formula(one, zero, zero, one) == one);
    assert(det3_formula(one, zero, zero, zero, one, zero, zero, zero, one) == one);
    assert(m.spec_minor(0, 0) == one);
    assert(m.spec_cofactor(0, 0) == one);
    assert(m.spec_det() == one);
}

} // verus!
