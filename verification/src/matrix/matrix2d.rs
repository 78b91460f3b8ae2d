//! Two-by-two matrices: the base case of cofactor expansion.

use vstd::prelude::*;
use crate::fixed::Fixed;

verus! {

/// The two-by-two determinant with the same operation order as the
/// executable code: `e00*e11 - e01*e10`.
pub open spec fn det2_formula(e00: Fixed, e01: Fixed, e10: Fixed, e11: Fixed) -> Fixed {
    e00.spec_mul(e11).spec_sub(e01.spec_mul(e10))
}

#[derive(Clone, Copy, Debug)]
pub struct Matrix2D {
    pub data: [[Fixed; 2]; 2],
}

impl Matrix2D {
    /// The entry in row `i`, column `j`.
    pub open spec fn at(self, i: int, j: int) -> Fixed {
        self.data[i][j]
    }

    pub open spec fn spec_det(self) -> Fixed {
        det2_formula(self.at(0, 0), self.at(0, 1), self.at(1, 0), self.at(1, 1))
    }

    pub fn new(data: [[Fixed; 2]; 2]) -> (r: Matrix2D)
        ensures
            r.data == data,
    {
        Matrix2D { data }
    }

    pub fn identity() -> (r: Matrix2D)
        ensures
            forall|i: int, j: int|
                0 <= i < 2 && 0 <= j < 2 ==> r.at(i, j) == (Fixed {
                    raw: if i == j { crate::fixed::SCALE } else { 0 },
                }),
    {
        let o = Fixed::one();
        let z = Fixed::zero();
        Matrix2D { data: [[o, z], [z, o]] }
    }

    pub fn transpose(&self) -> (r: Matrix2D)
        ensures
            forall|i: int, j: int| 0 <= i < 2 && 0 <= j < 2 ==> r.at(i, j) == self.at(j, i),
    {
        Matrix2D { data: [[self.data[0][0], self.data[1][0]], [self.data[0][1], self.data[1][1]]] }
    }

    pub fn det(&self) -> (r: Fixed)
        ensures
            r == self.spec_det(),
    {
        self.data[0][0].mul(self.data[1][1]).sub(self.data[0][1].mul(self.data[1][0]))
    }
}

impl PartialEq for Matrix2D {
    fn eq(&self, o: &Matrix2D) -> (r: bool) {
        self.data[0][0] == o.data[0][0] && self.data[0][1] == o.data[0][1]
            && self.data[1][0] == o.data[1][0] && self.data[1][1] == o.data[1][1]
    }
}

impl vstd::std_specs::cmp::PartialEqSpecImpl for Matrix2D {
    open spec fn obeys_eq_spec() -> bool {
        true
    }

    open spec fn eq_spec(&self, o: &Matrix2D) -> bool {
        self.at(0, 0) == o.at(0, 0) && self.at(0, 1) == o.at(0, 1)
            && self.at(1, 0) == o.at(1, 0) && self.at(1, 1) == o.at(1, 1)
    }
}

} // verus!
