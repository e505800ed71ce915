//! A 4x4 transformation matrix of IEEE-754 binary32 scalars.
//!
//! Entries are stored row-major: field `mRC` is row `R`, column `C`.

use vstd::prelude::*;
use crate::scalar::ONE_BITS;
use crate::scalar::POS_ZERO_BITS;
use crate::scalar::NEG_ONE_BITS;
use crate::scalar::TWO_BITS;
use crate::scalar::add_bits;
use crate::scalar::sub_bits;
use crate::scalar::mul_bits;
use crate::scalar::div_bits;
use crate::scalar::neg_bits;
use crate::scalar::eq_bits;
use crate::scalar::is_finite_bits;
use crate::scalar::add32;
use crate::scalar::sub32;
use crate::scalar::mul32;
use crate::scalar::div32;
use crate::scalar::neg32;
use crate::vector::Vector3;

verus! {

/// A 4x4 grid of binary32 values, row-major, always fully populated; a
/// plain value that is copied freely.
#[derive(Clone, Copy)]
pub struct Matrix4 {
    pub m00: u32,
    pub m01: u32,
    pub m02: u32,
    pub m03: u32,
    pub m10: u32,
    pub m11: u32,
    pub m12: u32,
    pub m13: u32,
    pub m20: u32,
    pub m21: u32,
    pub m22: u32,
    pub m23: u32,
    pub m30: u32,
    pub m31: u32,
    pub m32: u32,
    pub m33: u32,
}

/// The identity matrix: one on the diagonal, positive zero elsewhere.
pub open spec fn identity_spec() -> Matrix4 {
    Matrix4 {
        m00: ONE_BITS,
        m01: POS_ZERO_BITS,
        m02: POS_ZERO_BITS,
        m03: POS_ZERO_BITS,
        m10: POS_ZERO_BITS,
        m11: ONE_BITS,
        m12: POS_ZERO_BITS,
        m13: POS_ZERO_BITS,
        m20: POS_ZERO_BITS,
        m21: POS_ZERO_BITS,
        m22: ONE_BITS,
        m23: POS_ZERO_BITS,
        m30: POS_ZERO_BITS,
        m31: POS_ZERO_BITS,
        m32: POS_ZERO_BITS,
        m33: ONE_BITS,
    }
}

/// One entry of a matrix product: the row of `a` against the column of
/// `b`, products summed left to right.
pub open spec fn row_dot_bits(
    a0: u32,
    a1: u32,
    a2: u32,
    a3: u32,
    b0: u32,
    b1: u32,
    b2: u32,
    b3: u32,
) -> u32 {
    add_bits(
        add_bits(add_bits(mul_bits(a0, b0), mul_bits(a1, b1)), mul_bits(a2, b2)),
        mul_bits(a3, b3),
    )
}

/// The standard row-by-column product of the two matrices.
pub open spec fn mult_spec(a: Matrix4, b: Matrix4) -> Matrix4 {
    Matrix4 {
        m00: row_dot_bits(a.m00, a.m01, a.m02, a.m03, b.m00, b.m10, b.m20, b.m30),
        m01: row_dot_bits(a.m00, a.m01, a.m02, a.m03, b.m01, b.m11, b.m21, b.m31),
        m02: row_dot_bits(a.m00, a.m01, a.m02, a.m03, b.m02, b.m12, b.m22, b.m32),
        m03: row_dot_bits(a.m00, a.m01, a.m02, a.m03, b.m03, b.m13, b.m23, b.m33),
        m10: row_dot_bits(a.m10, a.m11, a.m12, a.m13, b.m00, b.m10, b.m20, b.m30),
        m11: row_dot_bits(a.m10, a.m11, a.m12, a.m13, b.m01, b.m11, b.m21, b.m31),
        m12: row_dot_bits(a.m10, a.m11, a.m12, a.m13, b.m02, b.m12, b.m22, b.m32),
        m13: row_dot_bits(a.m10, a.m11, a.m12, a.m13, b.m03, b.m13, b.m23, b.m33),
        m20: row_dot_bits(a.m20, a.m21, a.m22, a.m23, b.m00, b.m10, b.m20, b.m30),
        m21: row_dot_bits(a.m20, a.m21, a.m22, a.m23, b.m01, b.m11, b.m21, b.m31),
        m22: row_dot_bits(a.m20, a.m21, a.m22, a.m23, b.m02, b.m12, b.m22, b.m32),
        m23: row_dot_bits(a.m20, a.m21, a.m22, a.m23, b.m03, b.m13, b.m23, b.m33),
        m30: row_dot_bits(a.m30, a.m31, a.m32, a.m33, b.m00, b.m10, b.m20, b.m30),
        m31: row_dot_bits(a.m30, a.m31, a.m32, a.m33, b.m01, b.m11, b.m21, b.m31),
        m32: row_dot_bits(a.m30, a.m31, a.m32, a.m33, b.m02, b.m12, b.m22, b.m32),
        m33: row_dot_bits(a.m30, a.m31, a.m32, a.m33, b.m03, b.m13, b.m23, b.m33),
    }
}

/// Columns 0, 1 and 2 scaled by `x`, `y` and `z`; column 3 untouched.
pub open spec fn scale_spec(m: Matrix4, x: u32, y: u32, z: u32) -> Matrix4 {
    Matrix4 {
        m00: mul_bits(m.m00, x),
        m01: mul_bits(m.m01, y),
        m02: mul_bits(m.m02, z),
        m03: m.m03,
        m10: mul_bits(m.m10, x),
        m11: mul_bits(m.m11, y),
        m12: mul_bits(m.m12, z),
        m13: m.m13,
        m20: mul_bits(m.m20, x),
        m21: mul_bits(m.m21, y),
        m22: mul_bits(m.m22, z),
        m23: m.m23,
        m30: mul_bits(m.m30, x),
        m31: mul_bits(m.m31, y),
        m32: mul_bits(m.m32, z),
        m33: m.m33,
    }
}

/// One translated entry of column 3: the row's own basis applied to the
/// offset, accumulated onto the old entry left to right.
pub open spec fn translate_entry_bits(e: u32, r0: u32, r1: u32, r2: u32, x: u32, y: u32, z: u32) -> u32 {
    add_bits(add_bits(add_bits(e, mul_bits(r0, x)), mul_bits(r1, y)), mul_bits(r2, z))
}

/// The offset `(x, y, z)`, expressed in the matrix's own basis, added to
/// column 3 of rows 0 to 2; row 3 untouched.
pub open spec fn translate_spec(m: Matrix4, x: u32, y: u32, z: u32) -> Matrix4 {
    Matrix4 {
        m03: translate_entry_bits(m.m03, m.m00, m.m01, m.m02, x, y, z),
        m13: translate_entry_bits(m.m13, m.m10, m.m11, m.m12, x, y, z),
        m23: translate_entry_bits(m.m23, m.m20, m.m21, m.m22, x, y, z),
        ..m
    }
}

/// Rows and columns exchanged.
pub open spec fn transpose_spec(m: Matrix4) -> Matrix4 {
    Matrix4 {
        m00: m.m00,
        m01: m.m10,
        m02: m.m20,
        m03: m.m30,
        m10: m.m01,
        m11: m.m11,
        m12: m.m21,
        m13: m.m31,
        m20: m.m02,
        m21: m.m12,
        m22: m.m22,
        m23: m.m32,
        m30: m.m03,
        m31: m.m13,
        m32: m.m23,
        m33: m.m33,
    }
}

/// The orthographic projection for the given view rectangle, near plane
/// fixed by the `-1` term: the identity with the four projection entries
/// replaced.  Degenerate bounds (`right == left` or `top == bottom`) are
/// not guarded: the divisions then yield infinities or NaNs, as IEEE-754
/// division does.
pub open spec fn ortho_spec(left: u32, right: u32, bottom: u32, top: u32) -> Matrix4 {
    Matrix4 {
        m00: div_bits(TWO_BITS, sub_bits(right, left)),
        m11: div_bits(TWO_BITS, sub_bits(top, bottom)),
        m22: NEG_ONE_BITS,
        m30: neg_bits(div_bits(add_bits(right, left), sub_bits(right, left))),
        m31: neg_bits(div_bits(add_bits(top, bottom), sub_bits(top, bottom))),
        ..identity_spec()
    }
}

/// The matrix with the one entry at row `r`, column `c` replaced by `v`.
pub open spec fn with_entry_spec(m: Matrix4, r: int, c: int, v: u32) -> Matrix4 {
    if r == 0 {
        if c == 0 { Matrix4 { m00: v, ..m } }
        else if c == 1 { Matrix4 { m01: v, ..m } }
        else if c == 2 { Matrix4 { m02: v, ..m } }
        else { Matrix4 { m03: v, ..m } }
    } else if r == 1 {
        if c == 0 { Matrix4 { m10: v, ..m } }
        else if c == 1 { Matrix4 { m11: v, ..m } }
        else if c == 2 { Matrix4 { m12: v, ..m } }
        else { Matrix4 { m13: v, ..m } }
    } else if r == 2 {
        if c == 0 { Matrix4 { m20: v, ..m } }
        else if c == 1 { Matrix4 { m21: v, ..m } }
        else if c == 2 { Matrix4 { m22: v, ..m } }
        else { Matrix4 { m23: v, ..m } }
    } else {
        if c == 0 { Matrix4 { m30: v, ..m } }
        else if c == 1 { Matrix4 { m31: v, ..m } }
        else if c == 2 { Matrix4 { m32: v, ..m } }
        else { Matrix4 { m33: v, ..m } }
    }
}

/// Every entry is finite.
pub open spec fn mat_all_finite(m: Matrix4) -> bool {
    &&& is_finite_bits(m.m00) && is_finite_bits(m.m01) && is_finite_bits(m.m02) && is_finite_bits(m.m03)
    &&& is_finite_bits(m.m10) && is_finite_bits(m.m11) && is_finite_bits(m.m12) && is_finite_bits(m.m13)
    &&& is_finite_bits(m.m20) && is_finite_bits(m.m21) && is_finite_bits(m.m22) && is_finite_bits(m.m23)
    &&& is_finite_bits(m.m30) && is_finite_bits(m.m31) && is_finite_bits(m.m32) && is_finite_bits(m.m33)
}

/// The entries of `a` and `b` are equal as IEEE-754 values.
pub open spec fn mat_eq_values(a: Matrix4, b: Matrix4) -> bool {
    &&& eq_bits(a.m00, b.m00) && eq_bits(a.m01, b.m01) && eq_bits(a.m02, b.m02) && eq_bits(a.m03, b.m03)
    &&& eq_bits(a.m10, b.m10) && eq_bits(a.m11, b.m11) && eq_bits(a.m12, b.m12) && eq_bits(a.m13, b.m13)
    &&& eq_bits(a.m20, b.m20) && eq_bits(a.m21, b.m21) && eq_bits(a.m22, b.m22) && eq_bits(a.m23, b.m23)
    &&& eq_bits(a.m30, b.m30) && eq_bits(a.m31, b.m31) && eq_bits(a.m32, b.m32) && eq_bits(a.m33, b.m33)
}

/// One entry of a matrix product.  The added clauses drive the identity
/// law: against a unit column (one at position `k`, positive zeros
/// elsewhere) the sum collapses, as an IEEE-754 value, to the row's `k`-th
/// entry, and symmetrically for a unit row against a finite column.
fn row_dot(a0: u32, a1: u32, a2: u32, a3: u32, b0: u32, b1: u32, b2: u32, b3: u32) -> (r: u32)
    ensures
        r == row_dot_bits(a0, a1, a2, a3, b0, b1, b2, b3),
        is_finite_bits(a0) && is_finite_bits(a1) && is_finite_bits(a2) && is_finite_bits(a3)
            ==> {
            &&& b0 == ONE_BITS && b1 == POS_ZERO_BITS && b2 == POS_ZERO_BITS && b3
                == POS_ZERO_BITS ==> eq_bits(r, a0)
            &&& b0 == POS_ZERO_BITS && b1 == ONE_BITS && b2 == POS_ZERO_BITS && b3
                == POS_ZERO_BITS ==> eq_bits(r, a1)
            &&& b0 == POS_ZERO_BITS && b1 == POS_ZERO_BITS && b2 == ONE_BITS && b3
                == POS_ZERO_BITS ==> eq_bits(r, a2)
            &&& b0 == POS_ZERO_BITS && b1 == POS_ZERO_BITS && b2 == POS_ZERO_BITS && b3
                == ONE_BITS ==> eq_bits(r, a3)
        },
        is_finite_bits(b0) && is_finite_bits(b1) && is_finite_bits(b2) && is_finite_bits(b3)
            ==> {
            &&& a0 == ONE_BITS && a1 == POS_ZERO_BITS && a2 == POS_ZERO_BITS && a3
                == POS_ZERO_BITS ==> eq_bits(r, b0)
            &&& a0 == POS_ZERO_BITS && a1 == ONE_BITS && a2 == POS_ZERO_BITS && a3
                == POS_ZERO_BITS ==> eq_bits(r, b1)
            &&& a0 == POS_ZERO_BITS && a1 == POS_ZERO_BITS && a2 == ONE_BITS && a3
                == POS_ZERO_BITS ==> eq_bits(r, b2)
            &&& a0 == POS_ZERO_BITS && a1 == POS_ZERO_BITS && a2 == POS_ZERO_BITS && a3
                == ONE_BITS ==> eq_bits(r, b3)
        },
{
    let p0: u32 = mul32(a0, b0);
    let p1: u32 = mul32(a1, b1);
    let p2: u32 = mul32(a2, b2);
    let p3: u32 = mul32(a3, b3);
    let r: u32 = add32(add32(add32(p0, p1), p2), p3);
    proof {
        crate::scalar::lemma_const_bits();
        crate::scalar::lemma_zero_bits(p0);
        crate::scalar::lemma_zero_bits(p1);
        crate::scalar::lemma_zero_bits(p2);
        crate::scalar::lemma_zero_bits(p3);
        crate::scalar::lemma_zero_bits(add_bits(p0, p1));
        crate::scalar::lemma_zero_bits(add_bits(add_bits(p0, p1), p2));
        crate::scalar::lemma_zero_bits(r);
    }
    r
}

impl Matrix4 {
    /// The sixteen entries, row-major.
    pub fn as_array(&self) -> (r: [[u32; 4]; 4])
        ensures
            r.deep_view() == seq![
                seq![self.m00, self.m01, self.m02, self.m03],
                seq![self.m10, self.m11, self.m12, self.m13],
                seq![self.m20, self.m21, self.m22, self.m23],
                seq![self.m30, self.m31, self.m32, self.m33],
            ],
    {
        let r = [
            [self.m00, self.m01, self.m02, self.m03],
            [self.m10, self.m11, self.m12, self.m13],
            [self.m20, self.m21, self.m22, self.m23],
            [self.m30, self.m31, self.m32, self.m33],
        ];
        proof {
            assert(r.deep_view() =~~= seq![
                seq![self.m00, self.m01, self.m02, self.m03],
                seq![self.m10, self.m11, self.m12, self.m13],
                seq![self.m20, self.m21, self.m22, self.m23],
                seq![self.m30, self.m31, self.m32, self.m33],
            ]);
        }
        r
    }

    pub fn from_array(array: [[u32; 4]; 4]) -> (r: Matrix4)
        ensures
            r == (Matrix4 {
                m00: array[0][0],
                m01: array[0][1],
                m02: array[0][2],
                m03: array[0][3],
                m10: array[1][0],
                m11: array[1][1],
                m12: array[1][2],
                m13: array[1][3],
                m20: array[2][0],
                m21: array[2][1],
                m22: array[2][2],
                m23: array[2][3],
                m30: array[3][0],
                m31: array[3][1],
                m32: array[3][2],
                m33: array[3][3],
            }),
    {
        Matrix4 {
            m00: array[0][0],
            m01: array[0][1],
            m02: array[0][2],
            m03: array[0][3],
            m10: array[1][0],
            m11: array[1][1],
            m12: array[1][2],
            m13: array[1][3],
            m20: array[2][0],
            m21: array[2][1],
            m22: array[2][2],
            m23: array[2][3],
            m30: array[3][0],
            m31: array[3][1],
            m32: array[3][2],
            m33: array[3][3],
        }
    }

    /// The row at the given index; an out-of-range index is a caller's
    /// error.
    pub fn row(&self, index: usize) -> (r: [u32; 4])
        requires
            index < 4,
        ensures
            index == 0 ==> r@ == seq![self.m00, self.m01, self.m02, self.m03],
            index == 1 ==> r@ == seq![self.m10, self.m11, self.m12, self.m13],
            index == 2 ==> r@ == seq![self.m20, self.m21, self.m22, self.m23],
            index == 3 ==> r@ == seq![self.m30, self.m31, self.m32, self.m33],
    {
        let r = if index == 0 {
            [self.m00, self.m01, self.m02, self.m03]
        } else if index == 1 {
            [self.m10, self.m11, self.m12, self.m13]
        } else if index == 2 {
            [self.m20, self.m21, self.m22, self.m23]
        } else {
            [self.m30, self.m31, self.m32, self.m33]
        };
        proof {
            if index == 0 {
                assert(r@ =~= seq![self.m00, self.m01, self.m02, self.m03]);
            } else if index == 1 {
                assert(r@ =~= seq![self.m10, self.m11, self.m12, self.m13]);
            } else if index == 2 {
                assert(r@ =~= seq![self.m20, self.m21, self.m22, self.m23]);
            } else {
                assert(r@ =~= seq![self.m30, self.m31, self.m32, self.m33]);
            }
        }
        r
    }

    /// Writes the entry at the given row and column; out-of-range indices
    /// are a caller's error.  Every other entry is unchanged.
    pub fn set_entry(&mut self, row: usize, col: usize, value: u32)
        requires
            row < 4,
            col < 4,
        ensures
            *final(self) == with_entry_spec(*old(self), row as int, col as int, value),
    {
        if row == 0 {
            if col == 0 { self.m00 = value; }
            else if col == 1 { self.m01 = value; }
            else if col == 2 { self.m02 = value; }
            else { self.m03 = value; }
        } else if row == 1 {
            if col == 0 { self.m10 = value; }
            else if col == 1 { self.m11 = value; }
            else if col == 2 { self.m12 = value; }
            else { self.m13 = value; }
        } else if row == 2 {
            if col == 0 { self.m20 = value; }
            else if col == 1 { self.m21 = value; }
            else if col == 2 { self.m22 = value; }
            else { self.m23 = value; }
        } else {
            if col == 0 { self.m30 = value; }
            else if col == 1 { self.m31 = value; }
            else if col == 2 { self.m32 = value; }
            else { self.m33 = value; }
        }
    }

    pub fn identity() -> (r: Matrix4)
        ensures
            r == identity_spec(),
    {
        Matrix4 {
            m00: ONE_BITS,
            m01: POS_ZERO_BITS,
            m02: POS_ZERO_BITS,
            m03: POS_ZERO_BITS,
            m10: POS_ZERO_BITS,
            m11: ONE_BITS,
            m12: POS_ZERO_BITS,
            m13: POS_ZERO_BITS,
            m20: POS_ZERO_BITS,
            m21: POS_ZERO_BITS,
            m22: ONE_BITS,
            m23: POS_ZERO_BITS,
            m30: POS_ZERO_BITS,
            m31: POS_ZERO_BITS,
            m32: POS_ZERO_BITS,
            m33: ONE_BITS,
        }
    }

    /// The orthographic parallel viewing volume for the given rectangle.
    pub fn ortho(left: u32, right: u32, bottom: u32, top: u32) -> (r: Matrix4)
        ensures
            r == ortho_spec(left, right, bottom, top),
    {
        let rl: u32 = sub32(right, left);
        let tb: u32 = sub32(top, bottom);
        Matrix4 {
            m00: div32(TWO_BITS, rl),
            m11: div32(TWO_BITS, tb),
            m22: NEG_ONE_BITS,
            m30: neg32(div32(add32(right, left), rl)),
            m31: neg32(div32(add32(top, bottom), tb)),
            ..Matrix4::identity()
        }
    }

    /// This matrix multiplied by the scale matrix for the three factors.
    pub fn scale(&self, x: u32, y: u32, z: u32) -> (r: Matrix4)
        ensures
            r == scale_spec(*self, x, y, z),
    {
        Matrix4 {
            m00: mul32(self.m00, x),
            m01: mul32(self.m01, y),
            m02: mul32(self.m02, z),
            m03: self.m03,
            m10: mul32(self.m10, x),
            m11: mul32(self.m11, y),
            m12: mul32(self.m12, z),
            m13: self.m13,
            m20: mul32(self.m20, x),
            m21: mul32(self.m21, y),
            m22: mul32(self.m22, z),
            m23: self.m23,
            m30: mul32(self.m30, x),
            m31: mul32(self.m31, y),
            m32: mul32(self.m32, z),
            m33: self.m33,
        }
    }

    pub fn scale_by_vector(&self, v: &Vector3) -> (r: Matrix4)
        ensures
            r == scale_spec(*self, v.x, v.y, v.z),
    {
        self.scale(v.x, v.y, v.z)
    }

    /// This matrix multiplied by the translation matrix for the three
    /// offsets.
    pub fn translate(&self, x: u32, y: u32, z: u32) -> (r: Matrix4)
        ensures
            r == translate_spec(*self, x, y, z),
    {
        Matrix4 {
            m03: add32(add32(add32(self.m03, mul32(self.m00, x)), mul32(self.m01, y)), mul32(self.m02, z)),
            m13: add32(add32(add32(self.m13, mul32(self.m10, x)), mul32(self.m11, y)), mul32(self.m12, z)),
            m23: add32(add32(add32(self.m23, mul32(self.m20, x)), mul32(self.m21, y)), mul32(self.m22, z)),
            ..*self
        }
    }

    pub fn translate_by_vector(&self, v: &Vector3) -> (r: Matrix4)
        ensures
            r == translate_spec(*self, v.x, v.y, v.z),
    {
        self.translate(v.x, v.y, v.z)
    }

    pub fn transpose(&self) -> (r: Matrix4)
        ensures
            r == transpose_spec(*self),
    {
        Matrix4 {
            m00: self.m00,
            m01: self.m10,
            m02: self.m20,
            m03: self.m30,
            m10: self.m01,
            m11: self.m11,
            m12: self.m21,
            m13: self.m31,
            m20: self.m02,
            m21: self.m12,
            m22: self.m22,
            m23: self.m32,
            m30: self.m03,
            m31: self.m13,
            m32: self.m23,
            m33: self.m33,
        }
    }

    /// The standard row-by-column matrix product.  The identity is its
    /// two-sided unit: multiplying a matrix with finite entries by the
    /// identity, on either side, returns its entries unchanged as
    /// IEEE-754 values.
    pub fn mult(&self, other: &Matrix4) -> (r: Matrix4)
        ensures
            r == mult_spec(*self, *other),
            *other == identity_spec() && mat_all_finite(*self) ==> mat_eq_values(r, *self),
            *self == identity_spec() && mat_all_finite(*other) ==> mat_eq_values(r, *other),
    {
        Matrix4 {
            m00: row_dot(self.m00, self.m01, self.m02, self.m03, other.m00, other.m10, other.m20, other.m30),
            m01: row_dot(self.m00, self.m01, self.m02, self.m03, other.m01, other.m11, other.m21, other.m31),
            m02: row_dot(self.m00, self.m01, self.m02, self.m03, other.m02, other.m12, other.m22, other.m32),
            m03: row_dot(self.m00, self.m01, self.m02, self.m03, other.m03, other.m13, other.m23, other.m33),
            m10: row_dot(self.m10, self.m11, self.m12, self.m13, other.m00, other.m10, other.m20, other.m30),
            m11: row_dot(self.m10, self.m11, self.m12, self.m13, other.m01, other.m11, other.m21, other.m31),
            m12: row_dot(self.m10, self.m11, self.m12, self.m13, other.m02, other.m12, other.m22, other.m32),
            m13: row_dot(self.m10, self.m11, self.m12, self.m13, other.m03, other.m13, other.m23, other.m33),
            m20: row_dot(self.m20, self.m21, self.m22, self.m23, other.m00, other.m10, other.m20, other.m30),
            m21: row_dot(self.m20, self.m21, self.m22, self.m23, other.m01, other.m11, other.m21, other.m31),
            m22: row_dot(self.m20, self.m21, self.m22, self.m23, other.m02, other.m12, other.m22, other.m32),
            m23: row_dot(self.m20, self.m21, self.m22, self.m23, other.m03, other.m13, other.m23, other.m33),
            m30: row_dot(self.m30, self.m31, self.m32, self.m33, other.m00, other.m10, other.m20, other.m30),
            m31: row_dot(self.m30, self.m31, self.m32, self.m33, other.m01, other.m11, other.m21, other.m31),
            m32: row_dot(self.m30, self.m31, self.m32, self.m33, other.m02, other.m12, other.m22, other.m32),
            m33: row_dot(self.m30, self.m31, self.m32, self.m33, other.m03, other.m13, other.m23, other.m33),
        }
    }
}

/// Transposition is involutive: exchanging rows and columns twice gives
/// back the original matrix.
pub proof fn lemma_transpose_involutive(m: Matrix4)
    ensures
        transpose_spec(transpose_spec(m)) == m,
{
}

} // verus!
