//! A 3-component vector of IEEE-754 binary32 scalars.

use vstd::prelude::*;
use crate::scalar::ONE_BITS;
use crate::scalar::add_bits;
use crate::scalar::sub_bits;
use crate::scalar::mul_bits;
use crate::scalar::div_bits;
use crate::scalar::neg_bits;
use crate::scalar::eq_bits;
use crate::scalar::is_finite_bits;
use crate::scalar::product_safe_bits;
use crate::scalar::sqrt_bits;
use crate::scalar::add32;
use crate::scalar::sub32;
use crate::scalar::mul32;
use crate::scalar::div32;
use crate::scalar::neg32;
use crate::scalar::sqrt32;

verus! {

/// A point, direction or scale factor: three binary32 components, each
/// carried as its bit pattern.  Which of the three it stands for is the
/// caller's business; the type does not distinguish them.
#[derive(Clone, Copy)]
pub struct Vector3 {
    pub x: u32,
    pub y: u32,
    pub z: u32,
}

/// Componentwise sum.
pub open spec fn vec_add(a: Vector3, b: Vector3) -> Vector3 {
    Vector3 { x: add_bits(a.x, b.x), y: add_bits(a.y, b.y), z: add_bits(a.z, b.z) }
}

/// Componentwise sign flip.
pub open spec fn vec_neg(a: Vector3) -> Vector3 {
    Vector3 { x: neg_bits(a.x), y: neg_bits(a.y), z: neg_bits(a.z) }
}

/// Componentwise difference, computed as the sum with the negation.
pub open spec fn vec_sub(a: Vector3, b: Vector3) -> Vector3 {
    vec_add(a, vec_neg(b))
}

/// Every component scaled by the one factor.
pub open spec fn vec_scale(a: Vector3, s: u32) -> Vector3 {
    Vector3 { x: mul_bits(a.x, s), y: mul_bits(a.y, s), z: mul_bits(a.z, s) }
}

/// Sum of the componentwise products, accumulated left to right.
pub open spec fn vec_dot(a: Vector3, b: Vector3) -> u32 {
    add_bits(add_bits(mul_bits(a.x, b.x), mul_bits(a.y, b.y)), mul_bits(a.z, b.z))
}

/// The right-handed cross product.
pub open spec fn vec_cross(a: Vector3, b: Vector3) -> Vector3 {
    Vector3 {
        x: sub_bits(mul_bits(a.y, b.z), mul_bits(b.y, a.z)),
        y: sub_bits(mul_bits(a.z, b.x), mul_bits(b.z, a.x)),
        z: sub_bits(mul_bits(a.x, b.y), mul_bits(b.x, a.y)),
    }
}

/// The Euclidean norm: the square root of the dot product with itself.
pub open spec fn vec_length(a: Vector3) -> u32 {
    sqrt_bits(vec_dot(a, a))
}

/// The norm of the difference `b - a`.
pub open spec fn vec_distance(a: Vector3, b: Vector3) -> u32 {
    vec_length(vec_sub(b, a))
}

/// The vector scaled by the reciprocal of its norm.
pub open spec fn vec_normalize(a: Vector3) -> Vector3 {
    vec_scale(a, div_bits(ONE_BITS, sqrt_bits(vec_dot(a, a))))
}

/// The components of `a` and `b` are equal as IEEE-754 values.
pub open spec fn vec_eq_values(a: Vector3, b: Vector3) -> bool {
    eq_bits(a.x, b.x) && eq_bits(a.y, b.y) && eq_bits(a.z, b.z)
}

/// Every component is finite.
pub open spec fn vec_all_finite(a: Vector3) -> bool {
    is_finite_bits(a.x) && is_finite_bits(a.y) && is_finite_bits(a.z)
}

/// Every component has magnitude below `2^63`, so that no product of two
/// components can overflow.
pub open spec fn vec_product_safe(a: Vector3) -> bool {
    product_safe_bits(a.x) && product_safe_bits(a.y) && product_safe_bits(a.z)
}

impl Vector3 {
    pub fn new(x: u32, y: u32, z: u32) -> (r: Vector3)
        ensures
            r == (Vector3 { x, y, z }),
    {
        Vector3 { x, y, z }
    }

    pub fn from_scalar(scalar: u32) -> (r: Vector3)
        ensures
            r == (Vector3 { x: scalar, y: scalar, z: scalar }),
    {
        Vector3::new(scalar, scalar, scalar)
    }

    pub fn from_array(array: [u32; 3]) -> (r: Vector3)
        ensures
            r == (Vector3 { x: array[0], y: array[1], z: array[2] }),
    {
        Vector3 { x: array[0], y: array[1], z: array[2] }
    }

    pub fn as_array(&self) -> (r: [u32; 3])
        ensures
            r@ == seq![self.x, self.y, self.z],
    {
        let r = [self.x, self.y, self.z];
        proof {
            assert(r@ =~= seq![self.x, self.y, self.z]);
        }
        r
    }

    /// The component at the given index; an out-of-range index is a
    /// caller's error.
    pub fn component(&self, index: usize) -> (r: u32)
        requires
            index < 3,
        ensures
            index == 0 ==> r == self.x,
            index == 1 ==> r == self.y,
            index == 2 ==> r == self.z,
    {
        if index == 0 {
            self.x
        } else if index == 1 {
            self.y
        } else {
            self.z
        }
    }

    /// The Euclidean norm, computed as the square root of `self.dot(self)`.
    pub fn length(&self) -> (r: u32)
        ensures
            r == vec_length(*self),
    {
        sqrt32(self.dot(self))
    }

    /// The norm of `other - self`.
    pub fn distance(&self, other: &Vector3) -> (r: u32)
        ensures
            r == vec_distance(*self, *other),
    {
        other.subtract(self).length()
    }

    /// The vector scaled by the reciprocal of the square root of its dot
    /// product with itself.  A zero-length vector is not guarded: the
    /// reciprocal is then infinite and the scaled components are NaNs, as
    /// IEEE-754 arithmetic has it.
    pub fn normalize(&self) -> (r: Vector3)
        ensures
            r == vec_normalize(*self),
    {
        let d: u32 = self.dot(self);
        self.scale(div32(ONE_BITS, sqrt32(d)))
    }

    pub fn add(&self, other: &Vector3) -> (r: Vector3)
        ensures
            r == vec_add(*self, *other),
    {
        Vector3::new(add32(self.x, other.x), add32(self.y, other.y), add32(self.z, other.z))
    }

    pub fn negate(&self) -> (r: Vector3)
        ensures
            r == vec_neg(*self),
    {
        Vector3::new(neg32(self.x), neg32(self.y), neg32(self.z))
    }

    pub fn subtract(&self, other: &Vector3) -> (r: Vector3)
        ensures
            r == vec_sub(*self, *other),
    {
        self.add(&other.negate())
    }

    pub fn scale(&self, scalar: u32) -> (r: Vector3)
        ensures
            r == vec_scale(*self, scalar),
    {
        Vector3::new(mul32(self.x, scalar), mul32(self.y, scalar), mul32(self.z, scalar))
    }

    /// Sum of the componentwise products.  On vectors with finite
    /// components the result does not depend on the operand order: the
    /// exact product of two binary32 values does not, so neither does the
    /// rounded one, and the sums then coincide bit for bit.
    pub fn dot(&self, other: &Vector3) -> (r: u32)
        ensures
            r == vec_dot(*self, *other),
            vec_all_finite(*self) && vec_all_finite(*other) ==> r == vec_dot(*other, *self),
    {
        add32(add32(mul32(self.x, other.x), mul32(self.y, other.y)), mul32(self.z, other.z))
    }

    /// The right-handed cross product.  It anti-commutes: as IEEE-754
    /// values, `a.cross(b)` and `b.cross(a).negate()` agree componentwise
    /// whenever no product of two components overflows (each difference of
    /// finite products is then either the sign-symmetric rounding of the
    /// same exact difference, or a zero of either sign).
    pub fn cross(&self, other: &Vector3) -> (r: Vector3)
        ensures
            r == vec_cross(*self, *other),
            vec_product_safe(*self) && vec_product_safe(*other) ==> vec_eq_values(
                r,
                vec_neg(vec_cross(*other, *self)),
            ),
    {
        let r = Vector3::new(
            sub32(mul32(self.y, other.z), mul32(other.y, self.z)),
            sub32(mul32(self.z, other.x), mul32(other.z, self.x)),
            sub32(mul32(self.x, other.y), mul32(other.x, self.y)),
        );
        proof {
            crate::scalar::lemma_neg_bits_abs(crate::scalar::POS_ZERO_BITS);
            crate::scalar::lemma_zero_bits(crate::scalar::POS_ZERO_BITS);
            crate::scalar::lemma_zero_bits(crate::scalar::neg_bits(crate::scalar::POS_ZERO_BITS));
        }
        r
    }
}

/// The norm is the square root of the dot product of a vector with
/// itself, for every vector.
pub proof fn lemma_length_is_sqrt_of_dot(v: Vector3)
    ensures
        vec_length(v) == sqrt_bits(vec_dot(v, v)),
{
}

/// The distance from `a` to `b` is the norm of the difference `b - a`,
/// for every pair of vectors.
pub proof fn lemma_distance_is_length_of_difference(a: Vector3, b: Vector3)
    ensures
        vec_distance(a, b) == vec_length(vec_sub(b, a)),
{
}

} // verus!
