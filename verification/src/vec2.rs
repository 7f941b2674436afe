//! A 2-D vector of binary64 scalars, used for positions, velocities and
//! forces. Components are carried as `u64` bit patterns (see `scalar`).

use vstd::prelude::*;

use crate::scalar::{
    add_s, div_s, is_zero_bits, mul_s, r_add, r_div, r_mul, r_sqrt, r_sub, sqrt_s, sub_s, zero_s,
    POS_ZERO,
};

verus! {

/// An ordered pair of binary64 components `(x, y)`, each a bit pattern.
#[derive(Clone, Copy, PartialEq, Eq, Structural, Debug)]
pub struct Vec2(pub u64, pub u64);

/// The zero vector `(0.0, 0.0)`.
pub open spec fn v_zero() -> Vec2 {
    Vec2(POS_ZERO, POS_ZERO)
}

/// Componentwise vector sum.
pub open spec fn v_add(a: Vec2, b: Vec2) -> Vec2 {
    Vec2(r_add(a.0, b.0), r_add(a.1, b.1))
}

/// Componentwise vector difference.
pub open spec fn v_sub(a: Vec2, b: Vec2) -> Vec2 {
    Vec2(r_sub(a.0, b.0), r_sub(a.1, b.1))
}

/// The vector scaled by the scalar `k`.
pub open spec fn v_scale(a: Vec2, k: u64) -> Vec2 {
    Vec2(r_mul(a.0, k), r_mul(a.1, k))
}

/// The vector divided by the scalar `k`.
pub open spec fn v_divs(a: Vec2, k: u64) -> Vec2 {
    Vec2(r_div(a.0, k), r_div(a.1, k))
}

/// Squared magnitude `x*x + y*y`.
pub open spec fn v_mag_sq(a: Vec2) -> u64 {
    r_add(r_mul(a.0, a.0), r_mul(a.1, a.1))
}

/// Magnitude `sqrt(x*x + y*y)`.
pub open spec fn v_mag(a: Vec2) -> u64 {
    r_sqrt(v_mag_sq(a))
}

/// The unit vector in the direction of `a`; the zero vector when the
/// magnitude compares equal to `0.0`.
pub open spec fn v_norm(a: Vec2) -> Vec2 {
    if is_zero_bits(v_mag(a)) {
        v_zero()
    } else {
        Vec2(r_div(a.0, v_mag(a)), r_div(a.1, v_mag(a)))
    }
}

/// Left fold of componentwise addition over a sequence of vectors, from the
/// zero vector: the summation the engine uses for forces and diagnostics.
pub open spec fn v_sum(s: Seq<Vec2>) -> Vec2
    decreases s.len(),
{
    if s.len() == 0 {
        v_zero()
    } else {
        v_add(v_sum(s.drop_last()), s.last())
    }
}

impl Vec2 {
    /// Componentwise sum.
    pub fn add(self, rhs: Vec2) -> (r: Vec2)
        ensures
            r == v_add(self, rhs),
    {
        Vec2(add_s(self.0, rhs.0), add_s(self.1, rhs.1))
    }

    /// Adds `rhs` into `self` componentwise.
    pub fn add_assign(&mut self, rhs: Vec2)
        ensures
            *final(self) == v_add(*old(self), rhs),
    {
        self.0 = add_s(self.0, rhs.0);
        self.1 = add_s(self.1, rhs.1);
    }

    /// Componentwise difference.
    pub fn sub(self, rhs: Vec2) -> (r: Vec2)
        ensures
            r == v_sub(self, rhs),
    {
        Vec2(sub_s(self.0, rhs.0), sub_s(self.1, rhs.1))
    }

    /// The vector scaled by the scalar `k`.
    pub fn mul(self, k: u64) -> (r: Vec2)
        ensures
            r == v_scale(self, k),
    {
        Vec2(mul_s(self.0, k), mul_s(self.1, k))
    }

    /// The vector divided by the scalar `k`.
    pub fn div(self, k: u64) -> (r: Vec2)
        ensures
            r == v_divs(self, k),
    {
        Vec2(div_s(self.0, k), div_s(self.1, k))
    }

    /// Squared magnitude.
    pub fn mag_sq(self) -> (r: u64)
        ensures
            r == v_mag_sq(self),
    {
        add_s(mul_s(self.0, self.0), mul_s(self.1, self.1))
    }

    /// Magnitude.
    pub fn mag(self) -> (r: u64)
        ensures
            r == v_mag(self),
    {
        sqrt_s(self.mag_sq())
    }

    /// The unit vector in this direction, or the zero vector when the
    /// magnitude compares equal to `0.0` (so no division by zero occurs).
    pub fn norm(self) -> (r: Vec2)
        ensures
            r == v_norm(self),
    {
        let m = self.mag();
        if zero_s(m) {
            Vec2(POS_ZERO, POS_ZERO)
        } else {
            Vec2(div_s(self.0, m), div_s(self.1, m))
        }
    }

    /// Sums a sequence of vectors, left to right, from the zero vector.
    pub fn sum(vs: &Vec<Vec2>) -> (r: Vec2)
        ensures
            r == v_sum(vs@),
    {
        let mut acc = Vec2(POS_ZERO, POS_ZERO);
        let mut i: usize = 0;
        while i < vs.len()
            invariant
                i <= vs.len(),
                acc == v_sum(vs@.take(i as int)),
            decreases vs.len() - i,
        {
            proof {
                assert(vs@.take(i + 1).drop_last() =~= vs@.take(i as int));
                assert(vs@.take(i + 1).last() == vs@[i as int]);
            }
            acc = acc.add(vs[i]);
            i = i + 1;
        }
        proof {
            assert(vs@.take(vs@.len() as int) =~= vs@);
        }
        acc
    }
}

} // verus!
