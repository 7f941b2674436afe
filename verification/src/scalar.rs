//! Scalar layer: IEEE-754 binary64 arithmetic on `u64` bit patterns.
//!
//! Every scalar the engine handles is the bit pattern of a binary64 value.
//! The five arithmetic operations are performed by a software implementation
//! of IEEE-754 (`rustc_apfloat`, LLVM's float library, and `ieee-apsqrt`;
//! round to nearest, ties to even — the rounding every IEEE-754 environment
//! defaults to), behind trusted wrappers
//! whose results are named by uninterpreted spec functions over *canonical*
//! bit patterns. A bit pattern is canonical when it is not a NaN or is the
//! one quiet NaN `QNAN`: IEEE-754 determines the result bits of these
//! operations exactly, except for the choice of NaN payload, which `cv`
//! collapses. The wrappers canonicalize their result, so every scalar the
//! verified engine stores or returns is canonical and its contracts can
//! state plain equalities.

use vstd::prelude::*;

verus! {

/// Bit pattern of `+0.0`.
pub const POS_ZERO: u64 = 0;
/// Bit pattern of `-0.0`.
pub const NEG_ZERO: u64 = 0x8000_0000_0000_0000;
/// The canonical quiet NaN bit pattern.
pub const QNAN: u64 = 0x7FF8_0000_0000_0000;
/// Bit pattern of `1.0`.
pub const ONE: u64 = 0x3FF0_0000_0000_0000;
/// Bit pattern of `2.0`.
pub const TWO: u64 = 0x4000_0000_0000_0000;
/// Bit pattern of `6.0`.
pub const SIX: u64 = 0x4018_0000_0000_0000;
/// Bit pattern of `0.5`.
pub const HALF: u64 = 0x3FE0_0000_0000_0000;
/// Bit pattern of the gravitational constant `6.67430e-11`.
pub const G_BITS: u64 = 0x3DD2_589E_FFED_8ACC;

/// True when `b` is the bit pattern of a binary64 NaN: exponent field all
/// ones and a nonzero mantissa field.
pub open spec fn is_nan_bits(b: u64) -> bool {
    (b >> 52) & 0x7FF == 0x7FF && (b & 0x000F_FFFF_FFFF_FFFF) != 0
}

/// Canonical form of a scalar: every NaN collapses to `QNAN`, every other
/// bit pattern is itself.
pub open spec fn cv(b: u64) -> u64 {
    if is_nan_bits(b) {
        QNAN
    } else {
        b
    }
}

/// True when `b` is the bit pattern of a (positive or negative) zero,
/// i.e. exactly when the binary64 value it denotes compares equal to `0.0`.
pub open spec fn is_zero_bits(b: u64) -> bool {
    b == POS_ZERO || b == NEG_ZERO
}

/// Canonical bits of the IEEE-754 binary64 sum of the values denoted by the
/// canonical bit patterns `a` and `b`.
pub uninterp spec fn sum_bits(a: u64, b: u64) -> u64;

/// Canonical bits of the IEEE-754 binary64 difference `a - b`.
pub uninterp spec fn diff_bits(a: u64, b: u64) -> u64;

/// Canonical bits of the IEEE-754 binary64 product `a * b`.
pub uninterp spec fn prod_bits(a: u64, b: u64) -> u64;

/// Canonical bits of the IEEE-754 binary64 quotient `a / b`.
pub uninterp spec fn quot_bits(a: u64, b: u64) -> u64;

/// Canonical bits of the IEEE-754 binary64 square root of `a`.
pub uninterp spec fn root_bits(a: u64) -> u64;

/// The scalar sum as the engine computes it: canonical bits of the IEEE
/// sum of the scalars denoted by `a` and `b`.
pub open spec fn r_add(a: u64, b: u64) -> u64 {
    cv(sum_bits(cv(a), cv(b)))
}

/// The scalar difference `a - b`.
pub open spec fn r_sub(a: u64, b: u64) -> u64 {
    cv(diff_bits(cv(a), cv(b)))
}

/// The scalar product `a * b`.
pub open spec fn r_mul(a: u64, b: u64) -> u64 {
    cv(prod_bits(cv(a), cv(b)))
}

/// The scalar quotient `a / b`.
pub open spec fn r_div(a: u64, b: u64) -> u64 {
    cv(quot_bits(cv(a), cv(b)))
}

/// The scalar square root of `a`.
pub open spec fn r_sqrt(a: u64) -> u64 {
    cv(root_bits(cv(a)))
}

/// Relies on `rustc_apfloat::Float::add_r` on `ieee::Double`: IEEE-754
/// binary64 addition, round to nearest even; the result bits are a function
/// of the operand bits up to the choice of NaN payload, which `cv` collapses.
#[verifier::external_body]
fn raw_add(a: u64, b: u64) -> (r: u64)
    ensures
        cv(r) == cv(sum_bits(cv(a), cv(b))),
{
    rustc_apfloat::Float::to_bits(
        rustc_apfloat::Float::add_r(
            <rustc_apfloat::ieee::Double as rustc_apfloat::Float>::from_bits(a as u128),
            <rustc_apfloat::ieee::Double as rustc_apfloat::Float>::from_bits(b as u128),
            rustc_apfloat::Round::NearestTiesToEven,
        ).value,
    ) as u64
}

/// Relies on `rustc_apfloat::Float::sub_r` on `ieee::Double`: IEEE-754
/// binary64 subtraction, round to nearest even, up to the NaN payload.
#[verifier::external_body]
fn raw_sub(a: u64, b: u64) -> (r: u64)
    ensures
        cv(r) == cv(diff_bits(cv(a), cv(b))),
{
    rustc_apfloat::Float::to_bits(
        rustc_apfloat::Float::sub_r(
            <rustc_apfloat::ieee::Double as rustc_apfloat::Float>::from_bits(a as u128),
            <rustc_apfloat::ieee::Double as rustc_apfloat::Float>::from_bits(b as u128),
            rustc_apfloat::Round::NearestTiesToEven,
        ).value,
    ) as u64
}

/// Relies on `rustc_apfloat::Float::mul_r` on `ieee::Double`: IEEE-754
/// binary64 multiplication, round to nearest even, up to the NaN payload.
#[verifier::external_body]
fn raw_mul(a: u64, b: u64) -> (r: u64)
    ensures
        cv(r) == cv(prod_bits(cv(a), cv(b))),
{
    rustc_apfloat::Float::to_bits(
        rustc_apfloat::Float::mul_r(
            <rustc_apfloat::ieee::Double as rustc_apfloat::Float>::from_bits(a as u128),
            <rustc_apfloat::ieee::Double as rustc_apfloat::Float>::from_bits(b as u128),
            rustc_apfloat::Round::NearestTiesToEven,
        ).value,
    ) as u64
}

/// Relies on `rustc_apfloat::Float::div_r` on `ieee::Double`: IEEE-754
/// binary64 division, round to nearest even, up to the NaN payload.
#[verifier::external_body]
fn raw_div(a: u64, b: u64) -> (r: u64)
    ensures
        cv(r) == cv(quot_bits(cv(a), cv(b))),
{
    rustc_apfloat::Float::to_bits(
        rustc_apfloat::Float::div_r(
            <rustc_apfloat::ieee::Double as rustc_apfloat::Float>::from_bits(a as u128),
            <rustc_apfloat::ieee::Double as rustc_apfloat::Float>::from_bits(b as u128),
            rustc_apfloat::Round::NearestTiesToEven,
        ).value,
    ) as u64
}

/// Relies on `ieee_apsqrt::sqrt_accurate` on `u64` bits: correctly rounded
/// IEEE-754 binary64 square root, round to nearest even, up to the NaN
/// payload.
#[verifier::external_body]
fn raw_sqrt(a: u64) -> (r: u64)
    ensures
        cv(r) == cv(root_bits(cv(a))),
{
    ieee_apsqrt::sqrt_accurate(a, rustc_apfloat::Round::NearestTiesToEven).0.value
}

/// Canonicalizes a scalar bit pattern in executable code.
fn canon(b: u64) -> (r: u64)
    ensures
        r == cv(b),
{
    if (b >> 52) & 0x7FF == 0x7FF && (b & 0x000F_FFFF_FFFF_FFFF) != 0 {
        QNAN
    } else {
        b
    }
}

/// Scalar addition: returns exactly `r_add(a, b)`.
pub fn add_s(a: u64, b: u64) -> (r: u64)
    ensures
        r == r_add(a, b),
{
    canon(raw_add(a, b))
}

/// Scalar subtraction: returns exactly `r_sub(a, b)`.
pub fn sub_s(a: u64, b: u64) -> (r: u64)
    ensures
        r == r_sub(a, b),
{
    canon(raw_sub(a, b))
}

/// Scalar multiplication: returns exactly `r_mul(a, b)`.
pub fn mul_s(a: u64, b: u64) -> (r: u64)
    ensures
        r == r_mul(a, b),
{
    canon(raw_mul(a, b))
}

/// Scalar division: returns exactly `r_div(a, b)`.
pub fn div_s(a: u64, b: u64) -> (r: u64)
    ensures
        r == r_div(a, b),
{
    canon(raw_div(a, b))
}

/// Scalar square root: returns exactly `r_sqrt(a)`.
pub fn sqrt_s(a: u64) -> (r: u64)
    ensures
        r == r_sqrt(a),
{
    canon(raw_sqrt(a))
}

/// Scalar zero test, as IEEE-754 comparison with `0.0` would answer it:
/// true exactly on the two zero bit patterns.
pub fn zero_s(b: u64) -> (r: bool)
    ensures
        r == is_zero_bits(b),
{
    b == POS_ZERO || b == NEG_ZERO
}

} // verus!
