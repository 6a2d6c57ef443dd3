//! Single- and double-precision scalars, held as their IEEE 754 bit patterns.
//!
//! The mesh pipeline's control flow never branches on a scalar's numeric
//! value, so every scalar travels through the library as a `u32` (single
//! precision) or `u64` (double precision) bit pattern.  Each primitive
//! arithmetic operation is performed by a trusted wrapper; its result is
//! named by an uninterpreted spec function over canonicalized bit patterns.
//!
//! Canonicalization is about NaN: Rust pins the numeric result of the basic
//! operations (they are correctly rounded), but it does not pin which bit
//! pattern a NaN result carries — sign and payload may vary between
//! evaluations and between machines.  Whether an operation produces a NaN,
//! however, is a function of the operand bits.  So the contracts speak of
//! [`norm_bits`], which maps every NaN pattern to one canonical quiet NaN
//! and leaves every other pattern alone: the canonicalized result of each
//! operation is a fixed function of the canonicalized operands, on every
//! machine, for every input.

use vstd::prelude::*;

verus! {

/// Bit pattern of the single-precision value 0.0.
pub const BITS_ZERO: u32 = 0x0000_0000;
/// Bit pattern of the single-precision value 0.5.
pub const BITS_HALF: u32 = 0x3F00_0000;
/// Bit pattern of the single-precision value -0.5.
pub const BITS_NEG_HALF: u32 = 0xBF00_0000;
/// Bit pattern of the single-precision value 1.0.
pub const BITS_ONE: u32 = 0x3F80_0000;
/// Bit pattern of the single-precision value 2.0.
pub const BITS_TWO: u32 = 0x4000_0000;
/// Bit pattern of the single-precision value 3.0.
pub const BITS_THREE: u32 = 0x4040_0000;
/// Bit pattern of the single-precision value 6.0.
pub const BITS_SIX: u32 = 0x40C0_0000;
/// The canonical single-precision quiet NaN.
pub const BITS_NAN: u32 = 0x7FC0_0000;
/// Bit pattern of the double-precision value 1.0.
pub const DBITS_ONE: u64 = 0x3FF0_0000_0000_0000;
/// Bit pattern of the double-precision value 2.0.
pub const DBITS_TWO: u64 = 0x4000_0000_0000_0000;
/// The canonical double-precision quiet NaN.
pub const DBITS_NAN: u64 = 0x7FF8_0000_0000_0000;

/// Whether a single-precision bit pattern is a NaN: exponent field all
/// ones, mantissa nonzero.
pub open spec fn is_nan32(a: u32) -> bool {
    (a / 0x80_0000) % 0x100 == 0xFF && a % 0x80_0000 != 0
}

/// Whether a double-precision bit pattern is a NaN: exponent field all
/// ones, mantissa nonzero.
pub open spec fn is_nan64(a: u64) -> bool {
    (a / 0x10_0000_0000_0000) % 0x800 == 0x7FF && a % 0x10_0000_0000_0000 != 0
}

/// The canonical form of a single-precision bit pattern: every NaN becomes
/// the one canonical quiet NaN; every number, infinity and zero is itself.
pub open spec fn norm_bits(a: u32) -> u32 {
    if is_nan32(a) {
        BITS_NAN
    } else {
        a
    }
}

/// The canonical form of a double-precision bit pattern.
pub open spec fn norm64_bits(a: u64) -> u64 {
    if is_nan64(a) {
        DBITS_NAN
    } else {
        a
    }
}

/// The canonical single-precision sum of the scalars with canonical bit
/// patterns `a` and `b`.
pub uninterp spec fn add_bits(a: u32, b: u32) -> u32;

/// The canonical single-precision difference of the scalars with canonical
/// bit patterns `a` and `b`.
pub uninterp spec fn sub_bits(a: u32, b: u32) -> u32;

/// The canonical single-precision product of the scalars with canonical
/// bit patterns `a` and `b`.
pub uninterp spec fn mul_bits(a: u32, b: u32) -> u32;

/// The canonical single-precision quotient of the scalars with canonical
/// bit patterns `a` and `b`.
pub uninterp spec fn div_bits(a: u32, b: u32) -> u32;

/// The canonical single-precision square root of the scalar with canonical
/// bit pattern `a`.
pub uninterp spec fn sqrt_bits(a: u32) -> u32;

/// The single-precision value nearest to the unsigned integer `a` (never a
/// NaN).
pub uninterp spec fn from_u32_bits(a: u32) -> u32;

/// The canonical double-precision value equal to the single-precision
/// scalar with canonical bit pattern `a`.
pub uninterp spec fn widen_bits(a: u32) -> u64;

/// The canonical single-precision value nearest to the double-precision
/// scalar with canonical bit pattern `a`.
pub uninterp spec fn narrow_bits(a: u64) -> u32;

/// The canonical double-precision product of the scalars with canonical
/// bit patterns `a` and `b`.
pub uninterp spec fn dmul_bits(a: u64, b: u64) -> u64;

/// Negation of a canonical pattern: flipping the sign bit negates an IEEE
/// 754 scalar exactly, and a NaN stays the canonical NaN.
pub open spec fn neg_bits(a: u32) -> u32 {
    if is_nan32(a) {
        BITS_NAN
    } else {
        a ^ 0x8000_0000u32
    }
}

/// Negates the single-precision scalar with bit pattern `a` by flipping its
/// sign bit, which IEEE 754 defines exactly, NaN payloads included.
pub(crate) fn f_neg(a: u32) -> (r: u32)
    ensures
        norm_bits(r) == neg_bits(norm_bits(a)),
{
    proof {
        assert((((a ^ 0x8000_0000u32) / 0x80_0000) % 0x100 == 0xFF <==> (a / 0x80_0000) % 0x100
            == 0xFF) && ((a ^ 0x8000_0000u32) % 0x80_0000 == a % 0x80_0000)) by (bit_vector);
    }
    a ^ 0x8000_0000u32
}

/// Relies on IEEE 754 single-precision addition (std's `+` on the 32-bit
/// float primitive): the correctly rounded sum is a function of the operand
/// bits; a NaN result's pattern is not pinned, so the claim is over
/// canonical forms.
#[verifier::external_body]
pub(crate) fn f_add(a: u32, b: u32) -> (r: u32)
    ensures
        norm_bits(r) == add_bits(norm_bits(a), norm_bits(b)),
{
    let x: glam::Vec4 = bytemuck::cast([a, 0u32, 0u32, 0u32]);
    let y: glam::Vec4 = bytemuck::cast([b, 0u32, 0u32, 0u32]);
    (x.x + y.x).to_bits()
}

/// Relies on IEEE 754 single-precision subtraction (std's `-` on the 32-bit
/// float primitive), stated over canonical forms as for addition.
#[verifier::external_body]
pub(crate) fn f_sub(a: u32, b: u32) -> (r: u32)
    ensures
        norm_bits(r) == sub_bits(norm_bits(a), norm_bits(b)),
{
    let x: glam::Vec4 = bytemuck::cast([a, 0u32, 0u32, 0u32]);
    let y: glam::Vec4 = bytemuck::cast([b, 0u32, 0u32, 0u32]);
    (x.x - y.x).to_bits()
}

/// Relies on IEEE 754 single-precision multiplication (std's `*` on the
/// 32-bit float primitive), stated over canonical forms as for addition.
#[verifier::external_body]
pub(crate) fn f_mul(a: u32, b: u32) -> (r: u32)
    ensures
        norm_bits(r) == mul_bits(norm_bits(a), norm_bits(b)),
{
    let x: glam::Vec4 = bytemuck::cast([a, 0u32, 0u32, 0u32]);
    let y: glam::Vec4 = bytemuck::cast([b, 0u32, 0u32, 0u32]);
    (x.x * y.x).to_bits()
}

/// Relies on IEEE 754 single-precision division (std's `/` on the 32-bit
/// float primitive), stated over canonical forms as for addition.
#[verifier::external_body]
pub(crate) fn f_div(a: u32, b: u32) -> (r: u32)
    ensures
        norm_bits(r) == div_bits(norm_bits(a), norm_bits(b)),
{
    let x: glam::Vec4 = bytemuck::cast([a, 0u32, 0u32, 0u32]);
    let y: glam::Vec4 = bytemuck::cast([b, 0u32, 0u32, 0u32]);
    (x.x / y.x).to_bits()
}

/// Relies on std's `sqrt` on the 32-bit float primitive, which IEEE 754
/// requires to be correctly rounded; stated over canonical forms (a
/// negative operand yields a NaN whose pattern is not pinned).
#[verifier::external_body]
pub(crate) fn f_sqrt(a: u32) -> (r: u32)
    ensures
        norm_bits(r) == sqrt_bits(norm_bits(a)),
{
    let x: glam::Vec4 = bytemuck::cast([a, 0u32, 0u32, 0u32]);
    x.x.sqrt().to_bits()
}

/// Relies on glam's `UVec4::as_vec4`, a lane-wise integer-to-float cast,
/// which Rust defines as rounding to the nearest representable value; the
/// result is always a number, never a NaN.
#[verifier::external_body]
pub(crate) fn f_from_u32(a: u32) -> (r: u32)
    ensures
        r == from_u32_bits(a),
        !is_nan32(r),
{
    glam::UVec4::new(a, 0u32, 0u32, 0u32).as_vec4().x.to_bits()
}

/// Relies on glam's `Vec4::as_dvec4`, a lane-wise widening float cast,
/// exact on every number; a NaN operand widens to a NaN whose pattern is
/// not pinned, so the claim is over canonical forms.
#[verifier::external_body]
pub(crate) fn f_widen(a: u32) -> (r: u64)
    ensures
        norm64_bits(r) == widen_bits(norm_bits(a)),
{
    let x: glam::Vec4 = bytemuck::cast([a, 0u32, 0u32, 0u32]);
    x.as_dvec4().x.to_bits()
}

/// Relies on glam's `DVec4::as_vec4`, a lane-wise narrowing float cast,
/// which Rust defines as rounding to the nearest representable value;
/// stated over canonical forms for the NaN cases.
#[verifier::external_body]
pub(crate) fn f_narrow(a: u64) -> (r: u32)
    ensures
        norm_bits(r) == narrow_bits(norm64_bits(a)),
{
    let x: glam::DVec4 = bytemuck::cast([a, 0u64, 0u64, 0u64]);
    x.as_vec4().x.to_bits()
}

/// Relies on IEEE 754 double-precision multiplication (std's `*` on the
/// 64-bit float primitive), stated over canonical forms as for the
/// single-precision operations.
#[verifier::external_body]
pub(crate) fn d_mul(a: u64, b: u64) -> (r: u64)
    ensures
        norm64_bits(r) == dmul_bits(norm64_bits(a), norm64_bits(b)),
{
    let x: glam::DVec4 = bytemuck::cast([a, 0u64, 0u64, 0u64]);
    let y: glam::DVec4 = bytemuck::cast([b, 0u64, 0u64, 0u64]);
    (x.x * y.x).to_bits()
}

} // verus!
