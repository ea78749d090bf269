//! Bit patterns of the IEEE 754 double-precision constants the algorithms
//! use. Each constant is the pattern of the double nearest to the value its
//! name states; the crate's tests hold every one of them against
//! `f64::to_bits` of the corresponding literal.

use vstd::prelude::*;

verus! {

/// 0.0
pub const F64_ZERO: u64 = 0x0000_0000_0000_0000;

/// 0.25, the cardioid test's offset and factor.
pub const F64_QUARTER: u64 = 0x3FD0_0000_0000_0000;

/// 1.0
pub const F64_ONE: u64 = 0x3FF0_0000_0000_0000;

/// 2.0
pub const F64_TWO: u64 = 0x4000_0000_0000_0000;

/// 0.0625, the squared radius of the period-2 bulb.
pub const F64_BULB_RADIUS2: u64 = 0x3FB0_0000_0000_0000;

/// 24.0, the squared-magnitude bailout threshold.
pub const F64_BAILOUT: u64 = 0x4038_0000_0000_0000;

/// 1e-12, the periodicity detection threshold.
pub const F64_PERIODICITY_THRESHOLD: u64 = 0x3D71_9799_812D_EA11;

/// 16.0, the complex-plane span of a tile at zoom 0.
pub const F64_BASE_SCALE: u64 = 0x4030_0000_0000_0000;

/// -8.0, the complex-plane coordinate of a tile grid's origin.
pub const F64_BASE_OFFSET: u64 = 0xC020_0000_0000_0000;

/// ln 2, used by the natural-logarithm evaluation and the smoothed
/// escape-time formula.
pub const F64_LN2: u64 = 0x3FE6_2E42_FEFA_39EF;

/// 1100.0, beyond which an exponent for `2^x` is saturated: every finite
/// double lies strictly between `2^-1075` and `2^1024`.
pub const F64_EXP_CLAMP: u64 = 0x4091_3000_0000_0000;

/// -1100.0, the matching lower saturation bound.
pub const F64_EXP_CLAMP_NEG: u64 = 0xC091_3000_0000_0000;

/// Positive infinity.
pub const F64_INFINITY: u64 = 0x7FF0_0000_0000_0000;

/// A quiet NaN.
pub const F64_NAN: u64 = 0x7FF8_0000_0000_0000;

/// 1/3
pub const F64_INV3: u64 = 0x3FD5_5555_5555_5555;

/// 1/5
pub const F64_INV5: u64 = 0x3FC9_9999_9999_999A;

/// 1/7
pub const F64_INV7: u64 = 0x3FC2_4924_9249_2492;

/// 1/9
pub const F64_INV9: u64 = 0x3FBC_71C7_1C71_C71C;

/// 1/11
pub const F64_INV11: u64 = 0x3FB7_45D1_745D_1746;

/// 1/13
pub const F64_INV13: u64 = 0x3FB3_B13B_13B1_3B14;

/// 1/2!
pub const F64_INV_FACT2: u64 = 0x3FE0_0000_0000_0000;

/// 1/3!
pub const F64_INV_FACT3: u64 = 0x3FC5_5555_5555_5555;

/// 1/4!
pub const F64_INV_FACT4: u64 = 0x3FA5_5555_5555_5555;

/// 1/5!
pub const F64_INV_FACT5: u64 = 0x3F81_1111_1111_1111;

/// 1/6!
pub const F64_INV_FACT6: u64 = 0x3F56_C16C_16C1_6C17;

/// 1/7!
pub const F64_INV_FACT7: u64 = 0x3F2A_01A0_1A01_A01A;

/// 1/8!
pub const F64_INV_FACT8: u64 = 0x3EFA_01A0_1A01_A01A;

/// 1/9!
pub const F64_INV_FACT9: u64 = 0x3EC7_1DE3_A556_C734;

/// 1/10!
pub const F64_INV_FACT10: u64 = 0x3E92_7E4F_B778_9F5C;

/// 1/11!
pub const F64_INV_FACT11: u64 = 0x3E5A_E645_67F5_44E4;

/// 1/12!
pub const F64_INV_FACT12: u64 = 0x3E21_EED8_EFF8_D898;

} // verus!
