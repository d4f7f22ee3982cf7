//! Common types for the code generator.
//!
//! A [`Type`] is one byte. Its low four bits name the lane type; its high four
//! bits hold the base-two logarithm of the lane count, so a scalar has a high
//! nibble of zero and the widest vector, of 256 lanes, a high nibble of eight.
#![allow(non_snake_case)]

use crate::powers::{exp2, is_power_of_two, lemma_trailing_zeros_of_power, log2};
use vstd::prelude::*;

verus! {

/// Encoding of the absent type.
pub const VOID_CODE: u8 = 0;

/// Encoding of the 8-bit integer type.
pub const I8_CODE: u8 = 1;

/// Encoding of the 16-bit integer type.
pub const I16_CODE: u8 = 2;

/// Encoding of the 32-bit integer type.
pub const I32_CODE: u8 = 3;

/// Encoding of the 64-bit integer type.
pub const I64_CODE: u8 = 4;

/// Encoding of the single precision floating point type.
pub const F32_CODE: u8 = 5;

/// Encoding of the double precision floating point type.
pub const F64_CODE: u8 = 6;

/// Encoding of the one-bit boolean type.
pub const B1_CODE: u8 = 7;

/// Encoding of the 8-bit boolean type.
pub const B8_CODE: u8 = 8;

/// Encoding of the 16-bit boolean type.
pub const B16_CODE: u8 = 9;

/// Encoding of the 32-bit boolean type.
pub const B32_CODE: u8 = 10;

/// Encoding of the 64-bit boolean type.
pub const B64_CODE: u8 = 11;

/// The largest exponent of a lane count: a vector has at most `2^8` lanes.
pub const MAX_LOG2_LANES: u8 = 8;

/// The type of an SSA value.
///
/// The `VOID` type is only used for instructions that produce no value. It can't be part of a
/// SIMD vector.
///
/// Basic integer types: `I8`, `I16`, `I32`, and `I64`. These types are sign-agnostic.
///
/// Basic floating point types: `F32` and `F64`. IEEE single and double precision.
///
/// Boolean types: `B1`, `B8`, `B16`, `B32`, and `B64`. These all encode 'true' or 'false'. The
/// larger types use redundant bits.
///
/// SIMD vector types have power-of-two lanes, up to 256. Lanes can be any int/float/bool type.
///
/// The view of a type is its encoding byte. Every value that executable code can hold
/// satisfies [`Type::is_valid`]: the byte is private to the crate and every operation keeps
/// it valid.
#[derive(Copy, Clone, PartialEq, Eq, Debug, Structural)]
pub struct Type(pub(crate) u8);

impl View for Type {
    type V = u8;

    open(crate) spec fn view(&self) -> u8 {
        self.0
    }
}

/// No type. Used for functions without a return value. Can't be loaded or stored. Can't be part of
/// a SIMD vector.
pub fn VOID() -> (t: Type)
    ensures
        t@ == VOID_CODE,
{
    Type(VOID_CODE)
}

/// Integer type with 8 bits.
pub fn I8() -> (t: Type)
    ensures
        t@ == I8_CODE,
{
    Type(I8_CODE)
}

/// Integer type with 16 bits.
pub fn I16() -> (t: Type)
    ensures
        t@ == I16_CODE,
{
    Type(I16_CODE)
}

/// Integer type with 32 bits.
pub fn I32() -> (t: Type)
    ensures
        t@ == I32_CODE,
{
    Type(I32_CODE)
}

/// Integer type with 64 bits.
pub fn I64() -> (t: Type)
    ensures
        t@ == I64_CODE,
{
    Type(I64_CODE)
}

/// IEEE single precision floating point type.
pub fn F32() -> (t: Type)
    ensures
        t@ == F32_CODE,
{
    Type(F32_CODE)
}

/// IEEE double precision floating point type.
pub fn F64() -> (t: Type)
    ensures
        t@ == F64_CODE,
{
    Type(F64_CODE)
}

/// Boolean type. Can't be loaded or stored, but can be used to form SIMD vectors.
pub fn B1() -> (t: Type)
    ensures
        t@ == B1_CODE,
{
    Type(B1_CODE)
}

/// Boolean type using 8 bits to represent true/false.
pub fn B8() -> (t: Type)
    ensures
        t@ == B8_CODE,
{
    Type(B8_CODE)
}

/// Boolean type using 16 bits to represent true/false.
pub fn B16() -> (t: Type)
    ensures
        t@ == B16_CODE,
{
    Type(B16_CODE)
}

/// Boolean type using 32 bits to represent true/false.
pub fn B32() -> (t: Type)
    ensures
        t@ == B32_CODE,
{
    Type(B32_CODE)
}

/// Boolean type using 64 bits to represent true/false.
pub fn B64() -> (t: Type)
    ensures
        t@ == B64_CODE,
{
    Type(B64_CODE)
}

impl Type {
    /// The type that `byte` encodes.
    pub open(crate) spec fn of(byte: u8) -> Type {
        Type(byte)
    }

    /// Decoding a byte and viewing the result gives the byte back.
    pub broadcast proof fn lemma_view_of(byte: u8)
        ensures
            (#[trigger] Type::of(byte))@ == byte,
    {
    }

    /// A type is the decoding of its own view.
    pub broadcast proof fn lemma_of_view(self)
        ensures
            Type::of(#[trigger] self@) == self,
    {
    }

    /// Two types are equal exactly when their encodings are: a type has no identity
    /// beyond its byte.
    pub proof fn lemma_equal_iff_same_view(self, other: Type)
        ensures
            self == other <==> self@ == other@,
    {
    }

    /// The low nibble: which lane type this is.
    pub open spec fn base_code(self) -> u8 {
        self@ % 16
    }

    /// Whether the byte encodes a type at all: the base code is one of the twelve that are
    /// defined, the lane count is at most 256, and `VOID` has a single lane.
    ///
    /// This is the invariant of the type: executable code never holds a value without it.
    #[verifier::type_invariant]
    pub open spec fn is_valid(self) -> bool {
        &&& self.base_code() <= B64_CODE
        &&& self.spec_log2_lane_count() <= MAX_LOG2_LANES
        &&& self.base_code() == VOID_CODE ==> self.spec_log2_lane_count() == 0
    }

    /// The lane type: the same base code, with a single lane.
    pub open spec fn spec_lane_type(self) -> Type {
        Type::of(self.base_code())
    }

    /// Get the lane type of this SIMD vector type.
    ///
    /// A scalar type is the same as a SIMD vector type with one lane, so it returns itself.
    #[verifier::when_used_as_spec(spec_lane_type)]
    pub fn lane_type(self) -> (r: Type)
        ensures
            r == self.spec_lane_type(),
            r@ == self.base_code(),
            r.is_valid(),
    {
        proof {
            use_type_invariant(&self);
        }
        let tag = self.0;
        assert(tag & 0x0f == tag % 16) by (bit_vector);
        Type(tag & 0x0f)
    }

    /// The width of a lane in bits, by base code. `VOID` has no width, and neither has a
    /// base code that names no type.
    pub open spec fn spec_lane_bits(self) -> u8 {
        let code = self.base_code();
        if code == B1_CODE {
            1
        } else if code == B8_CODE || code == I8_CODE {
            8
        } else if code == B16_CODE || code == I16_CODE {
            16
        } else if code == B32_CODE || code == I32_CODE || code == F32_CODE {
            32
        } else if code == B64_CODE || code == I64_CODE || code == F64_CODE {
            64
        } else {
            0
        }
    }

    /// Get the number of bits in a lane.
    #[verifier::when_used_as_spec(spec_lane_bits)]
    pub fn lane_bits(self) -> (r: u8)
        ensures
            r == self.spec_lane_bits(),
    {
        let code = self.lane_type().0;
        if code == B1_CODE {
            1
        } else if code == B8_CODE || code == I8_CODE {
            8
        } else if code == B16_CODE || code == I16_CODE {
            16
        } else if code == B32_CODE || code == I32_CODE || code == F32_CODE {
            32
        } else if code == B64_CODE || code == I64_CODE || code == F64_CODE {
            64
        } else {
            0
        }
    }

    /// Whether this is exactly `VOID`.
    pub open spec fn spec_is_void(self) -> bool {
        self@ == VOID_CODE
    }

    /// Is this the VOID type?
    #[verifier::when_used_as_spec(spec_is_void)]
    pub fn is_void(self) -> (r: bool)
        ensures
            r == self.spec_is_void(),
    {
        self.0 == VOID_CODE
    }

    /// Whether this is exactly one of `B1`, `B8`, `B16`, `B32`, `B64`. A vector of booleans
    /// is not.
    pub open spec fn spec_is_bool(self) -> bool {
        let tag = self@;
        tag == B1_CODE || tag == B8_CODE || tag == B16_CODE || tag == B32_CODE || tag == B64_CODE
    }

    /// Is this a scalar boolean type?
    ///
    /// This is deliberately narrow: a vector with boolean lanes gives `false`.
    #[verifier::when_used_as_spec(spec_is_bool)]
    pub fn is_bool(self) -> (r: bool)
        ensures
            r == self.spec_is_bool(),
    {
        let tag = self.0;
        tag == B1_CODE || tag == B8_CODE || tag == B16_CODE || tag == B32_CODE || tag == B64_CODE
    }

    /// Whether this is exactly one of `I8`, `I16`, `I32`, `I64`. A vector of integers is not.
    pub open spec fn spec_is_int(self) -> bool {
        let tag = self@;
        tag == I8_CODE || tag == I16_CODE || tag == I32_CODE || tag == I64_CODE
    }

    /// Is this a scalar integer type?
    ///
    /// This is deliberately narrow: a vector with integer lanes gives `false`.
    #[verifier::when_used_as_spec(spec_is_int)]
    pub fn is_int(self) -> (r: bool)
        ensures
            r == self.spec_is_int(),
    {
        let tag = self.0;
        tag == I8_CODE || tag == I16_CODE || tag == I32_CODE || tag == I64_CODE
    }

    /// Whether this is exactly `F32` or `F64`. A vector of floats is not.
    pub open spec fn spec_is_float(self) -> bool {
        let tag = self@;
        tag == F32_CODE || tag == F64_CODE
    }

    /// Is this a scalar floating point type?
    ///
    /// This is deliberately narrow: a vector with floating point lanes gives `false`.
    #[verifier::when_used_as_spec(spec_is_float)]
    pub fn is_float(self) -> (r: bool)
        ensures
            r == self.spec_is_float(),
    {
        let tag = self.0;
        tag == F32_CODE || tag == F64_CODE
    }

    /// The high nibble: the base-two logarithm of the lane count.
    pub open spec fn spec_log2_lane_count(self) -> u8 {
        self@ / 16
    }

    /// Get log2 of the number of lanes in this SIMD vector type.
    ///
    /// All SIMD types have a lane count that is a power of two and no larger than 256, so this
    /// will be a number in the range 0-8.
    ///
    /// A scalar type is the same as a SIMD vector type with one lane, so it return 0.
    #[verifier::when_used_as_spec(spec_log2_lane_count)]
    pub fn log2_lane_count(self) -> (r: u8)
        ensures
            r == self.spec_log2_lane_count(),
            r <= MAX_LOG2_LANES,
    {
        proof {
            use_type_invariant(&self);
        }
        let tag = self.0;
        assert(tag >> 4 == tag / 16) by (bit_vector);
        tag >> 4
    }

    /// Whether this type has a single lane.
    pub open spec fn spec_is_scalar(self) -> bool {
        self.spec_log2_lane_count() == 0
    }

    /// Is this a scalar type? (That is, not a SIMD vector type).
    ///
    /// A scalar type is the same as a SIMD vector type with one lane.
    #[verifier::when_used_as_spec(spec_is_scalar)]
    pub fn is_scalar(self) -> (r: bool)
        ensures
            r == self.spec_is_scalar(),
    {
        self.log2_lane_count() == 0
    }

    /// The number of lanes: two to the power of the high nibble.
    pub open spec fn spec_lane_count(self) -> u16 {
        exp2(self.spec_log2_lane_count())
    }

    /// Get the number of lanes in this SIMD vector type.
    ///
    /// A scalar type is the same as a SIMD vector type with one lane, so it returns 1.
    #[verifier::when_used_as_spec(spec_lane_count)]
    pub fn lane_count(self) -> (r: u16)
        ensures
            r == self.spec_lane_count(),
            is_power_of_two(r),
            1 <= r <= 256,
    {
        let log2_lanes = self.log2_lane_count();
        assert(1u16 << log2_lanes == exp2(log2_lanes)) by (bit_vector)
            requires
                log2_lanes <= 8,
        ;
        1u16 << log2_lanes
    }

    /// The total width: the width of a lane times the number of lanes.
    pub open spec fn spec_bits(self) -> u16 {
        (self.spec_lane_bits() * self.spec_lane_count()) as u16
    }

    /// Get the total number of bits used to represent this type.
    #[verifier::when_used_as_spec(spec_bits)]
    pub fn bits(self) -> (r: u16)
        ensures
            r == self.spec_bits(),
            r == self.spec_lane_bits() * self.spec_lane_count(),
            r <= 16384,
    {
        let lane_bits = self.lane_bits() as u16;
        let lane_count = self.lane_count();
        assert(lane_bits * lane_count <= 64 * 256) by (nonlinear_arith)
            requires
                lane_bits <= 64,
                lane_count <= 256,
        ;
        lane_bits * lane_count
    }

    /// The type with `n` times the lanes: the logarithm of `n` is added to the high nibble.
    pub open spec fn spec_by_lanes(self, n: u16) -> Type {
        Type::of((self@ + 16 * log2(n)) as u8)
    }

    /// Get a SIMD vector type with `n` times more lanes than this one.
    ///
    /// If this is a scalar type, this produces a SIMD type with this as a lane type and `n` lanes.
    ///
    /// If this is already a SIMD vector type, this produces a SIMD vector type with `n *
    /// self.lane_count()` lanes.
    ///
    /// The caller must not ask for lanes of `VOID`, for a multiple that is no power of two,
    /// or for more than 256 lanes in all.
    #[verifier::when_used_as_spec(spec_by_lanes)]
    pub fn by_lanes(self, n: u16) -> (r: Type)
        requires
            self.lane_bits() > 0,
            is_power_of_two(n),
            n * self.lane_count() <= 256,
        ensures
            r == self.spec_by_lanes(n),
            r@ == self@ + 16 * log2(n),
            r.is_valid(),
            r.lane_type() == self.lane_type(),
            r.lane_count() == n * self.lane_count(),
    {
        proof {
            use_type_invariant(&self);
            lemma_trailing_zeros_of_power(n);
        }
        let log2_lanes: u32 = n.trailing_zeros();
        assert(log2_lanes << 4 == 16 * log2_lanes) by (bit_vector)
            requires
                log2_lanes < 16,
        ;
        let new_type = self.0 as u32 + (log2_lanes << 4);
        Type(new_type as u8)
    }

    /// The type with half the lanes: one less in the high nibble.
    pub open spec fn spec_half_vector(self) -> Type {
        Type::of((self@ - 16) as u8)
    }

    /// Get a SIMD vector with half the number of lanes.
    ///
    /// The caller must not ask for half of a scalar.
    #[verifier::when_used_as_spec(spec_half_vector)]
    pub fn half_vector(self) -> (r: Type)
        requires
            !self.is_scalar(),
        ensures
            r == self.spec_half_vector(),
            r@ == self@ - 16,
            r.is_valid(),
            r.lane_type() == self.lane_type(),
            2 * r.lane_count() == self.lane_count(),
    {
        proof {
            use_type_invariant(&self);
        }
        Type(self.0 - 0x10)
    }
}

/// The facts that tie a type to its encoding byte, for code that cannot see the byte.
pub broadcast group group_type_encoding {
    Type::lemma_view_of,
    Type::lemma_of_view,
}

} // verus!
