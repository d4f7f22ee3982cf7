//! What holds of the operations on types taken together.
//!
//! Each law is stated over the functions that the operations' own contracts use, for every
//! type and factor that the operations accept.

use crate::decimal::{decimal_digits, lemma_decimal_digits_value};
use crate::powers::{is_power_of_two, lemma_product_of_powers, log2};
use crate::types::Type;
use vstd::prelude::*;

verus! {

/// A type is its own lane type exactly when it is a scalar. In particular each of the
/// twelve scalar types is its own lane type.
pub proof fn lemma_scalar_is_own_lane_type(t: Type)
    ensures
        t.is_scalar() <==> t.lane_type() == t,
{
}

/// A valid scalar is exactly one of `VOID`, a boolean, an integer or a float, and a vector
/// is none of them, whatever its lanes are. Only `VOID` has no width.
pub proof fn lemma_families(t: Type)
    requires
        t.is_valid(),
    ensures
        t.is_scalar() <==> t.is_void() || t.is_bool() || t.is_int() || t.is_float(),
        !(t.is_void() && t.is_bool()),
        !(t.is_void() && t.is_int()),
        !(t.is_void() && t.is_float()),
        !(t.is_bool() && t.is_int()),
        !(t.is_bool() && t.is_float()),
        !(t.is_int() && t.is_float()),
        t.is_void() <==> t.lane_bits() == 0,
{
}

/// What growing a vector does, read through the accessors: the lane type and its width
/// stay, the lane counts multiply, and the result is valid.
pub proof fn lemma_by_lanes(t: Type, n: u16)
    requires
        t.lane_bits() > 0,
        is_power_of_two(n),
        n * t.lane_count() <= 256,
    ensures
        t.by_lanes(n).is_valid(),
        t.by_lanes(n).lane_type() == t.lane_type(),
        t.by_lanes(n).lane_bits() == t.lane_bits(),
        t.by_lanes(n).log2_lane_count() == t.log2_lane_count() + log2(n),
        t.by_lanes(n).lane_count() == n * t.lane_count(),
        t.by_lanes(n).is_scalar() <==> t.is_scalar() && n == 1,
{
}

/// What halving a vector does, read through the accessors: the lane type and its width
/// stay, the lane count halves, and validity is kept.
pub proof fn lemma_half_vector(t: Type)
    requires
        !t.is_scalar(),
    ensures
        t.is_valid() ==> t.half_vector().is_valid(),
        t.half_vector().lane_type() == t.lane_type(),
        t.half_vector().lane_bits() == t.lane_bits(),
        t.half_vector().log2_lane_count() == t.log2_lane_count() - 1,
        2 * t.half_vector().lane_count() == t.lane_count(),
{
}

/// One is a power of two and takes no valid type past 256 lanes, so any type but `VOID` can
/// be grown by one; it is then the type itself.
pub proof fn lemma_by_one(t: Type)
    requires
        t.is_valid(),
    ensures
        is_power_of_two(1),
        1 * t.lane_count() <= 256,
        t.by_lanes(1) == t,
{
}

/// Making a vector of a scalar and asking for its lanes gives the scalar and the count back.
pub proof fn lemma_by_lanes_round_trip(t: Type, n: u16)
    requires
        t.is_scalar(),
        t.lane_bits() > 0,
        is_power_of_two(n),
        n <= 256,
    ensures
        t.by_lanes(n).lane_type() == t,
        t.by_lanes(n).lane_count() == n,
{
}

/// Growing a vector in two steps is growing it once by the product of the factors.
pub proof fn lemma_by_lanes_composes(t: Type, a: u16, b: u16)
    requires
        t.lane_bits() > 0,
        is_power_of_two(a),
        is_power_of_two(b),
        a * b * t.lane_count() <= 256,
    ensures
        a * t.lane_count() <= 256,
        b * t.by_lanes(a).lane_count() <= 256,
        is_power_of_two((a * b) as u16),
        t.by_lanes(a).by_lanes(b) == t.by_lanes((a * b) as u16),
{
    let c = t.lane_count();
    assert(a * c <= 256 && a * b <= 256 && b * (a * c) == a * b * c) by (nonlinear_arith)
        requires
            a * b * c <= 256,
            a >= 1,
            b >= 1,
            c >= 1,
    ;
    lemma_product_of_powers(a, b);
    lemma_by_lanes(t, a);
}

/// Halving a vector that was grown by `n` gives the vector grown by half of `n`.
pub proof fn lemma_half_vector_undoes_by_lanes(t: Type, n: u16)
    requires
        t.lane_bits() > 0,
        is_power_of_two(n),
        n > 1,
        n * t.lane_count() <= 256,
    ensures
        !t.by_lanes(n).is_scalar(),
        is_power_of_two(n / 2),
        (n / 2) * t.lane_count() <= 256,
        t.by_lanes(n).half_vector() == t.by_lanes(n / 2),
{
    let c = t.lane_count();
    assert((n / 2) * c <= n * c) by (nonlinear_arith)
        requires
            n / 2 <= n,
    ;
}

/// Halving the double of a type gives the type back.
pub proof fn lemma_half_of_double(t: Type)
    requires
        t.lane_bits() > 0,
        2 * t.lane_count() <= 256,
    ensures
        is_power_of_two(2),
        !t.by_lanes(2).is_scalar(),
        t.by_lanes(2).half_vector() == t,
{
}

/// The text of a valid scalar has two to four characters, none of them an `x`.
pub proof fn lemma_scalar_text_shape(t: Type)
    requires
        t.is_valid(),
        t.is_scalar(),
    ensures
        2 <= t.scalar_text().len() <= 4,
        forall|k: int| 0 <= k < t.scalar_text().len() ==> t.scalar_text()[k] != 'x',
{
    let s = t.scalar_text();
    assert(s.len() >= 2);
    assert(s[0] != 'x');
    assert(s[1] != 'x');
    assert(s.len() > 2 ==> s[2] != 'x');
    assert(s.len() > 3 ==> s[3] != 'x');
}

/// Two valid scalars with the same text are the same type.
pub proof fn lemma_scalar_text_is_unique(a: Type, b: Type)
    requires
        a.is_valid(),
        b.is_valid(),
        a.is_scalar(),
        b.is_scalar(),
        a.scalar_text() == b.scalar_text(),
    ensures
        a == b,
{
    let s = a.scalar_text();
    let t = b.scalar_text();
    assert(s[0] == t[0]);
    if !a.is_void() {
        let m = a.lane_bits() as u16;
        let n = b.lane_bits() as u16;
        assert(decimal_digits(m) =~= s.subrange(1, s.len() as int));
        assert(decimal_digits(n) =~= t.subrange(1, t.len() as int));
        lemma_decimal_digits_value(m);
        lemma_decimal_digits_value(n);
        assert(a.is_bool() <==> s[0] == 'b');
        assert(b.is_bool() <==> t[0] == 'b');
        assert(a.is_int() <==> s[0] == 'i');
        assert(b.is_int() <==> t[0] == 'i');
    }
}

/// Two valid types with the same text are the same type: the text can be read back.
pub proof fn lemma_text_is_unique(a: Type, b: Type)
    requires
        a.is_valid(),
        b.is_valid(),
        a.text() == b.text(),
    ensures
        a == b,
{
    let s = a.text();
    let t = b.text();
    let p = a.lane_type().scalar_text();
    let q = b.lane_type().scalar_text();
    let i = p.len() as int;
    let j = q.len() as int;
    lemma_scalar_text_shape(a.lane_type());
    lemma_scalar_text_shape(b.lane_type());
    if a.is_scalar() && b.is_scalar() {
        lemma_scalar_text_is_unique(a, b);
    } else if a.is_scalar() {
        assert(t[j] == 'x');
        assert(s[j] != 'x');
    } else if b.is_scalar() {
        assert(s[i] == 'x');
        assert(t[i] != 'x');
    } else {
        let m = a.lane_count();
        let n = b.lane_count();
        assert(s[i] == 'x');
        assert(t[j] == 'x');
        if i < j {
            assert(t[i] == q[i]);
        }
        if j < i {
            assert(s[j] == p[j]);
        }
        assert(p =~= s.subrange(0, i));
        assert(q =~= t.subrange(0, j));
        lemma_scalar_text_is_unique(a.lane_type(), b.lane_type());
        assert(decimal_digits(m) =~= s.subrange(i + 1, s.len() as int));
        assert(decimal_digits(n) =~= t.subrange(j + 1, t.len() as int));
        lemma_decimal_digits_value(m);
        lemma_decimal_digits_value(n);
        assert(a.log2_lane_count() == b.log2_lane_count());
    }
}

} // verus!
