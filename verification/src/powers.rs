//! Powers of two that fit in sixteen bits, and their logarithms.
//!
//! A lane count is such a power, and so is the factor by which a vector grows. The two
//! functions are written out as tables, so that a fact about a given number needs no
//! proof; the lemmas below say that the tables hold what their names promise.

use vstd::arithmetic::logarithm::{lemma_log_pow, log};
use vstd::arithmetic::power::pow;
use vstd::arithmetic::power2::{
    is_pow2, is_pow2_equiv, is_pow2_exists, lemma2_to64, lemma_pow2, lemma_pow2_adds,
    lemma_pow2_strictly_increases, pow2,
};
use vstd::prelude::*;
use vstd::std_specs::bits::axiom_u16_trailing_zeros;

verus! {

/// Two to the power of `k`, for an exponent below sixteen.
pub open spec fn exp2(k: u8) -> u16
    recommends
        k < 16,
{
    if k == 0 {
        1
    } else if k == 1 {
        2
    } else if k == 2 {
        4
    } else if k == 3 {
        8
    } else if k == 4 {
        16
    } else if k == 5 {
        32
    } else if k == 6 {
        64
    } else if k == 7 {
        128
    } else if k == 8 {
        256
    } else if k == 9 {
        512
    } else if k == 10 {
        1024
    } else if k == 11 {
        2048
    } else if k == 12 {
        4096
    } else if k == 13 {
        8192
    } else if k == 14 {
        16384
    } else {
        32768
    }
}

/// The logarithm of `n` to base two, rounded down. For zero it is zero.
pub open spec fn log2(n: u16) -> u8 {
    if n < 2 {
        0
    } else if n < 4 {
        1
    } else if n < 8 {
        2
    } else if n < 16 {
        3
    } else if n < 32 {
        4
    } else if n < 64 {
        5
    } else if n < 128 {
        6
    } else if n < 256 {
        7
    } else if n < 512 {
        8
    } else if n < 1024 {
        9
    } else if n < 2048 {
        10
    } else if n < 4096 {
        11
    } else if n < 8192 {
        12
    } else if n < 16384 {
        13
    } else if n < 32768 {
        14
    } else {
        15
    }
}

/// Whether `n` is a power of two: whether it is two to the power of its own logarithm.
pub open spec fn is_power_of_two(n: u16) -> bool {
    n == exp2(log2(n))
}

/// The table of powers holds the powers of two.
pub proof fn lemma_exp2_is_pow2(k: u8)
    requires
        k < 16,
    ensures
        exp2(k) == pow2(k as nat),
        log2(exp2(k)) == k,
        is_power_of_two(exp2(k)),
{
    lemma2_to64();
}

/// The table of logarithms rounds down: a number above zero lies between two to the power
/// of its logarithm and the double of that.
pub proof fn lemma_log2_rounds_down(n: u16)
    requires
        n > 0,
    ensures
        log2(n) < 16,
        exp2(log2(n)) <= n < 2 * exp2(log2(n)),
{
}

/// The numbers that pass for powers of two are the powers of two, and the table of
/// logarithms holds their logarithms.
pub proof fn lemma_power_of_two_is_pow2(n: u16)
    ensures
        is_power_of_two(n) <==> is_pow2(n as int),
        is_power_of_two(n) ==> log2(n) == log(2, n as int),
{
    is_pow2_equiv(n as int);
    lemma2_to64();
    if is_power_of_two(n) {
        let k = log2(n) as nat;
        lemma_pow2(k);
        lemma_log_pow(2, k);
        assert(pow(2, k) == n as int);
    }
    if is_pow2_exists(n as int) {
        let i = choose|i: nat| pow(2, i) == n as int;
        lemma_pow2(i);
        if i > 16 {
            lemma_pow2_strictly_increases(16, i);
        }
        if i < 16 {
            lemma_exp2_is_pow2(i as u8);
        }
    }
}

/// The product of two powers of two is a power of two, and its logarithm is the sum of
/// theirs.
pub proof fn lemma_product_of_powers(a: u16, b: u16)
    requires
        is_power_of_two(a),
        is_power_of_two(b),
        a * b <= u16::MAX,
    ensures
        is_power_of_two((a * b) as u16),
        log2((a * b) as u16) == log2(a) + log2(b),
{
    let i = log2(a);
    let j = log2(b);
    lemma_exp2_is_pow2(i);
    lemma_exp2_is_pow2(j);
    lemma_pow2_adds(i as nat, j as nat);
    lemma2_to64();
    if i + j > 16 {
        lemma_pow2_strictly_increases(16, (i + j) as nat);
    }
    lemma_exp2_is_pow2((i + j) as u8);
}

/// The logarithm of a power of two is the number of its trailing zero bits.
pub proof fn lemma_trailing_zeros_of_power(n: u16)
    requires
        is_power_of_two(n),
    ensures
        n.trailing_zeros() == log2(n),
{
    let k = log2(n) as u16;
    assert(n == 1u16 << k) by (bit_vector)
        requires
            k < 16,
            k == 0 ==> n == 1,
            k == 1 ==> n == 2,
            k == 2 ==> n == 4,
            k == 3 ==> n == 8,
            k == 4 ==> n == 16,
            k == 5 ==> n == 32,
            k == 6 ==> n == 64,
            k == 7 ==> n == 128,
            k == 8 ==> n == 256,
            k == 9 ==> n == 512,
            k == 10 ==> n == 1024,
            k == 11 ==> n == 2048,
            k == 12 ==> n == 4096,
            k == 13 ==> n == 8192,
            k == 14 ==> n == 16384,
            k == 15 ==> n == 32768,
    ;
    axiom_u16_trailing_zeros(n);
    let j = n.trailing_zeros() as u16;
    assert(j == k) by (bit_vector)
        requires
            k < 16,
            j < 16,
            n == 1u16 << k,
            (n >> j) & 1u16 == 1u16,
    ;
}

} // verus!
