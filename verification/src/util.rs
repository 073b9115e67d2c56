//! Arithmetic on sizes and alignments.

use vstd::arithmetic::div_mod::{lemma_fundamental_div_mod, lemma_mod_multiples_basic};
use vstd::arithmetic::mul::{lemma_mul_is_commutative, lemma_mul_strict_inequality_converse};
use vstd::prelude::*;

verus! {

/// The number of bits in a byte.
pub const BITS_PER_BYTE: u64 = 8;

/// Whether `n` is a power of two.
pub open spec fn is_power_of_two(n: int) -> bool
    decreases n,
{
    n == 1 || (n > 1 && n % 2 == 0 && is_power_of_two(n / 2))
}

/// Whether `a` can serve as an alignment in bits: a power of two that is a
/// whole number of bytes.
pub open spec fn valid_alignment(a: u64) -> bool {
    a >= BITS_PER_BYTE && is_power_of_two(a as int)
}

/// The smallest multiple of `m` that is not below `n`, for positive `m`.
#[verifier::opaque]
pub open spec fn round_up_to(n: int, m: int) -> int {
    if n % m == 0 {
        n
    } else {
        n + m - n % m
    }
}

/// `round_up_to` within the range of `u64`; `None` where the result leaves it.
pub open spec fn checked_round_up_to(n: u64, m: u64) -> Option<u64> {
    if round_up_to(n as int, m as int) <= u64::MAX {
        Some(round_up_to(n as int, m as int) as u64)
    } else {
        None
    }
}

/// The larger of two numbers.
pub open spec fn max_u64(a: u64, b: u64) -> u64 {
    if a >= b {
        a
    } else {
        b
    }
}

/// The smaller of two numbers.
pub open spec fn min_u64(a: u64, b: u64) -> u64 {
    if a <= b {
        a
    } else {
        b
    }
}

/// Of two powers of two, the smaller divides the larger.
pub proof fn lemma_power_of_two_divides(a: int, b: int)
    requires
        is_power_of_two(a),
        is_power_of_two(b),
        a <= b,
    ensures
        b % a == 0,
    decreases b,
{
    if a == 1 {
        assert(b % 1 == 0);
    } else if a == b {
        assert(b % b == 0) by (nonlinear_arith)
            requires
                b > 0,
        ;
    } else {
        let ha = a / 2;
        let hb = b / 2;
        lemma_power_of_two_divides(ha, hb);
        lemma_fundamental_div_mod(hb, ha);
        let q = hb / ha;
        assert(hb == ha * q);
        assert(b == a * q) by (nonlinear_arith)
            requires
                b == 2 * hb,
                a == 2 * ha,
                hb == ha * q,
        ;
        lemma_mul_is_commutative(a, q);
        lemma_mod_multiples_basic(q, a);
    }
}

/// A multiple of a power of two is a multiple of every smaller power of two.
pub proof fn lemma_multiple_of_smaller_power(x: int, a: int, b: int)
    requires
        is_power_of_two(a),
        is_power_of_two(b),
        a <= b,
        x % b == 0,
    ensures
        x % a == 0,
{
    lemma_power_of_two_divides(a, b);
    lemma_fundamental_div_mod(x, b);
    lemma_fundamental_div_mod(b, a);
    let q = x / b;
    let r = b / a;
    assert(x == a * (r * q)) by (nonlinear_arith)
        requires
            x == b * q,
            b == a * r,
    ;
    lemma_mul_is_commutative(a, r * q);
    lemma_mod_multiples_basic(r * q, a);
}

/// A valid alignment is a whole number of bytes.
pub proof fn lemma_valid_alignment_whole_bytes(a: u64)
    requires
        valid_alignment(a),
    ensures
        a % BITS_PER_BYTE == 0,
{
    reveal_with_fuel(is_power_of_two, 4);
    assert(is_power_of_two(8));
    lemma_power_of_two_divides(8, a as int);
}

/// `round_up_to(n, m)` is a multiple of `m`, lies in `n .. n + m`, and no
/// multiple of `m` lies between `n` and it.
pub proof fn lemma_round_up_to(n: int, m: int)
    requires
        0 <= n,
        0 < m,
    ensures
        round_up_to(n, m) % m == 0,
        n <= round_up_to(n, m) < n + m,
        forall|k: int| k >= n && #[trigger] (k % m) == 0 ==> k >= round_up_to(n, m),
{
    reveal(round_up_to);
    let r = round_up_to(n, m);
    let q = n / m;
    lemma_fundamental_div_mod(n, m);
    if n % m != 0 {
        assert(r == (q + 1) * m) by (nonlinear_arith)
            requires
                n == m * q + n % m,
                r == n + m - n % m,
        ;
        lemma_mod_multiples_basic(q + 1, m);
    }
    assert forall|k: int| k >= n && #[trigger] (k % m) == 0 implies k >= r by {
        if k < r {
            lemma_fundamental_div_mod(k, m);
            let j = k / m;
            assert(k == m * j);
            // r - m < n <= k < r, with r and k both multiples of m
            assert(r == (q + 1) * m) by (nonlinear_arith)
                requires
                    n == m * q + n % m,
                    r == n + m - n % m,
                    n % m != 0,
            ;
            assert(q * m < j * m) by (nonlinear_arith)
                requires
                    n == m * q + n % m,
                    n % m > 0,
                    k >= n,
                    k == m * j,
            ;
            assert(j * m < (q + 1) * m) by (nonlinear_arith)
                requires
                    k < r,
                    k == m * j,
                    r == (q + 1) * m,
            ;
            lemma_mul_strict_inequality_converse(q, j, m);
            lemma_mul_strict_inequality_converse(j, q + 1, m);
        }
    }
}

/// Tells whether `a` is a power of two.
pub fn is_power_of_two_u64(a: u64) -> (r: bool)
    ensures
        r == is_power_of_two(a as int),
{
    if a == 0 {
        return false;
    }
    let mut x: u64 = a;
    while x % 2 == 0
        invariant
            x > 0,
            is_power_of_two(x as int) == is_power_of_two(a as int),
        decreases x,
    {
        x = x / 2;
    }
    x == 1
}

/// Rounds `n` up to the next multiple of the alignment `m`. Returns `None`
/// where that multiple does not fit in 64 bits.
pub fn align_to(n: u64, m: u64) -> (r: Option<u64>)
    requires
        is_power_of_two(m as int),
    ensures
        r == checked_round_up_to(n, m),
{
    proof {
        reveal(round_up_to);
    }
    let rem: u64 = n % m;
    if rem == 0 {
        Some(n)
    } else {
        n.checked_add(m - rem)
    }
}

/// The larger of `a` and `b`.
pub fn max(a: u64, b: u64) -> (r: u64)
    ensures
        r == max_u64(a, b),
{
    if a >= b {
        a
    } else {
        b
    }
}

/// The smaller of `a` and `b`.
pub fn min(a: u64, b: u64) -> (r: u64)
    ensures
        r == min_u64(a, b),
{
    if a <= b {
        a
    } else {
        b
    }
}

} // verus!
