//! Rounding to multiples of an alignment.
use vstd::arithmetic::div_mod::*;
use vstd::arithmetic::power2::*;
use vstd::prelude::*;

verus! {

/// The largest multiple of `a` that is at most `x`.
pub open spec fn align_down(x: int, a: int) -> int {
    x - x % a
}

/// The smallest multiple of `a` that is at least `x`.
pub open spec fn align_up(x: int, a: int) -> int {
    if x % a == 0 {
        x
    } else {
        x - x % a + a
    }
}

/// The number of blocks of `a` bytes that `x` bytes touch.
pub open spec fn div_ceil(x: int, a: int) -> int {
    align_up(x, a) / a
}

/// `usize::is_power_of_two` of the standard library: true exactly on the powers of two.
pub assume_specification[ usize::is_power_of_two ](x: usize) -> (r: bool)
    ensures
        r == is_pow2(x as int),
;

/// `align_down` gives a multiple at most one alignment below.
pub proof fn lemma_align_down(x: int, a: int)
    requires
        a > 0,
    ensures
        align_down(x, a) % a == 0,
        align_down(x, a) <= x < align_down(x, a) + a,
        align_down(x, a) == a * (x / a),
{
    lemma_fundamental_div_mod(x, a);
    lemma_mod_multiples_basic(x / a, a);
    assert(a * (x / a) == (x / a) * a) by (nonlinear_arith);
}

/// `align_up` gives a multiple less than one alignment above.
pub proof fn lemma_align_up(x: int, a: int)
    requires
        a > 0,
    ensures
        align_up(x, a) % a == 0,
        x <= align_up(x, a) < x + a,
{
    lemma_align_down(x, a);
    let q = x / a;
    assert(a * q + a == (q + 1) * a) by (nonlinear_arith);
    lemma_mod_multiples_basic(q + 1, a);
}

/// No multiple lies between a value and its `align_up`.
pub proof fn lemma_align_up_least(x: int, m: int, a: int)
    requires
        a > 0,
        m % a == 0,
        x <= m,
    ensures
        align_up(x, a) <= m,
{
    if x % a != 0 {
        lemma_fundamental_div_mod(x, a);
        lemma_fundamental_div_mod(m, a);
        let p = m / a;
        let q = x / a;
        let r = x % a;
        assert(p >= q + 1) by (nonlinear_arith)
            requires
                a * p >= a * q + r,
                r > 0,
                a > 0,
        ;
        assert(a * p >= a * q + a) by (nonlinear_arith)
            requires
                p >= q + 1,
                a > 0,
        ;
    }
}

/// Shifting by a multiple shifts the rounded value by the same amount.
pub proof fn lemma_align_up_shift(m: int, x: int, a: int)
    requires
        a > 0,
        m % a == 0,
    ensures
        align_up(m + x, a) == m + align_up(x, a),
{
    lemma_fundamental_div_mod(m, a);
    lemma_fundamental_div_mod(x, a);
    let p = m / a;
    let q = x / a;
    assert(a * p + a * q == (p + q) * a) by (nonlinear_arith);
    lemma_fundamental_div_mod_converse(m + x, a, p + q, x % a);
}

/// `div_ceil` is the quotient of the rounded value, and its product with `a` covers `x`.
pub proof fn lemma_div_ceil(x: int, a: int)
    requires
        a > 0,
        x >= 0,
    ensures
        div_ceil(x, a) * a == align_up(x, a),
        div_ceil(x, a) >= 0,
        x <= div_ceil(x, a) * a,
        div_ceil(x, a) == if x % a == 0 { x / a } else { x / a + 1 },
{
    lemma_align_up(x, a);
    lemma_fundamental_div_mod(x, a);
    lemma_fundamental_div_mod(align_up(x, a), a);
    let q = x / a;
    let c = align_up(x, a) / a;
    assert(a * c == c * a) by (nonlinear_arith);
    assert(a * q + a == (q + 1) * a) by (nonlinear_arith);
    if x % a != 0 {
        assert(c == q + 1) by (nonlinear_arith)
            requires
                c * a == (q + 1) * a,
                a > 0,
        ;
    }
    assert(c >= 0) by (nonlinear_arith)
        requires
            c * a >= 0,
            a > 0,
    ;
}

/// A power of two divides every larger power of two.
pub proof fn lemma_pow2_divides(small: int, large: int)
    requires
        is_pow2(small),
        is_pow2(large),
        small <= large,
    ensures
        small > 0,
        large % small == 0,
{
    is_pow2_equiv(small);
    is_pow2_equiv(large);
    let i: nat = choose|i: nat| vstd::arithmetic::power::pow(2, i) == small;
    let j: nat = choose|j: nat| vstd::arithmetic::power::pow(2, j) == large;
    lemma_pow2(i);
    lemma_pow2(j);
    lemma_pow2_pos(i);
    if j < i {
        lemma_pow2_strictly_increases(j, i);
    }
    lemma_pow2_adds(i, (j - i) as nat);
    lemma_mod_multiples_basic(pow2((j - i) as nat) as int, small);
    assert(large == pow2((j - i) as nat) as int * small) by (nonlinear_arith)
        requires
            large == pow2(i) * pow2((j - i) as nat),
            small == pow2(i),
    ;
}

/// Powers of two are positive.
pub proof fn lemma_pow2_positive(x: int)
    requires
        is_pow2(x),
    ensures
        x > 0,
{
    reveal(is_pow2);
}

/// The bound on one bounce buffer is a power of two.
pub proof fn lemma_64k_is_pow2()
    ensures
        is_pow2(65536),
{
    lemma2_to64();
    is_pow2_equiv(65536);
    lemma_pow2(16);
    assert(vstd::arithmetic::power::pow(2, 16) == 65536);
}

} // verus!
