//! Arithmetic modulo a bound on `u64`, the widest storage a wrapped number
//! can have. Sums and products are reduced by the bound without ever losing
//! a carry to the width of the machine word.

use vstd::arithmetic::div_mod::{lemma_add_mod_noop, lemma_fundamental_div_mod_converse, lemma_small_mod};
use vstd::prelude::*;

verus! {

/// Two to the power 64, the number of values of a `u64`.
pub open spec fn pow2_64() -> nat {
    u64::MAX as nat + 1
}

/// Two to the power 128, the number of values of a `u128`.
pub open spec fn pow2_128() -> nat {
    u128::MAX as nat + 1
}

/// `num::traits::WrappingAdd::wrapping_add` on `u64`: the sum of the two
/// numbers, reduced modulo two to the power 64.
#[verifier::external_body]
fn wrapping_add_u64(a: u64, b: u64) -> (r: u64)
    ensures
        r as nat == (a as nat + b as nat) % pow2_64(),
{
    num::traits::WrappingAdd::wrapping_add(&a, &b)
}

/// `num::traits::WrappingMul::wrapping_mul` on `u128`: the product of the two
/// numbers, reduced modulo two to the power 128.
#[verifier::external_body]
fn wrapping_mul_u128(a: u128, b: u128) -> (r: u128)
    ensures
        r as nat == (a as nat * b as nat) % pow2_128(),
{
    num::traits::WrappingMul::wrapping_mul(&a, &b)
}

/// The sum of two residues below `m` is reduced by at most one subtraction.
pub proof fn lemma_sum_of_residues(x: nat, y: nat, m: nat)
    requires
        x < m,
        y < m,
    ensures
        (x + y) % m == (if x + y < m { x + y } else { (x + y - m) as nat }),
{
    if x + y < m {
        lemma_small_mod(x + y, m);
    } else {
        lemma_fundamental_div_mod_converse((x + y) as int, m as int, 1, x + y - m);
    }
}

/// The product of two 64-bit numbers fits in 128 bits.
pub proof fn lemma_product_fits(a: nat, b: nat)
    requires
        a < pow2_64(),
        b < pow2_64(),
    ensures
        a * b < pow2_128(),
{
    assert(a * b <= (pow2_64() - 1) * (pow2_64() - 1)) by (nonlinear_arith)
        requires
            a <= pow2_64() - 1,
            b <= pow2_64() - 1,
    ;
}

/// `(a + b) mod m`, for any two 64-bit numbers: the sum is taken in the
/// integers, so a carry out of 64 bits is not lost.
pub fn add_mod(a: u64, b: u64, m: u64) -> (r: u64)
    requires
        m > 0,
    ensures
        r as nat == (a as nat + b as nat) % (m as nat),
        r < m,
{
    let x: u64 = a % m;
    let y: u64 = b % m;
    let s: u64 = wrapping_add_u64(x, y);
    proof {
        lemma_add_mod_noop(a as int, b as int, m as int);
        assert((a as nat + b as nat) % (m as nat) == (x as nat + y as nat) % (m as nat));
        lemma_sum_of_residues(x as nat, y as nat, m as nat);
        lemma_sum_of_residues(x as nat, y as nat, pow2_64());
    }
    if s < x {
        // The machine sum wrapped: the true sum is `s` plus two to the 64.
        s + (u64::MAX - m) + 1
    } else if s >= m {
        s - m
    } else {
        s
    }
}

/// `(a * b) mod m`, for any two 64-bit numbers: the product is taken in 128
/// bits, where it cannot wrap.
pub fn mul_mod(a: u64, b: u64, m: u64) -> (r: u64)
    requires
        m > 0,
    ensures
        r as nat == (a as nat * b as nat) % (m as nat),
        r < m,
{
    let p: u128 = wrapping_mul_u128(a as u128, b as u128);
    proof {
        lemma_product_fits(a as nat, b as nat);
        lemma_small_mod(a as nat * b as nat, pow2_128());
    }
    let r: u128 = p % (m as u128);
    r as u64
}

} // verus!
