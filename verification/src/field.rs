//! Arithmetic in the prime field of a given modulus `p`, on `u64` values.
//!
//! A field element is a `u64` strictly below the modulus.  The engine is
//! parameterized by the modulus at run time, so a test can work in a small
//! field while a caller may pick a large one.

use vstd::arithmetic::div_mod::lemma_mod_multiples_vanish;
use vstd::arithmetic::div_mod::lemma_small_mod;
use vstd::prelude::*;

verus! {

/// `x` is an element of the field of modulus `p`.
pub open spec fn is_elem(x: u64, p: u64) -> bool {
    x < p
}

/// The sum of `a` and `b` in the field of modulus `p`.
pub open spec fn spec_add(a: u64, b: u64, p: u64) -> u64
    recommends
        p >= 1,
{
    (((a + b) as int) % (p as int)) as u64
}

/// The difference of `a` and `b` in the field of modulus `p`.
pub open spec fn spec_sub(a: u64, b: u64, p: u64) -> u64
    recommends
        p >= 1,
{
    (((a - b) as int) % (p as int)) as u64
}

/// The product of `a` and `b` in the field of modulus `p`.
pub open spec fn spec_mul(a: u64, b: u64, p: u64) -> u64
    recommends
        p >= 1,
{
    (((a * b) as int) % (p as int)) as u64
}

/// Field addition.
pub fn f_add(a: u64, b: u64, p: u64) -> (r: u64)
    requires
        p >= 1,
        is_elem(a, p),
        is_elem(b, p),
    ensures
        r == spec_add(a, b, p),
        is_elem(r, p),
{
    let s: u128 = a as u128 + b as u128;
    let r: u128 = s % (p as u128);
    proof {
        lemma_small_mod((r as int) as nat, p as nat);
    }
    r as u64
}

/// Field subtraction.
pub fn f_sub(a: u64, b: u64, p: u64) -> (r: u64)
    requires
        p >= 1,
        is_elem(a, p),
        is_elem(b, p),
    ensures
        r == spec_sub(a, b, p),
        is_elem(r, p),
{
    let s: u128 = a as u128 + p as u128 - b as u128;
    let r: u128 = s % (p as u128);
    proof {
        lemma_mod_multiples_vanish(1, a - b, p as int);
        lemma_small_mod((r as int) as nat, p as nat);
    }
    r as u64
}

/// Field multiplication.
pub fn f_mul(a: u64, b: u64, p: u64) -> (r: u64)
    requires
        p >= 1,
        is_elem(a, p),
        is_elem(b, p),
    ensures
        r == spec_mul(a, b, p),
        is_elem(r, p),
{
    proof {
        vstd::arithmetic::mul::lemma_mul_upper_bound(
            a as int,
            u64::MAX as int,
            b as int,
            u64::MAX as int,
        );
    }
    let s: u128 = a as u128 * b as u128;
    let r: u128 = s % (p as u128);
    proof {
        lemma_small_mod((r as int) as nat, p as nat);
    }
    r as u64
}

/// Subtracting a field element from itself gives the additive identity.
pub proof fn lemma_sub_self_zero(x: u64, p: u64)
    requires
        p >= 1,
        is_elem(x, p),
    ensures
        spec_sub(x, x, p) == 0,
{
    lemma_small_mod(0, p as nat);
}

/// Multiplying by the multiplicative identity leaves a field element unchanged.
pub proof fn lemma_mul_one(x: u64, p: u64)
    requires
        p >= 2,
        is_elem(x, p),
    ensures
        spec_mul(1, x, p) == x,
{
    lemma_small_mod(x as nat, p as nat);
}

/// Adding a nonzero perturbation changes a field element.
pub proof fn lemma_add_nonzero_changes(x: u64, d: u64, p: u64)
    requires
        p >= 1,
        is_elem(x, p),
        is_elem(d, p),
        d != 0,
    ensures
        spec_add(x, d, p) != x,
{
    if x + d < p {
        lemma_small_mod((x + d) as nat, p as nat);
    } else {
        lemma_mod_multiples_vanish(1, x + d - p, p as int);
        lemma_small_mod((x + d - p) as nat, p as nat);
    }
}

} // verus!
