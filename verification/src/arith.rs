//! Greatest common divisors, for keeping the composition's aspect ratio in
//! lowest terms.

use vstd::arithmetic::div_mod::{lemma_fundamental_div_mod};
use vstd::prelude::*;

verus! {

/// Euclid's greatest common divisor.
pub open spec fn gcd_spec(a: nat, b: nat) -> nat
    decreases b,
{
    if b == 0 {
        a
    } else {
        gcd_spec(b, a % b)
    }
}

/// `d * k`.
pub open spec fn times(d: int, k: int) -> int {
    d * k
}

/// `d` divides `n`.
pub open spec fn divides(d: int, n: int) -> bool {
    exists|k: int| n == #[trigger] times(d, k)
}

/// The gcd of two numbers, not both zero, is positive.
pub proof fn lemma_gcd_positive(a: nat, b: nat)
    requires
        a > 0 || b > 0,
    ensures
        gcd_spec(a, b) > 0,
    decreases b,
{
    if b > 0 {
        lemma_gcd_positive(b, a % b);
    }
}

/// The gcd divides both numbers.
pub proof fn lemma_gcd_divides(a: nat, b: nat)
    ensures
        divides(gcd_spec(a, b) as int, a as int),
        divides(gcd_spec(a, b) as int, b as int),
    decreases b,
{
    let g = gcd_spec(a, b) as int;
    if b == 0 {
        assert(a as int == times(g, 1));
        assert(b as int == times(g, 0));
    } else {
        lemma_gcd_divides(b, a % b);
        let k1 = choose|k: int| b as int == times(g, k);
        let k2 = choose|k: int| (a % b) as int == times(g, k);
        lemma_fundamental_div_mod(a as int, b as int);
        let q = (a / b) as int;
        assert(a as int == b * q + (a % b) as int);
        assert(b as int == g * k1);
        assert((a % b) as int == g * k2);
        assert(a as int == g * (k1 * q + k2)) by (nonlinear_arith)
            requires
                a as int == b * q + (a % b) as int,
                b as int == g * k1,
                (a % b) as int == g * k2,
        ;
        assert(a as int == times(g, k1 * q + k2));
    }
}

/// Every common divisor of the two numbers divides their gcd.
pub proof fn lemma_common_divisor_divides_gcd(a: nat, b: nat, d: int)
    requires
        divides(d, a as int),
        divides(d, b as int),
    ensures
        divides(d, gcd_spec(a, b) as int),
    decreases b,
{
    if b > 0 {
        let ka = choose|k: int| a as int == times(d, k);
        let kb = choose|k: int| b as int == times(d, k);
        assert(a as int == d * ka);
        assert(b as int == d * kb);
        lemma_fundamental_div_mod(a as int, b as int);
        let q = (a / b) as int;
        assert((a % b) as int == d * (ka - kb * q)) by (nonlinear_arith)
            requires
                a as int == b * q + (a % b) as int,
                a as int == d * ka,
                b as int == d * kb,
        ;
        assert((a % b) as int == times(d, ka - kb * q));
        lemma_common_divisor_divides_gcd(b, a % b, d);
    }
}

/// Dividing two positive numbers by their gcd leaves numbers whose gcd is 1.
pub proof fn lemma_divided_by_gcd_is_reduced(a: nat, b: nat)
    requires
        a > 0,
        b > 0,
    ensures
        gcd_spec(a, b) > 0,
        a % gcd_spec(a, b) == 0,
        b % gcd_spec(a, b) == 0,
        gcd_spec(a / gcd_spec(a, b), b / gcd_spec(a, b)) == 1,
{
    let g = gcd_spec(a, b) as int;
    lemma_gcd_positive(a, b);
    lemma_gcd_divides(a, b);
    let ka = choose|k: int| a as int == times(g, k);
    let kb = choose|k: int| b as int == times(g, k);
    assert(a as int == g * ka);
    assert(b as int == g * kb);
    assert(ka > 0 && kb > 0) by (nonlinear_arith)
        requires
            a as int == g * ka,
            b as int == g * kb,
            a > 0,
            b > 0,
            g > 0,
    ;
    assert((a as int) % g == 0 && (a as int) / g == ka) by (nonlinear_arith)
        requires
            a as int == g * ka,
            g > 0,
    ;
    assert((b as int) % g == 0 && (b as int) / g == kb) by (nonlinear_arith)
        requires
            b as int == g * kb,
            g > 0,
    ;
    let h = gcd_spec(ka as nat, kb as nat) as int;
    lemma_gcd_positive(ka as nat, kb as nat);
    lemma_gcd_divides(ka as nat, kb as nat);
    let ha = choose|k: int| ka == times(h, k);
    let hb = choose|k: int| kb == times(h, k);
    assert(ka == h * ha);
    assert(kb == h * hb);
    assert(a as int == (g * h) * ha) by (nonlinear_arith)
        requires
            a as int == g * ka,
            ka == h * ha,
    ;
    assert(b as int == (g * h) * hb) by (nonlinear_arith)
        requires
            b as int == g * kb,
            kb == h * hb,
    ;
    assert(a as int == times(g * h, ha));
    assert(b as int == times(g * h, hb));
    lemma_common_divisor_divides_gcd(a, b, g * h);
    let gh = g * h;
    let m = choose|k: int| g == times(gh, k);
    assert(g == (g * h) * m);
    assert(h == 1) by (nonlinear_arith)
        requires
            g == (g * h) * m,
            g > 0,
            h > 0,
    ;
}

/// The greatest common divisor, by Euclid's algorithm.
pub fn gcd(a: u64, b: u64) -> (g: u64)
    ensures
        g == gcd_spec(a as nat, b as nat),
{
    let mut x = a;
    let mut y = b;
    while y != 0
        invariant
            gcd_spec(x as nat, y as nat) == gcd_spec(a as nat, b as nat),
        decreases y,
    {
        let r = x % y;
        x = y;
        y = r;
    }
    x
}

} // verus!
