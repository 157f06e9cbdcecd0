use vstd::arithmetic::div_mod::{lemma_fundamental_div_mod, lemma_mod_multiples_basic};
use vstd::prelude::*;

verus! {

/// `d` divides `n`: some natural `k` gives `n == d * k`. Zero divides only zero.
pub open spec fn divides(d: nat, n: nat) -> bool {
    if d == 0 {
        n == 0
    } else {
        n % d == 0
    }
}

/// The greatest common factor as the Euclidean recursion computes it:
/// `(a, b)` becomes `(b, a % b)` until `b` is zero, and then `a` is the answer.
pub open spec fn gcf(a: nat, b: nat) -> nat
    decreases b,
{
    if b == 0 {
        a
    } else {
        gcf(b, a % b)
    }
}

/// `g` divides both `a` and `b`, and every common divisor of `a` and `b`
/// divides `g`. For `a == b == 0` only `g == 0` qualifies.
pub open spec fn is_greatest_common_factor(g: nat, a: nat, b: nat) -> bool {
    &&& divides(g, a)
    &&& divides(g, b)
    &&& forall|d: nat| divides(d, a) && divides(d, b) ==> #[trigger] divides(d, g)
}

/// When a positive `d` divides `n`, the quotient is an exact witness: `n == d * (n / d)`.
proof fn lemma_quotient_witness(d: nat, n: nat)
    requires
        d > 0,
        divides(d, n),
    ensures
        n == d * (n / d),
{
    lemma_fundamental_div_mod(n as int, d as int);
}

/// A positive `d` divides any `d * k`.
proof fn lemma_divides_from_witness(d: nat, n: nat, k: int)
    requires
        d > 0,
        n == d * k,
    ensures
        divides(d, n),
{
    assert(n == k * d) by (nonlinear_arith)
        requires
            n == d * k,
    ;
    lemma_mod_multiples_basic(k, d as int);
}

/// Common divisors are kept by sums.
proof fn lemma_divides_sum(d: nat, x: nat, y: nat)
    requires
        divides(d, x),
        divides(d, y),
    ensures
        divides(d, x + y),
{
    if d > 0 {
        lemma_quotient_witness(d, x);
        lemma_quotient_witness(d, y);
        let k: int = (x / d + y / d) as int;
        assert(x + y == d * k) by (nonlinear_arith)
            requires
                x == d * (x / d),
                y == d * (y / d),
                k == x / d + y / d,
        ;
        lemma_divides_from_witness(d, x + y, k);
    }
}

/// Common divisors are kept by differences.
proof fn lemma_divides_difference(d: nat, x: nat, y: nat)
    requires
        y <= x,
        divides(d, x),
        divides(d, y),
    ensures
        divides(d, (x - y) as nat),
{
    if d > 0 {
        lemma_quotient_witness(d, x);
        lemma_quotient_witness(d, y);
        let k: int = x / d - y / d;
        assert(x - y == d * k) by (nonlinear_arith)
            requires
                x == d * (x / d),
                y == d * (y / d),
                k == x / d - y / d,
        ;
        lemma_divides_from_witness(d, (x - y) as nat, k);
    }
}

/// A divisor of `x` divides every multiple of `x`.
proof fn lemma_divides_multiple(d: nat, x: nat, m: nat)
    requires
        divides(d, x),
    ensures
        divides(d, x * m),
{
    if d > 0 {
        lemma_quotient_witness(d, x);
        let k: int = ((x / d) * m) as int;
        assert(x * m == d * k) by (nonlinear_arith)
            requires
                x == d * (x / d),
                k == (x / d) * m,
        ;
        lemma_divides_from_witness(d, x * m, k);
    } else {
        assert(x * m == 0) by (nonlinear_arith)
            requires
                x == 0,
        ;
    }
}

/// Every natural number divides itself and divides zero.
pub proof fn lemma_divides_self_and_zero(a: nat)
    ensures
        divides(a, a),
        divides(a, 0),
{
    if a > 0 {
        lemma_divides_from_witness(a, a, 1);
        lemma_divides_from_witness(a, 0, 0);
    }
}

/// `gcf(a, b)` divides both `a` and `b`.
pub proof fn lemma_gcf_divides(a: nat, b: nat)
    ensures
        divides(gcf(a, b), a),
        divides(gcf(a, b), b),
    decreases b,
{
    if b == 0 {
        lemma_divides_self_and_zero(a);
    } else {
        let q: nat = a / b;
        let r: nat = a % b;
        let g = gcf(b, r);
        lemma_gcf_divides(b, r);
        lemma_fundamental_div_mod(a as int, b as int);
        lemma_divides_multiple(g, b, q);
        lemma_divides_sum(g, b * q, r);
        assert(b * q + r == a);
    }
}

/// Every common divisor of `a` and `b` divides `gcf(a, b)`.
pub proof fn lemma_gcf_greatest(a: nat, b: nat, d: nat)
    requires
        divides(d, a),
        divides(d, b),
    ensures
        divides(d, gcf(a, b)),
    decreases b,
{
    if b > 0 {
        let q: nat = a / b;
        let r: nat = a % b;
        lemma_fundamental_div_mod(a as int, b as int);
        assert(b * q + r == a);
        lemma_divides_multiple(d, b, q);
        lemma_divides_difference(d, a, b * q);
        assert((a - b * q) as nat == r);
        lemma_gcf_greatest(b, r, d);
    }
}

/// The Euclidean recursion yields the greatest common factor.
pub proof fn lemma_gcf_is_greatest_common_factor(a: nat, b: nat)
    ensures
        is_greatest_common_factor(gcf(a, b), a, b),
{
    lemma_gcf_divides(a, b);
    assert forall|d: nat| divides(d, a) && divides(d, b) implies #[trigger] divides(d, gcf(a, b)) by {
        lemma_gcf_greatest(a, b, d);
    }
}

/// Two natural numbers that divide each other are equal.
pub proof fn lemma_divides_antisymmetric(x: nat, y: nat)
    requires
        divides(x, y),
        divides(y, x),
    ensures
        x == y,
{
    if x > 0 && y > 0 {
        lemma_quotient_witness(x, y);
        lemma_quotient_witness(y, x);
        assert(x <= y) by (nonlinear_arith)
            requires
                y == x * (y / x),
                x > 0,
                y > 0,
        ;
        assert(y <= x) by (nonlinear_arith)
            requires
                x == y * (x / y),
                x > 0,
                y > 0,
        ;
    }
}

/// At most one natural number is the greatest common factor of `a` and `b`.
pub proof fn lemma_greatest_common_factor_unique(g: nat, h: nat, a: nat, b: nat)
    requires
        is_greatest_common_factor(g, a, b),
        is_greatest_common_factor(h, a, b),
    ensures
        g == h,
{
    assert(divides(g, h));
    assert(divides(h, g));
    lemma_divides_antisymmetric(g, h);
}

/// The greatest common factor does not depend on the order of its operands:
/// `gcf(a, b) == gcf(b, a)`.
pub proof fn lemma_gcf_commutative(a: nat, b: nat)
    ensures
        gcf(a, b) == gcf(b, a),
{
    lemma_gcf_is_greatest_common_factor(a, b);
    lemma_gcf_is_greatest_common_factor(b, a);
    lemma_greatest_common_factor_unique(gcf(a, b), gcf(b, a), a, b);
}

/// When `b` is positive, `gcf(a, b)` is positive and leaves no remainder
/// when it divides `a` or `b`.
pub proof fn lemma_gcf_divides_operands(a: nat, b: nat)
    requires
        b > 0,
    ensures
        gcf(a, b) > 0,
        a % gcf(a, b) == 0,
        b % gcf(a, b) == 0,
{
    lemma_gcf_divides(a, b);
}

/// Zero is neutral on either side: `gcf(a, 0) == a` and `gcf(0, a) == a`.
pub proof fn lemma_gcf_with_zero(a: nat)
    ensures
        gcf(a, 0) == a,
        gcf(0, a) == a,
{
    lemma_gcf_commutative(a, 0);
}

/// A positive number is its own greatest common factor: `gcf(a, a) == a`.
pub proof fn lemma_gcf_self(a: nat)
    requires
        a > 0,
    ensures
        gcf(a, a) == a,
{
    lemma_divides_self_and_zero(a);
    assert(gcf(a, a) == gcf(a, 0));
}

} // verus!
