use soroban_fixed_point_math::SorobanFixedPoint;
use soroban_sdk::Env;
use vstd::prelude::*;

verus! {

/// `soroban_sdk::Env`, the handle to the host environment. Nothing is
/// claimed of it: it is only handed on to the fixed-point functions, which
/// need it for products that do not fit in 128 bits.
#[verifier::external_type_specification]
#[verifier::external_body]
pub struct ExEnv(soroban_sdk::Env);

/// `n / d` rounded towards negative infinity, for `d != 0`.
pub open spec fn floor_div(n: int, d: int) -> int {
    if d > 0 {
        n / d
    } else {
        (-n) / (-d)
    }
}

/// `n / d` rounded towards positive infinity, for `d != 0`.
pub open spec fn ceil_div(n: int, d: int) -> int {
    -floor_div(-n, d)
}

/// Whether `v` is representable as an `i128`.
pub open spec fn fits_i128(v: int) -> bool {
    i128::MIN <= v <= i128::MAX
}

/// `SorobanFixedPoint::fixed_mul_floor` on `i128`. The outside function
/// forms `x * y` without loss (in 256 bits where 128 do not suffice) and
/// divides by `denominator`, rounding towards negative infinity. It traps
/// on a zero denominator and on a quotient outside `i128`; both are
/// excluded here.
#[verifier::external_body]
pub(crate) fn fixed_mul_floor(env: &Env, x: i128, y: i128, denominator: i128) -> (r: i128)
    requires
        denominator != 0,
        fits_i128(floor_div(x * y, denominator as int)),
    ensures
        r == floor_div(x * y, denominator as int),
{
    x.fixed_mul_floor(env, &y, &denominator)
}

/// `SorobanFixedPoint::fixed_mul_ceil` on `i128`. As `fixed_mul_floor`, but
/// the quotient is rounded towards positive infinity.
#[verifier::external_body]
pub(crate) fn fixed_mul_ceil(env: &Env, x: i128, y: i128, denominator: i128) -> (r: i128)
    requires
        denominator != 0,
        fits_i128(ceil_div(x * y, denominator as int)),
    ensures
        r == ceil_div(x * y, denominator as int),
{
    x.fixed_mul_ceil(env, &y, &denominator)
}

/// Rounding down never exceeds rounding up.
pub proof fn lemma_floor_le_ceil(n: int, d: int)
    requires
        d != 0,
    ensures
        floor_div(n, d) <= ceil_div(n, d),
{
    if d > 0 {
        lemma_neg_div_bound(n, d);
    } else {
        lemma_neg_div_bound(-n, -d);
    }
}

/// For a positive divisor, the quotients of `n` and `-n` sum to at most 0.
proof fn lemma_neg_div_bound(n: int, d: int)
    requires
        d > 0,
    ensures
        n / d + (-n) / d <= 0,
{
    vstd::arithmetic::div_mod::lemma_fundamental_div_mod(n, d);
    vstd::arithmetic::div_mod::lemma_fundamental_div_mod(-n, d);
    let q = n / d;
    let p = (-n) / d;
    assert(d * q + d * p == d * (q + p)) by (nonlinear_arith);
    assert(d * (q + p) <= 0);
    assert(q + p <= 0) by (nonlinear_arith)
        requires
            d > 0,
            d * (q + p) <= 0,
    ;
}

/// Rounding down is monotone in the numerator for a positive divisor.
pub proof fn lemma_floor_div_monotone(a: int, b: int, d: int)
    requires
        d > 0,
        a <= b,
    ensures
        floor_div(a, d) <= floor_div(b, d),
{
    vstd::arithmetic::div_mod::lemma_div_is_ordered(a, b, d);
}

/// `floor_div(n, d)` is the greatest integer `q` with `q <= n / d`: the
/// product `q * d` is the multiple of `d` next to `n` on the side of
/// negative quotients.
pub proof fn lemma_floor_div_is_floor(n: int, d: int)
    requires
        d != 0,
    ensures
        d > 0 ==> floor_div(n, d) * d <= n < (floor_div(n, d) + 1) * d,
        d < 0 ==> floor_div(n, d) * d >= n > (floor_div(n, d) + 1) * d,
{
    let q = floor_div(n, d);
    if d > 0 {
        vstd::arithmetic::div_mod::lemma_fundamental_div_mod(n, d);
        vstd::arithmetic::div_mod::lemma_mod_bound(n, d);
        assert(q * d == d * q && (q + 1) * d == d * q + d) by (nonlinear_arith);
    } else {
        let e = -d;
        vstd::arithmetic::div_mod::lemma_fundamental_div_mod(-n, e);
        vstd::arithmetic::div_mod::lemma_mod_bound(-n, e);
        assert(q * d == -(e * q) && (q + 1) * d == -(e * q) - e) by (nonlinear_arith)
            requires
                e == -d,
        ;
    }
}

/// `ceil_div(n, d)` is the least integer `q` with `q >= n / d`.
pub proof fn lemma_ceil_div_is_ceil(n: int, d: int)
    requires
        d != 0,
    ensures
        d > 0 ==> (ceil_div(n, d) - 1) * d < n <= ceil_div(n, d) * d,
        d < 0 ==> (ceil_div(n, d) - 1) * d > n >= ceil_div(n, d) * d,
{
    lemma_floor_div_is_floor(-n, d);
    let f = floor_div(-n, d);
    assert((-f) * d == -(f * d) && (-f - 1) * d == -((f + 1) * d)) by (nonlinear_arith);
}

} // verus!
