use vstd::prelude::*;

verus! {

/// One whole unit in fixed-point representation: coordinates carry 16 fractional bits.
pub const ONE: i64 = 65536;

/// Largest magnitude of a numerator or denominator that `round_div` accepts.
pub const DIV_LIMIT: i128 = 0x4000_0000_0000_0000_0000_0000_0000_0000;

pub open spec fn abs(n: int) -> int {
    if n < 0 {
        -n
    } else {
        n
    }
}

/// `n / d` rounded to the nearest integer, ties away from zero.
pub open spec fn round_div_spec(n: int, d: int) -> int
    recommends
        d != 0,
{
    let m = (2 * abs(n) + abs(d)) / (2 * abs(d));
    if (n < 0) != (d < 0) {
        -m
    } else {
        m
    }
}

/// Rounds `n / d` to the nearest integer, ties away from zero.
pub fn round_div(n: i128, d: i128) -> (r: i128)
    requires
        d != 0,
        -DIV_LIMIT <= n <= DIV_LIMIT,
        -DIV_LIMIT <= d <= DIV_LIMIT,
    ensures
        r == round_div_spec(n as int, d as int),
{
    let an: u128 = if n < 0 { (-n) as u128 } else { n as u128 };
    let ad: u128 = if d < 0 { (-d) as u128 } else { d as u128 };
    let num: u128 = 2 * an + ad;
    let m: u128 = num / (2 * ad);
    assert(2 * m <= num) by (nonlinear_arith)
        requires
            m as int == num as int / (2 * ad as int),
            ad >= 1,
    ;
    if (n < 0) != (d < 0) {
        -(m as i128)
    } else {
        m as i128
    }
}

/// Rounds a fixed-point value to the nearest whole number, ties away from zero.
pub fn round(v: i64) -> (r: i64)
    ensures
        r == round_div_spec(v as int, ONE as int),
{
    proof {
        lemma_round_div_bound(v as int, abs(v as int));
    }
    round_div(v as i128, ONE as i128) as i64
}

/// The fixed-point value of the whole number `n`.
pub fn from_whole(n: i32) -> (r: i64)
    ensures
        r == n * ONE,
{
    n as i64 * ONE
}

/// Rounding a quotient by `ONE` moves it no further from zero than a bound on its numerator.
pub proof fn lemma_round_div_bound(n: int, k: int)
    requires
        abs(n) <= k * ONE,
    ensures
        abs(round_div_spec(n, ONE as int)) <= k,
{
    let m = (2 * abs(n) + ONE) / (2 * ONE as int);
    assert(m <= k) by (nonlinear_arith)
        requires
            m == (2 * abs(n) + ONE) / (2 * ONE as int),
            abs(n) <= k * ONE,
            ONE == 65536,
    ;
}

/// Dividing an exact multiple of `ONE` by `ONE` loses nothing.
pub proof fn lemma_round_div_exact(k: int)
    ensures
        round_div_spec(k * ONE, ONE as int) == k,
{
    let m = (2 * abs(k * ONE) + ONE) / (2 * ONE as int);
    assert(m == abs(k)) by (nonlinear_arith)
        requires
            m == (2 * abs(k * ONE) + ONE) / (2 * ONE as int),
            ONE == 65536,
    ;
}

} // verus!
