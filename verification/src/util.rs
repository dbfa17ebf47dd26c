//! Small numeric helpers and host-environment defaults.

use vstd::math::abs;
use vstd::prelude::*;

verus! {

/// Integer power, `number^power`.
pub open spec fn spec_pow(number: int, power: nat) -> int
    decreases power,
{
    if power == 0 {
        1
    } else {
        number * spec_pow(number, (power - 1) as nat)
    }
}

/// `|number|^k` never exceeds `|number|^p` for `k <= p` (and `|number| >= 1`),
/// so every intermediate product of the power loop fits wherever the final
/// result fits.
proof fn lemma_pow_abs_monotone(number: int, k: nat, p: nat)
    requires
        number != 0,
        k <= p,
    ensures
        abs(spec_pow(number, k)) <= abs(spec_pow(number, p)),
    decreases p,
{
    if k < p {
        lemma_pow_abs_monotone(number, k, (p - 1) as nat);
        assert(spec_pow(number, p) == number * spec_pow(number, (p - 1) as nat));
        assert(abs(spec_pow(number, (p - 1) as nat)) <= abs(number * spec_pow(
            number,
            (p - 1) as nat,
        ))) by (nonlinear_arith)
            requires
                abs(number) >= 1,
        ;
    }
}

/// Raise `number` to a non-negative power, exactly.
pub fn rust_pow(number: i32, power: i32) -> (r: i32)
    requires
        power >= 0,
        -0x8000_0000 <= spec_pow(number as int, power as nat) < 0x8000_0000,
    ensures
        r as int == spec_pow(number as int, power as nat),
{
    let mut acc: i64 = 1;
    let mut k: i32 = 0;
    while k < power
        invariant
            0 <= k <= power,
            acc as int == spec_pow(number as int, k as nat),
            -0x8000_0000 <= spec_pow(number as int, power as nat) < 0x8000_0000,
        decreases power - k,
    {
        proof {
            assert(spec_pow(number as int, (k + 1) as nat) == number * spec_pow(
                number as int,
                k as nat,
            ));
            assert(acc as int * (number as int) == spec_pow(number as int, (k + 1) as nat))
                by (nonlinear_arith)
                requires
                    acc as int == spec_pow(number as int, k as nat),
                    spec_pow(number as int, (k + 1) as nat) == (number as int) * spec_pow(
                        number as int,
                        k as nat,
                    ),
            ;
            if number != 0 {
                lemma_pow_abs_monotone(number as int, (k + 1) as nat, power as nat);
            }
            assert(abs(acc as int * (number as int)) <= 0x8000_0000);
        }
        acc = acc * number as i64;
        k = k + 1;
    }
    acc as i32
}

/// Default viewport size reported by the host when no window metrics are
/// available.
pub fn get_window_dimensiton() -> (r: (u32, u32))
    ensures
        r == (640u32, 500u32),
{
    (640, 500)
}

/// Default viewport size under its other historical spelling.
pub fn get_window_dimention() -> (r: (u32, u32))
    ensures
        r == (640u32, 500u32),
{
    (640, 500)
}

/// Division truncating toward zero, the semantics of Rust's `/` on signed
/// integers.
pub open spec fn spec_div_trunc(a: int, b: int) -> int {
    if a >= 0 {
        a / b
    } else {
        -((-a) / b)
    }
}

/// Truncating division of a signed value by a positive divisor.
pub fn div_trunc(a: i64, b: i64) -> (r: i64)
    requires
        b > 0,
        a > i64::MIN,
    ensures
        r as int == spec_div_trunc(a as int, b as int),
{
    if a >= 0 {
        let q: u64 = (a as u64) / (b as u64);
        q as i64
    } else {
        let q: u64 = ((-a) as u64) / (b as u64);
        proof {
            assert((-a) as int / (b as int) <= (-a) as int) by {
                vstd::arithmetic::div_mod::lemma_div_is_ordered_by_denominator(
                    (-a) as int,
                    1,
                    b as int,
                );
            }
        }
        -(q as i64)
    }
}

/// Clamp `v` into `[lo, hi]`.
pub open spec fn spec_clamp(v: int, lo: int, hi: int) -> int {
    if v < lo {
        lo
    } else if v > hi {
        hi
    } else {
        v
    }
}

/// Clamp a value into an inclusive interval.
pub fn clamp_i64(v: i64, lo: i64, hi: i64) -> (r: i64)
    requires
        lo <= hi,
    ensures
        r as int == spec_clamp(v as int, lo as int, hi as int),
{
    if v < lo {
        lo
    } else if v > hi {
        hi
    } else {
        v
    }
}

/// Narrow to `i32`, saturating at the type bounds.
pub fn to_i32_sat(v: i64) -> (r: i32)
    ensures
        r as int == spec_clamp(v as int, -0x8000_0000, 0x7fff_ffff),
{
    if v < -0x8000_0000i64 {
        i32::MIN
    } else if v > 0x7fff_ffffi64 {
        i32::MAX
    } else {
        v as i32
    }
}

} // verus!
