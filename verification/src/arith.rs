use vstd::prelude::*;

verus! {

use vstd::arithmetic::div_mod::lemma_div_nonincreasing;
use vstd::arithmetic::div_mod::lemma_div_pos_is_pos;

/// Truncating (round-toward-zero) division, the semantics of Rust's `/` on
/// signed integers. Spec-mode `/` is Euclidean division, so the two differ
/// when the dividend is negative; contracts over signed executable divisions
/// are stated with this function.
pub open spec fn div_trunc(x: int, d: int) -> int
    recommends
        d != 0,
{
    if x >= 0 {
        if d > 0 {
            x / d
        } else {
            -(x / -d)
        }
    } else {
        if d > 0 {
            -((-x) / d)
        } else {
            (-x) / -d
        }
    }
}

/// Clamping a signed value to the symmetric interval `[-m, m]`, written as
/// the max/min composition the rate math uses. When `m` is negative the
/// interval is empty and the result is pinned to `-m`.
pub open spec fn clamp_to(x: int, m: int) -> int {
    vstd::math::max(-m, vstd::math::min(x, m))
}

/// The power of ten that scales a decimal exponent into a fixed-point
/// multiplier.
pub open spec fn pow10(n: nat) -> nat
    decreases n,
{
    if n == 0 {
        1
    } else {
        10 * pow10((n - 1) as nat)
    }
}

/// Powers of ten are at least one.
pub proof fn lemma_pow10_pos(n: nat)
    ensures
        pow10(n) >= 1,
    decreases n,
{
    if n > 0 {
        lemma_pow10_pos((n - 1) as nat);
    }
}

/// Powers of ten are monotone in the exponent.
pub proof fn lemma_pow10_increases(m: nat, n: nat)
    requires
        m <= n,
    ensures
        pow10(m) <= pow10(n),
    decreases n,
{
    if m < n {
        lemma_pow10_increases(m, (n - 1) as nat);
        lemma_pow10_pos((n - 1) as nat);
    }
}

/// The largest power of ten representable in 128 bits is `pow10(38)`, and
/// it also fits the signed 128-bit range.
pub proof fn lemma_pow10_128_bounds()
    ensures
        pow10(38) < i128::MAX,
        pow10(39) > u128::MAX,
{
    reveal_with_fuel(pow10, 40);
}

/// A power of ten that fits the unsigned 128-bit range has exponent at most
/// 38 and therefore fits the signed 128-bit range as well.
pub proof fn lemma_pow10_in_u128(e: nat)
    requires
        pow10(e) <= u128::MAX,
    ensures
        e <= 38,
        pow10(e) < i128::MAX,
{
    lemma_pow10_128_bounds();
    if e > 38 {
        lemma_pow10_increases(39, e);
    }
    lemma_pow10_increases(e, 38);
}

/// Truncating division by a positive divisor never grows the magnitude of
/// the dividend.
pub proof fn lemma_div_trunc_abs_le(x: int, d: int)
    requires
        d > 0,
    ensures
        vstd::math::abs(div_trunc(x, d)) <= vstd::math::abs(x),
{
    if x >= 0 {
        lemma_div_nonincreasing(x, d);
        lemma_div_pos_is_pos(x, d);
    } else {
        lemma_div_nonincreasing(-x, d);
        lemma_div_pos_is_pos(-x, d);
    }
}

/// Computes `pow10(n)`, reporting `None` when the value exceeds the 128-bit
/// unsigned range.
pub fn pow10_u128(n: u32) -> (r: Option<u128>)
    ensures
        match r {
            Some(v) => v == pow10(n as nat),
            None => pow10(n as nat) > u128::MAX,
        },
{
    let mut acc: u128 = 1;
    let mut i: u32 = 0;
    while i < n
        invariant
            i <= n,
            acc == pow10(i as nat),
        decreases n - i,
    {
        acc = match acc.checked_mul(10) {
            Some(v) => v,
            None => {
                proof {
                    lemma_pow10_increases((i + 1) as nat, n as nat);
                }
                return None;
            },
        };
        i = i + 1;
    }
    Some(acc)
}

} // verus!
