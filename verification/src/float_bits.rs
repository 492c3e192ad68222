//! Integer arithmetic on IEEE 754 bit patterns.
//!
//! Frames carry single- and double-precision elements; this crate holds them
//! as raw bit patterns and performs the numeric conversions the consumer can
//! ask for directly on the bits, with exact integer arithmetic. A finite
//! pattern denotes the magnitude `mantissa * 2^(exponent - offset)` with its
//! sign bit, where the mantissa carries the implicit leading bit of normal
//! numbers and subnormals share the minimum exponent.

use vstd::prelude::*;
use vstd::arithmetic::power2::{
    lemma2_to64, lemma2_to64_rest, lemma_pow2_adds, lemma_pow2_pos, lemma_pow2_strictly_increases,
    lemma_pow2_unfold, pow2,
};
use vstd::arithmetic::div_mod::{
    lemma_basic_div, lemma_fundamental_div_mod_converse_div,
    lemma_fundamental_div_mod_converse_mod, lemma_multiply_divide_lt,
};

verus! {

/// `pow2(a) <= pow2(b)` for `a <= b`.
proof fn lemma_pow2_le(a: nat, b: nat)
    requires
        a <= b,
    ensures
        pow2(a) <= pow2(b),
{
    if a < b {
        lemma_pow2_strictly_increases(a, b);
    }
}

/// The sign bit of a single-precision pattern.
pub open spec fn f32_sign(bits: u32) -> bool {
    bits / 0x8000_0000 == 1
}

/// The biased exponent field of a single-precision pattern.
pub open spec fn f32_exp(bits: u32) -> u32 {
    (bits / 0x80_0000) % 0x100
}

/// The fraction field of a single-precision pattern.
pub open spec fn f32_frac(bits: u32) -> u32 {
    bits % 0x80_0000
}

/// Whether the pattern is a NaN.
pub open spec fn f32_is_nan(bits: u32) -> bool {
    f32_exp(bits) == 255 && f32_frac(bits) != 0
}

/// Whether the pattern is one of the two infinities.
pub open spec fn f32_is_inf(bits: u32) -> bool {
    f32_exp(bits) == 255 && f32_frac(bits) == 0
}

/// The mantissa of a finite pattern, with the implicit leading bit of
/// normal numbers.
pub open spec fn f32_mantissa(bits: u32) -> int {
    if f32_exp(bits) == 0 {
        f32_frac(bits) as int
    } else {
        f32_frac(bits) + 0x80_0000
    }
}

/// The effective biased exponent of a finite pattern: the magnitude is
/// `f32_mantissa(bits) * 2^(f32_eexp(bits) - 150)`. Subnormals share the
/// minimum exponent.
pub open spec fn f32_eexp(bits: u32) -> int {
    if f32_exp(bits) == 0 {
        1
    } else {
        f32_exp(bits) as int
    }
}

/// The magnitude of the finite pattern `bits`, rounded to an integer, halves
/// away from zero.
pub open spec fn f32_round_mag(bits: u32) -> int {
    let m = f32_mantissa(bits);
    let e = f32_eexp(bits);
    if e >= 150 {
        m * pow2((e - 150) as nat)
    } else {
        (m + pow2((150 - e - 1) as nat)) / (pow2((150 - e) as nat) as int)
    }
}

/// What rounding a single-precision value to a 32-bit integer yields: the
/// magnitude rounded to the nearest integer (halves away from zero), with
/// the sign applied. `None` is the out-of-range failure: an infinity, or a
/// rounded value that exceeds the integer's range. A NaN converts to zero.
pub open spec fn f32_round_to_i32(bits: u32) -> Option<i32> {
    if f32_is_nan(bits) {
        Some(0)
    } else if f32_is_inf(bits) {
        None
    } else {
        let r = f32_round_mag(bits);
        if f32_sign(bits) {
            if r > 0x8000_0000 {
                None
            } else {
                Some((-r) as i32)
            }
        } else {
            if r > 0x7fff_ffff {
                None
            } else {
                Some(r as i32)
            }
        }
    }
}

/// The sign bit of a double-precision pattern.
pub open spec fn f64_sign(bits: u64) -> bool {
    bits / 0x8000_0000_0000_0000 == 1
}

/// The biased exponent field of a double-precision pattern.
pub open spec fn f64_exp(bits: u64) -> u64 {
    (bits / 0x10_0000_0000_0000) % 0x800
}

/// The fraction field of a double-precision pattern.
pub open spec fn f64_frac(bits: u64) -> u64 {
    bits % 0x10_0000_0000_0000
}

/// Whether the pattern is a NaN.
pub open spec fn f64_is_nan(bits: u64) -> bool {
    f64_exp(bits) == 2047 && f64_frac(bits) != 0
}

/// Whether the pattern is one of the two infinities.
pub open spec fn f64_is_inf(bits: u64) -> bool {
    f64_exp(bits) == 2047 && f64_frac(bits) == 0
}

/// The mantissa of a finite pattern, with the implicit leading bit of
/// normal numbers.
pub open spec fn f64_mantissa(bits: u64) -> int {
    if f64_exp(bits) == 0 {
        f64_frac(bits) as int
    } else {
        f64_frac(bits) + 0x10_0000_0000_0000
    }
}

/// The effective biased exponent of a finite pattern: the magnitude is
/// `f64_mantissa(bits) * 2^(f64_eexp(bits) - 1075)`.
pub open spec fn f64_eexp(bits: u64) -> int {
    if f64_exp(bits) == 0 {
        1
    } else {
        f64_exp(bits) as int
    }
}

/// The magnitude of the finite pattern `bits`, rounded to an integer, halves
/// away from zero.
pub open spec fn f64_round_mag(bits: u64) -> int {
    let m = f64_mantissa(bits);
    let e = f64_eexp(bits);
    if e >= 1075 {
        m * pow2((e - 1075) as nat)
    } else {
        (m + pow2((1075 - e - 1) as nat)) / (pow2((1075 - e) as nat) as int)
    }
}

/// What rounding a double-precision value to a 32-bit integer yields: the
/// magnitude rounded to the nearest integer (halves away from zero), with
/// the sign applied. `None` is the out-of-range failure: an infinity, or a
/// rounded value that exceeds the integer's range. A NaN converts to zero.
pub open spec fn f64_round_to_i32(bits: u64) -> Option<i32> {
    if f64_is_nan(bits) {
        Some(0)
    } else if f64_is_inf(bits) {
        None
    } else {
        let r = f64_round_mag(bits);
        if f64_sign(bits) {
            if r > 0x8000_0000 {
                None
            } else {
                Some((-r) as i32)
            }
        } else {
            if r > 0x7fff_ffff {
                None
            } else {
                Some(r as i32)
            }
        }
    }
}

/// The position of the highest set bit of `n`: the largest `h` with
/// `2^h <= n`.
pub open spec fn floor_log2(n: int) -> int
    decreases n,
{
    if n < 2 {
        0
    } else {
        1 + floor_log2(n / 2)
    }
}

/// `floor_log2` brackets its argument between two powers of two.
pub proof fn lemma_floor_log2(n: int)
    requires
        n >= 1,
    ensures
        0 <= floor_log2(n),
        pow2(floor_log2(n) as nat) <= n < pow2((floor_log2(n) + 1) as nat),
    decreases n,
{
    if n < 2 {
        lemma2_to64();
    } else {
        lemma_floor_log2(n / 2);
        let h = floor_log2(n / 2);
        lemma_pow2_unfold((h + 1) as nat);
        lemma_pow2_unfold((h + 2) as nat);
    }
}

/// `n / 2^k` rounded to the nearest integer, ties to the even neighbour.
pub open spec fn round_nearest_even(n: int, k: nat) -> int {
    let q = n / (pow2(k) as int);
    let r = n % (pow2(k) as int);
    if 2 * r > pow2(k) || (2 * r == pow2(k) && q % 2 == 1) {
        q + 1
    } else {
        q
    }
}

/// The single-precision pattern nearest to the integer `n` taken with the
/// given sign: exact below `2^24`, mantissa rounded to nearest (ties to
/// even) above it.
pub open spec fn f32_bits_of_int(n: int, neg: bool) -> u32
    recommends
        0 <= n <= 0x8000_0000,
{
    let s: int = if neg {
        0x8000_0000
    } else {
        0
    };
    if n == 0 {
        s as u32
    } else {
        let h = floor_log2(n);
        if h <= 23 {
            (s + (h + 127) * 0x80_0000 + (n * pow2((23 - h) as nat) - 0x80_0000)) as u32
        } else {
            let m = round_nearest_even(n, (h - 23) as nat);
            if m == 0x100_0000 {
                (s + (h + 128) * 0x80_0000) as u32
            } else {
                (s + (h + 127) * 0x80_0000 + (m - 0x80_0000)) as u32
            }
        }
    }
}

/// The double-precision pattern of the integer `n` taken with the given
/// sign; exact for every 32-bit integer.
pub open spec fn f64_bits_of_int(n: int, neg: bool) -> u64
    recommends
        0 <= n <= 0x8000_0000,
{
    let s: int = if neg {
        0x8000_0000_0000_0000
    } else {
        0
    };
    if n == 0 {
        s as u64
    } else {
        let h = floor_log2(n);
        (s + (h + 1023) * 0x10_0000_0000_0000 + (n * pow2((52 - h) as nat)
            - 0x10_0000_0000_0000)) as u64
    }
}

/// The double-precision pattern denoting the same value as the
/// single-precision pattern `b`: the widening is exact for every finite
/// value, keeps the sign, widens an infinity to an infinity and a NaN to a
/// NaN (the fraction moves to the top of the wider fraction field).
pub open spec fn f64_bits_of_f32(b: u32) -> u64 {
    let s: int = if f32_sign(b) {
        0x8000_0000_0000_0000
    } else {
        0
    };
    let e = f32_exp(b) as int;
    let f = f32_frac(b) as int;
    if e == 255 {
        (s + 2047 * 0x10_0000_0000_0000 + f * pow2(29)) as u64
    } else if e == 0 && f == 0 {
        s as u64
    } else if e == 0 {
        let h = floor_log2(f);
        (s + (h + 874) * 0x10_0000_0000_0000 + (f * pow2((52 - h) as nat)
            - 0x10_0000_0000_0000)) as u64
    } else {
        (s + (e + 896) * 0x10_0000_0000_0000 + f * pow2(29)) as u64
    }
}

/// Decomposition of a composed single-precision pattern back into its
/// fields.
proof fn lemma_f32_fields_of(neg: bool, e: int, f: int)
    requires
        0 <= f < 0x80_0000,
        0 <= e < 255,
    ensures
        ({
            let bits = ((if neg {
                0x8000_0000int
            } else {
                0int
            }) + e * 0x80_0000 + f) as u32;
            f32_sign(bits) == neg && f32_exp(bits) == e && f32_frac(bits) == f
        }),
{
    let s: int = if neg {
        0x8000_0000
    } else {
        0
    };
    let bits_int = s + e * 0x80_0000 + f;
    let sh: int = if neg {
        0x100
    } else {
        0
    };
    assert(bits_int == (sh + e) * 0x80_0000 + f);
    lemma_fundamental_div_mod_converse_mod(bits_int, 0x80_0000, sh + e, f);
    lemma_fundamental_div_mod_converse_div(bits_int, 0x80_0000, sh + e, f);
    lemma_fundamental_div_mod_converse_mod(
        sh + e,
        0x100,
        if neg {
            1int
        } else {
            0int
        },
        e,
    );
    lemma_fundamental_div_mod_converse_div(
        bits_int,
        0x8000_0000,
        if neg {
            1int
        } else {
            0int
        },
        e * 0x80_0000 + f,
    );
}

/// Law: an integer with magnitude up to `2^24` — every integer single
/// precision represents exactly — converts to single-precision bits and
/// rounds back to exactly itself.
pub proof fn lemma_f32_of_int_exact(n: int, neg: bool)
    requires
        0 <= n <= 0x100_0000,
    ensures
        f32_round_to_i32(f32_bits_of_int(n, neg)) == Some(
            (if neg {
                -n
            } else {
                n
            }) as i32,
        ),
{
    lemma2_to64();
    if n == 0 {
        let bits = f32_bits_of_int(n, neg);
        if neg {
            assert(f32_exp(bits) == 0 && f32_frac(bits) == 0 && f32_sign(bits));
        } else {
            assert(f32_exp(bits) == 0 && f32_frac(bits) == 0 && !f32_sign(bits));
        }
        lemma_pow2_strictly_increases(148, 149);
        lemma_basic_div(pow2(148) as int, pow2(149) as int);
        lemma_pow2_pos(149);
    } else {
        lemma_floor_log2(n);
        let h = floor_log2(n);
        if h > 24 {
            lemma_pow2_le(25, h as nat);
        }
        assert(h <= 24);
        if h <= 23 {
            let k = (23 - h) as nat;
            lemma_pow2_pos(k);
            lemma_pow2_adds(h as nat, k);
            lemma_pow2_adds((h + 1) as nat, k);
            let m = n * pow2(k);
            assert(pow2(23) <= m < pow2(24)) by (nonlinear_arith)
                requires
                    m == n * pow2(k),
                    pow2(h as nat) <= n < pow2((h + 1) as nat),
                    pow2(k) >= 1,
                    pow2(h as nat) * pow2(k) == pow2(23),
                    pow2((h + 1) as nat) * pow2(k) == pow2(24),
            ;
            let f = m - 0x80_0000;
            lemma_f32_fields_of(neg, h + 127, f);
            let bits = f32_bits_of_int(n, neg);
            assert(f32_mantissa(bits) == m && f32_eexp(bits) == h + 127);
            if h == 23 {
                assert(f32_round_mag(bits) == m * pow2(0));
                assert(m * pow2(0) == n) by (nonlinear_arith)
                    requires
                        m == n * pow2(0),
                        pow2(0) == 1,
                ;
            } else {
                let kk = (150 - (h + 127)) as nat;
                assert(kk == k);
                lemma_pow2_unfold(k);
                assert(m + pow2((k - 1) as nat) == n * pow2(k) + pow2((k - 1) as nat));
                lemma_fundamental_div_mod_converse_div(
                    m + pow2((k - 1) as nat),
                    pow2(k) as int,
                    n,
                    pow2((k - 1) as nat) as int,
                );
                assert(f32_round_mag(bits) == n);
            }
        } else {
            // h == 24 forces n == 2^24: the mantissa rounds without error.
            assert(n == 0x100_0000);
            let p1 = pow2(1) as int;
            assert(p1 == 2);
            lemma_fundamental_div_mod_converse_div(n, 2, 0x80_0000, 0);
            lemma_fundamental_div_mod_converse_mod(n, 2, 0x80_0000, 0);
            assert(round_nearest_even(n, 1) == 0x80_0000);
            lemma_f32_fields_of(neg, 151, 0);
            let bits = f32_bits_of_int(n, neg);
            assert(f32_mantissa(bits) == 0x80_0000 && f32_eexp(bits) == 151);
            assert(f32_round_mag(bits) == 0x80_0000 * pow2(1));
        }
    }
}

/// Decomposition of a composed double-precision pattern back into its
/// fields.
proof fn lemma_f64_fields_of(neg: bool, e: int, f: int)
    requires
        0 <= f < 0x10_0000_0000_0000,
        0 <= e < 2047,
    ensures
        ({
            let bits = ((if neg {
                0x8000_0000_0000_0000int
            } else {
                0int
            }) + e * 0x10_0000_0000_0000 + f) as u64;
            f64_sign(bits) == neg && f64_exp(bits) == e && f64_frac(bits) == f
        }),
{
    let s: int = if neg {
        0x8000_0000_0000_0000
    } else {
        0
    };
    let bits_int = s + e * 0x10_0000_0000_0000 + f;
    let sh: int = if neg {
        0x800
    } else {
        0
    };
    assert(bits_int == (sh + e) * 0x10_0000_0000_0000 + f);
    lemma_fundamental_div_mod_converse_mod(bits_int, 0x10_0000_0000_0000, sh + e, f);
    lemma_fundamental_div_mod_converse_div(bits_int, 0x10_0000_0000_0000, sh + e, f);
    lemma_fundamental_div_mod_converse_mod(
        sh + e,
        0x800,
        if neg {
            1int
        } else {
            0int
        },
        e,
    );
    lemma_fundamental_div_mod_converse_div(
        bits_int,
        0x8000_0000_0000_0000,
        if neg {
            1int
        } else {
            0int
        },
        e * 0x10_0000_0000_0000 + f,
    );
}

/// Law: every integer in the 32-bit range converts to double-precision bits
/// and rounds back to exactly itself: double precision represents each such
/// integer exactly.
pub proof fn lemma_f64_of_int_exact(n: int, neg: bool)
    requires
        0 <= n,
        neg ==> n <= 0x8000_0000,
        !neg ==> n <= 0x7fff_ffff,
    ensures
        f64_round_to_i32(f64_bits_of_int(n, neg)) == Some(
            (if neg {
                -n
            } else {
                n
            }) as i32,
        ),
{
    lemma2_to64();
    lemma2_to64_rest();
    if n == 0 {
        let bits = f64_bits_of_int(n, neg);
        if neg {
            assert(f64_exp(bits) == 0 && f64_frac(bits) == 0 && f64_sign(bits));
        } else {
            assert(f64_exp(bits) == 0 && f64_frac(bits) == 0 && !f64_sign(bits));
        }
        lemma_pow2_strictly_increases(1073, 1074);
        lemma_basic_div(pow2(1073) as int, pow2(1074) as int);
        lemma_pow2_pos(1074);
    } else {
        lemma_floor_log2(n);
        let h = floor_log2(n);
        if h > 31 {
            lemma_pow2_le(32, h as nat);
        }
        assert(h <= 31);
        let k = (52 - h) as nat;
        lemma_pow2_pos(k);
        lemma_pow2_pos((k - 1) as nat);
        lemma_pow2_adds(h as nat, k);
        lemma_pow2_adds((h + 1) as nat, k);
        let m = n * pow2(k);
        assert(pow2(52) <= m < pow2(53)) by (nonlinear_arith)
            requires
                m == n * pow2(k),
                pow2(h as nat) <= n < pow2((h + 1) as nat),
                pow2(k) >= 1,
                pow2(h as nat) * pow2(k) == pow2(52),
                pow2((h + 1) as nat) * pow2(k) == pow2(53),
        ;
        let f = m - 0x10_0000_0000_0000;
        lemma_f64_fields_of(neg, h + 1023, f);
        let bits = f64_bits_of_int(n, neg);
        assert(f64_mantissa(bits) == m && f64_eexp(bits) == h + 1023);
        let kk = (1075 - (h + 1023)) as nat;
        assert(kk == k);
        lemma_pow2_unfold(k);
        assert(m + pow2((k - 1) as nat) == n * pow2(k) + pow2((k - 1) as nat));
        lemma_fundamental_div_mod_converse_div(
            m + pow2((k - 1) as nat),
            pow2(k) as int,
            n,
            pow2((k - 1) as nat) as int,
        );
        assert(f64_round_mag(bits) == n);
    }
}

/// `2^k`, computed executably.
fn pow2_u64(k: u64) -> (p: u64)
    requires
        k < 64,
    ensures
        p == pow2(k as nat),
{
    let mut p: u64 = 1;
    let mut i: u64 = 0;
    proof {
        lemma2_to64();
    }
    while i < k
        invariant
            0 <= i <= k < 64,
            p == pow2(i as nat),
        decreases k - i,
    {
        proof {
            lemma_pow2_strictly_increases(i as nat, 63);
            lemma2_to64_rest();
            lemma_pow2_unfold((i + 1) as nat);
        }
        p = p * 2;
        i = i + 1;
    }
    p
}

/// The position of the highest set bit, computed executably.
fn floor_log2_u64(n: u64) -> (h: u64)
    requires
        n >= 1,
    ensures
        h == floor_log2(n as int),
        pow2(h as nat) <= n < pow2((h + 1) as nat),
        h <= 63,
{
    let mut x: u64 = n;
    let mut h: u64 = 0;
    proof {
        lemma_floor_log2(n as int);
        if floor_log2(n as int) > 63 {
            lemma_pow2_le(64, floor_log2(n as int) as nat);
            lemma2_to64();
            lemma2_to64_rest();
        }
    }
    while x >= 2
        invariant
            1 <= x <= n,
            0 <= h,
            h + floor_log2(x as int) == floor_log2(n as int),
            floor_log2(n as int) <= 63,
        decreases x,
    {
        proof {
            lemma_floor_log2(x as int);
            lemma_floor_log2((x / 2) as int);
        }
        x = x / 2;
        h = h + 1;
    }
    proof {
        lemma_floor_log2(n as int);
    }
    h
}

/// The magnitude of `v` as an unsigned value.
fn i32_magnitude(v: i32) -> (n: u32)
    ensures
        n == if v < 0 {
            -(v as int)
        } else {
            v as int
        },
{
    if v >= 0 {
        v as u32
    } else {
        (-(v as i64)) as u32
    }
}

/// The single-precision pattern nearest to the integer `v`: exact below
/// `2^24`, rounded to the nearest representable (ties to even) above it.
pub fn i32_to_f32_bits(v: i32) -> (bits: u32)
    ensures
        bits == f32_bits_of_int(
            if v < 0 {
                -(v as int)
            } else {
                v as int
            },
            v < 0,
        ),
{
    let neg = v < 0;
    let s: u32 = if neg {
        0x8000_0000
    } else {
        0
    };
    let n = i32_magnitude(v);
    if n == 0 {
        return s;
    }
    let h64 = floor_log2_u64(n as u64);
    proof {
        if h64 > 31 {
            lemma_pow2_le(32, h64 as nat);
            lemma2_to64();
        }
    }
    let h = h64 as u32;
    if h <= 23 {
        let p = pow2_u64((23 - h) as u64);
        proof {
            let ghost a = pow2(h as nat) as int;
            let ghost b = pow2((h + 1) as nat) as int;
            lemma_pow2_adds(h as nat, (23 - h) as nat);
            lemma_pow2_adds((h + 1) as nat, (23 - h) as nat);
            lemma_pow2_pos((23 - h) as nat);
            lemma2_to64();
            assert(pow2(23) <= n * p < pow2(24)) by (nonlinear_arith)
                requires
                    a <= n < b,
                    p >= 1,
                    a * p == pow2(23),
                    b * p == pow2(24),
            ;
        }
        let m = (n as u64) * p;
        s + (h + 127) * 0x80_0000 + ((m as u32) - 0x80_0000)
    } else {
        let k = h - 23;
        let p = pow2_u64(k as u64);
        proof {
            let ghost a = pow2(h as nat) as int;
            let ghost b = pow2((h + 1) as nat) as int;
            lemma_pow2_adds(23, k as nat);
            lemma_pow2_adds(24, k as nat);
            lemma2_to64();
            vstd::arithmetic::div_mod::lemma_div_multiples_vanish(0x80_0000, p as int);
            vstd::arithmetic::div_mod::lemma_div_is_ordered(a, n as int, p as int);
            lemma_multiply_divide_lt(n as int, p as int, 0x100_0000);
        }
        let q = (n as u64) / p;
        let r = (n as u64) % p;
        let m = if 2 * r > p || (2 * r == p && q % 2 == 1) {
            q + 1
        } else {
            q
        };
        if m == 0x100_0000 {
            s + (h + 128) * 0x80_0000
        } else {
            s + (h + 127) * 0x80_0000 + ((m as u32) - 0x80_0000)
        }
    }
}

/// The double-precision pattern of the integer `v`; exact for every 32-bit
/// integer.
pub fn i32_to_f64_bits(v: i32) -> (bits: u64)
    ensures
        bits == f64_bits_of_int(
            if v < 0 {
                -(v as int)
            } else {
                v as int
            },
            v < 0,
        ),
{
    let neg = v < 0;
    let s: u64 = if neg {
        0x8000_0000_0000_0000
    } else {
        0
    };
    let n = i32_magnitude(v);
    if n == 0 {
        return s;
    }
    let h = floor_log2_u64(n as u64);
    proof {
        if h > 31 {
            lemma_pow2_le(32, h as nat);
            lemma2_to64();
        }
    }
    let p = pow2_u64(52 - h);
    proof {
        let ghost a = pow2(h as nat) as int;
        let ghost b = pow2((h + 1) as nat) as int;
        lemma_pow2_adds(h as nat, (52 - h) as nat);
        lemma_pow2_adds((h + 1) as nat, (52 - h) as nat);
        lemma_pow2_pos((52 - h) as nat);
        lemma2_to64_rest();
        assert(pow2(52) <= n * p < pow2(53)) by (nonlinear_arith)
            requires
                a <= n < b,
                p >= 1,
                a * p == pow2(52),
                b * p == pow2(53),
        ;
    }
    let m = (n as u64) * p;
    s + (h + 1023) * 0x10_0000_0000_0000 + (m - 0x10_0000_0000_0000)
}

/// Widens a single-precision pattern to the double-precision pattern of the
/// same value; exact for every finite value, and keeps infinities, NaNs and
/// the sign.
pub fn f32_bits_to_f64_bits(b: u32) -> (r: u64)
    ensures
        r == f64_bits_of_f32(b),
{
    let s: u64 = if b / 0x8000_0000 == 1 {
        0x8000_0000_0000_0000
    } else {
        0
    };
    let e = (b / 0x80_0000) % 0x100;
    let f = b % 0x80_0000;
    proof {
        lemma2_to64();
    }
    if e == 255 {
        s + 2047 * 0x10_0000_0000_0000 + (f as u64) * 0x2000_0000
    } else if e == 0 && f == 0 {
        s
    } else if e == 0 {
        let h = floor_log2_u64(f as u64);
        proof {
            if h > 22 {
                lemma_pow2_le(23, h as nat);
            }
        }
        let p = pow2_u64(52 - h);
        proof {
            let ghost a = pow2(h as nat) as int;
            let ghost bb = pow2((h + 1) as nat) as int;
            lemma_pow2_adds(h as nat, (52 - h) as nat);
            lemma_pow2_adds((h + 1) as nat, (52 - h) as nat);
            lemma_pow2_pos((52 - h) as nat);
            lemma2_to64_rest();
            assert(pow2(52) <= f * p < pow2(53)) by (nonlinear_arith)
                requires
                    a <= f < bb,
                    p >= 1,
                    a * p == pow2(52),
                    bb * p == pow2(53),
            ;
        }
        let m = (f as u64) * p;
        s + (h + 874) * 0x10_0000_0000_0000 + (m - 0x10_0000_0000_0000)
    } else {
        s + ((e as u64) + 896) * 0x10_0000_0000_0000 + (f as u64) * 0x2000_0000
    }
}

/// Rounds the single-precision value `bits` to a 32-bit integer, halves away
/// from zero, failing exactly when the rounded value exceeds the integer's
/// range.
pub fn f32_bits_round_to_i32(bits: u32) -> (r: Option<i32>)
    ensures
        r == f32_round_to_i32(bits),
{
    let exp = (bits / 0x80_0000) % 0x100;
    let frac = bits % 0x80_0000;
    let neg = bits / 0x8000_0000 == 1;
    if exp == 255 {
        return if frac != 0 {
            Some(0)
        } else {
            None
        };
    }
    let m: u64 = if exp == 0 {
        frac as u64
    } else {
        (frac + 0x80_0000) as u64
    };
    let e: u32 = if exp == 0 {
        1
    } else {
        exp
    };
    let mag: u64 = if e >= 150 {
        let j = (e - 150) as u64;
        if j >= 32 {
            // The magnitude is at least 2^23 * 2^32: out of range either way.
            proof {
                lemma2_to64();
                lemma_pow2_le(32, j as nat);
                assert(m * pow2(j as nat) > 0x1_0000_0000) by (nonlinear_arith)
                    requires
                        m >= 0x80_0000,
                        pow2(j as nat) >= 0x1_0000_0000,
                ;
            }
            return None;
        }
        let p = pow2_u64(j);
        proof {
            lemma2_to64();
            lemma_pow2_le(j as nat, 31);
            assert(m * p <= 0x100_0000 * 0x8000_0000) by (nonlinear_arith)
                requires
                    0 <= m <= 0x100_0000,
                    0 <= p <= 0x8000_0000,
            ;
        }
        m * p
    } else {
        let k = (150 - e) as u64;
        if k >= 64 {
            proof {
                lemma_pow2_pos(k as nat);
                lemma2_to64_rest();
                lemma_pow2_le(63, (k - 1) as nat);
                lemma_pow2_unfold(k as nat);
                lemma_basic_div(m + pow2((k - 1) as nat), pow2(k as nat) as int);
            }
            0
        } else {
            let p = pow2_u64(k);
            let half = p / 2;
            proof {
                lemma_pow2_pos(k as nat);
                lemma_pow2_unfold(k as nat);
                lemma_pow2_strictly_increases((k - 1) as nat, 63);
                lemma2_to64_rest();
                assert(half == pow2((k - 1) as nat));
            }
            (m + half) / p
        }
    };
    if neg {
        if mag > 0x8000_0000 {
            None
        } else {
            Some((-(mag as i64)) as i32)
        }
    } else {
        if mag > 0x7fff_ffff {
            None
        } else {
            Some(mag as i32)
        }
    }
}

/// Rounds the double-precision value `bits` to a 32-bit integer, halves away
/// from zero, failing exactly when the rounded value exceeds the integer's
/// range.
pub fn f64_bits_round_to_i32(bits: u64) -> (r: Option<i32>)
    ensures
        r == f64_round_to_i32(bits),
{
    let exp = (bits / 0x10_0000_0000_0000) % 0x800;
    let frac = bits % 0x10_0000_0000_0000;
    let neg = bits / 0x8000_0000_0000_0000 == 1;
    if exp == 2047 {
        return if frac != 0 {
            Some(0)
        } else {
            None
        };
    }
    let m: u64 = if exp == 0 {
        frac
    } else {
        frac + 0x10_0000_0000_0000
    };
    let e: u64 = if exp == 0 {
        1
    } else {
        exp
    };
    if e >= 1075 {
        // A normal mantissa is at least 2^52, far beyond the integer range.
        proof {
            lemma_pow2_pos((e - 1075) as nat);
            assert(m * pow2((e - 1075) as nat) >= m) by (nonlinear_arith)
                requires
                    m >= 0,
                    pow2((e - 1075) as nat) >= 1,
            ;
        }
        return None;
    }
    let k = (1075 - e) as u64;
    let mag: u64 = if k >= 64 {
        proof {
            lemma_pow2_pos(k as nat);
            lemma2_to64_rest();
            lemma_pow2_le(63, (k - 1) as nat);
            lemma_pow2_unfold(k as nat);
            lemma_basic_div(m + pow2((k - 1) as nat), pow2(k as nat) as int);
        }
        0
    } else {
        let p = pow2_u64(k);
        let half = p / 2;
        proof {
            lemma_pow2_pos(k as nat);
            lemma_pow2_unfold(k as nat);
            lemma_pow2_strictly_increases((k - 1) as nat, 63);
            lemma2_to64_rest();
            assert(half == pow2((k - 1) as nat));
        }
        (m + half) / p
    };
    if neg {
        if mag > 0x8000_0000 {
            None
        } else {
            Some((-(mag as i64)) as i32)
        }
    } else {
        if mag > 0x7fff_ffff {
            None
        } else {
            Some(mag as i32)
        }
    }
}

} // verus!
