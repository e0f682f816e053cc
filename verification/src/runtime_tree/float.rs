//! Floating-point values held as their IEEE 754 bits: the comparisons, the
//! truncations to integers and the conversions of unsigned integers, which
//! integers define exactly.
use vstd::arithmetic::power2::lemma2_to64;
use vstd::arithmetic::power2::lemma2_to64_rest;
use vstd::arithmetic::power2::lemma_pow2_adds;
use vstd::arithmetic::power2::lemma_pow2_pos;
use vstd::arithmetic::power2::lemma_pow2_strictly_increases;
use vstd::arithmetic::power2::pow2;
use vstd::bits::lemma_u64_shl_is_mul;
use vstd::bits::lemma_u64_shr_is_div;
use vstd::prelude::*;

verus! {

/// The biased exponent of an `f32`.
pub open spec fn f32_exp(x: u32) -> nat {
    ((x / 0x80_0000) % 0x100) as nat
}

/// The stored fraction of an `f32`.
pub open spec fn f32_mant(x: u32) -> nat {
    (x % 0x80_0000) as nat
}

/// Whether the sign bit of an `f32` is set.
pub open spec fn f32_negative(x: u32) -> bool {
    x >= 0x8000_0000
}

/// Whether an `f32` is a NaN.
pub open spec fn f32_is_nan(x: u32) -> bool {
    f32_exp(x) == 0xff && f32_mant(x) != 0
}

/// Where an `f32` that is no NaN stands in the order of the reals: its bits
/// without the sign, negated for a negative value, so that both zeros meet.
pub open spec fn f32_key(x: u32) -> int {
    let m = (x % 0x8000_0000) as int;
    if f32_negative(x) {
        -m
    } else {
        m
    }
}

/// The biased exponent of an `f64`.
pub open spec fn f64_exp(x: u64) -> nat {
    ((x / 0x10_0000_0000_0000) % 0x800) as nat
}

/// The stored fraction of an `f64`.
pub open spec fn f64_mant(x: u64) -> nat {
    (x % 0x10_0000_0000_0000) as nat
}

/// Whether the sign bit of an `f64` is set.
pub open spec fn f64_negative(x: u64) -> bool {
    x >= 0x8000_0000_0000_0000
}

/// Whether an `f64` is a NaN.
pub open spec fn f64_is_nan(x: u64) -> bool {
    f64_exp(x) == 0x7ff && f64_mant(x) != 0
}

/// Where an `f64` that is no NaN stands in the order of the reals.
pub open spec fn f64_key(x: u64) -> int {
    let m = (x % 0x8000_0000_0000_0000) as int;
    if f64_negative(x) {
        -m
    } else {
        m
    }
}

/// `a == b` on `f32`s: false where either is a NaN; the two zeros are equal.
pub open spec fn f32_eq(a: u32, b: u32) -> bool {
    !f32_is_nan(a) && !f32_is_nan(b) && f32_key(a) == f32_key(b)
}

/// `a < b` on `f32`s: false where either is a NaN.
pub open spec fn f32_lt(a: u32, b: u32) -> bool {
    !f32_is_nan(a) && !f32_is_nan(b) && f32_key(a) < f32_key(b)
}

/// `a <= b` on `f32`s: false where either is a NaN.
pub open spec fn f32_le(a: u32, b: u32) -> bool {
    !f32_is_nan(a) && !f32_is_nan(b) && f32_key(a) <= f32_key(b)
}

/// `a == b` on `f64`s: false where either is a NaN; the two zeros are equal.
pub open spec fn f64_eq(a: u64, b: u64) -> bool {
    !f64_is_nan(a) && !f64_is_nan(b) && f64_key(a) == f64_key(b)
}

/// `a < b` on `f64`s: false where either is a NaN.
pub open spec fn f64_lt(a: u64, b: u64) -> bool {
    !f64_is_nan(a) && !f64_is_nan(b) && f64_key(a) < f64_key(b)
}

/// `a <= b` on `f64`s: false where either is a NaN.
pub open spec fn f64_le(a: u64, b: u64) -> bool {
    !f64_is_nan(a) && !f64_is_nan(b) && f64_key(a) <= f64_key(b)
}

/// `sig` times two to the power `shift`, rounded toward zero.
pub open spec fn shifted(sig: nat, shift: int) -> nat {
    if shift >= 0 {
        sig * pow2(shift as nat)
    } else {
        sig / pow2((-shift) as nat)
    }
}

/// An `f32` that is no NaN rounded toward zero to an integer; an infinity
/// gives a value beyond every integer type.
pub open spec fn f32_trunc(x: u32) -> int {
    let e = f32_exp(x);
    let sig = if e == 0 { f32_mant(x) } else { f32_mant(x) + 0x80_0000 };
    let mag = shifted(sig, (if e == 0 { 1 } else { e as int }) - 150);
    if f32_negative(x) {
        -(mag as int)
    } else {
        mag as int
    }
}

/// An `f64` that is no NaN rounded toward zero to an integer; an infinity
/// gives a value beyond every integer type.
pub open spec fn f64_trunc(x: u64) -> int {
    let e = f64_exp(x);
    let sig = if e == 0 { f64_mant(x) } else { f64_mant(x) + 0x10_0000_0000_0000 };
    let mag = shifted(sig, (if e == 0 { 1 } else { e as int }) - 1075);
    if f64_negative(x) {
        -(mag as int)
    } else {
        mag as int
    }
}

/// `v` held within `lo ..= hi`.
pub open spec fn saturate(v: int, lo: int, hi: int) -> int {
    if v < lo {
        lo
    } else if v > hi {
        hi
    } else {
        v
    }
}

/// An `f32` converted to an integer within `lo ..= hi` as Rust's `as` does:
/// rounded toward zero, held within the bounds, and 0 for a NaN.
pub open spec fn f32_to_int(x: u32, lo: int, hi: int) -> int {
    if f32_is_nan(x) {
        0
    } else {
        saturate(f32_trunc(x), lo, hi)
    }
}

/// An `f64` converted to an integer within `lo ..= hi` as Rust's `as` does.
pub open spec fn f64_to_int(x: u64, lo: int, hi: int) -> int {
    if f64_is_nan(x) {
        0
    } else {
        saturate(f64_trunc(x), lo, hi)
    }
}

/// The largest magnitude that the truncations report: `2^63`.
pub open spec fn cap(m: nat) -> nat {
    if m > 0x8000_0000_0000_0000 {
        0x8000_0000_0000_0000
    } else {
        m
    }
}

fn f32_is_nan_of(x: u32) -> (r: bool)
    ensures
        r == f32_is_nan(x),
{
    let e: u32 = (x >> 23u32) & 0xffu32;
    let m: u32 = x & 0x7f_ffffu32;
    assert(e == (x / 0x80_0000) % 0x100 && m == x % 0x80_0000) by (bit_vector)
        requires
            e == (x >> 23u32) & 0xffu32,
            m == x & 0x7f_ffffu32,
    ;
    e == 0xff && m != 0
}

fn f32_key_of(x: u32) -> (r: i64)
    ensures
        r == f32_key(x),
{
    let m: u32 = x & 0x7fff_ffffu32;
    assert(m == x % 0x8000_0000) by (bit_vector)
        requires
            m == x & 0x7fff_ffffu32,
    ;
    if x >= 0x8000_0000 {
        -(m as i64)
    } else {
        m as i64
    }
}

fn f64_is_nan_of(x: u64) -> (r: bool)
    ensures
        r == f64_is_nan(x),
{
    let e: u64 = (x >> 52u64) & 0x7ffu64;
    let m: u64 = x & 0xf_ffff_ffff_ffffu64;
    assert(e == (x / 0x10_0000_0000_0000) % 0x800 && m == x % 0x10_0000_0000_0000) by (bit_vector)
        requires
            e == (x >> 52u64) & 0x7ffu64,
            m == x & 0xf_ffff_ffff_ffffu64,
    ;
    e == 0x7ff && m != 0
}

fn f64_key_of(x: u64) -> (r: i64)
    ensures
        r == f64_key(x),
{
    let m: u64 = x & 0x7fff_ffff_ffff_ffffu64;
    assert(m == x % 0x8000_0000_0000_0000) by (bit_vector)
        requires
            m == x & 0x7fff_ffff_ffff_ffffu64,
    ;
    if x >= 0x8000_0000_0000_0000 {
        -(m as i64)
    } else {
        m as i64
    }
}

/// `a == b` on `f32` bits.
pub fn f32_eq_of(a: u32, b: u32) -> (r: bool)
    ensures
        r == f32_eq(a, b),
{
    !f32_is_nan_of(a) && !f32_is_nan_of(b) && f32_key_of(a) == f32_key_of(b)
}

/// `a < b` on `f32` bits.
pub fn f32_lt_of(a: u32, b: u32) -> (r: bool)
    ensures
        r == f32_lt(a, b),
{
    !f32_is_nan_of(a) && !f32_is_nan_of(b) && f32_key_of(a) < f32_key_of(b)
}

/// `a <= b` on `f32` bits.
pub fn f32_le_of(a: u32, b: u32) -> (r: bool)
    ensures
        r == f32_le(a, b),
{
    !f32_is_nan_of(a) && !f32_is_nan_of(b) && f32_key_of(a) <= f32_key_of(b)
}

/// `a == b` on `f64` bits.
pub fn f64_eq_of(a: u64, b: u64) -> (r: bool)
    ensures
        r == f64_eq(a, b),
{
    !f64_is_nan_of(a) && !f64_is_nan_of(b) && f64_key_of(a) == f64_key_of(b)
}

/// `a < b` on `f64` bits.
pub fn f64_lt_of(a: u64, b: u64) -> (r: bool)
    ensures
        r == f64_lt(a, b),
{
    !f64_is_nan_of(a) && !f64_is_nan_of(b) && f64_key_of(a) < f64_key_of(b)
}

/// `a <= b` on `f64` bits.
pub fn f64_le_of(a: u64, b: u64) -> (r: bool)
    ensures
        r == f64_le(a, b),
{
    !f64_is_nan_of(a) && !f64_is_nan_of(b) && f64_key_of(a) <= f64_key_of(b)
}

/// `sig` shifted by `shift` as `shifted` says, for a significand below
/// `2^(top + 1)` that is at least `2^top` where the shift is to the left, with
/// the result held at `2^63`.
fn shifted_capped(sig: u64, shift: i64, top: u64) -> (r: u64)
    requires
        top == 23 || top == 52,
        sig < pow2((top + 1) as nat),
        shift >= 0 ==> sig >= pow2(top as nat),
        -0x1_0000 < shift < 0x1_0000,
    ensures
        r == cap(shifted(sig as nat, shift as int)),
{
    proof {
        lemma2_to64();
        lemma2_to64_rest();
    }
    if shift >= 0 {
        let k: u64 = shift as u64;
        if k >= 63 - top {
            proof {
                if k > 63 - top {
                    lemma_pow2_strictly_increases((63 - top) as nat, k as nat);
                }
                assert(sig as nat * pow2(k as nat) >= pow2(top as nat) * pow2((63 - top) as nat)) by (nonlinear_arith)
                    requires
                        sig >= pow2(top as nat),
                        pow2(k as nat) >= pow2((63 - top) as nat),
                ;
            }
            0x8000_0000_0000_0000
        } else {
            proof {
                if k < 62 - top {
                    lemma_pow2_strictly_increases(k as nat, (62 - top) as nat);
                }
                assert(sig as nat * pow2(k as nat) < pow2((top + 1) as nat) * pow2((62 - top) as nat)) by (nonlinear_arith)
                    requires
                        sig < pow2((top + 1) as nat),
                        pow2(k as nat) <= pow2((62 - top) as nat),
                        pow2(k as nat) > 0,
                ;
                lemma_u64_shl_is_mul(sig, k);
            }
            sig << k
        }
    } else {
        let k: u64 = (-shift) as u64;
        if k >= 64 {
            proof {
                lemma_pow2_strictly_increases((top + 1) as nat, k as nat);
                assert(sig as nat / pow2(k as nat) == 0) by (nonlinear_arith)
                    requires
                        sig < pow2(k as nat),
                ;
            }
            0
        } else {
            proof {
                lemma_u64_shr_is_div(sig, k);
                lemma_pow2_pos(k as nat);
                assert(sig as nat / pow2(k as nat) <= sig) by (nonlinear_arith)
                    requires
                        pow2(k as nat) > 0,
                ;
            }
            sig >> k
        }
    }
}

/// `±mag` held within `lo ..= hi`.
fn saturate_signed(negative: bool, mag: u64, lo: i64, hi: i64) -> (r: i64)
    requires
        lo <= 0 <= hi,
        mag <= 0x8000_0000_0000_0000u64,
    ensures
        r == saturate(if negative { -(mag as int) } else { mag as int }, lo as int, hi as int),
{
    if negative {
        if (mag as i128) > -(lo as i128) {
            lo
        } else {
            (-(mag as i128)) as i64
        }
    } else {
        if mag > hi as u64 {
            hi
        } else {
            mag as i64
        }
    }
}

/// An `f32` converted to an integer within `lo ..= hi` as Rust's `as` does.
pub fn f32_to_int_of(x: u32, lo: i64, hi: i64) -> (r: i64)
    requires
        lo <= 0 <= hi,
    ensures
        r == f32_to_int(x, lo as int, hi as int),
{
    if f32_is_nan_of(x) {
        return 0;
    }
    let e: u32 = (x >> 23u32) & 0xffu32;
    let m: u32 = x & 0x7f_ffffu32;
    assert(e == (x / 0x80_0000) % 0x100 && m == x % 0x80_0000) by (bit_vector)
        requires
            e == (x >> 23u32) & 0xffu32,
            m == x & 0x7f_ffffu32,
    ;
    proof {
        lemma2_to64();
    }
    let sig: u64 = if e == 0 { m as u64 } else { m as u64 + 0x80_0000 };
    let eff: i64 = if e == 0 { 1 } else { e as i64 };
    let mag = shifted_capped(sig, eff - 150, 23);
    let r = saturate_signed(x >= 0x8000_0000, mag, lo, hi);
    proof {
        let t = shifted(sig as nat, eff - 150);
        if t > 0x8000_0000_0000_0000 {
            assert(saturate(-t, lo as int, hi as int) == saturate(-(mag as int), lo as int, hi as int));
            assert(saturate(t as int, lo as int, hi as int) == saturate(mag as int, lo as int, hi as int));
        }
    }
    r
}

/// An `f64` converted to an integer within `lo ..= hi` as Rust's `as` does.
pub fn f64_to_int_of(x: u64, lo: i64, hi: i64) -> (r: i64)
    requires
        lo <= 0 <= hi,
    ensures
        r == f64_to_int(x, lo as int, hi as int),
{
    if f64_is_nan_of(x) {
        return 0;
    }
    let e: u64 = (x >> 52u64) & 0x7ffu64;
    let m: u64 = x & 0xf_ffff_ffff_ffffu64;
    assert(e == (x / 0x10_0000_0000_0000) % 0x800 && m == x % 0x10_0000_0000_0000) by (bit_vector)
        requires
            e == (x >> 52u64) & 0x7ffu64,
            m == x & 0xf_ffff_ffff_ffffu64,
    ;
    proof {
        lemma2_to64();
        lemma2_to64_rest();
    }
    let sig: u64 = if e == 0 { m } else { m + 0x10_0000_0000_0000 };
    let eff: i64 = if e == 0 { 1 } else { e as i64 };
    let mag = shifted_capped(sig, eff - 1075, 52);
    let r = saturate_signed(x >= 0x8000_0000_0000_0000, mag, lo, hi);
    proof {
        let t = shifted(sig as nat, eff - 1075);
        if t > 0x8000_0000_0000_0000 {
            assert(saturate(-t, lo as int, hi as int) == saturate(-(mag as int), lo as int, hi as int));
            assert(saturate(t as int, lo as int, hi as int) == saturate(mag as int, lo as int, hi as int));
        }
    }
    r
}

/// The position of the highest set bit of `n`, for `n >= 1`.
pub open spec fn top_bit(n: nat) -> nat
    decreases n,
{
    if n <= 1 {
        0
    } else {
        1 + top_bit(n / 2)
    }
}

/// `2^top_bit(n) <= n < 2^(top_bit(n) + 1)`.
pub proof fn lemma_top_bit(n: nat)
    requires
        n >= 1,
    ensures
        pow2(top_bit(n)) <= n < pow2(top_bit(n) + 1),
    decreases n,
{
    lemma2_to64();
    if n > 1 {
        lemma_top_bit(n / 2);
        let t = top_bit(n / 2);
        lemma_pow2_adds(t, 1);
        lemma_pow2_adds(t + 1, 1);
    }
}

/// The bits of the floating-point value nearest to `n`, ties to even, in a
/// format with `m` stored fraction bits and exponent bias `bias`: the
/// conversion that Rust's `as f32` (`m == 23`) and `as f64` (`m == 52`) make
/// of an unsigned integer.
pub open spec fn float_bits_of(n: nat, m: nat, bias: nat) -> nat {
    if n == 0 {
        0
    } else {
        let e = top_bit(n);
        if e <= m {
            (bias + e) * pow2(m) + ((n - pow2(e)) as nat) * pow2((m - e) as nat)
        } else {
            let p = pow2((e - m) as nat);
            let q = n / p;
            let r = n % p;
            let q2 = if r * 2 > p || (r * 2 == p && q % 2 == 1) { q + 1 } else { q };
            if q2 == pow2(m + 1) {
                (bias + e + 1) * pow2(m)
            } else {
                (bias + e) * pow2(m) + ((q2 - pow2(m)) as nat)
            }
        }
    }
}

/// Two to the power `k`, for `k < 64`.
fn pow2_of(k: u64) -> (r: u64)
    requires
        k < 63,
    ensures
        r == pow2(k as nat),
{
    proof {
        lemma2_to64();
        lemma2_to64_rest();
        if k < 62 {
            lemma_pow2_strictly_increases(k as nat, 62);
        }
        lemma_u64_shl_is_mul(1, k);
    }
    1u64 << k
}

/// The bits of an unsigned integer converted to floating point, as
/// `float_bits_of` says.
fn float_bits(n: u64, m: u64, bias: u64) -> (r: u64)
    requires
        (m == 23 && bias == 127) || (m == 52 && bias == 1023),
    ensures
        r == float_bits_of(n as nat, m as nat, bias as nat),
        m == 23 ==> r < 0x8000_0000,
        m == 52 ==> r < 0x8000_0000_0000_0000,
{
    if n == 0 {
        return 0;
    }
    proof {
        lemma2_to64();
        lemma2_to64_rest();
        lemma_top_bit(n as nat);
        if top_bit(n as nat) >= 64 {
            if top_bit(n as nat) > 64 {
                lemma_pow2_strictly_increases(64, top_bit(n as nat));
            }
        }
    }
    let mut x: u64 = n;
    let mut e: u64 = 0;
    while x > 1
        invariant
            1 <= x <= n,
            top_bit(n as nat) < 64,
            e + top_bit(x as nat) == top_bit(n as nat),
        decreases x,
    {
        x = x / 2;
        e = e + 1;
    }
    proof {
        lemma2_to64();
        lemma2_to64_rest();
        lemma_top_bit(n as nat);
        if e >= 64 {
            lemma_pow2_strictly_increases(64, e as nat);
        }
    }
    assert(e < 64);
    let pm: u64 = pow2_of(m);
    if e <= m {
        let pe: u64 = pow2_of(e);
        let s: u64 = pow2_of(m - e);
        proof {
            lemma_pow2_adds(e as nat, (m - e) as nat);
            lemma_pow2_adds(e as nat, 1);
            assert((n - pe) * s < pe * s) by (nonlinear_arith)
                requires
                    n - pe < pe,
                    s > 0,
            ;
            assert((bias + e) * pm <= 1086 * pm) by (nonlinear_arith)
                requires
                    bias + e <= 1086,
            ;
            if m == 23 {
                assert((bias + e) * pm <= 190 * pm) by (nonlinear_arith)
                    requires
                        bias + e <= 190,
                ;
            }
        }
        (bias + e) * pm + (n - pe) * s
    } else {
        let p: u64 = pow2_of(e - m);
        proof {
            lemma_pow2_adds((e - m) as nat, m as nat);
            lemma_pow2_adds((e - m) as nat, (m + 1) as nat);
            lemma_pow2_adds(m as nat, 1);
            lemma_pow2_pos((e - m) as nat);
        }
        let q: u64 = n / p;
        let r: u64 = n % p;
        proof {
            assert(pm <= q < 2 * pm) by (nonlinear_arith)
                requires
                    p * pm <= n < p * (2 * pm),
                    q == n / p,
                    p > 0,
            ;
        }
        let q2: u64 = if r * 2 > p || (r * 2 == p && q % 2 == 1) {
            q + 1
        } else {
            q
        };
        proof {
            assert((bias + e + 1) * pm <= 1087 * pm) by (nonlinear_arith)
                requires
                    bias + e + 1 <= 1087,
            ;
            if m == 23 {
                assert((bias + e + 1) * pm <= 191 * pm) by (nonlinear_arith)
                    requires
                        bias + e + 1 <= 191,
                ;
            }
        }
        if q2 == 2 * pm {
            (bias + e + 1) * pm
        } else {
            (bias + e) * pm + (q2 - pm)
        }
    }
}

/// The bits of `n as f32`.
pub fn u32_to_f32_bits(n: u32) -> (r: u32)
    ensures
        r == float_bits_of(n as nat, 23, 127),
{
    float_bits(n as u64, 23, 127) as u32
}

/// The bits of `n as f64`.
pub fn u64_to_f64_bits(n: u64) -> (r: u64)
    ensures
        r == float_bits_of(n as nat, 52, 1023),
{
    float_bits(n, 52, 1023)
}

/// The bits of a signed integer converted to floating point: its magnitude
/// converted, with the sign bit `sign` added for a negative integer.
pub open spec fn signed_float_bits(a: int, m: nat, bias: nat, sign: nat) -> nat {
    if a < 0 {
        float_bits_of((-a) as nat, m, bias) + sign
    } else {
        float_bits_of(a as nat, m, bias)
    }
}

/// The bits of `n as f32`.
pub fn u64_to_f32_bits(n: u64) -> (r: u32)
    ensures
        r == float_bits_of(n as nat, 23, 127),
{
    float_bits(n, 23, 127) as u32
}

/// The bits of `a as f32`.
pub fn i64_to_f32_bits(a: i64) -> (r: u32)
    ensures
        r == signed_float_bits(a as int, 23, 127, 0x8000_0000),
{
    if a < 0 {
        let magnitude: u64 = (-(a as i128)) as u64;
        (float_bits(magnitude, 23, 127) + 0x8000_0000) as u32
    } else {
        float_bits(a as u64, 23, 127) as u32
    }
}

/// The bits of `a as f64`.
pub fn i64_to_f64_bits(a: i64) -> (r: u64)
    ensures
        r == signed_float_bits(a as int, 52, 1023, 0x8000_0000_0000_0000),
{
    if a < 0 {
        let magnitude: u64 = (-(a as i128)) as u64;
        float_bits(magnitude, 52, 1023) + 0x8000_0000_0000_0000
    } else {
        float_bits(a as u64, 52, 1023)
    }
}

} // verus!
