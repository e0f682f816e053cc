//! Numeric instructions on run-time values.
//!
//! An instruction that takes two values pops `a` first and then `b`, so `a` is
//! the value that was on top of the stack. Integer results that do not fit their
//! type, division by zero and shifts by a negative amount or by at least the
//! operand's width stop the run. The unsigned comparisons of 64-bit integers
//! compare the low 32 bits of each operand. Floating-point values are their
//! IEEE 754 bits; the instructions on them that integers define exactly run,
//! the others stop the run with `FloatArithmetic`. `i32.trunc_u/f32` converts a
//! value without its sign bit to a `u32` read back as an `i32`, and a value
//! with it as `i32.trunc_s/f32` does.
use crate::parse_tree::language_types::Operation;
use crate::parse_tree::language_types::ValueType;
use crate::runtime_tree::float::f32_eq;
use crate::runtime_tree::float::float_bits_of;
use crate::runtime_tree::float::i64_to_f32_bits;
use crate::runtime_tree::float::i64_to_f64_bits;
use crate::runtime_tree::float::signed_float_bits;
use crate::runtime_tree::float::u32_to_f32_bits;
use crate::runtime_tree::float::u64_to_f32_bits;
use crate::runtime_tree::float::u64_to_f64_bits;
use crate::runtime_tree::float::f32_eq_of;
use crate::runtime_tree::float::f32_le;
use crate::runtime_tree::float::f32_le_of;
use crate::runtime_tree::float::f32_lt;
use crate::runtime_tree::float::f32_lt_of;
use crate::runtime_tree::float::f32_to_int;
use crate::runtime_tree::float::f32_to_int_of;
use crate::runtime_tree::float::f64_eq;
use crate::runtime_tree::float::f64_eq_of;
use crate::runtime_tree::float::f64_le;
use crate::runtime_tree::float::f64_le_of;
use crate::runtime_tree::float::f64_lt;
use crate::runtime_tree::float::f64_lt_of;
use crate::runtime_tree::float::f64_to_int;
use crate::runtime_tree::float::f64_to_int_of;
use crate::runtime_tree::language_types::Trap;
use crate::runtime_tree::language_types::ValueTypeProvider;
use vstd::prelude::*;
use vstd::std_specs::bits::u64_leading_zeros;

verus! {

/// The number of one bits of `x`.
pub open spec fn popcount(x: nat) -> nat
    decreases x,
{
    if x == 0 {
        0
    } else {
        x % 2 + popcount(x / 2)
    }
}

proof fn lemma_popcount_le(x: nat)
    ensures
        popcount(x) <= x,
    decreases x,
{
    if x > 0 {
        lemma_popcount_le(x / 2);
    }
}

/// Counts the one bits of a 32-bit integer.
fn count_ones32(x: u32) -> (r: u32)
    ensures
        r == popcount(x as nat),
{
    let mut n: u32 = x;
    let mut c: u32 = 0;
    proof {
        lemma_popcount_le(x as nat);
    }
    while n != 0
        invariant
            c + popcount(n as nat) == popcount(x as nat),
            popcount(x as nat) <= x,
        decreases n,
    {
        proof {
            lemma_popcount_le((n / 2) as nat);
        }
        c = c + n % 2;
        n = n / 2;
    }
    c
}

/// Counts the one bits of a 64-bit integer.
fn count_ones64(x: u64) -> (r: u64)
    ensures
        r == popcount(x as nat),
{
    let mut n: u64 = x;
    let mut c: u64 = 0;
    proof {
        lemma_popcount_le(x as nat);
    }
    while n != 0
        invariant
            c + popcount(n as nat) == popcount(x as nat),
            popcount(x as nat) <= x,
        decreases n,
    {
        proof {
            lemma_popcount_le((n / 2) as nat);
        }
        c = c + n % 2;
        n = n / 2;
    }
    c
}

/// `x` rotated left by `k` bits, modulo 32.
pub open spec fn rotl32(x: u32, k: u32) -> u32 {
    let s = k % 32;
    if s == 0 {
        x
    } else {
        (x << s) | (x >> ((32 - s) as u32))
    }
}

/// `x` rotated right by `k` bits, modulo 32.
pub open spec fn rotr32(x: u32, k: u32) -> u32 {
    let s = k % 32;
    if s == 0 {
        x
    } else {
        (x >> s) | (x << ((32 - s) as u32))
    }
}

/// `x` rotated left by `k` bits, modulo 64.
pub open spec fn rotl64(x: u64, k: u32) -> u64 {
    let s = k % 64;
    if s == 0 {
        x
    } else {
        (x << s) | (x >> ((64 - s) as u32))
    }
}

/// `x` rotated right by `k` bits, modulo 64.
pub open spec fn rotr64(x: u64, k: u32) -> u64 {
    let s = k % 64;
    if s == 0 {
        x
    } else {
        (x >> s) | (x << ((64 - s) as u32))
    }
}

/// The quotient of `a` by `b` rounded toward zero.
pub open spec fn trunc_div(a: int, b: int) -> int {
    let q = abs(a) / abs(b);
    if (a < 0) != (b < 0) {
        -q
    } else {
        q as int
    }
}

/// The remainder of `a` by `b` that goes with `trunc_div`: it has the sign of `a`.
pub open spec fn trunc_rem(a: int, b: int) -> int {
    let r = abs(a) % abs(b);
    if a < 0 {
        -r
    } else {
        r as int
    }
}

/// The absolute value of `a`.
pub open spec fn abs(a: int) -> nat {
    if a < 0 {
        (-a) as nat
    } else {
        a as nat
    }
}

/// A 32-bit integer result, or overflow.
pub open spec fn fit32(v: int) -> Result<i32, Trap> {
    if i32::MIN <= v <= i32::MAX {
        Ok(v as i32)
    } else {
        Err(Trap::IntegerOverflow)
    }
}

/// A 64-bit integer result, or overflow.
pub open spec fn fit64(v: int) -> Result<i64, Trap> {
    if i64::MIN <= v <= i64::MAX {
        Ok(v as i64)
    } else {
        Err(Trap::IntegerOverflow)
    }
}

pub open spec fn spec_i32_add(a: i32, b: i32) -> Result<i32, Trap> {
    fit32(a + b)
}

pub open spec fn spec_i32_sub(a: i32, b: i32) -> Result<i32, Trap> {
    fit32(a - b)
}

pub open spec fn spec_i32_mul(a: i32, b: i32) -> Result<i32, Trap> {
    fit32(a * b)
}

pub open spec fn spec_i32_div_s(a: i32, b: i32) -> Result<i32, Trap> {
    if b == 0 {
        Err(Trap::DivisionByZero)
    } else {
        fit32(trunc_div(a as int, b as int))
    }
}

pub open spec fn spec_i32_div_u(a: i32, b: i32) -> Result<i32, Trap> {
    if b == 0 {
        Err(Trap::DivisionByZero)
    } else {
        Ok(((a as u32) / (b as u32)) as i32)
    }
}

pub open spec fn spec_i32_rem_s(a: i32, b: i32) -> Result<i32, Trap> {
    if b == 0 {
        Err(Trap::DivisionByZero)
    } else if a == i32::MIN && b == -1 {
        Err(Trap::IntegerOverflow)
    } else {
        Ok(trunc_rem(a as int, b as int) as i32)
    }
}

pub open spec fn spec_i32_rem_u(a: i32, b: i32) -> Result<i32, Trap> {
    if b == 0 {
        Err(Trap::DivisionByZero)
    } else {
        Ok(((a as u32) % (b as u32)) as i32)
    }
}

pub open spec fn spec_i32_shl(a: i32, b: i32) -> Result<i32, Trap> {
    if b < 0 || b >= 32 {
        Err(Trap::ShiftOutOfRange)
    } else {
        Ok(((a as u32) << (b as u32)) as i32)
    }
}

pub open spec fn spec_i32_shr_s(a: i32, b: i32) -> Result<i32, Trap> {
    if b < 0 || b >= 32 {
        Err(Trap::ShiftOutOfRange)
    } else {
        Ok(a >> (b as u32))
    }
}

pub open spec fn spec_i32_shr_u(a: i32, b: i32) -> Result<i32, Trap> {
    if b < 0 || b >= 32 {
        Err(Trap::ShiftOutOfRange)
    } else {
        Ok(((a as u32) >> (b as u32)) as i32)
    }
}

pub open spec fn spec_i32_rotl(a: i32, b: i32) -> Result<i32, Trap> {
    Ok(rotl32(a as u32, b as u32) as i32)
}

pub open spec fn spec_i32_rotr(a: i32, b: i32) -> Result<i32, Trap> {
    Ok(rotr32(a as u32, b as u32) as i32)
}

pub open spec fn spec_i64_add(a: i64, b: i64) -> Result<i64, Trap> {
    fit64(a + b)
}

pub open spec fn spec_i64_sub(a: i64, b: i64) -> Result<i64, Trap> {
    fit64(a - b)
}

pub open spec fn spec_i64_mul(a: i64, b: i64) -> Result<i64, Trap> {
    fit64(a * b)
}

pub open spec fn spec_i64_div_s(a: i64, b: i64) -> Result<i64, Trap> {
    if b == 0 {
        Err(Trap::DivisionByZero)
    } else {
        fit64(trunc_div(a as int, b as int))
    }
}

pub open spec fn spec_i64_div_u(a: i64, b: i64) -> Result<i64, Trap> {
    if b == 0 {
        Err(Trap::DivisionByZero)
    } else {
        Ok(((a as u64) / (b as u64)) as i64)
    }
}

pub open spec fn spec_i64_rem_s(a: i64, b: i64) -> Result<i64, Trap> {
    if b == 0 {
        Err(Trap::DivisionByZero)
    } else if a == i64::MIN && b == -1 {
        Err(Trap::IntegerOverflow)
    } else {
        Ok(trunc_rem(a as int, b as int) as i64)
    }
}

pub open spec fn spec_i64_rem_u(a: i64, b: i64) -> Result<i64, Trap> {
    if b == 0 {
        Err(Trap::DivisionByZero)
    } else {
        Ok(((a as u64) % (b as u64)) as i64)
    }
}

pub open spec fn spec_i64_shl(a: i64, b: i64) -> Result<i64, Trap> {
    if b < 0 || b >= 64 {
        Err(Trap::ShiftOutOfRange)
    } else {
        Ok(((a as u64) << (b as u32)) as i64)
    }
}

pub open spec fn spec_i64_shr_s(a: i64, b: i64) -> Result<i64, Trap> {
    if b < 0 || b >= 64 {
        Err(Trap::ShiftOutOfRange)
    } else {
        Ok(a >> (b as u32))
    }
}

pub open spec fn spec_i64_shr_u(a: i64, b: i64) -> Result<i64, Trap> {
    if b < 0 || b >= 64 {
        Err(Trap::ShiftOutOfRange)
    } else {
        Ok(((a as u64) >> (b as u32)) as i64)
    }
}

pub open spec fn spec_i64_rotl(a: i64, b: i64) -> Result<i64, Trap> {
    Ok(rotl64(a as u64, b as u32) as i64)
}

pub open spec fn spec_i64_rotr(a: i64, b: i64) -> Result<i64, Trap> {
    Ok(rotr64(a as u64, b as u32) as i64)
}

fn i32_add(a: i32, b: i32) -> (r: Result<i32, Trap>)
    ensures
        r == spec_i32_add(a, b),
{
    let v: i64 = a as i64 + b as i64;
    if v < i32::MIN as i64 || v > i32::MAX as i64 {
        Err(Trap::IntegerOverflow)
    } else {
        Ok(v as i32)
    }
}

fn i32_sub(a: i32, b: i32) -> (r: Result<i32, Trap>)
    ensures
        r == spec_i32_sub(a, b),
{
    let v: i64 = a as i64 - b as i64;
    if v < i32::MIN as i64 || v > i32::MAX as i64 {
        Err(Trap::IntegerOverflow)
    } else {
        Ok(v as i32)
    }
}

fn i32_mul(a: i32, b: i32) -> (r: Result<i32, Trap>)
    ensures
        r == spec_i32_mul(a, b),
{
    proof {
        assert(i32::MIN * i32::MAX <= a * b <= i32::MIN * i32::MIN) by (nonlinear_arith);
    }
    let v: i64 = a as i64 * b as i64;
    if v < i32::MIN as i64 || v > i32::MAX as i64 {
        Err(Trap::IntegerOverflow)
    } else {
        Ok(v as i32)
    }
}

/// The magnitude of a 64-bit integer.
fn magnitude(a: i64) -> (r: u64)
    ensures
        r == abs(a as int),
{
    if a < 0 {
        if a == i64::MIN {
            0x8000_0000_0000_0000u64
        } else {
            (-a) as u64
        }
    } else {
        a as u64
    }
}

/// The quotient rounded toward zero, and the remainder with the sign of `a`.
fn trunc_div_rem(a: i64, b: i64) -> (r: (i128, i128))
    requires
        b != 0,
    ensures
        r.0 == trunc_div(a as int, b as int),
        r.1 == trunc_rem(a as int, b as int),
{
    let ua: u64 = magnitude(a);
    let ub: u64 = magnitude(b);
    let q: u64 = ua / ub;
    let m: u64 = ua % ub;
    let quotient: i128 = if (a < 0) != (b < 0) {
        -(q as i128)
    } else {
        q as i128
    };
    let remainder: i128 = if a < 0 {
        -(m as i128)
    } else {
        m as i128
    };
    (quotient, remainder)
}

fn i32_div_s(a: i32, b: i32) -> (r: Result<i32, Trap>)
    ensures
        r == spec_i32_div_s(a, b),
{
    if b == 0 {
        return Err(Trap::DivisionByZero);
    }
    let (q, _) = trunc_div_rem(a as i64, b as i64);
    if q < i32::MIN as i128 || q > i32::MAX as i128 {
        Err(Trap::IntegerOverflow)
    } else {
        Ok(q as i32)
    }
}

fn i32_div_u(a: i32, b: i32) -> (r: Result<i32, Trap>)
    ensures
        r == spec_i32_div_u(a, b),
{
    if b == 0 {
        Err(Trap::DivisionByZero)
    } else {
        assert(b as u32 != 0) by (bit_vector)
            requires
                b != 0,
        ;
        Ok(((a as u32) / (b as u32)) as i32)
    }
}

fn i32_rem_s(a: i32, b: i32) -> (r: Result<i32, Trap>)
    ensures
        r == spec_i32_rem_s(a, b),
{
    if b == 0 {
        return Err(Trap::DivisionByZero);
    }
    if a == i32::MIN && b == -1 {
        return Err(Trap::IntegerOverflow);
    }
    let (_, m) = trunc_div_rem(a as i64, b as i64);
    proof {
        assert(abs(a as int) % abs(b as int) < abs(b as int)) by (nonlinear_arith)
            requires
                abs(b as int) > 0,
        ;
    }
    Ok(m as i32)
}

fn i32_rem_u(a: i32, b: i32) -> (r: Result<i32, Trap>)
    ensures
        r == spec_i32_rem_u(a, b),
{
    if b == 0 {
        Err(Trap::DivisionByZero)
    } else {
        assert(b as u32 != 0) by (bit_vector)
            requires
                b != 0,
        ;
        Ok(((a as u32) % (b as u32)) as i32)
    }
}

fn i32_shl(a: i32, b: i32) -> (r: Result<i32, Trap>)
    ensures
        r == spec_i32_shl(a, b),
{
    if b < 0 || b >= 32 {
        Err(Trap::ShiftOutOfRange)
    } else {
        Ok(((a as u32) << (b as u32)) as i32)
    }
}

fn i32_shr_s(a: i32, b: i32) -> (r: Result<i32, Trap>)
    ensures
        r == spec_i32_shr_s(a, b),
{
    if b < 0 || b >= 32 {
        Err(Trap::ShiftOutOfRange)
    } else {
        Ok(a >> (b as u32))
    }
}

fn i32_shr_u(a: i32, b: i32) -> (r: Result<i32, Trap>)
    ensures
        r == spec_i32_shr_u(a, b),
{
    if b < 0 || b >= 32 {
        Err(Trap::ShiftOutOfRange)
    } else {
        Ok(((a as u32) >> (b as u32)) as i32)
    }
}

fn rotate_left32(x: u32, k: u32) -> (r: u32)
    ensures
        r == rotl32(x, k),
{
    let s: u32 = k % 32;
    if s == 0 {
        x
    } else {
        (x << s) | (x >> (32 - s))
    }
}

fn rotate_right32(x: u32, k: u32) -> (r: u32)
    ensures
        r == rotr32(x, k),
{
    let s: u32 = k % 32;
    if s == 0 {
        x
    } else {
        (x >> s) | (x << (32 - s))
    }
}

fn rotate_left64(x: u64, k: u32) -> (r: u64)
    ensures
        r == rotl64(x, k),
{
    let s: u32 = k % 64;
    if s == 0 {
        x
    } else {
        (x << s) | (x >> (64 - s))
    }
}

fn rotate_right64(x: u64, k: u32) -> (r: u64)
    ensures
        r == rotr64(x, k),
{
    let s: u32 = k % 64;
    if s == 0 {
        x
    } else {
        (x >> s) | (x << (64 - s))
    }
}

fn i32_rotl(a: i32, b: i32) -> (r: Result<i32, Trap>)
    ensures
        r == spec_i32_rotl(a, b),
{
    Ok(rotate_left32(a as u32, b as u32) as i32)
}

fn i32_rotr(a: i32, b: i32) -> (r: Result<i32, Trap>)
    ensures
        r == spec_i32_rotr(a, b),
{
    Ok(rotate_right32(a as u32, b as u32) as i32)
}

fn i64_add(a: i64, b: i64) -> (r: Result<i64, Trap>)
    ensures
        r == spec_i64_add(a, b),
{
    let v: i128 = a as i128 + b as i128;
    if v < i64::MIN as i128 || v > i64::MAX as i128 {
        Err(Trap::IntegerOverflow)
    } else {
        Ok(v as i64)
    }
}

fn i64_sub(a: i64, b: i64) -> (r: Result<i64, Trap>)
    ensures
        r == spec_i64_sub(a, b),
{
    let v: i128 = a as i128 - b as i128;
    if v < i64::MIN as i128 || v > i64::MAX as i128 {
        Err(Trap::IntegerOverflow)
    } else {
        Ok(v as i64)
    }
}

fn i64_mul(a: i64, b: i64) -> (r: Result<i64, Trap>)
    ensures
        r == spec_i64_mul(a, b),
{
    proof {
        assert(i64::MIN * i64::MAX <= a * b <= i64::MIN * i64::MIN) by (nonlinear_arith);
    }
    let v: i128 = a as i128 * b as i128;
    if v < i64::MIN as i128 || v > i64::MAX as i128 {
        Err(Trap::IntegerOverflow)
    } else {
        Ok(v as i64)
    }
}

fn i64_div_s(a: i64, b: i64) -> (r: Result<i64, Trap>)
    ensures
        r == spec_i64_div_s(a, b),
{
    if b == 0 {
        return Err(Trap::DivisionByZero);
    }
    let (q, _) = trunc_div_rem(a, b);
    if q < i64::MIN as i128 || q > i64::MAX as i128 {
        Err(Trap::IntegerOverflow)
    } else {
        Ok(q as i64)
    }
}

fn i64_div_u(a: i64, b: i64) -> (r: Result<i64, Trap>)
    ensures
        r == spec_i64_div_u(a, b),
{
    if b == 0 {
        Err(Trap::DivisionByZero)
    } else {
        assert(b as u64 != 0) by (bit_vector)
            requires
                b != 0,
        ;
        Ok(((a as u64) / (b as u64)) as i64)
    }
}

fn i64_rem_s(a: i64, b: i64) -> (r: Result<i64, Trap>)
    ensures
        r == spec_i64_rem_s(a, b),
{
    if b == 0 {
        return Err(Trap::DivisionByZero);
    }
    if a == i64::MIN && b == -1 {
        return Err(Trap::IntegerOverflow);
    }
    let (_, m) = trunc_div_rem(a, b);
    proof {
        assert(abs(a as int) % abs(b as int) < abs(b as int)) by (nonlinear_arith)
            requires
                abs(b as int) > 0,
        ;
    }
    Ok(m as i64)
}

fn i64_rem_u(a: i64, b: i64) -> (r: Result<i64, Trap>)
    ensures
        r == spec_i64_rem_u(a, b),
{
    if b == 0 {
        Err(Trap::DivisionByZero)
    } else {
        assert(b as u64 != 0) by (bit_vector)
            requires
                b != 0,
        ;
        Ok(((a as u64) % (b as u64)) as i64)
    }
}

fn i64_shl(a: i64, b: i64) -> (r: Result<i64, Trap>)
    ensures
        r == spec_i64_shl(a, b),
{
    if b < 0 || b >= 64 {
        Err(Trap::ShiftOutOfRange)
    } else {
        Ok(((a as u64) << (b as u32)) as i64)
    }
}

fn i64_shr_s(a: i64, b: i64) -> (r: Result<i64, Trap>)
    ensures
        r == spec_i64_shr_s(a, b),
{
    if b < 0 || b >= 64 {
        Err(Trap::ShiftOutOfRange)
    } else {
        Ok(a >> (b as u32))
    }
}

fn i64_shr_u(a: i64, b: i64) -> (r: Result<i64, Trap>)
    ensures
        r == spec_i64_shr_u(a, b),
{
    if b < 0 || b >= 64 {
        Err(Trap::ShiftOutOfRange)
    } else {
        Ok(((a as u64) >> (b as u32)) as i64)
    }
}

fn i64_rotl(a: i64, b: i64) -> (r: Result<i64, Trap>)
    ensures
        r == spec_i64_rotl(a, b),
{
    Ok(rotate_left64(a as u64, b as u32) as i64)
}

fn i64_rotr(a: i64, b: i64) -> (r: Result<i64, Trap>)
    ensures
        r == spec_i64_rotr(a, b),
{
    Ok(rotate_right64(a as u64, b as u32) as i64)
}

/// The operand type of an instruction that takes one value and gives one, if it is one.
pub open spec fn unary_operand(op: Operation) -> Option<ValueType> {
    match op {
        Operation::I32Eqz => Some(ValueType::I32),
        Operation::I32Clz => Some(ValueType::I32),
        Operation::I32Ctz => Some(ValueType::I32),
        Operation::I32Popcnt => Some(ValueType::I32),
        Operation::I64Eqz => Some(ValueType::I64),
        Operation::I64Clz => Some(ValueType::I64),
        Operation::I64Ctz => Some(ValueType::I64),
        Operation::I64Popcnt => Some(ValueType::I64),
        Operation::I32WrapI64 => Some(ValueType::I64),
        Operation::I64ExtendSI32 => Some(ValueType::I32),
        Operation::I64ExtendUI32 => Some(ValueType::I32),
        Operation::I32ReinterpretF32 => Some(ValueType::F32),
        Operation::I64ReinterpretF64 => Some(ValueType::F64),
        Operation::F32ReinterpretI32 => Some(ValueType::I32),
        Operation::F64ReinterpretI64 => Some(ValueType::I64),
        Operation::F32Abs => Some(ValueType::F32),
        Operation::F32Neg => Some(ValueType::F32),
        Operation::F64Abs => Some(ValueType::F64),
        Operation::F64Neg => Some(ValueType::F64),
        Operation::F32Ceil => Some(ValueType::F32),
        Operation::F32Floor => Some(ValueType::F32),
        Operation::F32Trunc => Some(ValueType::F32),
        Operation::F32Nearest => Some(ValueType::F32),
        Operation::F32Sqrt => Some(ValueType::F32),
        Operation::F64Ceil => Some(ValueType::F64),
        Operation::F64Floor => Some(ValueType::F64),
        Operation::F64Trunc => Some(ValueType::F64),
        Operation::F64Nearest => Some(ValueType::F64),
        Operation::F64Sqrt => Some(ValueType::F64),
        Operation::I32TruncSF32 => Some(ValueType::F32),
        Operation::I32TruncUF32 => Some(ValueType::F32),
        Operation::I32TruncSF64 => Some(ValueType::F64),
        Operation::I32TruncUF64 => Some(ValueType::F64),
        Operation::I64TruncSF32 => Some(ValueType::F32),
        Operation::I64TruncUF32 => Some(ValueType::F32),
        Operation::I64TruncSF64 => Some(ValueType::F64),
        Operation::I64TruncUF64 => Some(ValueType::F64),
        Operation::F32ConvertSI32 => Some(ValueType::I32),
        Operation::F32ConvertUI32 => Some(ValueType::I32),
        Operation::F32ConvertSI64 => Some(ValueType::I64),
        Operation::F32ConvertUI64 => Some(ValueType::I64),
        Operation::F32DemoteF64 => Some(ValueType::F64),
        Operation::F64ConvertSI32 => Some(ValueType::I32),
        Operation::F64ConvertUI32 => Some(ValueType::I32),
        Operation::F64ConvertSI64 => Some(ValueType::I64),
        Operation::F64ConvertUI64 => Some(ValueType::I64),
        Operation::F64PromoteF32 => Some(ValueType::F32),
        _ => None,
    }
}

/// The operand type of an instruction that takes two values of one type and gives one, if it is one.
pub open spec fn binary_operand(op: Operation) -> Option<ValueType> {
    match op {
        Operation::I32Eq => Some(ValueType::I32),
        Operation::I32Ne => Some(ValueType::I32),
        Operation::I32LtS => Some(ValueType::I32),
        Operation::I32LtU => Some(ValueType::I32),
        Operation::I32GtS => Some(ValueType::I32),
        Operation::I32GtU => Some(ValueType::I32),
        Operation::I32LeS => Some(ValueType::I32),
        Operation::I32LeU => Some(ValueType::I32),
        Operation::I32GeS => Some(ValueType::I32),
        Operation::I32GeU => Some(ValueType::I32),
        Operation::I32Add => Some(ValueType::I32),
        Operation::I32Sub => Some(ValueType::I32),
        Operation::I32Mul => Some(ValueType::I32),
        Operation::I32DivS => Some(ValueType::I32),
        Operation::I32DivU => Some(ValueType::I32),
        Operation::I32RemS => Some(ValueType::I32),
        Operation::I32RemU => Some(ValueType::I32),
        Operation::I32Shl => Some(ValueType::I32),
        Operation::I32ShrS => Some(ValueType::I32),
        Operation::I32ShrU => Some(ValueType::I32),
        Operation::I32Rotl => Some(ValueType::I32),
        Operation::I32Rotr => Some(ValueType::I32),
        Operation::I32And => Some(ValueType::I32),
        Operation::I32Or => Some(ValueType::I32),
        Operation::I32Xor => Some(ValueType::I32),
        Operation::I64Eq => Some(ValueType::I64),
        Operation::I64Ne => Some(ValueType::I64),
        Operation::I64LtS => Some(ValueType::I64),
        Operation::I64LtU => Some(ValueType::I64),
        Operation::I64GtS => Some(ValueType::I64),
        Operation::I64GtU => Some(ValueType::I64),
        Operation::I64LeS => Some(ValueType::I64),
        Operation::I64LeU => Some(ValueType::I64),
        Operation::I64GeS => Some(ValueType::I64),
        Operation::I64GeU => Some(ValueType::I64),
        Operation::I64Add => Some(ValueType::I64),
        Operation::I64Sub => Some(ValueType::I64),
        Operation::I64Mul => Some(ValueType::I64),
        Operation::I64DivS => Some(ValueType::I64),
        Operation::I64DivU => Some(ValueType::I64),
        Operation::I64RemS => Some(ValueType::I64),
        Operation::I64RemU => Some(ValueType::I64),
        Operation::I64Shl => Some(ValueType::I64),
        Operation::I64ShrS => Some(ValueType::I64),
        Operation::I64ShrU => Some(ValueType::I64),
        Operation::I64Rotl => Some(ValueType::I64),
        Operation::I64Rotr => Some(ValueType::I64),
        Operation::I64And => Some(ValueType::I64),
        Operation::I64Or => Some(ValueType::I64),
        Operation::I64Xor => Some(ValueType::I64),
        Operation::F32Eq => Some(ValueType::F32),
        Operation::F32Ne => Some(ValueType::F32),
        Operation::F32Lt => Some(ValueType::F32),
        Operation::F32Gt => Some(ValueType::F32),
        Operation::F32Le => Some(ValueType::F32),
        Operation::F32Ge => Some(ValueType::F32),
        Operation::F32Add => Some(ValueType::F32),
        Operation::F32Sub => Some(ValueType::F32),
        Operation::F32Mul => Some(ValueType::F32),
        Operation::F32Div => Some(ValueType::F32),
        Operation::F32Min => Some(ValueType::F32),
        Operation::F32Max => Some(ValueType::F32),
        Operation::F32Copysign => Some(ValueType::F32),
        Operation::F64Eq => Some(ValueType::F64),
        Operation::F64Ne => Some(ValueType::F64),
        Operation::F64Lt => Some(ValueType::F64),
        Operation::F64Gt => Some(ValueType::F64),
        Operation::F64Le => Some(ValueType::F64),
        Operation::F64Ge => Some(ValueType::F64),
        Operation::F64Add => Some(ValueType::F64),
        Operation::F64Sub => Some(ValueType::F64),
        Operation::F64Mul => Some(ValueType::F64),
        Operation::F64Div => Some(ValueType::F64),
        Operation::F64Min => Some(ValueType::F64),
        Operation::F64Max => Some(ValueType::F64),
        Operation::F64Copysign => Some(ValueType::F64),
        _ => None,
    }
}

/// The result of an instruction that takes one i32 value.
pub open spec fn spec_unary_i32(op: Operation, a: i32) -> Result<ValueTypeProvider, Trap> {
    match op {
        Operation::I32Eqz => Ok(ValueTypeProvider::I32(if a == 0 { 1 } else { 0 })),
        Operation::I32Clz => Ok(ValueTypeProvider::I32((a as u32).leading_zeros() as i32)),
        Operation::I32Ctz => Ok(ValueTypeProvider::I32((a as u32).trailing_zeros() as i32)),
        Operation::I32Popcnt => Ok(ValueTypeProvider::I32(popcount((a as u32) as nat) as i32)),
        Operation::I64ExtendSI32 => Ok(ValueTypeProvider::I64(a as i64)),
        Operation::I64ExtendUI32 => Ok(ValueTypeProvider::I64((a as u32) as i64)),
        Operation::F32ReinterpretI32 => Ok(ValueTypeProvider::F32(a as u32)),
        Operation::F32ConvertSI32 => Ok(ValueTypeProvider::F32(signed_float_bits(a as int, 23, 127, 0x8000_0000) as u32)),
        Operation::F32ConvertUI32 => Ok(ValueTypeProvider::F32(float_bits_of((a as u32) as nat, 23, 127) as u32)),
        Operation::F64ConvertSI32 => Ok(ValueTypeProvider::F64(signed_float_bits(a as int, 52, 1023, 0x8000_0000_0000_0000) as u64)),
        Operation::F64ConvertUI32 => Ok(ValueTypeProvider::F64(float_bits_of((a as u32) as nat, 52, 1023) as u64)),
        _ => Err(Trap::TypeMismatch),
    }
}

/// The result of an instruction that takes two i32 values: `a` was on top of
/// the stack, `b` below it.
pub open spec fn spec_binary_i32(op: Operation, a: i32, b: i32) -> Result<ValueTypeProvider, Trap> {
    match op {
        Operation::I32Eq => Ok(ValueTypeProvider::I32(if a == b { 1 } else { 0 })),
        Operation::I32Ne => Ok(ValueTypeProvider::I32(if a != b { 1 } else { 0 })),
        Operation::I32LtS => Ok(ValueTypeProvider::I32(if a < b { 1 } else { 0 })),
        Operation::I32LtU => Ok(ValueTypeProvider::I32(if (a as u32) < (b as u32) { 1 } else { 0 })),
        Operation::I32GtS => Ok(ValueTypeProvider::I32(if a > b { 1 } else { 0 })),
        Operation::I32GtU => Ok(ValueTypeProvider::I32(if (a as u32) > (b as u32) { 1 } else { 0 })),
        Operation::I32LeS => Ok(ValueTypeProvider::I32(if a <= b { 1 } else { 0 })),
        Operation::I32LeU => Ok(ValueTypeProvider::I32(if (a as u32) <= (b as u32) { 1 } else { 0 })),
        Operation::I32GeS => Ok(ValueTypeProvider::I32(if a >= b { 1 } else { 0 })),
        Operation::I32GeU => Ok(ValueTypeProvider::I32(if (a as u32) >= (b as u32) { 1 } else { 0 })),
        Operation::I32Add => match spec_i32_add(a, b) { Ok(r) => Ok(ValueTypeProvider::I32(r)), Err(e) => Err(e) },
        Operation::I32Sub => match spec_i32_sub(a, b) { Ok(r) => Ok(ValueTypeProvider::I32(r)), Err(e) => Err(e) },
        Operation::I32Mul => match spec_i32_mul(a, b) { Ok(r) => Ok(ValueTypeProvider::I32(r)), Err(e) => Err(e) },
        Operation::I32DivS => match spec_i32_div_s(a, b) { Ok(r) => Ok(ValueTypeProvider::I32(r)), Err(e) => Err(e) },
        Operation::I32DivU => match spec_i32_div_u(a, b) { Ok(r) => Ok(ValueTypeProvider::I32(r)), Err(e) => Err(e) },
        Operation::I32RemS => match spec_i32_rem_s(a, b) { Ok(r) => Ok(ValueTypeProvider::I32(r)), Err(e) => Err(e) },
        Operation::I32RemU => match spec_i32_rem_u(a, b) { Ok(r) => Ok(ValueTypeProvider::I32(r)), Err(e) => Err(e) },
        Operation::I32Shl => match spec_i32_shl(a, b) { Ok(r) => Ok(ValueTypeProvider::I32(r)), Err(e) => Err(e) },
        Operation::I32ShrS => match spec_i32_shr_s(a, b) { Ok(r) => Ok(ValueTypeProvider::I32(r)), Err(e) => Err(e) },
        Operation::I32ShrU => match spec_i32_shr_u(a, b) { Ok(r) => Ok(ValueTypeProvider::I32(r)), Err(e) => Err(e) },
        Operation::I32Rotl => match spec_i32_rotl(a, b) { Ok(r) => Ok(ValueTypeProvider::I32(r)), Err(e) => Err(e) },
        Operation::I32Rotr => match spec_i32_rotr(a, b) { Ok(r) => Ok(ValueTypeProvider::I32(r)), Err(e) => Err(e) },
        Operation::I32And => Ok(ValueTypeProvider::I32(a & b)),
        Operation::I32Or => Ok(ValueTypeProvider::I32(a | b)),
        Operation::I32Xor => Ok(ValueTypeProvider::I32(a ^ b)),
        _ => Err(Trap::TypeMismatch),
    }
}

/// The result of an instruction that takes one i64 value.
pub open spec fn spec_unary_i64(op: Operation, a: i64) -> Result<ValueTypeProvider, Trap> {
    match op {
        Operation::I64Eqz => Ok(ValueTypeProvider::I32(if a == 0 { 1 } else { 0 })),
        Operation::I64Clz => Ok(ValueTypeProvider::I32(u64_leading_zeros(a as u64) as i32)),
        Operation::I64Ctz => Ok(ValueTypeProvider::I32((a as u64).trailing_zeros() as i32)),
        Operation::I64Popcnt => Ok(ValueTypeProvider::I32(popcount((a as u64) as nat) as i32)),
        Operation::I32WrapI64 => Ok(ValueTypeProvider::I32(a as i32)),
        Operation::F64ReinterpretI64 => Ok(ValueTypeProvider::F64(a as u64)),
        Operation::F32ConvertSI64 => Ok(ValueTypeProvider::F32(signed_float_bits(a as int, 23, 127, 0x8000_0000) as u32)),
        Operation::F32ConvertUI64 => Ok(ValueTypeProvider::F32(float_bits_of((a as u64) as nat, 23, 127) as u32)),
        Operation::F64ConvertSI64 => Ok(ValueTypeProvider::F64(signed_float_bits(a as int, 52, 1023, 0x8000_0000_0000_0000) as u64)),
        Operation::F64ConvertUI64 => Ok(ValueTypeProvider::F64(float_bits_of((a as u64) as nat, 52, 1023) as u64)),
        _ => Err(Trap::TypeMismatch),
    }
}

/// The result of an instruction that takes two i64 values: `a` was on top of
/// the stack, `b` below it.
pub open spec fn spec_binary_i64(op: Operation, a: i64, b: i64) -> Result<ValueTypeProvider, Trap> {
    match op {
        Operation::I64Eq => Ok(ValueTypeProvider::I32(if a == b { 1 } else { 0 })),
        Operation::I64Ne => Ok(ValueTypeProvider::I32(if a != b { 1 } else { 0 })),
        Operation::I64LtS => Ok(ValueTypeProvider::I32(if a < b { 1 } else { 0 })),
        Operation::I64LtU => Ok(ValueTypeProvider::I32(if (a as u32) < (b as u32) { 1 } else { 0 })),
        Operation::I64GtS => Ok(ValueTypeProvider::I32(if a > b { 1 } else { 0 })),
        Operation::I64GtU => Ok(ValueTypeProvider::I32(if (a as u32) > (b as u32) { 1 } else { 0 })),
        Operation::I64LeS => Ok(ValueTypeProvider::I32(if a <= b { 1 } else { 0 })),
        Operation::I64LeU => Ok(ValueTypeProvider::I32(if (a as u32) <= (b as u32) { 1 } else { 0 })),
        Operation::I64GeS => Ok(ValueTypeProvider::I32(if a >= b { 1 } else { 0 })),
        Operation::I64GeU => Ok(ValueTypeProvider::I32(if (a as u32) >= (b as u32) { 1 } else { 0 })),
        Operation::I64Add => match spec_i64_add(a, b) { Ok(r) => Ok(ValueTypeProvider::I64(r)), Err(e) => Err(e) },
        Operation::I64Sub => match spec_i64_sub(a, b) { Ok(r) => Ok(ValueTypeProvider::I64(r)), Err(e) => Err(e) },
        Operation::I64Mul => match spec_i64_mul(a, b) { Ok(r) => Ok(ValueTypeProvider::I64(r)), Err(e) => Err(e) },
        Operation::I64DivS => match spec_i64_div_s(a, b) { Ok(r) => Ok(ValueTypeProvider::I64(r)), Err(e) => Err(e) },
        Operation::I64DivU => match spec_i64_div_u(a, b) { Ok(r) => Ok(ValueTypeProvider::I64(r)), Err(e) => Err(e) },
        Operation::I64RemS => match spec_i64_rem_s(a, b) { Ok(r) => Ok(ValueTypeProvider::I64(r)), Err(e) => Err(e) },
        Operation::I64RemU => match spec_i64_rem_u(a, b) { Ok(r) => Ok(ValueTypeProvider::I64(r)), Err(e) => Err(e) },
        Operation::I64Shl => match spec_i64_shl(a, b) { Ok(r) => Ok(ValueTypeProvider::I64(r)), Err(e) => Err(e) },
        Operation::I64ShrS => match spec_i64_shr_s(a, b) { Ok(r) => Ok(ValueTypeProvider::I64(r)), Err(e) => Err(e) },
        Operation::I64ShrU => match spec_i64_shr_u(a, b) { Ok(r) => Ok(ValueTypeProvider::I64(r)), Err(e) => Err(e) },
        Operation::I64Rotl => match spec_i64_rotl(a, b) { Ok(r) => Ok(ValueTypeProvider::I64(r)), Err(e) => Err(e) },
        Operation::I64Rotr => match spec_i64_rotr(a, b) { Ok(r) => Ok(ValueTypeProvider::I64(r)), Err(e) => Err(e) },
        Operation::I64And => Ok(ValueTypeProvider::I64(a & b)),
        Operation::I64Or => Ok(ValueTypeProvider::I64(a | b)),
        Operation::I64Xor => Ok(ValueTypeProvider::I64(a ^ b)),
        _ => Err(Trap::TypeMismatch),
    }
}

/// The result of an instruction that takes one f32 value.
pub open spec fn spec_unary_f32(op: Operation, a: u32) -> Result<ValueTypeProvider, Trap> {
    match op {
        Operation::I32ReinterpretF32 => Ok(ValueTypeProvider::I32(a as i32)),
        Operation::F32Abs => Ok(ValueTypeProvider::F32(a & 0x7fff_ffffu32)),
        Operation::F32Neg => Ok(ValueTypeProvider::F32(a ^ 0x8000_0000u32)),
        Operation::F32Ceil => Err(Trap::FloatArithmetic),
        Operation::F32Floor => Err(Trap::FloatArithmetic),
        Operation::F32Trunc => Err(Trap::FloatArithmetic),
        Operation::F32Nearest => Err(Trap::FloatArithmetic),
        Operation::F32Sqrt => Err(Trap::FloatArithmetic),
        Operation::I32TruncSF32 => Ok(ValueTypeProvider::I32(f32_to_int(a, i32::MIN as int, i32::MAX as int) as i32)),
        Operation::I32TruncUF32 => Ok(
            ValueTypeProvider::I32(
                if a >= 0x8000_0000 {
                    f32_to_int(a, i32::MIN as int, i32::MAX as int) as i32
                } else {
                    (f32_to_int(a, 0, u32::MAX as int) as u32) as i32
                },
            ),
        ),
        Operation::I64TruncSF32 => Ok(ValueTypeProvider::I64(f32_to_int(a, i64::MIN as int, i64::MAX as int) as i64)),
        Operation::I64TruncUF32 => Ok(ValueTypeProvider::I64(f32_to_int(a, i64::MIN as int, i64::MAX as int) as i64)),
        Operation::F64PromoteF32 => Err(Trap::FloatArithmetic),
        _ => Err(Trap::TypeMismatch),
    }
}

/// The result of an instruction that takes two f32 values: `a` was on top of
/// the stack, `b` below it.
pub open spec fn spec_binary_f32(op: Operation, a: u32, b: u32) -> Result<ValueTypeProvider, Trap> {
    match op {
        Operation::F32Eq => Ok(ValueTypeProvider::I32(if f32_eq(a, b) { 1 } else { 0 })),
        Operation::F32Ne => Ok(ValueTypeProvider::I32(if !f32_eq(a, b) { 1 } else { 0 })),
        Operation::F32Lt => Ok(ValueTypeProvider::I32(if f32_lt(a, b) { 1 } else { 0 })),
        Operation::F32Gt => Ok(ValueTypeProvider::I32(if f32_lt(b, a) { 1 } else { 0 })),
        Operation::F32Le => Ok(ValueTypeProvider::I32(if f32_le(a, b) { 1 } else { 0 })),
        Operation::F32Ge => Ok(ValueTypeProvider::I32(if f32_le(b, a) { 1 } else { 0 })),
        Operation::F32Add => Err(Trap::FloatArithmetic),
        Operation::F32Sub => Err(Trap::FloatArithmetic),
        Operation::F32Mul => Err(Trap::FloatArithmetic),
        Operation::F32Div => Err(Trap::FloatArithmetic),
        Operation::F32Min => Err(Trap::FloatArithmetic),
        Operation::F32Max => Err(Trap::FloatArithmetic),
        Operation::F32Copysign => Err(Trap::FloatArithmetic),
        _ => Err(Trap::TypeMismatch),
    }
}

/// The result of an instruction that takes one f64 value.
pub open spec fn spec_unary_f64(op: Operation, a: u64) -> Result<ValueTypeProvider, Trap> {
    match op {
        Operation::I64ReinterpretF64 => Ok(ValueTypeProvider::I64(a as i64)),
        Operation::F64Abs => Ok(ValueTypeProvider::F64(a & 0x7fff_ffff_ffff_ffffu64)),
        Operation::F64Neg => Ok(ValueTypeProvider::F64(a ^ 0x8000_0000_0000_0000u64)),
        Operation::F64Ceil => Err(Trap::FloatArithmetic),
        Operation::F64Floor => Err(Trap::FloatArithmetic),
        Operation::F64Trunc => Err(Trap::FloatArithmetic),
        Operation::F64Nearest => Err(Trap::FloatArithmetic),
        Operation::F64Sqrt => Err(Trap::FloatArithmetic),
        Operation::I32TruncSF64 => Ok(ValueTypeProvider::I32(f64_to_int(a, i32::MIN as int, i32::MAX as int) as i32)),
        Operation::I32TruncUF64 => Ok(ValueTypeProvider::I32(f64_to_int(a, i32::MIN as int, i32::MAX as int) as i32)),
        Operation::I64TruncSF64 => Ok(ValueTypeProvider::I64(f64_to_int(a, i64::MIN as int, i64::MAX as int) as i64)),
        Operation::I64TruncUF64 => Ok(ValueTypeProvider::I64(f64_to_int(a, i64::MIN as int, i64::MAX as int) as i64)),
        Operation::F32DemoteF64 => Err(Trap::FloatArithmetic),
        _ => Err(Trap::TypeMismatch),
    }
}

/// The result of an instruction that takes two f64 values: `a` was on top of
/// the stack, `b` below it.
pub open spec fn spec_binary_f64(op: Operation, a: u64, b: u64) -> Result<ValueTypeProvider, Trap> {
    match op {
        Operation::F64Eq => Ok(ValueTypeProvider::I32(if f64_eq(a, b) { 1 } else { 0 })),
        Operation::F64Ne => Ok(ValueTypeProvider::I32(if !f64_eq(a, b) { 1 } else { 0 })),
        Operation::F64Lt => Ok(ValueTypeProvider::I32(if f64_lt(a, b) { 1 } else { 0 })),
        Operation::F64Gt => Ok(ValueTypeProvider::I32(if f64_lt(b, a) { 1 } else { 0 })),
        Operation::F64Le => Ok(ValueTypeProvider::I32(if f64_le(a, b) { 1 } else { 0 })),
        Operation::F64Ge => Ok(ValueTypeProvider::I32(if f64_le(b, a) { 1 } else { 0 })),
        Operation::F64Add => Err(Trap::FloatArithmetic),
        Operation::F64Sub => Err(Trap::FloatArithmetic),
        Operation::F64Mul => Err(Trap::FloatArithmetic),
        Operation::F64Div => Err(Trap::FloatArithmetic),
        Operation::F64Min => Err(Trap::FloatArithmetic),
        Operation::F64Max => Err(Trap::FloatArithmetic),
        Operation::F64Copysign => Err(Trap::FloatArithmetic),
        _ => Err(Trap::TypeMismatch),
    }
}

/// The result of an instruction that takes one value.
pub open spec fn spec_unary(op: Operation, v: ValueTypeProvider) -> Result<ValueTypeProvider, Trap> {
    match v {
        ValueTypeProvider::I32(a) => spec_unary_i32(op, a),
        ValueTypeProvider::I64(a) => spec_unary_i64(op, a),
        ValueTypeProvider::F32(a) => spec_unary_f32(op, a),
        ValueTypeProvider::F64(a) => spec_unary_f64(op, a),
    }
}

/// The result of an instruction that takes two values: `a_value` was on top of
/// the stack, `b_value` below it.
pub open spec fn spec_binary(op: Operation, a_value: ValueTypeProvider, b_value: ValueTypeProvider) -> Result<ValueTypeProvider, Trap> {
    match (a_value, b_value) {
        (ValueTypeProvider::I32(a), ValueTypeProvider::I32(b)) => spec_binary_i32(op, a, b),
        (ValueTypeProvider::I64(a), ValueTypeProvider::I64(b)) => spec_binary_i64(op, a, b),
        (ValueTypeProvider::F32(a), ValueTypeProvider::F32(b)) => spec_binary_f32(op, a, b),
        (ValueTypeProvider::F64(a), ValueTypeProvider::F64(b)) => spec_binary_f64(op, a, b),
        _ => Err(Trap::TypeMismatch),
    }
}

fn unary_i32(op: &Operation, a: i32) -> (r: Result<ValueTypeProvider, Trap>)
    ensures
        r == spec_unary_i32(*op, a),
{
    match op {
        Operation::I32Eqz => Ok(ValueTypeProvider::I32(if a == 0 { 1 } else { 0 })),
        Operation::I32Clz => Ok(ValueTypeProvider::I32((a as u32).leading_zeros() as i32)),
        Operation::I32Ctz => Ok(ValueTypeProvider::I32((a as u32).trailing_zeros() as i32)),
        Operation::I32Popcnt => Ok(ValueTypeProvider::I32(count_ones32(a as u32) as i32)),
        Operation::I64ExtendSI32 => Ok(ValueTypeProvider::I64(a as i64)),
        Operation::I64ExtendUI32 => Ok(ValueTypeProvider::I64((a as u32) as i64)),
        Operation::F32ReinterpretI32 => Ok(ValueTypeProvider::F32(a as u32)),
        Operation::F32ConvertSI32 => Ok(ValueTypeProvider::F32(i64_to_f32_bits(a as i64))),
        Operation::F32ConvertUI32 => Ok(ValueTypeProvider::F32(u32_to_f32_bits(a as u32))),
        Operation::F64ConvertSI32 => Ok(ValueTypeProvider::F64(i64_to_f64_bits(a as i64))),
        Operation::F64ConvertUI32 => Ok(ValueTypeProvider::F64(u64_to_f64_bits((a as u32) as u64))),
        _ => Err(Trap::TypeMismatch),
    }
}

fn binary_i32(op: &Operation, a: i32, b: i32) -> (r: Result<ValueTypeProvider, Trap>)
    ensures
        r == spec_binary_i32(*op, a, b),
{
    match op {
        Operation::I32Eq => Ok(ValueTypeProvider::I32(if a == b { 1 } else { 0 })),
        Operation::I32Ne => Ok(ValueTypeProvider::I32(if a != b { 1 } else { 0 })),
        Operation::I32LtS => Ok(ValueTypeProvider::I32(if a < b { 1 } else { 0 })),
        Operation::I32LtU => Ok(ValueTypeProvider::I32(if (a as u32) < (b as u32) { 1 } else { 0 })),
        Operation::I32GtS => Ok(ValueTypeProvider::I32(if a > b { 1 } else { 0 })),
        Operation::I32GtU => Ok(ValueTypeProvider::I32(if (a as u32) > (b as u32) { 1 } else { 0 })),
        Operation::I32LeS => Ok(ValueTypeProvider::I32(if a <= b { 1 } else { 0 })),
        Operation::I32LeU => Ok(ValueTypeProvider::I32(if (a as u32) <= (b as u32) { 1 } else { 0 })),
        Operation::I32GeS => Ok(ValueTypeProvider::I32(if a >= b { 1 } else { 0 })),
        Operation::I32GeU => Ok(ValueTypeProvider::I32(if (a as u32) >= (b as u32) { 1 } else { 0 })),
        Operation::I32Add => match i32_add(a, b) { Ok(r) => Ok(ValueTypeProvider::I32(r)), Err(e) => Err(e) },
        Operation::I32Sub => match i32_sub(a, b) { Ok(r) => Ok(ValueTypeProvider::I32(r)), Err(e) => Err(e) },
        Operation::I32Mul => match i32_mul(a, b) { Ok(r) => Ok(ValueTypeProvider::I32(r)), Err(e) => Err(e) },
        Operation::I32DivS => match i32_div_s(a, b) { Ok(r) => Ok(ValueTypeProvider::I32(r)), Err(e) => Err(e) },
        Operation::I32DivU => match i32_div_u(a, b) { Ok(r) => Ok(ValueTypeProvider::I32(r)), Err(e) => Err(e) },
        Operation::I32RemS => match i32_rem_s(a, b) { Ok(r) => Ok(ValueTypeProvider::I32(r)), Err(e) => Err(e) },
        Operation::I32RemU => match i32_rem_u(a, b) { Ok(r) => Ok(ValueTypeProvider::I32(r)), Err(e) => Err(e) },
        Operation::I32Shl => match i32_shl(a, b) { Ok(r) => Ok(ValueTypeProvider::I32(r)), Err(e) => Err(e) },
        Operation::I32ShrS => match i32_shr_s(a, b) { Ok(r) => Ok(ValueTypeProvider::I32(r)), Err(e) => Err(e) },
        Operation::I32ShrU => match i32_shr_u(a, b) { Ok(r) => Ok(ValueTypeProvider::I32(r)), Err(e) => Err(e) },
        Operation::I32Rotl => match i32_rotl(a, b) { Ok(r) => Ok(ValueTypeProvider::I32(r)), Err(e) => Err(e) },
        Operation::I32Rotr => match i32_rotr(a, b) { Ok(r) => Ok(ValueTypeProvider::I32(r)), Err(e) => Err(e) },
        Operation::I32And => Ok(ValueTypeProvider::I32(a & b)),
        Operation::I32Or => Ok(ValueTypeProvider::I32(a | b)),
        Operation::I32Xor => Ok(ValueTypeProvider::I32(a ^ b)),
        _ => Err(Trap::TypeMismatch),
    }
}

fn unary_i64(op: &Operation, a: i64) -> (r: Result<ValueTypeProvider, Trap>)
    ensures
        r == spec_unary_i64(*op, a),
{
    match op {
        Operation::I64Eqz => Ok(ValueTypeProvider::I32(if a == 0 { 1 } else { 0 })),
        Operation::I64Clz => Ok(ValueTypeProvider::I32((a as u64).leading_zeros() as i32)),
        Operation::I64Ctz => Ok(ValueTypeProvider::I32((a as u64).trailing_zeros() as i32)),
        Operation::I64Popcnt => Ok(ValueTypeProvider::I32(count_ones64(a as u64) as i32)),
        Operation::I32WrapI64 => Ok(ValueTypeProvider::I32(a as i32)),
        Operation::F64ReinterpretI64 => Ok(ValueTypeProvider::F64(a as u64)),
        Operation::F32ConvertSI64 => Ok(ValueTypeProvider::F32(i64_to_f32_bits(a))),
        Operation::F32ConvertUI64 => Ok(ValueTypeProvider::F32(u64_to_f32_bits(a as u64))),
        Operation::F64ConvertSI64 => Ok(ValueTypeProvider::F64(i64_to_f64_bits(a))),
        Operation::F64ConvertUI64 => Ok(ValueTypeProvider::F64(u64_to_f64_bits(a as u64))),
        _ => Err(Trap::TypeMismatch),
    }
}

fn binary_i64(op: &Operation, a: i64, b: i64) -> (r: Result<ValueTypeProvider, Trap>)
    ensures
        r == spec_binary_i64(*op, a, b),
{
    match op {
        Operation::I64Eq => Ok(ValueTypeProvider::I32(if a == b { 1 } else { 0 })),
        Operation::I64Ne => Ok(ValueTypeProvider::I32(if a != b { 1 } else { 0 })),
        Operation::I64LtS => Ok(ValueTypeProvider::I32(if a < b { 1 } else { 0 })),
        Operation::I64LtU => Ok(ValueTypeProvider::I32(if (a as u32) < (b as u32) { 1 } else { 0 })),
        Operation::I64GtS => Ok(ValueTypeProvider::I32(if a > b { 1 } else { 0 })),
        Operation::I64GtU => Ok(ValueTypeProvider::I32(if (a as u32) > (b as u32) { 1 } else { 0 })),
        Operation::I64LeS => Ok(ValueTypeProvider::I32(if a <= b { 1 } else { 0 })),
        Operation::I64LeU => Ok(ValueTypeProvider::I32(if (a as u32) <= (b as u32) { 1 } else { 0 })),
        Operation::I64GeS => Ok(ValueTypeProvider::I32(if a >= b { 1 } else { 0 })),
        Operation::I64GeU => Ok(ValueTypeProvider::I32(if (a as u32) >= (b as u32) { 1 } else { 0 })),
        Operation::I64Add => match i64_add(a, b) { Ok(r) => Ok(ValueTypeProvider::I64(r)), Err(e) => Err(e) },
        Operation::I64Sub => match i64_sub(a, b) { Ok(r) => Ok(ValueTypeProvider::I64(r)), Err(e) => Err(e) },
        Operation::I64Mul => match i64_mul(a, b) { Ok(r) => Ok(ValueTypeProvider::I64(r)), Err(e) => Err(e) },
        Operation::I64DivS => match i64_div_s(a, b) { Ok(r) => Ok(ValueTypeProvider::I64(r)), Err(e) => Err(e) },
        Operation::I64DivU => match i64_div_u(a, b) { Ok(r) => Ok(ValueTypeProvider::I64(r)), Err(e) => Err(e) },
        Operation::I64RemS => match i64_rem_s(a, b) { Ok(r) => Ok(ValueTypeProvider::I64(r)), Err(e) => Err(e) },
        Operation::I64RemU => match i64_rem_u(a, b) { Ok(r) => Ok(ValueTypeProvider::I64(r)), Err(e) => Err(e) },
        Operation::I64Shl => match i64_shl(a, b) { Ok(r) => Ok(ValueTypeProvider::I64(r)), Err(e) => Err(e) },
        Operation::I64ShrS => match i64_shr_s(a, b) { Ok(r) => Ok(ValueTypeProvider::I64(r)), Err(e) => Err(e) },
        Operation::I64ShrU => match i64_shr_u(a, b) { Ok(r) => Ok(ValueTypeProvider::I64(r)), Err(e) => Err(e) },
        Operation::I64Rotl => match i64_rotl(a, b) { Ok(r) => Ok(ValueTypeProvider::I64(r)), Err(e) => Err(e) },
        Operation::I64Rotr => match i64_rotr(a, b) { Ok(r) => Ok(ValueTypeProvider::I64(r)), Err(e) => Err(e) },
        Operation::I64And => Ok(ValueTypeProvider::I64(a & b)),
        Operation::I64Or => Ok(ValueTypeProvider::I64(a | b)),
        Operation::I64Xor => Ok(ValueTypeProvider::I64(a ^ b)),
        _ => Err(Trap::TypeMismatch),
    }
}

fn unary_f32(op: &Operation, a: u32) -> (r: Result<ValueTypeProvider, Trap>)
    ensures
        r == spec_unary_f32(*op, a),
{
    match op {
        Operation::I32ReinterpretF32 => Ok(ValueTypeProvider::I32(a as i32)),
        Operation::F32Abs => Ok(ValueTypeProvider::F32(a & 0x7fff_ffffu32)),
        Operation::F32Neg => Ok(ValueTypeProvider::F32(a ^ 0x8000_0000u32)),
        Operation::F32Ceil => Err(Trap::FloatArithmetic),
        Operation::F32Floor => Err(Trap::FloatArithmetic),
        Operation::F32Trunc => Err(Trap::FloatArithmetic),
        Operation::F32Nearest => Err(Trap::FloatArithmetic),
        Operation::F32Sqrt => Err(Trap::FloatArithmetic),
        Operation::I32TruncSF32 => Ok(ValueTypeProvider::I32(f32_to_int_of(a, i32::MIN as i64, i32::MAX as i64) as i32)),
        Operation::I32TruncUF32 => Ok(
            ValueTypeProvider::I32(
                if a >= 0x8000_0000 {
                    f32_to_int_of(a, i32::MIN as i64, i32::MAX as i64) as i32
                } else {
                    (f32_to_int_of(a, 0, u32::MAX as i64) as u32) as i32
                },
            ),
        ),
        Operation::I64TruncSF32 => Ok(ValueTypeProvider::I64(f32_to_int_of(a, i64::MIN, i64::MAX) as i64)),
        Operation::I64TruncUF32 => Ok(ValueTypeProvider::I64(f32_to_int_of(a, i64::MIN, i64::MAX) as i64)),
        Operation::F64PromoteF32 => Err(Trap::FloatArithmetic),
        _ => Err(Trap::TypeMismatch),
    }
}

fn binary_f32(op: &Operation, a: u32, b: u32) -> (r: Result<ValueTypeProvider, Trap>)
    ensures
        r == spec_binary_f32(*op, a, b),
{
    match op {
        Operation::F32Eq => Ok(ValueTypeProvider::I32(if f32_eq_of(a, b) { 1 } else { 0 })),
        Operation::F32Ne => Ok(ValueTypeProvider::I32(if !f32_eq_of(a, b) { 1 } else { 0 })),
        Operation::F32Lt => Ok(ValueTypeProvider::I32(if f32_lt_of(a, b) { 1 } else { 0 })),
        Operation::F32Gt => Ok(ValueTypeProvider::I32(if f32_lt_of(b, a) { 1 } else { 0 })),
        Operation::F32Le => Ok(ValueTypeProvider::I32(if f32_le_of(a, b) { 1 } else { 0 })),
        Operation::F32Ge => Ok(ValueTypeProvider::I32(if f32_le_of(b, a) { 1 } else { 0 })),
        Operation::F32Add => Err(Trap::FloatArithmetic),
        Operation::F32Sub => Err(Trap::FloatArithmetic),
        Operation::F32Mul => Err(Trap::FloatArithmetic),
        Operation::F32Div => Err(Trap::FloatArithmetic),
        Operation::F32Min => Err(Trap::FloatArithmetic),
        Operation::F32Max => Err(Trap::FloatArithmetic),
        Operation::F32Copysign => Err(Trap::FloatArithmetic),
        _ => Err(Trap::TypeMismatch),
    }
}

fn unary_f64(op: &Operation, a: u64) -> (r: Result<ValueTypeProvider, Trap>)
    ensures
        r == spec_unary_f64(*op, a),
{
    match op {
        Operation::I64ReinterpretF64 => Ok(ValueTypeProvider::I64(a as i64)),
        Operation::F64Abs => Ok(ValueTypeProvider::F64(a & 0x7fff_ffff_ffff_ffffu64)),
        Operation::F64Neg => Ok(ValueTypeProvider::F64(a ^ 0x8000_0000_0000_0000u64)),
        Operation::F64Ceil => Err(Trap::FloatArithmetic),
        Operation::F64Floor => Err(Trap::FloatArithmetic),
        Operation::F64Trunc => Err(Trap::FloatArithmetic),
        Operation::F64Nearest => Err(Trap::FloatArithmetic),
        Operation::F64Sqrt => Err(Trap::FloatArithmetic),
        Operation::I32TruncSF64 => Ok(ValueTypeProvider::I32(f64_to_int_of(a, i32::MIN as i64, i32::MAX as i64) as i32)),
        Operation::I32TruncUF64 => Ok(ValueTypeProvider::I32(f64_to_int_of(a, i32::MIN as i64, i32::MAX as i64) as i32)),
        Operation::I64TruncSF64 => Ok(ValueTypeProvider::I64(f64_to_int_of(a, i64::MIN, i64::MAX) as i64)),
        Operation::I64TruncUF64 => Ok(ValueTypeProvider::I64(f64_to_int_of(a, i64::MIN, i64::MAX) as i64)),
        Operation::F32DemoteF64 => Err(Trap::FloatArithmetic),
        _ => Err(Trap::TypeMismatch),
    }
}

fn binary_f64(op: &Operation, a: u64, b: u64) -> (r: Result<ValueTypeProvider, Trap>)
    ensures
        r == spec_binary_f64(*op, a, b),
{
    match op {
        Operation::F64Eq => Ok(ValueTypeProvider::I32(if f64_eq_of(a, b) { 1 } else { 0 })),
        Operation::F64Ne => Ok(ValueTypeProvider::I32(if !f64_eq_of(a, b) { 1 } else { 0 })),
        Operation::F64Lt => Ok(ValueTypeProvider::I32(if f64_lt_of(a, b) { 1 } else { 0 })),
        Operation::F64Gt => Ok(ValueTypeProvider::I32(if f64_lt_of(b, a) { 1 } else { 0 })),
        Operation::F64Le => Ok(ValueTypeProvider::I32(if f64_le_of(a, b) { 1 } else { 0 })),
        Operation::F64Ge => Ok(ValueTypeProvider::I32(if f64_le_of(b, a) { 1 } else { 0 })),
        Operation::F64Add => Err(Trap::FloatArithmetic),
        Operation::F64Sub => Err(Trap::FloatArithmetic),
        Operation::F64Mul => Err(Trap::FloatArithmetic),
        Operation::F64Div => Err(Trap::FloatArithmetic),
        Operation::F64Min => Err(Trap::FloatArithmetic),
        Operation::F64Max => Err(Trap::FloatArithmetic),
        Operation::F64Copysign => Err(Trap::FloatArithmetic),
        _ => Err(Trap::TypeMismatch),
    }
}

/// The operand type of an instruction that takes one value and gives one, if it is one.
pub fn unary_operand_of(op: &Operation) -> (r: Option<ValueType>)
    ensures
        r == unary_operand(*op),
{
    match op {
        Operation::I32Eqz => Some(ValueType::I32),
        Operation::I32Clz => Some(ValueType::I32),
        Operation::I32Ctz => Some(ValueType::I32),
        Operation::I32Popcnt => Some(ValueType::I32),
        Operation::I64Eqz => Some(ValueType::I64),
        Operation::I64Clz => Some(ValueType::I64),
        Operation::I64Ctz => Some(ValueType::I64),
        Operation::I64Popcnt => Some(ValueType::I64),
        Operation::I32WrapI64 => Some(ValueType::I64),
        Operation::I64ExtendSI32 => Some(ValueType::I32),
        Operation::I64ExtendUI32 => Some(ValueType::I32),
        Operation::I32ReinterpretF32 => Some(ValueType::F32),
        Operation::I64ReinterpretF64 => Some(ValueType::F64),
        Operation::F32ReinterpretI32 => Some(ValueType::I32),
        Operation::F64ReinterpretI64 => Some(ValueType::I64),
        Operation::F32Abs => Some(ValueType::F32),
        Operation::F32Neg => Some(ValueType::F32),
        Operation::F64Abs => Some(ValueType::F64),
        Operation::F64Neg => Some(ValueType::F64),
        Operation::F32Ceil => Some(ValueType::F32),
        Operation::F32Floor => Some(ValueType::F32),
        Operation::F32Trunc => Some(ValueType::F32),
        Operation::F32Nearest => Some(ValueType::F32),
        Operation::F32Sqrt => Some(ValueType::F32),
        Operation::F64Ceil => Some(ValueType::F64),
        Operation::F64Floor => Some(ValueType::F64),
        Operation::F64Trunc => Some(ValueType::F64),
        Operation::F64Nearest => Some(ValueType::F64),
        Operation::F64Sqrt => Some(ValueType::F64),
        Operation::I32TruncSF32 => Some(ValueType::F32),
        Operation::I32TruncUF32 => Some(ValueType::F32),
        Operation::I32TruncSF64 => Some(ValueType::F64),
        Operation::I32TruncUF64 => Some(ValueType::F64),
        Operation::I64TruncSF32 => Some(ValueType::F32),
        Operation::I64TruncUF32 => Some(ValueType::F32),
        Operation::I64TruncSF64 => Some(ValueType::F64),
        Operation::I64TruncUF64 => Some(ValueType::F64),
        Operation::F32ConvertSI32 => Some(ValueType::I32),
        Operation::F32ConvertUI32 => Some(ValueType::I32),
        Operation::F32ConvertSI64 => Some(ValueType::I64),
        Operation::F32ConvertUI64 => Some(ValueType::I64),
        Operation::F32DemoteF64 => Some(ValueType::F64),
        Operation::F64ConvertSI32 => Some(ValueType::I32),
        Operation::F64ConvertUI32 => Some(ValueType::I32),
        Operation::F64ConvertSI64 => Some(ValueType::I64),
        Operation::F64ConvertUI64 => Some(ValueType::I64),
        Operation::F64PromoteF32 => Some(ValueType::F32),
        _ => None,
    }
}

/// The operand type of an instruction that takes two values of one type and gives one, if it is one.
pub fn binary_operand_of(op: &Operation) -> (r: Option<ValueType>)
    ensures
        r == binary_operand(*op),
{
    match op {
        Operation::I32Eq => Some(ValueType::I32),
        Operation::I32Ne => Some(ValueType::I32),
        Operation::I32LtS => Some(ValueType::I32),
        Operation::I32LtU => Some(ValueType::I32),
        Operation::I32GtS => Some(ValueType::I32),
        Operation::I32GtU => Some(ValueType::I32),
        Operation::I32LeS => Some(ValueType::I32),
        Operation::I32LeU => Some(ValueType::I32),
        Operation::I32GeS => Some(ValueType::I32),
        Operation::I32GeU => Some(ValueType::I32),
        Operation::I32Add => Some(ValueType::I32),
        Operation::I32Sub => Some(ValueType::I32),
        Operation::I32Mul => Some(ValueType::I32),
        Operation::I32DivS => Some(ValueType::I32),
        Operation::I32DivU => Some(ValueType::I32),
        Operation::I32RemS => Some(ValueType::I32),
        Operation::I32RemU => Some(ValueType::I32),
        Operation::I32Shl => Some(ValueType::I32),
        Operation::I32ShrS => Some(ValueType::I32),
        Operation::I32ShrU => Some(ValueType::I32),
        Operation::I32Rotl => Some(ValueType::I32),
        Operation::I32Rotr => Some(ValueType::I32),
        Operation::I32And => Some(ValueType::I32),
        Operation::I32Or => Some(ValueType::I32),
        Operation::I32Xor => Some(ValueType::I32),
        Operation::I64Eq => Some(ValueType::I64),
        Operation::I64Ne => Some(ValueType::I64),
        Operation::I64LtS => Some(ValueType::I64),
        Operation::I64LtU => Some(ValueType::I64),
        Operation::I64GtS => Some(ValueType::I64),
        Operation::I64GtU => Some(ValueType::I64),
        Operation::I64LeS => Some(ValueType::I64),
        Operation::I64LeU => Some(ValueType::I64),
        Operation::I64GeS => Some(ValueType::I64),
        Operation::I64GeU => Some(ValueType::I64),
        Operation::I64Add => Some(ValueType::I64),
        Operation::I64Sub => Some(ValueType::I64),
        Operation::I64Mul => Some(ValueType::I64),
        Operation::I64DivS => Some(ValueType::I64),
        Operation::I64DivU => Some(ValueType::I64),
        Operation::I64RemS => Some(ValueType::I64),
        Operation::I64RemU => Some(ValueType::I64),
        Operation::I64Shl => Some(ValueType::I64),
        Operation::I64ShrS => Some(ValueType::I64),
        Operation::I64ShrU => Some(ValueType::I64),
        Operation::I64Rotl => Some(ValueType::I64),
        Operation::I64Rotr => Some(ValueType::I64),
        Operation::I64And => Some(ValueType::I64),
        Operation::I64Or => Some(ValueType::I64),
        Operation::I64Xor => Some(ValueType::I64),
        Operation::F32Eq => Some(ValueType::F32),
        Operation::F32Ne => Some(ValueType::F32),
        Operation::F32Lt => Some(ValueType::F32),
        Operation::F32Gt => Some(ValueType::F32),
        Operation::F32Le => Some(ValueType::F32),
        Operation::F32Ge => Some(ValueType::F32),
        Operation::F32Add => Some(ValueType::F32),
        Operation::F32Sub => Some(ValueType::F32),
        Operation::F32Mul => Some(ValueType::F32),
        Operation::F32Div => Some(ValueType::F32),
        Operation::F32Min => Some(ValueType::F32),
        Operation::F32Max => Some(ValueType::F32),
        Operation::F32Copysign => Some(ValueType::F32),
        Operation::F64Eq => Some(ValueType::F64),
        Operation::F64Ne => Some(ValueType::F64),
        Operation::F64Lt => Some(ValueType::F64),
        Operation::F64Gt => Some(ValueType::F64),
        Operation::F64Le => Some(ValueType::F64),
        Operation::F64Ge => Some(ValueType::F64),
        Operation::F64Add => Some(ValueType::F64),
        Operation::F64Sub => Some(ValueType::F64),
        Operation::F64Mul => Some(ValueType::F64),
        Operation::F64Div => Some(ValueType::F64),
        Operation::F64Min => Some(ValueType::F64),
        Operation::F64Max => Some(ValueType::F64),
        Operation::F64Copysign => Some(ValueType::F64),
        _ => None,
    }
}

/// Computes an instruction that takes one value.
pub fn unary(op: &Operation, v: ValueTypeProvider) -> (r: Result<ValueTypeProvider, Trap>)
    ensures
        r == spec_unary(*op, v),
{
    match v {
        ValueTypeProvider::I32(a) => unary_i32(op, a),
        ValueTypeProvider::I64(a) => unary_i64(op, a),
        ValueTypeProvider::F32(a) => unary_f32(op, a),
        ValueTypeProvider::F64(a) => unary_f64(op, a),
    }
}

/// Computes an instruction that takes two values: `a_value` was on top of the
/// stack, `b_value` below it.
pub fn binary(op: &Operation, a_value: ValueTypeProvider, b_value: ValueTypeProvider) -> (r: Result<ValueTypeProvider, Trap>)
    ensures
        r == spec_binary(*op, a_value, b_value),
{
    match (a_value, b_value) {
        (ValueTypeProvider::I32(a), ValueTypeProvider::I32(b)) => binary_i32(op, a, b),
        (ValueTypeProvider::I64(a), ValueTypeProvider::I64(b)) => binary_i64(op, a, b),
        (ValueTypeProvider::F32(a), ValueTypeProvider::F32(b)) => binary_f32(op, a, b),
        (ValueTypeProvider::F64(a), ValueTypeProvider::F64(b)) => binary_f64(op, a, b),
        _ => Err(Trap::TypeMismatch),
    }
}

} // verus!
