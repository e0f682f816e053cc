//! What the numeric instructions mean, stated over all operands.
use crate::parse_tree::language_types::Operation;
use crate::runtime_tree::language_types::Trap;
use crate::runtime_tree::language_types::ValueTypeProvider;
use crate::runtime_tree::numeric::spec_binary_i32;
use crate::runtime_tree::numeric::spec_binary_i64;
use crate::runtime_tree::numeric::spec_unary_i32;
use crate::runtime_tree::numeric::spec_unary_i64;
use crate::runtime_tree::numeric::spec_unary_f32;
use crate::runtime_tree::numeric::spec_unary_f64;
use crate::runtime_tree::numeric::spec_binary_f32;
use crate::runtime_tree::numeric::spec_binary_f64;
use crate::runtime_tree::float::f32_is_nan;
use crate::runtime_tree::float::f64_is_nan;
use crate::runtime_tree::numeric::popcount;
use vstd::arithmetic::power2::lemma2_to64;
use vstd::arithmetic::power2::lemma2_to64_rest;
use vstd::std_specs::bits::axiom_u64_leading_zeros;
use vstd::std_specs::bits::axiom_u64_trailing_zeros;
use vstd::std_specs::bits::u64_leading_zeros;
use vstd::arithmetic::power2::lemma_pow2_unfold;
use vstd::arithmetic::power2::pow2;
use crate::runtime_tree::numeric::abs;
use crate::runtime_tree::numeric::trunc_div;
use crate::runtime_tree::numeric::trunc_rem;
use vstd::arithmetic::div_mod::lemma_div_pos_is_pos;
use vstd::arithmetic::div_mod::lemma_fundamental_div_mod;
use vstd::arithmetic::div_mod::lemma_mod_pos_bound;
use vstd::std_specs::bits::axiom_u32_leading_zeros;
use vstd::std_specs::bits::axiom_u32_trailing_zeros;
use vstd::prelude::*;

verus! {

/// The truth value that a test pushes: its `i32`, or -1 where it gives
/// something else.
pub open spec fn truth(r: Result<ValueTypeProvider, Trap>) -> int {
    match r {
        Ok(ValueTypeProvider::I32(x)) => x as int,
        _ => -1,
    }
}

/// An `i32` read as an unsigned number: negative values count from 2^32 down.
pub open spec fn unsigned32(a: i32) -> int {
    if a < 0 {
        a + 0x1_0000_0000
    } else {
        a as int
    }
}

/// An `i64` read as an unsigned number: negative values count from 2^64 down.
pub open spec fn unsigned64(a: i64) -> int {
    if a < 0 {
        a + 0x1_0000_0000_0000_0000
    } else {
        a as int
    }
}

/// A test of two `i32` values, `a` on top of the stack and `b` below it.
pub open spec fn test32(op: Operation, a: i32, b: i32) -> int {
    truth(spec_binary_i32(op, a, b))
}

/// A test of two `i64` values, `a` on top of the stack and `b` below it.
pub open spec fn test64(op: Operation, a: i64, b: i64) -> int {
    truth(spec_binary_i64(op, a, b))
}

/// The `i32` tests compare the top operand `a` with the one below it, `b`:
/// each pushes 1 or 0; `lt`, `gt`, `le`, `ge` hold exactly where `a` is less,
/// greater, at most or at least `b`, as signed numbers for the `_s` forms and
/// as unsigned numbers for the `_u` forms; a value is never less or greater
/// than itself; each test and its negation push 1 between them; swapping the
/// operands turns `lt` into `gt` and `le` into `ge`; exactly one of `lt`,
/// `eq`, `gt` holds; on non-negative operands the signed and unsigned forms
/// agree, and a negative value is unsigned-greater than any non-negative one.
pub proof fn lemma_i32_tests(a: i32, b: i32)
    ensures
        0 <= test32(Operation::I32Eq, a, b) <= 1,
        0 <= test32(Operation::I32Ne, a, b) <= 1,
        0 <= test32(Operation::I32LtS, a, b) <= 1,
        0 <= test32(Operation::I32LtU, a, b) <= 1,
        0 <= test32(Operation::I32GtS, a, b) <= 1,
        0 <= test32(Operation::I32GtU, a, b) <= 1,
        0 <= test32(Operation::I32LeS, a, b) <= 1,
        0 <= test32(Operation::I32LeU, a, b) <= 1,
        0 <= test32(Operation::I32GeS, a, b) <= 1,
        0 <= test32(Operation::I32GeU, a, b) <= 1,
        (test32(Operation::I32Eq, a, b) == 1) == (a == b),
        (test32(Operation::I32Ne, a, b) == 1) == (a != b),
        (test32(Operation::I32LtS, a, b) == 1) == (a < b),
        (test32(Operation::I32GtS, a, b) == 1) == (a > b),
        (test32(Operation::I32LeS, a, b) == 1) == (a <= b),
        (test32(Operation::I32GeS, a, b) == 1) == (a >= b),
        (test32(Operation::I32LtU, a, b) == 1) == (unsigned32(a) < unsigned32(b)),
        (test32(Operation::I32GtU, a, b) == 1) == (unsigned32(a) > unsigned32(b)),
        (test32(Operation::I32LeU, a, b) == 1) == (unsigned32(a) <= unsigned32(b)),
        (test32(Operation::I32GeU, a, b) == 1) == (unsigned32(a) >= unsigned32(b)),
        test32(Operation::I32LtU, a, a) == 0,
        test32(Operation::I32GtU, a, a) == 0,
        test32(Operation::I32LtS, a, a) == 0,
        test32(Operation::I32GtS, a, a) == 0,
        test32(Operation::I32LeU, a, a) == 1,
        test32(Operation::I32GeU, a, a) == 1,
        test32(Operation::I32LeS, a, a) == 1,
        test32(Operation::I32GeS, a, a) == 1,
        test32(Operation::I32Eq, a, a) == 1,
        test32(Operation::I32Ne, a, a) == 0,
        test32(Operation::I32Eq, a, b) + test32(Operation::I32Ne, a, b) == 1,
        test32(Operation::I32LtU, a, b) + test32(Operation::I32GeU, a, b) == 1,
        test32(Operation::I32GtU, a, b) + test32(Operation::I32LeU, a, b) == 1,
        test32(Operation::I32LtS, a, b) + test32(Operation::I32GeS, a, b) == 1,
        test32(Operation::I32GtS, a, b) + test32(Operation::I32LeS, a, b) == 1,
        test32(Operation::I32LtU, a, b) == test32(Operation::I32GtU, b, a),
        test32(Operation::I32LeU, a, b) == test32(Operation::I32GeU, b, a),
        test32(Operation::I32LtS, a, b) == test32(Operation::I32GtS, b, a),
        test32(Operation::I32LeS, a, b) == test32(Operation::I32GeS, b, a),
        test32(Operation::I32Eq, a, b) == test32(Operation::I32Eq, b, a),
        test32(Operation::I32LtU, a, b) + test32(Operation::I32Eq, a, b) + test32(Operation::I32GtU, a, b) == 1,
        test32(Operation::I32LtS, a, b) + test32(Operation::I32Eq, a, b) + test32(Operation::I32GtS, a, b) == 1,
        0 <= a && 0 <= b ==> test32(Operation::I32LtU, a, b) == test32(Operation::I32LtS, a, b),
        a < 0 <= b ==> test32(Operation::I32LtU, a, b) == 0 && test32(Operation::I32GtU, a, b) == 1,
{
    lemma_unsigned32(a);
    lemma_unsigned32(b);
}



/// Whether `r` is the `i32` value `x`.
pub open spec fn holds32(r: Result<ValueTypeProvider, Trap>, x: int) -> bool {
    match r {
        Ok(ValueTypeProvider::I32(y)) => y as int == x,
        _ => false,
    }
}

/// The `i32` that `r` holds, or 0.
pub open spec fn the32(r: Result<ValueTypeProvider, Trap>) -> i32 {
    match r {
        Ok(ValueTypeProvider::I32(y)) => y,
        _ => 0,
    }
}

/// Whether `x` fits in an `i32`.
pub open spec fn in32(x: int) -> bool {
    i32::MIN <= x <= i32::MAX
}

/// An instruction on two `i32` values, `a` on top of the stack and `b` below.
pub open spec fn bin32(op: Operation, a: i32, b: i32) -> Result<ValueTypeProvider, Trap> {
    spec_binary_i32(op, a, b)
}

proof fn lemma_unsigned32(a: i32)
    ensures
        unsigned32(a) == (a as u32) as int,
        0 <= unsigned32(a) < 0x1_0000_0000,
{
    assert((a < 0 ==> (a as u32) == a + 0x1_0000_0000) && (a >= 0 ==> (a as u32) == a)) by (bit_vector);
}

proof fn lemma_u32_as_i32(x: u32)
    ensures
        unsigned32(x as i32) == x as int,
{
    assert(((x as i32) < 0 ==> (x as i32) + 0x1_0000_0000 == x) && ((x as i32) >= 0 ==> (x as i32) == x)) by (bit_vector);
}

/// Truncating division and its remainder put the dividend back together; the
/// remainder is smaller than the divisor and has the dividend's sign; the
/// quotient is no larger than the dividend, and at most half of it where the
/// divisor is at least 2 in size.
pub proof fn lemma_trunc_div_rem(a: int, b: int)
    requires
        b != 0,
    ensures
        trunc_div(a, b) * b + trunc_rem(a, b) == a,
        abs(trunc_rem(a, b)) < abs(b),
        trunc_rem(a, b) == 0 || (trunc_rem(a, b) < 0) == (a < 0),
        abs(trunc_div(a, b)) <= abs(a),
        abs(b) >= 2 ==> 2 * abs(trunc_div(a, b)) <= abs(a),
{
    let aa = abs(a) as int;
    let bb = abs(b) as int;
    lemma_fundamental_div_mod(aa, bb);
    lemma_mod_pos_bound(aa, bb);
    lemma_div_pos_is_pos(aa, bb);
    let q = aa / bb;
    let r = aa % bb;
    assert(aa == q * bb + r) by (nonlinear_arith)
        requires
            aa == bb * q + r,
    ;
    assert(q <= q * bb) by (nonlinear_arith)
        requires
            q >= 0,
            bb >= 1,
    ;
    assert(bb >= 2 ==> 2 * q <= q * bb) by (nonlinear_arith)
        requires
            q >= 0,
    ;
    if a >= 0 && b > 0 {
        assert(q * b + r == a);
    } else if a >= 0 && b < 0 {
        assert((-q) * b + r == a) by (nonlinear_arith)
            requires
                bb == -b,
                aa == a,
                aa == q * bb + r,
        ;
    } else if a < 0 && b > 0 {
        assert((-q) * b + (-r) == a) by (nonlinear_arith)
            requires
                bb == b,
                aa == -a,
                aa == q * bb + r,
        ;
    } else {
        assert(q * b + (-r) == a) by (nonlinear_arith)
            requires
                bb == -b,
                aa == -a,
                aa == q * bb + r,
        ;
    }
}

/// `i32` arithmetic on the top operand `a` and the one below it, `b`: `add`,
/// `sub` and `mul` give `a + b`, `a - b` and `a * b` where that fits in an
/// `i32` and stop with `IntegerOverflow` where it does not; `add` and `mul`
/// do not depend on the order of the operands, and `sub` is undone by `add`.
pub proof fn lemma_i32_add_sub_mul(a: i32, b: i32)
    ensures
        in32(a + b) ==> holds32(bin32(Operation::I32Add, a, b), a + b),
        !in32(a + b) ==> bin32(Operation::I32Add, a, b) == Err::<ValueTypeProvider, Trap>(Trap::IntegerOverflow),
        in32(a - b) ==> holds32(bin32(Operation::I32Sub, a, b), a - b),
        !in32(a - b) ==> bin32(Operation::I32Sub, a, b) == Err::<ValueTypeProvider, Trap>(Trap::IntegerOverflow),
        in32(a * b) ==> holds32(bin32(Operation::I32Mul, a, b), a * b),
        !in32(a * b) ==> bin32(Operation::I32Mul, a, b) == Err::<ValueTypeProvider, Trap>(Trap::IntegerOverflow),
        bin32(Operation::I32Add, a, b) == bin32(Operation::I32Add, b, a),
        bin32(Operation::I32Mul, a, b) == bin32(Operation::I32Mul, b, a),
        bin32(Operation::I32Add, a, 0) == Ok::<ValueTypeProvider, Trap>(ValueTypeProvider::I32(a)),
        bin32(Operation::I32Sub, a, 0) == Ok::<ValueTypeProvider, Trap>(ValueTypeProvider::I32(a)),
        bin32(Operation::I32Mul, a, 1) == Ok::<ValueTypeProvider, Trap>(ValueTypeProvider::I32(a)),
        bin32(Operation::I32Mul, a, 0) == Ok::<ValueTypeProvider, Trap>(ValueTypeProvider::I32(0)),
        bin32(Operation::I32Sub, a, a) == Ok::<ValueTypeProvider, Trap>(ValueTypeProvider::I32(0)),
        bin32(Operation::I32Sub, a, b) is Ok ==> bin32(Operation::I32Add, the32(bin32(Operation::I32Sub, a, b)), b)
            == Ok::<ValueTypeProvider, Trap>(ValueTypeProvider::I32(a)),
{
    assert(a * b == b * a) by (nonlinear_arith);
}

/// `i32` division of the top operand `a` by the one below it, `b`: by zero it
/// stops with `DivisionByZero`; `div_s` and `rem_s` give the quotient rounded
/// toward zero and the remainder that goes with it, which put `a` back
/// together, is smaller than `b` in size and has `a`'s sign, except that
/// `i32::MIN` by -1 stops with `IntegerOverflow`; `div_u` and `rem_u` do the
/// same on the operands read as unsigned numbers.
pub proof fn lemma_i32_div_rem(a: i32, b: i32)
    ensures
        b == 0 ==> bin32(Operation::I32DivS, a, b) == Err::<ValueTypeProvider, Trap>(Trap::DivisionByZero)
            && bin32(Operation::I32RemS, a, b) == Err::<ValueTypeProvider, Trap>(Trap::DivisionByZero)
            && bin32(Operation::I32DivU, a, b) == Err::<ValueTypeProvider, Trap>(Trap::DivisionByZero)
            && bin32(Operation::I32RemU, a, b) == Err::<ValueTypeProvider, Trap>(Trap::DivisionByZero),
        a == i32::MIN && b == -1 ==> bin32(Operation::I32DivS, a, b) == Err::<ValueTypeProvider, Trap>(
            Trap::IntegerOverflow,
        ) && bin32(Operation::I32RemS, a, b) == Err::<ValueTypeProvider, Trap>(Trap::IntegerOverflow),
        b != 0 && !(a == i32::MIN && b == -1) ==> (bin32(Operation::I32DivS, a, b) matches Ok(ValueTypeProvider::I32(q))
            && (bin32(Operation::I32RemS, a, b) matches Ok(ValueTypeProvider::I32(r)) && q * b + r == a && abs(r as int)
            < abs(b as int) && (r == 0 || (r < 0) == (a < 0)))),
        b != 0 ==> (bin32(Operation::I32DivU, a, b) matches Ok(ValueTypeProvider::I32(q)) && (bin32(
            Operation::I32RemU,
            a,
            b,
        ) matches Ok(ValueTypeProvider::I32(r)) && unsigned32(q) * unsigned32(b) + unsigned32(r) == unsigned32(a) && 0
            <= unsigned32(r) < unsigned32(b))),
{
    lemma_unsigned32(a);
    lemma_unsigned32(b);
    if b != 0 {
        lemma_trunc_div_rem(a as int, b as int);
        let ua = a as u32;
        let ub = b as u32;
        lemma_fundamental_div_mod(ua as int, ub as int);
        lemma_mod_pos_bound(ua as int, ub as int);
        lemma_div_pos_is_pos(ua as int, ub as int);
        lemma_u32_as_i32(ua / ub);
        lemma_u32_as_i32(ua % ub);
        assert((ua / ub) as int * ub == ub * (ua / ub) as int) by (nonlinear_arith);
        if !(a == i32::MIN && b == -1) {
            let q = trunc_div(a as int, b as int);
            if abs(b as int) == 1 {
                assert(q * b == q || q * b == -q) by (nonlinear_arith)
                    requires
                        b == 1 || b == -1,
                ;
                assert(trunc_rem(a as int, b as int) == 0);
            }
            assert(in32(q));
        }
    }
}

/// The bitwise instructions on `i32` values: `and`, `or` and `xor` do not
/// depend on the order of the operands; `and` with 0 gives 0 and with -1
/// (all bits set) keeps the value, `or` with 0 keeps it and with -1 gives -1,
/// `xor` with itself gives 0, with 0 keeps the value and with -1 flips every
/// bit; `and` plus `or` is the sum of the operands, and `xor` is `or` less
/// `and`.
pub proof fn lemma_i32_bitwise(a: i32, b: i32)
    ensures
        bin32(Operation::I32And, a, b) == bin32(Operation::I32And, b, a),
        bin32(Operation::I32Or, a, b) == bin32(Operation::I32Or, b, a),
        bin32(Operation::I32Xor, a, b) == bin32(Operation::I32Xor, b, a),
        bin32(Operation::I32And, a, 0) == Ok::<ValueTypeProvider, Trap>(ValueTypeProvider::I32(0)),
        bin32(Operation::I32And, a, -1i32) == Ok::<ValueTypeProvider, Trap>(ValueTypeProvider::I32(a)),
        bin32(Operation::I32And, a, a) == Ok::<ValueTypeProvider, Trap>(ValueTypeProvider::I32(a)),
        bin32(Operation::I32Or, a, 0) == Ok::<ValueTypeProvider, Trap>(ValueTypeProvider::I32(a)),
        bin32(Operation::I32Or, a, -1i32) == Ok::<ValueTypeProvider, Trap>(ValueTypeProvider::I32(-1i32)),
        bin32(Operation::I32Or, a, a) == Ok::<ValueTypeProvider, Trap>(ValueTypeProvider::I32(a)),
        bin32(Operation::I32Xor, a, a) == Ok::<ValueTypeProvider, Trap>(ValueTypeProvider::I32(0)),
        bin32(Operation::I32Xor, a, 0) == Ok::<ValueTypeProvider, Trap>(ValueTypeProvider::I32(a)),
        holds32(bin32(Operation::I32Xor, a, -1i32), -1 - a),
        the32(bin32(Operation::I32And, a, b)) + the32(bin32(Operation::I32Or, a, b)) == a + b,
        the32(bin32(Operation::I32Xor, a, b)) == the32(bin32(Operation::I32Or, a, b)) - the32(
            bin32(Operation::I32And, a, b),
        ),
{
    bits32_logic(a, b);
}



/// Shifts of the top operand `a` by the one below it, `b`: an amount outside
/// 0 to 31 stops with `ShiftOutOfRange`; by 0 nothing changes; `shl` by 1
/// doubles `a` read as unsigned, dropping the bit that leaves, `shr_u` by 1
/// halves it read as unsigned, and `shr_s` by 1 halves it rounding down; a
/// shift by `k + 1` is a shift by `k` and then by 1.
pub proof fn lemma_i32_shifts(a: i32, b: i32)
    ensures
        (b < 0 || b >= 32) ==> bin32(Operation::I32Shl, a, b) == Err::<ValueTypeProvider, Trap>(Trap::ShiftOutOfRange)
            && bin32(Operation::I32ShrS, a, b) == Err::<ValueTypeProvider, Trap>(Trap::ShiftOutOfRange) && bin32(
            Operation::I32ShrU,
            a,
            b,
        ) == Err::<ValueTypeProvider, Trap>(Trap::ShiftOutOfRange),
        bin32(Operation::I32Shl, a, 0) == Ok::<ValueTypeProvider, Trap>(ValueTypeProvider::I32(a)),
        bin32(Operation::I32ShrS, a, 0) == Ok::<ValueTypeProvider, Trap>(ValueTypeProvider::I32(a)),
        bin32(Operation::I32ShrU, a, 0) == Ok::<ValueTypeProvider, Trap>(ValueTypeProvider::I32(a)),
        bin32(Operation::I32Shl, a, 1) matches Ok(ValueTypeProvider::I32(x)) && unsigned32(x) == (2 * unsigned32(a))
            % 0x1_0000_0000,
        bin32(Operation::I32ShrU, a, 1) matches Ok(ValueTypeProvider::I32(x)) && unsigned32(x) == unsigned32(a) / 2,
        bin32(Operation::I32ShrS, a, 1) matches Ok(ValueTypeProvider::I32(x)) && 2 * x <= a < 2 * x + 2,
        0 <= b < 31 ==> bin32(Operation::I32Shl, a, (b + 1) as i32) == bin32(Operation::I32Shl, the32(bin32(Operation::I32Shl, a, b)), 1),
        0 <= b < 31 ==> bin32(Operation::I32ShrU, a, (b + 1) as i32) == bin32(
            Operation::I32ShrU,
            the32(bin32(Operation::I32ShrU, a, b)),
            1,
        ),
        0 <= b < 31 ==> bin32(Operation::I32ShrS, a, (b + 1) as i32) == bin32(
            Operation::I32ShrS,
            the32(bin32(Operation::I32ShrS, a, b)),
            1,
        ),
{
    lemma_unsigned32(a);
    let u = a as u32;
    let k = b as u32;
    bits32_shift(a, u);
    bits32_shift_half(a, u);
    bits32_shift_step(a, u, k);
    lemma_u32_as_i32(u << 1u32);
    lemma_u32_as_i32(u >> 1u32);
    if 0 <= b < 31 {
        assert(((b + 1) as u32) == (k + 1) as u32);
    }
}


/// Rotations of the top operand `a` by the one below it, `b`: by 0 nothing
/// changes; `rotl` by 1 doubles `a` read as unsigned and brings the bit that
/// leaves back in at the bottom, and `rotr` by 1 halves it and brings the bit
/// that leaves back in at the top; `rotr` by `b` undoes `rotl` by `b`, and the
/// other way round; a rotation by `k + 1` is one by `k` and then by 1.
pub proof fn lemma_i32_rotations(a: i32, b: i32)
    ensures
        bin32(Operation::I32Rotl, a, 0) == Ok::<ValueTypeProvider, Trap>(ValueTypeProvider::I32(a)),
        bin32(Operation::I32Rotr, a, 0) == Ok::<ValueTypeProvider, Trap>(ValueTypeProvider::I32(a)),
        bin32(Operation::I32Rotl, a, 1) matches Ok(ValueTypeProvider::I32(x)) && unsigned32(x) == (2 * unsigned32(a))
            % 0x1_0000_0000 + unsigned32(a) / 0x8000_0000,
        bin32(Operation::I32Rotr, a, 1) matches Ok(ValueTypeProvider::I32(x)) && unsigned32(x) == unsigned32(a) / 2 + (
        unsigned32(a) % 2) * 0x8000_0000,
        bin32(Operation::I32Rotr, the32(bin32(Operation::I32Rotl, a, b)), b) == Ok::<ValueTypeProvider, Trap>(
            ValueTypeProvider::I32(a),
        ),
        bin32(Operation::I32Rotl, the32(bin32(Operation::I32Rotr, a, b)), b) == Ok::<ValueTypeProvider, Trap>(
            ValueTypeProvider::I32(a),
        ),
        0 <= b < 31 ==> bin32(Operation::I32Rotl, a, (b + 1) as i32) == bin32(
            Operation::I32Rotl,
            the32(bin32(Operation::I32Rotl, a, b)),
            1,
        ),
        0 <= b < 31 ==> bin32(Operation::I32Rotr, a, (b + 1) as i32) == bin32(
            Operation::I32Rotr,
            the32(bin32(Operation::I32Rotr, a, b)),
            1,
        ),
{
    lemma_unsigned32(a);
    let u = a as u32;
    let k = b as u32;
    bits32_rotate(a, u);
    bits32_rotate_right(a, u);
    bits32_rotate_back(a, u, k);
    bits32_rotate_step(a, u, k);
    lemma_u32_as_i32((u << 1u32) | (u >> 31u32));
    lemma_u32_as_i32((u >> 1u32) | (u << 31u32));
    if 0 <= b < 31 {
        assert(((b + 1) as u32) == k + 1);
        assert(((k + 1) as u32) % 32 == k + 1 && k % 32 == k);
    }
}


/// The bit counts of an `i32` read as unsigned: `clz` gives 0 to 32, 32
/// exactly for 0, and otherwise the bit it points at from the top is set and
/// all bits above it are clear; `ctz` gives 0 to 32, 32 exactly for 0, and
/// otherwise the bit it points at from the bottom is set and all bits below it
/// are clear; `popcnt` gives 0 for 0, and the count of `a` is that of `a`
/// shifted right by 1 plus its lowest bit.
pub proof fn lemma_i32_bit_counts(a: i32)
    ensures
        spec_unary_i32(Operation::I32Clz, a) matches Ok(ValueTypeProvider::I32(n)) && 0 <= n <= 32 && (a == 0 <==> n
            == 32) && (n < 32 ==> ((a as u32) >> ((31 - n) as u32)) & 1 == 1) && (0 < n < 32 ==> (a as u32) >> ((32
            - n) as u32) == 0),
        spec_unary_i32(Operation::I32Ctz, a) matches Ok(ValueTypeProvider::I32(n)) && 0 <= n <= 32 && (a == 0 <==> n
            == 32) && (n < 32 ==> ((a as u32) >> (n as u32)) & 1 == 1) && (0 < n < 32 ==> (a as u32) << ((32 - n) as u32)
            == 0),
        spec_unary_i32(Operation::I32Popcnt, 0) == Ok::<ValueTypeProvider, Trap>(ValueTypeProvider::I32(0)),
        truth(spec_unary_i32(Operation::I32Popcnt, a)) == truth(
            spec_unary_i32(Operation::I32Popcnt, the32(bin32(Operation::I32ShrU, a, 1))),
        ) + the32(bin32(Operation::I32And, a, 1)),
{
    let u = a as u32;
    axiom_u32_leading_zeros(u);
    axiom_u32_trailing_zeros(u);
    bits32_count(a, u, u.leading_zeros());
    lemma_popcount_bound((u as nat) / 2);
}


proof fn lemma_popcount_bound(x: nat)
    requires
        x < 0x8000_0000,
    ensures
        popcount(x) < 32,
{
    lemma2_to64();
    lemma_popcount_bits(x, 31);
}

proof fn lemma_popcount_bits(x: nat, k: nat)
    requires
        x < pow2(k),
    ensures
        popcount(x) <= k,
    decreases k,
{
    if k > 0 && x > 0 {
        lemma_pow2_unfold(k);
        lemma_popcount_bits(x / 2, (k - 1) as nat);
    } else if k == 0 {
        lemma2_to64();
    }
}


/// Bit facts behind the bitwise laws on `i32` values.
proof fn bits32_logic(a: i32, b: i32)
    by (bit_vector)
    ensures
        a & b == b & a && a | b == b | a && a ^ b == b ^ a,
        a & 0 == 0 && a & -1i32 == a && a & a == a && a | 0 == a && a | -1i32 == -1i32 && a | a == a,
        a ^ a == 0 && a ^ 0 == a && a ^ -1i32 == -1 - a,
        (a & b) + (a | b) == a + b,
        a ^ b == (a | b) - (a & b),
{
}

/// Bit facts behind the shift laws on `i32` values.
proof fn bits32_shift(a: i32, u: u32)
    by (bit_vector)
    requires
        u == a as u32,
    ensures
        ((u << 0u32) as i32) == a && ((u >> 0u32) as i32) == a && (a >> 0u32) == a,
        (u << 1u32) == (2 * u) % 0x1_0000_0000,
        2 * (a >> 1u32) <= a < 2 * (a >> 1u32) + 2,
{
}

/// Bit facts behind the shift laws on `i32` values.
proof fn bits32_shift_half(a: i32, u: u32)
    by (bit_vector)
    requires
        u == a as u32,
    ensures
        (u >> 1u32) == u / 2,
{
}


/// Bit facts behind the shift laws on `i32` values.
proof fn bits32_shift_step(a: i32, u: u32, k: u32)
    by (bit_vector)
    requires
        u == a as u32,
    ensures
        k < 31 ==> (((u << k) as i32) as u32) << 1u32 == u << ((k + 1) as u32),
        k < 31 ==> (((u >> k) as i32) as u32) >> 1u32 == u >> ((k + 1) as u32),
        k < 31 ==> (a >> k) >> 1u32 == a >> ((k + 1) as u32),
{
}


/// Bit facts behind the rotation laws on `i32` values.
proof fn bits32_rotate(a: i32, u: u32)
    by (bit_vector)
    requires
        u == a as u32,
    ensures
        ((u as i32) as u32) == u && (u as i32) == a,
        ((u << 1u32) | (u >> 31u32)) == (2 * u) % 0x1_0000_0000 + u / 0x8000_0000,
{
}

/// Bit facts behind the rotation laws on `i32` values.
proof fn bits32_rotate_right(a: i32, u: u32)
    by (bit_vector)
    requires
        u == a as u32,
    ensures
        ((u >> 1u32) | (u << 31u32)) == u / 2 + (u % 2) * 0x8000_0000,
{
}


/// Bit facts behind the rotation laws on `i32` values.
#[verifier::rlimit(50)]
proof fn bits32_rotate_back(a: i32, u: u32, k: u32)
    by (bit_vector)
    requires
        u == a as u32,
    ensures
        ({
            let s = k % 32;
            let l = if s == 0 { u } else { (u << s) | (u >> ((32 - s) as u32)) };
            let r = if s == 0 { u } else { (u >> s) | (u << ((32 - s) as u32)) };
            let back_l = if s == 0 { l } else { (l >> s) | (l << ((32 - s) as u32)) };
            let back_r = if s == 0 { r } else { (r << s) | (r >> ((32 - s) as u32)) };
            &&& ((l as i32) as u32) == l && ((r as i32) as u32) == r
            &&& s == 0 ==> (l as i32) == a && (r as i32) == a
            &&& back_l == u && back_r == u
        }),
{
}

/// Bit facts behind the rotation laws on `i32` values.
proof fn bits32_rotate_step(a: i32, u: u32, k: u32)
    by (bit_vector)
    requires
        u == a as u32,
    ensures
        k < 31 ==> ({
            let s1 = (k + 1) as u32;
            let once = if k == 0 { u } else { (u << k) | (u >> ((32 - k) as u32)) };
            ((once << 1u32) | (once >> 31u32)) == (u << s1) | (u >> ((32 - s1) as u32))
        }),
        k < 31 ==> ({
            let s1 = (k + 1) as u32;
            let once = if k == 0 { u } else { (u >> k) | (u << ((32 - k) as u32)) };
            ((once >> 1u32) | (once << 31u32)) == (u >> s1) | (u << ((32 - s1) as u32))
        }),
{
}


/// Bit facts behind the bit-count laws on `i32` values.
proof fn bits32_count(a: i32, u: u32, z: u32)
    by (bit_vector)
    requires
        u == a as u32,
    ensures
        z < 32 ==> ((u >> ((31 - z) as u32)) & 1 != 0 ==> (u >> ((31 - z) as u32)) & 1 == 1),
        (a == 0) == (u == 0),
        (((u >> 1u32) as i32) as u32) == (u >> 1u32) && (u >> 1u32) == u / 2,
        (a & 1) == (u % 2) as i32,
{
}

/// Bit facts behind the conversions between `i32` and `i64`.
proof fn bits32_convert(a: i32, c: i64)
    by (bit_vector)
    ensures
        ((c as i32) as u32) == (c as u32),
        ((a as i64) as i32) == a,
        (((a as u32) as i64) as i32) == ((a as u32) as i32) && ((a as u32) as i32) == a,
{
}

/// The low 32 bits of an `i64`, and the `i64` read as unsigned.
proof fn bits64_low(a: i64)
    by (bit_vector)
    ensures
        (a as u32) == (a as u64) % 0x1_0000_0000,
        (a < 0 ==> (a as u64) == a + 0x1_0000_0000_0000_0000) && (a >= 0 ==> (a as u64) == a),
{
}

/// Bit facts behind the sign laws on `f32` values.
proof fn bits_f32_sign(a: u32, i: i32)
    by (bit_vector)
    ensures
        a & 0x7fff_ffffu32 == a % 0x8000_0000 && (a ^ 0x8000_0000u32) % 0x8000_0000 == a % 0x8000_0000,
        ((a ^ 0x8000_0000u32) >= 0x8000_0000) != (a >= 0x8000_0000),
        (a ^ 0x8000_0000u32) ^ 0x8000_0000u32 == a,
        (a ^ 0x8000_0000u32) & 0x7fff_ffffu32 == a & 0x7fff_ffffu32,
        ((a as i32) as u32) == a && ((i as u32) as i32) == i,
{
}

/// Bit facts behind the sign laws on `f64` values.
proof fn bits_f64_sign(a: u64, i: i64)
    by (bit_vector)
    ensures
        a & 0x7fff_ffff_ffff_ffffu64 == a % 0x8000_0000_0000_0000 && (a ^ 0x8000_0000_0000_0000u64) % 0x8000_0000_0000_0000
            == a % 0x8000_0000_0000_0000,
        ((a ^ 0x8000_0000_0000_0000u64) >= 0x8000_0000_0000_0000) != (a >= 0x8000_0000_0000_0000),
        (a ^ 0x8000_0000_0000_0000u64) ^ 0x8000_0000_0000_0000u64 == a,
        (a ^ 0x8000_0000_0000_0000u64) & 0x7fff_ffff_ffff_ffffu64 == a & 0x7fff_ffff_ffff_ffffu64,
        ((a as i64) as u64) == a && ((i as u64) as i64) == i,
{
}

/// Whether `r` is the `i64` value `x`.
pub open spec fn holds64(r: Result<ValueTypeProvider, Trap>, x: int) -> bool {
    match r {
        Ok(ValueTypeProvider::I64(y)) => y as int == x,
        _ => false,
    }
}

/// The `i64` that `r` holds, or 0.
pub open spec fn the64(r: Result<ValueTypeProvider, Trap>) -> i64 {
    match r {
        Ok(ValueTypeProvider::I64(y)) => y,
        _ => 0,
    }
}

/// Whether `x` fits in an `i64`.
pub open spec fn in64(x: int) -> bool {
    i64::MIN <= x <= i64::MAX
}

/// An instruction on two `i64` values, `a` on top of the stack and `b` below.
pub open spec fn bin64(op: Operation, a: i64, b: i64) -> Result<ValueTypeProvider, Trap> {
    spec_binary_i64(op, a, b)
}

proof fn lemma_unsigned64(a: i64)
    ensures
        unsigned64(a) == (a as u64) as int,
        0 <= unsigned64(a) < 0x1_0000_0000_0000_0000,
{
    assert((a < 0 ==> (a as u64) == a + 0x1_0000_0000_0000_0000) && (a >= 0 ==> (a as u64) == a)) by (bit_vector);
}

proof fn lemma_u64_as_i64(x: u64)
    ensures
        unsigned64(x as i64) == x as int,
{
    assert(((x as i64) < 0 ==> (x as i64) + 0x1_0000_0000_0000_0000 == x) && ((x as i64) >= 0 ==> (x as i64) == x)) by (bit_vector);
}

/// `i64` arithmetic on the top operand `a` and the one below it, `b`: `add`,
/// `sub` and `mul` give `a + b`, `a - b` and `a * b` where that fits in an
/// `i64` and stop with `IntegerOverflow` where it does not; `add` and `mul`
/// do not depend on the order of the operands, and `sub` is undone by `add`.
pub proof fn lemma_i64_add_sub_mul(a: i64, b: i64)
    ensures
        in64(a + b) ==> holds64(bin64(Operation::I64Add, a, b), a + b),
        !in64(a + b) ==> bin64(Operation::I64Add, a, b) == Err::<ValueTypeProvider, Trap>(Trap::IntegerOverflow),
        in64(a - b) ==> holds64(bin64(Operation::I64Sub, a, b), a - b),
        !in64(a - b) ==> bin64(Operation::I64Sub, a, b) == Err::<ValueTypeProvider, Trap>(Trap::IntegerOverflow),
        in64(a * b) ==> holds64(bin64(Operation::I64Mul, a, b), a * b),
        !in64(a * b) ==> bin64(Operation::I64Mul, a, b) == Err::<ValueTypeProvider, Trap>(Trap::IntegerOverflow),
        bin64(Operation::I64Add, a, b) == bin64(Operation::I64Add, b, a),
        bin64(Operation::I64Mul, a, b) == bin64(Operation::I64Mul, b, a),
        bin64(Operation::I64Add, a, 0) == Ok::<ValueTypeProvider, Trap>(ValueTypeProvider::I64(a)),
        bin64(Operation::I64Sub, a, 0) == Ok::<ValueTypeProvider, Trap>(ValueTypeProvider::I64(a)),
        bin64(Operation::I64Mul, a, 1) == Ok::<ValueTypeProvider, Trap>(ValueTypeProvider::I64(a)),
        bin64(Operation::I64Mul, a, 0) == Ok::<ValueTypeProvider, Trap>(ValueTypeProvider::I64(0)),
        bin64(Operation::I64Sub, a, a) == Ok::<ValueTypeProvider, Trap>(ValueTypeProvider::I64(0)),
        bin64(Operation::I64Sub, a, b) is Ok ==> bin64(Operation::I64Add, the64(bin64(Operation::I64Sub, a, b)), b)
            == Ok::<ValueTypeProvider, Trap>(ValueTypeProvider::I64(a)),
{
    assert(a * b == b * a) by (nonlinear_arith);
}

/// `i64` division of the top operand `a` by the one below it, `b`: by zero it
/// stops with `DivisionByZero`; `div_s` and `rem_s` give the quotient rounded
/// toward zero and the remainder that goes with it, which put `a` back
/// together, is smaller than `b` in size and has `a`'s sign, except that
/// `i64::MIN` by -1 stops with `IntegerOverflow`; `div_u` and `rem_u` do the
/// same on the operands read as unsigned numbers.
pub proof fn lemma_i64_div_rem(a: i64, b: i64)
    ensures
        b == 0 ==> bin64(Operation::I64DivS, a, b) == Err::<ValueTypeProvider, Trap>(Trap::DivisionByZero)
            && bin64(Operation::I64RemS, a, b) == Err::<ValueTypeProvider, Trap>(Trap::DivisionByZero)
            && bin64(Operation::I64DivU, a, b) == Err::<ValueTypeProvider, Trap>(Trap::DivisionByZero)
            && bin64(Operation::I64RemU, a, b) == Err::<ValueTypeProvider, Trap>(Trap::DivisionByZero),
        a == i64::MIN && b == -1 ==> bin64(Operation::I64DivS, a, b) == Err::<ValueTypeProvider, Trap>(
            Trap::IntegerOverflow,
        ) && bin64(Operation::I64RemS, a, b) == Err::<ValueTypeProvider, Trap>(Trap::IntegerOverflow),
        b != 0 && !(a == i64::MIN && b == -1) ==> (bin64(Operation::I64DivS, a, b) matches Ok(ValueTypeProvider::I64(q))
            && (bin64(Operation::I64RemS, a, b) matches Ok(ValueTypeProvider::I64(r)) && q * b + r == a && abs(r as int)
            < abs(b as int) && (r == 0 || (r < 0) == (a < 0)))),
        b != 0 ==> (bin64(Operation::I64DivU, a, b) matches Ok(ValueTypeProvider::I64(q)) && (bin64(
            Operation::I64RemU,
            a,
            b,
        ) matches Ok(ValueTypeProvider::I64(r)) && unsigned64(q) * unsigned64(b) + unsigned64(r) == unsigned64(a) && 0
            <= unsigned64(r) < unsigned64(b))),
{
    lemma_unsigned64(a);
    lemma_unsigned64(b);
    if b != 0 {
        lemma_trunc_div_rem(a as int, b as int);
        let ua = a as u64;
        let ub = b as u64;
        lemma_fundamental_div_mod(ua as int, ub as int);
        lemma_mod_pos_bound(ua as int, ub as int);
        lemma_div_pos_is_pos(ua as int, ub as int);
        lemma_u64_as_i64(ua / ub);
        lemma_u64_as_i64(ua % ub);
        assert((ua / ub) as int * ub == ub * (ua / ub) as int) by (nonlinear_arith);
        if !(a == i64::MIN && b == -1) {
            let q = trunc_div(a as int, b as int);
            if abs(b as int) == 1 {
                assert(q * b == q || q * b == -q) by (nonlinear_arith)
                    requires
                        b == 1 || b == -1,
                ;
                assert(trunc_rem(a as int, b as int) == 0);
            }
            assert(in64(q));
        }
    }
}

/// The bitwise instructions on `i64` values: `and`, `or` and `xor` do not
/// depend on the order of the operands; `and` with 0 gives 0 and with -1
/// (all bits set) keeps the value, `or` with 0 keeps it and with -1 gives -1,
/// `xor` with itself gives 0, with 0 keeps the value and with -1 flips every
/// bit; `and` plus `or` is the sum of the operands, and `xor` is `or` less
/// `and`.
pub proof fn lemma_i64_bitwise(a: i64, b: i64)
    ensures
        bin64(Operation::I64And, a, b) == bin64(Operation::I64And, b, a),
        bin64(Operation::I64Or, a, b) == bin64(Operation::I64Or, b, a),
        bin64(Operation::I64Xor, a, b) == bin64(Operation::I64Xor, b, a),
        bin64(Operation::I64And, a, 0) == Ok::<ValueTypeProvider, Trap>(ValueTypeProvider::I64(0)),
        bin64(Operation::I64And, a, -1i64) == Ok::<ValueTypeProvider, Trap>(ValueTypeProvider::I64(a)),
        bin64(Operation::I64And, a, a) == Ok::<ValueTypeProvider, Trap>(ValueTypeProvider::I64(a)),
        bin64(Operation::I64Or, a, 0) == Ok::<ValueTypeProvider, Trap>(ValueTypeProvider::I64(a)),
        bin64(Operation::I64Or, a, -1i64) == Ok::<ValueTypeProvider, Trap>(ValueTypeProvider::I64(-1i64)),
        bin64(Operation::I64Or, a, a) == Ok::<ValueTypeProvider, Trap>(ValueTypeProvider::I64(a)),
        bin64(Operation::I64Xor, a, a) == Ok::<ValueTypeProvider, Trap>(ValueTypeProvider::I64(0)),
        bin64(Operation::I64Xor, a, 0) == Ok::<ValueTypeProvider, Trap>(ValueTypeProvider::I64(a)),
        holds64(bin64(Operation::I64Xor, a, -1i64), -1 - a),
        the64(bin64(Operation::I64And, a, b)) + the64(bin64(Operation::I64Or, a, b)) == a + b,
        the64(bin64(Operation::I64Xor, a, b)) == the64(bin64(Operation::I64Or, a, b)) - the64(
            bin64(Operation::I64And, a, b),
        ),
{
    bits64_logic(a, b);
}



/// Shifts of the top operand `a` by the one below it, `b`: an amount outside
/// 0 to 63 stops with `ShiftOutOfRange`; by 0 nothing changes; `shl` by 1
/// doubles `a` read as unsigned, dropping the bit that leaves, `shr_u` by 1
/// halves it read as unsigned, and `shr_s` by 1 halves it rounding down; a
/// shift by `k + 1` is a shift by `k` and then by 1.
pub proof fn lemma_i64_shifts(a: i64, b: i64)
    ensures
        (b < 0 || b >= 64) ==> bin64(Operation::I64Shl, a, b) == Err::<ValueTypeProvider, Trap>(Trap::ShiftOutOfRange)
            && bin64(Operation::I64ShrS, a, b) == Err::<ValueTypeProvider, Trap>(Trap::ShiftOutOfRange) && bin64(
            Operation::I64ShrU,
            a,
            b,
        ) == Err::<ValueTypeProvider, Trap>(Trap::ShiftOutOfRange),
        bin64(Operation::I64Shl, a, 0) == Ok::<ValueTypeProvider, Trap>(ValueTypeProvider::I64(a)),
        bin64(Operation::I64ShrS, a, 0) == Ok::<ValueTypeProvider, Trap>(ValueTypeProvider::I64(a)),
        bin64(Operation::I64ShrU, a, 0) == Ok::<ValueTypeProvider, Trap>(ValueTypeProvider::I64(a)),
        bin64(Operation::I64Shl, a, 1) matches Ok(ValueTypeProvider::I64(x)) && unsigned64(x) == (2 * unsigned64(a))
            % 0x1_0000_0000_0000_0000,
        bin64(Operation::I64ShrU, a, 1) matches Ok(ValueTypeProvider::I64(x)) && unsigned64(x) == unsigned64(a) / 2,
        bin64(Operation::I64ShrS, a, 1) matches Ok(ValueTypeProvider::I64(x)) && 2 * x <= a < 2 * x + 2,
        0 <= b < 63 ==> bin64(Operation::I64Shl, a, (b + 1) as i64) == bin64(Operation::I64Shl, the64(bin64(Operation::I64Shl, a, b)), 1),
        0 <= b < 63 ==> bin64(Operation::I64ShrU, a, (b + 1) as i64) == bin64(
            Operation::I64ShrU,
            the64(bin64(Operation::I64ShrU, a, b)),
            1,
        ),
        0 <= b < 63 ==> bin64(Operation::I64ShrS, a, (b + 1) as i64) == bin64(
            Operation::I64ShrS,
            the64(bin64(Operation::I64ShrS, a, b)),
            1,
        ),
{
    lemma_unsigned64(a);
    let u = a as u64;
    let k = b as u32;
    bits64_shift(a, u);
    bits64_shift_half(a, u);
    bits64_shift_step(a, u, k);
    lemma_u64_as_i64(u << 1u32);
    lemma_u64_as_i64(u >> 1u32);
    if 0 <= b < 63 {
        assert(((b + 1) as u32) == (k + 1) as u32);
    }
}


/// Rotations of the top operand `a` by the one below it, `b`: by 0 nothing
/// changes; `rotl` by 1 doubles `a` read as unsigned and brings the bit that
/// leaves back in at the bottom, and `rotr` by 1 halves it and brings the bit
/// that leaves back in at the top; `rotr` by `b` undoes `rotl` by `b`, and the
/// other way round; a rotation by `k + 1` is one by `k` and then by 1.
pub proof fn lemma_i64_rotations(a: i64, b: i64)
    ensures
        bin64(Operation::I64Rotl, a, 0) == Ok::<ValueTypeProvider, Trap>(ValueTypeProvider::I64(a)),
        bin64(Operation::I64Rotr, a, 0) == Ok::<ValueTypeProvider, Trap>(ValueTypeProvider::I64(a)),
        bin64(Operation::I64Rotl, a, 1) matches Ok(ValueTypeProvider::I64(x)) && unsigned64(x) == (2 * unsigned64(a))
            % 0x1_0000_0000_0000_0000 + unsigned64(a) / 0x8000_0000_0000_0000,
        bin64(Operation::I64Rotr, a, 1) matches Ok(ValueTypeProvider::I64(x)) && unsigned64(x) == unsigned64(a) / 2 + (
        unsigned64(a) % 2) * 0x8000_0000_0000_0000,
        bin64(Operation::I64Rotr, the64(bin64(Operation::I64Rotl, a, b)), b) == Ok::<ValueTypeProvider, Trap>(
            ValueTypeProvider::I64(a),
        ),
        bin64(Operation::I64Rotl, the64(bin64(Operation::I64Rotr, a, b)), b) == Ok::<ValueTypeProvider, Trap>(
            ValueTypeProvider::I64(a),
        ),
        0 <= b < 63 ==> bin64(Operation::I64Rotl, a, (b + 1) as i64) == bin64(
            Operation::I64Rotl,
            the64(bin64(Operation::I64Rotl, a, b)),
            1,
        ),
        0 <= b < 63 ==> bin64(Operation::I64Rotr, a, (b + 1) as i64) == bin64(
            Operation::I64Rotr,
            the64(bin64(Operation::I64Rotr, a, b)),
            1,
        ),
{
    lemma_unsigned64(a);
    let u = a as u64;
    let k = b as u32;
    bits64_rotate(a, u);
    bits64_rotate_right(a, u);
    bits64_rotate_back(a, u, k);
    bits64_rotate_forth(a, u, k);
    bits64_rotate_step(a, u, k);
    lemma_u64_as_i64((u << 1u32) | (u >> 63u32));
    lemma_u64_as_i64((u >> 1u32) | (u << 63u32));
    if 0 <= b < 63 {
        assert(((b + 1) as u32) == k + 1);
        assert(((k + 1) as u32) % 64 == k + 1 && k % 64 == k);
    }
}


/// The bit counts of an `i64` read as unsigned, pushed as an `i32`: `clz` gives 0 to 64, 64
/// exactly for 0, and otherwise the bit it points at from the top is set and
/// all bits above it are clear; `ctz` gives 0 to 64, 64 exactly for 0, and
/// otherwise the bit it points at from the bottom is set and all bits below it
/// are clear; `popcnt` gives 0 for 0, and the count of `a` is that of `a`
/// shifted right by 1 plus its lowest bit.
pub proof fn lemma_i64_bit_counts(a: i64)
    ensures
        spec_unary_i64(Operation::I64Clz, a) matches Ok(ValueTypeProvider::I32(n)) && 0 <= n <= 64 && (a == 0 <==> n
            == 64) && (n < 64 ==> ((a as u64) >> ((63 - n) as u64)) & 1 == 1) && (0 < n < 64 ==> (a as u64) >> ((64
            - n) as u64) == 0),
        spec_unary_i64(Operation::I64Ctz, a) matches Ok(ValueTypeProvider::I32(n)) && 0 <= n <= 64 && (a == 0 <==> n
            == 64) && (n < 64 ==> ((a as u64) >> (n as u64)) & 1 == 1) && (0 < n < 64 ==> (a as u64) << ((64 - n) as u64)
            == 0),
        spec_unary_i64(Operation::I64Popcnt, 0) == Ok::<ValueTypeProvider, Trap>(ValueTypeProvider::I32(0)),
        truth(spec_unary_i64(Operation::I64Popcnt, a)) == truth(
            spec_unary_i64(Operation::I64Popcnt, the64(bin64(Operation::I64ShrU, a, 1))),
        ) + the64(bin64(Operation::I64And, a, 1)),
{
    let u = a as u64;
    axiom_u64_leading_zeros(u);
    axiom_u64_trailing_zeros(u);
    bits64_count(a, u, u64_leading_zeros(u) as u32);
    lemma_popcount_bound64((u as nat) / 2);
}


/// Bit facts behind the bitwise laws on `i64` values.
proof fn bits64_logic(a: i64, b: i64)
    by (bit_vector)
    ensures
        a & b == b & a && a | b == b | a && a ^ b == b ^ a,
        a & 0 == 0 && a & -1i64 == a && a & a == a && a | 0 == a && a | -1i64 == -1i64 && a | a == a,
        a ^ a == 0 && a ^ 0 == a && a ^ -1i64 == -1 - a,
        (a & b) + (a | b) == a + b,
        a ^ b == (a | b) - (a & b),
{
}

/// Bit facts behind the shift laws on `i64` values.
proof fn bits64_shift(a: i64, u: u64)
    by (bit_vector)
    requires
        u == a as u64,
    ensures
        ((u << 0u32) as i64) == a && ((u >> 0u32) as i64) == a && (a >> 0u32) == a,
        (u << 1u32) == (2 * u) % 0x1_0000_0000_0000_0000,
        2 * (a >> 1u32) <= a < 2 * (a >> 1u32) + 2,
{
}

/// Bit facts behind the shift laws on `i64` values.
proof fn bits64_shift_half(a: i64, u: u64)
    by (bit_vector)
    requires
        u == a as u64,
    ensures
        (u >> 1u32) == u / 2,
{
}


/// Bit facts behind the shift laws on `i64` values.
#[verifier::rlimit(50)]
proof fn bits64_shift_step(a: i64, u: u64, k: u32)
    by (bit_vector)
    requires
        u == a as u64,
    ensures
        k < 63 ==> (((u << k) as i64) as u64) << 1u32 == u << ((k + 1) as u32),
        k < 63 ==> (((u >> k) as i64) as u64) >> 1u32 == u >> ((k + 1) as u32),
        k < 63 ==> (a >> k) >> 1u32 == a >> ((k + 1) as u32),
{
}


/// Bit facts behind the rotation laws on `i64` values.
proof fn bits64_rotate(a: i64, u: u64)
    by (bit_vector)
    requires
        u == a as u64,
    ensures
        ((u as i64) as u64) == u && (u as i64) == a,
        ((u << 1u32) | (u >> 63u32)) == (2 * u) % 0x1_0000_0000_0000_0000 + u / 0x8000_0000_0000_0000,
{
}

/// Bit facts behind the rotation laws on `i64` values.
proof fn bits64_rotate_right(a: i64, u: u64)
    by (bit_vector)
    requires
        u == a as u64,
    ensures
        ((u >> 1u32) | (u << 63u32)) == u / 2 + (u % 2) * 0x8000_0000_0000_0000,
{
}


/// Bit facts behind the rotation laws on `i64` values: a right rotation
/// undoes a left one.
#[verifier::rlimit(50)]
proof fn bits64_rotate_back(a: i64, u: u64, k: u32)
    by (bit_vector)
    requires
        u == a as u64,
    ensures
        ({
            let s = k % 64;
            let l = if s == 0 { u } else { (u << s) | (u >> ((64 - s) as u32)) };
            let back_l = if s == 0 { l } else { (l >> s) | (l << ((64 - s) as u32)) };
            &&& ((l as i64) as u64) == l
            &&& s == 0 ==> (l as i64) == a
            &&& back_l == u
        }),
{
}

/// Bit facts behind the rotation laws on `i64` values: a left rotation
/// undoes a right one.
#[verifier::rlimit(50)]
proof fn bits64_rotate_forth(a: i64, u: u64, k: u32)
    by (bit_vector)
    requires
        u == a as u64,
    ensures
        ({
            let s = k % 64;
            let r = if s == 0 { u } else { (u >> s) | (u << ((64 - s) as u32)) };
            let back_r = if s == 0 { r } else { (r << s) | (r >> ((64 - s) as u32)) };
            &&& ((r as i64) as u64) == r
            &&& s == 0 ==> (r as i64) == a
            &&& back_r == u
        }),
{
}

/// Bit facts behind the rotation laws on `i64` values.
#[verifier::rlimit(50)]
proof fn bits64_rotate_step(a: i64, u: u64, k: u32)
    by (bit_vector)
    requires
        u == a as u64,
    ensures
        k < 63 ==> ({
            let s1 = (k + 1) as u32;
            let once = if k == 0 { u } else { (u << k) | (u >> ((64 - k) as u32)) };
            ((once << 1u32) | (once >> 63u32)) == (u << s1) | (u >> ((64 - s1) as u32))
        }),
        k < 63 ==> ({
            let s1 = (k + 1) as u32;
            let once = if k == 0 { u } else { (u >> k) | (u << ((64 - k) as u32)) };
            ((once >> 1u32) | (once << 63u32)) == (u >> s1) | (u << ((64 - s1) as u32))
        }),
{
}


/// Bit facts behind the bit-count laws on `i64` values.
proof fn bits64_count(a: i64, u: u64, z: u32)
    by (bit_vector)
    requires
        u == a as u64,
    ensures
        z < 64 ==> ((u >> ((63 - z) as u64)) & 1 != 0 ==> (u >> ((63 - z) as u64)) & 1 == 1),
        (a == 0) == (u == 0),
        (((u >> 1u64) as i64) as u64) == (u >> 1u64) && (u >> 1u64) == u / 2,
        (a & 1) == (u % 2) as i64,
{
}

proof fn lemma_popcount_bound64(x: nat)
    requires
        x < 0x8000_0000_0000_0000,
    ensures
        popcount(x) < 64,
{
    lemma2_to64();
    lemma2_to64_rest();
    lemma_popcount_bits(x, 63);
}

/// Conversions between `i32` and `i64`: `extend_s` keeps the value,
/// `extend_u` gives the value read as unsigned, and `wrap` keeps the low 32
/// bits, so it undoes both extensions; `reinterpret` keeps the bits of a value
/// both ways.
pub proof fn lemma_i32_conversions(a: i32, c: i64, f: u32)
    ensures
        spec_unary_i32(Operation::I64ExtendSI32, a) matches Ok(ValueTypeProvider::I64(x)) && x == a,
        spec_unary_i32(Operation::I64ExtendUI32, a) matches Ok(ValueTypeProvider::I64(x)) && x == unsigned32(a),
        spec_unary_i64(Operation::I32WrapI64, c) matches Ok(ValueTypeProvider::I32(x)) && unsigned32(x) == (c as int)
            % 0x1_0000_0000,
        spec_unary_i64(Operation::I32WrapI64, a as i64) == Ok::<ValueTypeProvider, Trap>(ValueTypeProvider::I32(a)),
        spec_unary_i64(Operation::I32WrapI64, unsigned32(a) as i64) == Ok::<ValueTypeProvider, Trap>(
            ValueTypeProvider::I32(a),
        ),
        spec_unary_i32(Operation::F32ReinterpretI32, a) matches Ok(ValueTypeProvider::F32(x)) && x == unsigned32(a),
        spec_unary_f32(Operation::I32ReinterpretF32, f) matches Ok(ValueTypeProvider::I32(x)) && unsigned32(x) == f,
{
    lemma_unsigned32(a);
    lemma_u32_as_i32(f);
    bits64_low(c);
    bits32_convert(a, c);
    lemma_unsigned32(c as i32);
}


/// `i32.eqz` pushes 1 exactly for 0 and 0 otherwise, and agrees with `i32.eq`
/// against 0.
pub proof fn lemma_i32_eqz(a: i32)
    ensures
        (truth(spec_unary_i32(Operation::I32Eqz, a)) == 1) == (a == 0),
        0 <= truth(spec_unary_i32(Operation::I32Eqz, a)) <= 1,
        truth(spec_unary_i32(Operation::I32Eqz, a)) == test32(Operation::I32Eq, a, 0),
{
}

/// The `i64` tests compare the top operand `a` with the one below it, `b`, as
/// the `i32` tests do: each pushes 1 or 0; the signed forms by the values;
/// the unsigned forms, as this runtime has always computed them, by the low 32
/// bits of each value read as an unsigned number; the same laws of
/// negation, swapping and exclusion hold.
pub proof fn lemma_i64_tests(a: i64, b: i64)
    ensures
        0 <= test64(Operation::I64Eq, a, b) <= 1,
        0 <= test64(Operation::I64Ne, a, b) <= 1,
        0 <= test64(Operation::I64LtS, a, b) <= 1,
        0 <= test64(Operation::I64LtU, a, b) <= 1,
        0 <= test64(Operation::I64GtS, a, b) <= 1,
        0 <= test64(Operation::I64GtU, a, b) <= 1,
        0 <= test64(Operation::I64LeS, a, b) <= 1,
        0 <= test64(Operation::I64LeU, a, b) <= 1,
        0 <= test64(Operation::I64GeS, a, b) <= 1,
        0 <= test64(Operation::I64GeU, a, b) <= 1,
        (test64(Operation::I64Eq, a, b) == 1) == (a == b),
        (test64(Operation::I64Ne, a, b) == 1) == (a != b),
        (test64(Operation::I64LtS, a, b) == 1) == (a < b),
        (test64(Operation::I64GtS, a, b) == 1) == (a > b),
        (test64(Operation::I64LeS, a, b) == 1) == (a <= b),
        (test64(Operation::I64GeS, a, b) == 1) == (a >= b),
        (test64(Operation::I64LtU, a, b) == 1) == ((a as int) % 0x1_0000_0000 < (b as int) % 0x1_0000_0000),
        (test64(Operation::I64GtU, a, b) == 1) == ((a as int) % 0x1_0000_0000 > (b as int) % 0x1_0000_0000),
        (test64(Operation::I64LeU, a, b) == 1) == ((a as int) % 0x1_0000_0000 <= (b as int) % 0x1_0000_0000),
        (test64(Operation::I64GeU, a, b) == 1) == ((a as int) % 0x1_0000_0000 >= (b as int) % 0x1_0000_0000),
        test64(Operation::I64LtU, a, a) == 0,
        test64(Operation::I64GtU, a, a) == 0,
        test64(Operation::I64LtS, a, a) == 0,
        test64(Operation::I64GtS, a, a) == 0,
        test64(Operation::I64LeU, a, a) == 1,
        test64(Operation::I64GeU, a, a) == 1,
        test64(Operation::I64LeS, a, a) == 1,
        test64(Operation::I64GeS, a, a) == 1,
        test64(Operation::I64Eq, a, a) == 1,
        test64(Operation::I64Ne, a, a) == 0,
        test64(Operation::I64Eq, a, b) + test64(Operation::I64Ne, a, b) == 1,
        test64(Operation::I64LtU, a, b) + test64(Operation::I64GeU, a, b) == 1,
        test64(Operation::I64GtU, a, b) + test64(Operation::I64LeU, a, b) == 1,
        test64(Operation::I64LtS, a, b) + test64(Operation::I64GeS, a, b) == 1,
        test64(Operation::I64GtS, a, b) + test64(Operation::I64LeS, a, b) == 1,
        test64(Operation::I64LtU, a, b) == test64(Operation::I64GtU, b, a),
        test64(Operation::I64LeU, a, b) == test64(Operation::I64GeU, b, a),
        test64(Operation::I64LtS, a, b) == test64(Operation::I64GtS, b, a),
        test64(Operation::I64LeS, a, b) == test64(Operation::I64GeS, b, a),
        test64(Operation::I64LtS, a, b) + test64(Operation::I64Eq, a, b) + test64(Operation::I64GtS, a, b) == 1,
{
    assert((a as u32) as int == (a as int) % 0x1_0000_0000) by {
        bits64_low(a);
    }
    assert((b as u32) as int == (b as int) % 0x1_0000_0000) by {
        bits64_low(b);
    }
}


/// `i64.eqz` pushes 1 exactly for 0 and 0 otherwise.
pub proof fn lemma_i64_eqz(a: i64)
    ensures
        (truth(spec_unary_i64(Operation::I64Eqz, a)) == 1) == (a == 0),
        0 <= truth(spec_unary_i64(Operation::I64Eqz, a)) <= 1,
        truth(spec_unary_i64(Operation::I64Eqz, a)) == test64(Operation::I64Eq, a, 0),
{
}

/// The `f32` bits that `r` holds, or 0.
pub open spec fn thef32(r: Result<ValueTypeProvider, Trap>) -> u32 {
    match r {
        Ok(ValueTypeProvider::F32(y)) => y,
        _ => 0,
    }
}

/// A test of two `f32` values given by their bits, `a` on top of the stack.
pub open spec fn testf32(op: Operation, a: u32, b: u32) -> int {
    truth(spec_binary_f32(op, a, b))
}

/// The tests of `f32` values, held as their bits, with `a` on top of the stack
/// and `b` below: each pushes 1 or 0; where either is a NaN every test but
/// `ne` gives 0; a value that is no NaN equals itself; `ne` is the negation
/// of `eq`; swapping the operands turns `lt` into `gt` and `le` into `ge`; on
/// values that are no NaN exactly one of `lt`, `eq`, `gt` holds and `le` is
/// `lt` or `eq`; values without the sign bit order as their bits do, values
/// with it in the reverse order, and a value with it is never greater than one
/// without it; the two zeros are equal.
pub proof fn lemma_f32_tests(a: u32, b: u32)
    ensures
        0 <= testf32(Operation::F32Eq, a, b) <= 1,
        0 <= testf32(Operation::F32Ne, a, b) <= 1,
        0 <= testf32(Operation::F32Lt, a, b) <= 1,
        0 <= testf32(Operation::F32Gt, a, b) <= 1,
        0 <= testf32(Operation::F32Le, a, b) <= 1,
        0 <= testf32(Operation::F32Ge, a, b) <= 1,
        f32_is_nan(a) || f32_is_nan(b) ==> testf32(Operation::F32Eq, a, b) == 0 && testf32(Operation::F32Lt, a, b) == 0
            && testf32(Operation::F32Gt, a, b) == 0 && testf32(Operation::F32Le, a, b) == 0 && testf32(
            Operation::F32Ge,
            a,
            b,
        ) == 0 && testf32(Operation::F32Ne, a, b) == 1,
        !f32_is_nan(a) ==> testf32(Operation::F32Eq, a, a) == 1 && testf32(Operation::F32Le, a, a) == 1 && testf32(
            Operation::F32Lt,
            a,
            a,
        ) == 0,
        testf32(Operation::F32Eq, a, b) + testf32(Operation::F32Ne, a, b) == 1,
        testf32(Operation::F32Lt, a, b) == testf32(Operation::F32Gt, b, a),
        testf32(Operation::F32Le, a, b) == testf32(Operation::F32Ge, b, a),
        testf32(Operation::F32Eq, a, b) == testf32(Operation::F32Eq, b, a),
        !f32_is_nan(a) && !f32_is_nan(b) ==> testf32(Operation::F32Lt, a, b) + testf32(Operation::F32Eq, a, b)
            + testf32(Operation::F32Gt, a, b) == 1 && testf32(Operation::F32Le, a, b) == testf32(Operation::F32Lt, a, b)
            + testf32(Operation::F32Eq, a, b),
        !f32_is_nan(a) && !f32_is_nan(b) && a < 0x8000_0000 && b < 0x8000_0000 ==> (testf32(Operation::F32Lt, a, b) == 1)
            == (a < b) && (testf32(Operation::F32Eq, a, b) == 1) == (a == b),
        !f32_is_nan(a) && !f32_is_nan(b) && a >= 0x8000_0000 && b >= 0x8000_0000 ==> (testf32(Operation::F32Lt, a, b)
            == 1) == (a > b) && (testf32(Operation::F32Eq, a, b) == 1) == (a == b),
        !f32_is_nan(a) && !f32_is_nan(b) && a >= 0x8000_0000 && b < 0x8000_0000 ==> testf32(Operation::F32Gt, a, b)
            == 0,
        testf32(Operation::F32Eq, 0, 0x8000_0000) == 1,
{
}

/// `abs` clears the sign bit of an `f32` and `neg` flips it, both keeping the
/// other bits; `neg` twice gives the value back, and `abs` does not see the
/// sign that `neg` changes; reinterpreting keeps the bits both ways.
pub proof fn lemma_f32_sign(a: u32, i: i32)
    ensures
        spec_unary_f32(Operation::F32Abs, a) matches Ok(ValueTypeProvider::F32(x)) && x < 0x8000_0000 && x == a
            % 0x8000_0000,
        spec_unary_f32(Operation::F32Neg, a) matches Ok(ValueTypeProvider::F32(x)) && x % 0x8000_0000 == a % 0x8000_0000
            && (x >= 0x8000_0000) != (a >= 0x8000_0000),
        spec_unary_f32(Operation::F32Neg, thef32(spec_unary_f32(Operation::F32Neg, a))) == Ok::<ValueTypeProvider, Trap>(
            ValueTypeProvider::F32(a),
        ),
        spec_unary_f32(Operation::F32Abs, thef32(spec_unary_f32(Operation::F32Neg, a))) == spec_unary_f32(
            Operation::F32Abs,
            a,
        ),
        spec_unary_f32(Operation::I32ReinterpretF32, a) matches Ok(ValueTypeProvider::I32(y))
            && spec_unary_i32(Operation::F32ReinterpretI32, y) == Ok::<ValueTypeProvider, Trap>(ValueTypeProvider::F32(a)),
        spec_unary_i32(Operation::F32ReinterpretI32, i) matches Ok(ValueTypeProvider::F32(y))
            && spec_unary_f32(Operation::I32ReinterpretF32, y) == Ok::<ValueTypeProvider, Trap>(ValueTypeProvider::I32(i)),
{
    bits_f32_sign(a, i);
}


/// The `f64` bits that `r` holds, or 0.
pub open spec fn thef64(r: Result<ValueTypeProvider, Trap>) -> u64 {
    match r {
        Ok(ValueTypeProvider::F64(y)) => y,
        _ => 0,
    }
}

/// A test of two `f64` values given by their bits, `a` on top of the stack.
pub open spec fn testf64(op: Operation, a: u64, b: u64) -> int {
    truth(spec_binary_f64(op, a, b))
}

/// The tests of `f64` values, held as their bits, with `a` on top of the stack
/// and `b` below: each pushes 1 or 0; where either is a NaN every test but
/// `ne` gives 0; a value that is no NaN equals itself; `ne` is the negation
/// of `eq`; swapping the operands turns `lt` into `gt` and `le` into `ge`; on
/// values that are no NaN exactly one of `lt`, `eq`, `gt` holds and `le` is
/// `lt` or `eq`; values without the sign bit order as their bits do, values
/// with it in the reverse order, and a value with it is never greater than one
/// without it; the two zeros are equal.
pub proof fn lemma_f64_tests(a: u64, b: u64)
    ensures
        0 <= testf64(Operation::F64Eq, a, b) <= 1,
        0 <= testf64(Operation::F64Ne, a, b) <= 1,
        0 <= testf64(Operation::F64Lt, a, b) <= 1,
        0 <= testf64(Operation::F64Gt, a, b) <= 1,
        0 <= testf64(Operation::F64Le, a, b) <= 1,
        0 <= testf64(Operation::F64Ge, a, b) <= 1,
        f64_is_nan(a) || f64_is_nan(b) ==> testf64(Operation::F64Eq, a, b) == 0 && testf64(Operation::F64Lt, a, b) == 0
            && testf64(Operation::F64Gt, a, b) == 0 && testf64(Operation::F64Le, a, b) == 0 && testf64(
            Operation::F64Ge,
            a,
            b,
        ) == 0 && testf64(Operation::F64Ne, a, b) == 1,
        !f64_is_nan(a) ==> testf64(Operation::F64Eq, a, a) == 1 && testf64(Operation::F64Le, a, a) == 1 && testf64(
            Operation::F64Lt,
            a,
            a,
        ) == 0,
        testf64(Operation::F64Eq, a, b) + testf64(Operation::F64Ne, a, b) == 1,
        testf64(Operation::F64Lt, a, b) == testf64(Operation::F64Gt, b, a),
        testf64(Operation::F64Le, a, b) == testf64(Operation::F64Ge, b, a),
        testf64(Operation::F64Eq, a, b) == testf64(Operation::F64Eq, b, a),
        !f64_is_nan(a) && !f64_is_nan(b) ==> testf64(Operation::F64Lt, a, b) + testf64(Operation::F64Eq, a, b)
            + testf64(Operation::F64Gt, a, b) == 1 && testf64(Operation::F64Le, a, b) == testf64(Operation::F64Lt, a, b)
            + testf64(Operation::F64Eq, a, b),
        !f64_is_nan(a) && !f64_is_nan(b) && a < 0x8000_0000_0000_0000 && b < 0x8000_0000_0000_0000 ==> (testf64(Operation::F64Lt, a, b) == 1)
            == (a < b) && (testf64(Operation::F64Eq, a, b) == 1) == (a == b),
        !f64_is_nan(a) && !f64_is_nan(b) && a >= 0x8000_0000_0000_0000 && b >= 0x8000_0000_0000_0000 ==> (testf64(Operation::F64Lt, a, b)
            == 1) == (a > b) && (testf64(Operation::F64Eq, a, b) == 1) == (a == b),
        !f64_is_nan(a) && !f64_is_nan(b) && a >= 0x8000_0000_0000_0000 && b < 0x8000_0000_0000_0000 ==> testf64(Operation::F64Gt, a, b)
            == 0,
        testf64(Operation::F64Eq, 0, 0x8000_0000_0000_0000) == 1,
{
}

/// `abs` clears the sign bit of an `f64` and `neg` flips it, both keeping the
/// other bits; `neg` twice gives the value back, and `abs` does not see the
/// sign that `neg` changes; reinterpreting keeps the bits both ways.
pub proof fn lemma_f64_sign(a: u64, i: i64)
    ensures
        spec_unary_f64(Operation::F64Abs, a) matches Ok(ValueTypeProvider::F64(x)) && x < 0x8000_0000_0000_0000 && x == a
            % 0x8000_0000_0000_0000,
        spec_unary_f64(Operation::F64Neg, a) matches Ok(ValueTypeProvider::F64(x)) && x % 0x8000_0000_0000_0000 == a % 0x8000_0000_0000_0000
            && (x >= 0x8000_0000_0000_0000) != (a >= 0x8000_0000_0000_0000),
        spec_unary_f64(Operation::F64Neg, thef64(spec_unary_f64(Operation::F64Neg, a))) == Ok::<ValueTypeProvider, Trap>(
            ValueTypeProvider::F64(a),
        ),
        spec_unary_f64(Operation::F64Abs, thef64(spec_unary_f64(Operation::F64Neg, a))) == spec_unary_f64(
            Operation::F64Abs,
            a,
        ),
        spec_unary_f64(Operation::I64ReinterpretF64, a) matches Ok(ValueTypeProvider::I64(y))
            && spec_unary_i64(Operation::F64ReinterpretI64, y) == Ok::<ValueTypeProvider, Trap>(ValueTypeProvider::F64(a)),
        spec_unary_i64(Operation::F64ReinterpretI64, i) matches Ok(ValueTypeProvider::F64(y))
            && spec_unary_f64(Operation::I64ReinterpretF64, y) == Ok::<ValueTypeProvider, Trap>(ValueTypeProvider::I64(i)),
{
    bits_f64_sign(a, i);
}


} // verus!
