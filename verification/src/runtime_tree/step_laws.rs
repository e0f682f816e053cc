//! What single instructions do to a frame, stated over all frames.
use crate::parse_tree::language_types::MemoryImmediate;
use crate::parse_tree::language_types::Operation;
use crate::parse_tree::language_types::ValueType;
use crate::parser::utils::le_value;
use crate::runtime_tree::language_types::FrameView;
use crate::runtime_tree::language_types::Trap;
use crate::runtime_tree::language_types::ValueTypeProvider;
use crate::runtime_tree::numeric::binary_operand;
use crate::runtime_tree::numeric::spec_binary_i32;
use crate::runtime_tree::numeric::spec_binary_i64;
use crate::runtime_tree::step::load_immediate;
use crate::runtime_tree::step::store_immediate;
use crate::runtime_tree::language_types::type_of;
use crate::runtime_tree::memory::lemma_le_bytes_len;
use crate::runtime_tree::step::spec_step;
use vstd::arithmetic::power2::lemma2_to64;
use vstd::arithmetic::power2::lemma2_to64_rest;
use vstd::prelude::*;

verus! {

/// An instruction that takes two `i32` values pops the top one as its first
/// operand and the one below as its second, and pushes its result in their
/// place; the rest of the frame stays.
pub proof fn lemma_binary_i32_step(op: Operation, f: FrameView, s: Seq<ValueTypeProvider>, a: i32, b: i32)
    requires
        binary_operand(op) == Some(ValueType::I32),
        f.stack == s.push(ValueTypeProvider::I32(b)).push(ValueTypeProvider::I32(a)),
    ensures
        spec_step(op, f) == match spec_binary_i32(op, a, b) {
            Ok(r) => Ok(FrameView { stack: s.push(r), ..f }),
            Err(e) => Err::<FrameView, Trap>(e),
        },
{
    reveal(spec_step);
    assert(f.stack.drop_last() =~= s.push(ValueTypeProvider::I32(b)));
    assert(f.stack.drop_last().drop_last() =~= s);
}

/// An instruction that takes two `i64` values pops the top one as its first
/// operand and the one below as its second, and pushes its result in their
/// place; the rest of the frame stays.
pub proof fn lemma_binary_i64_step(op: Operation, f: FrameView, s: Seq<ValueTypeProvider>, a: i64, b: i64)
    requires
        binary_operand(op) == Some(ValueType::I64),
        f.stack == s.push(ValueTypeProvider::I64(b)).push(ValueTypeProvider::I64(a)),
    ensures
        spec_step(op, f) == match spec_binary_i64(op, a, b) {
            Ok(r) => Ok(FrameView { stack: s.push(r), ..f }),
            Err(e) => Err::<FrameView, Trap>(e),
        },
{
    reveal(spec_step);
    assert(f.stack.drop_last() =~= s.push(ValueTypeProvider::I64(b)));
    assert(f.stack.drop_last().drop_last() =~= s);
}

/// The two bytes at `a` as an unsigned little-endian number.
pub open spec fn bytes16(v: Seq<u8>, a: int) -> int {
    v[a] + 0x100 * v[a + 1]
}

/// The four bytes at `a` as an unsigned little-endian number.
pub open spec fn bytes32(v: Seq<u8>, a: int) -> int {
    bytes16(v, a) + 0x1_0000 * bytes16(v, a + 2)
}

/// The eight bytes at `a` as an unsigned little-endian number.
pub open spec fn bytes64(v: Seq<u8>, a: int) -> int {
    bytes32(v, a) + 0x1_0000_0000 * bytes32(v, a + 4)
}

/// The value that `x`, a number of `n` bytes, stands for in two's complement:
/// `x` less 2^(8n) where its top byte `top` has the high bit set.
pub open spec fn twos(x: int, top: u8, span: int) -> int {
    if top >= 0x80 {
        x - span
    } else {
        x
    }
}

proof fn lemma_le_value_front(s: Seq<u8>)
    requires
        s.len() > 0,
    ensures
        le_value(s) == s[0] + 256 * le_value(s.subrange(1, s.len() as int)),
{
    assert(s.drop_first() =~= s.subrange(1, s.len() as int));
}

/// The little-endian value of the first 1, 2, 4 and 8 of eight bytes.
proof fn lemma_le_value_window(w: Seq<u8>)
    requires
        w.len() == 8,
    ensures
        le_value(w.take(1)) == w[0],
        le_value(w.take(2)) == bytes16(w, 0),
        le_value(w.take(4)) == bytes32(w, 0),
        le_value(w.take(8)) == bytes64(w, 0),
{
    let t1 = w.take(1);
    lemma_le_value_front(t1);
    assert(t1.subrange(1, 1).len() == 0);
    let t2 = w.take(2);
    lemma_le_value_front(t2);
    lemma_le_value_front(t2.subrange(1, 2));
    assert(t2.subrange(1, 2).subrange(1, 1).len() == 0);
    let t4 = w.take(4);
    lemma_le_value_front(t4);
    let a1 = t4.subrange(1, 4);
    lemma_le_value_front(a1);
    let a2 = a1.subrange(1, 3);
    lemma_le_value_front(a2);
    let a3 = a2.subrange(1, 2);
    lemma_le_value_front(a3);
    assert(a3.subrange(1, 1).len() == 0);
    let t8 = w.take(8);
    assert(t8 =~= w);
    lemma_le_value_front(w);
    let b1 = w.subrange(1, 8);
    lemma_le_value_front(b1);
    let b2 = b1.subrange(1, 7);
    lemma_le_value_front(b2);
    let b3 = b2.subrange(1, 6);
    lemma_le_value_front(b3);
    let b4 = b3.subrange(1, 5);
    lemma_le_value_front(b4);
    let b5 = b4.subrange(1, 4);
    lemma_le_value_front(b5);
    let b6 = b5.subrange(1, 3);
    lemma_le_value_front(b6);
    let b7 = b6.subrange(1, 2);
    lemma_le_value_front(b7);
    assert(b7.subrange(1, 1).len() == 0);
}

/// The value a load pushes is read from the bytes of memory 0 at the address
/// that its immediate names, least significant first: `load8_u`, `load16_u`
/// and `load32_u` zero-extend the 1, 2 or 4 bytes there, so the value is
/// never negative; `load8_s`, `load16_s`, `load32_s` and the full-width loads
/// read them in two's complement; the float loads keep the bits. The load
/// pushes that one value and leaves the rest of the frame as it was.
pub proof fn lemma_load_step(op: Operation, m: MemoryImmediate, f: FrameView)
    requires
        load_immediate(op) == Some(m),
        f.memories.len() > 0,
        m.flags + m.offset <= u32::MAX,
        m.flags + m.offset + 8 <= f.memories[0].values.len(),
    ensures
        ({
            let v = f.memories[0].values;
            let a = m.flags + m.offset;
            &&& op is I32Load8U ==> spec_step(op, f) == Ok::<FrameView, Trap>(
                FrameView { stack: f.stack.push(ValueTypeProvider::I32(v[a] as i32)), ..f },
            )
            &&& op is I32Load8S ==> spec_step(op, f) == Ok::<FrameView, Trap>(
                FrameView { stack: f.stack.push(ValueTypeProvider::I32(twos(v[a] as int, v[a], 0x100) as i32)), ..f },
            )
            &&& op is I32Load16U ==> spec_step(op, f) == Ok::<FrameView, Trap>(
                FrameView { stack: f.stack.push(ValueTypeProvider::I32(bytes16(v, a) as i32)), ..f },
            )
            &&& op is I32Load16S ==> spec_step(op, f) == Ok::<FrameView, Trap>(
                FrameView {
                    stack: f.stack.push(ValueTypeProvider::I32(twos(bytes16(v, a), v[a + 1], 0x1_0000) as i32)),
                    ..f
                },
            )
            &&& op is I32Load ==> spec_step(op, f) == Ok::<FrameView, Trap>(
                FrameView {
                    stack: f.stack.push(ValueTypeProvider::I32(twos(bytes32(v, a), v[a + 3], 0x1_0000_0000) as i32)),
                    ..f
                },
            )
            &&& op is I64Load8U ==> spec_step(op, f) == Ok::<FrameView, Trap>(
                FrameView { stack: f.stack.push(ValueTypeProvider::I64(v[a] as i64)), ..f },
            )
            &&& op is I64Load8S ==> spec_step(op, f) == Ok::<FrameView, Trap>(
                FrameView { stack: f.stack.push(ValueTypeProvider::I64(twos(v[a] as int, v[a], 0x100) as i64)), ..f },
            )
            &&& op is I64Load16U ==> spec_step(op, f) == Ok::<FrameView, Trap>(
                FrameView { stack: f.stack.push(ValueTypeProvider::I64(bytes16(v, a) as i64)), ..f },
            )
            &&& op is I64Load16S ==> spec_step(op, f) == Ok::<FrameView, Trap>(
                FrameView {
                    stack: f.stack.push(ValueTypeProvider::I64(twos(bytes16(v, a), v[a + 1], 0x1_0000) as i64)),
                    ..f
                },
            )
            &&& op is I64Load32U ==> spec_step(op, f) == Ok::<FrameView, Trap>(
                FrameView { stack: f.stack.push(ValueTypeProvider::I64(bytes32(v, a) as i64)), ..f },
            )
            &&& op is I64Load32S ==> spec_step(op, f) == Ok::<FrameView, Trap>(
                FrameView {
                    stack: f.stack.push(ValueTypeProvider::I64(twos(bytes32(v, a), v[a + 3], 0x1_0000_0000) as i64)),
                    ..f
                },
            )
            &&& op is I64Load ==> spec_step(op, f) == Ok::<FrameView, Trap>(
                FrameView {
                    stack: f.stack.push(
                        ValueTypeProvider::I64(twos(bytes64(v, a), v[a + 7], 0x1_0000_0000_0000_0000) as i64),
                    ),
                    ..f
                },
            )
            &&& op is F32Load ==> spec_step(op, f) == Ok::<FrameView, Trap>(
                FrameView { stack: f.stack.push(ValueTypeProvider::F32(bytes32(v, a) as u32)), ..f },
            )
            &&& op is F64Load ==> spec_step(op, f) == Ok::<FrameView, Trap>(
                FrameView { stack: f.stack.push(ValueTypeProvider::F64(bytes64(v, a) as u64)), ..f },
            )
        }),
{
    reveal(spec_step);
    lemma2_to64();
    lemma2_to64_rest();
    let v = f.memories[0].values;
    let a = m.flags + m.offset;
    let w = v.subrange(a, a + 8);
    lemma_le_value_window(w);
    assert(w[0] == v[a] && w[1] == v[a + 1] && w[2] == v[a + 2] && w[3] == v[a + 3]);
    assert(w[4] == v[a + 4] && w[5] == v[a + 5] && w[6] == v[a + 6] && w[7] == v[a + 7]);
    assert(bytes16(w, 0) == bytes16(v, a));
    assert(bytes16(w, 2) == bytes16(v, a + 2));
    assert(bytes16(w, 4) == bytes16(v, a + 4));
    assert(bytes16(w, 6) == bytes16(v, a + 6));
    assert(bytes32(w, 0) == bytes32(v, a));
    assert(bytes32(w, 4) == bytes32(v, a + 4));
    assert(bytes64(w, 0) == bytes64(v, a));
    assert(w.take(1).len() == 1 && w.take(2).len() == 2 && w.take(4).len() == 4 && w.take(8).len() == 8);
}


/// The type of value a store writes, and how many bytes of it.
pub open spec fn store_shape(op: Operation) -> Option<(ValueType, int)> {
    match op {
        Operation::I32Store(_) => Some((ValueType::I32, 4)),
        Operation::I64Store(_) => Some((ValueType::I64, 8)),
        Operation::F32Store(_) => Some((ValueType::F32, 4)),
        Operation::F64Store(_) => Some((ValueType::F64, 8)),
        Operation::I32Store8(_) => Some((ValueType::I32, 1)),
        Operation::I32Store16(_) => Some((ValueType::I32, 2)),
        Operation::I64Store8(_) => Some((ValueType::I64, 1)),
        Operation::I64Store16(_) => Some((ValueType::I64, 2)),
        Operation::I64Store32(_) => Some((ValueType::I64, 4)),
        _ => None,
    }
}

/// A store pops the value on top of the stack and writes it into memory 0 at
/// the address its immediate names: with a value of its type it succeeds, the
/// stack loses that value, memory 0 keeps its length and every byte outside
/// the 1, 2, 4 or 8 bytes it writes, and nothing else of the frame changes; a
/// value of another type stops it with `TypeMismatch`, and an empty stack with
/// `StackEmpty`.
pub proof fn lemma_store_step(op: Operation, m: MemoryImmediate, f: FrameView)
    requires
        store_immediate(op) == Some(m),
        f.memories.len() > 0,
        m.flags + m.offset <= u32::MAX,
        m.flags + m.offset + 8 <= f.memories[0].values.len(),
    ensures
        ({
            let v = f.memories[0].values;
            let a = m.flags + m.offset;
            let (t, w) = store_shape(op)->0;
            &&& f.stack.len() == 0 ==> spec_step(op, f) == Err::<FrameView, Trap>(Trap::StackEmpty)
            &&& f.stack.len() > 0 && type_of(f.stack.last()) != t ==> spec_step(op, f) == Err::<FrameView, Trap>(
                Trap::TypeMismatch,
            )
            &&& f.stack.len() > 0 && type_of(f.stack.last()) == t ==> (spec_step(op, f) matches Ok(g) && g == FrameView {
                stack: f.stack.drop_last(),
                memories: g.memories,
                ..f
            } && g.memories.len() == f.memories.len() && (forall|j: int|
                0 <= j < f.memories.len() && j != 0 ==> g.memories[j] == f.memories[j]) && g.memories[0].limits
                == f.memories[0].limits && g.memories[0].values.len() == v.len() && (forall|i: int|
                0 <= i < v.len() && !(a <= i < a + w) ==> g.memories[0].values[i] == v[i]))
        }),
{
    reveal(spec_step);
    let v = f.memories[0].values;
    let a = m.flags + m.offset;
    if f.stack.len() > 0 {
        let x = f.stack.last();
        match (op, x) {
            (Operation::I32Store(_), ValueTypeProvider::I32(y)) => lemma_le_bytes_len(y as int, 4),
            (Operation::I64Store(_), ValueTypeProvider::I64(y)) => lemma_le_bytes_len(y as int, 8),
            (Operation::F32Store(_), ValueTypeProvider::F32(y)) => lemma_le_bytes_len(y as int, 4),
            (Operation::F64Store(_), ValueTypeProvider::F64(y)) => lemma_le_bytes_len((y as i64) as int, 8),
            (Operation::I32Store8(_), ValueTypeProvider::I32(y)) => lemma_le_bytes_len((y as i8) as int, 1),
            (Operation::I32Store16(_), ValueTypeProvider::I32(y)) => lemma_le_bytes_len((y as i16) as int, 2),
            (Operation::I64Store8(_), ValueTypeProvider::I64(y)) => lemma_le_bytes_len((y as i8) as int, 1),
            (Operation::I64Store16(_), ValueTypeProvider::I64(y)) => lemma_le_bytes_len((y as i16) as int, 2),
            (Operation::I64Store32(_), ValueTypeProvider::I64(y)) => lemma_le_bytes_len((y as i32) as int, 4),
            _ => {},
        }
    }
}

/// `current_memory` pushes the length of memory 0 modulo the page size, as
/// this runtime has always counted it, and changes nothing else;
/// `grow_memory` pushes the same number, appends a page of zero bytes to
/// memory 0 and keeps every byte it had; so `current_memory` after
/// `grow_memory` pushes what it pushed before. Without a memory both stop
/// with `NoMemory`.
pub proof fn lemma_memory_size_step(op: Operation, f: FrameView)
    requires
        op is CurrentMemory || op is GrowMemory,
    ensures
        f.memories.len() == 0 ==> spec_step(op, f) == Err::<FrameView, Trap>(Trap::NoMemory),
        f.memories.len() > 0 && op is CurrentMemory ==> spec_step(op, f) == Ok::<FrameView, Trap>(
            FrameView {
                stack: f.stack.push(ValueTypeProvider::I32((f.memories[0].values.len() % 0x1_0000) as i32)),
                ..f
            },
        ),
        f.memories.len() > 0 && op is GrowMemory && f.memories[0].values.len() + 0x1_0000 <= usize::MAX ==> (spec_step(
            op,
            f,
        ) matches Ok(g) && g.stack == f.stack.push(ValueTypeProvider::I32((f.memories[0].values.len() % 0x1_0000) as i32))
            && g.memories.len() == f.memories.len() && g.memories[0].values.len() == f.memories[0].values.len() + 0x1_0000
            && g.memories[0].values.take(f.memories[0].values.len() as int) == f.memories[0].values && (forall|i: int|
            f.memories[0].values.len() <= i < g.memories[0].values.len() ==> g.memories[0].values[i] == 0) && spec_step(
            Operation::CurrentMemory(false),
            g,
        ) == Ok::<FrameView, Trap>(
            FrameView {
                stack: g.stack.push(ValueTypeProvider::I32((f.memories[0].values.len() % 0x1_0000) as i32)),
                ..g
            },
        )),
{
    reveal(spec_step);
    if f.memories.len() > 0 && op is GrowMemory && f.memories[0].values.len() + 0x1_0000 <= usize::MAX {
        let g = spec_step(op, f)->Ok_0;
        let n = f.memories[0].values.len();
        assert(g.memories[0].values.take(n as int) =~= f.memories[0].values);
        assert((n + 0x1_0000) % 0x1_0000 == n % 0x1_0000);
    }
}

} // verus!
