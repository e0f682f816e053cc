//! Running one instruction that does not change the flow of control.
use crate::parse_tree::language_types::MemoryImmediate;
use crate::parse_tree::language_types::Operation;
use crate::parse_tree::language_types::ValueType;
use crate::parse_tree::memory::spec_size;
use crate::parse_tree::memory::Memory;
use crate::parse_tree::memory::MemoryView;
use crate::parse_tree::memory::WASM_PAGE_SIZE;
use crate::parser::utils::le_read_u32;
use crate::parser::utils::le_read_u64;
use crate::parser::utils::le_value;
use crate::runtime_tree::language_types::type_of;
use crate::runtime_tree::language_types::FrameView;
use crate::runtime_tree::language_types::StackFrame;
use crate::runtime_tree::language_types::Trap;
use crate::runtime_tree::language_types::ValueTypeProvider;
use crate::runtime_tree::memory::le_bytes;
use crate::runtime_tree::memory::le_int_bytes;
use crate::runtime_tree::memory::le_read_int;
use crate::runtime_tree::memory::le_read_uint;
use crate::runtime_tree::memory::le_signed;
use crate::runtime_tree::memory::lemma_le_bytes_len;
use crate::runtime_tree::memory::lemma_le_bytes_signed;
use crate::runtime_tree::memory::lemma_le_bytes_value;
use vstd::arithmetic::power2::lemma2_to64;
use vstd::arithmetic::power2::lemma2_to64_rest;
use vstd::arithmetic::power2::pow2;
use vstd::arithmetic::div_mod::lemma_fundamental_div_mod_converse;
use crate::runtime_tree::numeric::binary;
use crate::runtime_tree::numeric::binary_operand;
use crate::runtime_tree::numeric::binary_operand_of;
use crate::runtime_tree::numeric::spec_binary;
use crate::runtime_tree::numeric::spec_unary;
use crate::runtime_tree::numeric::unary;
use crate::runtime_tree::numeric::unary_operand;
use crate::runtime_tree::numeric::unary_operand_of;
use crate::runtime_tree::placeholder_memory;
use vstd::prelude::*;

verus! {

/// The stack after an instruction that takes one value of type `t`: the top is
/// popped; a value of another type is dropped and nothing is pushed.
pub open spec fn spec_apply_unary(op: Operation, t: ValueType, stack: Seq<ValueTypeProvider>) -> Result<Seq<ValueTypeProvider>, Trap> {
    if stack.len() == 0 {
        Ok(stack)
    } else {
        let a = stack.last();
        let rest = stack.drop_last();
        if type_of(a) != t {
            Ok(rest)
        } else {
            match spec_unary(op, a) {
                Ok(r) => Ok(rest.push(r)),
                Err(e) => Err(e),
            }
        }
    }
}

/// The stack after an instruction that takes two values of type `t`: the top is
/// popped, and, if it has type `t`, the value below it; if either has another
/// type, what was popped is dropped and nothing is pushed.
pub open spec fn spec_apply_binary(op: Operation, t: ValueType, stack: Seq<ValueTypeProvider>) -> Result<Seq<ValueTypeProvider>, Trap> {
    if stack.len() == 0 {
        Ok(stack)
    } else {
        let a = stack.last();
        let s1 = stack.drop_last();
        if type_of(a) != t || s1.len() == 0 {
            Ok(s1)
        } else {
            let b = s1.last();
            let s2 = s1.drop_last();
            if type_of(b) != t {
                Ok(s2)
            } else {
                match spec_binary(op, a, b) {
                    Ok(r) => Ok(s2.push(r)),
                    Err(e) => Err(e),
                }
            }
        }
    }
}

/// The address that a memory immediate names: its flags plus its offset, which
/// must fit in 32 bits.
pub open spec fn effective_address(m: MemoryImmediate) -> Result<int, Trap> {
    if m.flags + m.offset > u32::MAX {
        Err(Trap::IntegerOverflow)
    } else {
        Ok(m.flags + m.offset)
    }
}

/// The eight bytes of memory 0 at `addr`; every access needs all eight.
pub open spec fn spec_window(memories: Seq<MemoryView>, addr: int) -> Result<Seq<u8>, Trap> {
    if memories.len() == 0 {
        Err(Trap::NoMemory)
    } else if addr + 8 > memories[0].values.len() {
        Err(Trap::MemoryOutOfBounds)
    } else {
        Ok(memories[0].values.subrange(addr, addr + 8))
    }
}

/// The memory immediate of a load instruction.
pub open spec fn load_immediate(op: Operation) -> Option<MemoryImmediate> {
    match op {
        Operation::I32Load(m) => Some(m),
        Operation::I64Load(m) => Some(m),
        Operation::F32Load(m) => Some(m),
        Operation::F64Load(m) => Some(m),
        Operation::I32Load8S(m) => Some(m),
        Operation::I32Load8U(m) => Some(m),
        Operation::I32Load16S(m) => Some(m),
        Operation::I32Load16U(m) => Some(m),
        Operation::I64Load8S(m) => Some(m),
        Operation::I64Load8U(m) => Some(m),
        Operation::I64Load16S(m) => Some(m),
        Operation::I64Load16U(m) => Some(m),
        Operation::I64Load32S(m) => Some(m),
        Operation::I64Load32U(m) => Some(m),
        _ => None,
    }
}

/// The memory immediate of a store instruction.
pub open spec fn store_immediate(op: Operation) -> Option<MemoryImmediate> {
    match op {
        Operation::I32Store(m) => Some(m),
        Operation::I64Store(m) => Some(m),
        Operation::F32Store(m) => Some(m),
        Operation::F64Store(m) => Some(m),
        Operation::I32Store8(m) => Some(m),
        Operation::I32Store16(m) => Some(m),
        Operation::I64Store8(m) => Some(m),
        Operation::I64Store16(m) => Some(m),
        Operation::I64Store32(m) => Some(m),
        _ => None,
    }
}

/// The value that a load instruction reads from the eight bytes `w`.
pub open spec fn spec_loaded(op: Operation, w: Seq<u8>) -> ValueTypeProvider {
    match op {
        Operation::I32Load(_) => ValueTypeProvider::I32(le_signed(w.take(4)) as i32),
        Operation::I64Load(_) => ValueTypeProvider::I64(le_signed(w.take(8)) as i64),
        Operation::F32Load(_) => ValueTypeProvider::F32(le_value(w.take(4)) as u32),
        Operation::F64Load(_) => ValueTypeProvider::F64(le_value(w.take(8)) as u64),
        Operation::I32Load8S(_) => ValueTypeProvider::I32(le_signed(w.take(1)) as i32),
        Operation::I32Load8U(_) => ValueTypeProvider::I32(le_value(w.take(1)) as i32),
        Operation::I32Load16S(_) => ValueTypeProvider::I32(le_signed(w.take(2)) as i32),
        Operation::I32Load16U(_) => ValueTypeProvider::I32(le_value(w.take(2)) as i32),
        Operation::I64Load8S(_) => ValueTypeProvider::I64(le_signed(w.take(1)) as i64),
        Operation::I64Load8U(_) => ValueTypeProvider::I64(le_value(w.take(1)) as i64),
        Operation::I64Load16S(_) => ValueTypeProvider::I64(le_signed(w.take(2)) as i64),
        Operation::I64Load16U(_) => ValueTypeProvider::I64(le_value(w.take(2)) as i64),
        Operation::I64Load32S(_) => ValueTypeProvider::I64(le_signed(w.take(4)) as i64),
        Operation::I64Load32U(_) => ValueTypeProvider::I64(le_value(w.take(4)) as i64),
        _ => ValueTypeProvider::I32(0),
    }
}

/// The bytes that a store instruction writes for the value `v`, or why it cannot.
pub open spec fn spec_stored_bytes(op: Operation, v: ValueTypeProvider) -> Result<Seq<u8>, Trap> {
    match (op, v) {
        (Operation::I32Store(_), ValueTypeProvider::I32(x)) => Ok(le_bytes(x as int, 4)),
        (Operation::I64Store(_), ValueTypeProvider::I64(x)) => Ok(le_bytes(x as int, 8)),
        (Operation::F32Store(_), ValueTypeProvider::F32(x)) => Ok(le_bytes(x as int, 4)),
        (Operation::F64Store(_), ValueTypeProvider::F64(x)) => Ok(le_bytes((x as i64) as int, 8)),
        (Operation::I32Store8(_), ValueTypeProvider::I32(x)) => Ok(le_bytes((x as i8) as int, 1)),
        (Operation::I32Store16(_), ValueTypeProvider::I32(x)) => Ok(le_bytes((x as i16) as int, 2)),
        (Operation::I64Store8(_), ValueTypeProvider::I64(x)) => Ok(le_bytes((x as i8) as int, 1)),
        (Operation::I64Store16(_), ValueTypeProvider::I64(x)) => Ok(le_bytes((x as i16) as int, 2)),
        (Operation::I64Store32(_), ValueTypeProvider::I64(x)) => Ok(le_bytes((x as i32) as int, 4)),
        _ => Err(Trap::TypeMismatch),
    }
}

/// A load: the address, the eight bytes there, and the value read from them
/// pushed.
pub open spec fn spec_load(op: Operation, m: MemoryImmediate, f: FrameView) -> Result<FrameView, Trap> {
    match effective_address(m) {
        Err(e) => Err(e),
        Ok(addr) => match spec_window(f.memories, addr) {
            Err(e) => Err(e),
            Ok(w) => Ok(FrameView { stack: f.stack.push(spec_loaded(op, w)), ..f }),
        },
    }
}

/// A store: the value popped, the bytes for it, the address, and the bytes
/// written there, with eight bytes available from the address on.
pub open spec fn spec_store(op: Operation, m: MemoryImmediate, f: FrameView) -> Result<FrameView, Trap> {
    if f.stack.len() == 0 {
        Err(Trap::StackEmpty)
    } else {
        match spec_stored_bytes(op, f.stack.last()) {
            Err(e) => Err(e),
            Ok(bytes) => match effective_address(m) {
                Err(e) => Err(e),
                Ok(addr) => match spec_window(f.memories, addr) {
                    Err(e) => Err(e),
                    Ok(_) => Ok(
                        FrameView {
                            stack: f.stack.drop_last(),
                            memories: f.memories.update(
                                0,
                                MemoryView {
                                    limits: f.memories[0].limits,
                                    values: f.memories[0].values.take(addr) + bytes + f.memories[0].values.skip(
                                        addr + bytes.len(),
                                    ),
                                },
                            ),
                            ..f
                        },
                    ),
                },
            },
        }
    }
}

/// `select`: the top `a`, then `b`, which must have `a`'s type, then an `i32`
/// condition; `a` is pushed back where the condition is not zero, else `b`.
pub open spec fn spec_select(f: FrameView) -> Result<FrameView, Trap> {
    let s = f.stack;
    if s.len() < 2 {
        Err(Trap::StackEmpty)
    } else if type_of(s[s.len() - 1]) != type_of(s[s.len() - 2]) {
        Err(Trap::TypeMismatch)
    } else if s.len() < 3 {
        Err(Trap::StackEmpty)
    } else {
        let a = s[s.len() - 1];
        let b = s[s.len() - 2];
        match s[s.len() - 3] {
            ValueTypeProvider::I32(c) => Ok(
                FrameView { stack: s.subrange(0, s.len() - 3).push(if c != 0 { a } else { b }), ..f },
            ),
            _ => Err(Trap::TypeMismatch),
        }
    }
}

/// The variables after the top of the stack is stored into variable `i`, which
/// must exist and hold a value of the same type.
pub open spec fn spec_set_variable(vars: Seq<ValueTypeProvider>, i: int, v: ValueTypeProvider, missing: Trap) -> Result<
    Seq<ValueTypeProvider>,
    Trap,
> {
    if i >= vars.len() {
        Err(missing)
    } else if type_of(vars[i]) != type_of(v) {
        Err(Trap::TypeMismatch)
    } else {
        Ok(vars.update(i, v))
    }
}

/// An instruction that uses variables, constants or the memory's size, or does
/// nothing.
pub open spec fn spec_simple_step(op: Operation, f: FrameView) -> Result<FrameView, Trap> {
    match op {
        Operation::Nop => Ok(f),
        Operation::Unreachable => Err(Trap::Unreachable),
        Operation::Drop => Ok(
            FrameView {
                stack: if f.stack.len() == 0 {
                    f.stack
                } else {
                    f.stack.drop_last()
                },
                ..f
            },
        ),
        Operation::Select => spec_select(f),
        Operation::GetLocal(i) => if i < f.locals.len() {
            Ok(FrameView { stack: f.stack.push(f.locals[i as int]), ..f })
        } else {
            Err(Trap::NoSuchLocal)
        },
        Operation::SetLocal(i) => if f.stack.len() == 0 {
            Err(Trap::StackEmpty)
        } else {
            match spec_set_variable(f.locals, i as int, f.stack.last(), Trap::NoSuchLocal) {
                Ok(locals) => Ok(FrameView { locals, stack: f.stack.drop_last(), ..f }),
                Err(e) => Err(e),
            }
        },
        Operation::TeeLocal(i) => if f.stack.len() == 0 {
            Err(Trap::StackEmpty)
        } else {
            match spec_set_variable(f.locals, i as int, f.stack.last(), Trap::NoSuchLocal) {
                Ok(locals) => Ok(FrameView { locals, ..f }),
                Err(e) => Err(e),
            }
        },
        Operation::GetGlobal(i) => if i < f.globals.len() {
            Ok(FrameView { stack: f.stack.push(f.globals[i as int]), ..f })
        } else {
            Err(Trap::NoSuchGlobal)
        },
        Operation::SetGlobal(i) => if f.stack.len() == 0 {
            Err(Trap::StackEmpty)
        } else {
            match spec_set_variable(f.globals, i as int, f.stack.last(), Trap::NoSuchGlobal) {
                Ok(globals) => Ok(FrameView { globals, stack: f.stack.drop_last(), ..f }),
                Err(e) => Err(e),
            }
        },
        Operation::CurrentMemory(_) => if f.memories.len() == 0 {
            Err(Trap::NoMemory)
        } else {
            Ok(FrameView { stack: f.stack.push(ValueTypeProvider::I32(spec_size(f.memories[0].values.len()) as i32)), ..f })
        },
        Operation::GrowMemory(_) => if f.memories.len() == 0 {
            Err(Trap::NoMemory)
        } else if f.memories[0].values.len() + WASM_PAGE_SIZE > usize::MAX {
            Err(Trap::MemoryTooLarge)
        } else {
            Ok(
                FrameView {
                    stack: f.stack.push(ValueTypeProvider::I32(spec_size(f.memories[0].values.len()) as i32)),
                    memories: f.memories.update(
                        0,
                        MemoryView {
                            limits: f.memories[0].limits,
                            values: f.memories[0].values + Seq::new(WASM_PAGE_SIZE as nat, |i: int| 0u8),
                        },
                    ),
                    ..f
                },
            )
        },
        Operation::I32Const(v) => Ok(FrameView { stack: f.stack.push(ValueTypeProvider::I32(v)), ..f }),
        Operation::I64Const(v) => Ok(FrameView { stack: f.stack.push(ValueTypeProvider::I64(v)), ..f }),
        Operation::F32Const(v) => Ok(FrameView { stack: f.stack.push(ValueTypeProvider::F32(v)), ..f }),
        Operation::F64Const(v) => Ok(FrameView { stack: f.stack.push(ValueTypeProvider::F64(v)), ..f }),
                        _ => Err(Trap::Unstructured),
    }
}

/// One instruction that does not change the flow of control, run on `f`.
#[verifier::opaque]
pub open spec fn spec_step(op: Operation, f: FrameView) -> Result<FrameView, Trap> {
    if let Some(t) = unary_operand(op) {
        match spec_apply_unary(op, t, f.stack) {
            Ok(stack) => Ok(FrameView { stack, ..f }),
            Err(e) => Err(e),
        }
    } else if let Some(t) = binary_operand(op) {
        match spec_apply_binary(op, t, f.stack) {
            Ok(stack) => Ok(FrameView { stack, ..f }),
            Err(e) => Err(e),
        }
    } else if let Some(m) = load_immediate(op) {
        spec_load(op, m, f)
    } else if let Some(m) = store_immediate(op) {
        spec_store(op, m, f)
    } else {
        spec_simple_step(op, f)
    }
}

/// The load that reads back, at the same immediate, what a store writes.
pub open spec fn reading_load(store: Operation) -> Option<Operation> {
    match store {
        Operation::I32Store(m) => Some(Operation::I32Load(m)),
        Operation::I64Store(m) => Some(Operation::I64Load(m)),
        Operation::F32Store(m) => Some(Operation::F32Load(m)),
        Operation::F64Store(m) => Some(Operation::F64Load(m)),
        Operation::I32Store8(m) => Some(Operation::I32Load8S(m)),
        Operation::I32Store16(m) => Some(Operation::I32Load16S(m)),
        Operation::I64Store8(m) => Some(Operation::I64Load8S(m)),
        Operation::I64Store16(m) => Some(Operation::I64Load16S(m)),
        Operation::I64Store32(m) => Some(Operation::I64Load32S(m)),
        _ => None,
    }
}

/// What that load reads back of a stored value: the value itself, or, after a
/// narrow store, its low bytes sign-extended.
pub open spec fn read_back(store: Operation, v: ValueTypeProvider) -> ValueTypeProvider {
    match (store, v) {
        (Operation::I32Store8(_), ValueTypeProvider::I32(x)) => ValueTypeProvider::I32((x as i8) as i32),
        (Operation::I32Store16(_), ValueTypeProvider::I32(x)) => ValueTypeProvider::I32((x as i16) as i32),
        (Operation::I64Store8(_), ValueTypeProvider::I64(x)) => ValueTypeProvider::I64((x as i8) as i64),
        (Operation::I64Store16(_), ValueTypeProvider::I64(x)) => ValueTypeProvider::I64((x as i16) as i64),
        (Operation::I64Store32(_), ValueTypeProvider::I64(x)) => ValueTypeProvider::I64((x as i32) as i64),
        _ => v,
    }
}

/// Bytes written at `addr` are the first bytes of the window there, and the
/// memory keeps its length.
proof fn lemma_written_window(old_values: Seq<u8>, addr: int, bytes: Seq<u8>)
    requires
        0 <= addr,
        addr + 8 <= old_values.len(),
        bytes.len() <= 8,
    ensures
        ({
            let new_values = old_values.take(addr) + bytes + old_values.skip(addr + bytes.len());
            &&& new_values.len() == old_values.len()
            &&& new_values.subrange(addr, addr + 8).take(bytes.len() as int) == bytes
        }),
{
    let new_values = old_values.take(addr) + bytes + old_values.skip(addr + bytes.len());
    assert(new_values.subrange(addr, addr + 8).take(bytes.len() as int) =~= bytes);
}

/// The value that a load reads from bytes that a store wrote for `v`.
proof fn lemma_read_back_bytes(store: Operation, load: Operation, v: ValueTypeProvider, w: Seq<u8>)
    requires
        reading_load(store) == Some(load),
        spec_stored_bytes(store, v) matches Ok(bytes) && w.len() == 8 && w.take(bytes.len() as int) == bytes,
    ensures
        spec_loaded(load, w) == read_back(store, v),
{
    lemma2_to64();
    lemma2_to64_rest();
    match (store, v) {
        (Operation::I32Store(_), ValueTypeProvider::I32(x)) => {
            lemma_le_bytes_len(x as int, 4);
            lemma_le_bytes_signed(x as int, 4);
        },
        (Operation::I64Store(_), ValueTypeProvider::I64(x)) => {
            lemma_le_bytes_len(x as int, 8);
            lemma_le_bytes_signed(x as int, 8);
        },
        (Operation::F32Store(_), ValueTypeProvider::F32(x)) => {
            lemma_le_bytes_len(x as int, 4);
            lemma_le_bytes_value(x as int, 4);
            lemma_fundamental_div_mod_converse(x as int, pow2(32) as int, 0, x as int);
        },
        (Operation::F64Store(_), ValueTypeProvider::F64(x)) => {
            let n = (x as i64) as int;
            lemma_le_bytes_len(n, 8);
            lemma_le_bytes_value(n, 8);
            assert(((x as i64) < 0 ==> (x as i64) + 0x10000000000000000 == x) && ((x as i64) >= 0 ==> (x as i64)
                == x)) by (bit_vector);
            if n >= 0 {
                lemma_fundamental_div_mod_converse(n, pow2(64) as int, 0, x as int);
            } else {
                lemma_fundamental_div_mod_converse(n, pow2(64) as int, -1, x as int);
            }
        },
        (Operation::I32Store8(_), ValueTypeProvider::I32(x)) => {
            lemma_le_bytes_len((x as i8) as int, 1);
            lemma_le_bytes_signed((x as i8) as int, 1);
        },
        (Operation::I32Store16(_), ValueTypeProvider::I32(x)) => {
            lemma_le_bytes_len((x as i16) as int, 2);
            lemma_le_bytes_signed((x as i16) as int, 2);
        },
        (Operation::I64Store8(_), ValueTypeProvider::I64(x)) => {
            lemma_le_bytes_len((x as i8) as int, 1);
            lemma_le_bytes_signed((x as i8) as int, 1);
        },
        (Operation::I64Store16(_), ValueTypeProvider::I64(x)) => {
            lemma_le_bytes_len((x as i16) as int, 2);
            lemma_le_bytes_signed((x as i16) as int, 2);
        },
        (Operation::I64Store32(_), ValueTypeProvider::I64(x)) => {
            lemma_le_bytes_len((x as i32) as int, 4);
            lemma_le_bytes_signed((x as i32) as int, 4);
        },
        _ => {},
    }
}

/// A load after a store at the same immediate reads back the stored value (for
/// a narrow store, its low bytes sign-extended), and leaves the rest of the
/// frame as the store left it.
pub proof fn lemma_store_then_load(store: Operation, f: FrameView)
    ensures
        match (reading_load(store), spec_step(store, f)) {
            (Some(load), Ok(g)) => spec_step(load, g) == Ok::<FrameView, Trap>(
                FrameView { stack: g.stack.push(read_back(store, f.stack.last())), ..g },
            ),
            _ => true,
        },
{
    reveal(spec_step);
    if let Some(load) = reading_load(store) {
        if let Ok(g) = spec_step(store, f) {
            let m = store_immediate(store)->0;
            assert(load_immediate(load) == Some(m));
            let v = f.stack.last();
            let bytes = spec_stored_bytes(store, v)->Ok_0;
            let addr = effective_address(m)->Ok_0;
            assert(bytes.len() <= 8) by {
                match (store, v) {
                    (Operation::I32Store(_), ValueTypeProvider::I32(x)) => lemma_le_bytes_len(x as int, 4),
                    (Operation::I64Store(_), ValueTypeProvider::I64(x)) => lemma_le_bytes_len(x as int, 8),
                    (Operation::F32Store(_), ValueTypeProvider::F32(x)) => lemma_le_bytes_len(x as int, 4),
                    (Operation::F64Store(_), ValueTypeProvider::F64(x)) => lemma_le_bytes_len((x as i64) as int, 8),
                    (Operation::I32Store8(_), ValueTypeProvider::I32(x)) => lemma_le_bytes_len((x as i8) as int, 1),
                    (Operation::I32Store16(_), ValueTypeProvider::I32(x)) => lemma_le_bytes_len((x as i16) as int, 2),
                    (Operation::I64Store8(_), ValueTypeProvider::I64(x)) => lemma_le_bytes_len((x as i8) as int, 1),
                    (Operation::I64Store16(_), ValueTypeProvider::I64(x)) => lemma_le_bytes_len((x as i16) as int, 2),
                    (Operation::I64Store32(_), ValueTypeProvider::I64(x)) => lemma_le_bytes_len((x as i32) as int, 4),
                    _ => {},
                }
            }
            lemma_written_window(f.memories[0].values, addr, bytes);
            let w = g.memories[0].values.subrange(addr, addr + 8);
            lemma_read_back_bytes(store, load, v, w);
        }
    }
}

/// Whether a step left the frame as the spec says.
pub open spec fn stepped(res: Result<(), Trap>, before: StackFrame, after: StackFrame, expected: Result<FrameView, Trap>) -> bool {
    match res {
        Ok(()) => expected == Ok::<FrameView, Trap>(after@),
        Err(e) => expected == Err::<FrameView, Trap>(e),
    }
}

fn apply_unary(op: &Operation, t: ValueType, stack: &mut Vec<ValueTypeProvider>) -> (res: Result<(), Trap>)
    ensures
        match res {
            Ok(()) => spec_apply_unary(*op, t, old(stack)@) == Ok::<Seq<ValueTypeProvider>, Trap>(final(stack)@),
            Err(e) => spec_apply_unary(*op, t, old(stack)@) == Err::<Seq<ValueTypeProvider>, Trap>(e),
        },
{
    match stack.pop() {
        None => Ok(()),
        Some(a) => {
            if a.value_type() != t {
                Ok(())
            } else {
                let r = unary(op, a)?;
                stack.push(r);
                Ok(())
            }
        },
    }
}

fn apply_binary(op: &Operation, t: ValueType, stack: &mut Vec<ValueTypeProvider>) -> (res: Result<(), Trap>)
    ensures
        match res {
            Ok(()) => spec_apply_binary(*op, t, old(stack)@) == Ok::<Seq<ValueTypeProvider>, Trap>(final(stack)@),
            Err(e) => spec_apply_binary(*op, t, old(stack)@) == Err::<Seq<ValueTypeProvider>, Trap>(e),
        },
{
    let a = match stack.pop() {
        None => {
            return Ok(());
        },
        Some(a) => a,
    };
    if a.value_type() != t {
        return Ok(());
    }
    let b = match stack.pop() {
        None => {
            return Ok(());
        },
        Some(b) => b,
    };
    if b.value_type() != t {
        return Ok(());
    }
    let r = binary(op, a, b)?;
    stack.push(r);
    Ok(())
}

fn load_immediate_of(op: &Operation) -> (r: Option<MemoryImmediate>)
    ensures
        r == load_immediate(*op),
{
    match op {
        Operation::I32Load(m) => Some(*m),
        Operation::I64Load(m) => Some(*m),
        Operation::F32Load(m) => Some(*m),
        Operation::F64Load(m) => Some(*m),
        Operation::I32Load8S(m) => Some(*m),
        Operation::I32Load8U(m) => Some(*m),
        Operation::I32Load16S(m) => Some(*m),
        Operation::I32Load16U(m) => Some(*m),
        Operation::I64Load8S(m) => Some(*m),
        Operation::I64Load8U(m) => Some(*m),
        Operation::I64Load16S(m) => Some(*m),
        Operation::I64Load16U(m) => Some(*m),
        Operation::I64Load32S(m) => Some(*m),
        Operation::I64Load32U(m) => Some(*m),
        _ => None,
    }
}

fn store_immediate_of(op: &Operation) -> (r: Option<MemoryImmediate>)
    ensures
        r == store_immediate(*op),
{
    match op {
        Operation::I32Store(m) => Some(*m),
        Operation::I64Store(m) => Some(*m),
        Operation::F32Store(m) => Some(*m),
        Operation::F64Store(m) => Some(*m),
        Operation::I32Store8(m) => Some(*m),
        Operation::I32Store16(m) => Some(*m),
        Operation::I64Store8(m) => Some(*m),
        Operation::I64Store16(m) => Some(*m),
        Operation::I64Store32(m) => Some(*m),
        _ => None,
    }
}

fn loaded(op: &Operation, w: &[u8]) -> (r: ValueTypeProvider)
    requires
        w@.len() == 8,
    ensures
        r == spec_loaded(*op, w@),
{
    match op {
        Operation::I32Load(_) => ValueTypeProvider::I32(le_read_int(w, 4) as i32),
        Operation::I64Load(_) => ValueTypeProvider::I64(le_read_int(w, 8)),
        Operation::F32Load(_) => ValueTypeProvider::F32(le_read_u32(vstd::slice::slice_subrange(w, 0, 4))),
        Operation::F64Load(_) => {
            assert(w@.take(8) =~= w@);
            ValueTypeProvider::F64(le_read_u64(w))
        },
        Operation::I32Load8S(_) => ValueTypeProvider::I32(le_read_int(w, 1) as i32),
        Operation::I32Load8U(_) => ValueTypeProvider::I32(le_read_uint(w, 1) as i32),
        Operation::I32Load16S(_) => ValueTypeProvider::I32(le_read_int(w, 2) as i32),
        Operation::I32Load16U(_) => ValueTypeProvider::I32(le_read_uint(w, 2) as i32),
        Operation::I64Load8S(_) => ValueTypeProvider::I64(le_read_int(w, 1)),
        Operation::I64Load8U(_) => ValueTypeProvider::I64(le_read_uint(w, 1) as i64),
        Operation::I64Load16S(_) => ValueTypeProvider::I64(le_read_int(w, 2)),
        Operation::I64Load16U(_) => ValueTypeProvider::I64(le_read_uint(w, 2) as i64),
        Operation::I64Load32S(_) => ValueTypeProvider::I64(le_read_int(w, 4)),
        Operation::I64Load32U(_) => ValueTypeProvider::I64(le_read_uint(w, 4) as i64),
        _ => ValueTypeProvider::I32(0),
    }
}

fn stored_bytes(op: &Operation, v: ValueTypeProvider) -> (res: Result<Vec<u8>, Trap>)
    ensures
        match res {
            Ok(b) => spec_stored_bytes(*op, v) == Ok::<Seq<u8>, Trap>(b@),
            Err(e) => spec_stored_bytes(*op, v) == Err::<Seq<u8>, Trap>(e),
        },
{
    match (op, v) {
        (Operation::I32Store(_), ValueTypeProvider::I32(x)) => Ok(le_int_bytes(x as i64, 4)),
        (Operation::I64Store(_), ValueTypeProvider::I64(x)) => Ok(le_int_bytes(x, 8)),
        (Operation::F32Store(_), ValueTypeProvider::F32(x)) => Ok(le_int_bytes(x as i64, 4)),
        (Operation::F64Store(_), ValueTypeProvider::F64(x)) => Ok(le_int_bytes(x as i64, 8)),
        (Operation::I32Store8(_), ValueTypeProvider::I32(x)) => Ok(le_int_bytes((x as i8) as i64, 1)),
        (Operation::I32Store16(_), ValueTypeProvider::I32(x)) => Ok(le_int_bytes((x as i16) as i64, 2)),
        (Operation::I64Store8(_), ValueTypeProvider::I64(x)) => Ok(le_int_bytes((x as i8) as i64, 1)),
        (Operation::I64Store16(_), ValueTypeProvider::I64(x)) => Ok(le_int_bytes((x as i16) as i64, 2)),
        (Operation::I64Store32(_), ValueTypeProvider::I64(x)) => Ok(le_int_bytes((x as i32) as i64, 4)),
        _ => Err(Trap::TypeMismatch),
    }
}

fn address(m: &MemoryImmediate) -> (res: Result<u64, Trap>)
    ensures
        match res {
            Ok(a) => effective_address(*m) == Ok::<int, Trap>(a as int),
            Err(e) => effective_address(*m) == Err::<int, Trap>(e),
        },
{
    let a: u64 = m.flags as u64 + m.offset as u64;
    if a > u32::MAX as u64 {
        Err(Trap::IntegerOverflow)
    } else {
        Ok(a)
    }
}

fn load(op: &Operation, m: &MemoryImmediate, frame: &mut StackFrame) -> (res: Result<(), Trap>)
    requires
        load_immediate(*op) == Some(*m),
    ensures
        stepped(res, *old(frame), *final(frame), spec_load(*op, *m, old(frame)@)),
{
    let addr: u64 = address(m)?;
    if frame.data.memories.len() == 0 {
        return Err(Trap::NoMemory);
    }
    let values = &frame.data.memories[0].values;
    if addr + 8 > values.len() as u64 {
        return Err(Trap::MemoryOutOfBounds);
    }
    let start: usize = addr as usize;
    let w = vstd::slice::slice_subrange(values.as_slice(), start, start + 8);
    let v = loaded(op, w);
    frame.stack.push(v);
    Ok(())
}

fn store(op: &Operation, m: &MemoryImmediate, frame: &mut StackFrame) -> (res: Result<(), Trap>)
    requires
        store_immediate(*op) == Some(*m),
    ensures
        stepped(res, *old(frame), *final(frame), spec_store(*op, *m, old(frame)@)),
{
    let v = match frame.stack.pop() {
        None => {
            return Err(Trap::StackEmpty);
        },
        Some(v) => v,
    };
    let bytes = stored_bytes(op, v)?;
    let addr: u64 = address(m)?;
    if frame.data.memories.len() == 0 {
        return Err(Trap::NoMemory);
    }
    if addr + 8 > frame.data.memories[0].values.len() as u64 {
        return Err(Trap::MemoryOutOfBounds);
    }
    let start: usize = addr as usize;
    let ghost before = frame.data.memories@;
    let mut memory = placeholder_memory();
    frame.data.memories.set_and_swap(0, &mut memory);
    let ghost old_values = memory.values@;
    assert(bytes@.len() <= 8) by {
        assert(spec_stored_bytes(*op, v) == Ok::<Seq<u8>, Trap>(bytes@));
        match (*op, v) {
            (Operation::I32Store(_), ValueTypeProvider::I32(x)) => lemma_le_bytes_len(x as int, 4),
            (Operation::I64Store(_), ValueTypeProvider::I64(x)) => lemma_le_bytes_len(x as int, 8),
            (Operation::F32Store(_), ValueTypeProvider::F32(x)) => lemma_le_bytes_len(x as int, 4),
            (Operation::F64Store(_), ValueTypeProvider::F64(x)) => lemma_le_bytes_len((x as i64) as int, 8),
            (Operation::I32Store8(_), ValueTypeProvider::I32(x)) => lemma_le_bytes_len((x as i8) as int, 1),
            (Operation::I32Store16(_), ValueTypeProvider::I32(x)) => lemma_le_bytes_len((x as i16) as int, 2),
            (Operation::I64Store8(_), ValueTypeProvider::I64(x)) => lemma_le_bytes_len((x as i8) as int, 1),
            (Operation::I64Store16(_), ValueTypeProvider::I64(x)) => lemma_le_bytes_len((x as i16) as int, 2),
            (Operation::I64Store32(_), ValueTypeProvider::I64(x)) => lemma_le_bytes_len((x as i32) as int, 4),
            _ => {},
        }
    }
    let mut j: usize = 0;
    while j < bytes.len()
        invariant
            j <= bytes@.len() <= 8,
            start + 8 <= old_values.len(),
            start + 8 <= memory.values.len(),
            memory.values@.len() == old_values.len(),
            memory.limits == before[0].limits,
            memory.values@ == old_values.take(start as int) + bytes@.take(j as int) + old_values.skip(start + j),
        decreases bytes.len() - j,
    {
        memory.values.set(start + j, bytes[j]);
        j = j + 1;
        assert(memory.values@ =~= old_values.take(start as int) + bytes@.take(j as int) + old_values.skip(start + j));
    }
    assert(bytes@.take(bytes@.len() as int) =~= bytes@);
    let ghost written = memory@;
    frame.data.memories.set(0, memory);
    proof {
        assert(frame.data.memories@.map_values(|x: Memory| x@) =~= before.map_values(|x: Memory| x@).update(0, written));
    }
    Ok(())
}

fn select(frame: &mut StackFrame) -> (res: Result<(), Trap>)
    ensures
        stepped(res, *old(frame), *final(frame), spec_select(old(frame)@)),
{
    let len = frame.stack.len();
    if len < 2 {
        return Err(Trap::StackEmpty);
    }
    let a = frame.stack[len - 1];
    let b = frame.stack[len - 2];
    if a.value_type() != b.value_type() {
        return Err(Trap::TypeMismatch);
    }
    if len < 3 {
        return Err(Trap::StackEmpty);
    }
    let c = match frame.stack[len - 3] {
        ValueTypeProvider::I32(c) => c,
        _ => {
            return Err(Trap::TypeMismatch);
        },
    };
    frame.stack.truncate(len - 3);
    if c != 0 {
        frame.stack.push(a);
    } else {
        frame.stack.push(b);
    }
    Ok(())
}

fn set_variable(vars: &mut Vec<ValueTypeProvider>, i: usize, v: ValueTypeProvider, missing: Trap) -> (res: Result<(), Trap>)
    ensures
        match res {
            Ok(()) => spec_set_variable(old(vars)@, i as int, v, missing) == Ok::<Seq<ValueTypeProvider>, Trap>(final(vars)@),
            Err(e) => spec_set_variable(old(vars)@, i as int, v, missing) == Err::<Seq<ValueTypeProvider>, Trap>(e),
        },
{
    if i >= vars.len() {
        return Err(missing);
    }
    if vars[i].value_type() != v.value_type() {
        return Err(Trap::TypeMismatch);
    }
    vars.set(i, v);
    Ok(())
}

fn simple_step(op: &Operation, frame: &mut StackFrame) -> (res: Result<(), Trap>)
    ensures
        stepped(res, *old(frame), *final(frame), spec_simple_step(*op, old(frame)@)),
{
    match op {
        Operation::Nop => Ok(()),
        Operation::Unreachable => Err(Trap::Unreachable),
        Operation::Drop => {
            frame.stack.pop();
            Ok(())
        },
        Operation::Select => select(frame),
        Operation::GetLocal(i) => {
            if *i < frame.locals.len() {
                let v = frame.locals[*i];
                frame.stack.push(v);
                Ok(())
            } else {
                Err(Trap::NoSuchLocal)
            }
        },
        Operation::SetLocal(i) => {
            let v = match frame.stack.pop() {
                None => {
                    return Err(Trap::StackEmpty);
                },
                Some(v) => v,
            };
            set_variable(&mut frame.locals, *i, v, Trap::NoSuchLocal)
        },
        Operation::TeeLocal(i) => {
            let v = match frame.stack.pop() {
                None => {
                    return Err(Trap::StackEmpty);
                },
                Some(v) => v,
            };
            set_variable(&mut frame.locals, *i, v, Trap::NoSuchLocal)?;
            frame.stack.push(v);
            assert(frame.stack@ =~= old(frame).stack@);
            Ok(())
        },
        Operation::GetGlobal(i) => {
            if *i < frame.data.globals.len() {
                let v = frame.data.globals[*i];
                frame.stack.push(v);
                Ok(())
            } else {
                Err(Trap::NoSuchGlobal)
            }
        },
        Operation::SetGlobal(i) => {
            let v = match frame.stack.pop() {
                None => {
                    return Err(Trap::StackEmpty);
                },
                Some(v) => v,
            };
            set_variable(&mut frame.data.globals, *i, v, Trap::NoSuchGlobal)
        },
        Operation::CurrentMemory(_) => {
            if frame.data.memories.len() == 0 {
                return Err(Trap::NoMemory);
            }
            let size = frame.data.memories[0].size();
            frame.stack.push(ValueTypeProvider::I32(size));
            Ok(())
        },
        Operation::GrowMemory(_) => {
            if frame.data.memories.len() == 0 {
                return Err(Trap::NoMemory);
            }
            if frame.data.memories[0].values.len() > usize::MAX - WASM_PAGE_SIZE {
                return Err(Trap::MemoryTooLarge);
            }
            let ghost before = frame.data.memories@;
            let mut memory = placeholder_memory();
            frame.data.memories.set_and_swap(0, &mut memory);
            let size = memory.grow();
            let ghost grown = memory@;
            frame.data.memories.set(0, memory);
            proof {
                assert(frame.data.memories@.map_values(|x: Memory| x@) =~= before.map_values(|x: Memory| x@).update(0, grown));
            }
            frame.stack.push(ValueTypeProvider::I32(size));
            Ok(())
        },
        Operation::I32Const(v) => {
            frame.stack.push(ValueTypeProvider::I32(*v));
            Ok(())
        },
        Operation::I64Const(v) => {
            frame.stack.push(ValueTypeProvider::I64(*v));
            Ok(())
        },
        Operation::F32Const(v) => {
            frame.stack.push(ValueTypeProvider::F32(*v));
            Ok(())
        },
        Operation::F64Const(v) => {
            frame.stack.push(ValueTypeProvider::F64(*v));
            Ok(())
        },
                        _ => Err(Trap::Unstructured),
    }
}

/// Runs one instruction that does not change the flow of control.
pub fn step(op: &Operation, frame: &mut StackFrame) -> (res: Result<(), Trap>)
    ensures
        stepped(res, *old(frame), *final(frame), spec_step(*op, old(frame)@)),
{
    proof {
        reveal(spec_step);
    }
    if let Some(t) = unary_operand_of(op) {
        apply_unary(op, t, &mut frame.stack)
    } else if let Some(t) = binary_operand_of(op) {
        apply_binary(op, t, &mut frame.stack)
    } else if let Some(m) = load_immediate_of(op) {
        load(op, &m, frame)
    } else if let Some(m) = store_immediate_of(op) {
        store(op, &m, frame)
    } else {
        simple_step(op, frame)
    }
}

} // verus!
