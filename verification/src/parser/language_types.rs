//! Decoding of the language types and of instructions.
use crate::parse_tree::functions::operation_views;
use crate::parse_tree::globals::Global;
use crate::parse_tree::language_types::BlockType;
use crate::parse_tree::language_types::BranchTable;
use crate::parse_tree::language_types::BranchTableView;
use crate::parse_tree::language_types::ExternalKind;
use crate::parse_tree::language_types::GlobalType;
use crate::parse_tree::language_types::InitExpression;
use crate::parse_tree::language_types::LanguageType;
use crate::parse_tree::language_types::MemoryImmediate;
use crate::parse_tree::language_types::Operation;
use crate::parse_tree::language_types::OperationView;
use crate::parse_tree::language_types::ResizableLimits;
use crate::parse_tree::language_types::TableType;
use crate::parse_tree::language_types::ValueType;
use crate::parse_tree::language_types::spec_memory_operation;
use crate::parse_tree::language_types::spec_simple_operation;
use crate::parse_tree::language_types::memory_operation;
use crate::parse_tree::language_types::simple_operation;
use crate::parser::errors::advances;
use crate::parser::errors::moves;
use crate::parser::errors::outcome;
use crate::parser::errors::ParseError;
use crate::parser::errors::Violation;
use crate::parser::utils::lemma_varint_advances;
use crate::parser::utils::lemma_varuint32_bound;
use crate::parser::utils::lemma_varuint_advances;
use crate::parser::utils::read_byte;
use crate::parser::utils::read_u32_le;
use crate::parser::utils::read_u64_le;
use crate::parser::utils::read_varint;
use crate::parser::utils::read_varuint;
use crate::parser::utils::spec_byte;
use crate::parser::utils::spec_u32_le;
use crate::parser::utils::spec_u64_le;
use crate::parser::utils::spec_varint;
use crate::parser::utils::spec_varuint;
use vstd::arithmetic::power2::*;
use crate::leb::lemma_within_64_no_overflow;
use crate::runtime_tree::float::float_bits_of;
use crate::runtime_tree::float::u32_to_f32_bits;
use crate::runtime_tree::float::u64_to_f64_bits;
use vstd::prelude::*;

verus! {

/// The value type that a type code stands for.
pub open spec fn spec_value_type(key: i64) -> Result<ValueType, ParseError> {
    if key == -0x01 {
        Ok(ValueType::I32)
    } else if key == -0x02 {
        Ok(ValueType::I64)
    } else if key == -0x03 {
        Ok(ValueType::F32)
    } else if key == -0x04 {
        Ok(ValueType::F64)
    } else {
        Err(ParseError::InvalidValueType(key))
    }
}

/// A value type: its code as a `varint7`.
pub open spec fn spec_parse_value_type(s: Seq<u8>, pos: int) -> Result<(ValueType, int), ParseError> {
    match spec_varint(s, pos, 7) {
        Err(e) => Err(e),
        Ok((key, p)) => match spec_value_type(key) {
            Ok(t) => Ok((t, p)),
            Err(e) => Err(e),
        },
    }
}

/// The language type that a type code stands for.
pub open spec fn spec_language_type(key: i64) -> Result<LanguageType, ParseError> {
    if key == -0x01 {
        Ok(LanguageType::Value(ValueType::I32))
    } else if key == -0x02 {
        Ok(LanguageType::Value(ValueType::I64))
    } else if key == -0x03 {
        Ok(LanguageType::Value(ValueType::F32))
    } else if key == -0x04 {
        Ok(LanguageType::Value(ValueType::F64))
    } else if key == -0x10 {
        Ok(LanguageType::Anyfunc)
    } else if key == -0x20 {
        Ok(LanguageType::Func)
    } else if key == -0x40 {
        Ok(LanguageType::EmptyBlock)
    } else {
        Err(ParseError::InvalidLanguageType(key))
    }
}

/// A language type: its code as a `varint7`.
pub open spec fn spec_parse_language_type(s: Seq<u8>, pos: int) -> Result<(LanguageType, int), ParseError> {
    match spec_varint(s, pos, 7) {
        Err(e) => Err(e),
        Ok((key, p)) => match spec_language_type(key) {
            Ok(t) => Ok((t, p)),
            Err(e) => Err(e),
        },
    }
}

/// An external kind: a kind byte, then an index as a `varuint32`.
pub open spec fn spec_parse_external_kind(s: Seq<u8>, pos: int) -> Result<(ExternalKind, int), ParseError> {
    match spec_byte(s, pos) {
        Err(e) => Err(e),
        Ok((kind, p)) => if kind > 3 {
            Err(ParseError::InvalidExternalKind(kind))
        } else {
            match spec_varuint(s, p, 32) {
                Err(e) => Err(e),
                Ok((index, q)) => Ok(
                    (
                        if kind == 0 {
                            ExternalKind::Function(index as usize)
                        } else if kind == 1 {
                            ExternalKind::Table(index as usize)
                        } else if kind == 2 {
                            ExternalKind::Memory(index as usize)
                        } else {
                            ExternalKind::Global(index as usize)
                        },
                        q,
                    ),
                ),
            }
        },
    }
}

/// Limits: a `varuint1` flag, the initial size as a `varuint32`, then the maximum
/// as a `varuint32` when the flag is 1.
pub open spec fn spec_parse_limits(s: Seq<u8>, pos: int) -> Result<(ResizableLimits, int), ParseError> {
    match spec_varuint(s, pos, 1) {
        Err(e) => Err(e),
        Ok((flags, p)) => match spec_varuint(s, p, 32) {
            Err(e) => Err(e),
            Ok((initial, q)) => if flags == 1 {
                match spec_varuint(s, q, 32) {
                    Err(e) => Err(e),
                    Ok((maximum, r)) => Ok((ResizableLimits { initial, maximum: Some(maximum) }, r)),
                }
            } else {
                Ok((ResizableLimits { initial, maximum: None }, q))
            },
        },
    }
}

/// A global type: a value type, then the mutability as a `varuint1`.
pub open spec fn spec_parse_global_type(s: Seq<u8>, pos: int) -> Result<(GlobalType, int), ParseError> {
    match spec_parse_value_type(s, pos) {
        Err(e) => Err(e),
        Ok((t, p)) => match spec_varuint(s, p, 1) {
            Err(e) => Err(e),
            Ok((m, q)) => Ok((GlobalType { content_type: t, mutability: m == 1 }, q)),
        },
    }
}

/// A table type: the element type, which must be `anyfunc`, then the limits.
pub open spec fn spec_parse_table_type(s: Seq<u8>, pos: int) -> Result<(TableType, int), ParseError> {
    match spec_parse_language_type(s, pos) {
        Err(e) => Err(e),
        Ok((t, p)) => if t != LanguageType::Anyfunc {
            Err(ParseError::CustomError(Violation::TableNotAnyfunc))
        } else {
            match spec_parse_limits(s, p) {
                Err(e) => Err(e),
                Ok((limits, q)) => Ok((TableType { elem_type: t, limits }, q)),
            }
        },
    }
}

/// The `end` byte that closes a constant expression, or the error for a
/// different byte.
pub open spec fn spec_expect_end(s: Seq<u8>, pos: int, bad: Violation) -> Result<(u8, int), ParseError> {
    match spec_byte(s, pos) {
        Err(e) => Err(e),
        Ok((b, p)) => if b != 0x0b {
            Err(ParseError::CustomError(bad))
        } else {
            Ok((b, p))
        },
    }
}

/// A constant expression: one constant instruction, then `end`. A `get_global`
/// must name an immutable global among `globals`.
pub open spec fn spec_parse_init_expression(s: Seq<u8>, pos: int, globals: Seq<Global>) -> Result<(InitExpression, int), ParseError> {
    match spec_byte(s, pos) {
        Err(e) => Err(e),
        Ok((op, p)) => if op == 0x41 {
            match spec_varint(s, p, 32) {
                Err(e) => Err(e),
                Ok((v, q)) => match spec_expect_end(s, q, Violation::BadI32Init) {
                    Err(e) => Err(e),
                    Ok((_, r)) => Ok((InitExpression::I32Const(v as i32), r)),
                },
            }
        } else if op == 0x42 {
            match spec_varint(s, p, 64) {
                Err(e) => Err(e),
                Ok((v, q)) => match spec_expect_end(s, q, Violation::BadI64Init) {
                    Err(e) => Err(e),
                    Ok((_, r)) => Ok((InitExpression::I64Const(v), r)),
                },
            }
        } else if op == 0x43 {
            match spec_u32_le(s, p) {
                Err(e) => Err(e),
                Ok((v, q)) => match spec_expect_end(s, q, Violation::BadF32Init) {
                    Err(e) => Err(e),
                    Ok((_, r)) => Ok((InitExpression::F32Const(float_bits_of(v as nat, 23, 127) as u32), r)),
                },
            }
        } else if op == 0x44 {
            match spec_u64_le(s, p) {
                Err(e) => Err(e),
                Ok((v, q)) => match spec_expect_end(s, q, Violation::BadF64Init) {
                    Err(e) => Err(e),
                    Ok((_, r)) => Ok((InitExpression::F64Const(float_bits_of(v as nat, 52, 1023) as u64), r)),
                },
            }
        } else if op == 0x23 {
            match spec_varint(s, p, 32) {
                Err(e) => Err(e),
                Ok((v, q)) => match spec_expect_end(s, q, Violation::BadGetGlobalInit) {
                    Err(e) => Err(e),
                    Ok((_, r)) => if v < 0 || v >= globals.len() {
                        Err(ParseError::CustomError(Violation::NoSuchGlobal))
                    } else if globals[v as int].constraints.mutability {
                        Err(ParseError::CustomError(Violation::MutableGlobalInInit))
                    } else {
                        Ok((InitExpression::GetGlobal(v as usize), r))
                    },
                },
            }
        } else {
            Err(ParseError::CustomError(Violation::UnexpectedInitByte))
        },
    }
}

/// A block type: a `varint7` that is a value type code or -0x40 for no result.
pub open spec fn spec_parse_block_type(s: Seq<u8>, pos: int) -> Result<(BlockType, int), ParseError> {
    match spec_varint(s, pos, 7) {
        Err(e) => Err(e),
        Ok((key, p)) => match spec_value_type(key) {
            Ok(t) => Ok((BlockType::Value(t), p)),
            Err(_) => if key == -0x40 {
                Ok((BlockType::Empty, p))
            } else {
                Err(ParseError::CustomError(Violation::BadBlockType))
            },
        },
    }
}

/// `n` more `br_table` targets, each a `varuint32`, after those in `acc`.
pub open spec fn spec_branch_targets(s: Seq<u8>, pos: int, n: nat, acc: Seq<u32>) -> Result<(Seq<u32>, int), ParseError>
    decreases n,
{
    if n == 0 {
        Ok((acc, pos))
    } else {
        match spec_varuint(s, pos, 32) {
            Err(e) => Err(e),
            Ok((v, p)) => spec_branch_targets(s, p, (n - 1) as nat, acc.push(v as u32)),
        }
    }
}

/// A `br_table` immediate: the target count and the targets, each a
/// `varuint32`, then the default target as a `varuint32`.
pub open spec fn spec_parse_branch_table(s: Seq<u8>, pos: int) -> Result<(BranchTableView, int), ParseError> {
    match spec_varuint(s, pos, 32) {
        Err(e) => Err(e),
        Ok((count, p)) => match spec_branch_targets(s, p, (count as u32) as nat, Seq::empty()) {
            Err(e) => Err(e),
            Ok((targets, q)) => match spec_varuint(s, q, 32) {
                Err(e) => Err(e),
                Ok((default, r)) => Ok((BranchTableView { targets, default: default as usize }, r)),
            },
        },
    }
}

/// A memory immediate: flags and offset, each a `varuint32`.
pub open spec fn spec_parse_memory_immediate(s: Seq<u8>, pos: int) -> Result<(MemoryImmediate, int), ParseError> {
    match spec_varuint(s, pos, 32) {
        Err(e) => Err(e),
        Ok((flags, p)) => match spec_varuint(s, p, 32) {
            Err(e) => Err(e),
            Ok((offset, q)) => Ok((MemoryImmediate { flags: flags as u32, offset: offset as u32 }, q)),
        },
    }
}

/// The local or global access that an opcode from 0x20 to 0x24 stands for.
pub open spec fn spec_variable_operation(b: u8, index: usize) -> Operation {
    if b == 0x20 {
        Operation::GetLocal(index)
    } else if b == 0x21 {
        Operation::SetLocal(index)
    } else if b == 0x22 {
        Operation::TeeLocal(index)
    } else if b == 0x23 {
        Operation::GetGlobal(index)
    } else {
        Operation::SetGlobal(index)
    }
}

/// One instruction: its opcode, then its immediates.
pub open spec fn spec_parse_operation(s: Seq<u8>, pos: int) -> Result<(OperationView, int), ParseError> {
    match spec_byte(s, pos) {
        Err(e) => Err(e),
        Ok((b, p)) => if b == 0x02 || b == 0x03 || b == 0x04 {
            match spec_parse_block_type(s, p) {
                Err(e) => Err(e),
                Ok((t, q)) => Ok(
                    (
                        OperationView::Plain(
                            if b == 0x02 {
                                Operation::Block(t)
                            } else if b == 0x03 {
                                Operation::Loop(t)
                            } else {
                                Operation::If(t)
                            },
                        ),
                        q,
                    ),
                ),
            }
        } else if b == 0x0c || b == 0x0d {
            match spec_varuint(s, p, 32) {
                Err(e) => Err(e),
                Ok((v, q)) => Ok(
                    (
                        OperationView::Plain(
                            if b == 0x0c {
                                Operation::Branch(v as u32)
                            } else {
                                Operation::BranchIf(v as u32)
                            },
                        ),
                        q,
                    ),
                ),
            }
        } else if b == 0x0e {
            match spec_parse_branch_table(s, p) {
                Err(e) => Err(e),
                Ok((t, q)) => Ok((OperationView::BranchTable(t), q)),
            }
        } else if b == 0x10 {
            match spec_varuint(s, p, 32) {
                Err(e) => Err(e),
                Ok((v, q)) => Ok((OperationView::Plain(Operation::Call(v as usize)), q)),
            }
        } else if b == 0x11 {
            match spec_varuint(s, p, 32) {
                Err(e) => Err(e),
                Ok((t, q)) => match spec_varuint(s, q, 1) {
                    Err(e) => Err(e),
                    Ok((reserved, r)) => if reserved == 1 {
                        Err(ParseError::CustomError(Violation::ReservedNonZero))
                    } else {
                        Ok((OperationView::Plain(Operation::CallIndirect(t as usize, false)), r))
                    },
                },
            }
        } else if 0x20 <= b <= 0x24 {
            match spec_varuint(s, p, 32) {
                Err(e) => Err(e),
                Ok((v, q)) => Ok((OperationView::Plain(spec_variable_operation(b, v as usize)), q)),
            }
        } else if 0x28 <= b <= 0x3e {
            match spec_parse_memory_immediate(s, p) {
                Err(e) => Err(e),
                Ok((m, q)) => match spec_memory_operation(b, m) {
                    Some(op) => Ok((OperationView::Plain(op), q)),
                    None => Err(ParseError::CustomError(Violation::UnknownOpcode)),
                },
            }
        } else if b == 0x3f || b == 0x40 {
            match spec_varuint(s, p, 1) {
                Err(e) => Err(e),
                Ok((reserved, q)) => Ok(
                    (
                        OperationView::Plain(
                            if b == 0x3f {
                                Operation::CurrentMemory(reserved == 1)
                            } else {
                                Operation::GrowMemory(reserved == 1)
                            },
                        ),
                        q,
                    ),
                ),
            }
        } else if b == 0x41 {
            match spec_varint(s, p, 32) {
                Err(e) => Err(e),
                Ok((v, q)) => Ok((OperationView::Plain(Operation::I32Const(v as i32)), q)),
            }
        } else if b == 0x42 {
            match spec_varint(s, p, 64) {
                Err(e) => Err(e),
                Ok((v, q)) => Ok((OperationView::Plain(Operation::I64Const(v)), q)),
            }
        } else if b == 0x43 {
            match spec_u32_le(s, p) {
                Err(e) => Err(e),
                Ok((v, q)) => Ok((OperationView::Plain(Operation::F32Const(float_bits_of(v as nat, 23, 127) as u32)), q)),
            }
        } else if b == 0x44 {
            match spec_u64_le(s, p) {
                Err(e) => Err(e),
                Ok((v, q)) => Ok((OperationView::Plain(Operation::F64Const(float_bits_of(v as nat, 52, 1023) as u64)), q)),
            }
        } else {
            match spec_simple_operation(b) {
                Some(op) => Ok((OperationView::Plain(op), p)),
                None => Err(ParseError::CustomError(Violation::UnknownOpcode)),
            }
        },
    }
}

/// How many `end`s are still needed after an instruction: `block`, `loop` and
/// `if` open a construct, `end` closes one.
pub open spec fn depth_after(depth: nat, op: OperationView) -> nat {
    match op {
        OperationView::Plain(Operation::End) => (depth - 1) as nat,
        OperationView::Plain(Operation::Block(_)) => depth + 1,
        OperationView::Plain(Operation::Loop(_)) => depth + 1,
        OperationView::Plain(Operation::If(_)) => depth + 1,
        _ => depth,
    }
}

/// Instructions after those in `acc`, up to the `end` that brings the count of
/// open constructs, `depth`, to zero.
pub open spec fn spec_parse_operations(s: Seq<u8>, pos: int, depth: nat, acc: Seq<OperationView>) -> Result<(Seq<OperationView>, int), ParseError>
    decreases s.len() - pos,
{
    match spec_parse_operation(s, pos) {
        Err(e) => Err(e),
        Ok((op, p)) => {
            let d = depth_after(depth, op);
            if d == 0 {
                Ok((acc.push(op), p))
            } else {
                proof {
                    lemma_operation_advances(s, pos);
                }
                spec_parse_operations(s, p, d, acc.push(op))
            }
        },
    }
}

proof fn lemma_targets_advance(s: Seq<u8>, pos: int, n: nat, acc: Seq<u32>)
    requires
        0 <= pos <= s.len(),
    ensures
        spec_branch_targets(s, pos, n, acc) matches Ok((_, p)) ==> pos <= p <= s.len(),
    decreases n,
{
    if n > 0 {
        lemma_varuint_advances(s, pos, 32);
        if let Ok((v, p)) = spec_varuint(s, pos, 32) {
            lemma_targets_advance(s, p, (n - 1) as nat, acc.push(v as u32));
        }
    }
}

/// Decoding an instruction moves forward and stays within the input.
pub proof fn lemma_operation_advances(s: Seq<u8>, pos: int)
    ensures
        advances(spec_parse_operation(s, pos), s, pos),
{
    if 0 <= pos < s.len() {
        let p = pos + 1;
        lemma_varuint_advances(s, p, 32);
        lemma_varuint_advances(s, p, 1);
        lemma_varint_advances(s, p, 7);
        lemma_varint_advances(s, p, 32);
        lemma_varint_advances(s, p, 64);
        if let Ok((t, q)) = spec_varuint(s, p, 32) {
            lemma_varuint_advances(s, q, 1);
            lemma_varuint_advances(s, q, 32);
            lemma_targets_advance(s, q, (t as u32) as nat, Seq::empty());
            if let Ok((_, r)) = spec_branch_targets(s, q, (t as u32) as nat, Seq::empty()) {
                lemma_varuint_advances(s, r, 32);
            }
        }
    }
}

/// Decoding a value type moves forward and stays within the input.
pub proof fn lemma_value_type_advances(s: Seq<u8>, pos: int)
    ensures
        advances(spec_parse_value_type(s, pos), s, pos),
{
    lemma_varint_advances(s, pos, 7);
}

/// Decoding a language type moves forward and stays within the input.
pub proof fn lemma_language_type_advances(s: Seq<u8>, pos: int)
    ensures
        advances(spec_parse_language_type(s, pos), s, pos),
{
    lemma_varint_advances(s, pos, 7);
}

/// Decoding an external kind moves forward and stays within the input.
pub proof fn lemma_external_kind_advances(s: Seq<u8>, pos: int)
    ensures
        advances(spec_parse_external_kind(s, pos), s, pos),
{
    lemma_varuint_advances(s, pos + 1, 32);
}

/// Decoding limits moves forward and stays within the input.
pub proof fn lemma_limits_advances(s: Seq<u8>, pos: int)
    ensures
        advances(spec_parse_limits(s, pos), s, pos),
{
    lemma_varuint_advances(s, pos, 1);
    if let Ok((_, p)) = spec_varuint(s, pos, 1) {
        lemma_varuint_advances(s, p, 32);
        if let Ok((_, q)) = spec_varuint(s, p, 32) {
            lemma_varuint_advances(s, q, 32);
        }
    }
}

/// Decoded limits are below 2^32.
pub proof fn lemma_limits_bounds(s: Seq<u8>, pos: int)
    ensures
        spec_parse_limits(s, pos) matches Ok((l, _)) ==> l.initial < 0x1_0000_0000 && (l.maximum matches Some(x) ==> x
            < 0x1_0000_0000),
{
    if let Ok((_, p)) = spec_varuint(s, pos, 1) {
        lemma_varuint32_bound(s, p);
        if let Ok((_, q)) = spec_varuint(s, p, 32) {
            lemma_varuint32_bound(s, q);
        }
    }
}

/// Decoding a global type moves forward and stays within the input.
pub proof fn lemma_global_type_advances(s: Seq<u8>, pos: int)
    ensures
        advances(spec_parse_global_type(s, pos), s, pos),
{
    lemma_value_type_advances(s, pos);
    if let Ok((_, p)) = spec_parse_value_type(s, pos) {
        lemma_varuint_advances(s, p, 1);
    }
}

/// Decoding a table type moves forward and stays within the input.
pub proof fn lemma_table_type_advances(s: Seq<u8>, pos: int)
    ensures
        advances(spec_parse_table_type(s, pos), s, pos),
{
    lemma_language_type_advances(s, pos);
    if let Ok((_, p)) = spec_parse_language_type(s, pos) {
        lemma_limits_advances(s, p);
    }
}

/// Decoding a constant expression moves forward and stays within the input.
pub proof fn lemma_init_expression_advances(s: Seq<u8>, pos: int, globals: Seq<Global>)
    ensures
        advances(spec_parse_init_expression(s, pos, globals), s, pos),
{
    let p = pos + 1;
    lemma_varint_advances(s, p, 32);
    lemma_varint_advances(s, p, 64);
    if let Ok((_, q)) = spec_varint(s, p, 32) {
        assert(advances(spec_expect_end(s, q, Violation::BadI32Init), s, q));
    }
}

/// Decoding instructions up to the closing `end` moves forward and stays within
/// the input.
pub proof fn lemma_operations_advance(s: Seq<u8>, pos: int, depth: nat, acc: Seq<OperationView>)
    ensures
        advances(spec_parse_operations(s, pos, depth, acc), s, pos),
    decreases s.len() - pos,
{
    lemma_operation_advances(s, pos);
    if let Ok((op, p)) = spec_parse_operation(s, pos) {
        let d = depth_after(depth, op);
        if d != 0 {
            lemma_operations_advance(s, p, d, acc.push(op));
        }
    }
}

/// The count of open constructs after `ops`, starting from `depth`.
pub open spec fn depth_through(depth: nat, ops: Seq<OperationView>) -> nat
    decreases ops.len(),
{
    if ops.len() == 0 {
        depth
    } else {
        depth_through(depth_after(depth, ops[0]), ops.drop_first())
    }
}

/// Decoding instructions with constructs open stops at the `end` that closes the
/// last of them: the new instructions keep at least one construct open until
/// their last one, an `end`, closes it, and the instructions before them are kept.
pub proof fn lemma_operations_balanced(s: Seq<u8>, pos: int, depth: nat, acc: Seq<OperationView>)
    requires
        depth > 0,
    ensures
        spec_parse_operations(s, pos, depth, acc) matches Ok((ops, _)) ==> {
            let new_ops = ops.skip(acc.len() as int);
            &&& ops.len() > acc.len()
            &&& ops.take(acc.len() as int) == acc
            &&& ops.last() == OperationView::Plain(Operation::End)
            &&& depth_through(depth, new_ops) == 0
            &&& forall|k: int| 0 <= k < new_ops.len() ==> depth_through(depth, #[trigger] new_ops.take(k)) > 0
        },
    decreases s.len() - pos,
{
    if let Ok((ops, _)) = spec_parse_operations(s, pos, depth, acc) {
        let (op, p) = spec_parse_operation(s, pos)->Ok_0;
        let d = depth_after(depth, op);
        let n = acc.len() as int;
        let new_ops = ops.skip(n);
        if d == 0 {
            assert(ops == acc.push(op));
            assert(new_ops =~= seq![op]);
            assert(new_ops.drop_first() =~= Seq::<OperationView>::empty());
            assert(ops.take(n) =~= acc);
            assert forall|k: int| 0 <= k < new_ops.len() implies depth_through(depth, #[trigger] new_ops.take(k)) > 0 by {
                assert(new_ops.take(k) =~= Seq::<OperationView>::empty());
            }
            assert(depth_through(0, new_ops.drop_first()) == 0);
            assert(depth_through(depth, new_ops) == 0);
            assert(op == OperationView::Plain(Operation::End));
            assert(ops.last() == op);
        } else {
            lemma_operation_advances(s, pos);
            lemma_operations_balanced(s, p, d, acc.push(op));
            let rest = ops.skip(n + 1);
            assert(ops.take(n + 1) =~= acc.push(op));
            assert(ops[n] == op) by {
                assert(ops.take(n + 1)[n] == ops[n]);
            }
            assert(ops.take(n) =~= acc) by {
                assert(ops.take(n) =~= ops.take(n + 1).take(n));
            }
            assert(new_ops.drop_first() =~= rest);
            assert(new_ops[0] == op);
            assert forall|k: int| 0 <= k < new_ops.len() implies depth_through(depth, #[trigger] new_ops.take(k)) > 0 by {
                if k > 0 {
                    assert(new_ops.take(k).drop_first() =~= rest.take(k - 1));
                    assert(depth_through(d, rest.take(k - 1)) > 0);
                } else {
                    assert(new_ops.take(k) =~= Seq::<OperationView>::empty());
                }
            }
            assert(depth_through(depth, new_ops) == depth_through(d, rest));
            assert(depth_through(depth, new_ops) == 0);
            assert(ops.len() > acc.len());
        }
    }
}

impl ValueType {
    /// Decodes a value type: its code as a `varint7`.
    pub fn parse(input: &[u8], pos: usize) -> (res: Result<(ValueType, usize), ParseError>)
        ensures
            outcome(res) == spec_parse_value_type(input@, pos as int),
    {
        let (key, p) = read_varint(input, pos, 7)?;
        let t = ValueType::get(key)?;
        Ok((t, p))
    }

    /// The value type that a type code stands for.
    pub fn get(key: i64) -> (res: Result<ValueType, ParseError>)
        ensures
            res == spec_value_type(key),
    {
        match key {
            -0x01 => Ok(ValueType::I32),
            -0x02 => Ok(ValueType::I64),
            -0x03 => Ok(ValueType::F32),
            -0x04 => Ok(ValueType::F64),
            _ => Err(ParseError::InvalidValueType(key)),
        }
    }
}

impl LanguageType {
    /// Decodes a language type: its code as a `varint7`.
    pub fn parse(input: &[u8], pos: usize) -> (res: Result<(LanguageType, usize), ParseError>)
        ensures
            outcome(res) == spec_parse_language_type(input@, pos as int),
    {
        let (key, p) = read_varint(input, pos, 7)?;
        let t = LanguageType::get(key)?;
        Ok((t, p))
    }

    /// The language type that a type code stands for.
    pub fn get(key: i64) -> (res: Result<LanguageType, ParseError>)
        ensures
            res == spec_language_type(key),
    {
        match key {
            -0x01 => Ok(LanguageType::Value(ValueType::I32)),
            -0x02 => Ok(LanguageType::Value(ValueType::I64)),
            -0x03 => Ok(LanguageType::Value(ValueType::F32)),
            -0x04 => Ok(LanguageType::Value(ValueType::F64)),
            -0x10 => Ok(LanguageType::Anyfunc),
            -0x20 => Ok(LanguageType::Func),
            -0x40 => Ok(LanguageType::EmptyBlock),
            _ => Err(ParseError::InvalidLanguageType(key)),
        }
    }
}

impl ExternalKind {
    /// Decodes an external kind: a kind byte, then an index as a `varuint32`.
    pub fn parse(input: &[u8], pos: usize) -> (res: Result<(ExternalKind, usize), ParseError>)
        ensures
            outcome(res) == spec_parse_external_kind(input@, pos as int),
    {
        let (kind, p) = read_byte(input, pos)?;
        if kind > 3 {
            return Err(ParseError::InvalidExternalKind(kind));
        }
        let (index, q) = read_varuint(input, p, 32)?;
        let k = match kind {
            0 => ExternalKind::Function(index as usize),
            1 => ExternalKind::Table(index as usize),
            2 => ExternalKind::Memory(index as usize),
            _ => ExternalKind::Global(index as usize),
        };
        Ok((k, q))
    }
}

impl ResizableLimits {
    /// Decodes limits: a `varuint1` flag, the initial size as a `varuint32`, then
    /// the maximum as a `varuint32` when the flag is 1.
    pub fn parse(input: &[u8], pos: usize) -> (res: Result<(ResizableLimits, usize), ParseError>)
        ensures
            outcome(res) == spec_parse_limits(input@, pos as int),
    {
        let (flags, p) = read_varuint(input, pos, 1)?;
        let (initial, q) = read_varuint(input, p, 32)?;
        if flags == 1 {
            let (maximum, r) = read_varuint(input, q, 32)?;
            Ok((ResizableLimits { initial, maximum: Some(maximum) }, r))
        } else {
            Ok((ResizableLimits { initial, maximum: None }, q))
        }
    }
}

impl GlobalType {
    /// Decodes a global type: a value type, then the mutability as a `varuint1`.
    pub fn parse(input: &[u8], pos: usize) -> (res: Result<(GlobalType, usize), ParseError>)
        ensures
            outcome(res) == spec_parse_global_type(input@, pos as int),
    {
        let (t, p) = ValueType::parse(input, pos)?;
        let (m, q) = read_varuint(input, p, 1)?;
        Ok((GlobalType { content_type: t, mutability: m == 1 }, q))
    }
}

impl TableType {
    /// Decodes a table type: the element type, which must be `anyfunc`, then the
    /// limits.
    pub fn parse(input: &[u8], pos: usize) -> (res: Result<(TableType, usize), ParseError>)
        ensures
            outcome(res) == spec_parse_table_type(input@, pos as int),
    {
        let (t, p) = LanguageType::parse(input, pos)?;
        match t {
            LanguageType::Anyfunc => {},
            _ => {
                return Err(ParseError::CustomError(Violation::TableNotAnyfunc));
            },
        }
        let (limits, q) = ResizableLimits::parse(input, p)?;
        Ok((TableType { elem_type: t, limits }, q))
    }
}

/// Reads the `end` byte that closes a constant expression.
fn expect_end(input: &[u8], pos: usize, bad: Violation) -> (res: Result<(u8, usize), ParseError>)
    ensures
        outcome(res) == spec_expect_end(input@, pos as int, bad),
{
    let (b, p) = read_byte(input, pos)?;
    if b != 0x0b {
        Err(ParseError::CustomError(bad))
    } else {
        Ok((b, p))
    }
}

impl InitExpression {
    /// Decodes a constant expression: one constant instruction, then `end`. A
    /// `get_global` must name an immutable global among `globals`.
    pub fn parse(input: &[u8], pos: usize, globals: &[Global]) -> (res: Result<(InitExpression, usize), ParseError>)
        ensures
            outcome(res) == spec_parse_init_expression(input@, pos as int, globals@),
    {
        let (op, p) = read_byte(input, pos)?;
        if op == 0x41 {
            proof {
                lemma_within_64_no_overflow(input@, p as int, 32);
            }
            let (v, q) = read_varint(input, p, 32)?;
            let (_, r) = expect_end(input, q, Violation::BadI32Init)?;
            Ok((InitExpression::I32Const(v as i32), r))
        } else if op == 0x42 {
            proof {
                lemma_within_64_no_overflow(input@, p as int, 64);
            }
            let (v, q) = read_varint(input, p, 64)?;
            let (_, r) = expect_end(input, q, Violation::BadI64Init)?;
            Ok((InitExpression::I64Const(v), r))
        } else if op == 0x43 {
            let (v, q) = read_u32_le(input, p)?;
            let (_, r) = expect_end(input, q, Violation::BadF32Init)?;
            Ok((InitExpression::F32Const(u32_to_f32_bits(v)), r))
        } else if op == 0x44 {
            let (v, q) = read_u64_le(input, p)?;
            let (_, r) = expect_end(input, q, Violation::BadF64Init)?;
            Ok((InitExpression::F64Const(u64_to_f64_bits(v)), r))
        } else if op == 0x23 {
            proof {
                lemma_within_64_no_overflow(input@, p as int, 32);
            }
            let (v, q) = read_varint(input, p, 32)?;
            let (_, r) = expect_end(input, q, Violation::BadGetGlobalInit)?;
            if v < 0 || v as u64 >= globals.len() as u64 {
                Err(ParseError::CustomError(Violation::NoSuchGlobal))
            } else if globals[v as usize].constraints.mutability {
                Err(ParseError::CustomError(Violation::MutableGlobalInInit))
            } else {
                Ok((InitExpression::GetGlobal(v as usize), r))
            }
        } else {
            Err(ParseError::CustomError(Violation::UnexpectedInitByte))
        }
    }
}

impl BlockType {
    /// Decodes a block type: a `varint7` that is a value type code or -0x40 for
    /// no result.
    pub fn parse(input: &[u8], pos: usize) -> (res: Result<(BlockType, usize), ParseError>)
        ensures
            outcome(res) == spec_parse_block_type(input@, pos as int),
    {
        let (key, p) = read_varint(input, pos, 7)?;
        match ValueType::get(key) {
            Ok(t) => Ok((BlockType::Value(t), p)),
            Err(_) => if key == -0x40 {
                Ok((BlockType::Empty, p))
            } else {
                Err(ParseError::CustomError(Violation::BadBlockType))
            },
        }
    }
}

impl BranchTable {
    /// Decodes a `br_table` immediate: the target count and the targets, each a
    /// `varuint32`, then the default target as a `varuint32`.
    pub fn parse(input: &[u8], pos: usize) -> (res: Result<(BranchTable, usize), ParseError>)
        ensures
            outcome(res) == spec_parse_branch_table(input@, pos as int),
    {
        let (count, p0) = read_varuint(input, pos, 32)?;
        let target_count: u32 = count as u32;
        let mut targets: Vec<u32> = Vec::new();
        let mut p: usize = p0;
        let mut i: u32 = 0;
        while i < target_count
            invariant
                i <= target_count,
                spec_varuint(input@, pos as int, 32) == Ok::<(u64, int), ParseError>((count, p0 as int)),
                target_count == count as u32,
                spec_branch_targets(input@, p0 as int, target_count as nat, Seq::empty())
                    == spec_branch_targets(input@, p as int, (target_count - i) as nat, targets@),
            decreases target_count - i,
        {
            let (v, q) = match read_varuint(input, p, 32) {
                Ok(r) => r,
                Err(e) => {
                    assert(spec_branch_targets(input@, p as int, (target_count - i) as nat, targets@) == Err::<(Seq<u32>, int), ParseError>(e));
                    return Err(e);
                },
            };
            targets.push(v as u32);
            p = q;
            i = i + 1;
        }
        let (default, r) = read_varuint(input, p, 32)?;
        Ok((BranchTable { targets, default: default as usize }, r))
    }
}

impl MemoryImmediate {
    /// Decodes a memory immediate: flags and offset, each a `varuint32`.
    pub fn parse(input: &[u8], pos: usize) -> (res: Result<(MemoryImmediate, usize), ParseError>)
        ensures
            outcome(res) == spec_parse_memory_immediate(input@, pos as int),
    {
        let (flags, p) = read_varuint(input, pos, 32)?;
        let (offset, q) = read_varuint(input, p, 32)?;
        Ok((MemoryImmediate { flags: flags as u32, offset: offset as u32 }, q))
    }
}

impl Operation {
    /// Decodes one instruction: its opcode, then its immediates.
    pub fn parse(input: &[u8], pos: usize) -> (res: Result<(Operation, usize), ParseError>)
        ensures
            outcome(res) == spec_parse_operation(input@, pos as int),
    {
        let (b, p) = read_byte(input, pos)?;
        if b == 0x02 || b == 0x03 || b == 0x04 {
            let (t, q) = BlockType::parse(input, p)?;
            let op = if b == 0x02 {
                Operation::Block(t)
            } else if b == 0x03 {
                Operation::Loop(t)
            } else {
                Operation::If(t)
            };
            Ok((op, q))
        } else if b == 0x0c || b == 0x0d {
            let (v, q) = read_varuint(input, p, 32)?;
            let op = if b == 0x0c {
                Operation::Branch(v as u32)
            } else {
                Operation::BranchIf(v as u32)
            };
            Ok((op, q))
        } else if b == 0x0e {
            let (t, q) = BranchTable::parse(input, p)?;
            Ok((Operation::BranchTable(t), q))
        } else if b == 0x10 {
            let (v, q) = read_varuint(input, p, 32)?;
            Ok((Operation::Call(v as usize), q))
        } else if b == 0x11 {
            let (t, q) = read_varuint(input, p, 32)?;
            let (reserved, r) = read_varuint(input, q, 1)?;
            if reserved == 1 {
                return Err(ParseError::CustomError(Violation::ReservedNonZero));
            }
            Ok((Operation::CallIndirect(t as usize, false), r))
        } else if 0x20 <= b && b <= 0x24 {
            let (v, q) = read_varuint(input, p, 32)?;
            let index: usize = v as usize;
            let op = if b == 0x20 {
                Operation::GetLocal(index)
            } else if b == 0x21 {
                Operation::SetLocal(index)
            } else if b == 0x22 {
                Operation::TeeLocal(index)
            } else if b == 0x23 {
                Operation::GetGlobal(index)
            } else {
                Operation::SetGlobal(index)
            };
            Ok((op, q))
        } else if 0x28 <= b && b <= 0x3e {
            let (m, q) = MemoryImmediate::parse(input, p)?;
            match memory_operation(b, m) {
                Some(op) => Ok((op, q)),
                None => Err(ParseError::CustomError(Violation::UnknownOpcode)),
            }
        } else if b == 0x3f || b == 0x40 {
            let (reserved, q) = read_varuint(input, p, 1)?;
            let op = if b == 0x3f {
                Operation::CurrentMemory(reserved == 1)
            } else {
                Operation::GrowMemory(reserved == 1)
            };
            Ok((op, q))
        } else if b == 0x41 {
            proof {
                lemma_within_64_no_overflow(input@, p as int, 32);
            }
            let (v, q) = read_varint(input, p, 32)?;
            Ok((Operation::I32Const(v as i32), q))
        } else if b == 0x42 {
            proof {
                lemma_within_64_no_overflow(input@, p as int, 64);
            }
            let (v, q) = read_varint(input, p, 64)?;
            Ok((Operation::I64Const(v), q))
        } else if b == 0x43 {
            let (v, q) = read_u32_le(input, p)?;
            Ok((Operation::F32Const(u32_to_f32_bits(v)), q))
        } else if b == 0x44 {
            let (v, q) = read_u64_le(input, p)?;
            Ok((Operation::F64Const(u64_to_f64_bits(v)), q))
        } else {
            match simple_operation(b) {
                Some(op) => Ok((op, p)),
                None => Err(ParseError::CustomError(Violation::UnknownOpcode)),
            }
        }
    }

    /// Decodes instructions up to the `end` that closes the function body, with
    /// `block`, `loop` and `if` each needing an `end` of their own.
    pub fn parse_multiple(input: &[u8], pos: usize) -> (res: Result<(Vec<Operation>, usize), ParseError>)
        ensures
            match res {
                Ok((ops, p)) => spec_parse_operations(input@, pos as int, 1, Seq::empty()) == Ok::<(Seq<OperationView>, int), ParseError>(
                    (operation_views(ops@), p as int),
                ),
                Err(e) => spec_parse_operations(input@, pos as int, 1, Seq::empty()) == Err::<(Seq<OperationView>, int), ParseError>(e),
            },
    {
        let mut ops: Vec<Operation> = Vec::new();
        if pos >= input.len() {
            return Err(ParseError::Io(crate::leb::ReadError::UnexpectedEof));
        }
        let mut depth: u128 = 1;
        let mut p: usize = pos;
        assert(operation_views(ops@) =~= Seq::empty());
        loop
            invariant
                pos <= p <= input.len(),
                1 <= depth <= (p - pos) + 1,
                spec_parse_operations(input@, pos as int, 1, Seq::empty()) == spec_parse_operations(
                    input@,
                    p as int,
                    depth as nat,
                    operation_views(ops@),
                ),
            decreases input.len() - p,
        {
            let (op, q) = match Operation::parse(input, p) {
                Ok(r) => r,
                Err(e) => {
                    return Err(e);
                },
            };
            proof {
                lemma_operation_advances(input@, p as int);
            }
            let ghost before = ops@;
            let ghost old_depth = depth as nat;
            match op {
                Operation::End => {
                    depth = depth - 1;
                },
                Operation::Block(_) => {
                    depth = depth + 1;
                },
                Operation::Loop(_) => {
                    depth = depth + 1;
                },
                Operation::If(_) => {
                    depth = depth + 1;
                },
                _ => {},
            }
            assert(depth as nat == depth_after(old_depth, op@));
            ops.push(op);
            p = q;
            proof {
                assert(operation_views(ops@) =~= operation_views(before).push(op@));
            }
            if depth == 0 {
                return Ok((ops, p));
            }
        }
    }
}

} // verus!
