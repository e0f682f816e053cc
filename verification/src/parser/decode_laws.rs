//! What decoding external kinds and limits gives, stated over all bytes.
use crate::parse_tree::language_types::ExternalKind;
use crate::parser::errors::ParseError;
use crate::parser::language_types::spec_parse_external_kind;
use crate::parser::language_types::spec_parse_limits;
use crate::parser::utils::spec_varuint;
use crate::parser::utils::spec_varint;
use crate::parser::language_types::spec_parse_operation;
use crate::parser::language_types::spec_value_type;
use crate::parser::language_types::spec_language_type;
use crate::parser::language_types::spec_parse_block_type;
use crate::parser::language_types::spec_parse_global_type;
use crate::parse_tree::language_types::LanguageType;
use crate::parse_tree::language_types::ValueType;
use crate::parse_tree::language_types::BlockType;
use crate::parse_tree::language_types::Operation;
use crate::parse_tree::language_types::OperationView;
use crate::parse_tree::opcodes::lemma_memory_opcodes;
use crate::parse_tree::opcodes::lemma_simple_opcodes;
use crate::parse_tree::opcodes::memory_opcode;
use crate::parse_tree::opcodes::simple_opcode;
use vstd::prelude::*;

verus! {

/// The kind byte of an external kind: 0 for a function, 1 for a table, 2 for
/// a memory, 3 for a global.
pub open spec fn kind_byte(k: ExternalKind) -> u8 {
    match k {
        ExternalKind::Function(_) => 0,
        ExternalKind::Table(_) => 1,
        ExternalKind::Memory(_) => 2,
        ExternalKind::Global(_) => 3,
    }
}

/// The index that an external kind names.
pub open spec fn kind_index(k: ExternalKind) -> usize {
    match k {
        ExternalKind::Function(i) => i,
        ExternalKind::Table(i) => i,
        ExternalKind::Memory(i) => i,
        ExternalKind::Global(i) => i,
    }
}

/// An external kind decodes to the kind that its byte names, with the
/// `varuint32` after the byte as its index and the position after that index;
/// a byte above 3 is refused with that byte; so distinct kind bytes never give
/// the same kind.
pub proof fn lemma_external_kind(s: Seq<u8>, pos: int)
    requires
        0 <= pos < s.len(),
    ensures
        s[pos] > 3 ==> spec_parse_external_kind(s, pos) == Err::<(ExternalKind, int), ParseError>(
            ParseError::InvalidExternalKind(s[pos]),
        ),
        s[pos] <= 3 ==> match spec_varuint(s, pos + 1, 32) {
            Err(e) => spec_parse_external_kind(s, pos) == Err::<(ExternalKind, int), ParseError>(e),
            Ok((index, q)) => spec_parse_external_kind(s, pos) matches Ok((k, r)) && kind_byte(k) == s[pos] && kind_index(k)
                == index as usize && r == q,
        },
{
}

/// Two decoded external kinds of the same kind came from the same kind byte.
pub proof fn lemma_external_kind_distinct(s1: Seq<u8>, p1: int, s2: Seq<u8>, p2: int)
    requires
        0 <= p1 < s1.len(),
        0 <= p2 < s2.len(),
        spec_parse_external_kind(s1, p1) is Ok,
        spec_parse_external_kind(s2, p2) is Ok,
        kind_byte(spec_parse_external_kind(s1, p1)->Ok_0.0) == kind_byte(spec_parse_external_kind(s2, p2)->Ok_0.0),
    ensures
        s1[p1] == s2[p2],
{
    lemma_external_kind(s1, p1);
    lemma_external_kind(s2, p2);
}

/// Decoded limits have a maximum exactly when their `varuint1` flag is 1: the
/// initial size is the `varuint32` after the flag, the maximum the
/// `varuint32` after the initial size, and decoding ends after the last field
/// read.
pub proof fn lemma_limits(s: Seq<u8>, pos: int)
    ensures
        spec_parse_limits(s, pos) matches Ok((l, end)) ==> (spec_varuint(s, pos, 1) matches Ok((flag, p)) && spec_varuint(
            s,
            p,
            32,
        ) matches Ok((initial, q)) && l.initial == initial && (l.maximum is Some <==> flag == 1) && (flag == 1 ==> (
        spec_varuint(s, q, 32) matches Ok((maximum, r)) && l.maximum == Some(maximum) && end == r)) && (flag != 1 ==> end
            == q)),
{
}


/// The opcode of an instruction in the MVP binary format.
pub open spec fn opcode_of(op: OperationView) -> Option<u8> {
    match op {
        OperationView::BranchTable(_) => Some(0x0e),
        OperationView::Plain(o) => match o {
            Operation::Block(_) => Some(0x02),
            Operation::Loop(_) => Some(0x03),
            Operation::If(_) => Some(0x04),
            Operation::Branch(_) => Some(0x0c),
            Operation::BranchIf(_) => Some(0x0d),
            Operation::BranchTable(_) => None,
            Operation::Call(_) => Some(0x10),
            Operation::CallIndirect(_, _) => Some(0x11),
            Operation::GetLocal(_) => Some(0x20),
            Operation::SetLocal(_) => Some(0x21),
            Operation::TeeLocal(_) => Some(0x22),
            Operation::GetGlobal(_) => Some(0x23),
            Operation::SetGlobal(_) => Some(0x24),
            Operation::CurrentMemory(_) => Some(0x3f),
            Operation::GrowMemory(_) => Some(0x40),
            Operation::I32Const(_) => Some(0x41),
            Operation::I64Const(_) => Some(0x42),
            Operation::F32Const(_) => Some(0x43),
            Operation::F64Const(_) => Some(0x44),
            _ => match memory_opcode(o) {
                Some((b, _)) => Some(b),
                None => simple_opcode(o),
            },
        },
    }
}

/// A decoded instruction is the one its opcode byte names; an instruction
/// without immediates takes that byte alone.
pub proof fn lemma_operation_opcode(s: Seq<u8>, pos: int)
    ensures
        spec_parse_operation(s, pos) matches Ok((op, q)) ==> 0 <= pos < s.len() && opcode_of(op) == Some(s[pos]),
        spec_parse_operation(s, pos) matches Ok((OperationView::Plain(o), q)) ==> (simple_opcode(o) is Some ==> q == pos
            + 1),
{
    if 0 <= pos < s.len() {
        let b = s[pos];
        if let Ok((op, q)) = spec_parse_operation(s, pos) {
            if let OperationView::Plain(o) = op {
                lemma_simple_opcodes(b, o);
                if 0x28 <= b <= 0x3e {
                    if let Ok((m, _)) = crate::parser::language_types::spec_parse_memory_immediate(s, pos + 1) {
                        lemma_memory_opcodes(b, m, o);
                    }
                }
            }
        }
    }
}


/// `br`, `br_if` and `call` take a `varuint32` index after their opcode, the
/// local and global accesses too; `i32.const` and `i64.const` take a signed
/// LEB128 number of 32 and 64 bits.
pub proof fn lemma_operation_immediates(s: Seq<u8>, pos: int)
    ensures
        spec_parse_operation(s, pos) matches Ok((OperationView::Plain(Operation::Branch(n)), q)) ==> (spec_varuint(
            s,
            pos + 1,
            32,
        ) matches Ok((v, r)) && n == v as u32 && q == r),
        spec_parse_operation(s, pos) matches Ok((OperationView::Plain(Operation::BranchIf(n)), q)) ==> (spec_varuint(
            s,
            pos + 1,
            32,
        ) matches Ok((v, r)) && n == v as u32 && q == r),
        spec_parse_operation(s, pos) matches Ok((OperationView::Plain(Operation::Call(n)), q)) ==> (spec_varuint(
            s,
            pos + 1,
            32,
        ) matches Ok((v, r)) && n == v as usize && q == r),
        spec_parse_operation(s, pos) matches Ok((OperationView::Plain(Operation::GetLocal(n)), q)) ==> (spec_varuint(
            s,
            pos + 1,
            32,
        ) matches Ok((v, r)) && n == v as usize && q == r),
        spec_parse_operation(s, pos) matches Ok((OperationView::Plain(Operation::SetLocal(n)), q)) ==> (spec_varuint(
            s,
            pos + 1,
            32,
        ) matches Ok((v, r)) && n == v as usize && q == r),
        spec_parse_operation(s, pos) matches Ok((OperationView::Plain(Operation::TeeLocal(n)), q)) ==> (spec_varuint(
            s,
            pos + 1,
            32,
        ) matches Ok((v, r)) && n == v as usize && q == r),
        spec_parse_operation(s, pos) matches Ok((OperationView::Plain(Operation::GetGlobal(n)), q)) ==> (spec_varuint(
            s,
            pos + 1,
            32,
        ) matches Ok((v, r)) && n == v as usize && q == r),
        spec_parse_operation(s, pos) matches Ok((OperationView::Plain(Operation::SetGlobal(n)), q)) ==> (spec_varuint(
            s,
            pos + 1,
            32,
        ) matches Ok((v, r)) && n == v as usize && q == r),
        spec_parse_operation(s, pos) matches Ok((OperationView::Plain(Operation::I32Const(c)), q)) ==> (spec_varint(
            s,
            pos + 1,
            32,
        ) matches Ok((v, r)) && c == v as i32 && q == r),
        spec_parse_operation(s, pos) matches Ok((OperationView::Plain(Operation::I64Const(c)), q)) ==> (spec_varint(
            s,
            pos + 1,
            64,
        ) matches Ok((v, r)) && c == v && q == r),
{
}

/// A load or store takes its alignment flags and then its offset after its
/// opcode, each a `varuint32`.
pub proof fn lemma_memory_immediate_order(s: Seq<u8>, pos: int)
    ensures
        spec_parse_operation(s, pos) matches Ok((OperationView::Plain(o), q)) ==> (memory_opcode(o) matches Some((_, m))
            ==> (spec_varuint(s, pos + 1, 32) matches Ok((flags, r1)) && (spec_varuint(s, r1, 32) matches Ok((offset, r2))
            && m.flags == flags as u32 && m.offset == offset as u32 && q == r2))),
{
    if 0 <= pos < s.len() {
        let b = s[pos];
        if let Ok((op, q)) = spec_parse_operation(s, pos) {
            if let OperationView::Plain(o) = op {
                lemma_simple_opcodes(b, o);
                if 0x28 <= b <= 0x3e {
                    if let Ok((m, _)) = crate::parser::language_types::spec_parse_memory_immediate(s, pos + 1) {
                        lemma_memory_opcodes(b, m, o);
                    }
                }
            }
        }
    }
}



/// The type code of a value type: -1 for `i32`, -2 for `i64`, -3 for `f32`,
/// -4 for `f64`.
pub open spec fn value_type_code(t: ValueType) -> i64 {
    match t {
        ValueType::I32 => -0x01i64,
        ValueType::I64 => -0x02i64,
        ValueType::F32 => -0x03i64,
        ValueType::F64 => -0x04i64,
    }
}

/// The type code of a language type: a value type's, -0x10 for `anyfunc`,
/// -0x20 for `func`, -0x40 for the empty block type.
pub open spec fn language_type_code(t: LanguageType) -> i64 {
    match t {
        LanguageType::Value(v) => value_type_code(v),
        LanguageType::Anyfunc => -0x10i64,
        LanguageType::Func => -0x20i64,
        LanguageType::EmptyBlock => -0x40i64,
    }
}

/// A type code decodes to the type whose code it is, every type's code
/// decodes to it, and any other code is refused; a block type is a value type
/// or the empty block type (-0x40), read as a `varint7`.
pub proof fn lemma_type_codes(key: i64, t: ValueType, l: LanguageType, s: Seq<u8>, pos: int)
    ensures
        spec_value_type(key) == Ok::<ValueType, ParseError>(t) <==> value_type_code(t) == key,
        spec_value_type(key) is Err <==> !(-4 <= key <= -1),
        spec_language_type(key) == Ok::<LanguageType, ParseError>(l) <==> language_type_code(l) == key,
        spec_language_type(key) is Err <==> !(-4 <= key <= -1 || key == -0x10 || key == -0x20 || key == -0x40),
        spec_parse_block_type(s, pos) matches Ok((b, q)) ==> (spec_varint(s, pos, 7) matches Ok((k, r)) && q == r && (
        match b {
            BlockType::Value(v) => value_type_code(v) == k,
            BlockType::Empty => k == -0x40,
        })),
{
}

/// A global type is a value type and then a `varuint1` mutability flag: the
/// global is mutable exactly when the flag is 1.
pub proof fn lemma_global_type(s: Seq<u8>, pos: int)
    ensures
        spec_parse_global_type(s, pos) matches Ok((g, q)) ==> (spec_varint(s, pos, 7) matches Ok((k, p)) && (value_type_code(
            g.content_type,
        ) == k && (spec_varuint(s, p, 1) matches Ok((m, r)) && q == r && (g.mutability <==> m == 1)))),
{
}

} // verus!
