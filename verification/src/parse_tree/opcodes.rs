//! The MVP opcodes of the instructions, and what decoding them gives.
use crate::parse_tree::language_types::spec_memory_operation;
use crate::parse_tree::language_types::spec_simple_operation;
use crate::parse_tree::language_types::MemoryImmediate;
use crate::parse_tree::language_types::Operation;
use crate::parse_tree::language_types::ValueType;
use crate::runtime_tree::numeric::binary_operand;
use crate::runtime_tree::numeric::unary_operand;
use vstd::prelude::*;

verus! {

/// The opcode of an instruction without immediates in the MVP binary format.
pub open spec fn simple_opcode(op: Operation) -> Option<u8> {
    match op {
        Operation::Unreachable => Some(0x00),
        Operation::Nop => Some(0x01),
        Operation::Else => Some(0x05),
        Operation::End => Some(0x0b),
        Operation::Return => Some(0x0f),
        Operation::Drop => Some(0x1a),
        Operation::Select => Some(0x1b),
        Operation::I32Eqz => Some(0x45),
        Operation::I32Eq => Some(0x46),
        Operation::I32Ne => Some(0x47),
        Operation::I32LtS => Some(0x48),
        Operation::I32LtU => Some(0x49),
        Operation::I32GtS => Some(0x4a),
        Operation::I32GtU => Some(0x4b),
        Operation::I32LeS => Some(0x4c),
        Operation::I32LeU => Some(0x4d),
        Operation::I32GeS => Some(0x4e),
        Operation::I32GeU => Some(0x4f),
        Operation::I64Eqz => Some(0x50),
        Operation::I64Eq => Some(0x51),
        Operation::I64Ne => Some(0x52),
        Operation::I64LtS => Some(0x53),
        Operation::I64LtU => Some(0x54),
        Operation::I64GtS => Some(0x55),
        Operation::I64GtU => Some(0x56),
        Operation::I64LeS => Some(0x57),
        Operation::I64LeU => Some(0x58),
        Operation::I64GeS => Some(0x59),
        Operation::I64GeU => Some(0x5a),
        Operation::F32Eq => Some(0x5b),
        Operation::F32Ne => Some(0x5c),
        Operation::F32Lt => Some(0x5d),
        Operation::F32Gt => Some(0x5e),
        Operation::F32Le => Some(0x5f),
        Operation::F32Ge => Some(0x60),
        Operation::F64Eq => Some(0x61),
        Operation::F64Ne => Some(0x62),
        Operation::F64Lt => Some(0x63),
        Operation::F64Gt => Some(0x64),
        Operation::F64Le => Some(0x65),
        Operation::F64Ge => Some(0x66),
        Operation::I32Clz => Some(0x67),
        Operation::I32Ctz => Some(0x68),
        Operation::I32Popcnt => Some(0x69),
        Operation::I32Add => Some(0x6a),
        Operation::I32Sub => Some(0x6b),
        Operation::I32Mul => Some(0x6c),
        Operation::I32DivS => Some(0x6d),
        Operation::I32DivU => Some(0x6e),
        Operation::I32RemS => Some(0x6f),
        Operation::I32RemU => Some(0x70),
        Operation::I32And => Some(0x71),
        Operation::I32Or => Some(0x72),
        Operation::I32Xor => Some(0x73),
        Operation::I32Shl => Some(0x74),
        Operation::I32ShrS => Some(0x75),
        Operation::I32ShrU => Some(0x76),
        Operation::I32Rotl => Some(0x77),
        Operation::I32Rotr => Some(0x78),
        Operation::I64Clz => Some(0x79),
        Operation::I64Ctz => Some(0x7a),
        Operation::I64Popcnt => Some(0x7b),
        Operation::I64Add => Some(0x7c),
        Operation::I64Sub => Some(0x7d),
        Operation::I64Mul => Some(0x7e),
        Operation::I64DivS => Some(0x7f),
        Operation::I64DivU => Some(0x80),
        Operation::I64RemS => Some(0x81),
        Operation::I64RemU => Some(0x82),
        Operation::I64And => Some(0x83),
        Operation::I64Or => Some(0x84),
        Operation::I64Xor => Some(0x85),
        Operation::I64Shl => Some(0x86),
        Operation::I64ShrS => Some(0x87),
        Operation::I64ShrU => Some(0x88),
        Operation::I64Rotl => Some(0x89),
        Operation::I64Rotr => Some(0x8a),
        Operation::F32Abs => Some(0x8b),
        Operation::F32Neg => Some(0x8c),
        Operation::F32Ceil => Some(0x8d),
        Operation::F32Floor => Some(0x8e),
        Operation::F32Trunc => Some(0x8f),
        Operation::F32Nearest => Some(0x90),
        Operation::F32Sqrt => Some(0x91),
        Operation::F32Add => Some(0x92),
        Operation::F32Sub => Some(0x93),
        Operation::F32Mul => Some(0x94),
        Operation::F32Div => Some(0x95),
        Operation::F32Min => Some(0x96),
        Operation::F32Max => Some(0x97),
        Operation::F32Copysign => Some(0x98),
        Operation::F64Abs => Some(0x99),
        Operation::F64Neg => Some(0x9a),
        Operation::F64Ceil => Some(0x9b),
        Operation::F64Floor => Some(0x9c),
        Operation::F64Trunc => Some(0x9d),
        Operation::F64Nearest => Some(0x9e),
        Operation::F64Sqrt => Some(0x9f),
        Operation::F64Add => Some(0xa0),
        Operation::F64Sub => Some(0xa1),
        Operation::F64Mul => Some(0xa2),
        Operation::F64Div => Some(0xa3),
        Operation::F64Min => Some(0xa4),
        Operation::F64Max => Some(0xa5),
        Operation::F64Copysign => Some(0xa6),
        Operation::I32WrapI64 => Some(0xa7),
        Operation::I32TruncSF32 => Some(0xa8),
        Operation::I32TruncUF32 => Some(0xa9),
        Operation::I32TruncSF64 => Some(0xaa),
        Operation::I32TruncUF64 => Some(0xab),
        Operation::I64ExtendSI32 => Some(0xac),
        Operation::I64ExtendUI32 => Some(0xad),
        Operation::I64TruncSF32 => Some(0xae),
        Operation::I64TruncUF32 => Some(0xaf),
        Operation::I64TruncSF64 => Some(0xb0),
        Operation::I64TruncUF64 => Some(0xb1),
        Operation::F32ConvertSI32 => Some(0xb2),
        Operation::F32ConvertUI32 => Some(0xb3),
        Operation::F32ConvertSI64 => Some(0xb4),
        Operation::F32ConvertUI64 => Some(0xb5),
        Operation::F32DemoteF64 => Some(0xb6),
        Operation::F64ConvertSI32 => Some(0xb7),
        Operation::F64ConvertUI32 => Some(0xb8),
        Operation::F64ConvertSI64 => Some(0xb9),
        Operation::F64ConvertUI64 => Some(0xba),
        Operation::F64PromoteF32 => Some(0xbb),
        Operation::I32ReinterpretF32 => Some(0xbc),
        Operation::I64ReinterpretF64 => Some(0xbd),
        Operation::F32ReinterpretI32 => Some(0xbe),
        Operation::F64ReinterpretI64 => Some(0xbf),
        _ => None,
    }
}

/// The opcode of a load or store in the MVP binary format, and its immediate.
pub open spec fn memory_opcode(op: Operation) -> Option<(u8, MemoryImmediate)> {
    match op {
        Operation::I32Load(m) => Some((0x28, m)),
        Operation::I64Load(m) => Some((0x29, m)),
        Operation::F32Load(m) => Some((0x2a, m)),
        Operation::F64Load(m) => Some((0x2b, m)),
        Operation::I32Load8S(m) => Some((0x2c, m)),
        Operation::I32Load8U(m) => Some((0x2d, m)),
        Operation::I32Load16S(m) => Some((0x2e, m)),
        Operation::I32Load16U(m) => Some((0x2f, m)),
        Operation::I64Load8S(m) => Some((0x30, m)),
        Operation::I64Load8U(m) => Some((0x31, m)),
        Operation::I64Load16S(m) => Some((0x32, m)),
        Operation::I64Load16U(m) => Some((0x33, m)),
        Operation::I64Load32S(m) => Some((0x34, m)),
        Operation::I64Load32U(m) => Some((0x35, m)),
        Operation::I32Store(m) => Some((0x36, m)),
        Operation::I64Store(m) => Some((0x37, m)),
        Operation::F32Store(m) => Some((0x38, m)),
        Operation::F64Store(m) => Some((0x39, m)),
        Operation::I32Store8(m) => Some((0x3a, m)),
        Operation::I32Store16(m) => Some((0x3b, m)),
        Operation::I64Store8(m) => Some((0x3c, m)),
        Operation::I64Store16(m) => Some((0x3d, m)),
        Operation::I64Store32(m) => Some((0x3e, m)),
        _ => None,
    }
}

/// Decoding an opcode without immediates inverts the MVP opcode table: an
/// opcode decodes to the instruction whose opcode it is, and the opcode of
/// every such instruction decodes back to it.
pub proof fn lemma_simple_opcodes(b: u8, op: Operation)
    ensures
        spec_simple_operation(b) == Some(op) ==> simple_opcode(op) == Some(b),
        simple_opcode(op) == Some(b) ==> spec_simple_operation(b) == Some(op),
{
}

/// Distinct opcodes decode to distinct instructions.
pub proof fn lemma_simple_opcodes_distinct(b1: u8, b2: u8)
    ensures
        spec_simple_operation(b1) is Some && spec_simple_operation(b1) == spec_simple_operation(b2) ==> b1 == b2,
{
    if spec_simple_operation(b1) is Some && spec_simple_operation(b1) == spec_simple_operation(b2) {
        lemma_simple_opcodes(b1, spec_simple_operation(b1)->0);
        lemma_simple_opcodes(b2, spec_simple_operation(b1)->0);
    }
}

/// The opcode ranges of the MVP table: 0x46 to 0x4f are the tests of two
/// `i32` values and 0x51 to 0x5a those of two `i64` values; 0x6a to 0x78 take
/// two `i32` values and 0x7c to 0x8a two `i64` values; 0x45 and 0x67 to 0x69
/// take one `i32`, 0x50 and 0x79 to 0x7b one `i64`; 0x46 is `i32.eq` and 0x47
/// `i32.ne`.
pub proof fn lemma_opcode_ranges(b: u8)
    ensures
        0x46 <= b <= 0x4f ==> (spec_simple_operation(b) matches Some(op) && binary_operand(op) == Some(ValueType::I32)),
        0x51 <= b <= 0x5a ==> (spec_simple_operation(b) matches Some(op) && binary_operand(op) == Some(ValueType::I64)),
        0x6a <= b <= 0x78 ==> (spec_simple_operation(b) matches Some(op) && binary_operand(op) == Some(ValueType::I32)),
        0x7c <= b <= 0x8a ==> (spec_simple_operation(b) matches Some(op) && binary_operand(op) == Some(ValueType::I64)),
        (b == 0x45 || 0x67 <= b <= 0x69) ==> (spec_simple_operation(b) matches Some(op) && unary_operand(op) == Some(ValueType::I32)),
        (b == 0x50 || 0x79 <= b <= 0x7b) ==> (spec_simple_operation(b) matches Some(op) && unary_operand(op) == Some(ValueType::I64)),
        spec_simple_operation(0x46) == Some(Operation::I32Eq),
        spec_simple_operation(0x47) == Some(Operation::I32Ne),
{
}

/// Decoding a load or store opcode inverts the MVP opcode table, and keeps the
/// immediate.
pub proof fn lemma_memory_opcodes(b: u8, m: MemoryImmediate, op: Operation)
    ensures
        spec_memory_operation(b, m) == Some(op) ==> memory_opcode(op) == Some((b, m)),
        memory_opcode(op) == Some((b, m)) ==> spec_memory_operation(b, m) == Some(op),
{
}

/// Distinct load and store opcodes decode to distinct instructions.
pub proof fn lemma_memory_opcodes_distinct(b1: u8, b2: u8, m: MemoryImmediate)
    ensures
        spec_memory_operation(b1, m) is Some && spec_memory_operation(b1, m) == spec_memory_operation(b2, m) ==> b1 == b2,
{
    if spec_memory_operation(b1, m) is Some && spec_memory_operation(b1, m) == spec_memory_operation(b2, m) {
        lemma_memory_opcodes(b1, m, spec_memory_operation(b1, m)->0);
        lemma_memory_opcodes(b2, m, spec_memory_operation(b1, m)->0);
    }
}

} // verus!
