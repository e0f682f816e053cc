//! Turning a decoded module's functions into functions that can run.
//!
//! The decoder gives a function's instructions in flat form, with `block`,
//! `loop` and `if` as markers that an `end` closes; running them needs the
//! nested form, where such an instruction holds its own instructions up to and
//! including the `end` that closes it.
use crate::parse_tree::functions::operation_views;
use crate::parse_tree::functions::FuncBody;
use crate::parse_tree::functions::FuncSignature;
use crate::parse_tree::language_types::Block;
use crate::parse_tree::language_types::BlockType;
use crate::parse_tree::language_types::BranchTable;
use crate::parse_tree::language_types::ExternalKind;
use crate::parse_tree::language_types::Instruction;
use crate::parse_tree::language_types::Operation;
use crate::parse_tree::language_types::OperationView;
use crate::parse_tree::language_types::ValueType;
use crate::parse_tree::types::TypeDefinition;
use crate::parser::errors::ParseError;
use crate::parser::errors::Violation;
use crate::tree::imports::gets_slot;
use crate::tree::imports::imports_function_from;
use crate::tree::imports::listed;
use crate::tree::imports::slot_step;
use crate::tree::imports::ImportEntry;
use crate::tree::Module;
use crate::runtime_tree::Func;
use vstd::prelude::*;

verus! {

/// Whether an instruction opens a construct: `block`, `loop` or `if`.
pub open spec fn is_opener(op: Operation) -> bool {
    op is Block || op is Loop || op is If
}

/// Whether nested instructions end with an `end`.
pub open spec fn closed(s: Seq<Instruction>) -> bool {
    s.len() > 0 && s[s.len() - 1] == Instruction::Op(Operation::End)
}

/// Nested instructions in flat form, as values: each construct as its marker
/// followed by its own instructions.
pub open spec fn flatten(s: Seq<Instruction>) -> Seq<OperationView>
    decreases s,
{
    if s.len() == 0 {
        Seq::empty()
    } else {
        flatten(s.subrange(0, s.len() - 1)) + flatten_one(s[s.len() - 1])
    }
}

/// One nested instruction in flat form, as values.
pub open spec fn flatten_one(i: Instruction) -> Seq<OperationView>
    decreases i,
{
    match i {
        Instruction::Block(b) => seq![OperationView::Plain(Operation::Block(b.block_type))] + flatten(b.operations@),
        Instruction::Loop(b) => seq![OperationView::Plain(Operation::Loop(b.block_type))] + flatten(b.operations@),
        Instruction::If(b) => seq![OperationView::Plain(Operation::If(b.block_type))] + flatten(b.operations@),
        Instruction::Op(op) => seq![op@],
    }
}

/// Whether a nested instruction is in order at a level (`inner` for a level
/// inside a construct) where `last` says whether it is the level's last: no
/// plain instruction is a construct's marker, an `end` inside a construct comes
/// last, and a construct without its `end` comes last.
pub open spec fn item_ok(i: Instruction, inner: bool, last: bool) -> bool
    decreases i,
{
    match i {
        Instruction::Op(op) => !is_opener(op) && (inner && op == Operation::End ==> last),
        Instruction::Block(b) => well_nested(b.operations@, true) && (closed(b.operations@) || last),
        Instruction::Loop(b) => well_nested(b.operations@, true) && (closed(b.operations@) || last),
        Instruction::If(b) => well_nested(b.operations@, true) && (closed(b.operations@) || last),
    }
}

/// Whether every instruction of a level is in order as one that is not last.
pub open spec fn all_ok(s: Seq<Instruction>, inner: bool) -> bool
    decreases s,
{
    if s.len() == 0 {
        true
    } else {
        all_ok(s.subrange(0, s.len() - 1), inner) && item_ok(s[s.len() - 1], inner, false)
    }
}

/// Whether a level of nested instructions is in order.
pub open spec fn well_nested(s: Seq<Instruction>, inner: bool) -> bool
    decreases s,
{
    if s.len() == 0 {
        true
    } else {
        all_ok(s.subrange(0, s.len() - 1), inner) && item_ok(s[s.len() - 1], inner, true)
    }
}

proof fn lemma_item_ok_last(i: Instruction, inner: bool)
    requires
        item_ok(i, inner, false),
    ensures
        item_ok(i, inner, true),
{
}

proof fn lemma_all_ok_well_nested(s: Seq<Instruction>, inner: bool)
    requires
        all_ok(s, inner),
    ensures
        well_nested(s, inner),
{
    if s.len() > 0 {
        lemma_item_ok_last(s[s.len() - 1], inner);
    }
}

proof fn lemma_push(s: Seq<Instruction>, x: Instruction)
    ensures
        flatten(s.push(x)) == flatten(s) + flatten_one(x),
        all_ok(s.push(x), false) == (all_ok(s, false) && item_ok(x, false, false)),
        all_ok(s.push(x), true) == (all_ok(s, true) && item_ok(x, true, false)),
        well_nested(s.push(x), false) == (all_ok(s, false) && item_ok(x, false, true)),
        well_nested(s.push(x), true) == (all_ok(s, true) && item_ok(x, true, true)),
{
    assert(s.push(x).subrange(0, s.len() as int) =~= s);
}

/// A copy of a `br_table` immediate.
fn copy_branch_table(bt: &BranchTable) -> (r: BranchTable)
    ensures
        r@ == bt@,
{
    let mut targets: Vec<u32> = Vec::new();
    let mut k: usize = 0;
    while k < bt.targets.len()
        invariant
            k <= bt.targets.len(),
            targets@ == bt.targets@.take(k as int),
        decreases bt.targets.len() - k,
    {
        targets.push(bt.targets[k]);
        k = k + 1;
        assert(targets@ =~= bt.targets@.take(k as int));
    }
    assert(targets@ =~= bt.targets@);
    BranchTable { targets, default: bt.default }
}

/// A copy of an instruction.
pub fn copy_operation(op: &Operation) -> (r: Operation)
    ensures
        r@ == op@,
        !is_opener(*op) ==> !is_opener(r),
        r == Operation::End <==> *op == Operation::End,
{
    match op {
        Operation::Unreachable => Operation::Unreachable,
        Operation::Nop => Operation::Nop,
        Operation::Block(x0) => Operation::Block(*x0),
        Operation::Loop(x0) => Operation::Loop(*x0),
        Operation::If(x0) => Operation::If(*x0),
        Operation::Else => Operation::Else,
        Operation::End => Operation::End,
        Operation::Branch(x0) => Operation::Branch(*x0),
        Operation::BranchIf(x0) => Operation::BranchIf(*x0),
        Operation::BranchTable(bt) => Operation::BranchTable(copy_branch_table(bt)),
        Operation::Return => Operation::Return,
        Operation::Call(x0) => Operation::Call(*x0),
        Operation::CallIndirect(x0, x1) => Operation::CallIndirect(*x0, *x1),
        Operation::Drop => Operation::Drop,
        Operation::Select => Operation::Select,
        Operation::GetLocal(x0) => Operation::GetLocal(*x0),
        Operation::SetLocal(x0) => Operation::SetLocal(*x0),
        Operation::TeeLocal(x0) => Operation::TeeLocal(*x0),
        Operation::GetGlobal(x0) => Operation::GetGlobal(*x0),
        Operation::SetGlobal(x0) => Operation::SetGlobal(*x0),
        Operation::I32Load(x0) => Operation::I32Load(*x0),
        Operation::I64Load(x0) => Operation::I64Load(*x0),
        Operation::F32Load(x0) => Operation::F32Load(*x0),
        Operation::F64Load(x0) => Operation::F64Load(*x0),
        Operation::I32Load8S(x0) => Operation::I32Load8S(*x0),
        Operation::I32Load8U(x0) => Operation::I32Load8U(*x0),
        Operation::I32Load16S(x0) => Operation::I32Load16S(*x0),
        Operation::I32Load16U(x0) => Operation::I32Load16U(*x0),
        Operation::I64Load8S(x0) => Operation::I64Load8S(*x0),
        Operation::I64Load8U(x0) => Operation::I64Load8U(*x0),
        Operation::I64Load16S(x0) => Operation::I64Load16S(*x0),
        Operation::I64Load16U(x0) => Operation::I64Load16U(*x0),
        Operation::I64Load32S(x0) => Operation::I64Load32S(*x0),
        Operation::I64Load32U(x0) => Operation::I64Load32U(*x0),
        Operation::I32Store(x0) => Operation::I32Store(*x0),
        Operation::I64Store(x0) => Operation::I64Store(*x0),
        Operation::F32Store(x0) => Operation::F32Store(*x0),
        Operation::F64Store(x0) => Operation::F64Store(*x0),
        Operation::I32Store8(x0) => Operation::I32Store8(*x0),
        Operation::I32Store16(x0) => Operation::I32Store16(*x0),
        Operation::I64Store8(x0) => Operation::I64Store8(*x0),
        Operation::I64Store16(x0) => Operation::I64Store16(*x0),
        Operation::I64Store32(x0) => Operation::I64Store32(*x0),
        Operation::CurrentMemory(x0) => Operation::CurrentMemory(*x0),
        Operation::GrowMemory(x0) => Operation::GrowMemory(*x0),
        Operation::I32Const(x0) => Operation::I32Const(*x0),
        Operation::I64Const(x0) => Operation::I64Const(*x0),
        Operation::F32Const(x0) => Operation::F32Const(*x0),
        Operation::F64Const(x0) => Operation::F64Const(*x0),
        Operation::I32Eqz => Operation::I32Eqz,
        Operation::I32Eq => Operation::I32Eq,
        Operation::I32Ne => Operation::I32Ne,
        Operation::I32LtS => Operation::I32LtS,
        Operation::I32LtU => Operation::I32LtU,
        Operation::I32GtS => Operation::I32GtS,
        Operation::I32GtU => Operation::I32GtU,
        Operation::I32LeS => Operation::I32LeS,
        Operation::I32LeU => Operation::I32LeU,
        Operation::I32GeS => Operation::I32GeS,
        Operation::I32GeU => Operation::I32GeU,
        Operation::I64Eqz => Operation::I64Eqz,
        Operation::I64Eq => Operation::I64Eq,
        Operation::I64Ne => Operation::I64Ne,
        Operation::I64LtS => Operation::I64LtS,
        Operation::I64LtU => Operation::I64LtU,
        Operation::I64GtS => Operation::I64GtS,
        Operation::I64GtU => Operation::I64GtU,
        Operation::I64LeS => Operation::I64LeS,
        Operation::I64LeU => Operation::I64LeU,
        Operation::I64GeS => Operation::I64GeS,
        Operation::I64GeU => Operation::I64GeU,
        Operation::F32Eq => Operation::F32Eq,
        Operation::F32Ne => Operation::F32Ne,
        Operation::F32Lt => Operation::F32Lt,
        Operation::F32Gt => Operation::F32Gt,
        Operation::F32Le => Operation::F32Le,
        Operation::F32Ge => Operation::F32Ge,
        Operation::F64Eq => Operation::F64Eq,
        Operation::F64Ne => Operation::F64Ne,
        Operation::F64Lt => Operation::F64Lt,
        Operation::F64Gt => Operation::F64Gt,
        Operation::F64Le => Operation::F64Le,
        Operation::F64Ge => Operation::F64Ge,
        Operation::I32Clz => Operation::I32Clz,
        Operation::I32Ctz => Operation::I32Ctz,
        Operation::I32Popcnt => Operation::I32Popcnt,
        Operation::I32Add => Operation::I32Add,
        Operation::I32Sub => Operation::I32Sub,
        Operation::I32Mul => Operation::I32Mul,
        Operation::I32DivS => Operation::I32DivS,
        Operation::I32DivU => Operation::I32DivU,
        Operation::I32RemS => Operation::I32RemS,
        Operation::I32RemU => Operation::I32RemU,
        Operation::I32And => Operation::I32And,
        Operation::I32Or => Operation::I32Or,
        Operation::I32Xor => Operation::I32Xor,
        Operation::I32Shl => Operation::I32Shl,
        Operation::I32ShrS => Operation::I32ShrS,
        Operation::I32ShrU => Operation::I32ShrU,
        Operation::I32Rotl => Operation::I32Rotl,
        Operation::I32Rotr => Operation::I32Rotr,
        Operation::I64Clz => Operation::I64Clz,
        Operation::I64Ctz => Operation::I64Ctz,
        Operation::I64Popcnt => Operation::I64Popcnt,
        Operation::I64Add => Operation::I64Add,
        Operation::I64Sub => Operation::I64Sub,
        Operation::I64Mul => Operation::I64Mul,
        Operation::I64DivS => Operation::I64DivS,
        Operation::I64DivU => Operation::I64DivU,
        Operation::I64RemS => Operation::I64RemS,
        Operation::I64RemU => Operation::I64RemU,
        Operation::I64And => Operation::I64And,
        Operation::I64Or => Operation::I64Or,
        Operation::I64Xor => Operation::I64Xor,
        Operation::I64Shl => Operation::I64Shl,
        Operation::I64ShrS => Operation::I64ShrS,
        Operation::I64ShrU => Operation::I64ShrU,
        Operation::I64Rotl => Operation::I64Rotl,
        Operation::I64Rotr => Operation::I64Rotr,
        Operation::F32Abs => Operation::F32Abs,
        Operation::F32Neg => Operation::F32Neg,
        Operation::F32Ceil => Operation::F32Ceil,
        Operation::F32Floor => Operation::F32Floor,
        Operation::F32Trunc => Operation::F32Trunc,
        Operation::F32Nearest => Operation::F32Nearest,
        Operation::F32Sqrt => Operation::F32Sqrt,
        Operation::F32Add => Operation::F32Add,
        Operation::F32Sub => Operation::F32Sub,
        Operation::F32Mul => Operation::F32Mul,
        Operation::F32Div => Operation::F32Div,
        Operation::F32Min => Operation::F32Min,
        Operation::F32Max => Operation::F32Max,
        Operation::F32Copysign => Operation::F32Copysign,
        Operation::F64Abs => Operation::F64Abs,
        Operation::F64Neg => Operation::F64Neg,
        Operation::F64Ceil => Operation::F64Ceil,
        Operation::F64Floor => Operation::F64Floor,
        Operation::F64Trunc => Operation::F64Trunc,
        Operation::F64Nearest => Operation::F64Nearest,
        Operation::F64Sqrt => Operation::F64Sqrt,
        Operation::F64Add => Operation::F64Add,
        Operation::F64Sub => Operation::F64Sub,
        Operation::F64Mul => Operation::F64Mul,
        Operation::F64Div => Operation::F64Div,
        Operation::F64Min => Operation::F64Min,
        Operation::F64Max => Operation::F64Max,
        Operation::F64Copysign => Operation::F64Copysign,
        Operation::I32WrapI64 => Operation::I32WrapI64,
        Operation::I32TruncSF32 => Operation::I32TruncSF32,
        Operation::I32TruncUF32 => Operation::I32TruncUF32,
        Operation::I32TruncSF64 => Operation::I32TruncSF64,
        Operation::I32TruncUF64 => Operation::I32TruncUF64,
        Operation::I64ExtendSI32 => Operation::I64ExtendSI32,
        Operation::I64ExtendUI32 => Operation::I64ExtendUI32,
        Operation::I64TruncSF32 => Operation::I64TruncSF32,
        Operation::I64TruncUF32 => Operation::I64TruncUF32,
        Operation::I64TruncSF64 => Operation::I64TruncSF64,
        Operation::I64TruncUF64 => Operation::I64TruncUF64,
        Operation::F32ConvertSI32 => Operation::F32ConvertSI32,
        Operation::F32ConvertUI32 => Operation::F32ConvertUI32,
        Operation::F32ConvertSI64 => Operation::F32ConvertSI64,
        Operation::F32ConvertUI64 => Operation::F32ConvertUI64,
        Operation::F32DemoteF64 => Operation::F32DemoteF64,
        Operation::F64ConvertSI32 => Operation::F64ConvertSI32,
        Operation::F64ConvertUI32 => Operation::F64ConvertUI32,
        Operation::F64ConvertSI64 => Operation::F64ConvertSI64,
        Operation::F64ConvertUI64 => Operation::F64ConvertUI64,
        Operation::F64PromoteF32 => Operation::F64PromoteF32,
        Operation::I32ReinterpretF32 => Operation::I32ReinterpretF32,
        Operation::I64ReinterpretF64 => Operation::I64ReinterpretF64,
        Operation::F32ReinterpretI32 => Operation::F32ReinterpretI32,
        Operation::F64ReinterpretI64 => Operation::F64ReinterpretI64,
    }
}

/// Nests the instructions of `code` from `pos` on: at an inner level up to and
/// including the `end` that closes it, at the top level to the end of `code`.
/// Gives the level's instructions and the position after them.
fn nest_level(code: &Vec<Operation>, pos: usize, inner: bool) -> (r: (Vec<Instruction>, usize))
    requires
        pos <= code@.len(),
    ensures
        pos <= r.1 <= code@.len(),
        flatten(r.0@) == operation_views(code@).subrange(pos as int, r.1 as int),
        well_nested(r.0@, inner),
        inner ==> r.1 == code@.len() || closed(r.0@),
        !inner ==> r.1 == code@.len(),
    decreases code@.len() - pos,
{
    let mut instrs: Vec<Instruction> = Vec::new();
    let mut p: usize = pos;
    while p < code.len()
        invariant
            pos <= p <= code@.len(),
            flatten(instrs@) == operation_views(code@).subrange(pos as int, p as int),
            all_ok(instrs@, inner) || (p == code@.len() && well_nested(instrs@, inner)),
        decreases code@.len() - p,
    {
        let ghost before = instrs@;
        match &code[p] {
            Operation::Block(bt) => {
                let (operations, q) = nest_level(code, p + 1, true);
                let x = Instruction::Block(Block { block_type: *bt, operations });
                instrs.push(x);
                proof {
                    lemma_push(before, x);
                    let v = operation_views(code@);
                    assert(v.subrange(pos as int, q as int) =~= v.subrange(pos as int, p as int) + seq![v[p as int]] + v.subrange(
                        p + 1,
                        q as int,
                    ));
                }
                p = q;
            },
            Operation::Loop(bt) => {
                let (operations, q) = nest_level(code, p + 1, true);
                let x = Instruction::Loop(Block { block_type: *bt, operations });
                instrs.push(x);
                proof {
                    lemma_push(before, x);
                    let v = operation_views(code@);
                    assert(v.subrange(pos as int, q as int) =~= v.subrange(pos as int, p as int) + seq![v[p as int]] + v.subrange(
                        p + 1,
                        q as int,
                    ));
                }
                p = q;
            },
            Operation::If(bt) => {
                let (operations, q) = nest_level(code, p + 1, true);
                let x = Instruction::If(Block { block_type: *bt, operations });
                instrs.push(x);
                proof {
                    lemma_push(before, x);
                    let v = operation_views(code@);
                    assert(v.subrange(pos as int, q as int) =~= v.subrange(pos as int, p as int) + seq![v[p as int]] + v.subrange(
                        p + 1,
                        q as int,
                    ));
                }
                p = q;
            },
            Operation::End => {
                let x = Instruction::Op(Operation::End);
                instrs.push(x);
                proof {
                    lemma_push(before, x);
                    let v = operation_views(code@);
                    assert(v.subrange(pos as int, p + 1) =~= v.subrange(pos as int, p as int) + seq![v[p as int]]);
                }
                p = p + 1;
                if inner {
                    return (instrs, p);
                }
            },
            op => {
                let x = Instruction::Op(copy_operation(op));
                instrs.push(x);
                proof {
                    lemma_push(before, x);
                    let v = operation_views(code@);
                    assert(v.subrange(pos as int, p + 1) =~= v.subrange(pos as int, p as int) + seq![v[p as int]]);
                }
                p = p + 1;
            },
        }
    }
    proof {
        if all_ok(instrs@, inner) {
            lemma_all_ok_well_nested(instrs@, inner);
        }
    }
    (instrs, p)
}

/// The nested form of flat instructions: its flat form is `code`, and it is in
/// order.
pub fn nest(code: &Vec<Operation>) -> (r: Vec<Instruction>)
    ensures
        flatten(r@) == operation_views(code@),
        well_nested(r@, false),
{
    let (instrs, q) = nest_level(code, 0, false);
    assert(operation_views(code@).subrange(0, q as int) =~= operation_views(code@));
    instrs
}


/// The signature indices of the function imports that get functions of the
/// instance, in order, given the functions that the host supplies by module and
/// field name (see `gets_slot`).
pub open spec fn imported_signatures(imports: Seq<ImportEntry>, supplied: Seq<(String, String)>) -> Seq<usize>
    decreases imports.len(),
{
    if imports.len() == 0 {
        Seq::empty()
    } else {
        let rest = imported_signatures(imports.drop_last(), supplied);
        if gets_slot(imports, supplied) {
            rest.push(imports.last().kind->Function_0)
        } else {
            rest
        }
    }
}

/// The number of functions that the module defines with both a signature and a
/// body.
pub open spec fn defined_count(m: Module) -> nat {
    if m.function_signatures@.len() <= m.function_bodies@.len() {
        m.function_signatures@.len()
    } else {
        m.function_bodies@.len()
    }
}

/// The block type of a function's body: its first result type, if it has one.
pub open spec fn body_block_type(results: Seq<ValueType>) -> BlockType {
    if results.len() == 0 {
        BlockType::Empty
    } else {
        BlockType::Value(results[0])
    }
}

/// Whether `f` is the function that a function import with signature index `sig`
/// becomes: that signature, no locals of its own and no body.
pub open spec fn imported_function(types: Seq<TypeDefinition>, sig: usize, f: Func) -> bool {
    &&& sig < types.len()
    &&& f.signature@ == types[sig as int]->Func_0@
    &&& f.locals@.len() == 0
    &&& f.body is None
}

/// Whether `f` is the function that a defined function with signature index `sig`
/// and body `body` becomes: that signature, the body's locals, and the body's
/// instructions nested, in a block of the first result type.
pub open spec fn defined_function(types: Seq<TypeDefinition>, sig: usize, body: FuncBody, f: Func) -> bool {
    &&& sig < types.len()
    &&& f.signature@ == types[sig as int]->Func_0@
    &&& f.locals@ == body.locals@
    &&& f.body matches Some(b) && b.block_type == body_block_type(f.signature.returns@) && flatten(b.operations@)
        == operation_views(body.code@) && well_nested(b.operations@, false)
}

/// Whether every signature index that the functions need exists.
pub open spec fn signatures_exist(m: Module, supplied: Seq<(String, String)>) -> bool {
    &&& forall|j: int|
        0 <= j < imported_signatures(m.imports@, supplied).len() ==> #[trigger] imported_signatures(m.imports@, supplied)[j]
            < m.types@.len()
    &&& forall|k: int| 0 <= k < defined_count(m) ==> #[trigger] m.function_signatures@[k] < m.types@.len()
}

/// Whether `funcs` are the module's functions in index order: one without a body
/// for each function import that gets one (see `gets_slot`), then one for each
/// function that the module defines with both a signature and a body.
pub open spec fn built_functions(m: Module, supplied: Seq<(String, String)>, funcs: Seq<Func>) -> bool {
    let imported = imported_signatures(m.imports@, supplied);
    &&& funcs.len() == imported.len() + defined_count(m)
    &&& forall|j: int| 0 <= j < imported.len() ==> imported_function(m.types@, imported[j], #[trigger] funcs[j])
    &&& forall|k: int|
        0 <= k < defined_count(m) ==> defined_function(
            m.types@,
            m.function_signatures@[k],
            m.function_bodies@[k],
            #[trigger] funcs[imported.len() + k],
        )
}

/// A copy of a list of value types.
fn copy_types(v: &Vec<ValueType>) -> (r: Vec<ValueType>)
    ensures
        r@ == v@,
{
    let mut out: Vec<ValueType> = Vec::new();
    let mut k: usize = 0;
    while k < v.len()
        invariant
            k <= v.len(),
            out@ == v@.take(k as int),
        decreases v.len() - k,
    {
        out.push(v[k]);
        k = k + 1;
        assert(out@ =~= v@.take(k as int));
    }
    assert(out@ =~= v@);
    out
}

/// A copy of the signature that a type definition holds.
pub(crate) fn signature_of(t: &TypeDefinition) -> (r: FuncSignature)
    ensures
        r@ == t->Func_0@,
{
    match t {
        TypeDefinition::Func(s) => FuncSignature { parameters: copy_types(&s.parameters), returns: copy_types(&s.returns) },
    }
}

impl Module {
    /// The module's functions in index order: first one without a body for each
    /// function import that the host supplies, where it is the first function
    /// import from its module, then one for each function that the module
    /// defines with both a signature and a body, with its instructions nested.
    /// `supplied` names the functions that the host supplies, by module and field.
    pub fn build_functions(&self, supplied: &Vec<(String, String)>) -> (res: Result<Vec<Func>, ParseError>)
        ensures
            match res {
                Ok(funcs) => signatures_exist(*self, supplied@) && built_functions(*self, supplied@, funcs@),
                Err(e) => !signatures_exist(*self, supplied@) && e == ParseError::CustomError(Violation::NoSuchSignature),
            },
    {
        let mut funcs: Vec<Func> = Vec::new();
        let ghost sup = supplied@;
        let ghost imported = imported_signatures(self.imports@, sup);
        let mut seen: Vec<String> = Vec::new();
        let mut i: usize = 0;
        while i < self.imports.len()
            invariant
                i <= self.imports@.len(),
                sup == supplied@,
                imported == imported_signatures(self.imports@, sup),
                forall|m: Seq<char>| listed(seen@, m) == imports_function_from(self.imports@.take(i as int), m),
                funcs@.len() == imported_signatures(self.imports@.subrange(0, i as int), sup).len(),
                forall|j: int|
                    0 <= j < funcs@.len() ==> imported_function(
                        self.types@,
                        imported_signatures(self.imports@.subrange(0, i as int), sup)[j],
                        #[trigger] funcs@[j],
                    ),
                forall|j: int|
                    0 <= j < imported_signatures(self.imports@.subrange(0, i as int), sup).len() ==> #[trigger] imported_signatures(
                        self.imports@.subrange(0, i as int),
                        sup,
                    )[j] < self.types@.len(),
            decreases self.imports@.len() - i,
        {
            let ghost prefix = self.imports@.subrange(0, i as int);
            assert(self.imports@.subrange(0, i + 1).subrange(0, i as int) =~= prefix);
            assert(self.imports@.take(i + 1) =~= self.imports@.subrange(0, i + 1));
            assert(self.imports@.take(i as int) =~= prefix);
            let slot = slot_step(&self.imports, i, &mut seen, supplied);
            proof {
                lemma_imported_prefix(self.imports@, (i + 1) as int, sup);
            }
            if slot {
                if let ExternalKind::Function(sig) = self.imports[i].kind {
                    if sig >= self.types.len() {
                        proof {
                            lemma_imported_prefix_of(self.imports@, (i + 1) as int, sup);
                            let p = imported_signatures(self.imports@.subrange(0, i + 1), sup);
                            assert(p[p.len() - 1] == sig);
                            assert(imported[p.len() - 1] == sig);
                        }
                        return Err(ParseError::CustomError(Violation::NoSuchSignature));
                    }
                    let signature = signature_of(&self.types[sig]);
                    funcs.push(Func { signature, locals: Vec::new(), body: None });
                }
            }
            i = i + 1;
        }
        assert(self.imports@.subrange(0, self.imports@.len() as int) =~= self.imports@);
        let ghost n = funcs@.len();
        let mut k: usize = 0;
        while k < self.function_signatures.len() && k < self.function_bodies.len()
            invariant
                imported == imported_signatures(self.imports@, sup),
                n == imported.len(),
                k <= defined_count(*self),
                funcs@.len() == n + k,
                forall|j: int| 0 <= j < n ==> imported_function(self.types@, imported[j], #[trigger] funcs@[j]),
                forall|j: int| 0 <= j < imported.len() ==> #[trigger] imported[j] < self.types@.len(),
                forall|j: int|
                    0 <= j < k ==> defined_function(
                        self.types@,
                        self.function_signatures@[j],
                        self.function_bodies@[j],
                        #[trigger] funcs@[n + j],
                    ),
                forall|j: int| 0 <= j < k ==> #[trigger] self.function_signatures@[j] < self.types@.len(),
            decreases self.function_signatures@.len() - k,
        {
            let sig: usize = self.function_signatures[k];
            if sig >= self.types.len() {
                return Err(ParseError::CustomError(Violation::NoSuchSignature));
            }
            let signature = signature_of(&self.types[sig]);
            let body = &self.function_bodies[k];
            let block_type = if signature.returns.len() == 0 {
                BlockType::Empty
            } else {
                BlockType::Value(signature.returns[0])
            };
            let operations = nest(&body.code);
            let locals = copy_types(&body.locals);
            funcs.push(Func { signature, locals, body: Some(Block { block_type, operations }) });
            k = k + 1;
        }
        Ok(funcs)
    }
}

/// The function imports of a prefix come first among those of the whole list.
proof fn lemma_imported_prefix_of(imports: Seq<ImportEntry>, i: int, supplied: Seq<(String, String)>)
    requires
        0 <= i <= imports.len(),
    ensures
        imported_signatures(imports.subrange(0, i), supplied).len() <= imported_signatures(imports, supplied).len(),
        forall|j: int|
            0 <= j < imported_signatures(imports.subrange(0, i), supplied).len() ==> imported_signatures(imports, supplied)[j]
                == #[trigger] imported_signatures(imports.subrange(0, i), supplied)[j],
    decreases imports.len() - i,
{
    if i < imports.len() {
        lemma_imported_prefix_of(imports, i + 1, supplied);
        lemma_imported_prefix(imports, i + 1, supplied);
        let a = imported_signatures(imports.subrange(0, i), supplied);
        let b = imported_signatures(imports.subrange(0, i + 1), supplied);
        assert forall|j: int| 0 <= j < a.len() implies imported_signatures(imports, supplied)[j] == #[trigger] a[j] by {
            assert(b[j] == a[j]);
        }
    } else {
        assert(imports.subrange(0, i) =~= imports);
    }
}

/// The function imports of a prefix one longer: those of the shorter prefix,
/// and the new entry's signature where it gets a function.
proof fn lemma_imported_prefix(imports: Seq<ImportEntry>, i: int, supplied: Seq<(String, String)>)
    requires
        0 < i <= imports.len(),
    ensures
        imported_signatures(imports.subrange(0, i), supplied) == if gets_slot(imports.subrange(0, i), supplied) {
            imported_signatures(imports.subrange(0, i - 1), supplied).push(imports[i - 1].kind->Function_0)
        } else {
            imported_signatures(imports.subrange(0, i - 1), supplied)
        },
{
    assert(imports.subrange(0, i).drop_last() =~= imports.subrange(0, i - 1));
}

} // verus!
