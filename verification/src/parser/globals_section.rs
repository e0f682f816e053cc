//! The globals section.
use crate::parse_tree::globals::Global;
use crate::parse_tree::language_types::GlobalType;
use crate::parse_tree::language_types::InitExpression;
use crate::parse_tree::language_types::ValueType;
use crate::parser::language_types::lemma_global_type_advances;
use crate::parser::language_types::lemma_init_expression_advances;
use crate::parser::language_types::spec_parse_global_type;
use crate::parser::language_types::spec_parse_init_expression;
use crate::parser::errors::moves;
use crate::parser::errors::section_result;
use crate::parser::errors::ParseError;
use crate::parser::errors::Violation;
use crate::parser::utils::lemma_varuint_advances;
use crate::parser::utils::read_varuint;
use crate::parser::utils::spec_varuint;
use crate::tree::Module;
use crate::tree::ModuleView;
use vstd::prelude::*;

verus! {

/// The value type that a constant expression produces, if it is a constant.
pub open spec fn constant_type(e: InitExpression) -> Option<ValueType> {
    match e {
        InitExpression::I32Const(_) => Some(ValueType::I32),
        InitExpression::I64Const(_) => Some(ValueType::I64),
        InitExpression::F32Const(_) => Some(ValueType::F32),
        InitExpression::F64Const(_) => Some(ValueType::F64),
        InitExpression::GetGlobal(_) => None,
    }
}

/// A global: its global type, then its initial value, a constant of that type.
pub open spec fn spec_global_entry(s: Seq<u8>, pos: int, m: ModuleView) -> Result<(ModuleView, int), ParseError> {
    match spec_parse_global_type(s, pos) {
        Err(e) => Err(e),
        Ok((constraints, p)) => match spec_parse_init_expression(s, p, m.globals) {
            Err(e) => Err(e),
            Ok((value, q)) => match constant_type(value) {
                None => Err(ParseError::CustomError(Violation::GlobalNotValue)),
                Some(t) => if t != constraints.content_type {
                    Err(ParseError::CustomError(Violation::GlobalTypeMismatch))
                } else {
                    Ok((ModuleView { globals: m.globals.push(Global { constraints, value }), ..m }, q))
                },
            },
        },
    }
}

proof fn lemma_entry_moves(s: Seq<u8>, pos: int, m: ModuleView)
    ensures
        moves(spec_global_entry(s, pos, m), s, pos),
{
    lemma_global_type_advances(s, pos);
    if let Ok((_, p)) = spec_parse_global_type(s, pos) {
        lemma_init_expression_advances(s, p, m.globals);
    }
}

/// Decodes one global and adds it to the module.
fn parse_entry(input: &[u8], pos: usize, module: &mut Module) -> (res: Result<usize, ParseError>)
    requires
        old(module).wf(),
    ensures
        final(module).wf(),
        section_result(res, final(module)@, spec_global_entry(input@, pos as int, old(module)@)),
        res is Err ==> final(module)@ == old(module)@,
{
    let (constraints, p) = GlobalType::parse(input, pos)?;
    let (value, q) = InitExpression::parse(input, p, module.globals.as_slice())?;
    let matches: bool = match value {
        InitExpression::I32Const(_) => match constraints.content_type {
            ValueType::I32 => true,
            _ => false,
        },
        InitExpression::I64Const(_) => match constraints.content_type {
            ValueType::I64 => true,
            _ => false,
        },
        InitExpression::F32Const(_) => match constraints.content_type {
            ValueType::F32 => true,
            _ => false,
        },
        InitExpression::F64Const(_) => match constraints.content_type {
            ValueType::F64 => true,
            _ => false,
        },
        InitExpression::GetGlobal(_) => {
            return Err(ParseError::CustomError(Violation::GlobalNotValue));
        },
    };
    if !matches {
        return Err(ParseError::CustomError(Violation::GlobalTypeMismatch));
    }
    module.globals.push(Global { constraints, value });
    Ok(q)
}

/// `n` more globals.
pub open spec fn spec_global_entries(s: Seq<u8>, pos: int, n: nat, m: ModuleView) -> Result<(ModuleView, int), ParseError>
    decreases n,
{
    if n == 0 {
        Ok((m, pos))
    } else {
        match spec_global_entry(s, pos, m) {
            Err(e) => Err(e),
            Ok((m2, p)) => spec_global_entries(s, p, (n - 1) as nat, m2),
        }
    }
}

/// The globals section: the entry count as a `varuint32`, then the globals.
pub open spec fn spec_globals_section(s: Seq<u8>, pos: int, m: ModuleView) -> Result<(ModuleView, int), ParseError> {
    match spec_varuint(s, pos, 32) {
        Err(e) => Err(e),
        Ok((count, p)) => spec_global_entries(s, p, count as nat, m),
    }
}

/// The module that decoding `n` more entries leaves where one of them fails:
/// the entries before it added, the failing one not.
pub open spec fn spec_global_entries_stop(s: Seq<u8>, pos: int, n: nat, m: ModuleView) -> ModuleView
    decreases n,
{
    if n == 0 {
        m
    } else {
        match spec_global_entry(s, pos, m) {
            Ok((m2, p)) => spec_global_entries_stop(s, p, (n - 1) as nat, m2),
            Err(_) => m,
        }
    }
}

/// The module that decoding the section leaves where it fails.
pub open spec fn spec_globals_section_stop(s: Seq<u8>, pos: int, m: ModuleView) -> ModuleView {
    match spec_varuint(s, pos, 32) {
        Err(_) => m,
        Ok((count, p)) => spec_global_entries_stop(s, p, count as nat, m),
    }
}

proof fn lemma_entries_move(s: Seq<u8>, pos: int, n: nat, m: ModuleView)
    requires
        0 <= pos <= s.len(),
    ensures
        moves(spec_global_entries(s, pos, n, m), s, pos),
    decreases n,
{
    if n > 0 {
        lemma_entry_moves(s, pos, m);
        if let Ok((m2, p)) = spec_global_entry(s, pos, m) {
            lemma_entries_move(s, p, (n - 1) as nat, m2);
        }
    }
}

/// Decoding the globals section moves forward and stays within the input.
pub proof fn lemma_globals_section_moves(s: Seq<u8>, pos: int, m: ModuleView)
    ensures
        moves(spec_globals_section(s, pos, m), s, pos),
{
    lemma_varuint_advances(s, pos, 32);
    if let Ok((count, p)) = spec_varuint(s, pos, 32) {
        lemma_entries_move(s, p, count as nat, m);
    }
}

/// Decodes the globals section: the entry count as a `varuint32`, then the
/// globals; each is added to the module.
#[verifier::loop_isolation(false)]
pub fn parse(input: &[u8], pos: usize, module: &mut Module) -> (res: Result<usize, ParseError>)
    requires
        old(module).wf(),
    ensures
        final(module).wf(),
        section_result(res, final(module)@, spec_globals_section(input@, pos as int, old(module)@)),
        res is Err ==> final(module)@ == spec_globals_section_stop(input@, pos as int, old(module)@),
{
    let (count, p0) = read_varuint(input, pos, 32)?;
    let mut p: usize = p0;
    let mut i: u64 = 0;
    let ghost m0 = module@;
    while i < count
        invariant
            i <= count,
            module.wf(),
            spec_globals_section(input@, pos as int, m0) == spec_global_entries(input@, p as int, (count - i) as nat, module@),
            spec_globals_section_stop(input@, pos as int, m0) == spec_global_entries_stop(input@, p as int, (count - i) as nat, module@),
        decreases count - i,
    {
        p = parse_entry(input, p, module)?;
        i = i + 1;
    }
    Ok(p)
}

} // verus!
