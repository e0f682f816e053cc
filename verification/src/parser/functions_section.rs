//! The functions section: the signature of each function the module defines.
use crate::parser::errors::moves;
use crate::parser::errors::section_result;
use crate::parser::errors::ParseError;
use crate::parser::errors::Violation;
use crate::parser::utils::lemma_varuint_advances;
use crate::parser::utils::read_varuint;
use crate::parser::utils::spec_varuint;
use crate::tree::Module;
use crate::tree::ModuleView;
use vstd::prelude::*;

verus! {

/// A function declaration: the index of its signature among the module's types,
/// as a `varuint32`, which must name a signature.
pub open spec fn spec_function_entry(s: Seq<u8>, pos: int, m: ModuleView) -> Result<(ModuleView, int), ParseError> {
    match spec_varuint(s, pos, 32) {
        Err(e) => Err(e),
        Ok((index, p)) => if index >= m.types.len() {
            Err(ParseError::CustomError(Violation::NoSuchSignature))
        } else {
            Ok((ModuleView { function_signatures: m.function_signatures.push(index as usize), ..m }, p))
        },
    }
}

proof fn lemma_entry_moves(s: Seq<u8>, pos: int, m: ModuleView)
    ensures
        moves(spec_function_entry(s, pos, m), s, pos),
{
    lemma_varuint_advances(s, pos, 32);
}

/// Decodes one function declaration and records its signature index.
fn parse_entry(input: &[u8], pos: usize, module: &mut Module) -> (res: Result<usize, ParseError>)
    requires
        old(module).wf(),
    ensures
        final(module).wf(),
        section_result(res, final(module)@, spec_function_entry(input@, pos as int, old(module)@)),
        res is Err ==> final(module)@ == old(module)@,
{
    let (index, p) = read_varuint(input, pos, 32)?;
    if index >= module.types.len() as u64 {
        return Err(ParseError::CustomError(Violation::NoSuchSignature));
    }
    module.function_signatures.push(index as usize);
    Ok(p)
}

/// `n` more function declarations.
pub open spec fn spec_function_entries(s: Seq<u8>, pos: int, n: nat, m: ModuleView) -> Result<(ModuleView, int), ParseError>
    decreases n,
{
    if n == 0 {
        Ok((m, pos))
    } else {
        match spec_function_entry(s, pos, m) {
            Err(e) => Err(e),
            Ok((m2, p)) => spec_function_entries(s, p, (n - 1) as nat, m2),
        }
    }
}

/// The functions section: the entry count as a `varuint32`, then the function declarations.
pub open spec fn spec_functions_section(s: Seq<u8>, pos: int, m: ModuleView) -> Result<(ModuleView, int), ParseError> {
    match spec_varuint(s, pos, 32) {
        Err(e) => Err(e),
        Ok((count, p)) => spec_function_entries(s, p, count as nat, m),
    }
}

/// The module that decoding `n` more entries leaves where one of them fails:
/// the entries before it added, the failing one not.
pub open spec fn spec_function_entries_stop(s: Seq<u8>, pos: int, n: nat, m: ModuleView) -> ModuleView
    decreases n,
{
    if n == 0 {
        m
    } else {
        match spec_function_entry(s, pos, m) {
            Ok((m2, p)) => spec_function_entries_stop(s, p, (n - 1) as nat, m2),
            Err(_) => m,
        }
    }
}

/// The module that decoding the section leaves where it fails.
pub open spec fn spec_functions_section_stop(s: Seq<u8>, pos: int, m: ModuleView) -> ModuleView {
    match spec_varuint(s, pos, 32) {
        Err(_) => m,
        Ok((count, p)) => spec_function_entries_stop(s, p, count as nat, m),
    }
}

proof fn lemma_entries_move(s: Seq<u8>, pos: int, n: nat, m: ModuleView)
    requires
        0 <= pos <= s.len(),
    ensures
        moves(spec_function_entries(s, pos, n, m), s, pos),
    decreases n,
{
    if n > 0 {
        lemma_entry_moves(s, pos, m);
        if let Ok((m2, p)) = spec_function_entry(s, pos, m) {
            lemma_entries_move(s, p, (n - 1) as nat, m2);
        }
    }
}

/// Decoding the functions section moves forward and stays within the input.
pub proof fn lemma_functions_section_moves(s: Seq<u8>, pos: int, m: ModuleView)
    ensures
        moves(spec_functions_section(s, pos, m), s, pos),
{
    lemma_varuint_advances(s, pos, 32);
    if let Ok((count, p)) = spec_varuint(s, pos, 32) {
        lemma_entries_move(s, p, count as nat, m);
    }
}

/// Decodes the functions section: the entry count as a `varuint32`, then the
/// function declarations; each records the index of its signature.
#[verifier::loop_isolation(false)]
pub fn parse(input: &[u8], pos: usize, module: &mut Module) -> (res: Result<usize, ParseError>)
    requires
        old(module).wf(),
    ensures
        final(module).wf(),
        section_result(res, final(module)@, spec_functions_section(input@, pos as int, old(module)@)),
        res is Err ==> final(module)@ == spec_functions_section_stop(input@, pos as int, old(module)@),
{
    let (count, p0) = read_varuint(input, pos, 32)?;
    let mut p: usize = p0;
    let mut i: u64 = 0;
    let ghost m0 = module@;
    while i < count
        invariant
            i <= count,
            module.wf(),
            spec_functions_section(input@, pos as int, m0) == spec_function_entries(input@, p as int, (count - i) as nat, module@),
            spec_functions_section_stop(input@, pos as int, m0) == spec_function_entries_stop(input@, p as int, (count - i) as nat, module@),
        decreases count - i,
    {
        p = parse_entry(input, p, module)?;
        i = i + 1;
    }
    Ok(p)
}

} // verus!
