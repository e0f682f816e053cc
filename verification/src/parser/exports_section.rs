//! The exports section.
use crate::parse_tree::language_types::ExternalKind;
use crate::parser::language_types::lemma_external_kind_advances;
use crate::parser::language_types::spec_parse_external_kind;
use crate::parser::utils::lemma_string_advances;
use crate::parser::utils::read_string;
use crate::parser::utils::spec_read_string;
use crate::tree::exports::insert_export;
use crate::parser::errors::moves;
use crate::parser::errors::section_result;
use crate::parser::errors::ParseError;
use crate::parser::utils::lemma_varuint_advances;
use crate::parser::utils::read_varuint;
use crate::parser::utils::spec_varuint;
use crate::tree::Module;
use crate::tree::ModuleView;
use vstd::prelude::*;

verus! {

/// An export: its name as a string, then the external kind. A later export of
/// the same name replaces an earlier one.
pub open spec fn spec_export_entry(s: Seq<u8>, pos: int, m: ModuleView) -> Result<(ModuleView, int), ParseError> {
    match spec_read_string(s, pos) {
        Err(e) => Err(e),
        Ok((field, p)) => match spec_parse_external_kind(s, p) {
            Err(e) => Err(e),
            Ok((kind, q)) => Ok((ModuleView { exports: m.exports.insert(field, kind), ..m }, q)),
        },
    }
}

proof fn lemma_entry_moves(s: Seq<u8>, pos: int, m: ModuleView)
    ensures
        moves(spec_export_entry(s, pos, m), s, pos),
{
    lemma_string_advances(s, pos);
    if let Ok((_, p)) = spec_read_string(s, pos) {
        lemma_external_kind_advances(s, p);
    }
}

/// Decodes one export and records it under its name.
fn parse_entry(input: &[u8], pos: usize, module: &mut Module) -> (res: Result<usize, ParseError>)
    requires
        old(module).wf(),
    ensures
        final(module).wf(),
        section_result(res, final(module)@, spec_export_entry(input@, pos as int, old(module)@)),
        res is Err ==> final(module)@ == old(module)@,
{
    let (field, p) = read_string(input, pos)?;
    let (kind, q) = ExternalKind::parse(input, p)?;
    insert_export(&mut module.exports, field, kind);
    Ok(q)
}

/// `n` more exports.
pub open spec fn spec_export_entries(s: Seq<u8>, pos: int, n: nat, m: ModuleView) -> Result<(ModuleView, int), ParseError>
    decreases n,
{
    if n == 0 {
        Ok((m, pos))
    } else {
        match spec_export_entry(s, pos, m) {
            Err(e) => Err(e),
            Ok((m2, p)) => spec_export_entries(s, p, (n - 1) as nat, m2),
        }
    }
}

/// The exports section: the entry count as a `varuint32`, then the exports.
pub open spec fn spec_exports_section(s: Seq<u8>, pos: int, m: ModuleView) -> Result<(ModuleView, int), ParseError> {
    match spec_varuint(s, pos, 32) {
        Err(e) => Err(e),
        Ok((count, p)) => spec_export_entries(s, p, count as nat, m),
    }
}

/// The module that decoding `n` more entries leaves where one of them fails:
/// the entries before it added, the failing one not.
pub open spec fn spec_export_entries_stop(s: Seq<u8>, pos: int, n: nat, m: ModuleView) -> ModuleView
    decreases n,
{
    if n == 0 {
        m
    } else {
        match spec_export_entry(s, pos, m) {
            Ok((m2, p)) => spec_export_entries_stop(s, p, (n - 1) as nat, m2),
            Err(_) => m,
        }
    }
}

/// The module that decoding the section leaves where it fails.
pub open spec fn spec_exports_section_stop(s: Seq<u8>, pos: int, m: ModuleView) -> ModuleView {
    match spec_varuint(s, pos, 32) {
        Err(_) => m,
        Ok((count, p)) => spec_export_entries_stop(s, p, count as nat, m),
    }
}

proof fn lemma_entries_move(s: Seq<u8>, pos: int, n: nat, m: ModuleView)
    requires
        0 <= pos <= s.len(),
    ensures
        moves(spec_export_entries(s, pos, n, m), s, pos),
    decreases n,
{
    if n > 0 {
        lemma_entry_moves(s, pos, m);
        if let Ok((m2, p)) = spec_export_entry(s, pos, m) {
            lemma_entries_move(s, p, (n - 1) as nat, m2);
        }
    }
}

/// Decoding the exports section moves forward and stays within the input.
pub proof fn lemma_exports_section_moves(s: Seq<u8>, pos: int, m: ModuleView)
    ensures
        moves(spec_exports_section(s, pos, m), s, pos),
{
    lemma_varuint_advances(s, pos, 32);
    if let Ok((count, p)) = spec_varuint(s, pos, 32) {
        lemma_entries_move(s, p, count as nat, m);
    }
}

/// Decodes the exports section: the entry count as a `varuint32`, then the
/// exports; each is recorded under its name.
#[verifier::loop_isolation(false)]
pub fn parse(input: &[u8], pos: usize, module: &mut Module) -> (res: Result<usize, ParseError>)
    requires
        old(module).wf(),
    ensures
        final(module).wf(),
        section_result(res, final(module)@, spec_exports_section(input@, pos as int, old(module)@)),
        res is Err ==> final(module)@ == spec_exports_section_stop(input@, pos as int, old(module)@),
{
    let (count, p0) = read_varuint(input, pos, 32)?;
    let mut p: usize = p0;
    let mut i: u64 = 0;
    let ghost m0 = module@;
    while i < count
        invariant
            i <= count,
            module.wf(),
            spec_exports_section(input@, pos as int, m0) == spec_export_entries(input@, p as int, (count - i) as nat, module@),
            spec_exports_section_stop(input@, pos as int, m0) == spec_export_entries_stop(input@, p as int, (count - i) as nat, module@),
        decreases count - i,
    {
        p = parse_entry(input, p, module)?;
        i = i + 1;
    }
    Ok(p)
}

} // verus!
