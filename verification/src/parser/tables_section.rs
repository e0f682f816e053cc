//! The tables section.
use crate::parse_tree::language_types::TableType;
use crate::parse_tree::tables::Table;
use crate::parse_tree::tables::TableView;
use crate::parser::language_types::lemma_limits_bounds;
use crate::parser::language_types::lemma_table_type_advances;
use crate::parser::language_types::spec_parse_language_type;
use crate::parser::language_types::spec_parse_table_type;
use crate::parser::errors::moves;
use crate::parser::errors::section_result;
use crate::parser::errors::ParseError;
use crate::parser::utils::lemma_varuint_advances;
use crate::parser::utils::read_varuint;
use crate::parser::utils::spec_varuint;
use crate::tree::Module;
use crate::tree::ModuleView;
use vstd::prelude::*;

verus! {

/// A table: its table type; the table starts with `initial` zero entries.
pub open spec fn spec_table_entry(s: Seq<u8>, pos: int, m: ModuleView) -> Result<(ModuleView, int), ParseError> {
    match spec_parse_table_type(s, pos) {
        Err(e) => Err(e),
        Ok((t, p)) => Ok(
            (
                ModuleView {
                    tables: m.tables.push(
                        TableView::AnyFunc { limits: t.limits, values: Seq::new(t.limits.initial as nat, |i: int| 0usize) },
                    ),
                    ..m
                },
                p,
            ),
        ),
    }
}

proof fn lemma_entry_moves(s: Seq<u8>, pos: int, m: ModuleView)
    ensures
        moves(spec_table_entry(s, pos, m), s, pos),
{
    lemma_table_type_advances(s, pos);
}

/// Decodes one table and adds it, filled with zeros, to the module.
fn parse_entry(input: &[u8], pos: usize, module: &mut Module) -> (res: Result<usize, ParseError>)
    requires
        old(module).wf(),
    ensures
        final(module).wf(),
        section_result(res, final(module)@, spec_table_entry(input@, pos as int, old(module)@)),
        res is Err ==> final(module)@ == old(module)@,
{
    let (t, p) = TableType::parse(input, pos)?;
    proof {
        if let Ok((_, q)) = spec_parse_language_type(input@, pos as int) {
            lemma_limits_bounds(input@, q);
        }
    }
    let values: Vec<usize> = vec![0usize; t.limits.initial as usize];
    let ghost before = module.tables@;
    let table = Table::AnyFunc { limits: t.limits, values };
    proof {
        assert(values@ =~= Seq::new(t.limits.initial as nat, |i: int| 0usize));
    }
    module.tables.push(table);
    proof {
        assert(module.tables@.map_values(|x: Table| x@) =~= before.map_values(|x: Table| x@).push(table@));
    }
    Ok(p)
}

/// `n` more tables.
pub open spec fn spec_table_entries(s: Seq<u8>, pos: int, n: nat, m: ModuleView) -> Result<(ModuleView, int), ParseError>
    decreases n,
{
    if n == 0 {
        Ok((m, pos))
    } else {
        match spec_table_entry(s, pos, m) {
            Err(e) => Err(e),
            Ok((m2, p)) => spec_table_entries(s, p, (n - 1) as nat, m2),
        }
    }
}

/// The tables section: the entry count as a `varuint32`, then the tables.
pub open spec fn spec_tables_section(s: Seq<u8>, pos: int, m: ModuleView) -> Result<(ModuleView, int), ParseError> {
    match spec_varuint(s, pos, 32) {
        Err(e) => Err(e),
        Ok((count, p)) => spec_table_entries(s, p, count as nat, m),
    }
}

/// The module that decoding `n` more entries leaves where one of them fails:
/// the entries before it added, the failing one not.
pub open spec fn spec_table_entries_stop(s: Seq<u8>, pos: int, n: nat, m: ModuleView) -> ModuleView
    decreases n,
{
    if n == 0 {
        m
    } else {
        match spec_table_entry(s, pos, m) {
            Ok((m2, p)) => spec_table_entries_stop(s, p, (n - 1) as nat, m2),
            Err(_) => m,
        }
    }
}

/// The module that decoding the section leaves where it fails.
pub open spec fn spec_tables_section_stop(s: Seq<u8>, pos: int, m: ModuleView) -> ModuleView {
    match spec_varuint(s, pos, 32) {
        Err(_) => m,
        Ok((count, p)) => spec_table_entries_stop(s, p, count as nat, m),
    }
}

proof fn lemma_entries_move(s: Seq<u8>, pos: int, n: nat, m: ModuleView)
    requires
        0 <= pos <= s.len(),
    ensures
        moves(spec_table_entries(s, pos, n, m), s, pos),
    decreases n,
{
    if n > 0 {
        lemma_entry_moves(s, pos, m);
        if let Ok((m2, p)) = spec_table_entry(s, pos, m) {
            lemma_entries_move(s, p, (n - 1) as nat, m2);
        }
    }
}

/// Decoding the tables section moves forward and stays within the input.
pub proof fn lemma_tables_section_moves(s: Seq<u8>, pos: int, m: ModuleView)
    ensures
        moves(spec_tables_section(s, pos, m), s, pos),
{
    lemma_varuint_advances(s, pos, 32);
    if let Ok((count, p)) = spec_varuint(s, pos, 32) {
        lemma_entries_move(s, p, count as nat, m);
    }
}

/// Decodes the tables section: the entry count as a `varuint32`, then the
/// tables; each is added to the module filled with zeros.
#[verifier::loop_isolation(false)]
pub fn parse(input: &[u8], pos: usize, module: &mut Module) -> (res: Result<usize, ParseError>)
    requires
        old(module).wf(),
    ensures
        final(module).wf(),
        section_result(res, final(module)@, spec_tables_section(input@, pos as int, old(module)@)),
        res is Err ==> final(module)@ == spec_tables_section_stop(input@, pos as int, old(module)@),
{
    let (count, p0) = read_varuint(input, pos, 32)?;
    let mut p: usize = p0;
    let mut i: u64 = 0;
    let ghost m0 = module@;
    while i < count
        invariant
            i <= count,
            module.wf(),
            spec_tables_section(input@, pos as int, m0) == spec_table_entries(input@, p as int, (count - i) as nat, module@),
            spec_tables_section_stop(input@, pos as int, m0) == spec_table_entries_stop(input@, p as int, (count - i) as nat, module@),
        decreases count - i,
    {
        p = parse_entry(input, p, module)?;
        i = i + 1;
    }
    Ok(p)
}

} // verus!
