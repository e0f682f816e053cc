//! The elements section.
use crate::parse_tree::language_types::InitExpression;
use crate::parse_tree::tables::Table;
use crate::parse_tree::tables::TableView;
use crate::parser::errors::moves;
use crate::parser::errors::section_result;
use crate::parser::errors::ParseError;
use crate::parser::errors::Violation;
use crate::parser::language_types::lemma_init_expression_advances;
use crate::parser::language_types::spec_parse_init_expression;
use crate::parser::utils::lemma_varuint32_bound;
use crate::parser::utils::lemma_varuint_advances;
use crate::parser::utils::read_varuint;
use crate::parser::utils::spec_varuint;
use crate::tree::Module;
use crate::tree::ModuleView;
use vstd::prelude::*;

verus! {

/// `n` more function indices, each a `varuint32`, after those in `acc`.
pub open spec fn spec_element_indices(s: Seq<u8>, pos: int, n: nat, acc: Seq<usize>) -> Result<(Seq<usize>, int), ParseError>
    decreases n,
{
    if n == 0 {
        Ok((acc, pos))
    } else {
        match spec_varuint(s, pos, 32) {
            Err(e) => Err(e),
            Ok((v, p)) => spec_element_indices(s, p, (n - 1) as nat, acc.push(v as usize)),
        }
    }
}

/// The table after `elems` are written into it from `offset` on, or why they
/// cannot be: the offset is negative, the end passes the table's maximum, or
/// the end passes the table's current length.
pub open spec fn place_elements(table: TableView, offset: int, elems: Seq<usize>) -> Result<TableView, ParseError> {
    match table {
        TableView::AnyFunc { limits, values } => {
            let end = offset + elems.len();
            if offset < 0 {
                Err(ParseError::CustomError(Violation::ElementsOutOfRange))
            } else if limits.maximum matches Some(max) && end > max {
                Err(ParseError::CustomError(Violation::ElementsPastMaximum))
            } else if end > values.len() {
                Err(ParseError::CustomError(Violation::ElementsOutOfRange))
            } else {
                Ok(TableView::AnyFunc { limits, values: values.take(offset) + elems + values.skip(end) })
            }
        },
    }
}

/// An element segment: the table index as a `varuint32`, which must be 0; the
/// offset, an `i32.const` expression; the count of function indices as a
/// `varuint32`, then the indices, which replace as many entries of table 0 from
/// the offset on.
pub open spec fn spec_element_entry(s: Seq<u8>, pos: int, m: ModuleView) -> Result<(ModuleView, int), ParseError> {
    match spec_varuint(s, pos, 32) {
        Err(e) => Err(e),
        Ok((index, p)) => if index != 0 {
            Err(ParseError::CustomError(Violation::OnlyOneTable))
        } else {
            match spec_parse_init_expression(s, p, m.globals) {
                Ok((InitExpression::I32Const(offset), q)) => match spec_varuint(s, q, 32) {
                    Err(e) => Err(e),
                    Ok((num, r)) => match spec_element_indices(s, r, num as nat, Seq::empty()) {
                        Err(e) => Err(e),
                        Ok((elems, t)) => if m.tables.len() == 0 {
                            Err(ParseError::CustomError(Violation::NoTable))
                        } else {
                            match place_elements(m.tables[0], offset as int, elems) {
                                Err(e) => Err(e),
                                Ok(table) => Ok((ModuleView { tables: m.tables.update(0, table), ..m }, t)),
                            }
                        },
                    },
                },
                _ => Err(ParseError::CustomError(Violation::ElementsInitNotI32)),
            }
        },
    }
}

proof fn lemma_indices_move(s: Seq<u8>, pos: int, n: nat, acc: Seq<usize>)
    requires
        0 <= pos <= s.len(),
    ensures
        spec_element_indices(s, pos, n, acc) matches Ok((elems, p)) ==> pos <= p <= s.len() && elems.len() == acc.len() + n,
    decreases n,
{
    if n > 0 {
        lemma_varuint_advances(s, pos, 32);
        if let Ok((v, p)) = spec_varuint(s, pos, 32) {
            lemma_indices_move(s, p, (n - 1) as nat, acc.push(v as usize));
        }
    }
}

proof fn lemma_entry_moves(s: Seq<u8>, pos: int, m: ModuleView)
    ensures
        moves(spec_element_entry(s, pos, m), s, pos),
{
    lemma_varuint_advances(s, pos, 32);
    if let Ok((_, p)) = spec_varuint(s, pos, 32) {
        lemma_init_expression_advances(s, p, m.globals);
        if let Ok((_, q)) = spec_parse_init_expression(s, p, m.globals) {
            lemma_varuint_advances(s, q, 32);
            if let Ok((num, r)) = spec_varuint(s, q, 32) {
                lemma_indices_move(s, r, num as nat, Seq::empty());
            }
        }
    }
}

/// The table with `elems` written into it from `offset` on, as `place_elements`
/// says.
fn placed(table: &Table, offset: i32, elems: &Vec<usize>) -> (res: Result<Table, ParseError>)
    ensures
        match res {
            Ok(t) => place_elements(table@, offset as int, elems@) == Ok::<TableView, ParseError>(t@),
            Err(e) => place_elements(table@, offset as int, elems@) == Err::<TableView, ParseError>(e),
        },
{
    match table {
        Table::AnyFunc { limits, values } => {
            if offset < 0 {
                return Err(ParseError::CustomError(Violation::ElementsOutOfRange));
            }
            let end: u128 = offset as u128 + elems.len() as u128;
            if let Some(max) = limits.maximum {
                if end > max as u128 {
                    return Err(ParseError::CustomError(Violation::ElementsPastMaximum));
                }
            }
            if end > values.len() as u128 {
                return Err(ParseError::CustomError(Violation::ElementsOutOfRange));
            }
            let s: usize = offset as usize;
            let e: usize = end as usize;
            let mut updated: Vec<usize> = Vec::new();
            let mut i: usize = 0;
            while i < s
                invariant
                    i <= s <= e <= values.len(),
                    updated@ == values@.take(i as int),
                decreases s - i,
            {
                updated.push(values[i]);
                i = i + 1;
                assert(updated@ =~= values@.take(i as int));
            }
            let mut j: usize = 0;
            while j < elems.len()
                invariant
                    j <= elems.len(),
                    s <= e <= values.len(),
                    updated@ == values@.take(s as int) + elems@.take(j as int),
                decreases elems.len() - j,
            {
                updated.push(elems[j]);
                j = j + 1;
                assert(updated@ =~= values@.take(s as int) + elems@.take(j as int));
            }
            let mut k: usize = e;
            assert(elems@.take(elems@.len() as int) =~= elems@);
            while k < values.len()
                invariant
                    e <= k <= values.len(),
                    updated@ == values@.take(s as int) + elems@ + values@.subrange(e as int, k as int),
                decreases values.len() - k,
            {
                updated.push(values[k]);
                k = k + 1;
                assert(updated@ =~= values@.take(s as int) + elems@ + values@.subrange(e as int, k as int));
            }
            assert(values@.subrange(e as int, values@.len() as int) =~= values@.skip(e as int));
            Ok(Table::AnyFunc { limits: *limits, values: updated })
        },
    }
}

/// Decodes one element segment and writes its function indices into table 0.
#[verifier::loop_isolation(false)]
fn parse_entry(input: &[u8], pos: usize, module: &mut Module) -> (res: Result<usize, ParseError>)
    requires
        old(module).wf(),
    ensures
        final(module).wf(),
        section_result(res, final(module)@, spec_element_entry(input@, pos as int, old(module)@)),
        res is Err ==> final(module)@ == old(module)@,
{
    let (index, p) = read_varuint(input, pos, 32)?;
    if index != 0 {
        return Err(ParseError::CustomError(Violation::OnlyOneTable));
    }
    match InitExpression::parse(input, p, module.globals.as_slice()) {
        Ok((InitExpression::I32Const(v), q)) => {
            let (num, r) = read_varuint(input, q, 32)?;
            proof {
                lemma_varuint32_bound(input@, q as int);
            }
            let mut elems: Vec<usize> = Vec::new();
            let mut t: usize = r;
            let mut i: u64 = 0;
            while i < num
                invariant
                    i <= num,
                    spec_element_indices(input@, r as int, num as nat, Seq::empty())
                        == spec_element_indices(input@, t as int, (num - i) as nat, elems@),
                decreases num - i,
            {
                let (item, next) = read_varuint(input, t, 32)?;
                proof {
                    lemma_varuint32_bound(input@, t as int);
                }
                elems.push(item as usize);
                t = next;
                i = i + 1;
            }
            if module.tables.len() == 0 {
                return Err(ParseError::CustomError(Violation::NoTable));
            }
            let ghost tables_before = module.tables@;
            let table = placed(&module.tables[0], v, &elems)?;
            module.tables.set(0, table);
            proof {
                assert(module.tables@.map_values(|x: Table| x@) =~= tables_before.map_values(|x: Table| x@).update(0, table@));
            }
            Ok(t)
        },
        _ => Err(ParseError::CustomError(Violation::ElementsInitNotI32)),
    }
}

/// `n` more element segments.
pub open spec fn spec_element_entries(s: Seq<u8>, pos: int, n: nat, m: ModuleView) -> Result<(ModuleView, int), ParseError>
    decreases n,
{
    if n == 0 {
        Ok((m, pos))
    } else {
        match spec_element_entry(s, pos, m) {
            Err(e) => Err(e),
            Ok((m2, p)) => spec_element_entries(s, p, (n - 1) as nat, m2),
        }
    }
}

/// The elements section: the entry count as a `varuint32`, then the segments.
pub open spec fn spec_elements_section(s: Seq<u8>, pos: int, m: ModuleView) -> Result<(ModuleView, int), ParseError> {
    match spec_varuint(s, pos, 32) {
        Err(e) => Err(e),
        Ok((count, p)) => spec_element_entries(s, p, count as nat, m),
    }
}

/// The module that decoding `n` more entries leaves where one of them fails:
/// the entries before it added, the failing one not.
pub open spec fn spec_element_entries_stop(s: Seq<u8>, pos: int, n: nat, m: ModuleView) -> ModuleView
    decreases n,
{
    if n == 0 {
        m
    } else {
        match spec_element_entry(s, pos, m) {
            Ok((m2, p)) => spec_element_entries_stop(s, p, (n - 1) as nat, m2),
            Err(_) => m,
        }
    }
}

/// The module that decoding the section leaves where it fails.
pub open spec fn spec_elements_section_stop(s: Seq<u8>, pos: int, m: ModuleView) -> ModuleView {
    match spec_varuint(s, pos, 32) {
        Err(_) => m,
        Ok((count, p)) => spec_element_entries_stop(s, p, count as nat, m),
    }
}

proof fn lemma_entries_move(s: Seq<u8>, pos: int, n: nat, m: ModuleView)
    requires
        0 <= pos <= s.len(),
    ensures
        moves(spec_element_entries(s, pos, n, m), s, pos),
    decreases n,
{
    if n > 0 {
        lemma_entry_moves(s, pos, m);
        if let Ok((m2, p)) = spec_element_entry(s, pos, m) {
            lemma_entries_move(s, p, (n - 1) as nat, m2);
        }
    }
}

/// Decoding the elements section moves forward and stays within the input.
pub proof fn lemma_elements_section_moves(s: Seq<u8>, pos: int, m: ModuleView)
    ensures
        moves(spec_elements_section(s, pos, m), s, pos),
{
    lemma_varuint_advances(s, pos, 32);
    if let Ok((count, p)) = spec_varuint(s, pos, 32) {
        lemma_entries_move(s, p, count as nat, m);
    }
}

/// Decodes the elements section: the entry count as a `varuint32`, then the
/// segments; each writes its function indices into table 0 from its offset on.
#[verifier::loop_isolation(false)]
pub fn parse(input: &[u8], pos: usize, module: &mut Module) -> (res: Result<usize, ParseError>)
    requires
        old(module).wf(),
    ensures
        final(module).wf(),
        section_result(res, final(module)@, spec_elements_section(input@, pos as int, old(module)@)),
        res is Err ==> final(module)@ == spec_elements_section_stop(input@, pos as int, old(module)@),
{
    let (count, p0) = read_varuint(input, pos, 32)?;
    let mut p: usize = p0;
    let mut i: u64 = 0;
    let ghost m0 = module@;
    while i < count
        invariant
            i <= count,
            module.wf(),
            spec_elements_section(input@, pos as int, m0) == spec_element_entries(input@, p as int, (count - i) as nat, module@),
            spec_elements_section_stop(input@, pos as int, m0) == spec_element_entries_stop(input@, p as int, (count - i) as nat, module@),
        decreases count - i,
    {
        p = parse_entry(input, p, module)?;
        i = i + 1;
    }
    Ok(p)
}

} // verus!
