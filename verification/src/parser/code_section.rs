//! The code section.
use crate::parse_tree::functions::FuncBody;
use crate::parse_tree::functions::FuncBodyView;
use crate::parse_tree::language_types::Operation;
use crate::parse_tree::language_types::ValueType;
use crate::parser::errors::moves;
use crate::parser::errors::section_result;
use crate::parser::errors::ParseError;
use crate::parser::language_types::lemma_operations_advance;
use crate::parser::language_types::lemma_value_type_advances;
use crate::parser::language_types::spec_parse_operations;
use crate::parser::language_types::spec_parse_value_type;
use crate::parser::utils::lemma_varuint_advances;
use crate::parser::utils::read_varuint;
use crate::parser::utils::spec_varuint;
use crate::tree::Module;
use crate::tree::ModuleView;
use vstd::prelude::*;

verus! {

/// `n` more groups of locals after those in `acc`: each a count as a
/// `varuint32` and a value type, standing for that many locals of that type.
pub open spec fn spec_local_groups(s: Seq<u8>, pos: int, n: nat, acc: Seq<ValueType>) -> Result<(Seq<ValueType>, int), ParseError>
    decreases n,
{
    if n == 0 {
        Ok((acc, pos))
    } else {
        match spec_varuint(s, pos, 32) {
            Err(e) => Err(e),
            Ok((quantity, p)) => match spec_parse_value_type(s, p) {
                Err(e) => Err(e),
                Ok((t, q)) => spec_local_groups(s, q, (n - 1) as nat, acc + Seq::new(quantity as nat, |i: int| t)),
            },
        }
    }
}

/// A function body: its size as a `varuint32`, which is not used; the count of
/// local groups as a `varuint32`, then the groups; then the instructions up to
/// the `end` that closes the body.
pub open spec fn spec_code_entry(s: Seq<u8>, pos: int, m: ModuleView) -> Result<(ModuleView, int), ParseError> {
    match spec_varuint(s, pos, 32) {
        Err(e) => Err(e),
        Ok((_, p)) => match spec_varuint(s, p, 32) {
            Err(e) => Err(e),
            Ok((group_count, q)) => match spec_local_groups(s, q, group_count as nat, Seq::empty()) {
                Err(e) => Err(e),
                Ok((locals, r)) => match spec_parse_operations(s, r, 1, Seq::empty()) {
                    Err(e) => Err(e),
                    Ok((code, t)) => Ok(
                        (ModuleView { function_bodies: m.function_bodies.push(FuncBodyView { locals, code }), ..m }, t),
                    ),
                },
            },
        },
    }
}

proof fn lemma_groups_move(s: Seq<u8>, pos: int, n: nat, acc: Seq<ValueType>)
    requires
        0 <= pos <= s.len(),
    ensures
        spec_local_groups(s, pos, n, acc) matches Ok((_, p)) ==> pos <= p <= s.len(),
    decreases n,
{
    if n > 0 {
        lemma_varuint_advances(s, pos, 32);
        if let Ok((quantity, p)) = spec_varuint(s, pos, 32) {
            lemma_value_type_advances(s, p);
            if let Ok((t, q)) = spec_parse_value_type(s, p) {
                lemma_groups_move(s, q, (n - 1) as nat, acc + Seq::new(quantity as nat, |i: int| t));
            }
        }
    }
}

proof fn lemma_entry_moves(s: Seq<u8>, pos: int, m: ModuleView)
    ensures
        moves(spec_code_entry(s, pos, m), s, pos),
{
    lemma_varuint_advances(s, pos, 32);
    if let Ok((_, p)) = spec_varuint(s, pos, 32) {
        lemma_varuint_advances(s, p, 32);
        if let Ok((group_count, q)) = spec_varuint(s, p, 32) {
            lemma_groups_move(s, q, group_count as nat, Seq::empty());
            if let Ok((_, r)) = spec_local_groups(s, q, group_count as nat, Seq::empty()) {
                lemma_operations_advance(s, r, 1, Seq::empty());
            }
        }
    }
}

/// Decodes one function body and adds it to the module.
#[verifier::loop_isolation(false)]
fn parse_entry(input: &[u8], pos: usize, module: &mut Module) -> (res: Result<usize, ParseError>)
    requires
        old(module).wf(),
    ensures
        final(module).wf(),
        section_result(res, final(module)@, spec_code_entry(input@, pos as int, old(module)@)),
        res is Err ==> final(module)@ == old(module)@,
{
    let (_body_size, p) = read_varuint(input, pos, 32)?;
    let (group_count, q) = read_varuint(input, p, 32)?;
    let mut locals: Vec<ValueType> = Vec::new();
    let mut r: usize = q;
    let mut i: u64 = 0;
    while i < group_count
        invariant
            i <= group_count,
            spec_local_groups(input@, q as int, group_count as nat, Seq::empty())
                == spec_local_groups(input@, r as int, (group_count - i) as nat, locals@),
        decreases group_count - i,
    {
        let (quantity, r1) = read_varuint(input, r, 32)?;
        let (t, r2) = ValueType::parse(input, r1)?;
        let ghost before = locals@;
        let mut k: u64 = 0;
        while k < quantity
            invariant
                k <= quantity,
                locals@ == before + Seq::new(k as nat, |j: int| t),
            decreases quantity - k,
        {
            locals.push(t);
            k = k + 1;
            assert(locals@ =~= before + Seq::new(k as nat, |j: int| t));
        }
        r = r2;
        i = i + 1;
    }
    let (code, t) = Operation::parse_multiple(input, r)?;
    let ghost bodies_before = module.function_bodies@;
    let body = FuncBody { locals, code };
    module.function_bodies.push(body);
    proof {
        assert(module.function_bodies@.map_values(|b: FuncBody| b@) =~= bodies_before.map_values(|b: FuncBody| b@).push(
            body@,
        ));
    }
    Ok(t)
}

/// `n` more function bodies.
pub open spec fn spec_code_entries(s: Seq<u8>, pos: int, n: nat, m: ModuleView) -> Result<(ModuleView, int), ParseError>
    decreases n,
{
    if n == 0 {
        Ok((m, pos))
    } else {
        match spec_code_entry(s, pos, m) {
            Err(e) => Err(e),
            Ok((m2, p)) => spec_code_entries(s, p, (n - 1) as nat, m2),
        }
    }
}

/// The code section: the entry count as a `varuint32`, then the function bodies.
pub open spec fn spec_code_section(s: Seq<u8>, pos: int, m: ModuleView) -> Result<(ModuleView, int), ParseError> {
    match spec_varuint(s, pos, 32) {
        Err(e) => Err(e),
        Ok((count, p)) => spec_code_entries(s, p, count as nat, m),
    }
}

/// The module that decoding `n` more entries leaves where one of them fails:
/// the entries before it added, the failing one not.
pub open spec fn spec_code_entries_stop(s: Seq<u8>, pos: int, n: nat, m: ModuleView) -> ModuleView
    decreases n,
{
    if n == 0 {
        m
    } else {
        match spec_code_entry(s, pos, m) {
            Ok((m2, p)) => spec_code_entries_stop(s, p, (n - 1) as nat, m2),
            Err(_) => m,
        }
    }
}

/// The module that decoding the section leaves where it fails.
pub open spec fn spec_code_section_stop(s: Seq<u8>, pos: int, m: ModuleView) -> ModuleView {
    match spec_varuint(s, pos, 32) {
        Err(_) => m,
        Ok((count, p)) => spec_code_entries_stop(s, p, count as nat, m),
    }
}

proof fn lemma_entries_move(s: Seq<u8>, pos: int, n: nat, m: ModuleView)
    requires
        0 <= pos <= s.len(),
    ensures
        moves(spec_code_entries(s, pos, n, m), s, pos),
    decreases n,
{
    if n > 0 {
        lemma_entry_moves(s, pos, m);
        if let Ok((m2, p)) = spec_code_entry(s, pos, m) {
            lemma_entries_move(s, p, (n - 1) as nat, m2);
        }
    }
}

/// Decoding the code section moves forward and stays within the input.
pub proof fn lemma_code_section_moves(s: Seq<u8>, pos: int, m: ModuleView)
    ensures
        moves(spec_code_section(s, pos, m), s, pos),
{
    lemma_varuint_advances(s, pos, 32);
    if let Ok((count, p)) = spec_varuint(s, pos, 32) {
        lemma_entries_move(s, p, count as nat, m);
    }
}

/// Decodes the code section: the entry count as a `varuint32`, then the function
/// bodies, each added to the module.
#[verifier::loop_isolation(false)]
pub fn parse(input: &[u8], pos: usize, module: &mut Module) -> (res: Result<usize, ParseError>)
    requires
        old(module).wf(),
    ensures
        final(module).wf(),
        section_result(res, final(module)@, spec_code_section(input@, pos as int, old(module)@)),
        res is Err ==> final(module)@ == spec_code_section_stop(input@, pos as int, old(module)@),
{
    let (count, p0) = read_varuint(input, pos, 32)?;
    let mut p: usize = p0;
    let mut i: u64 = 0;
    let ghost m0 = module@;
    while i < count
        invariant
            i <= count,
            module.wf(),
            spec_code_section(input@, pos as int, m0) == spec_code_entries(input@, p as int, (count - i) as nat, module@),
            spec_code_section_stop(input@, pos as int, m0) == spec_code_entries_stop(input@, p as int, (count - i) as nat, module@),
        decreases count - i,
    {
        p = parse_entry(input, p, module)?;
        i = i + 1;
    }
    Ok(p)
}

} // verus!
