//! The types section: function signatures.
use crate::parse_tree::functions::FuncSignature;
use crate::parse_tree::functions::FuncSignatureView;
use crate::parse_tree::language_types::LanguageType;
use crate::parse_tree::language_types::ValueType;
use crate::parse_tree::types::TypeDefinition;
use crate::parse_tree::types::TypeDefinitionView;
use crate::parser::errors::moves;
use crate::parser::errors::section_result;
use crate::parser::errors::ParseError;
use crate::parser::errors::Violation;
use crate::parser::language_types::lemma_language_type_advances;
use crate::parser::language_types::lemma_value_type_advances;
use crate::parser::language_types::spec_parse_language_type;
use crate::parser::language_types::spec_parse_value_type;
use crate::parser::utils::lemma_varuint_advances;
use crate::parser::utils::read_varuint;
use crate::parser::utils::spec_varuint;
use crate::tree::Module;
use crate::tree::ModuleView;
use vstd::prelude::*;

verus! {

/// `n` more value types after those in `acc`.
pub open spec fn spec_value_types(s: Seq<u8>, pos: int, n: nat, acc: Seq<ValueType>) -> Result<(Seq<ValueType>, int), ParseError>
    decreases n,
{
    if n == 0 {
        Ok((acc, pos))
    } else {
        match spec_parse_value_type(s, pos) {
            Err(e) => Err(e),
            Ok((t, p)) => spec_value_types(s, p, (n - 1) as nat, acc.push(t)),
        }
    }
}

/// A function signature: the form `func`, the parameter count and types, then
/// the result count as a `varuint1` and the result type when the count is 1.
/// The signature is added to the module's types.
pub open spec fn spec_type_entry(s: Seq<u8>, pos: int, m: ModuleView) -> Result<(ModuleView, int), ParseError> {
    match spec_parse_language_type(s, pos) {
        Err(e) => Err(e),
        Ok((form, p)) => if form != LanguageType::Func {
            Err(ParseError::CustomError(Violation::FuncTypeRequired))
        } else {
            match spec_varuint(s, p, 32) {
                Err(e) => Err(e),
                Ok((count, q)) => match spec_value_types(s, q, count as nat, Seq::empty()) {
                    Err(e) => Err(e),
                    Ok((parameters, r)) => match spec_varuint(s, r, 1) {
                        Err(e) => Err(e),
                        Ok((result_count, t)) => if result_count > 1 {
                            Err(ParseError::TooManyReturns)
                        } else if result_count == 1 {
                            match spec_parse_value_type(s, t) {
                                Err(e) => Err(e),
                                Ok((rt, u)) => Ok(
                                    (
                                        ModuleView {
                                            types: m.types.push(
                                                TypeDefinitionView::Func(FuncSignatureView { parameters, returns: seq![rt] }),
                                            ),
                                            ..m
                                        },
                                        u,
                                    ),
                                ),
                            }
                        } else {
                            Ok(
                                (
                                    ModuleView {
                                        types: m.types.push(
                                            TypeDefinitionView::Func(FuncSignatureView { parameters, returns: Seq::empty() }),
                                        ),
                                        ..m
                                    },
                                    t,
                                ),
                            )
                        },
                    },
                },
            }
        },
    }
}

/// `n` more signatures.
pub open spec fn spec_type_entries(s: Seq<u8>, pos: int, n: nat, m: ModuleView) -> Result<(ModuleView, int), ParseError>
    decreases n,
{
    if n == 0 {
        Ok((m, pos))
    } else {
        match spec_type_entry(s, pos, m) {
            Err(e) => Err(e),
            Ok((m2, p)) => spec_type_entries(s, p, (n - 1) as nat, m2),
        }
    }
}

/// The types section: the entry count as a `varuint32`, then the signatures.
pub open spec fn spec_types_section(s: Seq<u8>, pos: int, m: ModuleView) -> Result<(ModuleView, int), ParseError> {
    match spec_varuint(s, pos, 32) {
        Err(e) => Err(e),
        Ok((count, p)) => spec_type_entries(s, p, count as nat, m),
    }
}

/// The module that decoding `n` more entries leaves where one of them fails:
/// the entries before it added, the failing one not.
pub open spec fn spec_type_entries_stop(s: Seq<u8>, pos: int, n: nat, m: ModuleView) -> ModuleView
    decreases n,
{
    if n == 0 {
        m
    } else {
        match spec_type_entry(s, pos, m) {
            Ok((m2, p)) => spec_type_entries_stop(s, p, (n - 1) as nat, m2),
            Err(_) => m,
        }
    }
}

/// The module that decoding the section leaves where it fails.
pub open spec fn spec_types_section_stop(s: Seq<u8>, pos: int, m: ModuleView) -> ModuleView {
    match spec_varuint(s, pos, 32) {
        Err(_) => m,
        Ok((count, p)) => spec_type_entries_stop(s, p, count as nat, m),
    }
}

proof fn lemma_value_types_move(s: Seq<u8>, pos: int, n: nat, acc: Seq<ValueType>)
    requires
        0 <= pos <= s.len(),
    ensures
        moves(spec_value_types(s, pos, n, acc), s, pos),
    decreases n,
{
    if n > 0 {
        lemma_value_type_advances(s, pos);
        if let Ok((t, p)) = spec_parse_value_type(s, pos) {
            lemma_value_types_move(s, p, (n - 1) as nat, acc.push(t));
        }
    }
}

proof fn lemma_entry_moves(s: Seq<u8>, pos: int, m: ModuleView)
    ensures
        moves(spec_type_entry(s, pos, m), s, pos),
{
    lemma_language_type_advances(s, pos);
    if let Ok((_, p)) = spec_parse_language_type(s, pos) {
        lemma_varuint_advances(s, p, 32);
        if let Ok((count, q)) = spec_varuint(s, p, 32) {
            lemma_value_types_move(s, q, count as nat, Seq::empty());
            if let Ok((_, r)) = spec_value_types(s, q, count as nat, Seq::empty()) {
                lemma_varuint_advances(s, r, 1);
                if let Ok((_, t)) = spec_varuint(s, r, 1) {
                    lemma_value_type_advances(s, t);
                }
            }
        }
    }
}

proof fn lemma_entries_move(s: Seq<u8>, pos: int, n: nat, m: ModuleView)
    requires
        0 <= pos <= s.len(),
    ensures
        moves(spec_type_entries(s, pos, n, m), s, pos),
    decreases n,
{
    if n > 0 {
        lemma_entry_moves(s, pos, m);
        if let Ok((m2, p)) = spec_type_entry(s, pos, m) {
            lemma_entries_move(s, p, (n - 1) as nat, m2);
        }
    }
}

/// Decoding the types section moves forward and stays within the input.
pub proof fn lemma_types_section_moves(s: Seq<u8>, pos: int, m: ModuleView)
    ensures
        moves(spec_types_section(s, pos, m), s, pos),
{
    lemma_varuint_advances(s, pos, 32);
    if let Ok((count, p)) = spec_varuint(s, pos, 32) {
        lemma_entries_move(s, p, count as nat, m);
    }
}

/// Decodes one function signature and adds it to the module's types.
#[verifier::loop_isolation(false)]
fn parse_entry(input: &[u8], pos: usize, module: &mut Module) -> (res: Result<usize, ParseError>)
    requires
        old(module).wf(),
    ensures
        final(module).wf(),
        section_result(res, final(module)@, spec_type_entry(input@, pos as int, old(module)@)),
        res is Err ==> final(module)@ == old(module)@,
{
    let (form, p) = LanguageType::parse(input, pos)?;
    match form {
        LanguageType::Func => {},
        _ => {
            return Err(ParseError::CustomError(Violation::FuncTypeRequired));
        },
    }
    let (count, q) = read_varuint(input, p, 32)?;
    let mut parameters: Vec<ValueType> = Vec::new();
    let mut r: usize = q;
    let mut i: u64 = 0;
    while i < count
        invariant
            i <= count,
            spec_value_types(input@, q as int, count as nat, Seq::empty()) == spec_value_types(
                input@,
                r as int,
                (count - i) as nat,
                parameters@,
            ),
        decreases count - i,
    {
        let (t, r2) = ValueType::parse(input, r)?;
        parameters.push(t);
        r = r2;
        i = i + 1;
    }
    let (return_count, t) = read_varuint(input, r, 1)?;
    let mut results: Vec<ValueType> = Vec::new();
    let mut u: usize = t;
    if return_count > 1 {
        return Err(ParseError::TooManyReturns);
    } else if return_count == 1 {
        let (rt, u2) = ValueType::parse(input, t)?;
        results.push(rt);
        u = u2;
    }
    let ghost before = module.types@;
    let def = TypeDefinition::Func(FuncSignature { parameters, returns: results });
    module.types.push(def);
    proof {
        assert(module.types@.map_values(|d: TypeDefinition| d@) =~= before.map_values(|d: TypeDefinition| d@).push(def@));
        assert(results@ =~= Seq::empty() || results@ =~= seq![results@[0]]);
    }
    Ok(u)
}

/// Decodes the types section: the entry count as a `varuint32`, then the
/// function signatures, which are added to the module's types.
#[verifier::loop_isolation(false)]
pub fn parse(input: &[u8], pos: usize, module: &mut Module) -> (res: Result<usize, ParseError>)
    requires
        old(module).wf(),
    ensures
        final(module).wf(),
        section_result(res, final(module)@, spec_types_section(input@, pos as int, old(module)@)),
        res is Err ==> final(module)@ == spec_types_section_stop(input@, pos as int, old(module)@),
{
    let (count, p0) = read_varuint(input, pos, 32)?;
    let mut p: usize = p0;
    let mut i: u64 = 0;
    let ghost m0 = module@;
    while i < count
        invariant
            i <= count,
            module.wf(),
            spec_types_section(input@, pos as int, m0) == spec_type_entries(input@, p as int, (count - i) as nat, module@),
            spec_types_section_stop(input@, pos as int, m0) == spec_type_entries_stop(input@, p as int, (count - i) as nat, module@),
        decreases count - i,
    {
        p = parse_entry(input, p, module)?;
        i = i + 1;
    }
    Ok(p)
}

} // verus!
