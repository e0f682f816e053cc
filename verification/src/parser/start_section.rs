//! The start section.
use crate::parser::errors::moves;
use crate::parser::errors::section_result;
use crate::parser::errors::ParseError;
use crate::parser::utils::lemma_varuint32_bound;
use crate::parser::utils::lemma_varuint_advances;
use crate::parser::utils::read_varuint;
use crate::parser::utils::spec_varuint;
use crate::tree::Module;
use crate::tree::ModuleView;
use vstd::prelude::*;

verus! {

/// The start section: the index of the start function as a `varuint32`.
pub open spec fn spec_start_section(s: Seq<u8>, pos: int, m: ModuleView) -> Result<(ModuleView, int), ParseError> {
    match spec_varuint(s, pos, 32) {
        Err(e) => Err(e),
        Ok((index, p)) => Ok((ModuleView { start_function: Some(index as usize), ..m }, p)),
    }
}

/// Decoding the start section moves forward and stays within the input.
pub proof fn lemma_start_section_moves(s: Seq<u8>, pos: int, m: ModuleView)
    ensures
        moves(spec_start_section(s, pos, m), s, pos),
{
    lemma_varuint_advances(s, pos, 32);
}

/// Decodes the start section: the index of the start function as a `varuint32`.
pub fn parse(input: &[u8], pos: usize, module: &mut Module) -> (res: Result<usize, ParseError>)
    requires
        old(module).wf(),
    ensures
        final(module).wf(),
        section_result(res, final(module)@, spec_start_section(input@, pos as int, old(module)@)),
        res is Err ==> final(module)@ == old(module)@,
{
    let (index, p) = read_varuint(input, pos, 32)?;
    proof {
        lemma_varuint32_bound(input@, pos as int);
    }
    module.start_function = Some(index as usize);
    Ok(p)
}

} // verus!
