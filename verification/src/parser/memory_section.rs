//! The memory section.
use crate::parse_tree::language_types::ResizableLimits;
use crate::parse_tree::memory::Memory;
use crate::parse_tree::memory::MemoryView;
use crate::parse_tree::memory::WASM_PAGE_SIZE;
use crate::parser::language_types::lemma_limits_advances;
use crate::parser::language_types::lemma_limits_bounds;
use crate::parser::language_types::spec_parse_limits;
use crate::parser::errors::moves;
use crate::parser::errors::section_result;
use crate::parser::errors::ParseError;
use crate::parser::errors::Violation;
use crate::parser::utils::lemma_varuint_advances;
use crate::parser::utils::read_varuint;
use crate::parser::utils::spec_varuint;
use crate::tree::Module;
use crate::tree::ModuleView;
use vstd::prelude::*;

verus! {

/// The number of pages a memory is created with: its maximum if it has one,
/// otherwise its initial size.
pub open spec fn capacity(limits: ResizableLimits) -> nat {
    match limits.maximum {
        Some(max) => max as nat,
        None => limits.initial as nat,
    }
}

/// A memory: its limits; the memory starts with `capacity` pages of zero bytes.
pub open spec fn spec_memory_entry(s: Seq<u8>, pos: int, m: ModuleView) -> Result<(ModuleView, int), ParseError> {
    match spec_parse_limits(s, pos) {
        Err(e) => Err(e),
        Ok((limits, p)) => if capacity(limits) * WASM_PAGE_SIZE > usize::MAX {
            Err(ParseError::CustomError(Violation::MemoryTooLarge))
        } else {
            Ok(
                (
                    ModuleView {
                        memories: m.memories.push(
                            MemoryView { limits, values: Seq::new(capacity(limits) * WASM_PAGE_SIZE as nat, |i: int| 0u8) },
                        ),
                        ..m
                    },
                    p,
                ),
            )
        },
    }
}

proof fn lemma_entry_moves(s: Seq<u8>, pos: int, m: ModuleView)
    ensures
        moves(spec_memory_entry(s, pos, m), s, pos),
{
    lemma_limits_advances(s, pos);
}

/// Decodes one memory and adds it, filled with zero bytes, to the module.
fn parse_entry(input: &[u8], pos: usize, module: &mut Module) -> (res: Result<usize, ParseError>)
    requires
        old(module).wf(),
    ensures
        final(module).wf(),
        section_result(res, final(module)@, spec_memory_entry(input@, pos as int, old(module)@)),
        res is Err ==> final(module)@ == old(module)@,
{
    let (limits, p) = ResizableLimits::parse(input, pos)?;
    proof {
        lemma_limits_bounds(input@, pos as int);
    }
    let pages: u64 = match limits.maximum {
        Some(max) => max,
        None => limits.initial,
    };
    let bytes: u64 = pages * 65536;
    if bytes > usize::MAX as u64 {
        return Err(ParseError::CustomError(Violation::MemoryTooLarge));
    }
    let values: Vec<u8> = vec![0u8; bytes as usize];
    let ghost before = module.memories@;
    let memory = Memory { limits, values };
    proof {
        assert(values@ =~= Seq::new(capacity(limits) * WASM_PAGE_SIZE as nat, |i: int| 0u8));
    }
    module.memories.push(memory);
    proof {
        assert(module.memories@.map_values(|x: Memory| x@) =~= before.map_values(|x: Memory| x@).push(memory@));
    }
    Ok(p)
}

/// `n` more memories.
pub open spec fn spec_memory_entries(s: Seq<u8>, pos: int, n: nat, m: ModuleView) -> Result<(ModuleView, int), ParseError>
    decreases n,
{
    if n == 0 {
        Ok((m, pos))
    } else {
        match spec_memory_entry(s, pos, m) {
            Err(e) => Err(e),
            Ok((m2, p)) => spec_memory_entries(s, p, (n - 1) as nat, m2),
        }
    }
}

/// The memory section: the entry count as a `varuint32`, then the memories.
pub open spec fn spec_memory_section(s: Seq<u8>, pos: int, m: ModuleView) -> Result<(ModuleView, int), ParseError> {
    match spec_varuint(s, pos, 32) {
        Err(e) => Err(e),
        Ok((count, p)) => spec_memory_entries(s, p, count as nat, m),
    }
}

/// The module that decoding `n` more entries leaves where one of them fails:
/// the entries before it added, the failing one not.
pub open spec fn spec_memory_entries_stop(s: Seq<u8>, pos: int, n: nat, m: ModuleView) -> ModuleView
    decreases n,
{
    if n == 0 {
        m
    } else {
        match spec_memory_entry(s, pos, m) {
            Ok((m2, p)) => spec_memory_entries_stop(s, p, (n - 1) as nat, m2),
            Err(_) => m,
        }
    }
}

/// The module that decoding the section leaves where it fails.
pub open spec fn spec_memory_section_stop(s: Seq<u8>, pos: int, m: ModuleView) -> ModuleView {
    match spec_varuint(s, pos, 32) {
        Err(_) => m,
        Ok((count, p)) => spec_memory_entries_stop(s, p, count as nat, m),
    }
}

proof fn lemma_entries_move(s: Seq<u8>, pos: int, n: nat, m: ModuleView)
    requires
        0 <= pos <= s.len(),
    ensures
        moves(spec_memory_entries(s, pos, n, m), s, pos),
    decreases n,
{
    if n > 0 {
        lemma_entry_moves(s, pos, m);
        if let Ok((m2, p)) = spec_memory_entry(s, pos, m) {
            lemma_entries_move(s, p, (n - 1) as nat, m2);
        }
    }
}

/// Decoding the memory section moves forward and stays within the input.
pub proof fn lemma_memory_section_moves(s: Seq<u8>, pos: int, m: ModuleView)
    ensures
        moves(spec_memory_section(s, pos, m), s, pos),
{
    lemma_varuint_advances(s, pos, 32);
    if let Ok((count, p)) = spec_varuint(s, pos, 32) {
        lemma_entries_move(s, p, count as nat, m);
    }
}

/// Decodes the memory section: the entry count as a `varuint32`, then the
/// memories; each is added to the module filled with zero bytes.
#[verifier::loop_isolation(false)]
pub fn parse(input: &[u8], pos: usize, module: &mut Module) -> (res: Result<usize, ParseError>)
    requires
        old(module).wf(),
    ensures
        final(module).wf(),
        section_result(res, final(module)@, spec_memory_section(input@, pos as int, old(module)@)),
        res is Err ==> final(module)@ == spec_memory_section_stop(input@, pos as int, old(module)@),
{
    let (count, p0) = read_varuint(input, pos, 32)?;
    let mut p: usize = p0;
    let mut i: u64 = 0;
    let ghost m0 = module@;
    while i < count
        invariant
            i <= count,
            module.wf(),
            spec_memory_section(input@, pos as int, m0) == spec_memory_entries(input@, p as int, (count - i) as nat, module@),
            spec_memory_section_stop(input@, pos as int, m0) == spec_memory_entries_stop(input@, p as int, (count - i) as nat, module@),
        decreases count - i,
    {
        p = parse_entry(input, p, module)?;
        i = i + 1;
    }
    Ok(p)
}

} // verus!
