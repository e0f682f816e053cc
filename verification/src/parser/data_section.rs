//! The data section.
use crate::parse_tree::memory::Memory;
use crate::parse_tree::memory::MemoryView;
use crate::parser::errors::moves;
use crate::parser::errors::section_result;
use crate::parser::errors::ParseError;
use crate::parser::errors::Violation;
use crate::parser::utils::lemma_swallow_advances;
use crate::parser::utils::lemma_varuint32_bound;
use crate::parser::utils::lemma_varuint_advances;
use crate::parser::utils::read_varuint;
use crate::parser::utils::spec_swallow_expr;
use crate::parser::utils::spec_varuint;
use crate::parser::utils::swallow_expr;
use crate::tree::Module;
use crate::tree::ModuleView;
use vstd::prelude::*;

verus! {

/// Where the bytes of a data segment of `size` bytes that starts at `pos` end:
/// at `pos + size`, or at the end of the input if that comes first.
pub open spec fn data_end(s: Seq<u8>, pos: int, size: int) -> int {
    if pos + size <= s.len() {
        pos + size
    } else {
        s.len() as int
    }
}

/// The memory after `data`, the bytes of a segment whose declared size is
/// `size`, are written into it at `offset`; or why they cannot be. The check
/// against the maximum compares `offset + size` with the maximum as it is
/// stored. The bytes replace the `size - 1` bytes from `offset` on, so a
/// segment of `size` bytes leaves the memory one byte longer, and a segment
/// of no bytes is refused.
pub open spec fn place_data(memory: MemoryView, offset: int, size: int, data: Seq<u8>) -> Result<MemoryView, ParseError> {
    if memory.limits.maximum matches Some(max) && offset + size > max {
        Err(ParseError::CustomError(Violation::DataTooBig))
    } else if offset < 0 || size == 0 || offset + size - 1 > memory.values.len() {
        Err(ParseError::CustomError(Violation::DataOutOfRange))
    } else {
        Ok(
            MemoryView {
                limits: memory.limits,
                values: memory.values.take(offset) + data + memory.values.skip(offset + size - 1),
            },
        )
    }
}

/// A data segment: the memory index as a `varuint32`, which must be 0; the
/// offset expression, skipped up to its `end`; the size as a `varuint32`, then
/// that many bytes (fewer where the input ends first), which are written into
/// memory 0.
pub open spec fn spec_data_entry(s: Seq<u8>, pos: int, m: ModuleView) -> Result<(ModuleView, int), ParseError> {
    match spec_varuint(s, pos, 32) {
        Err(e) => Err(e),
        Ok((index, p)) => if index != 0 {
            Err(ParseError::CustomError(Violation::DataIndexNotZero))
        } else {
            match spec_swallow_expr(s, p) {
                Err(e) => Err(e),
                Ok((offset, q)) => match spec_varuint(s, q, 32) {
                    Err(e) => Err(e),
                    Ok((size, r)) => {
                        let end = data_end(s, r, size as int);
                        if m.memories.len() == 0 {
                            Err(ParseError::CustomError(Violation::NoMemory))
                        } else {
                            match place_data(m.memories[0], offset as int, size as int, s.subrange(r, end)) {
                                Err(e) => Err(e),
                                Ok(memory) => Ok((ModuleView { memories: m.memories.update(0, memory), ..m }, end)),
                            }
                        }
                    },
                },
            }
        },
    }
}

proof fn lemma_entry_moves(s: Seq<u8>, pos: int, m: ModuleView)
    ensures
        moves(spec_data_entry(s, pos, m), s, pos),
{
    lemma_varuint_advances(s, pos, 32);
    if let Ok((_, p)) = spec_varuint(s, pos, 32) {
        lemma_swallow_advances(s, p);
        if let Ok((_, q)) = spec_swallow_expr(s, p) {
            lemma_varuint_advances(s, q, 32);
        }
    }
}

/// The memory with `data` written into it, as `place_data` says.
fn placed(memory: &Memory, offset: i64, size: u64, data: &[u8]) -> (res: Result<Memory, ParseError>)
    ensures
        match res {
            Ok(mem) => place_data(memory@, offset as int, size as int, data@) == Ok::<MemoryView, ParseError>(mem@),
            Err(e) => place_data(memory@, offset as int, size as int, data@) == Err::<MemoryView, ParseError>(e),
        },
{
    let values = &memory.values;
    if let Some(max) = memory.limits.maximum {
        if offset as i128 + size as i128 > max as i128 {
            return Err(ParseError::CustomError(Violation::DataTooBig));
        }
    }
    if offset < 0 || size == 0 || offset as i128 + size as i128 - 1 > values.len() as i128 {
        return Err(ParseError::CustomError(Violation::DataOutOfRange));
    }
    let s: usize = offset as usize;
    let e: usize = (offset as i128 + size as i128 - 1) as usize;
    let mut updated: Vec<u8> = Vec::new();
    let mut i: usize = 0;
    while i < s
        invariant
            i <= s <= e <= values.len(),
            updated@ == values@.take(i as int),
        decreases s - i,
    {
        updated.push(values[i]);
        i = i + 1;
        assert(updated@ =~= values@.take(i as int));
    }
    let mut j: usize = 0;
    while j < data.len()
        invariant
            j <= data.len(),
            s <= e <= values.len(),
            updated@ == values@.take(s as int) + data@.take(j as int),
        decreases data.len() - j,
    {
        updated.push(data[j]);
        j = j + 1;
        assert(updated@ =~= values@.take(s as int) + data@.take(j as int));
    }
    let mut k: usize = e;
    assert(data@.take(data@.len() as int) =~= data@);
    while k < values.len()
        invariant
            e <= k <= values.len(),
            updated@ == values@.take(s as int) + data@ + values@.subrange(e as int, k as int),
        decreases values.len() - k,
    {
        updated.push(values[k]);
        k = k + 1;
        assert(updated@ =~= values@.take(s as int) + data@ + values@.subrange(e as int, k as int));
    }
    assert(values@.subrange(e as int, values@.len() as int) =~= values@.skip(e as int));
    Ok(Memory { limits: memory.limits, values: updated })
}

/// Decodes one data segment and writes its bytes into memory 0.
fn parse_entry(input: &[u8], pos: usize, module: &mut Module) -> (res: Result<usize, ParseError>)
    requires
        old(module).wf(),
    ensures
        final(module).wf(),
        section_result(res, final(module)@, spec_data_entry(input@, pos as int, old(module)@)),
        res is Err ==> final(module)@ == old(module)@,
{
    let (index, p) = read_varuint(input, pos, 32)?;
    if index != 0 {
        return Err(ParseError::CustomError(Violation::DataIndexNotZero));
    }
    let (offset, q) = swallow_expr(input, p)?;
    let (size, r) = read_varuint(input, q, 32)?;
    proof {
        lemma_varuint_advances(input@, q as int, 32);
        lemma_varuint32_bound(input@, q as int);
    }
    let end: usize = if size as u128 <= (input.len() - r) as u128 {
        r + size as usize
    } else {
        input.len()
    };
    let data = vstd::slice::slice_subrange(input, r, end);
    if module.memories.len() == 0 {
        return Err(ParseError::CustomError(Violation::NoMemory));
    }
    let ghost memories_before = module.memories@;
    let memory = placed(&module.memories[0], offset, size, data)?;
    module.memories.set(0, memory);
    proof {
        assert(module.memories@.map_values(|x: Memory| x@) =~= memories_before.map_values(|x: Memory| x@).update(0, memory@));
    }
    Ok(end)
}

/// `n` more data segments.
pub open spec fn spec_data_entries(s: Seq<u8>, pos: int, n: nat, m: ModuleView) -> Result<(ModuleView, int), ParseError>
    decreases n,
{
    if n == 0 {
        Ok((m, pos))
    } else {
        match spec_data_entry(s, pos, m) {
            Err(e) => Err(e),
            Ok((m2, p)) => spec_data_entries(s, p, (n - 1) as nat, m2),
        }
    }
}

/// The data section: the entry count as a `varuint32`, then the segments.
pub open spec fn spec_data_section(s: Seq<u8>, pos: int, m: ModuleView) -> Result<(ModuleView, int), ParseError> {
    match spec_varuint(s, pos, 32) {
        Err(e) => Err(e),
        Ok((count, p)) => spec_data_entries(s, p, count as nat, m),
    }
}

/// The module that decoding `n` more entries leaves where one of them fails:
/// the entries before it added, the failing one not.
pub open spec fn spec_data_entries_stop(s: Seq<u8>, pos: int, n: nat, m: ModuleView) -> ModuleView
    decreases n,
{
    if n == 0 {
        m
    } else {
        match spec_data_entry(s, pos, m) {
            Ok((m2, p)) => spec_data_entries_stop(s, p, (n - 1) as nat, m2),
            Err(_) => m,
        }
    }
}

/// The module that decoding the section leaves where it fails.
pub open spec fn spec_data_section_stop(s: Seq<u8>, pos: int, m: ModuleView) -> ModuleView {
    match spec_varuint(s, pos, 32) {
        Err(_) => m,
        Ok((count, p)) => spec_data_entries_stop(s, p, count as nat, m),
    }
}

proof fn lemma_entries_move(s: Seq<u8>, pos: int, n: nat, m: ModuleView)
    requires
        0 <= pos <= s.len(),
    ensures
        moves(spec_data_entries(s, pos, n, m), s, pos),
    decreases n,
{
    if n > 0 {
        lemma_entry_moves(s, pos, m);
        if let Ok((m2, p)) = spec_data_entry(s, pos, m) {
            lemma_entries_move(s, p, (n - 1) as nat, m2);
        }
    }
}

/// Decoding the data section moves forward and stays within the input.
pub proof fn lemma_data_section_moves(s: Seq<u8>, pos: int, m: ModuleView)
    ensures
        moves(spec_data_section(s, pos, m), s, pos),
{
    lemma_varuint_advances(s, pos, 32);
    if let Ok((count, p)) = spec_varuint(s, pos, 32) {
        lemma_entries_move(s, p, count as nat, m);
    }
}

/// Decodes the data section: the entry count as a `varuint32`, then the
/// segments; each writes its bytes into memory 0.
#[verifier::loop_isolation(false)]
pub fn parse(input: &[u8], pos: usize, module: &mut Module) -> (res: Result<usize, ParseError>)
    requires
        old(module).wf(),
    ensures
        final(module).wf(),
        section_result(res, final(module)@, spec_data_section(input@, pos as int, old(module)@)),
        res is Err ==> final(module)@ == spec_data_section_stop(input@, pos as int, old(module)@),
{
    let (count, p0) = read_varuint(input, pos, 32)?;
    let mut p: usize = p0;
    let mut i: u64 = 0;
    let ghost m0 = module@;
    while i < count
        invariant
            i <= count,
            module.wf(),
            spec_data_section(input@, pos as int, m0) == spec_data_entries(input@, p as int, (count - i) as nat, module@),
            spec_data_section_stop(input@, pos as int, m0) == spec_data_entries_stop(input@, p as int, (count - i) as nat, module@),
        decreases count - i,
    {
        p = parse_entry(input, p, module)?;
        i = i + 1;
    }
    Ok(p)
}

} // verus!
