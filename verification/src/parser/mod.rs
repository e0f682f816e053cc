//! Decoding of the WebAssembly binary module format.
pub mod errors;
pub mod language_types;
pub mod utils;
pub mod decode_laws;

pub mod types_section;
pub mod imports_section;
pub mod functions_section;
pub mod tables_section;
pub mod memory_section;
pub mod globals_section;
pub mod exports_section;
pub mod start_section;
pub mod elements_section;
pub mod code_section;
pub mod data_section;

pub use errors::ParseError;
pub use errors::Violation;

use crate::parser::code_section::lemma_code_section_moves;
use crate::parser::code_section::spec_code_section;
use crate::parser::data_section::lemma_data_section_moves;
use crate::parser::data_section::spec_data_section;
use crate::parser::elements_section::lemma_elements_section_moves;
use crate::parser::elements_section::spec_elements_section;
use crate::parser::exports_section::lemma_exports_section_moves;
use crate::parser::exports_section::spec_exports_section;
use crate::parser::functions_section::lemma_functions_section_moves;
use crate::parser::functions_section::spec_functions_section;
use crate::parser::globals_section::lemma_globals_section_moves;
use crate::parser::globals_section::spec_globals_section;
use crate::parser::imports_section::lemma_imports_section_moves;
use crate::parser::imports_section::spec_imports_section;
use crate::parser::memory_section::lemma_memory_section_moves;
use crate::parser::memory_section::spec_memory_section;
use crate::parser::start_section::lemma_start_section_moves;
use crate::parser::start_section::spec_start_section;
use crate::parser::tables_section::lemma_tables_section_moves;
use crate::parser::tables_section::spec_tables_section;
use crate::parser::types_section::lemma_types_section_moves;
use crate::parser::types_section::spec_types_section;
use crate::parser::errors::moves;
use crate::parser::errors::section_result;
use crate::parser::utils::lemma_varuint_advances;
use crate::parser::utils::read_u32_le;
use crate::parser::utils::read_varuint;
use crate::parser::utils::spec_u32_le;
use crate::parser::utils::spec_varuint;
use crate::tree::empty_module;
use crate::tree::Module;
use crate::tree::ModuleView;
use vstd::prelude::*;

verus! {

/// The first four bytes of every module, `\0asm`, read as a little-endian integer.
pub const MAGIC_NUMBER: u32 = 0x6d736100;

/// A decoder of one kind of section, for callers that bring their own.
pub trait Parse: Sized {
    /// Decodes the section that starts at `pos`, given the module decoded so far;
    /// on success returns it and the position where the input continues.
    fn parse(input: &[u8], pos: usize, module: &Module) -> Result<(Self, usize), ParseError>;
}

/// The section with the given id, decoded from `s` at `pos` into `m`.
#[verifier::opaque]
pub open spec fn spec_section_body(id: u64, s: Seq<u8>, pos: int, m: ModuleView) -> Result<(ModuleView, int), ParseError> {
    if id == 1 {
        spec_types_section(s, pos, m)
    } else if id == 2 {
        spec_imports_section(s, pos, m)
    } else if id == 3 {
        spec_functions_section(s, pos, m)
    } else if id == 4 {
        spec_tables_section(s, pos, m)
    } else if id == 5 {
        spec_memory_section(s, pos, m)
    } else if id == 6 {
        spec_globals_section(s, pos, m)
    } else if id == 7 {
        spec_exports_section(s, pos, m)
    } else if id == 8 {
        spec_start_section(s, pos, m)
    } else if id == 9 {
        spec_elements_section(s, pos, m)
    } else if id == 10 {
        spec_code_section(s, pos, m)
    } else {
        spec_data_section(s, pos, m)
    }
}

/// Where a section whose payload is `len` bytes and starts at `pos` ends: at
/// `pos + len`, or at the end of the input if that comes first.
pub open spec fn section_end(s: Seq<u8>, pos: int, len: int) -> int {
    if pos + len <= s.len() {
        pos + len
    } else {
        s.len() as int
    }
}

/// A section after its id: an id from 1 to 11, then the payload length as a
/// `varuint32`, then the payload, which the section's decoder reads with the
/// input cut off at the payload's end. The input continues where that decoder
/// stopped.
pub open spec fn spec_parse_section(s: Seq<u8>, pos: int, id: u64, m: ModuleView) -> Result<(ModuleView, int), ParseError> {
    if id < 1 || id > 11 {
        Err(ParseError::UnknownSectionId(id))
    } else {
        match spec_varuint(s, pos, 32) {
            Err(e) => Err(e),
            Ok((len, p)) => spec_section_body(id, s.subrange(0, section_end(s, p, len as int)), p, m),
        }
    }
}

/// Decoding a section body does not move back and stays within the input.
pub proof fn lemma_section_body_moves(id: u64, s: Seq<u8>, pos: int, m: ModuleView)
    ensures
        moves(spec_section_body(id, s, pos, m), s, pos),
{
    reveal(spec_section_body);
    if id == 1 {
        lemma_types_section_moves(s, pos, m);
    } else if id == 2 {
        lemma_imports_section_moves(s, pos, m);
    } else if id == 3 {
        lemma_functions_section_moves(s, pos, m);
    } else if id == 4 {
        lemma_tables_section_moves(s, pos, m);
    } else if id == 5 {
        lemma_memory_section_moves(s, pos, m);
    } else if id == 6 {
        lemma_globals_section_moves(s, pos, m);
    } else if id == 7 {
        lemma_exports_section_moves(s, pos, m);
    } else if id == 8 {
        lemma_start_section_moves(s, pos, m);
    } else if id == 9 {
        lemma_elements_section_moves(s, pos, m);
    } else if id == 10 {
        lemma_code_section_moves(s, pos, m);
    } else {
        lemma_data_section_moves(s, pos, m);
    }
}

/// Decoding a section moves forward and stays within the input.
pub proof fn lemma_section_advances(s: Seq<u8>, pos: int, id: u64, m: ModuleView)
    ensures
        spec_parse_section(s, pos, id, m) matches Ok((_, q)) ==> 0 <= pos < q <= s.len(),
{
    lemma_varuint_advances(s, pos, 32);
    if 1 <= id <= 11 {
        if let Ok((len, p)) = spec_varuint(s, pos, 32) {
            lemma_section_body_moves(id, s.subrange(0, section_end(s, p, len as int)), p, m);
        }
    }
}

/// Sections from `pos` on, each an id as a `varuint7` and then the section, until
/// an id cannot be read.
pub open spec fn spec_parse_sections(s: Seq<u8>, pos: int, m: ModuleView) -> Result<ModuleView, ParseError>
    decreases s.len() - pos,
{
    match spec_varuint(s, pos, 7) {
        Err(_) => Ok(m),
        Ok((id, p)) => match spec_parse_section(s, p, id, m) {
            Err(e) => Err(e),
            Ok((m2, q)) => {
                proof {
                    lemma_varuint_advances(s, pos, 7);
                    lemma_section_advances(s, p, id, m);
                }
                spec_parse_sections(s, q, m2)
            },
        },
    }
}

/// A module: the magic number and the version, each four bytes little-endian,
/// then its sections. Only version 1 is accepted.
pub open spec fn spec_parse_module(s: Seq<u8>) -> Result<ModuleView, ParseError> {
    match spec_u32_le(s, 0) {
        Err(e) => Err(e),
        Ok((magic, p)) => if magic != MAGIC_NUMBER {
            Err(ParseError::WrongMagicNumber)
        } else {
            match spec_u32_le(s, p) {
                Err(e) => Err(e),
                Ok((version, q)) => if version != 1 {
                    Err(ParseError::UnsupportedModuleVersion)
                } else {
                    spec_parse_sections(s, q, empty_module(version))
                },
            }
        },
    }
}

/// Decodes modules, with a decoder for each section id from 1 to 11.
pub struct ModuleParser {}

impl ModuleParser {
    /// A parser that knows the eleven sections of the format.
    pub fn default() -> (r: ModuleParser) {
        ModuleParser {  }
    }

    /// Decodes a whole module.
    pub fn parse_module(&self, input: &[u8]) -> (res: Result<Module, ParseError>)
        ensures
            match res {
                Ok(m) => m.wf() && spec_parse_module(input@) == Ok::<ModuleView, ParseError>(m@),
                Err(e) => spec_parse_module(input@) == Err::<ModuleView, ParseError>(e),
            },
    {
        let (magic, p) = read_u32_le(input, 0)?;
        if magic != MAGIC_NUMBER {
            return Err(ParseError::WrongMagicNumber);
        }
        let (version, q) = read_u32_le(input, p)?;
        if version != 1 {
            return Err(ParseError::UnsupportedModuleVersion);
        }
        let mut module = Module::new(version);
        self.parse_sections(&mut module, input, q)?;
        Ok(module)
    }

    /// Decodes sections from `pos` on until an id cannot be read.
    #[verifier::loop_isolation(false)]
    fn parse_sections(&self, module: &mut Module, input: &[u8], pos: usize) -> (res: Result<(), ParseError>)
        requires
            old(module).wf(),
        ensures
            final(module).wf(),
            match res {
                Ok(()) => spec_parse_sections(input@, pos as int, old(module)@) == Ok::<ModuleView, ParseError>(final(module)@),
                Err(e) => spec_parse_sections(input@, pos as int, old(module)@) == Err::<ModuleView, ParseError>(e),
            },
    {
        let mut p: usize = pos;
        let ghost m0 = module@;
        loop
            invariant
                module.wf(),
                spec_parse_sections(input@, pos as int, m0) == spec_parse_sections(input@, p as int, module@),
            decreases input.len() - p,
        {
            let (id, q) = match read_varuint(input, p, 7) {
                Ok(r) => r,
                Err(_) => {
                    return Ok(());
                },
            };
            proof {
                lemma_varuint_advances(input@, p as int, 7);
                lemma_section_advances(input@, q as int, id, module@);
            }
            p = self.parse_section(id, input, q, module)?;
        }
    }

    /// Decodes the section with the given id, which starts at `pos` with its
    /// payload length; returns where the input continues.
    fn parse_section(&self, id: u64, input: &[u8], pos: usize, module: &mut Module) -> (res: Result<usize, ParseError>)
        requires
            old(module).wf(),
        ensures
            final(module).wf(),
            section_result(res, final(module)@, spec_parse_section(input@, pos as int, id, old(module)@)),
            id < 1 || id > 11 || spec_varuint(input@, pos as int, 32) is Err ==> *final(module) == *old(module),
    {
        if id < 1 || id > 11 {
            return Err(ParseError::UnknownSectionId(id));
        }
        let (len, p) = read_varuint(input, pos, 32)?;
        proof {
            lemma_varuint_advances(input@, pos as int, 32);
        }
        let end: usize = if len as u128 <= (input.len() - p) as u128 {
            p + len as usize
        } else {
            input.len()
        };
        let window = vstd::slice::slice_subrange(input, 0, end);
        proof {
            reveal(spec_section_body);
        }
        if id == 1 {
            types_section::parse(window, p, module)
        } else if id == 2 {
            imports_section::parse(window, p, module)
        } else if id == 3 {
            functions_section::parse(window, p, module)
        } else if id == 4 {
            tables_section::parse(window, p, module)
        } else if id == 5 {
            memory_section::parse(window, p, module)
        } else if id == 6 {
            globals_section::parse(window, p, module)
        } else if id == 7 {
            exports_section::parse(window, p, module)
        } else if id == 8 {
            start_section::parse(window, p, module)
        } else if id == 9 {
            elements_section::parse(window, p, module)
        } else if id == 10 {
            code_section::parse(window, p, module)
        } else {
            data_section::parse(window, p, module)
        }
    }
}

} // verus!
