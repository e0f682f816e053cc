//! What calling a decoded function needs before its instructions run, and the
//! path from a module's bytes to a template.
pub mod exports;
pub mod functions;
pub mod language_types;

use crate::parser::spec_parse_module;
use crate::parser::ModuleParser;
use crate::parser::ParseError;
use crate::parser::Violation;
use crate::runtime_tree::functions::built_functions;
use crate::runtime_tree::functions::signatures_exist;
use crate::runtime_tree::ModuleTemplate;
use crate::runtime_tree::ModuleTemplateBuilder;
use crate::tree::Module;
use vstd::prelude::*;

verus! {

/// Decodes a module from its bytes and builds its template, with the functions
/// that the host supplies named by module and field in `imports`.
///
/// It fails with the decoding error where the bytes are no module, and with
/// `NoSuchSignature` where a function that is built names a signature that the
/// module lacks.
pub fn instantiate(input: &[u8], imports: Vec<(String, String)>) -> (res: Result<ModuleTemplate, ParseError>)
    ensures
        match res {
            Ok(t) => exists|m: Module|
                {
                    &&& m.wf()
                    &&& spec_parse_module(input@) == Ok::<_, ParseError>(m@)
                    &&& signatures_exist(m, imports@)
                    &&& built_functions(m, imports@, t.functions@)
                    &&& t.exports@ == m.exports@
                    &&& t.types@ == m.types@
                    &&& t.memories@ == m.memories@
                    &&& t.globals@.len() == 0
                    &&& t.tables@.len() == 0
                    &&& t.start_function is None
                },
            Err(e) => match spec_parse_module(input@) {
                Err(d) => e == d,
                Ok(v) => e == ParseError::CustomError(Violation::NoSuchSignature) && exists|m: Module|
                    m.wf() && m@ == v && !signatures_exist(m, imports@),
            },
        },
{
    let parser = ModuleParser::default();
    let module = parser.parse_module(input)?;
    let ghost m = module;
    let res = module.build(imports);
    proof {
        if res is Ok {
            assert(m.wf() && spec_parse_module(input@) == Ok::<_, ParseError>(m@));
        }
    }
    res
}

} // verus!
