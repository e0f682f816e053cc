//! Calling an instance's exports by name.
use crate::runtime_tree::execute::call_export;
use crate::runtime_tree::execute::spec_call_fn;
use crate::runtime_tree::host::host_callable;
use crate::runtime_tree::host::host_deterministic;
use crate::runtime_tree::language_types::FrameView;
use crate::runtime_tree::language_types::StackFrame;
use crate::runtime_tree::language_types::Trap;
use crate::runtime_tree::language_types::ValueTypeProvider;
use crate::tree::exports::export_map;
use crate::tree::exports::ExportEntry;
use vstd::prelude::*;

verus! {

/// An instance's exports, the frame that calls of them run on, and the host
/// that provides the functions the module imports.
pub struct ExportObj<'a, H: Fn(usize, Vec<ValueTypeProvider>) -> Option<Vec<ValueTypeProvider>>> {
    pub exports: Vec<ExportEntry>,
    pub frame: StackFrame<'a>,
    pub host: H,
}

/// Exports that can be called by name.
pub trait ExportObject {
    /// Whether the exports can be called: their host can be called with any
    /// function index and arguments.
    spec fn callable(&self) -> bool;

    /// Calls the function exported as `name` with `args`, with at most `fuel`
    /// loop iterations and calls.
    fn call_fn(&mut self, name: &String, args: Vec<ValueTypeProvider>, fuel: u64) -> Result<
        Vec<ValueTypeProvider>,
        Trap,
    >
        requires
            old(self).callable(),
    ;
}

impl<'a, H: Fn(usize, Vec<ValueTypeProvider>) -> Option<Vec<ValueTypeProvider>>> ExportObject for ExportObj<'a, H> {
    open spec fn callable(&self) -> bool {
        host_callable(self.host)
    }

    /// Runs the exported function on the frame, as `call_export` does; the
    /// exports stay as they are.
    fn call_fn(&mut self, name: &String, args: Vec<ValueTypeProvider>, fuel: u64) -> (res: Result<
        Vec<ValueTypeProvider>,
        Trap,
    >)
        ensures
            final(self).exports@ == old(self).exports@,
            final(self).host == old(self).host,
            if export_map(old(self).exports@).contains_key(name@) && export_map(old(self).exports@)[name@] is Function {
                let index = export_map(old(self).exports@)[name@]->Function_0;
                host_deterministic(old(self).host) ==> match res {
                    Ok(results) => spec_call_fn(old(self).host, old(self).frame@, index, args@, fuel as nat) matches Ok((rs, g))
                        && rs == results@ && final(self).frame@ == (FrameView {
                        locals: old(self).frame@.locals,
                        stack: old(self).frame@.stack,
                        ..g
                    }),
                    Err(e) => spec_call_fn(old(self).host, old(self).frame@, index, args@, fuel as nat) == Err::<
                        (Seq<ValueTypeProvider>, FrameView),
                        Trap,
                    >(e),
                }
            } else {
                res == Err::<Vec<ValueTypeProvider>, Trap>(Trap::NoSuchFunction) && final(self).frame@ == old(
                    self,
                ).frame@
            },
    {
        call_export(&mut self.frame, &self.host, &self.exports, name, args, fuel)
    }
}

} // verus!
