//! Assembly emission: the text of the assembly file of a finished module.

pub mod x86_64;

use vstd::prelude::*;

use crate::emit::assembly::x86_64::module_assembly;
use crate::error::Error;
use crate::ir::builder::ctx::ContextView;
use crate::ir::builder::ctx::IRContext;
use crate::targets::triple::Arch;

verus! {

/// Emits the assembly of the module of a context for the architecture that
/// the module's target triple names.
pub struct AssemblyEmitter {
    ctx: IRContext,
}

/// The assembly of a module for its own architecture. Only x86_64 has an
/// emitter; the linkage of each function must have a directive.
pub open spec fn target_assembly(ctx: ContextView) -> Result<Seq<char>, Error> {
    if ctx.module.target_triple.arch != Arch::X86_64 {
        Err(Error::UnsupportedArchitecture)
    } else {
        match module_assembly(ctx.module) {
            Some(text) => Ok(text),
            None => Err(Error::UnsupportedLinkage),
        }
    }
}

impl View for AssemblyEmitter {
    type V = ContextView;

    closed spec fn view(&self) -> ContextView {
        self.ctx@
    }
}

impl AssemblyEmitter {
    /// Creates an emitter for the module of `ctx`.
    pub fn new(ctx: IRContext) -> (r: Self)
        ensures
            r@ == ctx@,
    {
        Self { ctx }
    }

    /// The text of the assembly file of the module, or the reason why there is none.
    pub fn emit_module(&mut self) -> (r: Result<String, Error>)
        ensures
            final(self)@ == old(self)@,
            match target_assembly(old(self)@) {
                Ok(text) => r is Ok && r->Ok_0@ == text,
                Err(e) => r == Err::<String, Error>(e),
            },
    {
        match self.ctx.get_module().target_triple().arch() {
            Arch::X86_64 => x86_64::emit_module(self.ctx.clone()),
            _ => Err(Error::UnsupportedArchitecture),
        }
    }
}

} // verus!
