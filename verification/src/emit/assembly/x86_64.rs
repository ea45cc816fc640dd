//! The x86_64 emitter. It writes the section header, one linkage directive
//! for each function, and then the label of each function that is defined
//! here with a comment for each of its blocks. Instructions are not lowered.

use vstd::prelude::*;
use vstd::string::StringExecFns;

use crate::error::Error;
use crate::ir::builder::ctx::ContextView;
use crate::ir::builder::ctx::IRContext;
use crate::ir::linkage::Linkage;
use crate::ir::module::clone_functions;
use crate::ir::module::functions_view;
use crate::ir::module::ModuleView;
use crate::ir::values::basic_block::BasicBlock;
use crate::ir::values::basic_block::blocks_view;
use crate::ir::values::basic_block::BlockView;
use crate::ir::values::basic_block::clone_entities;
use crate::ir::values::function::clone_blocks;
use crate::ir::values::function::Function;
use crate::ir::values::function::FunctionView;
use crate::ir::values::value::ValueEntity;
use crate::text::concat;
use crate::text::lemma_concat_step;

verus! {

/// The emitter for x86_64.
pub struct X86_64Emitter {
    ctx: IRContext,
}

impl View for X86_64Emitter {
    type V = ContextView;

    closed spec fn view(&self) -> ContextView {
        self.ctx@
    }
}

/// The directive that tells the assembler how a function is linked: `.extern`
/// for a function that is external, external weak or common, `.globl` for an
/// internal one, nothing for a private one. The other linkages have none.
pub open spec fn linkage_directive(f: FunctionView) -> Option<Seq<char>> {
    match f.linkage {
        Linkage::ExternalLinkage => Some("\t\t.extern "@ + f.name + "\n"@),
        Linkage::InternalLinkage => Some("\t\t.globl "@ + f.name + "\n"@),
        Linkage::PrivateLinkage => Some(Seq::empty()),
        Linkage::ExternalWeakLinkage => Some("\t\t.extern "@ + f.name + "\n"@),
        Linkage::CommonLinkage => Some("\t\t.extern "@ + f.name + "\n"@),
        Linkage::AppendingLinkage => None,
        Linkage::LinkonceLinkage => None,
        Linkage::WeakLinkage => None,
    }
}

/// The assembly of a block: its label, unless it is the entry block of its
/// function, and a comment with its name.
pub open spec fn block_assembly(func: FunctionView, bb: BlockView, is_entry: bool) -> Seq<char> {
    if is_entry {
        "# %"@ + bb.value.name + "\n"@
    } else {
        "."@ + func.name + ".L"@ + bb.value.name + ":"@ + "# %"@ + bb.value.name + "\n"@
    }
}

/// The assembly of the blocks of a function, one by one; the first is the entry block.
pub open spec fn block_pieces(func: FunctionView) -> Seq<Seq<char>> {
    Seq::new(func.blocks.len(), |i: int| block_assembly(func, func.blocks[i], i == 0))
}

/// The assembly of the body of a function: nothing for an external function,
/// else its label, its blocks and an empty line.
pub open spec fn function_assembly(func: FunctionView) -> Seq<char> {
    if func.is_external() {
        Seq::empty()
    } else {
        func.name + ":\n"@ + concat(block_pieces(func)) + "\n"@
    }
}

/// What is emitted for a function in one of the two passes over the module:
/// its linkage directive in the first, its body in the second.
pub open spec fn function_output(func: FunctionView, decl: bool) -> Option<Seq<char>> {
    if decl {
        linkage_directive(func)
    } else {
        Some(function_assembly(func))
    }
}

/// The linkage directives of the functions of a module, one by one.
pub open spec fn directive_pieces(functions: Seq<FunctionView>) -> Seq<Seq<char>> {
    Seq::new(functions.len(), |i: int| linkage_directive(functions[i])->Some_0)
}

/// The bodies of the functions of a module, one by one.
pub open spec fn body_pieces(functions: Seq<FunctionView>) -> Seq<Seq<char>> {
    Seq::new(functions.len(), |i: int| function_assembly(functions[i]))
}

/// The assembly of a module: the section header, the linkage directive of
/// every function, then the body of every function. There is none where a
/// function has a linkage without a directive.
pub open spec fn module_assembly(m: ModuleView) -> Option<Seq<char>> {
    if forall|i: int| 0 <= i < m.functions.len() ==> linkage_directive(
        #[trigger] m.functions[i],
    ) is Some {
        Some(
            "\t\t.text\n\t\t.intel_syntax noprefix\n"@ + concat(directive_pieces(m.functions))
                + concat(body_pieces(m.functions)),
        )
    } else {
        None
    }
}

impl X86_64Emitter {
    /// Creates an emitter for the module of `ctx`.
    pub fn new(ctx: IRContext) -> (r: Self)
        ensures
            r@ == ctx@,
    {
        Self { ctx }
    }

    /// The text of the assembly file of the module, or an error where a
    /// function has a linkage for which no directive exists.
    pub fn emit_module(&mut self) -> (r: Result<String, Error>)
        ensures
            final(self)@ == old(self)@,
            match module_assembly(old(self)@.module) {
                Some(text) => r is Ok && r->Ok_0@ == text,
                None => r == Err::<String, Error>(Error::UnsupportedLinkage),
            },
    {
        let functions = clone_functions(self.ctx.get_module().get_functions());
        let ghost views = self@.module.functions;
        let ghost directives = directive_pieces(views);
        let ghost bodies = body_pieces(views);
        let ghost header = "\t\t.text\n\t\t.intel_syntax noprefix\n"@;
        let mut out = String::from_str("\t\t.text\n");
        out.append("\t\t.intel_syntax noprefix\n");
        proof {
            reveal_strlit("\t\t.text\n");
            reveal_strlit("\t\t.intel_syntax noprefix\n");
            reveal_strlit("\t\t.text\n\t\t.intel_syntax noprefix\n");
            assert(out@ =~= header);
            assert(directives.subrange(0, 0) =~= Seq::<Seq<char>>::empty());
        }
        let mut i: usize = 0;
        while i < functions.len()
            invariant
                0 <= i <= functions.len(),
                self@ == old(self)@,
                views == functions_view(functions@),
                views == old(self)@.module.functions,
                directives == directive_pieces(views),
                forall|j: int| 0 <= j < i ==> linkage_directive(#[trigger] views[j]) is Some,
                out@ == header + concat(directives.subrange(0, i as int)),
            decreases functions.len() - i,
        {
            match self.emit_function(&functions[i], true) {
                Ok(text) => {
                    out.append(text.as_str());
                },
                Err(e) => {
                    assert(linkage_directive(views[i as int]) is None);
                    return Err(e);
                },
            }
            proof {
                lemma_concat_step(directives, i as int);
                assert(out@ =~= header + concat(directives.subrange(0, i + 1)));
            }
            i += 1;
        }
        proof {
            assert(directives.subrange(0, functions.len() as int) =~= directives);
            assert(bodies.subrange(0, 0) =~= Seq::<Seq<char>>::empty());
        }
        let ghost before = out@;
        let mut k: usize = 0;
        while k < functions.len()
            invariant
                0 <= k <= functions.len(),
                self@ == old(self)@,
                views == functions_view(functions@),
                bodies == body_pieces(views),
                out@ == before + concat(bodies.subrange(0, k as int)),
            decreases functions.len() - k,
        {
            match self.emit_function(&functions[k], false) {
                Ok(text) => {
                    out.append(text.as_str());
                },
                Err(e) => {
                    return Err(e);
                },
            }
            proof {
                lemma_concat_step(bodies, k as int);
                assert(out@ =~= before + concat(bodies.subrange(0, k + 1)));
            }
            k += 1;
        }
        proof {
            assert(bodies.subrange(0, functions.len() as int) =~= bodies);
            assert(out@ =~= header + concat(directives) + concat(bodies));
        }
        Ok(out)
    }

    /// What is emitted for `func` in one pass: its linkage directive where
    /// `decl` holds, or an error where its linkage has none; else its body.
    pub fn emit_function(&mut self, func: &Function, decl: bool) -> (r: Result<String, Error>)
        ensures
            final(self)@ == old(self)@,
            match function_output(func@, decl) {
                Some(text) => r is Ok && r->Ok_0@ == text,
                None => r == Err::<String, Error>(Error::UnsupportedLinkage),
            },
    {
        if decl {
            let mut out = String::new();
            match func.get_linkage() {
                Linkage::ExternalLinkage
                | Linkage::ExternalWeakLinkage
                | Linkage::CommonLinkage => {
                    out.append("\t\t.extern ");
                    out.append(func.get_name().as_str());
                    out.append("\n");
                },
                Linkage::InternalLinkage => {
                    out.append("\t\t.globl ");
                    out.append(func.get_name().as_str());
                    out.append("\n");
                },
                Linkage::PrivateLinkage => {},
                Linkage::AppendingLinkage => {
                    return Err(Error::UnsupportedLinkage);
                },
                Linkage::LinkonceLinkage => {
                    return Err(Error::UnsupportedLinkage);
                },
                Linkage::WeakLinkage => {
                    return Err(Error::UnsupportedLinkage);
                },
            }
            assert(out@ =~= linkage_directive(func@)->Some_0);
            return Ok(out);
        }
        if func.is_external() {
            return Ok(String::new());
        }
        let ghost pieces = block_pieces(func@);
        let mut out = func.get_name();
        out.append(":\n");
        let blocks = clone_blocks(func.get_blocks());
        let mut i: usize = 0;
        assert(pieces.subrange(0, 0) =~= Seq::<Seq<char>>::empty());
        while i < blocks.len()
            invariant
                0 <= i <= blocks.len(),
                self@ == old(self)@,
                blocks_view(blocks@) == func@.blocks,
                pieces == block_pieces(func@),
                out@ == func@.name + ":\n"@ + concat(pieces.subrange(0, i as int)),
            decreases blocks.len() - i,
        {
            assert(func@.blocks[i as int] == blocks@[i as int]@);
            match self.emit_basic_block(blocks[i].clone(), func, i == 0) {
                Ok(text) => {
                    out.append(text.as_str());
                },
                Err(e) => {
                    return Err(e);
                },
            }
            proof {
                lemma_concat_step(pieces, i as int);
                assert(out@ =~= func@.name + ":\n"@ + concat(pieces.subrange(0, i + 1)));
            }
            i += 1;
        }
        assert(pieces.subrange(0, blocks.len() as int) =~= pieces);
        out.append("\n");
        Ok(out)
    }

    /// What is emitted for the block `bb` of `func`: its label, unless
    /// `is_entry` holds, a comment with its name, and what its instructions
    /// emit, which is nothing.
    pub fn emit_basic_block(&mut self, bb: BasicBlock, func: &Function, is_entry: bool) -> (r:
        Result<String, Error>)
        ensures
            final(self)@ == old(self)@,
            r is Ok,
            r->Ok_0@ == block_assembly(func@, bb@, is_entry),
    {
        let mut out = String::new();
        if !is_entry {
            out.append(".");
            out.append(func.get_name().as_str());
            out.append(".L");
            out.append(bb.get_name().as_str());
            out.append(":");
        }
        out.append("# %");
        out.append(bb.get_name().as_str());
        out.append("\n");
        let insts = clone_entities(bb.get_instructions());
        let mut i: usize = 0;
        while i < insts.len()
            invariant
                0 <= i <= insts.len(),
                self@ == old(self)@,
                out@ =~= block_assembly(func@, bb@, is_entry),
            decreases insts.len() - i,
        {
            match self.emit_instruction(insts[i].clone()) {
                Ok(text) => {
                    out.append(text.as_str());
                },
                Err(e) => {
                    return Err(e);
                },
            }
            i += 1;
        }
        Ok(out)
    }

    /// What is emitted for an instruction: nothing. No instruction is lowered.
    pub fn emit_instruction(&mut self, x: ValueEntity) -> (r: Result<String, Error>)
        ensures
            final(self)@ == old(self)@,
            r is Ok,
            r->Ok_0@ == Seq::<char>::empty(),
    {
        Ok(String::new())
    }
}

/// The text of the assembly file of the module of `ctx`, or an error where a
/// function has a linkage for which no directive exists.
pub fn emit_module(ctx: IRContext) -> (r: Result<String, Error>)
    ensures
        match module_assembly(ctx@.module) {
            Some(text) => r is Ok && r->Ok_0@ == text,
            None => r == Err::<String, Error>(Error::UnsupportedLinkage),
        },
{
    let mut emitter = X86_64Emitter::new(ctx);
    emitter.emit_module()
}

} // verus!
