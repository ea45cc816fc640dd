//! The state of a construction: the module under construction and the block
//! that new instructions go to.

use vstd::prelude::*;

use crate::ir::module::Module;
use crate::ir::module::ModuleView;
use crate::ir::values::basic_block::BlockRef;
use crate::ir::values::basic_block::BlockView;
use crate::ir::values::function::FunctionView;
use crate::ir::values::instruction::InstructionTypeView;
use crate::ir::values::instruction::InstructionView;
use crate::ir::values::value::EntityView;
use crate::ir::values::value::TypeView;
use crate::ir::values::value::ValueView;
use crate::text::decimal;
use crate::text::lemma_decimal_injective;

verus! {

/// The module under construction together with the insertion point: the
/// block, if any, to which new instructions are appended.
pub struct IRContext {
    pub insertion_point: Option<BlockRef>,
    module: Module,
}

/// The mathematical value of an [`IRContext`].
pub struct ContextView {
    pub insertion_point: Option<BlockRef>,
    pub module: ModuleView,
}

impl View for IRContext {
    type V = ContextView;

    closed spec fn view(&self) -> ContextView {
        ContextView { insertion_point: self.insertion_point, module: self.module@ }
    }
}

impl ContextView {
    /// What holds of a context in use: its module is well formed, and the
    /// insertion point, where one is set, names a block of the module.
    pub open spec fn wf(self) -> bool {
        &&& self.module.wf()
        &&& match self.insertion_point {
            Some(at) => self.module.has_block(at),
            None => true,
        }
    }

    /// The block at the insertion point.
    pub open spec fn current_block(self) -> BlockView {
        self.module.block(self.insertion_point->Some_0)
    }

    /// The function that owns the block at the insertion point.
    pub open spec fn enclosing_function(self) -> FunctionView {
        self.module.function(self.insertion_point->Some_0.function)
    }

    /// The context after the block at the insertion point has handed out one
    /// more name.
    pub open spec fn after_naming(self) -> ContextView {
        let block = self.current_block();
        ContextView {
            module: self.module.with_block(
                self.insertion_point->Some_0,
                BlockView { inst_count: block.inst_count + 1, ..block },
            ),
            ..self
        }
    }

    /// The context after `inst` has been appended to the block at the
    /// insertion point.
    pub open spec fn after_insert(self, inst: InstructionView) -> ContextView {
        let block = self.current_block();
        ContextView {
            module: self.module.with_block(
                self.insertion_point->Some_0,
                BlockView {
                    instructions: block.instructions.push(EntityView::Instruction(inst)),
                    ..block
                },
            ),
            ..self
        }
    }

    /// The name of a new instruction: the sigil `%` before the name that the
    /// caller gave or, without one, before the next name of the block at the
    /// insertion point.
    pub open spec fn instruction_name(self, name: Option<Seq<char>>) -> Seq<char> {
        "%"@ + match name {
            Some(n) => n,
            None => decimal(self.current_block().inst_count),
        }
    }

    /// A new instruction that yields a value under a name.
    pub open spec fn named_instruction(
        self,
        ty: TypeView,
        kind: InstructionTypeView,
        name: Option<Seq<char>>,
    ) -> InstructionView {
        InstructionView {
            value: ValueView { ty, name: self.instruction_name(name), use_list: Seq::empty() },
            kind,
        }
    }

    /// The context after a new instruction has taken its name and its place.
    pub open spec fn after_build(
        self,
        inst: InstructionView,
        name: Option<Seq<char>>,
    ) -> ContextView {
        if name is None {
            self.after_naming().after_insert(inst)
        } else {
            self.after_insert(inst)
        }
    }
}

/// The name that a caller gave, as text.
pub open spec fn name_view(name: Option<&str>) -> Option<Seq<char>> {
    match name {
        Some(n) => Some(n@),
        None => None,
    }
}

/// A new instruction without a name.
pub open spec fn unnamed_instruction(ty: TypeView, kind: InstructionTypeView) -> InstructionView {
    InstructionView {
        value: ValueView { ty, name: Seq::empty(), use_list: Seq::empty() },
        kind,
    }
}

/// The names that a block hands out to unnamed instructions never repeat: a
/// name handed out after more names is another name.
pub proof fn lemma_auto_names_distinct(earlier: ContextView, later: ContextView)
    requires
        earlier.current_block().inst_count != later.current_block().inst_count,
    ensures
        earlier.instruction_name(None) != later.instruction_name(None),
{
    let a = earlier.current_block().inst_count;
    let b = later.current_block().inst_count;
    if earlier.instruction_name(None) == later.instruction_name(None) {
        let x = earlier.instruction_name(None);
        let y = later.instruction_name(None);
        assert(x.subrange("%"@.len() as int, x.len() as int) =~= decimal(a));
        assert(y.subrange("%"@.len() as int, y.len() as int) =~= decimal(b));
        lemma_decimal_injective(a, b);
    }
}

impl Clone for IRContext {
    fn clone(&self) -> (r: Self)
        ensures
            r@ == self@,
    {
        IRContext { insertion_point: self.insertion_point, module: self.module.clone() }
    }
}

impl IRContext {
    /// Creates a context for `module` without an insertion point.
    pub fn new(module: Module) -> (r: Self)
        ensures
            r@ == (ContextView { insertion_point: None, module: module@ }),
    {
        Self { insertion_point: None, module }
    }

    /// The block, if any, that new instructions go to.
    pub fn get_insertion_point(&self) -> (r: Option<BlockRef>)
        ensures
            r == self@.insertion_point,
    {
        self.insertion_point
    }

    /// Makes `bb`, a block of the module, the block that new instructions go to.
    pub fn set_insertion_point(&mut self, bb: BlockRef)
        requires
            old(self)@.module.has_block(bb),
        ensures
            final(self)@ == (ContextView { insertion_point: Some(bb), ..old(self)@ }),
    {
        self.insertion_point = Some(bb);
    }

    /// Leaves the context without an insertion point.
    pub fn clear_insertion_point(&mut self)
        ensures
            final(self)@ == (ContextView { insertion_point: None, ..old(self)@ }),
    {
        self.insertion_point = None;
    }

    /// The module under construction.
    pub fn get_module(&self) -> (r: &Module)
        ensures
            r@ == self@.module,
    {
        &self.module
    }

    /// The module under construction, for the caller to change.
    pub fn get_module_mut(&mut self) -> (r: &mut Module)
        ensures
            r@ == old(self)@.module,
            final(self)@ == (ContextView { module: final(r)@, ..old(self)@ }),
    {
        &mut self.module
    }
}

} // verus!
