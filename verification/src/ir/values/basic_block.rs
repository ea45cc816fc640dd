//! Basic blocks: straight-line sequences of instructions.

use vstd::prelude::*;
use vstd::string::StringExecFns;

use crate::ir::values::function::FunctionRef;
use crate::ir::values::value::clone_entity;
use crate::ir::values::value::clone_value;
use crate::ir::values::value::entity_is_printable;
use crate::ir::values::value::entity_printable;
use crate::ir::values::value::entity_text;
use crate::ir::values::value::entity_view;
use crate::ir::values::value::EntityView;
use crate::ir::values::value::push_entity;
use crate::ir::values::value::Type;
use crate::ir::values::value::TypeView;
use crate::ir::values::value::Value;
use crate::ir::values::value::ValueEntity;
use crate::ir::values::value::ValueView;
use crate::text::concat;
use crate::text::decimal;
use crate::text::decimal_string;
use crate::text::lemma_concat_step;

verus! {

/// The place of a block in its module: the function that owns it and the
/// block's index among that function's blocks.
#[derive(Debug, Clone, Copy, PartialEq, Eq, Structural)]
pub struct BlockRef {
    pub function: FunctionRef,
    pub index: usize,
}

/// An ordered sequence of instructions, in program order. A block has the
/// branch type, so that it can stand as the target of a branch, and counts the
/// names that it has handed out to unnamed instructions.
#[derive(Debug)]
pub struct BasicBlock {
    value: Value,
    instructions: Vec<ValueEntity>,
    parent: FunctionRef,
    inst_count: usize,
}

/// The mathematical value of a [`BasicBlock`].
pub struct BlockView {
    pub value: ValueView,
    pub instructions: Seq<EntityView>,
    pub parent: FunctionRef,
    pub inst_count: nat,
}

/// The value of a [`BasicBlock`].
pub closed spec fn block_view(b: BasicBlock) -> BlockView
    decreases b,
{
    BlockView {
        value: b.value@,
        instructions: Seq::new(
            b.instructions@.len(),
            |i: int|
                if 0 <= i < b.instructions@.len() {
                    entity_view(b.instructions@[i])
                } else {
                    arbitrary()
                },
        ),
        parent: b.parent,
        inst_count: b.inst_count as nat,
    }
}

/// The values of a sequence of entities, one by one.
pub open spec fn entities_view(v: Seq<ValueEntity>) -> Seq<EntityView> {
    Seq::new(v.len(), |i: int| entity_view(v[i]))
}

/// The values of a sequence of blocks, one by one.
pub open spec fn blocks_view(v: Seq<BasicBlock>) -> Seq<BlockView> {
    Seq::new(v.len(), |i: int| block_view(v[i]))
}

impl BlockView {
    /// The empty block named `name` of the function `parent`: it has the
    /// branch type, no instruction, and has handed out no name.
    pub open spec fn empty(name: Seq<char>, parent: FunctionRef) -> BlockView {
        BlockView {
            value: ValueView { ty: TypeView::Branch, name, use_list: Seq::empty() },
            instructions: Seq::empty(),
            parent,
            inst_count: 0,
        }
    }
}

impl View for BasicBlock {
    type V = BlockView;

    open spec fn view(&self) -> BlockView {
        block_view(*self)
    }
}

/// Copies a vector of entities.
pub(crate) fn clone_entities(v: &Vec<ValueEntity>) -> (r: Vec<ValueEntity>)
    ensures
        entities_view(r@) == entities_view(v@),
    decreases v, 0nat,
{
    let mut out: Vec<ValueEntity> = Vec::new();
    let mut i: usize = 0;
    while i < v.len()
        invariant
            0 <= i <= v.len(),
            out.len() == i,
            forall|j: int| 0 <= j < i ==> entity_view(out@[j]) == entity_view(v@[j]),
        decreases v.len() - i,
    {
        out.push(clone_entity(&v[i]));
        i += 1;
    }
    assert(entities_view(out@) =~= entities_view(v@));
    out
}

/// Copies a block.
pub(crate) fn clone_block(b: &BasicBlock) -> (r: BasicBlock)
    ensures
        r@ == b@,
    decreases b, 1nat,
{
    let instructions = clone_entities(&b.instructions);
    let r = BasicBlock {
        value: clone_value(&b.value),
        instructions,
        parent: b.parent,
        inst_count: b.inst_count,
    };
    assert(block_view(r).instructions =~= entities_view(r.instructions@));
    assert(block_view(*b).instructions =~= entities_view(b.instructions@));
    r
}

impl Clone for BasicBlock {
    fn clone(&self) -> (r: Self)
        ensures
            r@ == self@,
    {
        clone_block(self)
    }
}

impl BasicBlock {
    /// Creates an empty block named `name` that belongs to the function `parent`.
    pub fn new(name: String, parent: FunctionRef) -> (r: Self)
        ensures
            r@ == BlockView::empty(name@, parent),
    {
        let value = Value::new(Type::Branch, name);
        let r = Self { value, instructions: Vec::new(), parent, inst_count: 0 };
        assert(r@.instructions =~= Seq::empty());
        r
    }

    /// Appends `instruction` to the block.
    pub fn insert(&mut self, instruction: ValueEntity)
        ensures
            final(self)@ == (BlockView {
                instructions: old(self)@.instructions.push(instruction@),
                ..old(self)@
            }),
    {
        self.instructions.push(instruction);
        assert(self@.instructions =~= old(self)@.instructions.push(instruction@));
    }

    /// The function that the block belongs to.
    pub fn get_parent(&self) -> (r: FunctionRef)
        ensures
            r == self@.parent,
    {
        self.parent
    }

    /// The type of the block.
    pub fn get_type(&self) -> (r: Type)
        ensures
            r@ == self@.value.ty,
    {
        self.value.get_type()
    }

    /// The name of the block.
    pub fn get_name(&self) -> (r: String)
        ensures
            r@ == self@.value.name,
    {
        self.value.get_name()
    }

    /// The instructions of the block, in program order.
    pub fn get_instructions(&self) -> (r: &Vec<ValueEntity>)
        ensures
            entities_view(r@) == self@.instructions,
    {
        assert(entities_view(self.instructions@) =~= self@.instructions);
        &self.instructions
    }

    /// The instructions of the block, for the caller to change.
    pub fn get_instructions_mut(&mut self) -> (r: &mut Vec<ValueEntity>)
        ensures
            entities_view(r@) == old(self)@.instructions,
            final(self)@ == (BlockView {
                instructions: entities_view(final(r)@),
                ..old(self)@
            }),
    {
        proof {
            assert(entities_view(self.instructions@) =~= self@.instructions);
            assert forall|b: BasicBlock|
                (#[trigger] block_view(b)).instructions == entities_view(b.instructions@) by {
                assert(block_view(b).instructions =~= entities_view(b.instructions@));
            }
        }
        &mut self.instructions
    }

    /// The value that the block is as an operand.
    pub fn get_value(&self) -> (r: &Value)
        ensures
            r@ == self@.value,
    {
        &self.value
    }

    /// The value that the block is as an operand, for the caller to change.
    pub fn get_value_mut(&mut self) -> (r: &mut Value)
        ensures
            r@ == old(self)@.value,
            final(self)@ == (BlockView { value: final(r)@, ..old(self)@ }),
    {
        &mut self.value
    }

    /// The number of names that the block has handed out to unnamed instructions.
    pub fn get_inst_count(&self) -> (r: usize)
        ensures
            r == self@.inst_count,
    {
        self.inst_count
    }

    /// Hands out the next name for an unnamed instruction of this block: the
    /// numeral of the number of names handed out before.
    pub fn get_new_instruction_name(&mut self) -> (r: String)
        requires
            old(self)@.inst_count < usize::MAX,
        ensures
            r@ == decimal(old(self)@.inst_count),
            final(self)@ == (BlockView {
                inst_count: old(self)@.inst_count + 1,
                ..old(self)@
            }),
    {
        let name = decimal_string(self.inst_count as u64);
        self.inst_count += 1;
        name
    }
}

/// The lines of the instructions of a block: each indented by two spaces.
pub open spec fn instruction_lines(instructions: Seq<EntityView>) -> Seq<Seq<char>>
    decreases instructions,
{
    Seq::new(
        instructions.len(),
        |i: int|
            if 0 <= i < instructions.len() {
                "  "@ + entity_text(instructions[i]) + "\n"@
            } else {
                Seq::empty()
            },
    )
}

/// The text of a block: its name and a colon on one line, then one line for
/// each instruction.
pub open spec fn block_text(b: BlockView) -> Seq<char>
    decreases b,
{
    b.value.name + ":\n"@ + concat(instruction_lines(b.instructions))
}

/// Whether a block can be rendered: each of its instructions can.
pub open spec fn block_printable(b: BlockView) -> bool
    decreases b,
{
    forall|i: int| 0 <= i < b.instructions.len() ==> entity_printable(#[trigger] b.instructions[i])
}

/// Decides whether a block can be rendered.
pub(crate) fn block_is_printable(b: &BasicBlock) -> (r: bool)
    ensures
        r == block_printable(b@),
    decreases b,
{
    let mut i: usize = 0;
    while i < b.instructions.len()
        invariant
            0 <= i <= b.instructions.len(),
            b@.instructions.len() == b.instructions.len(),
            forall|j: int| 0 <= j < i ==> entity_printable(#[trigger] b@.instructions[j]),
        decreases b.instructions.len() - i,
    {
        assert(b@.instructions[i as int] == entity_view(b.instructions@[i as int]));
        if !entity_is_printable(&b.instructions[i]) {
            return false;
        }
        i += 1;
    }
    true
}

/// Appends the text of a block to `out`.
pub(crate) fn push_block(out: &mut String, b: &BasicBlock)
    requires
        block_printable(b@),
    ensures
        final(out)@ == old(out)@ + block_text(b@),
    decreases b,
{
    let ghost lines = instruction_lines(b@.instructions);
    out.append(b.value.get_name().as_str());
    out.append(":\n");
    let mut i: usize = 0;
    assert(lines.subrange(0, 0) =~= Seq::<Seq<char>>::empty());
    assert(out@ =~= old(out)@ + b@.value.name + ":\n"@ + concat(lines.subrange(0, 0)));
    while i < b.instructions.len()
        invariant
            0 <= i <= b.instructions.len(),
            block_printable(b@),
            lines == instruction_lines(b@.instructions),
            lines.len() == b.instructions.len(),
            b@.instructions.len() == b.instructions.len(),
            out@ == old(out)@ + b@.value.name + ":\n"@ + concat(lines.subrange(0, i as int)),
        decreases b.instructions.len() - i,
    {
        assert(b@.instructions[i as int] == entity_view(b.instructions@[i as int]));
        out.append("  ");
        push_entity(out, &b.instructions[i]);
        out.append("\n");
        proof {
            lemma_concat_step(lines, i as int);
            assert(out@ =~= old(out)@ + b@.value.name + ":\n"@ + concat(
                lines.subrange(0, i + 1),
            ));
        }
        i += 1;
    }
    assert(lines.subrange(0, b.instructions.len() as int) =~= lines);
}

impl BasicBlock {
    /// Whether the block can be rendered: each of its instructions can.
    pub fn is_printable(&self) -> (r: bool)
        ensures
            r == block_printable(self@),
    {
        block_is_printable(self)
    }

    /// Renders the block.
    pub fn to_string(&self) -> (r: String)
        requires
            block_printable(self@),
        ensures
            r@ == block_text(self@),
    {
        let mut out = String::new();
        push_block(&mut out, self);
        assert(out@ =~= block_text(self@));
        out
    }
}

} // verus!
