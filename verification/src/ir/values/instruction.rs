//! Instructions: the operations of the representation, each with the operands
//! that it owns.

use vstd::prelude::*;
use vstd::string::StringExecFns;

use crate::ir::values::value::clone_entity;
use crate::ir::values::value::clone_value;
use crate::ir::values::value::entity_is_printable;
use crate::ir::values::value::entity_printable;
use crate::ir::values::value::entity_text;
use crate::ir::values::value::entity_view;
use crate::ir::values::value::EntityView;
use crate::ir::values::value::push_entity;
use crate::ir::values::value::push_type;
use crate::ir::values::value::Type;
use crate::ir::values::value::type_text;
use crate::ir::values::value::Value;
use crate::ir::values::value::ValueEntity;
use crate::ir::values::value::ValueView;
use crate::text::bool_str;
use crate::text::bool_text;
use crate::text::concat;
use crate::text::lemma_concat_step;
use crate::text::push_signed_decimal;
use crate::text::signed_decimal;

verus! {

/// The operation of an instruction together with its operands. An instruction
/// owns its operands: no operand is shared between two instructions.
#[derive(Debug)]
pub enum InstructionType {
    /// The sum of two operands.
    Add(Box<ValueEntity>, Box<ValueEntity>),
    /// The difference of two operands.
    Sub(Box<ValueEntity>, Box<ValueEntity>),
    /// The product of two operands.
    Mul(Box<ValueEntity>, Box<ValueEntity>),
    /// The quotient of two operands.
    Div(Box<ValueEntity>, Box<ValueEntity>),
    /// The remainder of a division.
    Rem(Box<ValueEntity>, Box<ValueEntity>),
    /// The first operand shifted left by the second.
    Shl(Box<ValueEntity>, Box<ValueEntity>),
    /// The first operand shifted right by the second.
    Shr(Box<ValueEntity>, Box<ValueEntity>),
    /// The conjunction of two operands.
    And(Box<ValueEntity>, Box<ValueEntity>),
    /// The disjunction of two operands.
    Or(Box<ValueEntity>, Box<ValueEntity>),
    /// The exclusive disjunction of two operands.
    Xor(Box<ValueEntity>, Box<ValueEntity>),
    /// Whether two operands are equal.
    Eq(Box<ValueEntity>, Box<ValueEntity>),
    /// Whether two operands differ.
    Ne(Box<ValueEntity>, Box<ValueEntity>),
    /// Whether the first operand is less than the second.
    Lt(Box<ValueEntity>, Box<ValueEntity>),
    /// Whether the first operand is at most the second.
    Le(Box<ValueEntity>, Box<ValueEntity>),
    /// Whether the first operand is greater than the second.
    Gt(Box<ValueEntity>, Box<ValueEntity>),
    /// Whether the first operand is at least the second.
    Ge(Box<ValueEntity>, Box<ValueEntity>),
    /// The negation of a number.
    Neg(Box<ValueEntity>),
    /// The complement of an integer.
    Not(Box<ValueEntity>),
    /// The value read through a pointer.
    Load(Box<ValueEntity>),
    /// Writes the second operand through the pointer that is the first.
    Store(Box<ValueEntity>, Box<ValueEntity>),
    /// Calls the first operand with the arguments that follow.
    Call(Box<ValueEntity>, Vec<Box<ValueEntity>>),
    /// Returns a value from the enclosing function.
    Return(Box<ValueEntity>),
    /// Jumps to a block.
    Branch(Box<ValueEntity>),
    /// Jumps to a block, depending on a condition.
    BranchIf(Box<ValueEntity>, Box<ValueEntity>),
    /// Selects a value by the block that control came from: pairs of an
    /// incoming value and its predecessor block.
    Phi(Vec<(Box<ValueEntity>, Box<ValueEntity>)>),
    /// Returns from a function that yields nothing.
    VoidReturn,
    /// Marks a point that control never reaches.
    Unreachable,
    /// A 32-bit integer constant.
    ConstantInt32(i32),
    /// A 64-bit integer constant.
    ConstantInt64(i64),
    /// A truth value.
    ConstantBool(bool),
}

/// The mathematical value of an [`InstructionType`].
pub enum InstructionTypeView {
    Add(Box<EntityView>, Box<EntityView>),
    Sub(Box<EntityView>, Box<EntityView>),
    Mul(Box<EntityView>, Box<EntityView>),
    Div(Box<EntityView>, Box<EntityView>),
    Rem(Box<EntityView>, Box<EntityView>),
    Shl(Box<EntityView>, Box<EntityView>),
    Shr(Box<EntityView>, Box<EntityView>),
    And(Box<EntityView>, Box<EntityView>),
    Or(Box<EntityView>, Box<EntityView>),
    Xor(Box<EntityView>, Box<EntityView>),
    Eq(Box<EntityView>, Box<EntityView>),
    Ne(Box<EntityView>, Box<EntityView>),
    Lt(Box<EntityView>, Box<EntityView>),
    Le(Box<EntityView>, Box<EntityView>),
    Gt(Box<EntityView>, Box<EntityView>),
    Ge(Box<EntityView>, Box<EntityView>),
    Neg(Box<EntityView>),
    Not(Box<EntityView>),
    Load(Box<EntityView>),
    Store(Box<EntityView>, Box<EntityView>),
    Call(Box<EntityView>, Seq<EntityView>),
    Return(Box<EntityView>),
    Branch(Box<EntityView>),
    BranchIf(Box<EntityView>, Box<EntityView>),
    Phi(Seq<(EntityView, EntityView)>),
    VoidReturn,
    Unreachable,
    ConstantInt32(int),
    ConstantInt64(int),
    ConstantBool(bool),
}

/// The values of the arguments of a call, one by one.
pub open spec fn arguments_view(args: Seq<Box<ValueEntity>>) -> Seq<EntityView>
    decreases args,
{
    Seq::new(
        args.len(),
        |i: int|
            if 0 <= i < args.len() {
                entity_view(*args[i])
            } else {
                arbitrary()
            },
    )
}

/// The values of the incoming pairs of a phi, one by one.
pub open spec fn incoming_view(incoming: Seq<(Box<ValueEntity>, Box<ValueEntity>)>) -> Seq<
    (EntityView, EntityView),
>
    decreases incoming,
{
    Seq::new(
        incoming.len(),
        |i: int|
            if 0 <= i < incoming.len() {
                (entity_view(*incoming[i].0), entity_view(*incoming[i].1))
            } else {
                arbitrary()
            },
    )
}

/// The value of an [`InstructionType`].
pub open spec fn instruction_type_view(kind: InstructionType) -> InstructionTypeView
    decreases kind,
{
    match kind {
        InstructionType::Add(a, b) => InstructionTypeView::Add(
            Box::new(entity_view(*a)),
            Box::new(entity_view(*b)),
        ),
        InstructionType::Sub(a, b) => InstructionTypeView::Sub(
            Box::new(entity_view(*a)),
            Box::new(entity_view(*b)),
        ),
        InstructionType::Mul(a, b) => InstructionTypeView::Mul(
            Box::new(entity_view(*a)),
            Box::new(entity_view(*b)),
        ),
        InstructionType::Div(a, b) => InstructionTypeView::Div(
            Box::new(entity_view(*a)),
            Box::new(entity_view(*b)),
        ),
        InstructionType::Rem(a, b) => InstructionTypeView::Rem(
            Box::new(entity_view(*a)),
            Box::new(entity_view(*b)),
        ),
        InstructionType::Shl(a, b) => InstructionTypeView::Shl(
            Box::new(entity_view(*a)),
            Box::new(entity_view(*b)),
        ),
        InstructionType::Shr(a, b) => InstructionTypeView::Shr(
            Box::new(entity_view(*a)),
            Box::new(entity_view(*b)),
        ),
        InstructionType::And(a, b) => InstructionTypeView::And(
            Box::new(entity_view(*a)),
            Box::new(entity_view(*b)),
        ),
        InstructionType::Or(a, b) => InstructionTypeView::Or(
            Box::new(entity_view(*a)),
            Box::new(entity_view(*b)),
        ),
        InstructionType::Xor(a, b) => InstructionTypeView::Xor(
            Box::new(entity_view(*a)),
            Box::new(entity_view(*b)),
        ),
        InstructionType::Eq(a, b) => InstructionTypeView::Eq(
            Box::new(entity_view(*a)),
            Box::new(entity_view(*b)),
        ),
        InstructionType::Ne(a, b) => InstructionTypeView::Ne(
            Box::new(entity_view(*a)),
            Box::new(entity_view(*b)),
        ),
        InstructionType::Lt(a, b) => InstructionTypeView::Lt(
            Box::new(entity_view(*a)),
            Box::new(entity_view(*b)),
        ),
        InstructionType::Le(a, b) => InstructionTypeView::Le(
            Box::new(entity_view(*a)),
            Box::new(entity_view(*b)),
        ),
        InstructionType::Gt(a, b) => InstructionTypeView::Gt(
            Box::new(entity_view(*a)),
            Box::new(entity_view(*b)),
        ),
        InstructionType::Ge(a, b) => InstructionTypeView::Ge(
            Box::new(entity_view(*a)),
            Box::new(entity_view(*b)),
        ),
        InstructionType::Store(a, b) => InstructionTypeView::Store(
            Box::new(entity_view(*a)),
            Box::new(entity_view(*b)),
        ),
        InstructionType::BranchIf(a, b) => InstructionTypeView::BranchIf(
            Box::new(entity_view(*a)),
            Box::new(entity_view(*b)),
        ),
        InstructionType::Neg(a) => InstructionTypeView::Neg(Box::new(entity_view(*a))),
        InstructionType::Not(a) => InstructionTypeView::Not(Box::new(entity_view(*a))),
        InstructionType::Load(a) => InstructionTypeView::Load(Box::new(entity_view(*a))),
        InstructionType::Return(a) => InstructionTypeView::Return(Box::new(entity_view(*a))),
        InstructionType::Branch(a) => InstructionTypeView::Branch(Box::new(entity_view(*a))),
        InstructionType::Call(callee, args) => InstructionTypeView::Call(
            Box::new(entity_view(*callee)),
            arguments_view(args@),
        ),
        InstructionType::Phi(incoming) => InstructionTypeView::Phi(incoming_view(incoming@)),
        InstructionType::VoidReturn => InstructionTypeView::VoidReturn,
        InstructionType::Unreachable => InstructionTypeView::Unreachable,
        InstructionType::ConstantInt32(v) => InstructionTypeView::ConstantInt32(v as int),
        InstructionType::ConstantInt64(v) => InstructionTypeView::ConstantInt64(v as int),
        InstructionType::ConstantBool(v) => InstructionTypeView::ConstantBool(v),
    }
}

impl View for InstructionType {
    type V = InstructionTypeView;

    open spec fn view(&self) -> InstructionTypeView {
        instruction_type_view(*self)
    }
}

/// An operation with the value that it yields.
#[derive(Debug)]
pub struct Instruction {
    value: Value,
    instruction_type: InstructionType,
}

/// The mathematical value of an [`Instruction`].
pub struct InstructionView {
    pub value: ValueView,
    pub kind: InstructionTypeView,
}

/// The value of an [`Instruction`].
pub closed spec fn instruction_view(inst: Instruction) -> InstructionView
    decreases inst,
{
    InstructionView { value: inst.value@, kind: instruction_type_view(inst.instruction_type) }
}

impl View for Instruction {
    type V = InstructionView;

    open spec fn view(&self) -> InstructionView {
        instruction_view(*self)
    }
}

/// Copies the arguments of a call.
fn clone_arguments(args: &Vec<Box<ValueEntity>>) -> (r: Vec<Box<ValueEntity>>)
    ensures
        arguments_view(r@) == arguments_view(args@),
    decreases args, 0nat,
{
    let mut out: Vec<Box<ValueEntity>> = Vec::new();
    let mut i: usize = 0;
    while i < args.len()
        invariant
            0 <= i <= args.len(),
            out.len() == i,
            forall|j: int| 0 <= j < i ==> entity_view(*out@[j]) == entity_view(*args@[j]),
        decreases args.len() - i,
    {
        out.push(Box::new(clone_entity(&args[i])));
        i += 1;
    }
    assert(arguments_view(out@) =~= arguments_view(args@));
    out
}

/// Copies the incoming pairs of a phi.
fn clone_incoming(incoming: &Vec<(Box<ValueEntity>, Box<ValueEntity>)>) -> (r: Vec<
    (Box<ValueEntity>, Box<ValueEntity>),
>)
    ensures
        incoming_view(r@) == incoming_view(incoming@),
    decreases incoming, 0nat,
{
    let mut out: Vec<(Box<ValueEntity>, Box<ValueEntity>)> = Vec::new();
    let mut i: usize = 0;
    while i < incoming.len()
        invariant
            0 <= i <= incoming.len(),
            out.len() == i,
            forall|j: int|
                0 <= j < i ==> entity_view(*out@[j].0) == entity_view(*incoming@[j].0)
                    && entity_view(*out@[j].1) == entity_view(*incoming@[j].1),
        decreases incoming.len() - i,
    {
        let value = clone_entity(&incoming[i].0);
        let block = clone_entity(&incoming[i].1);
        out.push((Box::new(value), Box::new(block)));
        i += 1;
    }
    assert(incoming_view(out@) =~= incoming_view(incoming@));
    out
}

/// Copies an operation with its operands.
pub(crate) fn clone_instruction_type(kind: &InstructionType) -> (r: InstructionType)
    ensures
        r@ == kind@,
    decreases kind, 1nat,
{
    match kind {
        InstructionType::Add(a, b) => InstructionType::Add(
            Box::new(clone_entity(a)),
            Box::new(clone_entity(b)),
        ),
        InstructionType::Sub(a, b) => InstructionType::Sub(
            Box::new(clone_entity(a)),
            Box::new(clone_entity(b)),
        ),
        InstructionType::Mul(a, b) => InstructionType::Mul(
            Box::new(clone_entity(a)),
            Box::new(clone_entity(b)),
        ),
        InstructionType::Div(a, b) => InstructionType::Div(
            Box::new(clone_entity(a)),
            Box::new(clone_entity(b)),
        ),
        InstructionType::Rem(a, b) => InstructionType::Rem(
            Box::new(clone_entity(a)),
            Box::new(clone_entity(b)),
        ),
        InstructionType::Shl(a, b) => InstructionType::Shl(
            Box::new(clone_entity(a)),
            Box::new(clone_entity(b)),
        ),
        InstructionType::Shr(a, b) => InstructionType::Shr(
            Box::new(clone_entity(a)),
            Box::new(clone_entity(b)),
        ),
        InstructionType::And(a, b) => InstructionType::And(
            Box::new(clone_entity(a)),
            Box::new(clone_entity(b)),
        ),
        InstructionType::Or(a, b) => InstructionType::Or(
            Box::new(clone_entity(a)),
            Box::new(clone_entity(b)),
        ),
        InstructionType::Xor(a, b) => InstructionType::Xor(
            Box::new(clone_entity(a)),
            Box::new(clone_entity(b)),
        ),
        InstructionType::Eq(a, b) => InstructionType::Eq(
            Box::new(clone_entity(a)),
            Box::new(clone_entity(b)),
        ),
        InstructionType::Ne(a, b) => InstructionType::Ne(
            Box::new(clone_entity(a)),
            Box::new(clone_entity(b)),
        ),
        InstructionType::Lt(a, b) => InstructionType::Lt(
            Box::new(clone_entity(a)),
            Box::new(clone_entity(b)),
        ),
        InstructionType::Le(a, b) => InstructionType::Le(
            Box::new(clone_entity(a)),
            Box::new(clone_entity(b)),
        ),
        InstructionType::Gt(a, b) => InstructionType::Gt(
            Box::new(clone_entity(a)),
            Box::new(clone_entity(b)),
        ),
        InstructionType::Ge(a, b) => InstructionType::Ge(
            Box::new(clone_entity(a)),
            Box::new(clone_entity(b)),
        ),
        InstructionType::Store(a, b) => InstructionType::Store(
            Box::new(clone_entity(a)),
            Box::new(clone_entity(b)),
        ),
        InstructionType::BranchIf(a, b) => InstructionType::BranchIf(
            Box::new(clone_entity(a)),
            Box::new(clone_entity(b)),
        ),
        InstructionType::Neg(a) => InstructionType::Neg(Box::new(clone_entity(a))),
        InstructionType::Not(a) => InstructionType::Not(Box::new(clone_entity(a))),
        InstructionType::Load(a) => InstructionType::Load(Box::new(clone_entity(a))),
        InstructionType::Return(a) => InstructionType::Return(Box::new(clone_entity(a))),
        InstructionType::Branch(a) => InstructionType::Branch(Box::new(clone_entity(a))),
        InstructionType::Call(callee, args) => InstructionType::Call(
            Box::new(clone_entity(callee)),
            clone_arguments(args),
        ),
        InstructionType::Phi(incoming) => InstructionType::Phi(clone_incoming(incoming)),
        InstructionType::VoidReturn => InstructionType::VoidReturn,
        InstructionType::Unreachable => InstructionType::Unreachable,
        InstructionType::ConstantInt32(v) => InstructionType::ConstantInt32(*v),
        InstructionType::ConstantInt64(v) => InstructionType::ConstantInt64(*v),
        InstructionType::ConstantBool(v) => InstructionType::ConstantBool(*v),
    }
}

/// Copies an instruction.
pub(crate) fn clone_instruction(inst: &Instruction) -> (r: Instruction)
    ensures
        r@ == inst@,
    decreases inst,
{
    Instruction {
        value: clone_value(&inst.value),
        instruction_type: clone_instruction_type(&inst.instruction_type),
    }
}

impl Clone for InstructionType {
    fn clone(&self) -> (r: Self)
        ensures
            r@ == self@,
    {
        clone_instruction_type(self)
    }
}

impl Clone for Instruction {
    fn clone(&self) -> (r: Self)
        ensures
            r@ == self@,
    {
        clone_instruction(self)
    }
}

impl InstructionView {
    /// The name under which the instruction stands as an operand: a constant
    /// has no name of its own and stands as its literal.
    pub open spec fn name(self) -> Seq<char> {
        match self.kind {
            InstructionTypeView::ConstantInt32(v) => signed_decimal(v),
            InstructionTypeView::ConstantInt64(v) => signed_decimal(v),
            InstructionTypeView::ConstantBool(v) => bool_text(v),
            _ => self.value.name,
        }
    }
}

impl Instruction {
    /// Creates an instruction of the given result type and operation. Without
    /// a name its name is empty.
    pub fn new(ty: Type, instruction_type: InstructionType, name: Option<String>) -> (r: Self)
        ensures
            r@ == (InstructionView {
                value: ValueView {
                    ty: ty@,
                    name: match name {
                        Some(n) => n@,
                        None => Seq::empty(),
                    },
                    use_list: Seq::empty(),
                },
                kind: instruction_type@,
            }),
    {
        let name = match name {
            Some(n) => n,
            None => String::new(),
        };
        let val = Value::new(ty, name);
        Self { instruction_type, value: val }
    }

    /// The type of the instruction's result.
    pub fn get_type(&self) -> (r: Type)
        ensures
            r@ == self@.value.ty,
    {
        self.value.get_type()
    }

    /// The name under which the instruction stands as an operand.
    pub fn get_name(&self) -> (r: String)
        ensures
            r@ == self@.name(),
    {
        match &self.instruction_type {
            InstructionType::ConstantInt32(a) => {
                let mut out = String::new();
                push_signed_decimal(&mut out, *a as i64);
                assert(out@ =~= signed_decimal(*a as int));
                out
            },
            InstructionType::ConstantInt64(a) => {
                let mut out = String::new();
                push_signed_decimal(&mut out, *a);
                assert(out@ =~= signed_decimal(*a as int));
                out
            },
            InstructionType::ConstantBool(a) => bool_str(*a).to_owned(),
            _ => self.value.get_name(),
        }
    }

    /// The operation of the instruction with its operands.
    pub fn instruction_type(&self) -> (r: &InstructionType)
        ensures
            r@ == self@.kind,
    {
        &self.instruction_type
    }
}

/// The text of an instruction with two operands: the name of the result,
/// `=`, the operation, the type of the first operand, and the names of both.
pub open spec fn binary_text(name: Seq<char>, op: Seq<char>, a: EntityView, b: EntityView) -> Seq<
    char,
> {
    name + " = "@ + op + " "@ + type_text(a.ty()) + " "@ + a.name() + ", "@ + b.name()
}

/// The text of an instruction with one operand: the name of the result, `=`,
/// the operation, the type of the operand and its name.
pub open spec fn unary_text(name: Seq<char>, op: Seq<char>, a: EntityView) -> Seq<char> {
    name + " = "@ + op + " "@ + type_text(a.ty()) + " "@ + a.name()
}

/// The arguments of a call as they are printed: each name followed by `, `.
pub open spec fn argument_pieces(args: Seq<EntityView>) -> Seq<Seq<char>> {
    Seq::new(args.len(), |i: int| args[i].name() + ", "@)
}

/// The incoming pairs of a phi as they are printed: the full text of each
/// value and the name of its block, each followed by `, `.
pub open spec fn incoming_pieces(incoming: Seq<(EntityView, EntityView)>) -> Seq<Seq<char>>
    decreases incoming,
{
    Seq::new(
        incoming.len(),
        |i: int|
            if 0 <= i < incoming.len() {
                entity_text(incoming[i].0) + ", "@ + incoming[i].1.name() + ", "@
            } else {
                Seq::empty()
            },
    )
}

/// The text of an instruction.
pub open spec fn instruction_text(inst: InstructionView) -> Seq<char>
    decreases inst,
{
    let name = inst.value.name;
    match inst.kind {
        InstructionTypeView::Add(a, b) => binary_text(name, "add"@, *a, *b),
        InstructionTypeView::Sub(a, b) => binary_text(name, "sub"@, *a, *b),
        InstructionTypeView::Mul(a, b) => binary_text(name, "mul"@, *a, *b),
        InstructionTypeView::Div(a, b) => binary_text(name, "div"@, *a, *b),
        InstructionTypeView::Rem(a, b) => binary_text(name, "rem"@, *a, *b),
        InstructionTypeView::Shl(a, b) => binary_text(name, "shl"@, *a, *b),
        InstructionTypeView::Shr(a, b) => binary_text(name, "shr"@, *a, *b),
        InstructionTypeView::And(a, b) => binary_text(name, "and"@, *a, *b),
        InstructionTypeView::Or(a, b) => binary_text(name, "or"@, *a, *b),
        InstructionTypeView::Xor(a, b) => binary_text(name, "xor"@, *a, *b),
        InstructionTypeView::Eq(a, b) => binary_text(name, "eq"@, *a, *b),
        InstructionTypeView::Ne(a, b) => binary_text(name, "ne"@, *a, *b),
        InstructionTypeView::Lt(a, b) => binary_text(name, "lt"@, *a, *b),
        InstructionTypeView::Le(a, b) => binary_text(name, "le"@, *a, *b),
        InstructionTypeView::Gt(a, b) => binary_text(name, "gt"@, *a, *b),
        InstructionTypeView::Ge(a, b) => binary_text(name, "ge"@, *a, *b),
        InstructionTypeView::Neg(a) => unary_text(name, "neg"@, *a),
        InstructionTypeView::Not(a) => unary_text(name, "not"@, *a),
        InstructionTypeView::Load(a) => unary_text(name, "load"@, *a),
        InstructionTypeView::Store(a, b) => "store "@ + type_text(a.ty()) + " "@ + a.name() + ", "@
            + b.name(),
        InstructionTypeView::Call(callee, args) => name + " = call "@ + type_text(callee.ty())
            + " "@ + callee.name() + "("@ + concat(argument_pieces(args)) + ")"@,
        InstructionTypeView::Return(a) => "return "@ + type_text(a.ty()) + " "@ + a.name(),
        InstructionTypeView::Branch(a) => "branch "@ + a.name(),
        InstructionTypeView::BranchIf(a, b) => "branch "@ + a.name() + " "@ + b.name(),
        InstructionTypeView::Phi(incoming) => name + " = phi "@ + type_text(incoming[0].0.ty())
            + " "@ + concat(incoming_pieces(incoming)),
        InstructionTypeView::Unreachable => "unreachable"@,
        InstructionTypeView::VoidReturn => "return void"@,
        InstructionTypeView::ConstantInt32(v) => signed_decimal(v),
        InstructionTypeView::ConstantInt64(v) => signed_decimal(v),
        InstructionTypeView::ConstantBool(v) => bool_text(v),
    }
}

/// Whether an instruction can be rendered: a phi that is rendered, here or
/// among the incoming values of another, has at least one incoming pair.
pub open spec fn instruction_printable(inst: InstructionView) -> bool
    decreases inst,
{
    match inst.kind {
        InstructionTypeView::Phi(incoming) => incoming.len() > 0 && forall|i: int|
            0 <= i < incoming.len() ==> entity_printable(#[trigger] incoming[i].0),
        _ => true,
    }
}

/// Decides whether each incoming value of a phi can be rendered.
fn incoming_are_printable(incoming: &Vec<(Box<ValueEntity>, Box<ValueEntity>)>) -> (r: bool)
    ensures
        r == forall|i: int|
            0 <= i < incoming.len() ==> entity_printable(
                #[trigger] incoming_view(incoming@)[i].0,
            ),
    decreases incoming, 0nat,
{
    let mut i: usize = 0;
    while i < incoming.len()
        invariant
            0 <= i <= incoming.len(),
            forall|j: int|
                0 <= j < i ==> entity_printable(#[trigger] incoming_view(incoming@)[j].0),
        decreases incoming.len() - i,
    {
        assert(incoming_view(incoming@)[i as int].0 == entity_view(*incoming@[i as int].0));
        if !entity_is_printable(&incoming[i].0) {
            return false;
        }
        i += 1;
    }
    true
}

/// Decides whether an instruction can be rendered.
pub(crate) fn instruction_is_printable(inst: &Instruction) -> (r: bool)
    ensures
        r == instruction_printable(inst@),
    decreases inst, 1nat,
{
    match &inst.instruction_type {
        InstructionType::Phi(incoming) => {
            assert(incoming_view(incoming@).len() == incoming.len());
            incoming.len() > 0 && incoming_are_printable(incoming)
        },
        _ => true,
    }
}

/// Appends the text of an instruction with two operands to `out`.
fn push_binary(out: &mut String, value: &Value, op: &str, a: &ValueEntity, b: &ValueEntity)
    ensures
        final(out)@ == old(out)@ + binary_text(value@.name, op@, a@, b@),
{
    out.append(value.get_name().as_str());
    out.append(" = ");
    out.append(op);
    out.append(" ");
    push_type(out, &a.get_type());
    out.append(" ");
    out.append(a.get_name().as_str());
    out.append(", ");
    out.append(b.get_name().as_str());
    assert(out@ =~= old(out)@ + binary_text(value@.name, op@, a@, b@));
}

/// Appends the text of an instruction with one operand to `out`.
fn push_unary(out: &mut String, value: &Value, op: &str, a: &ValueEntity)
    ensures
        final(out)@ == old(out)@ + unary_text(value@.name, op@, a@),
{
    out.append(value.get_name().as_str());
    out.append(" = ");
    out.append(op);
    out.append(" ");
    push_type(out, &a.get_type());
    out.append(" ");
    out.append(a.get_name().as_str());
    assert(out@ =~= old(out)@ + unary_text(value@.name, op@, a@));
}

/// Appends the arguments of a call, as they are printed, to `out`.
fn push_arguments(out: &mut String, args: &Vec<Box<ValueEntity>>)
    ensures
        final(out)@ == old(out)@ + concat(argument_pieces(arguments_view(args@))),
{
    let ghost pieces = argument_pieces(arguments_view(args@));
    let mut i: usize = 0;
    assert(pieces.subrange(0, 0) =~= Seq::<Seq<char>>::empty());
    while i < args.len()
        invariant
            0 <= i <= args.len(),
            pieces == argument_pieces(arguments_view(args@)),
            pieces.len() == args.len(),
            out@ == old(out)@ + concat(pieces.subrange(0, i as int)),
        decreases args.len() - i,
    {
        out.append(args[i].get_as_ref().as_str());
        out.append(", ");
        proof {
            lemma_concat_step(pieces, i as int);
            assert(out@ =~= old(out)@ + concat(pieces.subrange(0, i + 1)));
        }
        i += 1;
    }
    assert(pieces.subrange(0, args.len() as int) =~= pieces);
}

/// Appends the incoming pairs of a phi, as they are printed, to `out`.
fn push_incoming(out: &mut String, incoming: &Vec<(Box<ValueEntity>, Box<ValueEntity>)>)
    requires
        forall|i: int|
            0 <= i < incoming.len() ==> entity_printable(
                #[trigger] incoming_view(incoming@)[i].0,
            ),
    ensures
        final(out)@ == old(out)@ + concat(incoming_pieces(incoming_view(incoming@))),
    decreases incoming, 0nat,
{
    let ghost pieces = incoming_pieces(incoming_view(incoming@));
    let mut i: usize = 0;
    assert(pieces.subrange(0, 0) =~= Seq::<Seq<char>>::empty());
    while i < incoming.len()
        invariant
            0 <= i <= incoming.len(),
            pieces == incoming_pieces(incoming_view(incoming@)),
            pieces.len() == incoming.len(),
            forall|i: int|
                0 <= i < incoming.len() ==> entity_printable(
                    #[trigger] incoming_view(incoming@)[i].0,
                ),
            out@ == old(out)@ + concat(pieces.subrange(0, i as int)),
        decreases incoming.len() - i,
    {
        assert(incoming_view(incoming@)[i as int].0 == entity_view(*incoming@[i as int].0));
        push_entity(out, &incoming[i].0);
        out.append(", ");
        out.append(incoming[i].1.get_as_ref().as_str());
        out.append(", ");
        proof {
            lemma_concat_step(pieces, i as int);
            assert(out@ =~= old(out)@ + concat(pieces.subrange(0, i + 1)));
        }
        i += 1;
    }
    assert(pieces.subrange(0, incoming.len() as int) =~= pieces);
}

/// Appends the text of an instruction to `out`.
pub(crate) fn push_instruction(out: &mut String, inst: &Instruction)
    requires
        instruction_printable(inst@),
    ensures
        final(out)@ == old(out)@ + instruction_text(inst@),
    decreases inst, 1nat,
{
    match &inst.instruction_type {
        InstructionType::Add(a, b) => push_binary(out, &inst.value, "add", a, b),
        InstructionType::Sub(a, b) => push_binary(out, &inst.value, "sub", a, b),
        InstructionType::Mul(a, b) => push_binary(out, &inst.value, "mul", a, b),
        InstructionType::Div(a, b) => push_binary(out, &inst.value, "div", a, b),
        InstructionType::Rem(a, b) => push_binary(out, &inst.value, "rem", a, b),
        InstructionType::Shl(a, b) => push_binary(out, &inst.value, "shl", a, b),
        InstructionType::Shr(a, b) => push_binary(out, &inst.value, "shr", a, b),
        InstructionType::And(a, b) => push_binary(out, &inst.value, "and", a, b),
        InstructionType::Or(a, b) => push_binary(out, &inst.value, "or", a, b),
        InstructionType::Xor(a, b) => push_binary(out, &inst.value, "xor", a, b),
        InstructionType::Eq(a, b) => push_binary(out, &inst.value, "eq", a, b),
        InstructionType::Ne(a, b) => push_binary(out, &inst.value, "ne", a, b),
        InstructionType::Lt(a, b) => push_binary(out, &inst.value, "lt", a, b),
        InstructionType::Le(a, b) => push_binary(out, &inst.value, "le", a, b),
        InstructionType::Gt(a, b) => push_binary(out, &inst.value, "gt", a, b),
        InstructionType::Ge(a, b) => push_binary(out, &inst.value, "ge", a, b),
        InstructionType::Neg(a) => push_unary(out, &inst.value, "neg", a),
        InstructionType::Not(a) => push_unary(out, &inst.value, "not", a),
        InstructionType::Load(a) => push_unary(out, &inst.value, "load", a),
        InstructionType::Store(a, b) => {
            out.append("store ");
            push_type(out, &a.get_type());
            out.append(" ");
            out.append(a.get_as_ref().as_str());
            out.append(", ");
            out.append(b.get_as_ref().as_str());
            assert(out@ =~= old(out)@ + instruction_text(inst@));
        },
        InstructionType::Call(callee, args) => {
            out.append(inst.value.get_name().as_str());
            out.append(" = call ");
            push_type(out, &callee.get_type());
            out.append(" ");
            out.append(callee.get_as_ref().as_str());
            out.append("(");
            push_arguments(out, args);
            out.append(")");
            assert(out@ =~= old(out)@ + instruction_text(inst@));
        },
        InstructionType::Return(a) => {
            out.append("return ");
            push_type(out, &a.get_type());
            out.append(" ");
            out.append(a.get_as_ref().as_str());
            assert(out@ =~= old(out)@ + instruction_text(inst@));
        },
        InstructionType::Branch(a) => {
            out.append("branch ");
            out.append(a.get_as_ref().as_str());
            assert(out@ =~= old(out)@ + instruction_text(inst@));
        },
        InstructionType::BranchIf(a, b) => {
            out.append("branch ");
            out.append(a.get_as_ref().as_str());
            out.append(" ");
            out.append(b.get_as_ref().as_str());
            assert(out@ =~= old(out)@ + instruction_text(inst@));
        },
        InstructionType::Phi(incoming) => {
            assert(incoming_view(incoming@).len() == incoming.len());
            assert(incoming_view(incoming@)[0].0 == entity_view(*incoming@[0].0));
            out.append(inst.value.get_name().as_str());
            out.append(" = phi ");
            push_type(out, &incoming[0].0.get_type());
            out.append(" ");
            push_incoming(out, incoming);
            assert(out@ =~= old(out)@ + instruction_text(inst@));
        },
        InstructionType::Unreachable => {
            out.append("unreachable");
        },
        InstructionType::VoidReturn => {
            out.append("return void");
        },
        InstructionType::ConstantInt32(v) => {
            push_signed_decimal(out, *v as i64);
        },
        InstructionType::ConstantInt64(v) => {
            push_signed_decimal(out, *v);
        },
        InstructionType::ConstantBool(v) => {
            out.append(bool_str(*v));
        },
    }
}

impl Instruction {
    /// Whether the instruction can be rendered: a phi that is rendered, here
    /// or among the incoming values of another, has at least one incoming pair.
    pub fn is_printable(&self) -> (r: bool)
        ensures
            r == instruction_printable(self@),
    {
        instruction_is_printable(self)
    }

    /// Renders the instruction.
    pub fn to_string(&self) -> (r: String)
        requires
            instruction_printable(self@),
        ensures
            r@ == instruction_text(self@),
    {
        let mut out = String::new();
        push_instruction(&mut out, self);
        assert(out@ =~= instruction_text(self@));
        out
    }
}

} // verus!
