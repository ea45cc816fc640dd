//! The builder: type constructors, factories for functions and blocks, and
//! the instruction constructors, each of which checks the types of its
//! operands before it appends to the block at the insertion point.

pub mod ctx;
pub mod fault;

use vstd::prelude::*;
use vstd::string::StringExecFns;

use crate::emit::assembly::AssemblyEmitter;
use crate::emit::assembly::target_assembly;
use crate::error::Error;
use crate::ir::builder::ctx::ContextView;
pub use crate::ir::builder::ctx::IRContext;
use crate::ir::builder::ctx::name_view;
use crate::ir::builder::ctx::unnamed_instruction;
use crate::ir::builder::fault::arithmetic_fault;
use crate::ir::builder::fault::bitwise_fault;
use crate::ir::builder::fault::block_fault;
use crate::ir::builder::fault::branch_if_fault;
use crate::ir::builder::fault::call_fault;
use crate::ir::builder::fault::call_result;
use crate::ir::builder::fault::check_same_type;
use crate::ir::builder::fault::Fault;
use crate::ir::builder::fault::FaultView;
use crate::ir::builder::fault::first_of;
use crate::ir::builder::fault::of_kind;
use crate::ir::builder::fault::phi_fault;
use crate::ir::builder::fault::placement_fault;
use crate::ir::builder::fault::same_type;
use crate::ir::builder::fault::store_fault;
use crate::ir::builder::fault::TypeKind;
use crate::ir::linkage::Linkage;
use crate::ir::module::global_value_name;
use crate::ir::module::lemma_with_block_printable;
use crate::ir::module::lemma_with_function_printable;
use crate::ir::module::lemma_with_function_wf;
use crate::ir::module::lemma_with_new_block_printable;
use crate::ir::module::Module;
use crate::ir::module::ModuleView;
use crate::ir::values::basic_block::BasicBlock;
use crate::ir::values::basic_block::block_printable;
use crate::ir::values::basic_block::BlockRef;
use crate::ir::values::basic_block::BlockView;
use crate::ir::values::basic_block::entities_view;
use crate::ir::values::function::Function;
use crate::ir::values::function::function_printable;
use crate::ir::values::function::FunctionRef;
use crate::ir::values::function::FunctionView;
use crate::ir::values::instruction::Instruction;
use crate::ir::values::instruction::instruction_printable;
use crate::ir::values::instruction::InstructionType;
use crate::ir::values::instruction::InstructionTypeView;
use crate::ir::values::instruction::InstructionView;
use crate::ir::values::value::entity_printable;
use crate::ir::values::value::EntityView;
use crate::ir::values::value::Type;
use crate::ir::values::value::types_view;
use crate::ir::values::value::TypeView;
use crate::ir::values::value::ValueEntity;

verus! {

/// Builds a module instruction by instruction.
pub struct Builder {
    pub ctx: IRContext,
}

impl View for Builder {
    type V = ContextView;

    open spec fn view(&self) -> ContextView {
        self.ctx@
    }
}

/// The types of a sequence of entities, one by one.
pub open spec fn entity_types(entities: Seq<EntityView>) -> Seq<TypeView> {
    Seq::new(entities.len(), |i: int| entities[i].ty())
}

/// The values of the incoming pairs handed to a phi, one by one.
pub open spec fn pairs_view(incoming: Seq<(ValueEntity, ValueEntity)>) -> Seq<
    (EntityView, EntityView),
> {
    Seq::new(incoming.len(), |i: int| (incoming[i].0@, incoming[i].1@))
}

/// The types of the incoming values of a phi, one by one.
pub open spec fn incoming_types(incoming: Seq<(EntityView, EntityView)>) -> Seq<TypeView> {
    Seq::new(incoming.len(), |i: int| incoming[i].0.ty())
}

/// The fault of a return of a value of the type `found`, or of a return
/// without a value where `found` is void: an insertion point must be set and
/// the enclosing function must return that type.
pub open spec fn return_fault(ctx: ContextView, found: TypeView) -> Option<FaultView> {
    first_of(placement_fault(ctx, false), same_type(ctx.enclosing_function().return_type, found))
}

/// A return of a value whose type differs from the return type of the
/// enclosing function is never accepted, and a return without a value is
/// never accepted in a function that returns one.
pub proof fn lemma_wrong_return_rejected(ctx: ContextView, found: TypeView)
    ensures
        found != ctx.enclosing_function().return_type ==> return_fault(ctx, found) is Some,
        !(ctx.enclosing_function().return_type is Void) ==> return_fault(ctx, TypeView::Void)
            is Some,
{
}

/// A module that can be rendered can still be rendered after the block at
/// the insertion point has handed out a name, and after an instruction that
/// can be rendered has been appended to it.
pub proof fn lemma_printable_preserved(ctx: ContextView, inst: InstructionView)
    requires
        ctx.insertion_point is Some,
        ctx.module.has_block(ctx.insertion_point->Some_0),
        ctx.module.printable(),
    ensures
        ctx.after_naming().module.printable(),
        instruction_printable(inst) ==> ctx.after_insert(inst).module.printable(),
        instruction_printable(inst) ==> ctx.after_naming().after_insert(inst).module.printable(),
{
    let at = ctx.insertion_point->Some_0;
    let block = ctx.current_block();
    assert(function_printable(ctx.module.function(at.function)));
    let named = BlockView { inst_count: block.inst_count + 1, ..block };
    let grown = BlockView {
        instructions: block.instructions.push(EntityView::Instruction(inst)),
        ..block
    };
    let both = BlockView {
        instructions: block.instructions.push(EntityView::Instruction(inst)),
        ..named
    };
    if ctx.module.function(at.function).is_external() {
        assert(ctx.after_naming().module.printable()) by {
            lemma_external_printable(ctx.module, at, named);
        }
        assert(ctx.after_insert(inst).module.printable()) by {
            lemma_external_printable(ctx.module, at, grown);
        }
        assert(ctx.after_naming().after_insert(inst).module.printable()) by {
            lemma_external_printable(ctx.after_naming().module, at, both);
        }
    } else {
        assert(block_printable(block));
        assert(block_printable(named));
        lemma_with_block_printable(ctx.module, at, named);
        if instruction_printable(inst) {
            assert(block_printable(grown)) by {
                assert forall|k: int| 0 <= k < grown.instructions.len() implies entity_printable(
                    #[trigger] grown.instructions[k],
                ) by {
                    if k < block.instructions.len() {
                        assert(entity_printable(block.instructions[k]));
                    }
                }
            }
            assert(block_printable(both));
            lemma_with_block_printable(ctx.module, at, grown);
            lemma_with_block_printable(ctx.after_naming().module, at, both);
        }
    }
}

/// A module that can be rendered can still be rendered after a block of an
/// external function, whose blocks are not rendered, has given way to another.
proof fn lemma_external_printable(m: ModuleView, at: BlockRef, block: BlockView)
    requires
        m.has_block(at),
        m.printable(),
        m.function(at.function).is_external(),
    ensures
        m.with_block(at, block).printable(),
{
    let after = m.with_block(at, block);
    assert forall|i: int| 0 <= i < after.functions.len() implies function_printable(
        #[trigger] after.functions[i],
    ) by {
        assert(function_printable(m.functions[i]));
    }
}

impl Builder {
    /// Creates a builder that works on `ctx`.
    pub fn new(ctx: IRContext) -> (r: Self)
        ensures
            r@ == ctx@,
    {
        Self { ctx }
    }

    /// The module under construction.
    pub fn get_module(&self) -> (r: &Module)
        ensures
            r@ == self@.module,
    {
        self.ctx.get_module()
    }

    /// Makes `insertion_point`, a block of the module, the block that new
    /// instructions go to.
    pub fn set_insertion_point(&mut self, insertion_point: BlockRef)
        requires
            old(self)@.module.has_block(insertion_point),
        ensures
            final(self)@ == (ContextView {
                insertion_point: Some(insertion_point),
                ..old(self)@
            }),
    {
        self.ctx.set_insertion_point(insertion_point);
    }

    /// Appends `value` to the block at the insertion point.
    pub fn insert(&mut self, value: Instruction)
        requires
            placement_fault(old(self)@, false) is None,
        ensures
            final(self)@ == old(self)@.after_insert(value@),
            old(self)@.wf() ==> final(self)@.wf(),
    {
        let at = match self.ctx.get_insertion_point() {
            Some(at) => at,
            None => vstd::pervasive::unreached(),
        };
        let module = self.ctx.get_module_mut();
        let function = match module.get_function_mut(at.function) {
            Some(function) => function,
            None => vstd::pervasive::unreached(),
        };
        let block = match function.get_block_by_index_mut(at.index) {
            Some(block) => block,
            None => vstd::pervasive::unreached(),
        };
        block.insert(ValueEntity::Instruction(value));
    }

    // Types.

    /// The void type.
    pub fn get_void_type(&self) -> (r: Type)
        ensures
            r@ == TypeView::Void,
    {
        Type::Void
    }

    /// The type of truth values: an integer of one bit.
    pub fn get_bool_type(&self) -> (r: Type)
        ensures
            r@ == TypeView::Integer(1),
    {
        Type::Integer(1)
    }

    /// The type of integers of 8 bits.
    pub fn get_i8_type(&self) -> (r: Type)
        ensures
            r@ == TypeView::Integer(8),
    {
        Type::Integer(8)
    }

    /// The type of integers of 16 bits.
    pub fn get_i16_type(&self) -> (r: Type)
        ensures
            r@ == TypeView::Integer(16),
    {
        Type::Integer(16)
    }

    /// The type of integers of 32 bits.
    pub fn get_i32_type(&self) -> (r: Type)
        ensures
            r@ == TypeView::Integer(32),
    {
        Type::Integer(32)
    }

    /// The type of integers of 64 bits.
    pub fn get_i64_type(&self) -> (r: Type)
        ensures
            r@ == TypeView::Integer(64),
    {
        Type::Integer(64)
    }

    /// The type of integers of 128 bits.
    pub fn get_i128_type(&self) -> (r: Type)
        ensures
            r@ == TypeView::Integer(128),
    {
        Type::Integer(128)
    }

    /// The type of floating-point numbers of 32 bits.
    pub fn get_f32_type(&self) -> (r: Type)
        ensures
            r@ == TypeView::Float(32),
    {
        Type::Float(32)
    }

    /// The type of floating-point numbers of 64 bits.
    pub fn get_f64_type(&self) -> (r: Type)
        ensures
            r@ == TypeView::Float(64),
    {
        Type::Float(64)
    }

    /// The type of pointers to integers of 8 bits.
    pub fn get_i8_ptr_type(&self) -> (r: Type)
        ensures
            r@ == TypeView::Pointer(Box::new(TypeView::Integer(8))),
    {
        self.get_pointer_type(self.get_i8_type())
    }

    /// The type of pointers to `element_type`.
    pub fn get_pointer_type(&self, element_type: Type) -> (r: Type)
        ensures
            r@ == TypeView::Pointer(Box::new(element_type@)),
    {
        element_type.get_pointer_to()
    }

    /// The type of arrays of `length` elements of `element_type`.
    pub fn get_array_type(&self, element_type: Type, length: usize) -> (r: Type)
        ensures
            r@ == TypeView::Array(length as nat, Box::new(element_type@)),
    {
        Type::Array(length, Box::new(element_type))
    }

    /// The type of functions from `argument_types` to `return_type`.
    pub fn get_function_type(&self, return_type: Type, argument_types: Vec<Type>) -> (r: Type)
        ensures
            r@ == TypeView::FunctionType(types_view(argument_types@), Box::new(return_type@)),
    {
        Type::FunctionType(argument_types, Box::new(return_type))
    }

    /// The type of integers of `bit_width` bits.
    pub fn get_int_n_type(&self, bit_width: usize) -> (r: Type)
        ensures
            r@ == TypeView::Integer(bit_width as nat),
    {
        Type::Integer(bit_width)
    }

    /// The type of basic blocks as branch targets.
    pub fn get_branch_type(&self) -> (r: Type)
        ensures
            r@ == TypeView::Branch,
    {
        Type::Branch
    }

    // Constants.

    /// The 32-bit integer constant `value`. A constant belongs to no block.
    pub fn get_i32(&self, value: i32) -> (r: ValueEntity)
        ensures
            r@ == EntityView::Instruction(
                unnamed_instruction(
                    TypeView::Integer(32),
                    InstructionTypeView::ConstantInt32(value as int),
                ),
            ),
    {
        ValueEntity::Instruction(
            Instruction::new(self.get_i32_type(), InstructionType::ConstantInt32(value), None),
        )
    }

    /// The 64-bit integer constant `value`. A constant belongs to no block.
    pub fn get_i64(&self, value: i64) -> (r: ValueEntity)
        ensures
            r@ == EntityView::Instruction(
                unnamed_instruction(
                    TypeView::Integer(64),
                    InstructionTypeView::ConstantInt64(value as int),
                ),
            ),
    {
        ValueEntity::Instruction(
            Instruction::new(self.get_i64_type(), InstructionType::ConstantInt64(value), None),
        )
    }

    /// The truth value `value`. A constant belongs to no block.
    pub fn get_bool(&self, value: bool) -> (r: ValueEntity)
        ensures
            r@ == EntityView::Instruction(
                unnamed_instruction(TypeView::Integer(1), InstructionTypeView::ConstantBool(value)),
            ),
    {
        ValueEntity::Instruction(
            Instruction::new(self.get_bool_type(), InstructionType::ConstantBool(value), None),
        )
    }

    // Functions, blocks and names.

    /// Creates a function of the given signature and linkage and adds it to
    /// the module. Its name is `name`, made unique among the top-level names of
    /// the module: in a well-formed module no earlier function has that name.
    /// The result names the new function.
    pub fn create_function(
        &mut self,
        name: &str,
        argument_types: Vec<Type>,
        return_type: Type,
        linkage: Linkage,
        is_varg: bool,
    ) -> (r: FunctionRef)
        ensures
            r.index == old(self)@.module.functions.len(),
            final(self)@ == (ContextView {
                module: old(self)@.module.with_function(
                    FunctionView::declared(
                        global_value_name(old(self)@.module.globals, name@),
                        types_view(argument_types@),
                        return_type@,
                        linkage,
                        is_varg,
                    ),
                ),
                ..old(self)@
            }),
            !old(self)@.module.globals.contains(
                global_value_name(old(self)@.module.globals, name@),
            ),
            old(self)@.wf() ==> final(self)@.wf(),
            old(self)@.wf() ==> forall|f: int|
                0 <= f < old(self)@.module.functions.len() ==> (
                #[trigger] old(self)@.module.functions[f]).name != global_value_name(
                    old(self)@.module.globals,
                    name@,
                ),
            old(self)@.module.printable() ==> final(self)@.module.printable(),
    {
        let fn_type = self.get_function_type(return_type, argument_types);
        let module = self.ctx.get_module_mut();
        let index = module.get_functions().len();
        let unique = module.get_global_value_name(name);
        let func = Function::create(unique, fn_type, linkage, is_varg);
        module.add_function(func);
        proof {
            if old(self)@.module.printable() {
                lemma_with_function_printable(old(self)@.module, func@);
            }
            if old(self)@.wf() {
                lemma_with_function_wf(old(self)@.module, func@);
            }
        }
        FunctionRef { index }
    }

    /// The name of a new instruction: `%` before `name` or, without a name,
    /// before the next name that the block at the insertion point hands out.
    pub fn get_block_inst_name(&mut self, name: Option<&str>) -> (r: Option<String>)
        requires
            name is None ==> placement_fault(old(self)@, true) is None,
        ensures
            r is Some,
            r->Some_0@ == old(self)@.instruction_name(name_view(name)),
            final(self)@ == if name is None {
                old(self)@.after_naming()
            } else {
                old(self)@
            },
            old(self)@.wf() ==> final(self)@.wf(),
    {
        let mut out = String::from_str("%");
        match name {
            Some(name) => {
                out.append(name);
            },
            None => {
                let at = match self.ctx.get_insertion_point() {
                    Some(at) => at,
                    None => vstd::pervasive::unreached(),
                };
                let module = self.ctx.get_module_mut();
                let function = match module.get_function_mut(at.function) {
                    Some(function) => function,
                    None => vstd::pervasive::unreached(),
                };
                let block = match function.get_block_by_index_mut(at.index) {
                    Some(block) => block,
                    None => vstd::pervasive::unreached(),
                };
                let number = block.get_new_instruction_name();
                out.append(number.as_str());
            },
        }
        Some(out)
    }

    /// Creates an empty block named `name`, with the function that
    /// `function` names as its parent, and appends it to that function, which
    /// must be defined here. The result names the new block.
    pub fn create_block(&mut self, name: &str, function: FunctionRef) -> (r: BlockRef)
        requires
            block_fault(old(self)@.module, function) is None,
        ensures
            r == (BlockRef {
                function,
                index: old(self)@.module.function(function).blocks.len() as usize,
            }),
            final(self)@ == (ContextView {
                module: old(self)@.module.with_new_block(
                    function,
                    BlockView::empty(name@, function),
                ),
                ..old(self)@
            }),
            final(self)@.module.has_block(r),
            old(self)@.wf() ==> final(self)@.wf(),
            old(self)@.module.printable() ==> final(self)@.module.printable(),
    {
        let block = BasicBlock::new(String::from_str(name), function);
        let module = self.ctx.get_module_mut();
        let target = match module.get_function_mut(function) {
            Some(target) => target,
            None => vstd::pervasive::unreached(),
        };
        let index = target.get_blocks().len();
        target.add_block(block);
        proof {
            if old(self)@.module.printable() {
                lemma_with_new_block_printable(old(self)@.module, function, block@);
            }
        }
        BlockRef { function, index }
    }

    /// Names a new instruction, appends it to the block at the insertion
    /// point and returns it.
    fn build(&mut self, ty: Type, kind: InstructionType, name: Option<&str>) -> (r: Instruction)
        requires
            placement_fault(old(self)@, name is None) is None,
        ensures
            r@ == old(self)@.named_instruction(ty@, kind@, name_view(name)),
            final(self)@ == old(self)@.after_build(r@, name_view(name)),
            old(self)@.wf() ==> final(self)@.wf(),
            old(self)@.module.printable() && instruction_printable(r@)
                ==> final(self)@.module.printable(),
    {
        let inst_name = self.get_block_inst_name(name);
        let value = Instruction::new(ty, kind, inst_name);
        proof {
            if old(self)@.module.printable() {
                lemma_printable_preserved(old(self)@, value@);
            }
        }
        self.insert(value.clone());
        value
    }

    /// Appends a new instruction without a name to the block at the insertion
    /// point and returns it.
    fn build_unnamed(&mut self, ty: Type, kind: InstructionType) -> (r: Instruction)
        requires
            placement_fault(old(self)@, false) is None,
        ensures
            r@ == unnamed_instruction(ty@, kind@),
            final(self)@ == old(self)@.after_insert(r@),
            old(self)@.wf() ==> final(self)@.wf(),
            old(self)@.module.printable() && instruction_printable(r@)
                ==> final(self)@.module.printable(),
    {
        let value = Instruction::new(ty, kind, None);
        proof {
            if old(self)@.module.printable() {
                lemma_printable_preserved(old(self)@, value@);
            }
        }
        self.insert(value.clone());
        value
    }

    // Instructions.

    /// Appends the sum of `lhs` and `rhs`. Both operands must have one type, an
    /// integer or a floating-point type. The result has the type of the operands.
    pub fn add(&mut self, lhs: ValueEntity, rhs: ValueEntity, name: Option<&str>) -> (r:
        Instruction)
        requires
            placement_fault(old(self)@, name is None) is None,
            arithmetic_fault(lhs@.ty(), rhs@.ty()) is None,
        ensures
            r@ == old(self)@.named_instruction(
                lhs@.ty(),
                InstructionTypeView::Add(Box::new(lhs@), Box::new(rhs@)),
                name_view(name),
            ),
            final(self)@ == old(self)@.after_build(r@, name_view(name)),
            old(self)@.wf() ==> final(self)@.wf(),
            old(self)@.module.printable() ==> final(self)@.module.printable(),
    {
        let ty = lhs.get_type();
        self.build(ty, InstructionType::Add(Box::new(lhs), Box::new(rhs)), name)
    }

    /// Appends the difference of `lhs` and `rhs`. Both operands must have one type,
    /// an integer or a floating-point type. The result has the type of the
    /// operands.
    pub fn sub(&mut self, lhs: ValueEntity, rhs: ValueEntity, name: Option<&str>) -> (r:
        Instruction)
        requires
            placement_fault(old(self)@, name is None) is None,
            arithmetic_fault(lhs@.ty(), rhs@.ty()) is None,
        ensures
            r@ == old(self)@.named_instruction(
                lhs@.ty(),
                InstructionTypeView::Sub(Box::new(lhs@), Box::new(rhs@)),
                name_view(name),
            ),
            final(self)@ == old(self)@.after_build(r@, name_view(name)),
            old(self)@.wf() ==> final(self)@.wf(),
            old(self)@.module.printable() ==> final(self)@.module.printable(),
    {
        let ty = lhs.get_type();
        self.build(ty, InstructionType::Sub(Box::new(lhs), Box::new(rhs)), name)
    }

    /// Appends the product of `lhs` and `rhs`. Both operands must have one type, an
    /// integer or a floating-point type. The result has the type of the operands.
    pub fn mul(&mut self, lhs: ValueEntity, rhs: ValueEntity, name: Option<&str>) -> (r:
        Instruction)
        requires
            placement_fault(old(self)@, name is None) is None,
            arithmetic_fault(lhs@.ty(), rhs@.ty()) is None,
        ensures
            r@ == old(self)@.named_instruction(
                lhs@.ty(),
                InstructionTypeView::Mul(Box::new(lhs@), Box::new(rhs@)),
                name_view(name),
            ),
            final(self)@ == old(self)@.after_build(r@, name_view(name)),
            old(self)@.wf() ==> final(self)@.wf(),
            old(self)@.module.printable() ==> final(self)@.module.printable(),
    {
        let ty = lhs.get_type();
        self.build(ty, InstructionType::Mul(Box::new(lhs), Box::new(rhs)), name)
    }

    /// Appends the quotient of `lhs` and `rhs`. Both operands must have one type,
    /// an integer or a floating-point type. The result has the type of the
    /// operands.
    pub fn div(&mut self, lhs: ValueEntity, rhs: ValueEntity, name: Option<&str>) -> (r:
        Instruction)
        requires
            placement_fault(old(self)@, name is None) is None,
            arithmetic_fault(lhs@.ty(), rhs@.ty()) is None,
        ensures
            r@ == old(self)@.named_instruction(
                lhs@.ty(),
                InstructionTypeView::Div(Box::new(lhs@), Box::new(rhs@)),
                name_view(name),
            ),
            final(self)@ == old(self)@.after_build(r@, name_view(name)),
            old(self)@.wf() ==> final(self)@.wf(),
            old(self)@.module.printable() ==> final(self)@.module.printable(),
    {
        let ty = lhs.get_type();
        self.build(ty, InstructionType::Div(Box::new(lhs), Box::new(rhs)), name)
    }

    /// Appends the remainder of `lhs` by `rhs`. Both operands must have one type,
    /// an integer or a floating-point type. The result has the type of the
    /// operands.
    pub fn rem(&mut self, lhs: ValueEntity, rhs: ValueEntity, name: Option<&str>) -> (r:
        Instruction)
        requires
            placement_fault(old(self)@, name is None) is None,
            arithmetic_fault(lhs@.ty(), rhs@.ty()) is None,
        ensures
            r@ == old(self)@.named_instruction(
                lhs@.ty(),
                InstructionTypeView::Rem(Box::new(lhs@), Box::new(rhs@)),
                name_view(name),
            ),
            final(self)@ == old(self)@.after_build(r@, name_view(name)),
            old(self)@.wf() ==> final(self)@.wf(),
            old(self)@.module.printable() ==> final(self)@.module.printable(),
    {
        let ty = lhs.get_type();
        self.build(ty, InstructionType::Rem(Box::new(lhs), Box::new(rhs)), name)
    }

    /// Appends `lhs` shifted left by `rhs`. Both operands must have one type, an
    /// integer type. The result has the type of the operands.
    pub fn shl(&mut self, lhs: ValueEntity, rhs: ValueEntity, name: Option<&str>) -> (r:
        Instruction)
        requires
            placement_fault(old(self)@, name is None) is None,
            bitwise_fault(lhs@.ty(), rhs@.ty()) is None,
        ensures
            r@ == old(self)@.named_instruction(
                lhs@.ty(),
                InstructionTypeView::Shl(Box::new(lhs@), Box::new(rhs@)),
                name_view(name),
            ),
            final(self)@ == old(self)@.after_build(r@, name_view(name)),
            old(self)@.wf() ==> final(self)@.wf(),
            old(self)@.module.printable() ==> final(self)@.module.printable(),
    {
        let ty = lhs.get_type();
        self.build(ty, InstructionType::Shl(Box::new(lhs), Box::new(rhs)), name)
    }

    /// Appends `lhs` shifted right by `rhs`. Both operands must have one type, an
    /// integer type. The result has the type of the operands.
    pub fn shr(&mut self, lhs: ValueEntity, rhs: ValueEntity, name: Option<&str>) -> (r:
        Instruction)
        requires
            placement_fault(old(self)@, name is None) is None,
            bitwise_fault(lhs@.ty(), rhs@.ty()) is None,
        ensures
            r@ == old(self)@.named_instruction(
                lhs@.ty(),
                InstructionTypeView::Shr(Box::new(lhs@), Box::new(rhs@)),
                name_view(name),
            ),
            final(self)@ == old(self)@.after_build(r@, name_view(name)),
            old(self)@.wf() ==> final(self)@.wf(),
            old(self)@.module.printable() ==> final(self)@.module.printable(),
    {
        let ty = lhs.get_type();
        self.build(ty, InstructionType::Shr(Box::new(lhs), Box::new(rhs)), name)
    }

    /// Appends the conjunction of `lhs` and `rhs`. Both operands must have one
    /// type, an integer type. The result is a truth value, whatever the width of
    /// the operands.
    pub fn and(&mut self, lhs: ValueEntity, rhs: ValueEntity, name: Option<&str>) -> (r:
        Instruction)
        requires
            placement_fault(old(self)@, name is None) is None,
            bitwise_fault(lhs@.ty(), rhs@.ty()) is None,
        ensures
            r@ == old(self)@.named_instruction(
                TypeView::Integer(1),
                InstructionTypeView::And(Box::new(lhs@), Box::new(rhs@)),
                name_view(name),
            ),
            final(self)@ == old(self)@.after_build(r@, name_view(name)),
            old(self)@.wf() ==> final(self)@.wf(),
            old(self)@.module.printable() ==> final(self)@.module.printable(),
    {
        let ty = self.get_bool_type();
        self.build(ty, InstructionType::And(Box::new(lhs), Box::new(rhs)), name)
    }

    /// Appends the disjunction of `lhs` and `rhs`. Both operands must have one
    /// type, an integer type. The result is a truth value, whatever the width of
    /// the operands.
    pub fn or(&mut self, lhs: ValueEntity, rhs: ValueEntity, name: Option<&str>) -> (r:
        Instruction)
        requires
            placement_fault(old(self)@, name is None) is None,
            bitwise_fault(lhs@.ty(), rhs@.ty()) is None,
        ensures
            r@ == old(self)@.named_instruction(
                TypeView::Integer(1),
                InstructionTypeView::Or(Box::new(lhs@), Box::new(rhs@)),
                name_view(name),
            ),
            final(self)@ == old(self)@.after_build(r@, name_view(name)),
            old(self)@.wf() ==> final(self)@.wf(),
            old(self)@.module.printable() ==> final(self)@.module.printable(),
    {
        let ty = self.get_bool_type();
        self.build(ty, InstructionType::Or(Box::new(lhs), Box::new(rhs)), name)
    }

    /// Appends the exclusive disjunction of `lhs` and `rhs`. Both operands must
    /// have one type, an integer type. The result has the type of the operands.
    pub fn xor(&mut self, lhs: ValueEntity, rhs: ValueEntity, name: Option<&str>) -> (r:
        Instruction)
        requires
            placement_fault(old(self)@, name is None) is None,
            bitwise_fault(lhs@.ty(), rhs@.ty()) is None,
        ensures
            r@ == old(self)@.named_instruction(
                lhs@.ty(),
                InstructionTypeView::Xor(Box::new(lhs@), Box::new(rhs@)),
                name_view(name),
            ),
            final(self)@ == old(self)@.after_build(r@, name_view(name)),
            old(self)@.wf() ==> final(self)@.wf(),
            old(self)@.module.printable() ==> final(self)@.module.printable(),
    {
        let ty = lhs.get_type();
        self.build(ty, InstructionType::Xor(Box::new(lhs), Box::new(rhs)), name)
    }

    /// Appends the test whether `lhs` equals `rhs`. Both operands must have one
    /// type, an integer or a floating-point type. The result is a truth value.
    pub fn eq(&mut self, lhs: ValueEntity, rhs: ValueEntity, name: Option<&str>) -> (r:
        Instruction)
        requires
            placement_fault(old(self)@, name is None) is None,
            arithmetic_fault(lhs@.ty(), rhs@.ty()) is None,
        ensures
            r@ == old(self)@.named_instruction(
                TypeView::Integer(1),
                InstructionTypeView::Eq(Box::new(lhs@), Box::new(rhs@)),
                name_view(name),
            ),
            final(self)@ == old(self)@.after_build(r@, name_view(name)),
            old(self)@.wf() ==> final(self)@.wf(),
            old(self)@.module.printable() ==> final(self)@.module.printable(),
    {
        let ty = self.get_bool_type();
        self.build(ty, InstructionType::Eq(Box::new(lhs), Box::new(rhs)), name)
    }

    /// Appends the test whether `lhs` differs from `rhs`. Both operands must have
    /// one type, an integer or a floating-point type. The result is a truth value.
    pub fn ne(&mut self, lhs: ValueEntity, rhs: ValueEntity, name: Option<&str>) -> (r:
        Instruction)
        requires
            placement_fault(old(self)@, name is None) is None,
            arithmetic_fault(lhs@.ty(), rhs@.ty()) is None,
        ensures
            r@ == old(self)@.named_instruction(
                TypeView::Integer(1),
                InstructionTypeView::Ne(Box::new(lhs@), Box::new(rhs@)),
                name_view(name),
            ),
            final(self)@ == old(self)@.after_build(r@, name_view(name)),
            old(self)@.wf() ==> final(self)@.wf(),
            old(self)@.module.printable() ==> final(self)@.module.printable(),
    {
        let ty = self.get_bool_type();
        self.build(ty, InstructionType::Ne(Box::new(lhs), Box::new(rhs)), name)
    }

    /// Appends the test whether `lhs` is less than `rhs`. Both operands must have
    /// one type, an integer or a floating-point type. The result is a truth value.
    pub fn lt(&mut self, lhs: ValueEntity, rhs: ValueEntity, name: Option<&str>) -> (r:
        Instruction)
        requires
            placement_fault(old(self)@, name is None) is None,
            arithmetic_fault(lhs@.ty(), rhs@.ty()) is None,
        ensures
            r@ == old(self)@.named_instruction(
                TypeView::Integer(1),
                InstructionTypeView::Lt(Box::new(lhs@), Box::new(rhs@)),
                name_view(name),
            ),
            final(self)@ == old(self)@.after_build(r@, name_view(name)),
            old(self)@.wf() ==> final(self)@.wf(),
            old(self)@.module.printable() ==> final(self)@.module.printable(),
    {
        let ty = self.get_bool_type();
        self.build(ty, InstructionType::Lt(Box::new(lhs), Box::new(rhs)), name)
    }

    /// Appends the test whether `lhs` is at most `rhs`. Both operands must have one
    /// type, an integer or a floating-point type. The result is a truth value.
    pub fn le(&mut self, lhs: ValueEntity, rhs: ValueEntity, name: Option<&str>) -> (r:
        Instruction)
        requires
            placement_fault(old(self)@, name is None) is None,
            arithmetic_fault(lhs@.ty(), rhs@.ty()) is None,
        ensures
            r@ == old(self)@.named_instruction(
                TypeView::Integer(1),
                InstructionTypeView::Le(Box::new(lhs@), Box::new(rhs@)),
                name_view(name),
            ),
            final(self)@ == old(self)@.after_build(r@, name_view(name)),
            old(self)@.wf() ==> final(self)@.wf(),
            old(self)@.module.printable() ==> final(self)@.module.printable(),
    {
        let ty = self.get_bool_type();
        self.build(ty, InstructionType::Le(Box::new(lhs), Box::new(rhs)), name)
    }

    /// Appends the test whether `lhs` is greater than `rhs`. Both operands must
    /// have one type, an integer or a floating-point type. The result is a truth
    /// value.
    pub fn gt(&mut self, lhs: ValueEntity, rhs: ValueEntity, name: Option<&str>) -> (r:
        Instruction)
        requires
            placement_fault(old(self)@, name is None) is None,
            arithmetic_fault(lhs@.ty(), rhs@.ty()) is None,
        ensures
            r@ == old(self)@.named_instruction(
                TypeView::Integer(1),
                InstructionTypeView::Gt(Box::new(lhs@), Box::new(rhs@)),
                name_view(name),
            ),
            final(self)@ == old(self)@.after_build(r@, name_view(name)),
            old(self)@.wf() ==> final(self)@.wf(),
            old(self)@.module.printable() ==> final(self)@.module.printable(),
    {
        let ty = self.get_bool_type();
        self.build(ty, InstructionType::Gt(Box::new(lhs), Box::new(rhs)), name)
    }

    /// Appends the test whether `lhs` is at least `rhs`. Both operands must have
    /// one type, an integer or a floating-point type. The result is a truth value.
    pub fn ge(&mut self, lhs: ValueEntity, rhs: ValueEntity, name: Option<&str>) -> (r:
        Instruction)
        requires
            placement_fault(old(self)@, name is None) is None,
            arithmetic_fault(lhs@.ty(), rhs@.ty()) is None,
        ensures
            r@ == old(self)@.named_instruction(
                TypeView::Integer(1),
                InstructionTypeView::Ge(Box::new(lhs@), Box::new(rhs@)),
                name_view(name),
            ),
            final(self)@ == old(self)@.after_build(r@, name_view(name)),
            old(self)@.wf() ==> final(self)@.wf(),
            old(self)@.module.printable() ==> final(self)@.module.printable(),
    {
        let ty = self.get_bool_type();
        self.build(ty, InstructionType::Ge(Box::new(lhs), Box::new(rhs)), name)
    }

    /// Appends the negation of `value`, which must be of an integer or a
    /// floating-point type. The result has the type of the operand.
    pub fn neg(&mut self, value: ValueEntity, name: Option<&str>) -> (r: Instruction)
        requires
            placement_fault(old(self)@, name is None) is None,
            of_kind(TypeKind::Numeric, value@.ty()) is None,
        ensures
            r@ == old(self)@.named_instruction(
                value@.ty(),
                InstructionTypeView::Neg(Box::new(value@)),
                name_view(name),
            ),
            final(self)@ == old(self)@.after_build(r@, name_view(name)),
            old(self)@.wf() ==> final(self)@.wf(),
            old(self)@.module.printable() ==> final(self)@.module.printable(),
    {
        let ty = value.get_type();
        self.build(ty, InstructionType::Neg(Box::new(value)), name)
    }

    /// Appends the complement of `value`, which must be of an integer type.
    /// The result is a truth value.
    pub fn not(&mut self, value: ValueEntity, name: Option<&str>) -> (r: Instruction)
        requires
            placement_fault(old(self)@, name is None) is None,
            of_kind(TypeKind::Integer, value@.ty()) is None,
        ensures
            r@ == old(self)@.named_instruction(
                TypeView::Integer(1),
                InstructionTypeView::Not(Box::new(value@)),
                name_view(name),
            ),
            final(self)@ == old(self)@.after_build(r@, name_view(name)),
            old(self)@.wf() ==> final(self)@.wf(),
            old(self)@.module.printable() ==> final(self)@.module.printable(),
    {
        let ty = self.get_bool_type();
        self.build(ty, InstructionType::Not(Box::new(value)), name)
    }

    /// Appends a load through `value`, which must be of a pointer type. The
    /// result has the type `ty` that the caller gives: it is not held against
    /// the type that the pointer points to.
    pub fn load(&mut self, ty: Type, value: ValueEntity, name: Option<&str>) -> (r: Instruction)
        requires
            placement_fault(old(self)@, name is None) is None,
            of_kind(TypeKind::Pointer, value@.ty()) is None,
        ensures
            r@ == old(self)@.named_instruction(
                ty@,
                InstructionTypeView::Load(Box::new(value@)),
                name_view(name),
            ),
            final(self)@ == old(self)@.after_build(r@, name_view(name)),
            old(self)@.wf() ==> final(self)@.wf(),
            old(self)@.module.printable() ==> final(self)@.module.printable(),
    {
        self.build(ty, InstructionType::Load(Box::new(value)), name)
    }

    /// Appends a store of `rhs` through `lhs`, which must be a pointer to the
    /// type of `rhs`. The instruction yields nothing.
    pub fn store(&mut self, lhs: ValueEntity, rhs: ValueEntity) -> (r: Instruction)
        requires
            placement_fault(old(self)@, false) is None,
            store_fault(lhs@.ty(), rhs@.ty()) is None,
        ensures
            r@ == unnamed_instruction(
                TypeView::Void,
                InstructionTypeView::Store(Box::new(lhs@), Box::new(rhs@)),
            ),
            final(self)@ == old(self)@.after_insert(r@),
            old(self)@.wf() ==> final(self)@.wf(),
            old(self)@.module.printable() ==> final(self)@.module.printable(),
    {
        let ty = self.get_void_type();
        self.build_unnamed(ty, InstructionType::Store(Box::new(lhs), Box::new(rhs)))
    }

    /// Appends a call of `callee`, which must be a pointer to a function, with
    /// the arguments `args`, each of which must have the type of the parameter
    /// in its place. The result has the return type of the function.
    pub fn call(&mut self, callee: ValueEntity, args: Vec<ValueEntity>, name: Option<&str>) -> (r:
        Instruction)
        requires
            placement_fault(old(self)@, name is None) is None,
            call_fault(callee@.ty(), entity_types(entities_view(args@))) is None,
        ensures
            r@ == old(self)@.named_instruction(
                call_result(callee@.ty()),
                InstructionTypeView::Call(Box::new(callee@), entities_view(args@)),
                name_view(name),
            ),
            final(self)@ == old(self)@.after_build(r@, name_view(name)),
            old(self)@.wf() ==> final(self)@.wf(),
            old(self)@.module.printable() ==> final(self)@.module.printable(),
    {
        let mut boxed_args: Vec<Box<ValueEntity>> = Vec::new();
        let mut i: usize = 0;
        while i < args.len()
            invariant
                0 <= i <= args.len(),
                boxed_args.len() == i,
                forall|j: int| 0 <= j < i ==> (*boxed_args@[j])@ == args@[j]@,
            decreases args.len() - i,
        {
            boxed_args.push(Box::new(args[i].clone()));
            i += 1;
        }
        let kind = InstructionType::Call(Box::new(callee), boxed_args);
        assert(kind@->Call_1 =~= entities_view(args@));
        let ty = callee_return_type(&kind);
        self.build(ty, kind, name)
    }

    /// Appends a return without a value. The enclosing function must return void.
    pub fn void_ret(&mut self) -> (r: Instruction)
        requires
            return_fault(old(self)@, TypeView::Void) is None,
        ensures
            r@ == unnamed_instruction(TypeView::Void, InstructionTypeView::VoidReturn),
            final(self)@ == old(self)@.after_insert(r@),
            old(self)@.wf() ==> final(self)@.wf(),
            old(self)@.module.printable() ==> final(self)@.module.printable(),
    {
        let ty = self.get_void_type();
        self.build_unnamed(ty, InstructionType::VoidReturn)
    }

    /// Appends a return of `value`, which must have the return type of the
    /// enclosing function. The instruction yields nothing.
    pub fn ret(&mut self, value: ValueEntity) -> (r: Instruction)
        requires
            return_fault(old(self)@, value@.ty()) is None,
        ensures
            r@ == unnamed_instruction(
                TypeView::Void,
                InstructionTypeView::Return(Box::new(value@)),
            ),
            final(self)@ == old(self)@.after_insert(r@),
            old(self)@.wf() ==> final(self)@.wf(),
            old(self)@.module.printable() ==> final(self)@.module.printable(),
    {
        let ty = self.get_void_type();
        self.build_unnamed(ty, InstructionType::Return(Box::new(value)))
    }

    /// Appends a jump to `target`, which must have the branch type.
    pub fn branch(&mut self, target: ValueEntity) -> (r: Instruction)
        requires
            placement_fault(old(self)@, false) is None,
            of_kind(TypeKind::Branch, target@.ty()) is None,
        ensures
            r@ == unnamed_instruction(
                TypeView::Void,
                InstructionTypeView::Branch(Box::new(target@)),
            ),
            final(self)@ == old(self)@.after_insert(r@),
            old(self)@.wf() ==> final(self)@.wf(),
            old(self)@.module.printable() ==> final(self)@.module.printable(),
    {
        let ty = self.get_void_type();
        self.build_unnamed(ty, InstructionType::Branch(Box::new(target)))
    }

    /// Appends a jump to `target`, which must have the branch type, that
    /// depends on `condition`, which must be of an integer type.
    pub fn branch_if(&mut self, condition: ValueEntity, target: ValueEntity) -> (r: Instruction)
        requires
            placement_fault(old(self)@, false) is None,
            branch_if_fault(condition@.ty(), target@.ty()) is None,
        ensures
            r@ == unnamed_instruction(
                TypeView::Void,
                InstructionTypeView::BranchIf(Box::new(condition@), Box::new(target@)),
            ),
            final(self)@ == old(self)@.after_insert(r@),
            old(self)@.wf() ==> final(self)@.wf(),
            old(self)@.module.printable() ==> final(self)@.module.printable(),
    {
        let ty = self.get_void_type();
        self.build_unnamed(ty, InstructionType::BranchIf(Box::new(condition), Box::new(target)))
    }

    /// Appends a phi over `incoming`, pairs of a value and the block that
    /// control comes from. There must be at least one pair, and all values
    /// must share one type, which is the type of the result. The phi can be
    /// rendered exactly where each of its incoming values can.
    pub fn phi(&mut self, incoming: Vec<(ValueEntity, ValueEntity)>) -> (r: Instruction)
        requires
            placement_fault(old(self)@, false) is None,
            phi_fault(incoming_types(pairs_view(incoming@))) is None,
        ensures
            r@ == unnamed_instruction(
                pairs_view(incoming@)[0].0.ty(),
                InstructionTypeView::Phi(pairs_view(incoming@)),
            ),
            final(self)@ == old(self)@.after_insert(r@),
            old(self)@.wf() ==> final(self)@.wf(),
            instruction_printable(r@) <==> forall|i: int|
                0 <= i < incoming.len() ==> entity_printable((#[trigger] incoming@[i]).0@),
            old(self)@.module.printable() && instruction_printable(r@)
                ==> final(self)@.module.printable(),
    {
        proof {
            let pairs = pairs_view(incoming@);
            assert(incoming_types(pairs).len() == incoming.len());
            if forall|i: int| 0 <= i < incoming.len() ==> entity_printable(
                (#[trigger] incoming@[i]).0@,
            ) {
                assert forall|i: int| 0 <= i < pairs.len() implies entity_printable(
                    #[trigger] pairs[i].0,
                ) by {
                    assert(pairs[i].0 == incoming@[i].0@);
                }
            }
            if forall|i: int| 0 <= i < pairs.len() ==> entity_printable(#[trigger] pairs[i].0) {
                assert forall|i: int| 0 <= i < incoming.len() implies entity_printable(
                    (#[trigger] incoming@[i]).0@,
                ) by {
                    assert(pairs[i].0 == incoming@[i].0@);
                }
            }
        }
        let mut boxed_incoming: Vec<(Box<ValueEntity>, Box<ValueEntity>)> = Vec::new();
        let mut i: usize = 0;
        while i < incoming.len()
            invariant
                0 <= i <= incoming.len(),
                boxed_incoming.len() == i,
                forall|j: int|
                    0 <= j < i ==> (*boxed_incoming@[j].0)@ == incoming@[j].0@ && (
                    *boxed_incoming@[j].1)@ == incoming@[j].1@,
            decreases incoming.len() - i,
        {
            let value = incoming[i].0.clone();
            let block = incoming[i].1.clone();
            boxed_incoming.push((Box::new(value), Box::new(block)));
            i += 1;
        }
        let ty = incoming[0].0.get_type();
        let kind = InstructionType::Phi(boxed_incoming);
        assert(kind@->Phi_0 =~= pairs_view(incoming@));
        self.build_unnamed(ty, kind)
    }

    /// Appends the mark of a point that control never reaches.
    pub fn unreachable(&mut self) -> (r: Instruction)
        requires
            placement_fault(old(self)@, false) is None,
        ensures
            r@ == unnamed_instruction(TypeView::Void, InstructionTypeView::Unreachable),
            final(self)@ == old(self)@.after_insert(r@),
            old(self)@.wf() ==> final(self)@.wf(),
            old(self)@.module.printable() ==> final(self)@.module.printable(),
    {
        let ty = self.get_void_type();
        self.build_unnamed(ty, InstructionType::Unreachable)
    }

    // Checks.

    /// Reports the fault of placing an instruction, named by the block where
    /// `auto_named` holds.
    pub fn check_placement(&self, auto_named: bool) -> (r: Result<(), Fault>)
        ensures
            match r {
                Ok(_) => placement_fault(self@, auto_named) is None,
                Err(fault) => placement_fault(self@, auto_named) == Some(fault@),
            },
    {
        match self.ctx.get_insertion_point() {
            None => Err(Fault::NoInsertionPoint),
            Some(at) => match self.ctx.get_module().get_block(at) {
                Some(block) => {
                    if auto_named && block.get_inst_count() >= usize::MAX {
                        Err(Fault::NamesExhausted)
                    } else {
                        Ok(())
                    }
                },
                None => Err(Fault::UnknownBlock),
            },
        }
    }

    /// Reports the fault of a return of a value of the type `found`, or of a
    /// return without a value where `found` is void.
    pub fn check_return(&self, found: &Type) -> (r: Result<(), Fault>)
        ensures
            match r {
                Ok(_) => return_fault(self@, found@) is None,
                Err(fault) => return_fault(self@, found@) == Some(fault@),
            },
    {
        match self.check_placement(false) {
            Err(fault) => Err(fault),
            Ok(_) => {
                let at = match self.ctx.get_insertion_point() {
                    Some(at) => at,
                    None => vstd::pervasive::unreached(),
                };
                match self.ctx.get_module().get_function(at.function) {
                    Some(function) => {
                        let declared = function.get_function_return_type();
                        check_same_type(&declared, found)
                    },
                    None => vstd::pervasive::unreached(),
                }
            },
        }
    }

    // Emission.

    /// The text of the assembly file of the module, or the reason why there is none.
    pub fn emit_assembly(&self) -> (r: Result<String, Error>)
        ensures
            match target_assembly(self@) {
                Ok(text) => r is Ok && r->Ok_0@ == text,
                Err(e) => r == Err::<String, Error>(e),
            },
    {
        let mut emitter = AssemblyEmitter::new(self.ctx.clone());
        emitter.emit_module()
    }

    /// Reports the fault of adding a block to the function that `function` names.
    pub fn check_block(&self, function: FunctionRef) -> (r: Result<(), Fault>)
        ensures
            match r {
                Ok(_) => block_fault(self@.module, function) is None,
                Err(fault) => block_fault(self@.module, function) == Some(fault@),
            },
    {
        match self.ctx.get_module().get_function(function) {
            None => Err(Fault::UnknownFunction),
            Some(target) => {
                if target.is_external() {
                    Err(Fault::ExternalFunction)
                } else {
                    Ok(())
                }
            },
        }
    }
}

/// The return type of the function that the callee of a call points to.
fn callee_return_type(kind: &InstructionType) -> (r: Type)
    requires
        kind@ is Call,
        kind@->Call_0.ty().is_function_pointer(),
    ensures
        r@ == call_result(kind@->Call_0.ty()),
{
    match kind {
        InstructionType::Call(callee, _) => {
            let function = callee.get_type().get_pointer_element_type();
            function.get_function_return_type()
        },
        _ => vstd::pervasive::unreached(),
    }
}

} // verus!
