use sslb::ir::linkage::Linkage;
use sslb::ir::values::basic_block::{BasicBlock, BlockRef};
use sslb::ir::values::function::{Function, FunctionRef};
use sslb::ir::values::instruction::{Instruction, InstructionType};
use sslb::ir::values::value::{Type, Value, ValueEntity};

fn i32_type() -> Type {
    Type::Integer(32)
}

fn const32(v: i32) -> ValueEntity {
    ValueEntity::Instruction(Instruction::new(i32_type(), InstructionType::ConstantInt32(v), None))
}

fn named(ty: Type, name: &str) -> ValueEntity {
    ValueEntity::Instruction(Instruction::new(ty, InstructionType::Unreachable, Some(name.to_string())))
}

fn boxed(e: ValueEntity) -> Box<ValueEntity> {
    Box::new(e)
}

fn block(name: &str) -> BasicBlock {
    BasicBlock::new(name.to_string(), FunctionRef { index: 0 })
}

#[test]
fn value_keeps_type_and_name() {
    let v = Value::new(i32_type(), "x".to_string());
    assert!(v.get_type() == i32_type());
    assert_eq!(v.get_name(), "x");
    assert_eq!(v.to_string(), "x");
    assert!(v.get_use_list().is_empty());
}

#[test]
fn use_list_only_grows() {
    let mut v = Value::new(i32_type(), "x".to_string());
    v.add_use(Value::new(Type::Void, "a".to_string()));
    v.add_use(Value::new(Type::Branch, "b".to_string()));
    assert_eq!(v.get_use_list().len(), 2);
    assert_eq!(v.get_use_list()[0].get_name(), "a");
    assert_eq!(v.get_use_list()[1].get_name(), "b");
    assert!(v.get_use_list()[1].get_type() == Type::Branch);
    assert_eq!(v.get_name(), "x");
    assert!(v.get_type() == i32_type());
    let copy = v.clone();
    assert_eq!(copy.get_use_list().len(), 2);
    assert_eq!(copy.get_use_list()[0].get_name(), "a");
    assert_eq!(copy.get_name(), "x");
}

#[test]
fn linkage_equality() {
    let all = [
        Linkage::ExternalLinkage,
        Linkage::InternalLinkage,
        Linkage::PrivateLinkage,
        Linkage::ExternalWeakLinkage,
        Linkage::CommonLinkage,
        Linkage::AppendingLinkage,
        Linkage::LinkonceLinkage,
        Linkage::WeakLinkage,
    ];
    for (x, a) in all.iter().enumerate() {
        for (y, b) in all.iter().enumerate() {
            assert_eq!(a == b, x == y);
        }
    }
}

#[test]
fn linkage_words() {
    assert_eq!(Linkage::ExternalLinkage.as_str(), "external");
    assert_eq!(Linkage::InternalLinkage.as_str(), "internal");
    assert_eq!(Linkage::PrivateLinkage.as_str(), "private");
    assert_eq!(Linkage::ExternalWeakLinkage.as_str(), "external weak");
    assert_eq!(Linkage::CommonLinkage.as_str(), "common");
    assert_eq!(Linkage::AppendingLinkage.as_str(), "appending");
    assert_eq!(Linkage::LinkonceLinkage.as_str(), "linkonce");
    assert_eq!(Linkage::WeakLinkage.as_str(), "weak");
}

#[test]
fn instruction_without_name_has_empty_name() {
    let inst = Instruction::new(Type::Void, InstructionType::Unreachable, None);
    assert_eq!(inst.get_name(), "");
    assert!(inst.get_type() == Type::Void);
    assert!(matches!(inst.instruction_type(), InstructionType::Unreachable));
}

#[test]
fn constants_stand_as_their_literal() {
    let name = |kind: InstructionType| Instruction::new(i32_type(), kind, Some("n".to_string())).get_name();
    assert_eq!(name(InstructionType::ConstantInt32(7)), "7");
    assert_eq!(name(InstructionType::ConstantInt32(-7)), "-7");
    assert_eq!(name(InstructionType::ConstantInt32(i32::MIN)), "-2147483648");
    assert_eq!(name(InstructionType::ConstantInt64(i64::MAX)), "9223372036854775807");
    assert_eq!(name(InstructionType::ConstantInt64(i64::MIN)), "-9223372036854775808");
    assert_eq!(name(InstructionType::ConstantBool(true)), "true");
    assert_eq!(name(InstructionType::ConstantBool(false)), "false");
    assert_eq!(name(InstructionType::VoidReturn), "n");
}

#[test]
fn constants_render_as_their_literal() {
    let text = |kind: InstructionType| Instruction::new(i32_type(), kind, None).to_string();
    assert_eq!(text(InstructionType::ConstantInt32(0)), "0");
    assert_eq!(text(InstructionType::ConstantInt32(-12)), "-12");
    assert_eq!(text(InstructionType::ConstantInt64(1 << 40)), "1099511627776");
    assert_eq!(text(InstructionType::ConstantBool(true)), "true");
    assert_eq!(text(InstructionType::ConstantBool(false)), "false");
}

#[test]
fn binary_instructions_render() {
    let make: Vec<(&str, fn(Box<ValueEntity>, Box<ValueEntity>) -> InstructionType)> = vec![
        ("add", InstructionType::Add),
        ("sub", InstructionType::Sub),
        ("mul", InstructionType::Mul),
        ("div", InstructionType::Div),
        ("rem", InstructionType::Rem),
        ("shl", InstructionType::Shl),
        ("shr", InstructionType::Shr),
        ("and", InstructionType::And),
        ("or", InstructionType::Or),
        ("xor", InstructionType::Xor),
        ("eq", InstructionType::Eq),
        ("ne", InstructionType::Ne),
        ("lt", InstructionType::Lt),
        ("le", InstructionType::Le),
        ("gt", InstructionType::Gt),
        ("ge", InstructionType::Ge),
    ];
    for (word, ctor) in make {
        let kind = ctor(boxed(named(i32_type(), "%a")), boxed(const32(2)));
        let inst = Instruction::new(i32_type(), kind, Some("%r".to_string()));
        assert_eq!(inst.to_string(), format!("%r = {} i32 %a, 2", word));
    }
}

#[test]
fn binary_instruction_prints_the_type_of_its_first_operand() {
    let kind = InstructionType::Eq(boxed(named(Type::Float(64), "%x")), boxed(named(i32_type(), "%y")));
    let inst = Instruction::new(Type::Integer(1), kind, Some("%c".to_string()));
    assert_eq!(inst.to_string(), "%c = eq f64 %x, %y");
}

#[test]
fn unary_instructions_render() {
    let p = Type::Pointer(Box::new(i32_type()));
    let neg = Instruction::new(i32_type(), InstructionType::Neg(boxed(const32(5))), Some("%n".to_string()));
    assert_eq!(neg.to_string(), "%n = neg i32 5");
    let not = Instruction::new(Type::Integer(1), InstructionType::Not(boxed(named(i32_type(), "%a"))), Some("%m".to_string()));
    assert_eq!(not.to_string(), "%m = not i32 %a");
    let load = Instruction::new(i32_type(), InstructionType::Load(boxed(named(p, "%p"))), Some("%v".to_string()));
    assert_eq!(load.to_string(), "%v = load i32* %p");
}

#[test]
fn memory_and_control_instructions_render() {
    let p = Type::Pointer(Box::new(i32_type()));
    let store = Instruction::new(
        Type::Void,
        InstructionType::Store(boxed(named(p, "%p")), boxed(const32(3))),
        None,
    );
    assert_eq!(store.to_string(), "store i32* %p, 3");
    let ret = Instruction::new(Type::Void, InstructionType::Return(boxed(named(i32_type(), "%0"))), None);
    assert_eq!(ret.to_string(), "return i32 %0");
    let void_ret = Instruction::new(Type::Void, InstructionType::VoidReturn, None);
    assert_eq!(void_ret.to_string(), "return void");
    let unreachable = Instruction::new(Type::Void, InstructionType::Unreachable, None);
    assert_eq!(unreachable.to_string(), "unreachable");
    let target = ValueEntity::BasicBlock(block("exit"));
    let branch = Instruction::new(Type::Void, InstructionType::Branch(boxed(target.clone())), None);
    assert_eq!(branch.to_string(), "branch exit");
    let branch_if = Instruction::new(
        Type::Void,
        InstructionType::BranchIf(boxed(named(Type::Integer(1), "%c")), boxed(target)),
        None,
    );
    assert_eq!(branch_if.to_string(), "branch %c exit");
}

#[test]
fn call_renders_its_arguments() {
    let f = Type::Pointer(Box::new(Type::FunctionType(vec![i32_type(), i32_type()], Box::new(i32_type()))));
    let call = Instruction::new(
        i32_type(),
        InstructionType::Call(boxed(named(f.clone(), "%f")), vec![boxed(const32(1)), boxed(named(i32_type(), "%a"))]),
        Some("%r".to_string()),
    );
    assert_eq!(call.to_string(), "%r = call i32, i32 -> i32* %f(1, %a, )");
    let none = Instruction::new(
        i32_type(),
        InstructionType::Call(boxed(named(f, "%f")), vec![]),
        Some("%r".to_string()),
    );
    assert_eq!(none.to_string(), "%r = call i32, i32 -> i32* %f()");
}

#[test]
fn phi_renders_values_in_full_and_blocks_by_name() {
    let sum = ValueEntity::Instruction(Instruction::new(
        i32_type(),
        InstructionType::Add(boxed(const32(1)), boxed(const32(2))),
        Some("%s".to_string()),
    ));
    let phi = Instruction::new(
        i32_type(),
        InstructionType::Phi(vec![
            (boxed(sum), boxed(ValueEntity::BasicBlock(block("left")))),
            (boxed(const32(9)), boxed(ValueEntity::BasicBlock(block("right")))),
        ]),
        Some("%p".to_string()),
    );
    assert_eq!(phi.to_string(), "%p = phi i32 %s = add i32 1, 2, left, 9, right, ");
}

#[test]
fn instruction_clone_renders_alike() {
    let inst = Instruction::new(
        i32_type(),
        InstructionType::Add(boxed(const32(1)), boxed(named(i32_type(), "%a"))),
        Some("%r".to_string()),
    );
    let copy = inst.clone();
    assert_eq!(copy.to_string(), inst.to_string());
    assert_eq!(copy.get_name(), "%r");
    assert!(copy.get_type() == i32_type());
    assert!(matches!(copy.instruction_type().clone(), InstructionType::Add(_, _)));
}

#[test]
fn new_block_is_empty() {
    let b = BasicBlock::new("entry".to_string(), FunctionRef { index: 3 });
    assert_eq!(b.get_name(), "entry");
    assert!(b.get_type() == Type::Branch);
    assert!(b.get_type().is_branch());
    assert!(b.get_instructions().is_empty());
    assert_eq!(b.get_parent(), FunctionRef { index: 3 });
    assert_eq!(b.get_inst_count(), 0);
    assert_eq!(b.get_value().get_name(), "entry");
    assert_eq!(b.to_string(), "entry:\n");
}

#[test]
fn block_hands_out_names_in_order() {
    let mut b = block("entry");
    let names: Vec<String> = (0..12).map(|_| b.get_new_instruction_name()).collect();
    let expected: Vec<String> = (0..12).map(|n| format!("{}", n)).collect();
    assert_eq!(names, expected);
    assert_eq!(b.get_inst_count(), 12);
    assert!(b.get_instructions().is_empty());
    let mut other = block("other");
    assert_eq!(other.get_new_instruction_name(), "0");
}

#[test]
fn block_keeps_instructions_in_order() {
    let mut b = block("entry");
    b.insert(const32(1));
    b.insert(named(Type::Void, "%x"));
    assert_eq!(b.get_instructions().len(), 2);
    assert_eq!(b.get_instructions()[0].get_name(), "1");
    assert_eq!(b.get_instructions()[1].get_name(), "%x");
    assert_eq!(b.get_inst_count(), 0);
    assert_eq!(b.to_string(), "entry:\n  1\n  unreachable\n");
    b.get_instructions_mut().pop();
    assert_eq!(b.get_instructions().len(), 1);
    b.get_value_mut().add_use(Value::new(Type::Void, "u".to_string()));
    assert_eq!(b.get_value().get_use_list().len(), 1);
    assert_eq!(b.get_name(), "entry");
}

#[test]
fn block_ref_is_a_pair_of_indices() {
    let r = BlockRef { function: FunctionRef { index: 1 }, index: 2 };
    assert_eq!(r, BlockRef { function: FunctionRef { index: 1 }, index: 2 });
    assert!(r != BlockRef { function: FunctionRef { index: 2 }, index: 2 });
    assert!(r != BlockRef { function: FunctionRef { index: 1 }, index: 1 });
}

#[test]
fn function_from_parameters() {
    let params = vec![Value::new(i32_type(), "a".to_string()), Value::new(Type::Float(64), "b".to_string())];
    let f = Function::new("f".to_string(), params, Type::Void, false, Linkage::InternalLinkage);
    assert_eq!(f.get_name(), "f");
    assert!(f.get_type() == Type::FunctionType(vec![i32_type(), Type::Float(64)], Box::new(Type::Void)));
    assert!(f.get_function_return_type() == Type::Void);
    assert!(!f.is_external());
    assert!(!f.is_var_arg());
    assert!(*f.get_linkage() == Linkage::InternalLinkage);
    assert!(f.get_blocks().is_empty());
    assert_eq!(f.get_param("b").unwrap().get_name(), "b");
    assert!(f.get_param("b").unwrap().get_type() == Type::Float(64));
    assert!(f.get_param("c").is_none());
    assert_eq!(f.get_param_by_index(0).unwrap().get_name(), "a");
    assert!(f.get_param_by_index(2).is_none());
}

#[test]
fn function_from_type() {
    let ty = Type::FunctionType(vec![Type::Pointer(Box::new(Type::Integer(8)))], Box::new(i32_type()));
    let f = Function::create("printf".to_string(), ty.clone(), Linkage::ExternalLinkage, true);
    assert!(f.get_type() == ty);
    assert!(f.get_function_return_type() == i32_type());
    assert!(f.is_external());
    assert!(f.is_var_arg());
    assert!(f.get_param_by_index(0).is_none());
    assert!(f.get_blocks().is_empty());
}

#[test]
fn only_external_linkage_is_external() {
    for linkage in [
        Linkage::InternalLinkage,
        Linkage::PrivateLinkage,
        Linkage::ExternalWeakLinkage,
        Linkage::CommonLinkage,
        Linkage::AppendingLinkage,
        Linkage::LinkonceLinkage,
        Linkage::WeakLinkage,
    ] {
        let ty = Type::FunctionType(vec![], Box::new(Type::Void));
        assert!(!Function::create("f".to_string(), ty, linkage, false).is_external());
    }
}

#[test]
fn function_finds_the_first_block_of_a_name() {
    let ty = Type::FunctionType(vec![], Box::new(Type::Void));
    let mut f = Function::create("f".to_string(), ty, Linkage::InternalLinkage, false);
    let mut first = block("a");
    first.insert(const32(1));
    f.add_block(first);
    f.add_block(block("b"));
    f.add_block(block("a"));
    assert_eq!(f.get_blocks().len(), 3);
    assert_eq!(f.get_block("a").unwrap().get_instructions().len(), 1);
    assert_eq!(f.get_block("b").unwrap().get_name(), "b");
    assert!(f.get_block("c").is_none());
    assert!(f.get_block("").is_none());
    f.get_block_mut("a").unwrap().insert(const32(2));
    assert_eq!(f.get_blocks()[0].get_instructions().len(), 2);
    assert_eq!(f.get_blocks()[2].get_instructions().len(), 0);
    assert!(f.get_block_mut("z").is_none());
    assert_eq!(f.get_block_by_index(1).unwrap().get_name(), "b");
    assert!(f.get_block_by_index(3).is_none());
    f.get_block_by_index_mut(2).unwrap().insert(const32(3));
    assert_eq!(f.get_blocks()[2].get_instructions().len(), 1);
    assert!(f.get_block_by_index_mut(3).is_none());
}

#[test]
fn function_parameters_can_be_changed() {
    let params = vec![Value::new(i32_type(), "a".to_string()), Value::new(i32_type(), "a".to_string())];
    let mut f = Function::new("f".to_string(), params, Type::Void, false, Linkage::PrivateLinkage);
    f.get_param_mut("a").unwrap().add_use(Value::new(Type::Void, "u".to_string()));
    assert_eq!(f.get_param_by_index(0).unwrap().get_use_list().len(), 1);
    assert_eq!(f.get_param_by_index(1).unwrap().get_use_list().len(), 0);
    f.get_param_by_index_mut(1).unwrap().add_use(Value::new(Type::Void, "w".to_string()));
    assert_eq!(f.get_param_by_index(1).unwrap().get_use_list().len(), 1);
    assert!(f.get_param_mut("b").is_none());
    assert!(f.get_param_by_index_mut(2).is_none());
}

#[test]
fn declaration_renders_on_one_line() {
    let ty = Type::FunctionType(vec![Type::Pointer(Box::new(Type::Integer(8)))], Box::new(i32_type()));
    let printf = Function::create("printf".to_string(), ty.clone(), Linkage::ExternalLinkage, true);
    assert_eq!(printf.to_string(), "declare external function @printf(...) -> i32\n");
    let puts = Function::create("puts".to_string(), ty, Linkage::ExternalLinkage, false);
    assert_eq!(puts.to_string(), "declare external function @puts() -> i32\n");
}

#[test]
fn parameters_render_with_their_types() {
    let params = vec![Value::new(i32_type(), "a".to_string()), Value::new(Type::Float(64), "b".to_string())];
    let f = Function::new("f".to_string(), params.clone(), Type::Void, false, Linkage::ExternalLinkage);
    assert_eq!(f.to_string(), "declare external function @f(a: i32, b: f64, ) -> void\n");
    let g = Function::new("g".to_string(), params, Type::Void, true, Linkage::ExternalLinkage);
    assert_eq!(g.to_string(), "declare external function @g(a: i32, b: f64, , ...) -> void\n");
}

#[test]
fn definition_renders_its_blocks() {
    let ty = Type::FunctionType(vec![], Box::new(i32_type()));
    let mut f = Function::create("main".to_string(), ty.clone(), Linkage::InternalLinkage, false);
    assert_eq!(f.to_string(), "define internal function @main() -> i32 {\n}\n");
    let mut entry = block("entry");
    entry.insert(ValueEntity::Instruction(Instruction::new(
        Type::Void,
        InstructionType::Return(boxed(const32(0))),
        None,
    )));
    f.add_block(entry);
    assert_eq!(f.to_string(), "define internal function @main() -> i32 {\nentry:\n  return i32 0\n}\n");
    f.add_block(block("exit"));
    assert_eq!(
        f.to_string(),
        "define internal function @main() -> i32 {\nentry:\n  return i32 0\n\nexit:\n}\n"
    );
    let weak = Function::create("w".to_string(), ty, Linkage::ExternalWeakLinkage, false);
    assert_eq!(weak.to_string(), "define external weak function @w() -> i32 {\n}\n");
}

#[test]
fn entity_reads_through_to_its_content() {
    let ty = Type::FunctionType(vec![], Box::new(i32_type()));
    let f = ValueEntity::from(Function::create("f".to_string(), ty.clone(), Linkage::ExternalLinkage, false));
    assert!(f.get_type() == ty);
    assert_eq!(f.get_name(), "f");
    assert_eq!(f.get_as_ref(), "f");
    assert_eq!(f.to_string(), "declare external function @f() -> i32\n");
    let b = ValueEntity::from(block("entry"));
    assert!(b.get_type() == Type::Branch);
    assert_eq!(b.get_name(), "entry");
    assert_eq!(b.to_string(), "entry:\n");
    let i = ValueEntity::from(Instruction::new(i32_type(), InstructionType::ConstantInt32(4), None));
    assert!(i.get_type() == i32_type());
    assert_eq!(i.get_name(), "4");
    assert_eq!(i.get_as_ref(), "4");
    assert_eq!(i.to_string(), "4");
    assert!(matches!(f, ValueEntity::Function(_)));
    assert!(matches!(b, ValueEntity::BasicBlock(_)));
    assert!(matches!(i, ValueEntity::Instruction(_)));
}

#[test]
fn entity_clone_renders_alike() {
    let ty = Type::FunctionType(vec![], Box::new(i32_type()));
    let mut f = Function::create("f".to_string(), ty, Linkage::InternalLinkage, false);
    let mut entry = block("entry");
    entry.insert(const32(1));
    f.add_block(entry);
    let e = ValueEntity::Function(f);
    assert_eq!(e.clone().to_string(), e.to_string());
    assert_eq!(e.to_string(), "define internal function @f() -> i32 {\nentry:\n  1\n}\n");
}

#[test]
fn only_an_empty_phi_cannot_be_rendered() {
    let empty = Instruction::new(i32_type(), InstructionType::Phi(vec![]), Some("%p".to_string()));
    assert!(!empty.is_printable());
    let full = Instruction::new(
        i32_type(),
        InstructionType::Phi(vec![(boxed(const32(1)), boxed(ValueEntity::BasicBlock(block("left"))))]),
        Some("%p".to_string()),
    );
    assert!(full.is_printable());
    let nested = Instruction::new(
        i32_type(),
        InstructionType::Phi(vec![
            (boxed(const32(1)), boxed(ValueEntity::BasicBlock(block("left")))),
            (boxed(ValueEntity::Instruction(empty.clone())), boxed(ValueEntity::BasicBlock(block("right")))),
        ]),
        Some("%q".to_string()),
    );
    assert!(!nested.is_printable());
    let as_block = Instruction::new(
        i32_type(),
        InstructionType::Phi(vec![(boxed(const32(1)), boxed(ValueEntity::Instruction(empty.clone())))]),
        Some("%r".to_string()),
    );
    assert!(as_block.is_printable());
    let operand = Instruction::new(
        i32_type(),
        InstructionType::Add(boxed(ValueEntity::Instruction(empty.clone())), boxed(const32(2))),
        Some("%s".to_string()),
    );
    assert!(operand.is_printable());
    assert_eq!(operand.to_string(), "%s = add i32 %p, 2");
    assert!(Instruction::new(Type::Void, InstructionType::Unreachable, None).is_printable());
    assert!(!ValueEntity::Instruction(empty).is_printable());
    assert!(ValueEntity::Instruction(full).is_printable());
}

#[test]
fn a_block_can_be_rendered_where_its_instructions_can() {
    let mut b = block("entry");
    assert!(b.is_printable());
    b.insert(const32(1));
    assert!(b.is_printable());
    assert!(ValueEntity::BasicBlock(b.clone()).is_printable());
    b.insert(ValueEntity::Instruction(Instruction::new(i32_type(), InstructionType::Phi(vec![]), None)));
    assert!(!b.is_printable());
    assert!(!ValueEntity::BasicBlock(b).is_printable());
}

#[test]
fn a_function_can_be_rendered_where_its_blocks_can() {
    let ty = Type::FunctionType(vec![], Box::new(Type::Void));
    let mut f = Function::create("f".to_string(), ty.clone(), Linkage::InternalLinkage, false);
    assert!(f.is_printable());
    f.add_block(block("entry"));
    assert!(f.is_printable());
    let mut bad = block("bad");
    bad.insert(ValueEntity::Instruction(Instruction::new(i32_type(), InstructionType::Phi(vec![]), None)));
    f.add_block(bad);
    assert!(!f.is_printable());
    assert!(!ValueEntity::Function(f).is_printable());
    let declared = Function::create("g".to_string(), ty, Linkage::ExternalLinkage, false);
    assert!(declared.is_printable());
    assert!(ValueEntity::Function(declared).is_printable());
}
