use sslb::ir::builder::fault::{
    check_arithmetic, check_bitwise, check_branch_if, check_call, check_kind, check_phi,
    check_same_type, check_store, Fault, TypeKind,
};
use sslb::ir::builder::{Builder, IRContext};
use sslb::ir::linkage::Linkage;
use sslb::ir::module::Module;
use sslb::ir::values::basic_block::BlockRef;
use sslb::ir::values::function::FunctionRef;
use sslb::ir::values::instruction::{Instruction, InstructionType};
use sslb::ir::values::value::{Type, ValueEntity};
use sslb::targets::triple::{Arch, TargetOS, Vendor};
use sslb::targets::{DataLayout, TargetTriple};

fn builder() -> Builder {
    let triple = TargetTriple::from_parts(Arch::X86_64, Vendor::Unknown, TargetOS::Linux);
    let module = Module::new("test", DataLayout::from_triple(&triple), triple);
    Builder::new(IRContext::new(module))
}

/// A builder whose insertion point is the entry block of `main() -> ret`.
fn builder_in_main(ret: Type) -> (Builder, FunctionRef, BlockRef) {
    let mut b = builder();
    let main = b.create_function("main", vec![], ret, Linkage::InternalLinkage, false);
    let entry = b.create_block("entry", main);
    b.set_insertion_point(entry);
    (b, main, entry)
}

fn block_text(b: &Builder, at: BlockRef) -> String {
    b.get_module().get_block(at).unwrap().to_string()
}

fn value(ty: Type, name: &str) -> ValueEntity {
    ValueEntity::Instruction(Instruction::new(ty, InstructionType::Unreachable, Some(name.to_string())))
}

fn block_value(b: &Builder, at: BlockRef) -> ValueEntity {
    ValueEntity::BasicBlock(b.get_module().get_block(at).unwrap().clone())
}

fn sample_types() -> Vec<Type> {
    vec![
        Type::Integer(1),
        Type::Integer(32),
        Type::Integer(64),
        Type::Float(32),
        Type::Float(64),
        Type::Pointer(Box::new(Type::Integer(32))),
        Type::Array(2, Box::new(Type::Integer(32))),
        Type::Struct(vec![Type::Integer(32)]),
        Type::FunctionType(vec![], Box::new(Type::Integer(32))),
        Type::Void,
        Type::Branch,
    ]
}

#[test]
fn type_constructors() {
    let b = builder();
    assert!(b.get_void_type() == Type::Void);
    assert!(b.get_bool_type() == Type::Integer(1));
    assert!(b.get_i8_type() == Type::Integer(8));
    assert!(b.get_i16_type() == Type::Integer(16));
    assert!(b.get_i32_type() == Type::Integer(32));
    assert!(b.get_i64_type() == Type::Integer(64));
    assert!(b.get_i128_type() == Type::Integer(128));
    assert!(b.get_int_n_type(7) == Type::Integer(7));
    assert!(b.get_f32_type() == Type::Float(32));
    assert!(b.get_f64_type() == Type::Float(64));
    assert!(b.get_branch_type() == Type::Branch);
    assert!(b.get_i8_ptr_type() == Type::Pointer(Box::new(Type::Integer(8))));
    assert!(b.get_pointer_type(Type::Void) == Type::Pointer(Box::new(Type::Void)));
    assert!(b.get_array_type(Type::Integer(8), 4) == Type::Array(4, Box::new(Type::Integer(8))));
    assert!(
        b.get_function_type(Type::Void, vec![Type::Integer(8), Type::Float(32)])
            == Type::FunctionType(vec![Type::Integer(8), Type::Float(32)], Box::new(Type::Void))
    );
}

#[test]
fn constants() {
    let b = builder();
    let c = b.get_i32(-3);
    assert!(c.get_type() == Type::Integer(32));
    assert_eq!(c.get_name(), "-3");
    let c = b.get_i64(1 << 40);
    assert!(c.get_type() == Type::Integer(64));
    assert_eq!(c.get_name(), "1099511627776");
    let c = b.get_bool(true);
    assert!(c.get_type() == Type::Integer(1));
    assert_eq!(c.get_name(), "true");
    assert!(b.get_module().get_functions().is_empty());
}

#[test]
fn main_that_returns_a_sum_renders() {
    let (mut b, _, _) = builder_in_main(Type::Integer(32));
    let sum = b.add(b.get_i32(1), b.get_i32(2), None);
    assert_eq!(sum.get_name(), "%0");
    assert!(sum.get_type() == Type::Integer(32));
    b.ret(sum.into());
    let text = b.get_module().to_string();
    assert!(text.contains("define internal function @main() -> i32"));
    assert!(text.contains("  %0 = add i32 1, 2\n"));
    assert!(text.contains("return i32 %0"));
    assert_eq!(
        text,
        "# ModuleID = 'test'\nsource_name = \"test\"\ntarget datalayout = \"p:8:8\"\ntarget triple = \"x86_64-unknown-linux\"\n\n\
         define internal function @main() -> i32 {\nentry:\n  %0 = add i32 1, 2\n  return i32 %0\n}\n\n"
    );
}

#[test]
fn external_function_takes_no_block() {
    let mut b = builder();
    let printf = b.create_function(
        "printf",
        vec![b.get_i8_ptr_type()],
        b.get_i32_type(),
        Linkage::ExternalLinkage,
        true,
    );
    assert!(matches!(b.check_block(printf), Err(Fault::ExternalFunction)));
    let f = b.get_module().get_function(printf).unwrap();
    assert!(f.is_external());
    assert!(f.is_var_arg());
    assert!(f.get_blocks().is_empty());
    assert!(
        f.get_type() == Type::FunctionType(vec![Type::Pointer(Box::new(Type::Integer(8)))], Box::new(Type::Integer(32)))
    );
    assert_eq!(f.to_string(), "declare external function @printf(...) -> i32\n");
    assert!(matches!(b.check_block(FunctionRef { index: 5 }), Err(Fault::UnknownFunction)));
    let main = b.create_function("main", vec![], Type::Void, Linkage::InternalLinkage, false);
    assert!(b.check_block(main).is_ok());
}

#[test]
fn every_other_linkage_takes_blocks() {
    for linkage in [
        Linkage::InternalLinkage,
        Linkage::PrivateLinkage,
        Linkage::ExternalWeakLinkage,
        Linkage::CommonLinkage,
        Linkage::AppendingLinkage,
        Linkage::LinkonceLinkage,
        Linkage::WeakLinkage,
    ] {
        let mut b = builder();
        let f = b.create_function("f", vec![], Type::Void, linkage, false);
        assert!(b.check_block(f).is_ok());
        let block = b.create_block("entry", f);
        assert_eq!(block, BlockRef { function: f, index: 0 });
        assert_eq!(b.get_module().get_function(f).unwrap().get_blocks().len(), 1);
    }
}

#[test]
fn conditional_branch_to_an_integer_is_a_fault() {
    let b = builder();
    let cond = b.get_bool(true).get_type();
    let target = b.get_i32(7).get_type();
    match check_branch_if(&cond, &target) {
        Err(Fault::WrongKind { kind, found }) => {
            assert_eq!(kind, TypeKind::Branch);
            assert!(found == Type::Integer(32));
        }
        _ => panic!("a fault was due"),
    }
    assert!(check_branch_if(&cond, &Type::Branch).is_ok());
    match check_branch_if(&Type::Float(32), &Type::Branch) {
        Err(Fault::WrongKind { kind, found }) => {
            assert_eq!(kind, TypeKind::Integer);
            assert!(found == Type::Float(32));
        }
        _ => panic!("a fault was due"),
    }
    assert!(matches!(
        check_branch_if(&Type::Float(32), &Type::Integer(1)),
        Err(Fault::WrongKind { kind: TypeKind::Integer, .. })
    ));
    assert!(matches!(check_kind(TypeKind::Branch, &target), Err(Fault::WrongKind { .. })));
}

#[test]
fn operands_of_different_types_are_a_fault() {
    let types = sample_types();
    for (x, lhs) in types.iter().enumerate() {
        for (y, rhs) in types.iter().enumerate() {
            if x == y {
                continue;
            }
            for result in [check_arithmetic(lhs, rhs), check_bitwise(lhs, rhs)] {
                match result {
                    Err(Fault::TypeMismatch { expected, found }) => {
                        assert!(expected == *lhs);
                        assert!(found == *rhs);
                    }
                    _ => panic!("a type mismatch was due"),
                }
            }
        }
    }
}

#[test]
fn operands_of_one_type_must_be_of_the_right_kind() {
    for t in sample_types() {
        let numeric = t.is_integer() || t.is_float();
        assert_eq!(check_arithmetic(&t, &t).is_ok(), numeric);
        assert_eq!(check_bitwise(&t, &t).is_ok(), t.is_integer());
        assert_eq!(check_kind(TypeKind::Numeric, &t).is_ok(), numeric);
        assert_eq!(check_kind(TypeKind::Integer, &t).is_ok(), t.is_integer());
        assert_eq!(check_kind(TypeKind::Pointer, &t).is_ok(), t.is_pointer());
        assert_eq!(check_kind(TypeKind::Branch, &t).is_ok(), t.is_branch());
        assert_eq!(check_kind(TypeKind::FunctionPointer, &t).is_ok(), false);
        assert!(check_same_type(&t, &t).is_ok());
    }
    assert!(matches!(
        check_arithmetic(&Type::Void, &Type::Void),
        Err(Fault::WrongKind { kind: TypeKind::Numeric, .. })
    ));
    assert!(matches!(
        check_bitwise(&Type::Float(32), &Type::Float(32)),
        Err(Fault::WrongKind { kind: TypeKind::Integer, .. })
    ));
    let fp = Type::Pointer(Box::new(Type::FunctionType(vec![], Box::new(Type::Void))));
    assert!(check_kind(TypeKind::FunctionPointer, &fp).is_ok());
}

#[test]
fn wrong_return_is_a_fault() {
    let (b, _, _) = builder_in_main(Type::Integer(32));
    assert!(b.check_return(&Type::Integer(32)).is_ok());
    for t in sample_types() {
        if t == Type::Integer(32) {
            continue;
        }
        match b.check_return(&t) {
            Err(Fault::TypeMismatch { expected, found }) => {
                assert!(expected == Type::Integer(32));
                assert!(found == t);
            }
            _ => panic!("a type mismatch was due"),
        }
    }
    assert!(matches!(b.check_return(&Type::Void), Err(Fault::TypeMismatch { .. })));
    let (v, _, _) = builder_in_main(Type::Void);
    assert!(v.check_return(&Type::Void).is_ok());
    assert!(matches!(v.check_return(&Type::Integer(32)), Err(Fault::TypeMismatch { .. })));
}

#[test]
fn nothing_is_placed_without_an_insertion_point() {
    let mut b = builder();
    assert!(matches!(b.check_placement(true), Err(Fault::NoInsertionPoint)));
    assert!(matches!(b.check_placement(false), Err(Fault::NoInsertionPoint)));
    assert!(matches!(b.check_return(&Type::Void), Err(Fault::NoInsertionPoint)));
    let main = b.create_function("main", vec![], Type::Void, Linkage::InternalLinkage, false);
    let entry = b.create_block("entry", main);
    assert!(matches!(b.check_placement(false), Err(Fault::NoInsertionPoint)));
    b.set_insertion_point(entry);
    assert!(b.check_placement(true).is_ok());
    assert!(b.check_placement(false).is_ok());
    assert_eq!(b.ctx.get_insertion_point(), Some(entry));
    b.ctx.clear_insertion_point();
    assert!(matches!(b.check_placement(false), Err(Fault::NoInsertionPoint)));
    assert_eq!(b.ctx.get_insertion_point(), None);
}

#[test]
fn nothing_is_placed_in_a_block_that_is_not_there() {
    let (mut b, main, _) = builder_in_main(Type::Void);
    b.ctx.insertion_point = Some(BlockRef { function: main, index: 1 });
    assert!(matches!(b.check_placement(false), Err(Fault::UnknownBlock)));
    assert!(matches!(b.check_placement(true), Err(Fault::UnknownBlock)));
    assert!(matches!(b.check_return(&Type::Void), Err(Fault::UnknownBlock)));
    b.ctx.insertion_point = Some(BlockRef { function: FunctionRef { index: 9 }, index: 0 });
    assert!(matches!(b.check_placement(false), Err(Fault::UnknownBlock)));
    b.ctx.insertion_point = Some(BlockRef { function: main, index: 0 });
    assert!(b.check_placement(false).is_ok());
}

#[test]
fn automatic_names_count_up_in_each_block() {
    let (mut b, main, entry) = builder_in_main(Type::Void);
    let other = b.create_block("other", main);
    let mut names = Vec::new();
    for _ in 0..11 {
        names.push(b.add(b.get_i32(1), b.get_i32(2), None).get_name());
    }
    let expected: Vec<String> = (0..11).map(|n| format!("%{}", n)).collect();
    assert_eq!(names, expected);
    b.set_insertion_point(other);
    assert_eq!(b.add(b.get_i32(1), b.get_i32(2), None).get_name(), "%0");
    assert_eq!(b.sub(b.get_i32(1), b.get_i32(2), None).get_name(), "%1");
    b.set_insertion_point(entry);
    assert_eq!(b.mul(b.get_i32(1), b.get_i32(2), None).get_name(), "%11");
    assert_eq!(b.get_module().get_block(entry).unwrap().get_inst_count(), 12);
    assert_eq!(b.get_module().get_block(other).unwrap().get_inst_count(), 2);
}

#[test]
fn a_given_name_gets_the_sigil_and_uses_no_number() {
    let (mut b, _, entry) = builder_in_main(Type::Void);
    assert_eq!(b.add(b.get_i32(1), b.get_i32(2), Some("sum")).get_name(), "%sum");
    assert_eq!(b.get_module().get_block(entry).unwrap().get_inst_count(), 0);
    assert_eq!(b.add(b.get_i32(1), b.get_i32(2), None).get_name(), "%0");
    assert_eq!(b.get_block_inst_name(Some("x")), Some("%x".to_string()));
    assert_eq!(b.get_block_inst_name(Some("")), Some("%".to_string()));
    assert_eq!(b.get_block_inst_name(None), Some("%1".to_string()));
    assert_eq!(b.get_block_inst_name(None), Some("%2".to_string()));
    assert_eq!(b.get_module().get_block(entry).unwrap().get_inst_count(), 3);
    assert_eq!(b.get_module().get_block(entry).unwrap().get_instructions().len(), 2);
}

#[test]
fn a_given_name_needs_no_insertion_point() {
    let mut b = builder();
    assert_eq!(b.get_block_inst_name(Some("x")), Some("%x".to_string()));
}

#[test]
fn arithmetic_keeps_the_operand_type() {
    let (mut b, _, entry) = builder_in_main(Type::Void);
    let f = Type::Float(64);
    assert!(b.add(value(f.clone(), "%a"), value(f.clone(), "%b"), None).get_type() == f);
    assert!(b.sub(b.get_i64(1), b.get_i64(2), None).get_type() == Type::Integer(64));
    assert!(b.mul(b.get_i32(1), b.get_i32(2), None).get_type() == Type::Integer(32));
    assert!(b.div(b.get_i32(1), b.get_i32(2), None).get_type() == Type::Integer(32));
    assert!(b.rem(b.get_bool(true), b.get_bool(false), None).get_type() == Type::Integer(1));
    assert_eq!(
        block_text(&b, entry),
        "entry:\n  %0 = add f64 %a, %b\n  %1 = sub i64 1, 2\n  %2 = mul i32 1, 2\n  %3 = div i32 1, 2\n  %4 = rem i1 true, false\n"
    );
}

#[test]
fn shifts_and_xor_keep_the_operand_type_and_or_yield_a_truth_value() {
    let (mut b, _, entry) = builder_in_main(Type::Void);
    assert!(b.shl(b.get_i64(1), b.get_i64(2), None).get_type() == Type::Integer(64));
    assert!(b.shr(b.get_i64(1), b.get_i64(2), None).get_type() == Type::Integer(64));
    assert!(b.xor(b.get_i64(1), b.get_i64(2), None).get_type() == Type::Integer(64));
    assert!(b.and(b.get_i64(1), b.get_i64(2), None).get_type() == Type::Integer(1));
    assert!(b.or(b.get_i64(1), b.get_i64(2), None).get_type() == Type::Integer(1));
    assert_eq!(
        block_text(&b, entry),
        "entry:\n  %0 = shl i64 1, 2\n  %1 = shr i64 1, 2\n  %2 = xor i64 1, 2\n  %3 = and i64 1, 2\n  %4 = or i64 1, 2\n"
    );
}

#[test]
fn comparisons_yield_a_truth_value() {
    let (mut b, _, entry) = builder_in_main(Type::Void);
    let f = Type::Float(32);
    assert!(b.eq(b.get_i32(1), b.get_i32(2), None).get_type() == Type::Integer(1));
    assert!(b.ne(b.get_i32(1), b.get_i32(2), None).get_type() == Type::Integer(1));
    assert!(b.lt(b.get_i64(1), b.get_i64(2), None).get_type() == Type::Integer(1));
    assert!(b.le(b.get_i64(1), b.get_i64(2), None).get_type() == Type::Integer(1));
    assert!(b.gt(value(f.clone(), "%x"), value(f.clone(), "%y"), None).get_type() == Type::Integer(1));
    assert!(b.ge(value(f.clone(), "%x"), value(f.clone(), "%y"), Some("c")).get_type() == Type::Integer(1));
    assert_eq!(
        block_text(&b, entry),
        "entry:\n  %0 = eq i32 1, 2\n  %1 = ne i32 1, 2\n  %2 = lt i64 1, 2\n  %3 = le i64 1, 2\n  %4 = gt f32 %x, %y\n  %c = ge f32 %x, %y\n"
    );
}

#[test]
fn unary_operations() {
    let (mut b, _, entry) = builder_in_main(Type::Void);
    assert!(b.neg(b.get_i64(5), None).get_type() == Type::Integer(64));
    assert!(b.neg(value(Type::Float(32), "%f"), None).get_type() == Type::Float(32));
    assert!(b.not(b.get_i64(5), None).get_type() == Type::Integer(1));
    assert_eq!(block_text(&b, entry), "entry:\n  %0 = neg i64 5\n  %1 = neg f32 %f\n  %2 = not i64 5\n");
}

#[test]
fn load_takes_the_type_that_the_caller_gives() {
    let (mut b, _, entry) = builder_in_main(Type::Void);
    let p = b.get_pointer_type(b.get_i32_type());
    let loaded = b.load(b.get_i32_type(), value(p.clone(), "%p"), None);
    assert!(loaded.get_type() == Type::Integer(32));
    let other = b.load(b.get_f64_type(), value(p, "%p"), Some("v"));
    assert!(other.get_type() == Type::Float(64));
    assert_eq!(block_text(&b, entry), "entry:\n  %0 = load i32* %p\n  %v = load i32* %p\n");
}

#[test]
fn store_checks_the_pointee() {
    let (mut b, _, entry) = builder_in_main(Type::Void);
    let p = b.get_pointer_type(b.get_i32_type());
    assert!(check_store(&p, &Type::Integer(32)).is_ok());
    match check_store(&p, &Type::Integer(64)) {
        Err(Fault::TypeMismatch { expected, found }) => {
            assert!(expected == Type::Integer(32));
            assert!(found == Type::Integer(64));
        }
        _ => panic!("a type mismatch was due"),
    }
    assert!(matches!(
        check_store(&Type::Integer(32), &Type::Integer(32)),
        Err(Fault::WrongKind { kind: TypeKind::Pointer, .. })
    ));
    let stored = b.store(value(p, "%p"), b.get_i32(3));
    assert!(stored.get_type() == Type::Void);
    assert_eq!(stored.get_name(), "");
    assert_eq!(block_text(&b, entry), "entry:\n  store i32* %p, 3\n");
    assert_eq!(b.get_module().get_block(entry).unwrap().get_inst_count(), 0);
}

#[test]
fn call_checks_callee_and_arguments() {
    let i32t = Type::Integer(32);
    let f = Type::Pointer(Box::new(Type::FunctionType(vec![i32t.clone(), Type::Float(64)], Box::new(Type::Integer(8)))));
    assert!(check_call(&f, &vec![i32t.clone(), Type::Float(64)]).is_ok());
    assert!(check_call(&f, &vec![i32t.clone()]).is_ok());
    assert!(check_call(&f, &vec![]).is_ok());
    match check_call(&f, &vec![i32t.clone(), i32t.clone()]) {
        Err(Fault::TypeMismatch { expected, found }) => {
            assert!(expected == Type::Float(64));
            assert!(found == i32t);
        }
        _ => panic!("a type mismatch was due"),
    }
    match check_call(&f, &vec![i32t.clone(), Type::Float(64), i32t.clone()]) {
        Err(Fault::TooManyArguments { parameters, arguments }) => {
            assert_eq!((parameters, arguments), (2, 3));
        }
        _ => panic!("too many arguments were due"),
    }
    assert!(matches!(
        check_call(&f, &vec![Type::Void, Type::Void, Type::Void]),
        Err(Fault::TypeMismatch { .. })
    ));
    let not_pointer = Type::FunctionType(vec![], Box::new(Type::Void));
    assert!(matches!(
        check_call(&not_pointer, &vec![]),
        Err(Fault::WrongKind { kind: TypeKind::FunctionPointer, .. })
    ));
    assert!(matches!(
        check_call(&Type::Pointer(Box::new(i32t.clone())), &vec![]),
        Err(Fault::WrongKind { kind: TypeKind::FunctionPointer, .. })
    ));
}

#[test]
fn call_yields_the_return_type() {
    let (mut b, _, entry) = builder_in_main(Type::Void);
    let f = b.get_pointer_type(b.get_function_type(b.get_i8_type(), vec![b.get_i32_type(), b.get_i32_type()]));
    let call = b.call(value(f.clone(), "%f"), vec![b.get_i32(1), b.get_i32(2)], None);
    assert!(call.get_type() == Type::Integer(8));
    assert_eq!(call.get_name(), "%0");
    match call.instruction_type() {
        InstructionType::Call(callee, args) => {
            assert_eq!(callee.get_name(), "%f");
            assert_eq!(args.len(), 2);
            assert_eq!(args[0].get_name(), "1");
            assert_eq!(args[1].get_name(), "2");
        }
        _ => panic!("a call was due"),
    }
    b.call(value(f, "%f"), vec![], Some("r"));
    assert_eq!(
        block_text(&b, entry),
        "entry:\n  %0 = call i32, i32 -> i8* %f(1, 2, )\n  %r = call i32, i32 -> i8* %f()\n"
    );
}

#[test]
fn return_instructions() {
    let (mut b, _, entry) = builder_in_main(Type::Integer(64));
    let r = b.ret(b.get_i64(0));
    assert!(r.get_type() == Type::Void);
    assert_eq!(r.get_name(), "");
    assert_eq!(block_text(&b, entry), "entry:\n  return i64 0\n");
    let (mut v, _, entry) = builder_in_main(Type::Void);
    let r = v.void_ret();
    assert!(r.get_type() == Type::Void);
    assert!(matches!(r.instruction_type(), InstructionType::VoidReturn));
    let u = v.unreachable();
    assert!(u.get_type() == Type::Void);
    assert_eq!(block_text(&v, entry), "entry:\n  return void\n  unreachable\n");
}

#[test]
fn return_goes_by_the_enclosing_function() {
    let mut b = builder();
    let f = b.create_function("f", vec![], Type::Integer(32), Linkage::InternalLinkage, false);
    let g = b.create_function("g", vec![], Type::Void, Linkage::PrivateLinkage, false);
    let in_f = b.create_block("entry", f);
    let in_g = b.create_block("entry", g);
    b.set_insertion_point(in_f);
    assert!(b.check_return(&Type::Integer(32)).is_ok());
    assert!(b.check_return(&Type::Void).is_err());
    b.set_insertion_point(in_g);
    assert!(b.check_return(&Type::Integer(32)).is_err());
    assert!(b.check_return(&Type::Void).is_ok());
    b.void_ret();
    b.set_insertion_point(in_f);
    b.ret(b.get_i32(4));
    assert_eq!(block_text(&b, in_f), "entry:\n  return i32 4\n");
    assert_eq!(block_text(&b, in_g), "entry:\n  return void\n");
    assert_eq!(b.get_module().get_block(in_f).unwrap().get_parent(), f);
    assert_eq!(b.get_module().get_block(in_g).unwrap().get_parent(), g);
}

#[test]
fn branches_take_blocks() {
    let (mut b, main, entry) = builder_in_main(Type::Void);
    let exit = b.create_block("exit", main);
    assert_eq!(exit, BlockRef { function: main, index: 1 });
    let target = block_value(&b, exit);
    assert!(target.get_type() == Type::Branch);
    assert!(check_kind(TypeKind::Branch, &target.get_type()).is_ok());
    let cond = b.eq(b.get_i32(1), b.get_i32(2), None);
    let br = b.branch_if(cond.into(), target.clone());
    assert!(br.get_type() == Type::Void);
    let br = b.branch(target);
    assert!(br.get_type() == Type::Void);
    assert_eq!(block_text(&b, entry), "entry:\n  %0 = eq i32 1, 2\n  branch %0 exit\n  branch exit\n");
    assert_eq!(block_text(&b, exit), "exit:\n");
}

#[test]
fn phi_checks_its_incoming_values() {
    assert!(matches!(check_phi(&vec![]), Err(Fault::EmptyPhi)));
    assert!(check_phi(&vec![Type::Integer(32)]).is_ok());
    assert!(check_phi(&vec![Type::Integer(32), Type::Integer(32), Type::Integer(32)]).is_ok());
    match check_phi(&vec![Type::Integer(32), Type::Integer(32), Type::Float(32), Type::Void]) {
        Err(Fault::TypeMismatch { expected, found }) => {
            assert!(expected == Type::Integer(32));
            assert!(found == Type::Float(32));
        }
        _ => panic!("a type mismatch was due"),
    }
}

#[test]
fn phi_takes_the_type_of_its_values() {
    let (mut b, main, entry) = builder_in_main(Type::Void);
    let left = b.create_block("left", main);
    let right = b.create_block("right", main);
    let incoming = vec![(b.get_i64(1), block_value(&b, left)), (b.get_i64(2), block_value(&b, right))];
    let phi = b.phi(incoming);
    assert!(phi.get_type() == Type::Integer(64));
    assert_eq!(phi.get_name(), "");
    match phi.instruction_type() {
        InstructionType::Phi(pairs) => {
            assert_eq!(pairs.len(), 2);
            assert_eq!(pairs[0].0.get_name(), "1");
            assert_eq!(pairs[1].1.get_name(), "right");
        }
        _ => panic!("a phi was due"),
    }
    assert_eq!(block_text(&b, entry), "entry:\n   = phi i64 1, left, 2, right, \n");
}

#[test]
fn created_functions_get_unique_names() {
    let mut b = builder();
    let refs: Vec<FunctionRef> = (0..4)
        .map(|_| b.create_function("f", vec![], Type::Void, Linkage::InternalLinkage, false))
        .collect();
    assert_eq!(refs, (0..4).map(|index| FunctionRef { index }).collect::<Vec<_>>());
    let names: Vec<String> = b.get_module().get_functions().iter().map(|f| f.get_name()).collect();
    assert_eq!(names, vec!["f", "f.0", "f.1", "f.2"]);
    let g = b.create_function("g", vec![Type::Integer(8)], Type::Integer(16), Linkage::CommonLinkage, true);
    let made = b.get_module().get_function(g).unwrap();
    assert_eq!(made.get_name(), "g");
    assert!(made.get_type() == Type::FunctionType(vec![Type::Integer(8)], Box::new(Type::Integer(16))));
    assert!(*made.get_linkage() == Linkage::CommonLinkage);
    assert!(made.is_var_arg());
    assert!(made.get_param_by_index(0).is_none());
}

#[test]
fn block_names_are_kept_as_given() {
    let mut b = builder();
    let f = b.create_function("f", vec![], Type::Void, Linkage::InternalLinkage, false);
    let g = b.create_function("g", vec![], Type::Void, Linkage::InternalLinkage, false);
    let a = b.create_block("entry", f);
    let c = b.create_block("entry", g);
    let d = b.create_block("f", f);
    assert_eq!(b.get_module().get_block(a).unwrap().get_name(), "entry");
    assert_eq!(b.get_module().get_block(c).unwrap().get_name(), "entry");
    assert_eq!(b.get_module().get_block(d).unwrap().get_name(), "f");
    assert_eq!(d, BlockRef { function: f, index: 1 });
    assert_eq!(b.get_module().get_block(d).unwrap().get_parent(), f);
    assert!(b.get_module().get_block(d).unwrap().get_type() == Type::Branch);
}

#[test]
fn insert_appends_at_the_insertion_point() {
    let (mut b, main, entry) = builder_in_main(Type::Void);
    let other = b.create_block("other", main);
    b.insert(Instruction::new(Type::Void, InstructionType::Unreachable, None));
    b.set_insertion_point(other);
    b.insert(Instruction::new(Type::Void, InstructionType::VoidReturn, None));
    b.insert(Instruction::new(Type::Void, InstructionType::Unreachable, None));
    assert_eq!(block_text(&b, entry), "entry:\n  unreachable\n");
    assert_eq!(block_text(&b, other), "other:\n  return void\n  unreachable\n");
}

#[test]
fn results_chain_as_operands() {
    let (mut b, _, entry) = builder_in_main(Type::Integer(1));
    let sum = b.add(b.get_i32(1), b.get_i32(2), None);
    let twice = b.mul(sum.clone().into(), sum.into(), Some("twice"));
    let test = b.eq(twice.into(), b.get_i32(9), None);
    b.ret(test.into());
    assert_eq!(
        block_text(&b, entry),
        "entry:\n  %0 = add i32 1, 2\n  %twice = mul i32 %0, %0\n  %1 = eq i32 %twice, 9\n  return i1 %1\n"
    );
}

#[test]
fn fault_messages() {
    assert_eq!(Fault::NoInsertionPoint.to_string(), "cannot insert without insertion point");
    assert_eq!(Fault::UnknownBlock.to_string(), "no such block in the module");
    assert_eq!(Fault::NamesExhausted.to_string(), "no instruction name is left in the block");
    assert_eq!(Fault::UnknownFunction.to_string(), "no such function in the module");
    assert_eq!(Fault::ExternalFunction.to_string(), "cannot add block to external function");
    assert_eq!(Fault::EmptyPhi.to_string(), "phi without incoming values");
    assert_eq!(
        Fault::TypeMismatch { expected: Type::Integer(32), found: Type::Float(64) }.to_string(),
        "type mismatch: expected i32, found f64"
    );
    assert_eq!(
        Fault::WrongKind { kind: TypeKind::Branch, found: Type::Integer(32) }.to_string(),
        "wrong type kind: expected the branch type, found i32"
    );
    assert_eq!(
        Fault::WrongKind { kind: TypeKind::Numeric, found: Type::Void }.to_string(),
        "wrong type kind: expected an integer or float type, found void"
    );
    assert_eq!(TypeKind::Integer.as_str(), "an integer type");
    assert_eq!(TypeKind::Pointer.as_str(), "a pointer type");
    assert_eq!(TypeKind::FunctionPointer.as_str(), "a pointer to a function type");
    assert_eq!(
        Fault::TooManyArguments { parameters: 2, arguments: 3 }.to_string(),
        "too many arguments: expected 2, found 3"
    );
}

#[test]
fn built_modules_can_be_rendered() {
    let (mut b, main, _) = builder_in_main(Type::Void);
    assert!(b.get_module().is_printable());
    let left = b.create_block("left", main);
    let incoming = vec![(b.get_i64(1), block_value(&b, left))];
    assert!(incoming[0].0.is_printable());
    b.phi(incoming);
    b.add(b.get_i32(1), b.get_i32(2), None);
    b.void_ret();
    assert!(b.get_module().is_printable());
}

#[test]
fn the_name_table_alone_decides_the_name_of_a_new_function() {
    let mut b = builder();
    let ty = Type::FunctionType(vec![], Box::new(Type::Void));
    b.ctx.get_module_mut().add_function(sslb::ir::values::function::Function::create(
        "f".to_string(),
        ty,
        Linkage::InternalLinkage,
        false,
    ));
    let made = b.create_function("f", vec![], Type::Void, Linkage::InternalLinkage, false);
    assert_eq!(b.get_module().get_function(made).unwrap().get_name(), "f");
    let again = b.create_function("f", vec![], Type::Void, Linkage::InternalLinkage, false);
    assert_eq!(b.get_module().get_function(again).unwrap().get_name(), "f.0");
}
