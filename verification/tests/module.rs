use sslb::ir::linkage::Linkage;
use sslb::ir::module::Module;
use sslb::ir::values::basic_block::{BasicBlock, BlockRef};
use sslb::ir::values::function::{Function, FunctionRef};
use sslb::ir::values::instruction::{Instruction, InstructionType};
use sslb::ir::values::value::{Type, ValueEntity};
use sslb::targets::triple::{Arch, TargetOS, Vendor};
use sslb::targets::{DataLayout, TargetTriple};

fn module(name: &str) -> Module {
    let triple = TargetTriple::from_parts(Arch::X86_64, Vendor::Unknown, TargetOS::Linux);
    Module::new(name, DataLayout::from_triple(&triple), triple)
}

fn function(name: &str, linkage: Linkage) -> Function {
    Function::create(name.to_string(), Type::FunctionType(vec![], Box::new(Type::Void)), linkage, false)
}

#[test]
fn new_module_is_empty() {
    let m = module("unit");
    assert_eq!(m.name(), "unit");
    assert!(m.get_functions().is_empty());
    assert_eq!(*m.data_layout(), DataLayout::new(8));
    assert_eq!(m.target_triple().arch(), Arch::X86_64);
    assert!(m.get_function(FunctionRef { index: 0 }).is_none());
}

#[test]
fn a_fresh_name_is_kept() {
    let mut m = module("unit");
    assert_eq!(m.get_global_value_name("main"), "main");
    assert_eq!(m.get_global_value_name("other"), "other");
    assert_eq!(m.get_global_value_name(""), "");
    assert_eq!(m.get_global_value_name(""), ".0");
}

#[test]
fn repeated_names_get_rising_suffixes() {
    let mut m = module("unit");
    let names: Vec<String> = (0..13).map(|_| m.get_global_value_name("f")).collect();
    let mut expected = vec!["f".to_string()];
    for k in 0..12 {
        expected.push(format!("f.{}", k));
    }
    assert_eq!(names, expected);
    for (x, a) in names.iter().enumerate() {
        for (y, b) in names.iter().enumerate() {
            assert_eq!(a == b, x == y);
        }
    }
}

#[test]
fn a_taken_suffix_is_passed_over() {
    let mut m = module("unit");
    assert_eq!(m.get_global_value_name("f.0"), "f.0");
    assert_eq!(m.get_global_value_name("f"), "f");
    assert_eq!(m.get_global_value_name("f"), "f.1");
    assert_eq!(m.get_global_value_name("f"), "f.2");
    assert_eq!(m.get_global_value_name("f.0"), "f.0.0");
    assert_eq!(m.get_global_value_name("g"), "g");
}

#[test]
fn functions_stay_in_the_order_of_their_addition() {
    let mut m = module("unit");
    m.add_function(function("a", Linkage::InternalLinkage));
    m.add_function(function("b", Linkage::ExternalLinkage));
    assert_eq!(m.get_functions().len(), 2);
    assert_eq!(m.get_functions()[0].get_name(), "a");
    assert_eq!(m.get_functions()[1].get_name(), "b");
    assert_eq!(m.get_function(FunctionRef { index: 1 }).unwrap().get_name(), "b");
    assert!(m.get_function(FunctionRef { index: 2 }).is_none());
    assert!(m.get_function_mut(FunctionRef { index: 2 }).is_none());
    let a = FunctionRef { index: 0 };
    m.get_function_mut(a).unwrap().add_block(BasicBlock::new("entry".to_string(), a));
    assert_eq!(m.get_block(BlockRef { function: a, index: 0 }).unwrap().get_name(), "entry");
    assert!(m.get_block(BlockRef { function: a, index: 1 }).is_none());
    assert!(m.get_block(BlockRef { function: FunctionRef { index: 1 }, index: 0 }).is_none());
    assert!(m.get_block(BlockRef { function: FunctionRef { index: 7 }, index: 0 }).is_none());
}

#[test]
fn empty_module_renders_its_header() {
    let m = module("test");
    assert_eq!(
        m.to_string(),
        "# ModuleID = 'test'\nsource_name = \"test\"\ntarget datalayout = \"p:8:8\"\ntarget triple = \"x86_64-unknown-linux\"\n\n"
    );
}

#[test]
fn module_renders_functions_in_order() {
    let triple = TargetTriple::from_parts(Arch::X86, Vendor::PC, TargetOS::Windows);
    let mut m = Module::new("m", DataLayout::from_triple(&triple), triple);
    m.add_function(function("a", Linkage::ExternalLinkage));
    m.add_function(function("b", Linkage::PrivateLinkage));
    assert_eq!(
        m.to_string(),
        "# ModuleID = 'm'\nsource_name = \"m\"\ntarget datalayout = \"p:4:4\"\ntarget triple = \"i686-pc-windows\"\n\n\
         declare external function @a() -> void\n\n\
         define private function @b() -> void {\n}\n\n"
    );
}

#[test]
fn module_clone_renders_alike() {
    let mut m = module("unit");
    m.add_function(function("a", Linkage::InternalLinkage));
    assert_eq!(m.get_global_value_name("a"), "a");
    let mut copy = m.clone();
    assert_eq!(copy.to_string(), m.to_string());
    assert_eq!(copy.get_global_value_name("a"), "a.0");
    assert_eq!(m.get_global_value_name("a"), "a.0");
}

#[test]
fn a_module_can_be_rendered_where_its_functions_can() {
    let mut m = module("unit");
    assert!(m.is_printable());
    m.add_function(function("a", Linkage::InternalLinkage));
    m.add_function(function("b", Linkage::ExternalLinkage));
    assert!(m.is_printable());
    let a = FunctionRef { index: 0 };
    let mut block = BasicBlock::new("entry".to_string(), a);
    block.insert(ValueEntity::Instruction(Instruction::new(Type::Void, InstructionType::Phi(vec![]), None)));
    m.get_function_mut(a).unwrap().add_block(block);
    assert!(!m.is_printable());
}
