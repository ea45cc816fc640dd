use sslb::emit::assembly::x86_64::{emit_module, X86_64Emitter};
use sslb::emit::assembly::AssemblyEmitter;
use sslb::error::Error;
use sslb::ir::builder::{Builder, IRContext};
use sslb::ir::linkage::Linkage;
use sslb::ir::module::Module;
use sslb::ir::values::value::Type;
use sslb::targets::triple::{Arch, TargetOS, Vendor};
use sslb::targets::{DataLayout, TargetTriple};

fn builder_for(arch: Arch) -> Builder {
    let triple = TargetTriple::from_parts(arch, Vendor::Unknown, TargetOS::Linux);
    let module = Module::new("test", DataLayout::from_triple(&triple), triple);
    Builder::new(IRContext::new(module))
}

fn sample() -> Builder {
    let mut b = builder_for(Arch::X86_64);
    b.create_function("printf", vec![b.get_i8_ptr_type()], b.get_i32_type(), Linkage::ExternalLinkage, true);
    let main = b.create_function("main", vec![], b.get_i32_type(), Linkage::InternalLinkage, false);
    b.create_function("helper", vec![], Type::Void, Linkage::PrivateLinkage, false);
    let entry = b.create_block("entry", main);
    b.create_block("exit", main);
    b.set_insertion_point(entry);
    let sum = b.add(b.get_i32(1), b.get_i32(2), None);
    b.ret(sum.into());
    b
}

const SAMPLE: &str = "\t\t.text\n\t\t.intel_syntax noprefix\n\t\t.extern printf\n\t\t.globl main\n\
                      main:\n# %entry\n.main.Lexit:# %exit\n\nhelper:\n\n";

#[test]
fn empty_module_emits_the_section_header() {
    let b = builder_for(Arch::X86_64);
    assert_eq!(b.emit_assembly(), Ok("\t\t.text\n\t\t.intel_syntax noprefix\n".to_string()));
}

#[test]
fn directives_come_before_bodies() {
    let b = sample();
    assert_eq!(b.emit_assembly(), Ok(SAMPLE.to_string()));
    assert_eq!(AssemblyEmitter::new(b.ctx.clone()).emit_module(), Ok(SAMPLE.to_string()));
    assert_eq!(X86_64Emitter::new(b.ctx.clone()).emit_module(), Ok(SAMPLE.to_string()));
    assert_eq!(emit_module(b.ctx.clone()), Ok(SAMPLE.to_string()));
}

#[test]
fn emission_leaves_the_module_as_it_was() {
    let b = sample();
    let before = b.get_module().to_string();
    assert!(b.emit_assembly().is_ok());
    assert_eq!(b.get_module().to_string(), before);
}

#[test]
fn directive_by_linkage() {
    let cases = [
        (Linkage::ExternalLinkage, "\t\t.extern f\n"),
        (Linkage::ExternalWeakLinkage, "\t\t.extern f\n"),
        (Linkage::CommonLinkage, "\t\t.extern f\n"),
        (Linkage::InternalLinkage, "\t\t.globl f\n"),
        (Linkage::PrivateLinkage, ""),
    ];
    for (linkage, expected) in cases {
        let mut b = builder_for(Arch::X86_64);
        let f = b.create_function("f", vec![], Type::Void, linkage, false);
        let mut emitter = X86_64Emitter::new(b.ctx.clone());
        let function = b.get_module().get_function(f).unwrap();
        assert_eq!(emitter.emit_function(function, true), Ok(expected.to_string()));
    }
}

#[test]
fn linkage_without_directive_is_an_error() {
    for linkage in [Linkage::AppendingLinkage, Linkage::LinkonceLinkage, Linkage::WeakLinkage] {
        let mut b = sample();
        let f = b.create_function("f", vec![], Type::Void, linkage, false);
        assert_eq!(b.emit_assembly(), Err(Error::UnsupportedLinkage));
        assert_eq!(emit_module(b.ctx.clone()), Err(Error::UnsupportedLinkage));
        let mut emitter = X86_64Emitter::new(b.ctx.clone());
        let function = b.get_module().get_function(f).unwrap();
        assert_eq!(emitter.emit_function(function, true), Err(Error::UnsupportedLinkage));
        assert_eq!(emitter.emit_function(function, false), Ok("f:\n\n".to_string()));
    }
}

#[test]
fn body_by_linkage() {
    let mut b = builder_for(Arch::X86_64);
    let ext = b.create_function("ext", vec![], Type::Void, Linkage::ExternalLinkage, false);
    let weak = b.create_function("weak", vec![], Type::Void, Linkage::ExternalWeakLinkage, false);
    let entry = b.create_block("entry", weak);
    b.create_block("next", weak);
    b.create_block("last", weak);
    b.set_insertion_point(entry);
    b.void_ret();
    let mut emitter = X86_64Emitter::new(b.ctx.clone());
    let module = b.get_module();
    assert_eq!(emitter.emit_function(module.get_function(ext).unwrap(), false), Ok(String::new()));
    assert_eq!(
        emitter.emit_function(module.get_function(weak).unwrap(), false),
        Ok("weak:\n# %entry\n.weak.Lnext:# %next\n.weak.Llast:# %last\n\n".to_string())
    );
}

#[test]
fn block_label_unless_entry() {
    let b = sample();
    let mut emitter = X86_64Emitter::new(b.ctx.clone());
    let main = &b.get_module().get_functions()[1];
    let entry = &main.get_blocks()[0];
    assert_eq!(emitter.emit_basic_block(entry.clone(), main, true), Ok("# %entry\n".to_string()));
    assert_eq!(emitter.emit_basic_block(entry.clone(), main, false), Ok(".main.Lentry:# %entry\n".to_string()));
    assert_eq!(emitter.emit_instruction(entry.get_instructions()[0].clone()), Ok(String::new()));
    assert_eq!(emitter.emit_instruction(entry.get_instructions()[1].clone()), Ok(String::new()));
}

#[test]
fn other_architectures_have_no_emitter() {
    for arch in [
        Arch::X86,
        Arch::Arm,
        Arch::Aarch64,
        Arch::Mips,
        Arch::Mipsel,
        Arch::Powerpc,
        Arch::Powerpc64,
        Arch::S390x,
    ] {
        let mut b = builder_for(arch);
        assert_eq!(b.emit_assembly(), Err(Error::UnsupportedArchitecture));
        b.create_function("f", vec![], Type::Void, Linkage::WeakLinkage, false);
        assert_eq!(b.emit_assembly(), Err(Error::UnsupportedArchitecture));
        assert_eq!(AssemblyEmitter::new(b.ctx.clone()).emit_module(), Err(Error::UnsupportedArchitecture));
    }
}
