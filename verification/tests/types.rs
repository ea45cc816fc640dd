use sslb::ir::values::value::Type;

fn i(bits: usize) -> Type {
    Type::Integer(bits)
}

fn ptr(elem: Type) -> Type {
    Type::Pointer(Box::new(elem))
}

fn all_variants() -> Vec<Type> {
    vec![
        Type::Integer(32),
        Type::Float(32),
        Type::FunctionType(vec![i(32)], Box::new(Type::Void)),
        ptr(i(32)),
        Type::Array(32, Box::new(i(32))),
        Type::Struct(vec![i(32)]),
        Type::Void,
        Type::Branch,
    ]
}

#[test]
fn integer_widths_differ() {
    assert!(Type::Integer(8) != Type::Integer(16));
    assert!(Type::Integer(8) == Type::Integer(8));
}

#[test]
fn pointer_differs_from_its_element() {
    assert!(ptr(i(8)) != i(8));
    assert!(ptr(i(8)) == ptr(i(8)));
    assert!(ptr(i(8)) != ptr(i(16)));
    assert!(ptr(ptr(i(8))) != ptr(i(8)));
}

#[test]
fn equality_is_reflexive_and_symmetric_on_every_variant() {
    let a = all_variants();
    let b = all_variants();
    for (x, tx) in a.iter().enumerate() {
        for (y, ty) in b.iter().enumerate() {
            assert_eq!(tx == ty, x == y);
            assert_eq!(ty == tx, x == y);
        }
    }
}

#[test]
fn integer_and_float_of_one_width_differ() {
    assert!(Type::Integer(32) != Type::Float(32));
    assert!(Type::Float(32) != Type::Float(64));
}

#[test]
fn function_types_compare_arguments_and_return() {
    let f = |args: Vec<Type>, ret: Type| Type::FunctionType(args, Box::new(ret));
    assert!(f(vec![i(32), i(64)], Type::Void) == f(vec![i(32), i(64)], Type::Void));
    assert!(f(vec![i(32), i(64)], Type::Void) != f(vec![i(64), i(32)], Type::Void));
    assert!(f(vec![i(32)], Type::Void) != f(vec![i(32), i(32)], Type::Void));
    assert!(f(vec![i(32)], Type::Void) != f(vec![i(32)], i(32)));
    assert!(f(vec![], Type::Void) == f(vec![], Type::Void));
}

#[test]
fn arrays_compare_length_and_element() {
    let a = |len: usize, elem: Type| Type::Array(len, Box::new(elem));
    assert!(a(4, i(8)) == a(4, i(8)));
    assert!(a(4, i(8)) != a(5, i(8)));
    assert!(a(4, i(8)) != a(4, i(16)));
}

#[test]
fn structs_compare_fields_in_order() {
    assert!(Type::Struct(vec![i(8), i(16)]) == Type::Struct(vec![i(8), i(16)]));
    assert!(Type::Struct(vec![i(8), i(16)]) != Type::Struct(vec![i(16), i(8)]));
    assert!(Type::Struct(vec![i(8)]) != Type::Struct(vec![i(8), i(8)]));
    assert!(Type::Struct(vec![]) == Type::Struct(vec![]));
    assert!(Type::Struct(vec![i(8)]) != Type::FunctionType(vec![i(8)], Box::new(Type::Void)));
}

#[test]
fn clone_is_equal() {
    for t in all_variants() {
        assert!(t.clone() == t);
    }
    let nested = Type::FunctionType(
        vec![ptr(Type::Struct(vec![i(1), Type::Array(3, Box::new(Type::Float(64)))]))],
        Box::new(ptr(Type::Void)),
    );
    assert!(nested.clone() == nested);
}

#[test]
fn predicates_tell_the_variants_apart() {
    let v = all_variants();
    let flags: Vec<[bool; 8]> = v
        .iter()
        .map(|t| {
            [
                t.is_integer(),
                t.is_float(),
                t.is_function_type(),
                t.is_pointer(),
                t.is_array(),
                t.is_struct(),
                t.is_void(),
                t.is_branch(),
            ]
        })
        .collect();
    for (x, row) in flags.iter().enumerate() {
        for (y, flag) in row.iter().enumerate() {
            assert_eq!(*flag, x == y);
        }
    }
    assert!(v[2].is_function());
    assert!(!v[0].is_function());
}

#[test]
fn pointer_element_type() {
    assert!(ptr(i(8)).get_pointer_element_type() == i(8));
    assert!(ptr(ptr(Type::Void)).get_pointer_element_type() == ptr(Type::Void));
}

#[test]
fn pointer_to() {
    assert!(i(8).get_pointer_to() == ptr(i(8)));
    assert!(i(8).get_pointer_to().get_pointer_element_type() == i(8));
}

#[test]
fn function_type_parts() {
    let f = Type::FunctionType(vec![i(32), ptr(i(8))], Box::new(Type::Float(64)));
    assert!(f.get_function_return_type() == Type::Float(64));
    assert_eq!(f.get_function_argument_types().len(), 2);
    assert!(f.get_function_argument_types()[1] == ptr(i(8)));
    assert!(f.get_function_argument_type(0) == i(32));
    assert!(f.get_function_argument_type(1) == ptr(i(8)));
}

#[test]
fn type_text() {
    assert_eq!(i(32).to_string(), "i32");
    assert_eq!(i(1).to_string(), "i1");
    assert_eq!(i(0).to_string(), "i0");
    assert_eq!(i(128).to_string(), "i128");
    assert_eq!(Type::Float(64).to_string(), "f64");
    assert_eq!(ptr(i(8)).to_string(), "i8*");
    assert_eq!(ptr(ptr(i(8))).to_string(), "i8**");
    assert_eq!(Type::Array(4, Box::new(i(32))).to_string(), "[4 x i32]");
    assert_eq!(Type::Struct(vec![i(32), ptr(i(8))]).to_string(), "{ i32, i8* }");
    assert_eq!(Type::Struct(vec![i(32)]).to_string(), "{ i32 }");
    assert_eq!(Type::Struct(vec![]).to_string(), "{  }");
    assert_eq!(Type::Void.to_string(), "void");
    assert_eq!(Type::Branch.to_string(), "branch");
}

#[test]
fn function_type_text() {
    let f = Type::FunctionType(vec![i(32), i(64)], Box::new(Type::Void));
    assert_eq!(f.to_string(), "i32, i64 -> void");
    let g = Type::FunctionType(vec![], Box::new(i(32)));
    assert_eq!(g.to_string(), " -> i32");
    let h = Type::FunctionType(vec![ptr(i(8))], Box::new(i(32)));
    assert_eq!(ptr(h).to_string(), "i8* -> i32*");
}

#[test]
fn wide_integer_text() {
    assert_eq!(i(usize::MAX).to_string(), format!("i{}", usize::MAX));
    assert_eq!(Type::Array(1000000, Box::new(i(8))).to_string(), "[1000000 x i8]");
}
