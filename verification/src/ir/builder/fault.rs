//! The faults of construction: what makes an instruction, a block or a name
//! impossible to build, stated as a value that carries the offending types.
//!
//! A constructor of the builder demands that its operands have no fault. A
//! caller that cannot know this beforehand asks the matching check, which
//! reports the first fault or none.

use vstd::prelude::*;
use vstd::string::StringExecFns;

use crate::ir::builder::ctx::ContextView;
use crate::ir::module::ModuleView;
use crate::ir::values::function::FunctionRef;
use crate::ir::values::value::push_type;
use crate::ir::values::value::Type;
use crate::ir::values::value::type_text;
use crate::ir::values::value::types_view;
use crate::ir::values::value::TypeView;
use crate::text::decimal;
use crate::text::push_decimal;

verus! {

/// A kind of type that an operation demands of an operand.
#[derive(Debug, Clone, Copy, PartialEq, Eq, Structural)]
pub enum TypeKind {
    /// An integer or a floating-point type.
    Numeric,
    /// An integer type.
    Integer,
    /// A pointer type.
    Pointer,
    /// A pointer to a function type.
    FunctionPointer,
    /// The type of branch targets.
    Branch,
}

/// A fault of construction. Each one shows a defect of the code that drives the
/// builder: the construction cannot go on.
#[derive(Debug)]
pub enum Fault {
    /// No insertion point is set.
    NoInsertionPoint,
    /// The insertion point names no block of the module.
    UnknownBlock,
    /// The block at the insertion point has no instruction name left to hand out.
    NamesExhausted,
    /// No function of the module is meant.
    UnknownFunction,
    /// A block cannot be added to a function that is only declared.
    ExternalFunction,
    /// Two types that must be equal differ.
    TypeMismatch { expected: Type, found: Type },
    /// A type is not of the kind that the operation demands.
    WrongKind { kind: TypeKind, found: Type },
    /// A call has more arguments than its callee has parameters.
    TooManyArguments { parameters: usize, arguments: usize },
    /// A phi has no incoming value.
    EmptyPhi,
}

/// The mathematical value of a [`Fault`].
pub enum FaultView {
    NoInsertionPoint,
    UnknownBlock,
    NamesExhausted,
    UnknownFunction,
    ExternalFunction,
    TypeMismatch { expected: TypeView, found: TypeView },
    WrongKind { kind: TypeKind, found: TypeView },
    TooManyArguments { parameters: nat, arguments: nat },
    EmptyPhi,
}

impl View for Fault {
    type V = FaultView;

    open spec fn view(&self) -> FaultView {
        match self {
            Fault::NoInsertionPoint => FaultView::NoInsertionPoint,
            Fault::UnknownBlock => FaultView::UnknownBlock,
            Fault::NamesExhausted => FaultView::NamesExhausted,
            Fault::UnknownFunction => FaultView::UnknownFunction,
            Fault::ExternalFunction => FaultView::ExternalFunction,
            Fault::TypeMismatch { expected, found } => FaultView::TypeMismatch {
                expected: expected@,
                found: found@,
            },
            Fault::WrongKind { kind, found } => FaultView::WrongKind { kind: *kind, found: found@ },
            Fault::TooManyArguments { parameters, arguments } => FaultView::TooManyArguments {
                parameters: *parameters as nat,
                arguments: *arguments as nat,
            },
            Fault::EmptyPhi => FaultView::EmptyPhi,
        }
    }
}

impl TypeKind {
    /// Whether `ty` is of this kind.
    pub open spec fn holds(self, ty: TypeView) -> bool {
        match self {
            TypeKind::Numeric => ty.is_numeric(),
            TypeKind::Integer => ty is Integer,
            TypeKind::Pointer => ty is Pointer,
            TypeKind::FunctionPointer => ty.is_function_pointer(),
            TypeKind::Branch => ty is Branch,
        }
    }

    /// The words for the kind in a message.
    pub open spec fn text(self) -> Seq<char> {
        match self {
            TypeKind::Numeric => "an integer or float type"@,
            TypeKind::Integer => "an integer type"@,
            TypeKind::Pointer => "a pointer type"@,
            TypeKind::FunctionPointer => "a pointer to a function type"@,
            TypeKind::Branch => "the branch type"@,
        }
    }

    /// The words for the kind in a message.
    pub fn as_str(&self) -> (r: &'static str)
        ensures
            r@ == self.text(),
    {
        match self {
            TypeKind::Numeric => "an integer or float type",
            TypeKind::Integer => "an integer type",
            TypeKind::Pointer => "a pointer type",
            TypeKind::FunctionPointer => "a pointer to a function type",
            TypeKind::Branch => "the branch type",
        }
    }

    /// Decides whether `ty` is of this kind.
    pub fn check(&self, ty: &Type) -> (r: bool)
        ensures
            r == self.holds(ty@),
    {
        match self {
            TypeKind::Numeric => ty.is_integer() || ty.is_float(),
            TypeKind::Integer => ty.is_integer(),
            TypeKind::Pointer => ty.is_pointer(),
            TypeKind::FunctionPointer => match ty {
                Type::Pointer(elem) => elem.is_function_type(),
                _ => false,
            },
            TypeKind::Branch => ty.is_branch(),
        }
    }
}

impl FaultView {
    /// The message of the fault.
    pub open spec fn text(self) -> Seq<char> {
        match self {
            FaultView::NoInsertionPoint => "cannot insert without insertion point"@,
            FaultView::UnknownBlock => "no such block in the module"@,
            FaultView::NamesExhausted => "no instruction name is left in the block"@,
            FaultView::UnknownFunction => "no such function in the module"@,
            FaultView::ExternalFunction => "cannot add block to external function"@,
            FaultView::TypeMismatch { expected, found } => "type mismatch: expected "@ + type_text(
                expected,
            ) + ", found "@ + type_text(found),
            FaultView::WrongKind { kind, found } => "wrong type kind: expected "@ + kind.text()
                + ", found "@ + type_text(found),
            FaultView::TooManyArguments { parameters, arguments } =>
                "too many arguments: expected "@ + decimal(parameters) + ", found "@ + decimal(
                    arguments,
                ),
            FaultView::EmptyPhi => "phi without incoming values"@,
        }
    }
}

impl Fault {
    /// Renders the fault as its message.
    pub fn to_string(&self) -> (r: String)
        ensures
            r@ == self@.text(),
    {
        match self {
            Fault::NoInsertionPoint => "cannot insert without insertion point".to_owned(),
            Fault::UnknownBlock => "no such block in the module".to_owned(),
            Fault::NamesExhausted => "no instruction name is left in the block".to_owned(),
            Fault::UnknownFunction => "no such function in the module".to_owned(),
            Fault::ExternalFunction => "cannot add block to external function".to_owned(),
            Fault::TypeMismatch { expected, found } => {
                let mut out = "type mismatch: expected ".to_owned();
                push_type(&mut out, expected);
                out.append(", found ");
                push_type(&mut out, found);
                out
            },
            Fault::WrongKind { kind, found } => {
                let mut out = "wrong type kind: expected ".to_owned();
                out.append(kind.as_str());
                out.append(", found ");
                push_type(&mut out, found);
                out
            },
            Fault::TooManyArguments { parameters, arguments } => {
                let mut out = "too many arguments: expected ".to_owned();
                push_decimal(&mut out, *parameters as u64);
                out.append(", found ");
                push_decimal(&mut out, *arguments as u64);
                out
            },
            Fault::EmptyPhi => "phi without incoming values".to_owned(),
        }
    }
}

/// The fault of two types that must be equal, if they differ.
pub open spec fn same_type(expected: TypeView, found: TypeView) -> Option<FaultView> {
    if expected == found {
        None
    } else {
        Some(FaultView::TypeMismatch { expected, found })
    }
}

/// The fault of a type that must be of a kind, if it is not.
pub open spec fn of_kind(expected: TypeKind, found: TypeView) -> Option<FaultView> {
    if expected.holds(found) {
        None
    } else {
        Some(FaultView::WrongKind { kind: expected, found })
    }
}

/// The first of two faults.
pub open spec fn first_of(a: Option<FaultView>, b: Option<FaultView>) -> Option<FaultView> {
    if a is Some {
        a
    } else {
        b
    }
}

/// The fault of the operands of an arithmetic operation or a comparison: they
/// must have one type, an integer or a floating-point type.
pub open spec fn arithmetic_fault(lhs: TypeView, rhs: TypeView) -> Option<FaultView> {
    first_of(same_type(lhs, rhs), of_kind(TypeKind::Numeric, lhs))
}

/// The fault of the operands of a shift or a bitwise operation: they must
/// have one type, an integer type.
pub open spec fn bitwise_fault(lhs: TypeView, rhs: TypeView) -> Option<FaultView> {
    first_of(same_type(lhs, rhs), of_kind(TypeKind::Integer, lhs))
}

/// The fault of a store: the first operand must be a pointer, and the second
/// must have the type that it points to.
pub open spec fn store_fault(ptr: TypeView, val: TypeView) -> Option<FaultView> {
    match ptr {
        TypeView::Pointer(elem) => same_type(*elem, val),
        _ => of_kind(TypeKind::Pointer, ptr),
    }
}

/// The first fault among the arguments of a call at or after `from`: an
/// argument for which the callee has no parameter, or one whose type differs
/// from that of its parameter.
pub open spec fn arguments_fault(params: Seq<TypeView>, args: Seq<TypeView>, from: int) -> Option<
    FaultView,
>
    decreases args.len() - from,
{
    if from < 0 || from >= args.len() {
        None
    } else if from >= params.len() {
        Some(FaultView::TooManyArguments { parameters: params.len(), arguments: args.len() })
    } else if args[from] != params[from] {
        Some(FaultView::TypeMismatch { expected: params[from], found: args[from] })
    } else {
        arguments_fault(params, args, from + 1)
    }
}

/// The fault of a call: the callee must be a pointer to a function, and each
/// argument must have the type of the parameter in its place.
pub open spec fn call_fault(callee: TypeView, args: Seq<TypeView>) -> Option<FaultView> {
    match callee {
        TypeView::Pointer(elem) => match *elem {
            TypeView::FunctionType(params, _) => arguments_fault(params, args, 0),
            _ => Some(FaultView::WrongKind { kind: TypeKind::FunctionPointer, found: callee }),
        },
        _ => Some(FaultView::WrongKind { kind: TypeKind::FunctionPointer, found: callee }),
    }
}

/// The type that a call of `callee` yields: the return type of the function
/// that it points to.
pub open spec fn call_result(callee: TypeView) -> TypeView {
    *(*callee->Pointer_0)->FunctionType_1
}

/// The first fault among the incoming values of a phi at or after `from`: one
/// whose type differs from that of the first.
pub open spec fn incoming_fault(types: Seq<TypeView>, from: int) -> Option<FaultView>
    decreases types.len() - from,
{
    if from < 0 || from >= types.len() {
        None
    } else if types[from] != types[0] {
        Some(FaultView::TypeMismatch { expected: types[0], found: types[from] })
    } else {
        incoming_fault(types, from + 1)
    }
}

/// The fault of a phi: it must have an incoming value, and all of them must
/// share one type.
pub open spec fn phi_fault(types: Seq<TypeView>) -> Option<FaultView> {
    if types.len() == 0 {
        Some(FaultView::EmptyPhi)
    } else {
        incoming_fault(types, 0)
    }
}

/// The fault of a conditional branch: the condition must be an integer, the
/// target must have the branch type.
pub open spec fn branch_if_fault(condition: TypeView, target: TypeView) -> Option<FaultView> {
    first_of(of_kind(TypeKind::Integer, condition), of_kind(TypeKind::Branch, target))
}

/// The fault of placing an instruction: an insertion point must be set, it
/// must name a block of the module, and where the instruction gets its name
/// from the block, the block must have a name left.
pub open spec fn placement_fault(ctx: ContextView, auto_named: bool) -> Option<FaultView> {
    match ctx.insertion_point {
        None => Some(FaultView::NoInsertionPoint),
        Some(at) => if !ctx.module.has_block(at) {
            Some(FaultView::UnknownBlock)
        } else if auto_named && ctx.module.block(at).inst_count >= usize::MAX {
            Some(FaultView::NamesExhausted)
        } else {
            None
        },
    }
}

/// The fault of adding a block to the function that `function` names: it
/// must be a function of the module, and one that is defined here.
pub open spec fn block_fault(module: ModuleView, function: FunctionRef) -> Option<FaultView> {
    if !module.has_function(function) {
        Some(FaultView::UnknownFunction)
    } else if module.function(function).is_external() {
        Some(FaultView::ExternalFunction)
    } else {
        None
    }
}

/// Operands of different types are never accepted: by no arithmetic
/// operation, no comparison, no shift and no bitwise operation.
pub proof fn lemma_mismatched_operands_rejected(lhs: TypeView, rhs: TypeView)
    requires
        lhs != rhs,
    ensures
        arithmetic_fault(lhs, rhs) == Some(FaultView::TypeMismatch { expected: lhs, found: rhs }),
        bitwise_fault(lhs, rhs) == Some(FaultView::TypeMismatch { expected: lhs, found: rhs }),
{
}

/// A conditional branch never accepts a target that is not of the branch
/// type, an integer for one.
pub proof fn lemma_branch_target_rejected(condition: TypeView, target: TypeView)
    requires
        !(target is Branch),
    ensures
        branch_if_fault(condition, target) is Some,
        of_kind(TypeKind::Branch, target) is Some,
{
}

/// Reports the fault of two types that must be equal.
pub fn check_same_type(expected: &Type, found: &Type) -> (r: Result<(), Fault>)
    ensures
        match r {
            Ok(_) => same_type(expected@, found@) is None,
            Err(fault) => same_type(expected@, found@) == Some(fault@),
        },
{
    if expected == found {
        Ok(())
    } else {
        Err(Fault::TypeMismatch { expected: expected.clone(), found: found.clone() })
    }
}

/// Reports the fault of a type that must be of a kind.
pub fn check_kind(expected: TypeKind, found: &Type) -> (r: Result<(), Fault>)
    ensures
        match r {
            Ok(_) => of_kind(expected, found@) is None,
            Err(fault) => of_kind(expected, found@) == Some(fault@),
        },
{
    if expected.check(found) {
        Ok(())
    } else {
        Err(Fault::WrongKind { kind: expected, found: found.clone() })
    }
}

/// Reports the fault of the operands of an arithmetic operation or a comparison.
pub fn check_arithmetic(lhs: &Type, rhs: &Type) -> (r: Result<(), Fault>)
    ensures
        match r {
            Ok(_) => arithmetic_fault(lhs@, rhs@) is None,
            Err(fault) => arithmetic_fault(lhs@, rhs@) == Some(fault@),
        },
{
    match check_same_type(lhs, rhs) {
        Ok(_) => check_kind(TypeKind::Numeric, lhs),
        Err(fault) => Err(fault),
    }
}

/// Reports the fault of the operands of a shift or a bitwise operation.
pub fn check_bitwise(lhs: &Type, rhs: &Type) -> (r: Result<(), Fault>)
    ensures
        match r {
            Ok(_) => bitwise_fault(lhs@, rhs@) is None,
            Err(fault) => bitwise_fault(lhs@, rhs@) == Some(fault@),
        },
{
    match check_same_type(lhs, rhs) {
        Ok(_) => check_kind(TypeKind::Integer, lhs),
        Err(fault) => Err(fault),
    }
}

/// Reports the fault of the operands of a store.
pub fn check_store(ptr: &Type, val: &Type) -> (r: Result<(), Fault>)
    ensures
        match r {
            Ok(_) => store_fault(ptr@, val@) is None,
            Err(fault) => store_fault(ptr@, val@) == Some(fault@),
        },
{
    match ptr {
        Type::Pointer(elem) => check_same_type(elem, val),
        _ => check_kind(TypeKind::Pointer, ptr),
    }
}

/// Reports the fault of the operands of a conditional branch.
pub fn check_branch_if(condition: &Type, target: &Type) -> (r: Result<(), Fault>)
    ensures
        match r {
            Ok(_) => branch_if_fault(condition@, target@) is None,
            Err(fault) => branch_if_fault(condition@, target@) == Some(fault@),
        },
{
    match check_kind(TypeKind::Integer, condition) {
        Ok(_) => check_kind(TypeKind::Branch, target),
        Err(fault) => Err(fault),
    }
}

/// Reports the fault of a call of `callee` with arguments of the types `args`.
pub fn check_call(callee: &Type, args: &Vec<Type>) -> (r: Result<(), Fault>)
    ensures
        match r {
            Ok(_) => call_fault(callee@, types_view(args@)) is None,
            Err(fault) => call_fault(callee@, types_view(args@)) == Some(fault@),
        },
{
    if !TypeKind::FunctionPointer.check(callee) {
        return Err(Fault::WrongKind { kind: TypeKind::FunctionPointer, found: callee.clone() });
    }
    let function = callee.get_pointer_element_type();
    let params = function.get_function_argument_types();
    let ghost p = types_view(params@);
    let ghost a = types_view(args@);
    assert(call_fault(callee@, a) == arguments_fault(p, a, 0));
    let mut i: usize = 0;
    while i < args.len()
        invariant
            0 <= i <= args.len(),
            p == types_view(params@),
            a == types_view(args@),
            call_fault(callee@, a) == arguments_fault(p, a, i as int),
        decreases args.len() - i,
    {
        if i >= params.len() {
            return Err(
                Fault::TooManyArguments { parameters: params.len(), arguments: args.len() },
            );
        }
        assert(a[i as int] == args@[i as int]@);
        assert(p[i as int] == params@[i as int]@);
        if args[i] != params[i] {
            return Err(
                Fault::TypeMismatch { expected: params[i].clone(), found: args[i].clone() },
            );
        }
        i += 1;
    }
    Ok(())
}

/// Reports the fault of a phi whose incoming values have the types `types`.
pub fn check_phi(types: &Vec<Type>) -> (r: Result<(), Fault>)
    ensures
        match r {
            Ok(_) => phi_fault(types_view(types@)) is None,
            Err(fault) => phi_fault(types_view(types@)) == Some(fault@),
        },
{
    if types.len() == 0 {
        return Err(Fault::EmptyPhi);
    }
    let ghost t = types_view(types@);
    let mut i: usize = 0;
    while i < types.len()
        invariant
            0 <= i <= types.len(),
            types.len() > 0,
            t == types_view(types@),
            phi_fault(t) == incoming_fault(t, i as int),
        decreases types.len() - i,
    {
        assert(t[i as int] == types@[i as int]@);
        assert(t[0] == types@[0]@);
        if types[i] != types[0] {
            return Err(
                Fault::TypeMismatch { expected: types[0].clone(), found: types[i].clone() },
            );
        }
        i += 1;
    }
    Ok(())
}

/// The arguments of a call have no fault exactly when there are no more of
/// them than parameters and each has the type of the parameter in its place.
pub proof fn lemma_arguments_rule(params: Seq<TypeView>, args: Seq<TypeView>, from: int)
    requires
        0 <= from <= args.len(),
    ensures
        arguments_fault(params, args, from) is None <==> (from < args.len() ==> args.len()
            <= params.len()) && forall|i: int|
            from <= i < args.len() ==> #[trigger] args[i] == params[i],
    decreases args.len() - from,
{
    if from < args.len() {
        lemma_arguments_rule(params, args, from + 1);
        if from < params.len() && args[from] != params[from] {
            assert(!(forall|i: int| from <= i < args.len() ==> #[trigger] args[i] == params[i]));
        }
    }
}

/// The incoming values of a phi, from `from` on, have no fault exactly when
/// each has the type of the first.
pub proof fn lemma_incoming_rule(types: Seq<TypeView>, from: int)
    requires
        0 <= from <= types.len(),
    ensures
        incoming_fault(types, from) is None <==> forall|i: int|
            from <= i < types.len() ==> #[trigger] types[i] == types[0],
    decreases types.len() - from,
{
    if from < types.len() {
        lemma_incoming_rule(types, from + 1);
        if types[from] != types[0] {
            assert(!(forall|i: int| from <= i < types.len() ==> #[trigger] types[i] == types[0]));
        }
    }
}

/// The rules of the operand types, one by one: when each family of
/// instructions has no fault.
pub proof fn lemma_type_rules(a: TypeView, b: TypeView, types: Seq<TypeView>)
    ensures
        arithmetic_fault(a, b) is None <==> a == b && (a is Integer || a is Float),
        bitwise_fault(a, b) is None <==> a == b && a is Integer,
        of_kind(TypeKind::Numeric, a) is None <==> a is Integer || a is Float,
        of_kind(TypeKind::Integer, a) is None <==> a is Integer,
        of_kind(TypeKind::Pointer, a) is None <==> a is Pointer,
        of_kind(TypeKind::Branch, a) is None <==> a is Branch,
        store_fault(a, b) is None <==> a == TypeView::Pointer(Box::new(b)),
        same_type(a, b) is None <==> a == b,
        branch_if_fault(a, b) is None <==> a is Integer && b is Branch,
        call_fault(a, types) is None <==> a is Pointer && *a->Pointer_0 is FunctionType
            && types.len() <= (*a->Pointer_0)->FunctionType_0.len() && forall|i: int|
            0 <= i < types.len() ==> #[trigger] types[i] == (*a->Pointer_0)->FunctionType_0[i],
        phi_fault(types) is None <==> types.len() > 0 && forall|i: int|
            0 <= i < types.len() ==> #[trigger] types[i] == types[0],
{
    lemma_incoming_rule(types, 0);
    match a {
        TypeView::Pointer(elem) => {
            match *elem {
                TypeView::FunctionType(params, _) => {
                    lemma_arguments_rule(params, types, 0);
                },
                _ => {},
            }
        },
        _ => {},
    }
}

} // verus!
