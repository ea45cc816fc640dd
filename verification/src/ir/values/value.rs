//! Types, the identity that every entity of the graph shares, and the closed
//! union of the entities.

use vstd::prelude::*;
use vstd::std_specs::cmp::PartialEqSpecImpl;
use vstd::std_specs::convert::FromSpecImpl;
use vstd::string::StringExecFns;

use crate::ir::values::basic_block::BasicBlock;
use crate::ir::values::basic_block::block_is_printable;
use crate::ir::values::basic_block::block_printable;
use crate::ir::values::basic_block::block_text;
use crate::ir::values::basic_block::block_view;
use crate::ir::values::basic_block::BlockView;
use crate::ir::values::basic_block::clone_block;
use crate::ir::values::basic_block::push_block;
use crate::ir::values::function::clone_function;
use crate::ir::values::function::Function;
use crate::ir::values::function::function_is_printable;
use crate::ir::values::function::function_printable;
use crate::ir::values::function::function_text;
use crate::ir::values::function::function_view;
use crate::ir::values::function::FunctionView;
use crate::ir::values::function::push_function;
use crate::ir::values::instruction::clone_instruction;
use crate::ir::values::instruction::Instruction;
use crate::ir::values::instruction::instruction_is_printable;
use crate::ir::values::instruction::instruction_printable;
use crate::ir::values::instruction::instruction_text;
use crate::ir::values::instruction::instruction_view;
use crate::ir::values::instruction::InstructionView;
use crate::ir::values::instruction::push_instruction;
use crate::text::decimal;
use crate::text::join;
use crate::text::lemma_join_step;
use crate::text::push_decimal;

verus! {

/// The type of a value. Two types are equal exactly when they are the same
/// variant with equal payloads, pointers and function types included.
#[derive(Debug, Eq)]
pub enum Type {
    /// An integer of the given width in bits.
    Integer(usize),
    /// A floating-point number of the given width in bits.
    Float(usize),
    /// A function signature: the argument types and the return type.
    FunctionType(Vec<Type>, Box<Type>),
    /// A pointer to a value of the element type.
    Pointer(Box<Type>),
    /// An array of the given length and element type.
    Array(usize, Box<Type>),
    /// A structure with the given field types, in order.
    Struct(Vec<Type>),
    /// The type of what yields no value.
    Void,
    /// The type of a basic block used as the target of a branch.
    Branch,
}

/// The mathematical value of a [`Type`].
pub enum TypeView {
    Integer(nat),
    Float(nat),
    FunctionType(Seq<TypeView>, Box<TypeView>),
    Pointer(Box<TypeView>),
    Array(nat, Box<TypeView>),
    Struct(Seq<TypeView>),
    Void,
    Branch,
}

/// The values of a sequence of types, one by one.
pub open spec fn types_view(v: Seq<Type>) -> Seq<TypeView>
    decreases v,
{
    Seq::new(
        v.len(),
        |i: int|
            if 0 <= i < v.len() {
                type_view(v[i])
            } else {
                TypeView::Void
            },
    )
}

/// The value of a type.
pub open spec fn type_view(t: Type) -> TypeView
    decreases t,
{
    match t {
        Type::Integer(bits) => TypeView::Integer(bits as nat),
        Type::Float(bits) => TypeView::Float(bits as nat),
        Type::FunctionType(args, ret) => TypeView::FunctionType(
            types_view(args@),
            Box::new(type_view(*ret)),
        ),
        Type::Pointer(elem) => TypeView::Pointer(Box::new(type_view(*elem))),
        Type::Array(len, elem) => TypeView::Array(len as nat, Box::new(type_view(*elem))),
        Type::Struct(fields) => TypeView::Struct(types_view(fields@)),
        Type::Void => TypeView::Void,
        Type::Branch => TypeView::Branch,
    }
}

impl View for Type {
    type V = TypeView;

    open spec fn view(&self) -> TypeView {
        type_view(*self)
    }
}

/// The texts of a sequence of types, one by one.
pub open spec fn types_text(ts: Seq<TypeView>) -> Seq<Seq<char>>
    decreases ts,
{
    Seq::new(
        ts.len(),
        |i: int|
            if 0 <= i < ts.len() {
                type_text(ts[i])
            } else {
                Seq::empty()
            },
    )
}

/// The text of a type: `i32`, `f64`, `i8*`, `[4 x i32]`, `{ i32, i8* }`,
/// `i32, i32 -> void`, `void`, `branch`.
pub open spec fn type_text(t: TypeView) -> Seq<char>
    decreases t,
{
    match t {
        TypeView::Integer(bits) => "i"@ + decimal(bits),
        TypeView::Float(bits) => "f"@ + decimal(bits),
        TypeView::FunctionType(args, ret) => join(types_text(args), ", "@) + " -> "@ + type_text(
            *ret,
        ),
        TypeView::Pointer(elem) => type_text(*elem) + "*"@,
        TypeView::Array(len, elem) => "["@ + decimal(len) + " x "@ + type_text(*elem) + "]"@,
        TypeView::Struct(fields) => "{ "@ + join(types_text(fields), ", "@) + " }"@,
        TypeView::Void => "void"@,
        TypeView::Branch => "branch"@,
    }
}

impl TypeView {
    /// Whether the type is an integer or a floating-point type.
    pub open spec fn is_numeric(self) -> bool {
        self is Integer || self is Float
    }

    /// Whether the type is a pointer to a function.
    pub open spec fn is_function_pointer(self) -> bool {
        self is Pointer && *self->Pointer_0 is FunctionType
    }
}

/// Whether two vectors of types hold equal types at each place.
pub(crate) fn types_equal(a: &Vec<Type>, b: &Vec<Type>) -> (r: bool)
    ensures
        r == (types_view(a@) == types_view(b@)),
    decreases a, 0nat,
{
    if a.len() != b.len() {
        assert(types_view(a@).len() != types_view(b@).len());
        return false;
    }
    let mut i: usize = 0;
    while i < a.len()
        invariant
            a.len() == b.len(),
            0 <= i <= a.len(),
            forall|j: int| 0 <= j < i ==> type_view(a@[j]) == type_view(b@[j]),
        decreases a.len() - i,
    {
        if !type_equal(&a[i], &b[i]) {
            assert(types_view(a@)[i as int] != types_view(b@)[i as int]);
            return false;
        }
        i += 1;
    }
    assert(types_view(a@) =~= types_view(b@));
    true
}

/// Whether two types are structurally equal.
pub(crate) fn type_equal(a: &Type, b: &Type) -> (r: bool)
    ensures
        r == (a@ == b@),
    decreases a, 1nat,
{
    match (a, b) {
        (Type::Integer(x), Type::Integer(y)) => *x == *y,
        (Type::Float(x), Type::Float(y)) => *x == *y,
        (Type::Pointer(x), Type::Pointer(y)) => type_equal(x, y),
        (Type::Array(x1, x2), Type::Array(y1, y2)) => *x1 == *y1 && type_equal(x2, y2),
        (Type::Struct(x), Type::Struct(y)) => types_equal(x, y),
        (Type::Void, Type::Void) => true,
        (Type::Branch, Type::Branch) => true,
        (Type::FunctionType(x1, x2), Type::FunctionType(y1, y2)) => types_equal(x1, y1)
            && type_equal(x2, y2),
        _ => false,
    }
}

impl PartialEq for Type {
    fn eq(&self, other: &Self) -> (r: bool) {
        type_equal(self, other)
    }
}

impl PartialEqSpecImpl for Type {
    open spec fn obeys_eq_spec() -> bool {
        true
    }

    open spec fn eq_spec(&self, other: &Self) -> bool {
        self@ == other@
    }
}

/// What `==` decides of two types.
pub open spec fn equal(a: Type, b: Type) -> bool {
    vstd::std_specs::cmp::PartialEqSpec::eq_spec(&a, &b)
}

/// Whether two sequences of types hold equal types at each place.
pub open spec fn types_equal_spec(a: Seq<Type>, b: Seq<Type>) -> bool {
    a.len() == b.len() && forall|i: int| 0 <= i < a.len() ==> equal(#[trigger] a[i], b[i])
}

/// Equality of types is reflexive and symmetric, and it holds of two types
/// exactly when they are the same variant with equal payloads: equal widths
/// and lengths, equal element types, and equal types at each place of the
/// fields and of the arguments.
pub proof fn lemma_type_equality(a: Type, b: Type)
    ensures
        equal(a, a),
        equal(a, b) == equal(b, a),
        equal(a, b) <==> match (a, b) {
            (Type::Integer(x), Type::Integer(y)) => x == y,
            (Type::Float(x), Type::Float(y)) => x == y,
            (Type::FunctionType(x1, x2), Type::FunctionType(y1, y2)) => types_equal_spec(x1@, y1@)
                && equal(*x2, *y2),
            (Type::Pointer(x), Type::Pointer(y)) => equal(*x, *y),
            (Type::Array(n, x), Type::Array(m, y)) => n == m && equal(*x, *y),
            (Type::Struct(x), Type::Struct(y)) => types_equal_spec(x@, y@),
            (Type::Void, Type::Void) => true,
            (Type::Branch, Type::Branch) => true,
            _ => false,
        },
{
    match (a, b) {
        (Type::FunctionType(x1, x2), Type::FunctionType(y1, y2)) => {
            lemma_types_equality(x1@, y1@);
        },
        (Type::Struct(x), Type::Struct(y)) => {
            lemma_types_equality(x@, y@);
        },
        _ => {},
    }
}

/// Two sequences of types have equal values exactly when they hold equal
/// types at each place.
pub proof fn lemma_types_equality(a: Seq<Type>, b: Seq<Type>)
    ensures
        types_view(a) == types_view(b) <==> types_equal_spec(a, b),
{
    if types_equal_spec(a, b) {
        assert(types_view(a) =~= types_view(b));
    }
    if types_view(a) == types_view(b) {
        assert(types_view(a).len() == types_view(b).len());
        assert forall|i: int| 0 <= i < a.len() implies equal(#[trigger] a[i], b[i]) by {
            assert(types_view(a)[i] == types_view(b)[i]);
        }
    }
}

/// Copies a vector of types.
pub(crate) fn clone_types(v: &Vec<Type>) -> (r: Vec<Type>)
    ensures
        types_view(r@) == types_view(v@),
    decreases v, 0nat,
{
    let mut out: Vec<Type> = Vec::new();
    let mut i: usize = 0;
    while i < v.len()
        invariant
            0 <= i <= v.len(),
            out.len() == i,
            forall|j: int| 0 <= j < i ==> type_view(out@[j]) == type_view(v@[j]),
        decreases v.len() - i,
    {
        out.push(clone_type(&v[i]));
        i += 1;
    }
    assert(types_view(out@) =~= types_view(v@));
    out
}

/// Copies a type.
pub(crate) fn clone_type(t: &Type) -> (r: Type)
    ensures
        r@ == t@,
    decreases t, 1nat,
{
    match t {
        Type::Integer(bits) => Type::Integer(*bits),
        Type::Float(bits) => Type::Float(*bits),
        Type::FunctionType(args, ret) => Type::FunctionType(
            clone_types(args),
            Box::new(clone_type(ret)),
        ),
        Type::Pointer(elem) => Type::Pointer(Box::new(clone_type(elem))),
        Type::Array(len, elem) => Type::Array(*len, Box::new(clone_type(elem))),
        Type::Struct(fields) => Type::Struct(clone_types(fields)),
        Type::Void => Type::Void,
        Type::Branch => Type::Branch,
    }
}

impl Clone for Type {
    fn clone(&self) -> (r: Self)
        ensures
            r@ == self@,
    {
        clone_type(self)
    }
}

/// Appends the texts of the types of `v`, separated by `, `, to `out`.
fn push_joined_types(out: &mut String, v: &Vec<Type>)
    ensures
        final(out)@ == old(out)@ + join(types_text(types_view(v@)), ", "@),
    decreases v, 0nat,
{
    let ghost texts = types_text(types_view(v@));
    let mut i: usize = 0;
    assert(texts.subrange(0, 0) =~= Seq::<Seq<char>>::empty());
    while i < v.len()
        invariant
            0 <= i <= v.len(),
            texts == types_text(types_view(v@)),
            texts.len() == v.len(),
            out@ == old(out)@ + join(texts.subrange(0, i as int), ", "@),
        decreases v.len() - i,
    {
        if i > 0 {
            out.append(", ");
        }
        push_type(out, &v[i]);
        proof {
            lemma_join_step(texts, ", "@, i as int);
            assert(texts[i as int] == type_text(type_view(v@[i as int])));
            assert(out@ =~= old(out)@ + join(texts.subrange(0, i + 1), ", "@));
        }
        i += 1;
    }
    assert(texts.subrange(0, v.len() as int) =~= texts);
}

/// Appends the text of `t` to `out`.
pub(crate) fn push_type(out: &mut String, t: &Type)
    ensures
        final(out)@ == old(out)@ + type_text(t@),
    decreases t, 1nat,
{
    match t {
        Type::Integer(bits) => {
            out.append("i");
            push_decimal(out, *bits as u64);
            assert(out@ =~= old(out)@ + type_text(t@));
        },
        Type::Float(bits) => {
            out.append("f");
            push_decimal(out, *bits as u64);
            assert(out@ =~= old(out)@ + type_text(t@));
        },
        Type::FunctionType(args, ret) => {
            push_joined_types(out, args);
            out.append(" -> ");
            push_type(out, ret);
            assert(out@ =~= old(out)@ + type_text(t@));
        },
        Type::Pointer(elem) => {
            push_type(out, elem);
            out.append("*");
            assert(out@ =~= old(out)@ + type_text(t@));
        },
        Type::Array(len, elem) => {
            out.append("[");
            push_decimal(out, *len as u64);
            out.append(" x ");
            push_type(out, elem);
            out.append("]");
            assert(out@ =~= old(out)@ + type_text(t@));
        },
        Type::Struct(fields) => {
            out.append("{ ");
            push_joined_types(out, fields);
            out.append(" }");
            assert(out@ =~= old(out)@ + type_text(t@));
        },
        Type::Void => {
            out.append("void");
        },
        Type::Branch => {
            out.append("branch");
        },
    }
}

impl Type {
    /// Whether the type is an integer type.
    pub fn is_integer(&self) -> (r: bool)
        ensures
            r == (self@ is Integer),
    {
        match self {
            Type::Integer(_) => true,
            _ => false,
        }
    }

    /// Whether the type is a floating-point type.
    pub fn is_float(&self) -> (r: bool)
        ensures
            r == (self@ is Float),
    {
        match self {
            Type::Float(_) => true,
            _ => false,
        }
    }

    /// Whether the type is a function signature.
    pub fn is_function(&self) -> (r: bool)
        ensures
            r == (self@ is FunctionType),
    {
        match self {
            Type::FunctionType(_, _) => true,
            _ => false,
        }
    }

    /// Whether the type is a pointer type.
    pub fn is_pointer(&self) -> (r: bool)
        ensures
            r == (self@ is Pointer),
    {
        match self {
            Type::Pointer(_) => true,
            _ => false,
        }
    }

    /// Whether the type is an array type.
    pub fn is_array(&self) -> (r: bool)
        ensures
            r == (self@ is Array),
    {
        match self {
            Type::Array(_, _) => true,
            _ => false,
        }
    }

    /// Whether the type is a structure type.
    pub fn is_struct(&self) -> (r: bool)
        ensures
            r == (self@ is Struct),
    {
        match self {
            Type::Struct(_) => true,
            _ => false,
        }
    }

    /// Whether the type is the void type.
    pub fn is_void(&self) -> (r: bool)
        ensures
            r == (self@ is Void),
    {
        match self {
            Type::Void => true,
            _ => false,
        }
    }

    /// Whether the type is the type of branch targets.
    pub fn is_branch(&self) -> (r: bool)
        ensures
            r == (self@ is Branch),
    {
        match self {
            Type::Branch => true,
            _ => false,
        }
    }

    /// The type that a pointer type points to.
    pub fn get_pointer_element_type(&self) -> (r: Type)
        requires
            self@ is Pointer,
        ensures
            r@ == *self@->Pointer_0,
    {
        match self {
            Type::Pointer(ty) => clone_type(ty),
            _ => vstd::pervasive::unreached(),
        }
    }

    /// The return type of a function signature.
    pub fn get_function_return_type(&self) -> (r: Type)
        requires
            self@ is FunctionType,
        ensures
            r@ == *self@->FunctionType_1,
    {
        match self {
            Type::FunctionType(_, ty) => clone_type(ty),
            _ => vstd::pervasive::unreached(),
        }
    }

    /// The argument types of a function signature.
    pub fn get_function_argument_types(&self) -> (r: &Vec<Type>)
        requires
            self@ is FunctionType,
        ensures
            types_view(r@) == self@->FunctionType_0,
    {
        match self {
            Type::FunctionType(tys, _) => tys,
            _ => vstd::pervasive::unreached(),
        }
    }

    /// The type of the argument at `index` of a function signature.
    pub fn get_function_argument_type(&self, index: usize) -> (r: Type)
        requires
            self@ is FunctionType,
            index < self@->FunctionType_0.len(),
        ensures
            r@ == self@->FunctionType_0[index as int],
    {
        match self {
            Type::FunctionType(tys, _) => {
                assert(types_view(tys@).len() == tys@.len());
                assert(types_view(tys@)[index as int] == type_view(tys@[index as int]));
                clone_type(&tys[index])
            },
            _ => vstd::pervasive::unreached(),
        }
    }

    /// The type of pointers to this type.
    pub fn get_pointer_to(&self) -> (r: Type)
        ensures
            r@ == TypeView::Pointer(Box::new(self@)),
    {
        Type::Pointer(Box::new(clone_type(self)))
    }

    /// Whether the type is a function signature.
    pub fn is_function_type(&self) -> (r: bool)
        ensures
            r == (self@ is FunctionType),
    {
        match self {
            Type::FunctionType(_, _) => true,
            _ => false,
        }
    }

    /// Renders the type.
    pub fn to_string(&self) -> (r: String)
        ensures
            r@ == type_text(self@),
    {
        let mut out = String::new();
        push_type(&mut out, self);
        assert(out@ =~= type_text(self@));
        out
    }
}

/// What every entity of the graph has: a type, a name for printing, and the
/// list of the values that refer to it. The list only ever grows.
#[derive(Debug)]
pub struct Value {
    ty: Type,
    use_list: Vec<Value>,
    name: String,
}

/// The mathematical value of a [`Value`].
pub struct ValueView {
    pub ty: TypeView,
    pub name: Seq<char>,
    pub use_list: Seq<ValueView>,
}

/// The value of a [`Value`].
pub closed spec fn value_view(v: Value) -> ValueView
    decreases v,
{
    ValueView {
        ty: type_view(v.ty),
        name: v.name@,
        use_list: Seq::new(
            v.use_list@.len(),
            |i: int|
                if 0 <= i < v.use_list@.len() {
                    value_view(v.use_list@[i])
                } else {
                    arbitrary()
                },
        ),
    }
}

/// The values of a sequence of [`Value`]s, one by one.
pub open spec fn values_view(v: Seq<Value>) -> Seq<ValueView> {
    Seq::new(v.len(), |i: int| value_view(v[i]))
}

impl View for Value {
    type V = ValueView;

    open spec fn view(&self) -> ValueView {
        value_view(*self)
    }
}

/// Copies a vector of values.
pub(crate) fn clone_values(v: &Vec<Value>) -> (r: Vec<Value>)
    ensures
        values_view(r@) == values_view(v@),
    decreases v, 0nat,
{
    let mut out: Vec<Value> = Vec::new();
    let mut i: usize = 0;
    while i < v.len()
        invariant
            0 <= i <= v.len(),
            out.len() == i,
            forall|j: int| 0 <= j < i ==> value_view(out@[j]) == value_view(v@[j]),
        decreases v.len() - i,
    {
        out.push(clone_value(&v[i]));
        i += 1;
    }
    assert(values_view(out@) =~= values_view(v@));
    out
}

/// Copies a value.
pub(crate) fn clone_value(v: &Value) -> (r: Value)
    ensures
        r@ == v@,
    decreases v, 1nat,
{
    let use_list = clone_values(&v.use_list);
    let r = Value { ty: clone_type(&v.ty), use_list, name: v.name.clone() };
    assert(value_view(r).use_list =~= values_view(r.use_list@));
    assert(value_view(*v).use_list =~= values_view(v.use_list@));
    r
}

impl Clone for Value {
    fn clone(&self) -> (r: Self)
        ensures
            r@ == self@,
    {
        clone_value(self)
    }
}

impl Value {
    /// Creates a value of the given type and name that nothing uses yet.
    pub fn new(ty: Type, name: String) -> (r: Self)
        ensures
            r@ == (ValueView { ty: ty@, name: name@, use_list: Seq::empty() }),
    {
        let r = Self { ty, use_list: Vec::new(), name };
        assert(r@.use_list =~= Seq::empty());
        r
    }

    /// The type of the value.
    pub fn get_type(&self) -> (r: Type)
        ensures
            r@ == self@.ty,
    {
        clone_type(&self.ty)
    }

    /// The name of the value.
    pub fn get_name(&self) -> (r: String)
        ensures
            r@ == self@.name,
    {
        self.name.clone()
    }

    /// The values that refer to this one, oldest first.
    pub fn get_use_list(&self) -> (r: &Vec<Value>)
        ensures
            values_view(r@) == self@.use_list,
    {
        assert(values_view(self.use_list@) =~= self@.use_list);
        &self.use_list
    }

    /// Records that `value` refers to this one. Earlier records stay as they are.
    pub fn add_use(&mut self, value: Value)
        ensures
            final(self)@ == (ValueView {
                use_list: old(self)@.use_list.push(value@),
                ..old(self)@
            }),
    {
        self.use_list.push(value);
        assert(self@.use_list =~= old(self)@.use_list.push(value@));
    }

    /// Renders the value as its name.
    pub fn to_string(&self) -> (r: String)
        ensures
            r@ == self@.name,
    {
        self.name.clone()
    }
}

/// Any entity of the graph: a function, a basic block or an instruction.
#[derive(Debug)]
pub enum ValueEntity {
    Function(Function),
    BasicBlock(BasicBlock),
    Instruction(Instruction),
}

/// The mathematical value of a [`ValueEntity`].
pub enum EntityView {
    Function(FunctionView),
    BasicBlock(BlockView),
    Instruction(InstructionView),
}

/// The value of a [`ValueEntity`].
pub open spec fn entity_view(e: ValueEntity) -> EntityView
    decreases e,
{
    match e {
        ValueEntity::Function(function) => EntityView::Function(function_view(function)),
        ValueEntity::BasicBlock(basic_block) => EntityView::BasicBlock(block_view(basic_block)),
        ValueEntity::Instruction(instruction) => EntityView::Instruction(
            instruction_view(instruction),
        ),
    }
}

impl View for ValueEntity {
    type V = EntityView;

    open spec fn view(&self) -> EntityView {
        entity_view(*self)
    }
}

/// Copies an entity.
pub(crate) fn clone_entity(e: &ValueEntity) -> (r: ValueEntity)
    ensures
        r@ == e@,
    decreases e,
{
    match e {
        ValueEntity::Function(function) => ValueEntity::Function(clone_function(function)),
        ValueEntity::BasicBlock(basic_block) => ValueEntity::BasicBlock(clone_block(basic_block)),
        ValueEntity::Instruction(instruction) => ValueEntity::Instruction(
            clone_instruction(instruction),
        ),
    }
}

impl Clone for ValueEntity {
    fn clone(&self) -> (r: Self)
        ensures
            r@ == self@,
    {
        clone_entity(self)
    }
}

impl EntityView {
    /// The type of the entity.
    pub open spec fn ty(self) -> TypeView {
        match self {
            EntityView::Function(function) => function.ty(),
            EntityView::BasicBlock(basic_block) => basic_block.value.ty,
            EntityView::Instruction(instruction) => instruction.value.ty,
        }
    }

    /// The name under which the entity stands as an operand.
    pub open spec fn name(self) -> Seq<char> {
        match self {
            EntityView::Function(function) => function.name,
            EntityView::BasicBlock(basic_block) => basic_block.value.name,
            EntityView::Instruction(instruction) => instruction.name(),
        }
    }
}

impl From<Function> for ValueEntity {
    fn from(function: Function) -> (r: Self) {
        Self::Function(function)
    }
}

impl FromSpecImpl<Function> for ValueEntity {
    open spec fn obeys_from_spec() -> bool {
        true
    }

    open spec fn from_spec(function: Function) -> Self {
        Self::Function(function)
    }
}

impl From<BasicBlock> for ValueEntity {
    fn from(basic_block: BasicBlock) -> (r: Self) {
        Self::BasicBlock(basic_block)
    }
}

impl FromSpecImpl<BasicBlock> for ValueEntity {
    open spec fn obeys_from_spec() -> bool {
        true
    }

    open spec fn from_spec(basic_block: BasicBlock) -> Self {
        Self::BasicBlock(basic_block)
    }
}

impl From<Instruction> for ValueEntity {
    fn from(instruction: Instruction) -> (r: Self) {
        Self::Instruction(instruction)
    }
}

impl FromSpecImpl<Instruction> for ValueEntity {
    open spec fn obeys_from_spec() -> bool {
        true
    }

    open spec fn from_spec(instruction: Instruction) -> Self {
        Self::Instruction(instruction)
    }
}

impl ValueEntity {
    /// The type of the entity.
    pub fn get_type(&self) -> (r: Type)
        ensures
            r@ == self@.ty(),
    {
        match self {
            ValueEntity::Function(function) => function.get_type(),
            ValueEntity::BasicBlock(basic_block) => basic_block.get_type(),
            ValueEntity::Instruction(instruction) => instruction.get_type(),
        }
    }

    /// The name under which the entity stands as an operand.
    pub fn get_name(&self) -> (r: String)
        ensures
            r@ == self@.name(),
    {
        match self {
            ValueEntity::Function(function) => function.get_name(),
            ValueEntity::BasicBlock(basic_block) => basic_block.get_name(),
            ValueEntity::Instruction(instruction) => instruction.get_name(),
        }
    }

    /// The text by which an instruction refers to the entity: its name.
    pub fn get_as_ref(&self) -> (r: String)
        ensures
            r@ == self@.name(),
    {
        self.get_name()
    }
}

/// The full text of an entity: that of the function, block or instruction.
pub open spec fn entity_text(e: EntityView) -> Seq<char>
    decreases e,
{
    match e {
        EntityView::Function(function) => function_text(function),
        EntityView::BasicBlock(basic_block) => block_text(basic_block),
        EntityView::Instruction(instruction) => instruction_text(instruction),
    }
}

/// Whether an entity can be rendered.
pub open spec fn entity_printable(e: EntityView) -> bool
    decreases e,
{
    match e {
        EntityView::Function(function) => function_printable(function),
        EntityView::BasicBlock(basic_block) => block_printable(basic_block),
        EntityView::Instruction(instruction) => instruction_printable(instruction),
    }
}

/// Decides whether an entity can be rendered.
pub(crate) fn entity_is_printable(e: &ValueEntity) -> (r: bool)
    ensures
        r == entity_printable(e@),
    decreases e,
{
    match e {
        ValueEntity::Function(function) => function_is_printable(function),
        ValueEntity::BasicBlock(basic_block) => block_is_printable(basic_block),
        ValueEntity::Instruction(instruction) => instruction_is_printable(instruction),
    }
}

/// Appends the full text of an entity to `out`.
pub(crate) fn push_entity(out: &mut String, e: &ValueEntity)
    requires
        entity_printable(e@),
    ensures
        final(out)@ == old(out)@ + entity_text(e@),
    decreases e,
{
    match e {
        ValueEntity::Function(function) => push_function(out, function),
        ValueEntity::BasicBlock(basic_block) => push_block(out, basic_block),
        ValueEntity::Instruction(instruction) => push_instruction(out, instruction),
    }
}

impl ValueEntity {
    /// Whether the entity can be rendered.
    pub fn is_printable(&self) -> (r: bool)
        ensures
            r == entity_printable(self@),
    {
        entity_is_printable(self)
    }

    /// Renders the entity in full.
    pub fn to_string(&self) -> (r: String)
        requires
            entity_printable(self@),
        ensures
            r@ == entity_text(self@),
    {
        let mut out = String::new();
        push_entity(&mut out, self);
        assert(out@ =~= entity_text(self@));
        out
    }
}

} // verus!
