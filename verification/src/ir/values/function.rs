//! Functions: a signature, a linkage and the blocks of the body.

use vstd::prelude::*;
use vstd::string::StringExecFns;

use crate::ir::linkage::Linkage;
use crate::ir::values::basic_block::BasicBlock;
use crate::ir::values::basic_block::block_is_printable;
use crate::ir::values::basic_block::block_printable;
use crate::ir::values::basic_block::block_text;
use crate::ir::values::basic_block::block_view;
use crate::ir::values::basic_block::blocks_view;
use crate::ir::values::basic_block::BlockView;
use crate::ir::values::basic_block::clone_block;
use crate::ir::values::basic_block::push_block;
use crate::ir::values::value::clone_type;
use crate::ir::values::value::clone_types;
use crate::ir::values::value::clone_values;
use crate::ir::values::value::push_type;
use crate::ir::values::value::Type;
use crate::ir::values::value::type_text;
use crate::ir::values::value::types_view;
use crate::ir::values::value::TypeView;
use crate::ir::values::value::Value;
use crate::ir::values::value::values_view;
use crate::ir::values::value::ValueView;
use crate::text::concat;
use crate::text::join;
use crate::text::lemma_concat_step;
use crate::text::lemma_join_step;

verus! {

/// The place of a function in its module: its index among the module's functions.
#[derive(Debug, Clone, Copy, PartialEq, Eq, Structural)]
pub struct FunctionRef {
    pub index: usize,
}

/// A function: its name, its signature, its parameters, whether it takes
/// further arguments, its linkage, and the blocks of its body in order. Its
/// type is always the function type of its signature.
#[derive(Debug)]
pub struct Function {
    name: String,
    argument_types: Vec<Type>,
    return_type: Type,
    blocks: Vec<BasicBlock>,
    params: Vec<Value>,
    is_var_arg: bool,
    linkage: Linkage,
}

/// The mathematical value of a [`Function`].
pub struct FunctionView {
    pub name: Seq<char>,
    pub argument_types: Seq<TypeView>,
    pub return_type: TypeView,
    pub blocks: Seq<BlockView>,
    pub params: Seq<ValueView>,
    pub is_var_arg: bool,
    pub linkage: Linkage,
}

/// The value of a [`Function`].
pub closed spec fn function_view(f: Function) -> FunctionView
    decreases f,
{
    FunctionView {
        name: f.name@,
        argument_types: types_view(f.argument_types@),
        return_type: f.return_type@,
        blocks: Seq::new(
            f.blocks@.len(),
            |i: int|
                if 0 <= i < f.blocks@.len() {
                    block_view(f.blocks@[i])
                } else {
                    arbitrary()
                },
        ),
        params: values_view(f.params@),
        is_var_arg: f.is_var_arg,
        linkage: f.linkage,
    }
}

impl View for Function {
    type V = FunctionView;

    open spec fn view(&self) -> FunctionView {
        function_view(*self)
    }
}

impl FunctionView {
    /// The type of the function: the function type of its signature.
    pub open spec fn ty(self) -> TypeView {
        TypeView::FunctionType(self.argument_types, Box::new(self.return_type))
    }

    /// The function of the given name, signature and linkage that has no
    /// blocks and no parameter values yet.
    pub open spec fn declared(
        name: Seq<char>,
        argument_types: Seq<TypeView>,
        return_type: TypeView,
        linkage: Linkage,
        is_var_arg: bool,
    ) -> FunctionView {
        FunctionView {
            name,
            argument_types,
            return_type,
            blocks: Seq::empty(),
            params: Seq::empty(),
            is_var_arg,
            linkage,
        }
    }

    /// Whether the function is declared here and defined elsewhere.
    pub open spec fn is_external(self) -> bool {
        self.linkage == Linkage::ExternalLinkage
    }

    /// What holds of every function: one that is only declared has no blocks.
    pub open spec fn wf(self) -> bool {
        self.is_external() ==> self.blocks.len() == 0
    }

    /// What holds of the function at `index` of a module: it is well formed,
    /// and each of its blocks names it as its parent.
    pub open spec fn wf_at(self, index: int) -> bool {
        &&& self.wf()
        &&& forall|b: int|
            0 <= b < self.blocks.len() ==> (#[trigger] self.blocks[b]).parent.index == index
    }
}

/// Copies a vector of blocks.
pub(crate) fn clone_blocks(v: &Vec<BasicBlock>) -> (r: Vec<BasicBlock>)
    ensures
        blocks_view(r@) == blocks_view(v@),
    decreases v, 0nat,
{
    let mut out: Vec<BasicBlock> = Vec::new();
    let mut i: usize = 0;
    while i < v.len()
        invariant
            0 <= i <= v.len(),
            out.len() == i,
            forall|j: int| 0 <= j < i ==> block_view(out@[j]) == block_view(v@[j]),
        decreases v.len() - i,
    {
        out.push(clone_block(&v[i]));
        i += 1;
    }
    assert(blocks_view(out@) =~= blocks_view(v@));
    out
}

/// Copies a function.
pub(crate) fn clone_function(f: &Function) -> (r: Function)
    ensures
        r@ == f@,
    decreases f, 1nat,
{
    let blocks = clone_blocks(&f.blocks);
    let r = Function {
        name: f.name.clone(),
        argument_types: clone_types(&f.argument_types),
        return_type: clone_type(&f.return_type),
        blocks,
        params: clone_values(&f.params),
        is_var_arg: f.is_var_arg,
        linkage: f.linkage,
    };
    assert(function_view(r).blocks =~= blocks_view(r.blocks@));
    assert(function_view(*f).blocks =~= blocks_view(f.blocks@));
    r
}

impl Clone for Function {
    fn clone(&self) -> (r: Self)
        ensures
            r@ == self@,
    {
        clone_function(self)
    }
}

/// The index of the first block of `blocks`, at or after `from`, whose name is `name`.
pub open spec fn find_block(blocks: Seq<BlockView>, name: Seq<char>, from: int) -> Option<int>
    decreases blocks.len() - from,
{
    if from < 0 || from >= blocks.len() {
        None
    } else if blocks[from].value.name == name {
        Some(from)
    } else {
        find_block(blocks, name, from + 1)
    }
}

/// The index of the first parameter of `params`, at or after `from`, whose name is `name`.
pub open spec fn find_param(params: Seq<ValueView>, name: Seq<char>, from: int) -> Option<int>
    decreases params.len() - from,
{
    if from < 0 || from >= params.len() {
        None
    } else if params[from].name == name {
        Some(from)
    } else {
        find_param(params, name, from + 1)
    }
}

/// The types of a sequence of values, one by one.
pub open spec fn types_of(params: Seq<ValueView>) -> Seq<TypeView> {
    Seq::new(params.len(), |i: int| params[i].ty)
}

impl Function {
    /// Creates a function without blocks whose signature takes the types of
    /// `params` and returns `ret_ty`.
    pub fn new(
        name: String,
        params: Vec<Value>,
        ret_ty: Type,
        is_var_arg: bool,
        linkage: Linkage,
    ) -> (r: Self)
        ensures
            r@ == (FunctionView {
                name: name@,
                argument_types: types_of(values_view(params@)),
                return_type: ret_ty@,
                blocks: Seq::empty(),
                params: values_view(params@),
                is_var_arg,
                linkage,
            }),
            r@.wf(),
    {
        let mut argument_types: Vec<Type> = Vec::new();
        let mut i: usize = 0;
        while i < params.len()
            invariant
                0 <= i <= params.len(),
                argument_types.len() == i,
                forall|j: int| 0 <= j < i ==> argument_types@[j]@ == params@[j]@.ty,
            decreases params.len() - i,
        {
            argument_types.push(params[i].get_type());
            i += 1;
        }
        let r = Self {
            name,
            argument_types,
            return_type: ret_ty,
            blocks: vec![],
            params,
            is_var_arg,
            linkage,
        };
        assert(r@.blocks =~= Seq::empty());
        assert(r@.argument_types =~= types_of(values_view(params@)));
        r
    }

    /// Creates a function without blocks and without parameter values whose
    /// type is the function type `ty`.
    pub fn create(name: String, ty: Type, linkage: Linkage, is_varg: bool) -> (r: Self)
        requires
            ty@ is FunctionType,
        ensures
            r@ == FunctionView::declared(
                name@,
                ty@->FunctionType_0,
                *ty@->FunctionType_1,
                linkage,
                is_varg,
            ),
            r@.ty() == ty@,
            r@.wf(),
    {
        match ty {
            Type::FunctionType(argument_types, return_type) => {
                let r = Self {
                    name,
                    argument_types,
                    return_type: *return_type,
                    blocks: vec![],
                    params: vec![],
                    is_var_arg: is_varg,
                    linkage,
                };
                assert(r@.blocks =~= Seq::empty());
                assert(r@.params =~= Seq::empty());
                r
            },
            _ => vstd::pervasive::unreached(),
        }
    }

    /// Whether the function is declared here and defined elsewhere.
    pub fn is_external(&self) -> (r: bool)
        ensures
            r == self@.is_external(),
    {
        self.linkage == Linkage::ExternalLinkage
    }

    /// Whether the function takes further arguments after its parameters.
    pub fn is_var_arg(&self) -> (r: bool)
        ensures
            r == self@.is_var_arg,
    {
        self.is_var_arg
    }

    /// The name of the function.
    pub fn get_name(&self) -> (r: String)
        ensures
            r@ == self@.name,
    {
        self.name.clone()
    }

    /// Finds the index of the first block named `name`.
    fn block_index(&self, name: &str) -> (r: Option<usize>)
        ensures
            match r {
                Some(i) => find_block(self@.blocks, name@, 0) == Some(i as int) && i
                    < self.blocks.len(),
                None => find_block(self@.blocks, name@, 0) is None,
            },
            self@.blocks.len() == self.blocks.len(),
    {
        let wanted = String::from_str(name);
        let mut i: usize = 0;
        while i < self.blocks.len()
            invariant
                0 <= i <= self.blocks.len(),
                wanted@ == name@,
                self@.blocks.len() == self.blocks.len(),
                find_block(self@.blocks, name@, 0) == find_block(self@.blocks, name@, i as int),
            decreases self.blocks.len() - i,
        {
            assert(self@.blocks[i as int] == self.blocks[i as int]@);
            if self.blocks[i].get_name() == wanted {
                return Some(i);
            }
            i += 1;
        }
        None
    }

    /// The first block named `name`, if there is one.
    pub fn get_block(&self, name: &str) -> (r: Option<&BasicBlock>)
        ensures
            match find_block(self@.blocks, name@, 0) {
                Some(i) => r is Some && r->Some_0@ == self@.blocks[i],
                None => r is None,
            },
    {
        match self.block_index(name) {
            Some(i) => {
                assert(self@.blocks[i as int] == self.blocks[i as int]@);
                Some(&self.blocks[i])
            },
            None => None,
        }
    }

    /// The first block named `name`, if there is one, for the caller to change.
    pub fn get_block_mut(&mut self, name: &str) -> (r: Option<&mut BasicBlock>)
        ensures
            match find_block(old(self)@.blocks, name@, 0) {
                Some(i) => r is Some && r->Some_0@ == old(self)@.blocks[i] && final(self)@ == (
                FunctionView {
                    blocks: old(self)@.blocks.update(i, final(r->Some_0)@),
                    ..old(self)@
                }),
                None => r is None && final(self)@ == old(self)@,
            },
    {
        proof {
            assert forall|f: Function| (#[trigger] function_view(f)).blocks == blocks_view(
                f.blocks@,
            ) by {
                assert(function_view(f).blocks =~= blocks_view(f.blocks@));
            }
        }
        match self.block_index(name) {
            Some(i) => {
                assert(self@.blocks[i as int] == self.blocks[i as int]@);
                let r = &mut self.blocks[i];
                proof {
                    assert(blocks_view(old(self).blocks@.update(i as int, *final(r)))
                        =~= old(self)@.blocks.update(i as int, final(r)@));
                }
                Some(r)
            },
            None => None,
        }
    }

    /// Appends `block` to the body of a function that is defined here.
    pub fn add_block(&mut self, block: BasicBlock)
        requires
            !old(self)@.is_external(),
        ensures
            final(self)@ == (FunctionView {
                blocks: old(self)@.blocks.push(block@),
                ..old(self)@
            }),
            final(self)@.wf(),
    {
        self.blocks.push(block);
        assert(self@.blocks =~= old(self)@.blocks.push(block@));
    }

    /// The blocks of the function, in order.
    pub fn get_blocks(&self) -> (r: &Vec<BasicBlock>)
        ensures
            blocks_view(r@) == self@.blocks,
    {
        assert(blocks_view(self.blocks@) =~= self@.blocks);
        &self.blocks
    }

    /// Finds the index of the first parameter named `name`.
    fn param_index(&self, name: &str) -> (r: Option<usize>)
        ensures
            match r {
                Some(i) => find_param(self@.params, name@, 0) == Some(i as int) && i
                    < self.params.len(),
                None => find_param(self@.params, name@, 0) is None,
            },
    {
        let wanted = String::from_str(name);
        let mut i: usize = 0;
        while i < self.params.len()
            invariant
                0 <= i <= self.params.len(),
                wanted@ == name@,
                find_param(self@.params, name@, 0) == find_param(self@.params, name@, i as int),
            decreases self.params.len() - i,
        {
            if self.params[i].get_name() == wanted {
                return Some(i);
            }
            i += 1;
        }
        None
    }

    /// The first parameter named `name`, if there is one.
    pub fn get_param(&self, name: &str) -> (r: Option<&Value>)
        ensures
            match find_param(self@.params, name@, 0) {
                Some(i) => r is Some && r->Some_0@ == self@.params[i],
                None => r is None,
            },
    {
        match self.param_index(name) {
            Some(i) => Some(&self.params[i]),
            None => None,
        }
    }

    /// The first parameter named `name`, if there is one, for the caller to change.
    pub fn get_param_mut(&mut self, name: &str) -> (r: Option<&mut Value>)
        ensures
            match find_param(old(self)@.params, name@, 0) {
                Some(i) => r is Some && r->Some_0@ == old(self)@.params[i] && final(self)@ == (
                FunctionView {
                    params: old(self)@.params.update(i, final(r->Some_0)@),
                    ..old(self)@
                }),
                None => r is None && final(self)@ == old(self)@,
            },
    {
        match self.param_index(name) {
            Some(i) => {
                let r = &mut self.params[i];
                proof {
                    assert(values_view(old(self).params@.update(i as int, *final(r)))
                        =~= old(self)@.params.update(i as int, final(r)@));
                }
                Some(r)
            },
            None => None,
        }
    }

    /// The parameter at `index`, if there is one.
    pub fn get_param_by_index(&self, index: usize) -> (r: Option<&Value>)
        ensures
            match r {
                Some(p) => index < self@.params.len() && p@ == self@.params[index as int],
                None => index >= self@.params.len(),
            },
    {
        if index < self.params.len() {
            Some(&self.params[index])
        } else {
            None
        }
    }

    /// The parameter at `index`, if there is one, for the caller to change.
    pub fn get_param_by_index_mut(&mut self, index: usize) -> (r: Option<&mut Value>)
        ensures
            match r {
                Some(p) => index < old(self)@.params.len() && p@ == old(self)@.params[index as int]
                    && final(self)@ == (FunctionView {
                    params: old(self)@.params.update(index as int, final(p)@),
                    ..old(self)@
                }),
                None => index >= old(self)@.params.len() && final(self)@ == old(self)@,
            },
    {
        if index < self.params.len() {
            let r = &mut self.params[index];
            proof {
                assert(values_view(old(self).params@.update(index as int, *final(r)))
                    =~= old(self)@.params.update(index as int, final(r)@));
            }
            Some(r)
        } else {
            None
        }
    }

    /// The block at `index`, if there is one.
    pub fn get_block_by_index(&self, index: usize) -> (r: Option<&BasicBlock>)
        ensures
            match r {
                Some(b) => index < self@.blocks.len() && b@ == self@.blocks[index as int],
                None => index >= self@.blocks.len(),
            },
    {
        if index < self.blocks.len() {
            Some(&self.blocks[index])
        } else {
            None
        }
    }

    /// The block at `index`, if there is one, for the caller to change.
    pub fn get_block_by_index_mut(&mut self, index: usize) -> (r: Option<&mut BasicBlock>)
        ensures
            match r {
                Some(b) => index < old(self)@.blocks.len() && b@ == old(self)@.blocks[index as int]
                    && final(self)@ == (FunctionView {
                    blocks: old(self)@.blocks.update(index as int, final(b)@),
                    ..old(self)@
                }),
                None => index >= old(self)@.blocks.len() && final(self)@ == old(self)@,
            },
    {
        proof {
            assert forall|f: Function| (#[trigger] function_view(f)).blocks == blocks_view(
                f.blocks@,
            ) by {
                assert(function_view(f).blocks =~= blocks_view(f.blocks@));
            }
        }
        if index < self.blocks.len() {
            let r = &mut self.blocks[index];
            proof {
                assert(blocks_view(old(self).blocks@.update(index as int, *final(r)))
                    =~= old(self)@.blocks.update(index as int, final(r)@));
            }
            Some(r)
        } else {
            None
        }
    }

    /// The return type of the function's signature.
    pub fn get_function_return_type(&self) -> (r: Type)
        ensures
            r@ == self@.return_type,
    {
        clone_type(&self.return_type)
    }

    /// The type of the function: the function type of its signature.
    pub fn get_type(&self) -> (r: Type)
        ensures
            r@ == self@.ty(),
    {
        let argument_types = clone_types(&self.argument_types);
        Type::FunctionType(argument_types, Box::new(clone_type(&self.return_type)))
    }

    /// The linkage of the function.
    pub fn get_linkage(&self) -> (r: &Linkage)
        ensures
            *r == self@.linkage,
    {
        &self.linkage
    }
}

/// The parameters as they are printed: name, colon and type, each followed by `, `.
pub open spec fn parameter_pieces(params: Seq<ValueView>) -> Seq<Seq<char>> {
    Seq::new(params.len(), |i: int| params[i].name + ": "@ + type_text(params[i].ty) + ", "@)
}

/// The parameter list between the brackets of a function header. A function
/// that takes further arguments ends it with `...`, after `, ` where it has
/// parameters.
pub open spec fn parameter_list_text(f: FunctionView) -> Seq<char> {
    concat(parameter_pieces(f.params)) + if f.is_var_arg {
        if f.params.len() > 0 {
            ", ..."@
        } else {
            "..."@
        }
    } else {
        Seq::empty()
    }
}

/// The texts of the blocks of a function, one by one.
pub open spec fn block_texts(blocks: Seq<BlockView>) -> Seq<Seq<char>>
    decreases blocks,
{
    Seq::new(
        blocks.len(),
        |i: int|
            if 0 <= i < blocks.len() {
                block_text(blocks[i])
            } else {
                Seq::empty()
            },
    )
}

/// The header of a rendered function after `declare` or `define`: linkage,
/// name, parameter list and return type.
pub open spec fn header_text(f: FunctionView) -> Seq<char> {
    f.linkage.text() + " function @"@ + f.name + "("@ + parameter_list_text(f) + ") -> "@
        + type_text(f.return_type)
}

/// The text of a function: a declaration on one line where the function is
/// external, else a definition whose body holds the blocks in order, an empty
/// line between each two.
pub open spec fn function_text(f: FunctionView) -> Seq<char>
    decreases f,
{
    if f.is_external() {
        "declare "@ + header_text(f) + "\n"@
    } else {
        "define "@ + header_text(f) + " {\n"@ + join(block_texts(f.blocks), "\n"@) + "}\n"@
    }
}

/// Whether a function can be rendered: it is external, or each of its blocks can.
pub open spec fn function_printable(f: FunctionView) -> bool
    decreases f,
{
    f.is_external() || forall|i: int|
        0 <= i < f.blocks.len() ==> block_printable(#[trigger] f.blocks[i])
}

/// Decides whether a function can be rendered.
pub(crate) fn function_is_printable(f: &Function) -> (r: bool)
    ensures
        r == function_printable(f@),
    decreases f,
{
    if f.is_external() {
        return true;
    }
    let mut i: usize = 0;
    while i < f.blocks.len()
        invariant
            0 <= i <= f.blocks.len(),
            !f@.is_external(),
            f@.blocks.len() == f.blocks.len(),
            forall|j: int| 0 <= j < i ==> block_printable(#[trigger] f@.blocks[j]),
        decreases f.blocks.len() - i,
    {
        assert(f@.blocks[i as int] == block_view(f.blocks@[i as int]));
        if !block_is_printable(&f.blocks[i]) {
            return false;
        }
        i += 1;
    }
    true
}

/// Appends the header of a function to `out`.
fn push_header(out: &mut String, f: &Function)
    ensures
        final(out)@ == old(out)@ + header_text(f@),
{
    let ghost pieces = parameter_pieces(f@.params);
    out.append(f.linkage.as_str());
    out.append(" function @");
    out.append(f.name.as_str());
    out.append("(");
    let ghost before = out@;
    assert(before =~= old(out)@ + f@.linkage.text() + " function @"@ + f@.name + "("@);
    let mut i: usize = 0;
    assert(pieces.subrange(0, 0) =~= Seq::<Seq<char>>::empty());
    while i < f.params.len()
        invariant
            0 <= i <= f.params.len(),
            pieces == parameter_pieces(f@.params),
            pieces.len() == f.params.len(),
            out@ == before + concat(pieces.subrange(0, i as int)),
        decreases f.params.len() - i,
    {
        out.append(f.params[i].get_name().as_str());
        out.append(": ");
        push_type(out, &f.params[i].get_type());
        out.append(", ");
        proof {
            lemma_concat_step(pieces, i as int);
            assert(out@ =~= before + concat(pieces.subrange(0, i + 1)));
        }
        i += 1;
    }
    assert(pieces.subrange(0, f.params.len() as int) =~= pieces);
    if f.is_var_arg {
        if f.params.len() > 0 {
            out.append(", ");
        }
        out.append("...");
        proof {
            reveal_strlit(", ");
            reveal_strlit("...");
            reveal_strlit(", ...");
            assert(", ..."@ =~= ", "@ + "..."@);
        }
    }
    assert(out@ =~= before + parameter_list_text(f@));
    out.append(") -> ");
    push_type(out, &f.return_type);
    assert(out@ =~= old(out)@ + header_text(f@));
}

/// Appends the text of a function to `out`.
pub(crate) fn push_function(out: &mut String, f: &Function)
    requires
        function_printable(f@),
    ensures
        final(out)@ == old(out)@ + function_text(f@),
    decreases f,
{
    if f.is_external() {
        out.append("declare ");
        push_header(out, f);
        out.append("\n");
        assert(out@ =~= old(out)@ + function_text(f@));
        return ;
    }
    let ghost texts = block_texts(f@.blocks);
    out.append("define ");
    push_header(out, f);
    out.append(" {\n");
    let ghost before = out@;
    assert(before =~= old(out)@ + "define "@ + header_text(f@) + " {\n"@);
    let mut i: usize = 0;
    assert(texts.subrange(0, 0) =~= Seq::<Seq<char>>::empty());
    while i < f.blocks.len()
        invariant
            0 <= i <= f.blocks.len(),
            function_printable(f@),
            !f@.is_external(),
            texts == block_texts(f@.blocks),
            texts.len() == f.blocks.len(),
            f@.blocks.len() == f.blocks.len(),
            out@ == before + join(texts.subrange(0, i as int), "\n"@),
        decreases f.blocks.len() - i,
    {
        assert(f@.blocks[i as int] == block_view(f.blocks@[i as int]));
        if i > 0 {
            out.append("\n");
        }
        push_block(out, &f.blocks[i]);
        proof {
            lemma_join_step(texts, "\n"@, i as int);
            assert(out@ =~= before + join(texts.subrange(0, i + 1), "\n"@));
        }
        i += 1;
    }
    assert(texts.subrange(0, f.blocks.len() as int) =~= texts);
    out.append("}\n");
    assert(out@ =~= old(out)@ + function_text(f@));
}

impl Function {
    /// Whether the function can be rendered: it is external, or each of its
    /// blocks can.
    pub fn is_printable(&self) -> (r: bool)
        ensures
            r == function_printable(self@),
    {
        function_is_printable(self)
    }

    /// Renders the function.
    pub fn to_string(&self) -> (r: String)
        requires
            function_printable(self@),
        ensures
            r@ == function_text(self@),
    {
        let mut out = String::new();
        push_function(&mut out, self);
        assert(out@ =~= function_text(self@));
        out
    }
}

} // verus!
