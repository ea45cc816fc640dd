//! Modules: the functions of one compilation unit and the table that keeps
//! the names of its top-level symbols unique.

use vstd::prelude::*;
use vstd::string::StringExecFns;

use crate::ir::values::basic_block::BasicBlock;
use crate::ir::values::basic_block::block_printable;
use crate::ir::values::basic_block::BlockRef;
use crate::ir::values::basic_block::BlockView;
use crate::ir::values::function::Function;
use crate::ir::values::function::function_printable;
use crate::ir::values::function::function_text;
use crate::ir::values::function::function_view;
use crate::ir::values::function::FunctionRef;
use crate::ir::values::function::FunctionView;
use crate::ir::values::function::push_function;
use crate::targets::layout::DataLayout;
use crate::targets::triple::TargetTriple;
use crate::text::concat;
use crate::text::decimal;
use crate::text::lemma_concat_step;
use crate::text::lemma_decimal_injective;
use crate::text::push_decimal;

verus! {

/// A module: an ordered sequence of functions, the names handed out to
/// top-level symbols, and the data layout and target triple fixed at creation.
pub struct Module {
    functions: Vec<Function>,
    name: String,
    data_layout: DataLayout,
    target_triple: TargetTriple,
    globals: Vec<String>,
}

/// The mathematical value of a [`Module`].
pub struct ModuleView {
    pub name: Seq<char>,
    pub functions: Seq<FunctionView>,
    pub data_layout: DataLayout,
    pub target_triple: TargetTriple,
    pub globals: Seq<Seq<char>>,
}

/// The values of a sequence of functions, one by one.
pub open spec fn functions_view(v: Seq<Function>) -> Seq<FunctionView> {
    Seq::new(v.len(), |i: int| function_view(v[i]))
}

/// The values of a sequence of strings, one by one.
pub open spec fn names_view(v: Seq<String>) -> Seq<Seq<char>> {
    Seq::new(v.len(), |i: int| v[i]@)
}

impl View for Module {
    type V = ModuleView;

    closed spec fn view(&self) -> ModuleView {
        ModuleView {
            name: self.name@,
            functions: functions_view(self.functions@),
            data_layout: self.data_layout,
            target_triple: self.target_triple,
            globals: names_view(self.globals@),
        }
    }
}

/// The `k`-th name tried for `name` after a collision: `name`, a dot and the
/// numeral of `k`.
pub open spec fn candidate(name: Seq<char>, k: nat) -> Seq<char> {
    name + "."@ + decimal(k)
}

/// Whether the table holds each of the first `k` candidates for `name`.
pub open spec fn taken_below(globals: Seq<Seq<char>>, name: Seq<char>, k: nat) -> bool {
    forall|j: nat| j < k ==> globals.contains(#[trigger] candidate(name, j))
}

/// Whether `k` is the least number whose candidate for `name` the table lacks.
pub open spec fn is_first_free(globals: Seq<Seq<char>>, name: Seq<char>, k: nat) -> bool {
    taken_below(globals, name, k) && !globals.contains(candidate(name, k))
}

/// The least number whose candidate for `name` the table lacks.
pub open spec fn first_free(globals: Seq<Seq<char>>, name: Seq<char>) -> nat {
    choose|k: nat| is_first_free(globals, name, k)
}

/// The name that a top-level symbol gets when `name` is asked for: `name`
/// itself where the table lacks it, else the first candidate that the table lacks.
pub open spec fn global_value_name(globals: Seq<Seq<char>>, name: Seq<char>) -> Seq<char> {
    if !globals.contains(name) {
        name
    } else {
        candidate(name, first_free(globals, name))
    }
}

/// The names that `n` requests for `name` yield, one after another, from an
/// empty table.
pub open spec fn repeated_names(name: Seq<char>, n: nat) -> Seq<Seq<char>>
    decreases n,
{
    if n == 0 {
        Seq::empty()
    } else {
        let before = repeated_names(name, (n - 1) as nat);
        before.push(global_value_name(before, name))
    }
}

/// Candidates with different numbers differ.
pub proof fn lemma_candidate_injective(name: Seq<char>, a: nat, b: nat)
    requires
        candidate(name, a) == candidate(name, b),
    ensures
        a == b,
{
    let prefix = name + "."@;
    assert(candidate(name, a).subrange(prefix.len() as int, candidate(name, a).len() as int)
        =~= decimal(a));
    assert(candidate(name, b).subrange(prefix.len() as int, candidate(name, b).len() as int)
        =~= decimal(b));
    lemma_decimal_injective(a, b);
}

/// At most one number is the least whose candidate the table lacks.
pub proof fn lemma_first_free_unique(globals: Seq<Seq<char>>, name: Seq<char>, a: nat, b: nat)
    requires
        is_first_free(globals, name, a),
        is_first_free(globals, name, b),
    ensures
        a == b,
{
    if a < b {
        assert(globals.contains(candidate(name, a)));
    } else if b < a {
        assert(globals.contains(candidate(name, b)));
    }
}

/// A table that holds the first `k` candidates has at least `k` entries.
pub proof fn lemma_taken_bounded(globals: Seq<Seq<char>>, name: Seq<char>, k: nat)
    requires
        taken_below(globals, name, k),
    ensures
        k <= globals.len(),
    decreases k,
{
    if k > 0 {
        let last = candidate(name, (k - 1) as nat);
        assert(globals.contains(last));
        let idx = choose|i: int| 0 <= i < globals.len() && globals[i] == last;
        let rest = globals.remove(idx);
        assert forall|j: nat| j < k - 1 implies rest.contains(#[trigger] candidate(name, j)) by {
            let c = candidate(name, j);
            assert(globals.contains(c));
            let m = choose|i: int| 0 <= i < globals.len() && globals[i] == c;
            if m == idx {
                lemma_candidate_injective(name, j, (k - 1) as nat);
            }
            if m < idx {
                assert(rest[m] == c);
            } else {
                assert(rest[m - 1] == c);
            }
        }
        lemma_taken_bounded(rest, name, (k - 1) as nat);
    }
}

/// Asking for one name again and again, from an empty table, yields the name
/// itself and then the name with `.0`, `.1`, … appended, and no name twice.
pub proof fn lemma_repeated_names(name: Seq<char>, n: nat)
    ensures
        repeated_names(name, n).len() == n,
        forall|i: int|
            0 <= i < n ==> #[trigger] repeated_names(name, n)[i] == if i == 0 {
                name
            } else {
                candidate(name, (i - 1) as nat)
            },
        repeated_names(name, n).no_duplicates(),
    decreases n,
{
    if n > 0 {
        let before = repeated_names(name, (n - 1) as nat);
        lemma_repeated_names(name, (n - 1) as nat);
        let next = global_value_name(before, name);
        if n == 1 {
            assert(!before.contains(name));
            assert(next == name);
        } else {
            assert(before[0] == name);
            assert(before.contains(name));
            let k = (n - 2) as nat;
            assert forall|j: nat| j < k implies before.contains(#[trigger] candidate(name, j)) by {
                assert(before[(j + 1) as int] == candidate(name, j));
            }
            assert(!before.contains(candidate(name, k))) by {
                if before.contains(candidate(name, k)) {
                    let m = choose|i: int| 0 <= i < before.len() && before[i] == candidate(name, k);
                    if m == 0 {
                        assert(candidate(name, k).len() > name.len()) by {
                            crate::text::lemma_decimal_nonempty(k);
                        }
                    } else {
                        lemma_candidate_injective(name, (m - 1) as nat, k);
                    }
                }
            }
            assert(is_first_free(before, name, k));
            lemma_first_free_unique(before, name, k, first_free(before, name));
            assert(next == candidate(name, k));
        }
        let after = repeated_names(name, n);
        assert(after == before.push(next));
        assert forall|i: int, j: int|
            0 <= i < after.len() && 0 <= j < after.len() && i != j implies after[i] != after[j] by {
            if after[i] == after[j] {
                let lo = if i < j { i } else { j };
                let hi = if i < j { j } else { i };
                assert(after[lo] == after[hi]);
                if lo == 0 {
                    assert(after[hi] == candidate(name, (hi - 1) as nat));
                    crate::text::lemma_decimal_nonempty((hi - 1) as nat);
                    assert(after[hi].len() > name.len());
                } else {
                    lemma_candidate_injective(name, (lo - 1) as nat, (hi - 1) as nat);
                }
            }
        }
    }
}

impl ModuleView {
    /// Whether `f` names a function of the module.
    pub open spec fn has_function(self, f: FunctionRef) -> bool {
        f.index < self.functions.len()
    }

    /// Whether `b` names a block of the module.
    pub open spec fn has_block(self, b: BlockRef) -> bool {
        self.has_function(b.function) && b.index < self.function(b.function).blocks.len()
    }

    /// The function that `f` names.
    pub open spec fn function(self, f: FunctionRef) -> FunctionView {
        self.functions[f.index as int]
    }

    /// The block that `b` names.
    pub open spec fn block(self, b: BlockRef) -> BlockView {
        self.functions[b.function.index as int].blocks[b.index as int]
    }

    /// The module with `block` in the place that `at` names.
    pub open spec fn with_block(self, at: BlockRef, block: BlockView) -> ModuleView {
        let function = self.function(at.function);
        ModuleView {
            functions: self.functions.update(
                at.function.index as int,
                FunctionView { blocks: function.blocks.update(at.index as int, block), ..function },
            ),
            ..self
        }
    }

    /// The module after `function` has been added under a name that is new
    /// to the table.
    pub open spec fn with_function(self, function: FunctionView) -> ModuleView {
        ModuleView {
            functions: self.functions.push(function),
            globals: self.globals.push(function.name),
            ..self
        }
    }

    /// The module after `block` has been appended to the function that `to` names.
    pub open spec fn with_new_block(self, to: FunctionRef, block: BlockView) -> ModuleView {
        let function = self.function(to);
        ModuleView {
            functions: self.functions.update(
                to.index as int,
                FunctionView { blocks: function.blocks.push(block), ..function },
            ),
            ..self
        }
    }

    /// What holds of a module that was built function by function and block
    /// by block: a function that is only declared has no blocks, every block
    /// names the function that owns it as its parent, and the name of every
    /// function is in the table of top-level names.
    pub open spec fn wf(self) -> bool {
        forall|f: int|
            0 <= f < self.functions.len() ==> {
                &&& (#[trigger] self.functions[f]).wf_at(f)
                &&& self.globals.contains(self.functions[f].name)
            }
    }

    /// Whether the module can be rendered: each of its functions can.
    pub open spec fn printable(self) -> bool {
        forall|i: int|
            0 <= i < self.functions.len() ==> function_printable(#[trigger] self.functions[i])
    }

    /// The functions as they are printed: each followed by an empty line.
    pub open spec fn function_pieces(self) -> Seq<Seq<char>> {
        Seq::new(self.functions.len(), |i: int| function_text(self.functions[i]) + "\n"@)
    }

    /// The header of the rendered module: its name twice, the data layout and
    /// the target triple, and an empty line.
    pub open spec fn header_text(self) -> Seq<char> {
        "# ModuleID = '"@ + self.name + "'\nsource_name = \""@ + self.name
            + "\"\ntarget datalayout = \""@ + self.data_layout.text() + "\"\ntarget triple = \""@
            + self.target_triple.text() + "\"\n\n"@
    }

    /// The text of the module: the header, then the functions in the order in
    /// which they were added, an empty line after each.
    pub open spec fn text(self) -> Seq<char> {
        self.header_text() + concat(self.function_pieces())
    }
}

/// A well-formed module is still well formed after a function has been added
/// under a name that is new to the table, where the function is well formed
/// in its new place. The name of the new function then differs from the name
/// of every function that was there before.
pub proof fn lemma_with_function_wf(m: ModuleView, function: FunctionView)
    requires
        m.wf(),
        function.wf_at(m.functions.len() as int),
        !m.globals.contains(function.name),
    ensures
        m.with_function(function).wf(),
        forall|f: int|
            0 <= f < m.functions.len() ==> (#[trigger] m.functions[f]).name != function.name,
{
    let after = m.with_function(function);
    assert forall|f: int| 0 <= f < after.functions.len() implies {
        &&& (#[trigger] after.functions[f]).wf_at(f)
        &&& after.globals.contains(after.functions[f].name)
    } by {
        if f < m.functions.len() {
            assert(m.functions[f].wf_at(f));
            let i = choose|i: int| 0 <= i < m.globals.len() && m.globals[i] == m.functions[f].name;
            assert(after.globals[i] == after.functions[f].name);
        } else {
            assert(after.globals[m.globals.len() as int] == function.name);
        }
    }
    assert forall|f: int| 0 <= f < m.functions.len() implies (#[trigger] m.functions[f]).name
        != function.name by {
        assert(m.functions[f].wf_at(f));
        assert(m.globals.contains(m.functions[f].name));
    }
}

/// A module that can be rendered can still be rendered after one of its
/// blocks has given way to a block that can be rendered.
pub proof fn lemma_with_block_printable(m: ModuleView, at: BlockRef, block: BlockView)
    requires
        m.has_block(at),
        m.printable(),
        block_printable(block),
    ensures
        m.with_block(at, block).printable(),
{
    let after = m.with_block(at, block);
    let f = at.function.index as int;
    assert forall|i: int| 0 <= i < after.functions.len() implies function_printable(
        #[trigger] after.functions[i],
    ) by {
        assert(function_printable(m.functions[i]));
        if i == f && !m.functions[f].is_external() {
            assert forall|j: int| 0 <= j < after.functions[f].blocks.len() implies block_printable(
                #[trigger] after.functions[f].blocks[j],
            ) by {
                assert(block_printable(m.functions[f].blocks[j]));
            }
        }
    }
}

/// A module that can be rendered can still be rendered after a block that can
/// be rendered has been appended to one of its functions.
pub proof fn lemma_with_new_block_printable(m: ModuleView, to: FunctionRef, block: BlockView)
    requires
        m.has_function(to),
        m.printable(),
        block_printable(block),
    ensures
        m.with_new_block(to, block).printable(),
{
    let after = m.with_new_block(to, block);
    let f = to.index as int;
    assert forall|i: int| 0 <= i < after.functions.len() implies function_printable(
        #[trigger] after.functions[i],
    ) by {
        assert(function_printable(m.functions[i]));
        if i == f && !m.functions[f].is_external() {
            assert forall|j: int| 0 <= j < after.functions[f].blocks.len() implies block_printable(
                #[trigger] after.functions[f].blocks[j],
            ) by {
                if j < m.functions[f].blocks.len() {
                    assert(block_printable(m.functions[f].blocks[j]));
                }
            }
        }
    }
}

/// A module that can be rendered can still be rendered after a function that
/// can be rendered has been added to it.
pub proof fn lemma_with_function_printable(m: ModuleView, function: FunctionView)
    requires
        m.printable(),
        function_printable(function),
    ensures
        m.with_function(function).printable(),
{
    let after = m.with_function(function);
    assert forall|i: int| 0 <= i < after.functions.len() implies function_printable(
        #[trigger] after.functions[i],
    ) by {
        if i < m.functions.len() {
            assert(function_printable(m.functions[i]));
        }
    }
}

/// Copies a vector of functions.
pub(crate) fn clone_functions(v: &Vec<Function>) -> (r: Vec<Function>)
    ensures
        functions_view(r@) == functions_view(v@),
{
    let mut out: Vec<Function> = Vec::new();
    let mut i: usize = 0;
    while i < v.len()
        invariant
            0 <= i <= v.len(),
            out.len() == i,
            forall|j: int| 0 <= j < i ==> out@[j]@ == v@[j]@,
        decreases v.len() - i,
    {
        out.push(v[i].clone());
        i += 1;
    }
    assert(functions_view(out@) =~= functions_view(v@));
    out
}

/// Copies a module.
fn clone_module(m: &Module) -> (r: Module)
    ensures
        r@ == m@,
{
    let functions = clone_functions(&m.functions);
    let mut globals: Vec<String> = Vec::new();
    let mut k: usize = 0;
    while k < m.globals.len()
        invariant
            0 <= k <= m.globals.len(),
            globals.len() == k,
            forall|j: int| 0 <= j < k ==> globals@[j]@ == m.globals@[j]@,
        decreases m.globals.len() - k,
    {
        globals.push(m.globals[k].clone());
        k += 1;
    }
    let r = Module {
        functions,
        name: m.name.clone(),
        data_layout: m.data_layout,
        target_triple: m.target_triple,
        globals,
    };
    assert(r@.globals =~= m@.globals);
    r
}

impl Clone for Module {
    fn clone(&self) -> (r: Self)
        ensures
            r@ == self@,
    {
        clone_module(self)
    }
}

/// Whether `names` holds `name`.
fn contains_name(names: &Vec<String>, name: &String) -> (r: bool)
    ensures
        r == names_view(names@).contains(name@),
{
    let mut i: usize = 0;
    while i < names.len()
        invariant
            0 <= i <= names.len(),
            forall|j: int| 0 <= j < i ==> names_view(names@)[j] != name@,
        decreases names.len() - i,
    {
        if names[i] == *name {
            assert(names_view(names@)[i as int] == name@);
            return true;
        }
        i += 1;
    }
    false
}

impl Module {
    /// Creates an empty module.
    pub fn new(name: &str, data_layout: DataLayout, target_triple: TargetTriple) -> (r: Self)
        ensures
            r@ == (ModuleView {
                name: name@,
                functions: Seq::empty(),
                data_layout,
                target_triple,
                globals: Seq::empty(),
            }),
            r@.wf(),
            r@.printable(),
    {
        let r = Self {
            functions: Vec::new(),
            name: String::from_str(name),
            globals: Vec::new(),
            data_layout,
            target_triple,
        };
        assert(r@.functions =~= Seq::empty());
        assert(r@.globals =~= Seq::empty());
        r
    }

    /// Returns the name of the module.
    pub fn name(&self) -> (r: &str)
        ensures
            r@ == self@.name,
    {
        self.name.as_str()
    }

    /// Returns the data layout of the module.
    pub fn data_layout(&self) -> (r: &DataLayout)
        ensures
            *r == self@.data_layout,
    {
        &self.data_layout
    }

    /// Returns the target triple of the module.
    pub fn target_triple(&self) -> (r: &TargetTriple)
        ensures
            *r == self@.target_triple,
    {
        &self.target_triple
    }

    /// Returns the functions of the module.
    pub fn get_functions(&self) -> (r: &Vec<Function>)
        ensures
            functions_view(r@) == self@.functions,
    {
        &self.functions
    }

    /// Returns the function that `f` names, if there is one.
    pub fn get_function(&self, f: FunctionRef) -> (r: Option<&Function>)
        ensures
            match r {
                Some(function) => self@.has_function(f) && function@ == self@.function(f),
                None => !self@.has_function(f),
            },
    {
        if f.index < self.functions.len() {
            Some(&self.functions[f.index])
        } else {
            None
        }
    }

    /// Returns the function that `f` names, if there is one, for the caller to change.
    pub fn get_function_mut(&mut self, f: FunctionRef) -> (r: Option<&mut Function>)
        ensures
            match r {
                Some(function) => old(self)@.has_function(f) && function@ == old(self)@.function(f)
                    && final(self)@ == (ModuleView {
                    functions: old(self)@.functions.update(f.index as int, final(function)@),
                    ..old(self)@
                }),
                None => !old(self)@.has_function(f) && final(self)@ == old(self)@,
            },
    {
        if f.index < self.functions.len() {
            let r = &mut self.functions[f.index];
            proof {
                assert(functions_view(old(self).functions@.update(f.index as int, *final(r)))
                    =~= old(self)@.functions.update(f.index as int, final(r)@));
            }
            Some(r)
        } else {
            None
        }
    }

    /// Returns the block that `b` names, if there is one.
    pub fn get_block(&self, b: BlockRef) -> (r: Option<&BasicBlock>)
        ensures
            match r {
                Some(block) => self@.has_block(b) && block@ == self@.block(b),
                None => !self@.has_block(b),
            },
    {
        if b.function.index < self.functions.len() {
            self.functions[b.function.index].get_block_by_index(b.index)
        } else {
            None
        }
    }

    /// Adds a function to the module.
    pub fn add_function(&mut self, function: Function)
        ensures
            final(self)@ == (ModuleView {
                functions: old(self)@.functions.push(function@),
                ..old(self)@
            }),
            old(self)@.wf() && function@.wf_at(old(self)@.functions.len() as int)
                && old(self)@.globals.contains(function@.name) ==> final(self)@.wf(),
            old(self)@.printable() && function_printable(function@) ==> final(self)@.printable(),
    {
        self.functions.push(function);
        assert(self@.functions =~= old(self)@.functions.push(function@));
    }

    /// Returns the name that a top-level symbol gets when `name` is asked
    /// for, and enters it in the table: `name` itself where the table lacks
    /// it, else `name` with `.0`, `.1`, … appended, the first that the table
    /// lacks.
    pub fn get_global_value_name(&mut self, name: &str) -> (r: String)
        ensures
            r@ == global_value_name(old(self)@.globals, name@),
            !old(self)@.globals.contains(r@),
            name@ != r@ ==> is_first_free(
                old(self)@.globals,
                name@,
                first_free(old(self)@.globals, name@),
            ),
            final(self)@ == (ModuleView {
                globals: old(self)@.globals.push(r@),
                ..old(self)@
            }),
    {
        let ghost table = self@.globals;
        let base = String::from_str(name);
        if !contains_name(&self.globals, &base) {
            self.globals.push(base.clone());
            assert(self@.globals =~= table.push(base@));
            return base;
        }
        let mut i: usize = 0;
        loop
            invariant
                table == self@.globals,
                self == old(self),
                base@ == name@,
                table.contains(name@),
                taken_below(table, name@, i as nat),
                i <= self.globals.len(),
            decreases self.globals.len() - i,
        {
            let mut new_name = base.clone();
            new_name.append(".");
            push_decimal(&mut new_name, i as u64);
            assert(new_name@ =~= candidate(name@, i as nat));
            if !contains_name(&self.globals, &new_name) {
                proof {
                    assert(is_first_free(table, name@, i as nat));
                    lemma_first_free_unique(table, name@, i as nat, first_free(table, name@));
                }
                self.globals.push(new_name.clone());
                assert(self@.globals =~= table.push(new_name@));
                return new_name;
            }
            proof {
                assert(taken_below(table, name@, (i + 1) as nat));
                lemma_taken_bounded(table, name@, (i + 1) as nat);
            }
            i += 1;
        }
    }

    /// Whether the module can be rendered: each of its functions can.
    pub fn is_printable(&self) -> (r: bool)
        ensures
            r == self@.printable(),
    {
        let mut i: usize = 0;
        while i < self.functions.len()
            invariant
                0 <= i <= self.functions.len(),
                forall|j: int| 0 <= j < i ==> function_printable(#[trigger] self@.functions[j]),
            decreases self.functions.len() - i,
        {
            assert(self@.functions[i as int] == function_view(self.functions@[i as int]));
            if !self.functions[i].is_printable() {
                return false;
            }
            i += 1;
        }
        true
    }

    /// Renders the module.
    pub fn to_string(&self) -> (r: String)
        requires
            self@.printable(),
        ensures
            r@ == self@.text(),
    {
        let ghost pieces = self@.function_pieces();
        let mut out = String::from_str("# ModuleID = '");
        out.append(self.name.as_str());
        out.append("'\nsource_name = \"");
        out.append(self.name.as_str());
        out.append("\"\ntarget datalayout = \"");
        out.append(self.data_layout.to_string().as_str());
        out.append("\"\ntarget triple = \"");
        out.append(self.target_triple.as_str().as_str());
        out.append("\"\n\n");
        assert(out@ =~= self@.header_text());
        let mut i: usize = 0;
        assert(pieces.subrange(0, 0) =~= Seq::<Seq<char>>::empty());
        while i < self.functions.len()
            invariant
                0 <= i <= self.functions.len(),
                self@.printable(),
                pieces == self@.function_pieces(),
                pieces.len() == self.functions.len(),
                out@ == self@.header_text() + concat(pieces.subrange(0, i as int)),
            decreases self.functions.len() - i,
        {
            assert(self@.functions[i as int] == function_view(self.functions@[i as int]));
            push_function(&mut out, &self.functions[i]);
            out.append("\n");
            proof {
                lemma_concat_step(pieces, i as int);
                assert(out@ =~= self@.header_text() + concat(pieces.subrange(0, i + 1)));
            }
            i += 1;
        }
        assert(pieces.subrange(0, self.functions.len() as int) =~= pieces);
        out
    }
}

} // verus!
