use std::rc::Rc;
use vstd::prelude::*;
use crate::blocks::GenericBlock;
use crate::compiler::parse::{
    leaf_outcomes, lemma_tree_translation_weaken, token_outcome, token_outcomes, tree_translation,
    CantParseTokenError, Token, Tree,
};
use crate::compiler::expressions::Expression;
use crate::compiler::{SSABlock, SSAInstruction, SSARegister, SSAValue};
use crate::instructions::{Instruction, SymbolIndex};
use crate::runtime::control::GenericCompositeFunction;
use crate::runtime::core_functions::{spec_from_name, CoreFnId};
use crate::runtime::data::{AritySpecifier, GenericValue, Num};
use crate::runtime::host::Host;
use crate::text::{chars_of, decimal, push_decimal, str_equals, string_from_chars};

verus! {

/// The index of the first occurrence of `x` in `s`, or -1.
pub open spec fn first_index_of<T>(s: Seq<T>, x: T) -> int
    decreases s.len(),
{
    if s.len() == 0 {
        -1
    } else if s[0] == x {
        0
    } else {
        let r = first_index_of(s.drop_first(), x);
        if r < 0 {
            -1
        } else {
            r + 1
        }
    }
}

pub proof fn lemma_first_index_of<T>(s: Seq<T>, x: T, i: int)
    requires
        0 <= i <= s.len(),
        forall|j: int| 0 <= j < i ==> s[j] != x,
        i < s.len() ==> s[i] == x,
    ensures
        first_index_of(s, x) == (if i < s.len() {
            i
        } else {
            -1
        }),
    decreases s.len(),
{
    if s.len() > 0 && i > 0 {
        lemma_first_index_of(s.drop_first(), x, i - 1);
    }
}

/// The index that `name` has in a ledger holding `names`, and the names it holds
/// afterwards: a name seen before keeps its index, and a new name takes the next one.
/// Indices are 16 bits wide, so they wrap around after 65536 names.
pub open spec fn intern(names: Seq<Seq<char>>, name: Seq<char>) -> (SymbolIndex, Seq<Seq<char>>) {
    let i = first_index_of(names, name);
    if i >= 0 {
        (i as u16, names)
    } else {
        (names.len() as u16, names.push(name))
    }
}

/// The name that a ledger holding `names` gives for `index`: the last name whose index,
/// wrapped to 16 bits, is `index`.
pub open spec fn name_of(names: Seq<Seq<char>>, index: SymbolIndex) -> Option<Seq<char>>
    decreases names.len(),
{
    if names.len() == 0 {
        None
    } else if (names.len() - 1) as u16 == index {
        Some(names.last())
    } else {
        name_of(names.drop_last(), index)
    }
}

pub proof fn lemma_name_of_known(names: Seq<Seq<char>>, i: int)
    requires
        0 <= i < names.len(),
    ensures
        name_of(names, i as u16) is Some,
    decreases names.len(),
{
    if (names.len() - 1) as u16 != i as u16 {
        lemma_name_of_known(names.drop_last(), i);
    }
}

/// A two-way table between symbol names and the 16-bit indices that stand for them.
#[derive(Debug)]
pub struct SymbolLedger {
    names: Vec<String>,
}

impl View for SymbolLedger {
    type V = Seq<Seq<char>>;

    /// The names, in the order in which they were first seen.
    closed spec fn view(&self) -> Seq<Seq<char>> {
        self.names@.map_values(|s: String| s@)
    }
}

impl Default for SymbolLedger {
    fn default() -> (ledger: Self)
        ensures
            ledger@ == Seq::<Seq<char>>::empty(),
    {
        SymbolLedger::new()
    }
}

impl SymbolLedger {
    /// A ledger that knows no names.
    pub fn new() -> (ledger: Self)
        ensures
            ledger@ == Seq::<Seq<char>>::empty(),
    {
        let ledger = SymbolLedger { names: Vec::new() };
        proof {
            assert(ledger@ =~= Seq::<Seq<char>>::empty());
        }
        ledger
    }

    /// The index of `symbol`, recording it first if it is new (see `intern`).
    pub fn symbol_index(&mut self, symbol: String) -> (index: SymbolIndex)
        ensures
            (index, final(self)@) == intern(old(self)@, symbol@),
    {
        let mut i: usize = 0;
        while i < self.names.len()
            invariant
                0 <= i <= self.names@.len(),
                self@ == old(self)@,
                forall|j: int| 0 <= j < i ==> self@[j] != symbol@,
            decreases self.names@.len() - i,
        {
            if self.names[i] == symbol {
                proof {
                    lemma_first_index_of(self@, symbol@, i as int);
                }
                return i as u16;
            }
            i = i + 1;
        }
        proof {
            lemma_first_index_of(self@, symbol@, self@.len() as int);
        }
        let index = self.names.len() as u16;
        let ghost old_names = self.names@;
        self.names.push(symbol);
        proof {
            assert(self@ =~= old(self)@.push(symbol@)) by {
                assert(self.names@ == old_names.push(symbol));
            }
        }
        index
    }

    /// The name that `index` stands for, if any (see `name_of`).
    pub fn symbol_name(&self, index: SymbolIndex) -> (name: Option<&String>)
        ensures
            match name {
                Some(s) => name_of(self@, index) == Some(s@),
                None => name_of(self@, index) is None,
            },
    {
        let mut k: usize = self.names.len();
        proof {
            assert(self@.take(k as int) =~= self@);
        }
        while k > 0
            invariant
                0 <= k <= self.names@.len(),
                self@.len() == self.names@.len(),
                name_of(self@, index) == name_of(self@.take(k as int), index),
            decreases k,
        {
            proof {
                assert(self@.take(k as int).drop_last() =~= self@.take(k - 1));
            }
            if (k - 1) as u16 == index {
                return Some(&self.names[k - 1]);
            }
            k = k - 1;
        }
        None
    }
}

/// The start of every generated symbol name.
pub open spec fn gensym_prefix() -> Seq<char> {
    seq!['_', '_', 'g', 'e', 'n', 's', 'y', 'm', '_']
}

/// How many of `names` start as generated names do.
pub open spec fn gensym_count(names: Seq<Seq<char>>) -> nat
    decreases names.len(),
{
    if names.len() == 0 {
        0
    } else {
        gensym_count(names.drop_last()) + if gensym_prefix().is_prefix_of(names.last()) {
            1nat
        } else {
            0nat
        }
    }
}

/// The name of the next symbol generated for a ledger holding `names`: the prefix
/// `__gensym_` and the number of such names already held.
pub open spec fn gensym_name(names: Seq<Seq<char>>) -> Seq<char> {
    gensym_prefix() + decimal(gensym_count(names))
}

impl SymbolLedger {
    /// A new symbol, which no index handed out before stands for: its index is the next
    /// free one, and its name is `gensym_name` of the names held before.
    pub fn generate_unique_symbol(&mut self) -> (index: SymbolIndex)
        ensures
            index == old(self)@.len() as u16,
            final(self)@ == old(self)@.push(gensym_name(old(self)@)),
    {
        let prefix = chars_of("__gensym_");
        proof {
            reveal_strlit("__gensym_");
            assert(prefix@ =~= gensym_prefix());
        }
        let mut count: usize = 0;
        let mut i: usize = 0;
        while i < self.names.len()
            invariant
                0 <= i <= self.names@.len(),
                self@ == old(self)@,
                prefix@ == gensym_prefix(),
                count == gensym_count(self@.subrange(0, i as int)),
                count <= i,
            decreases self.names@.len() - i,
        {
            let name = chars_of(self.names[i].as_str());
            let mut has_prefix = name.len() >= prefix.len();
            let mut j: usize = 0;
            while has_prefix && j < prefix.len()
                invariant
                    0 <= j <= prefix@.len(),
                    has_prefix ==> name@.len() >= prefix@.len(),
                    has_prefix ==> forall|l: int| 0 <= l < j ==> name@[l] == prefix@[l],
                    !has_prefix ==> !prefix@.is_prefix_of(name@),
                decreases prefix@.len() - j,
            {
                if name[j] != prefix[j] {
                    has_prefix = false;
                }
                j = j + 1;
            }
            proof {
                assert(self@[i as int] == self.names@[i as int]@);
                if has_prefix {
                    assert(prefix@ =~= name@.subrange(0, prefix@.len() as int));
                }
                assert(self@.subrange(0, i + 1).drop_last() =~= self@.subrange(0, i as int));
            }
            if has_prefix {
                count = count + 1;
            }
            i = i + 1;
        }
        proof {
            assert(self@.subrange(0, i as int) =~= self@);
        }
        let mut text = prefix;
        push_decimal(&mut text, count as u64);
        let name = string_from_chars(text.as_slice());
        let index = self.names.len() as u16;
        let ghost old_names = self.names@;
        self.names.push(name);
        proof {
            assert(self@ =~= old(self)@.push(gensym_name(old(self)@))) by {
                assert(self.names@ == old_names.push(name));
            }
        }
        index
    }

    /// Whether `symbol` names a core function.
    pub fn is_built_in(&self, symbol: SymbolIndex) -> (built_in: bool)
        ensures
            built_in == (name_of(self@, symbol) matches Some(name) && spec_from_name(name) is Some),
    {
        match self.symbol_name(symbol) {
            Some(name) => CoreFnId::from_name(name.as_str()).is_some(),
            None => false,
        }
    }
}

/// The register bound to the symbol with index `k` in `bindings`, if any.
pub open spec fn lookup_binding(bindings: Seq<(SymbolIndex, u8)>, k: SymbolIndex) -> Option<u8> {
    let i = first_index_of(bindings.map_values(|p: (SymbolIndex, u8)| p.0), k);
    if i >= 0 {
        Some(bindings[i].1)
    } else {
        None
    }
}

/// `bindings` with the symbol of index `k` bound to the next register: the number of
/// symbols bound so far (as a map from symbols to registers, replacing an earlier binding
/// of the same symbol).
pub open spec fn bind(bindings: Seq<(SymbolIndex, u8)>, k: SymbolIndex) -> Seq<(SymbolIndex, u8)> {
    let i = first_index_of(bindings.map_values(|p: (SymbolIndex, u8)| p.0), k);
    let register = bindings.len() as u8;
    if i >= 0 {
        bindings.update(i, (k, register))
    } else {
        bindings.push((k, register))
    }
}

fn find_binding(bindings: &Vec<(SymbolIndex, u8)>, k: SymbolIndex) -> (i: Option<usize>)
    ensures
        match i {
            Some(i) => i < bindings@.len() && first_index_of(
                bindings@.map_values(|p: (SymbolIndex, u8)| p.0),
                k,
            ) == i,
            None => first_index_of(bindings@.map_values(|p: (SymbolIndex, u8)| p.0), k) == -1,
        },
{
    let ghost keys = bindings@.map_values(|p: (SymbolIndex, u8)| p.0);
    let mut i: usize = 0;
    while i < bindings.len()
        invariant
            0 <= i <= bindings@.len(),
            keys == bindings@.map_values(|p: (SymbolIndex, u8)| p.0),
            forall|j: int| 0 <= j < i ==> keys[j] != k,
        decreases bindings@.len() - i,
    {
        if bindings[i].0 == k {
            proof {
                lemma_first_index_of(keys, k, i as int);
            }
            return Some(i);
        }
        i = i + 1;
    }
    proof {
        lemma_first_index_of(keys, k, keys.len() as int);
    }
    None
}

fn bind_symbol(bindings: &mut Vec<(SymbolIndex, u8)>, k: SymbolIndex)
    ensures
        final(bindings)@ == bind(old(bindings)@, k),
{
    let register = bindings.len() as u8;
    match find_binding(bindings, k) {
        Some(i) => {
            bindings.set(i, (k, register));
        },
        None => {
            bindings.push((k, register));
        },
    }
}

/// A constant as the compiler produces it, with blocks taken as sequences.
pub ghost enum SpecConst {
    Nil,
    Number(Num),
    Str(Seq<char>),
    Symbol(SymbolIndex),
    CoreFn(CoreFnId),
    /// A function of so many arguments, with its instructions and constants.
    Function(u8, Seq<SSAInstruction>, Seq<SpecConst>),
}

/// `v` is the constant that `c` describes.
pub open spec fn const_model(v: SSAValue<()>, c: SpecConst) -> bool
    decreases c,
{
    match c {
        SpecConst::Nil => v is Nil,
        SpecConst::Number(n) => v == GenericValue::<usize, usize, (usize, usize), ()>::Number(n),
        SpecConst::Str(s) => v is Str && v->Str_0@ == s,
        SpecConst::Symbol(k) => v == GenericValue::<usize, usize, (usize, usize), ()>::Symbol(k),
        SpecConst::CoreFn(f) => v == GenericValue::<usize, usize, (usize, usize), ()>::CoreFn(f),
        SpecConst::Function(n, instructions, constants) => match v {
            GenericValue::CompositeFn(f) => {
                &&& f.args.count == n
                &&& f.block.instructions@ == instructions
                &&& f.block.constants@.len() == constants.len()
                &&& forall|k: int| 0 <= k < constants.len() ==> const_model(
                    #[trigger] f.block.constants@[k],
                    constants[k],
                )
            },
            _ => false,
        },
    }
}

/// `values` are the constants that `consts` describe, one by one.
pub open spec fn consts_model(values: Seq<SSAValue<()>>, consts: Seq<SpecConst>) -> bool {
    &&& values.len() == consts.len()
    &&& forall|k: int| 0 <= k < values.len() ==> const_model(#[trigger] values[k], consts[k])
}

/// What compiling an expression reads and changes, besides the constants it adds: the
/// names in the symbol ledger, the number of virtual registers taken, the instructions
/// so far, and the number of constants so far.
pub ghost struct CompileState {
    pub names: Seq<Seq<char>>,
    pub taken: usize,
    pub instructions: Seq<SSAInstruction>,
    pub const_count: nat,
}

/// Why an expression does not compile.
pub ghost enum SpecAstError {
    EmptyList,
    InvalidArgumentList(Option<Tree<Token>>),
    InvalidArgument(Tree<Token>),
    MissingBody,
    Unbound(Seq<char>),
}

/// Loads constant `c` into the next free register: the register, the state after, and
/// the constants added.
pub open spec fn push_const(st: CompileState, c: SpecConst) -> (usize, CompileState, Seq<SpecConst>) {
    (
        st.taken,
        CompileState {
            taken: vstd::wrapping::usize_specs::wrapping_add(st.taken, 1),
            instructions: st.instructions.push(Instruction::Const(st.taken, st.const_count as u16)),
            const_count: st.const_count + 1,
            ..st
        },
        seq![c],
    )
}

/// Whether `t` is the symbol `fn`, which starts a function definition.
pub open spec fn is_fn_symbol(t: Tree<Token>) -> bool {
    t matches Tree::Leaf(Token::Symbol(s)) && s@ == seq!['f', 'n']
}

/// Compiles a leaf: a symbol is its binding's register, or else a core function loaded
/// as a constant, and any other token is loaded as a constant.
pub open spec fn compile_leaf(
    token: Token,
    bindings: Seq<(SymbolIndex, u8)>,
    st: CompileState,
) -> Result<(usize, CompileState, Seq<SpecConst>), SpecAstError> {
    match token {
        Token::Symbol(s) => {
            let (index, names) = intern(st.names, s@);
            let st1 = CompileState { names, ..st };
            match lookup_binding(bindings, index) {
                Some(r) => Ok((r as usize, st1, Seq::empty())),
                None => {
                    let name = name_of(names, index)->0;
                    match spec_from_name(name) {
                        Some(f) => Ok(push_const(st1, SpecConst::CoreFn(f))),
                        None => Err(SpecAstError::Unbound(name)),
                    }
                },
            }
        },
        Token::Nil => Ok(push_const(st, SpecConst::Nil)),
        Token::IntLiteral(i) => Ok(push_const(st, SpecConst::Number(Num::Int(i)))),
        Token::FloatLiteral(f) => Ok(push_const(st, SpecConst::Number(Num::Float(f)))),
        Token::StringLiteral(s) => Ok(push_const(st, SpecConst::Str(s@))),
    }
}

/// Binds the first `k` argument names of a function definition in turn, recording each
/// in the ledger; the first argument that is not a symbol is an error.
pub open spec fn bind_args(
    args: Seq<Tree<Token>>,
    k: int,
    bindings: Seq<(SymbolIndex, u8)>,
    names: Seq<Seq<char>>,
) -> Result<(Seq<(SymbolIndex, u8)>, Seq<Seq<char>>), SpecAstError>
    decreases k,
{
    if k <= 0 {
        Ok((bindings, names))
    } else {
        match bind_args(args, k - 1, bindings, names) {
            Err(e) => Err(e),
            Ok((b, n)) => match args[k - 1] {
                Tree::Leaf(Token::Symbol(s)) => {
                    let (index, n2) = intern(n, s@);
                    Ok((bind(b, index), n2))
                },
                other => Err(SpecAstError::InvalidArgument(other)),
            },
        }
    }
}

/// Compiles an expression into instructions that leave its value in a register: the
/// register, the state after, and the constants added, in order.
///
/// A list whose head is `fn` defines a function from its argument list and its body,
/// compiled in a fresh block whose first registers are the arguments, and loads it as a
/// constant. Any other non-empty list is a call: the arguments are compiled first, in
/// order, then the head, then a `Call` into the next free register followed by one
/// `CopyArgument` per argument. An empty list is an error.
pub open spec fn compile_tree(
    t: Tree<Token>,
    bindings: Seq<(SymbolIndex, u8)>,
    st: CompileState,
) -> Result<(usize, CompileState, Seq<SpecConst>), SpecAstError>
    decreases t, 1int, 0int,
{
    match t {
        Tree::Leaf(token) => compile_leaf(token, bindings, st),
        Tree::Inner(list) => {
            if list@.len() == 0 {
                Err(SpecAstError::EmptyList)
            } else if is_fn_symbol(list@[0]) {
                if list@.len() < 2 {
                    Err(SpecAstError::InvalidArgumentList(None))
                } else {
                    match list@[1] {
                        Tree::Inner(arg_tokens) => match bind_args(
                            arg_tokens@,
                            arg_tokens@.len() as int,
                            bindings,
                            st.names,
                        ) {
                            Err(e) => Err(e),
                            Ok((new_bindings, names)) => {
                                if list@.len() < 3 {
                                    Err(SpecAstError::MissingBody)
                                } else {
                                    let arg_count = arg_tokens@.len() as u8;
                                    let body_start = CompileState {
                                        names,
                                        taken: arg_count as usize,
                                        instructions: Seq::empty(),
                                        const_count: 0,
                                    };
                                    match compile_tree(list@[2], new_bindings, body_start) {
                                        Err(e) => Err(e),
                                        Ok((ret, body_end, body_consts)) => Ok(
                                            push_const(
                                                CompileState { names: body_end.names, ..st },
                                                SpecConst::Function(
                                                    arg_count,
                                                    body_end.instructions.push(
                                                        Instruction::Return(ret),
                                                    ),
                                                    body_consts,
                                                ),
                                            ),
                                        ),
                                    }
                                }
                            },
                        },
                        other => Err(SpecAstError::InvalidArgumentList(Some(other))),
                    }
                }
            } else {
                match compile_args(t, list@.len() - 1, bindings, st) {
                    Err(e) => Err(e),
                    Ok((registers, st1, consts1)) => match compile_tree(list@[0], bindings, st1) {
                        Err(e) => Err(e),
                        Ok((f, st2, consts2)) => {
                            let target = st2.taken;
                            let call = Instruction::Call(target, f, registers.len() as u8);
                            let copies = registers.map_values(
                                |r: usize| Instruction::<usize, usize, (usize, usize)>::CopyArgument(r),
                            );
                            Ok(
                                (
                                    target,
                                    CompileState {
                                        taken: vstd::wrapping::usize_specs::wrapping_add(target, 1),
                                        instructions: st2.instructions.push(call) + copies,
                                        ..st2
                                    },
                                    consts1 + consts2,
                                ),
                            )
                        },
                    },
                }
            }
        },
    }
}

/// Compiles the elements of list `t` at positions 1 to `k`, in order: their registers,
/// the state after, and the constants added.
pub open spec fn compile_args(
    t: Tree<Token>,
    k: int,
    bindings: Seq<(SymbolIndex, u8)>,
    st: CompileState,
) -> Result<(Seq<usize>, CompileState, Seq<SpecConst>), SpecAstError>
    decreases t, 0int, k,
{
    if k <= 0 || !(t is Inner) || k >= t->Inner_0@.len() {
        Ok((Seq::empty(), st, Seq::empty()))
    } else {
        match compile_args(t, k - 1, bindings, st) {
            Err(e) => Err(e),
            Ok((registers, st1, consts1)) => match compile_tree(t->Inner_0@[k], bindings, st1) {
                Err(e) => Err(e),
                Ok((r, st2, consts2)) => Ok((registers.push(r), st2, consts1 + consts2)),
            },
        }
    }
}

/// Why an expression does not compile.
#[derive(Debug)]
pub enum ASTError {
    Parse(CantParseTokenError),
    EmptyList,
    InvalidFunctionDefintionArgumentList(Option<Tree<Token>>),
    InvalidFunctionDefintionArgument(Tree<Token>),
    FunctionDefinitionMissingBody,
    UnboundSymbol(String),
    /// A function definition names an argument by something other than a symbol.
    InvalidFunctionDefintionArgumentName(Expression),
    /// A function definition has no list of argument names.
    InvalidFunctionDefintionArgumentNameList(Option<Tree<Token>>),
    /// A quote holds no expression, or more than one.
    MultipleExpressionsInQuote,
}

/// `e` is the compile error that `se` describes.
pub open spec fn error_matches(e: ASTError, se: SpecAstError) -> bool {
    match (e, se) {
        (ASTError::EmptyList, SpecAstError::EmptyList) => true,
        (
            ASTError::InvalidFunctionDefintionArgumentList(a),
            SpecAstError::InvalidArgumentList(b),
        ) => a == b,
        (ASTError::InvalidFunctionDefintionArgument(a), SpecAstError::InvalidArgument(b)) => a == b,
        (ASTError::FunctionDefinitionMissingBody, SpecAstError::MissingBody) => true,
        (ASTError::UnboundSymbol(s), SpecAstError::Unbound(n)) => s@ == n,
        _ => false,
    }
}

pub proof fn lemma_first_index_of_bounds<T>(s: Seq<T>, x: T)
    ensures
        -1 <= first_index_of(s, x) < s.len(),
        first_index_of(s, x) >= 0 ==> s[first_index_of(s, x)] == x,
    decreases s.len(),
{
    if s.len() > 0 && s[0] != x {
        lemma_first_index_of_bounds(s.drop_first(), x);
    }
}

proof fn lemma_compile_args_error(
    t: Tree<Token>,
    j: int,
    k: int,
    bindings: Seq<(SymbolIndex, u8)>,
    st: CompileState,
)
    requires
        t is Inner,
        1 <= j <= k < t->Inner_0@.len(),
        compile_args(t, j, bindings, st) is Err,
    ensures
        compile_args(t, k, bindings, st) == compile_args(t, j, bindings, st),
    decreases k - j,
{
    if k > j {
        lemma_compile_args_error(t, j, k - 1, bindings, st);
    }
}

proof fn lemma_bind_args_error(
    args: Seq<Tree<Token>>,
    j: int,
    k: int,
    bindings: Seq<(SymbolIndex, u8)>,
    names: Seq<Seq<char>>,
)
    requires
        1 <= j <= k,
        bind_args(args, j, bindings, names) is Err,
    ensures
        bind_args(args, k, bindings, names) == bind_args(args, j, bindings, names),
    decreases k - j,
{
    if k > j {
        lemma_bind_args_error(args, j, k - 1, bindings, names);
    }
}

/// The compile state that the ledger's names, the registers taken, the instructions and
/// the constants make up.
pub open spec fn current_state(
    names: Seq<Seq<char>>,
    taken: usize,
    instructions: Seq<SSAInstruction>,
    constants: Seq<SSAValue<()>>,
) -> CompileState {
    CompileState { names, taken, instructions, const_count: constants.len() }
}

/// The ledger's names, the registers taken, the instructions and the constants after
/// compiling are those that `outcome` describes, the constants there before staying in
/// place; or compiling failed with the error that `outcome` describes.
pub open spec fn compiled_as<T>(
    outcome: Result<(T, CompileState, Seq<SpecConst>), SpecAstError>,
    r: Result<T, ASTError>,
    names: Seq<Seq<char>>,
    taken: usize,
    instructions: Seq<SSAInstruction>,
    old_constants: Seq<SSAValue<()>>,
    constants: Seq<SSAValue<()>>,
) -> bool {
    match outcome {
        Ok((value, st, added)) => {
            &&& r == Ok::<T, ASTError>(value)
            &&& names == st.names
            &&& taken == st.taken
            &&& instructions == st.instructions
            &&& st.const_count == constants.len()
            &&& constants.len() == old_constants.len() + added.len()
            &&& constants.take(old_constants.len() as int) == old_constants
            &&& consts_model(constants.skip(old_constants.len() as int), added)
        },
        Err(e) => r is Err && error_matches(r->Err_0, e),
    }
}

proof fn lemma_consts_model_append(
    a: Seq<SSAValue<()>>,
    b: Seq<SSAValue<()>>,
    c: Seq<SSAValue<()>>,
    ca: Seq<SpecConst>,
    cb: Seq<SpecConst>,
    base: int,
)
    requires
        0 <= base <= a.len(),
        b.len() >= a.len(),
        c.len() >= b.len(),
        b.take(a.len() as int) == a,
        c.take(b.len() as int) == b,
        consts_model(b.skip(base), ca),
        consts_model(c.skip(b.len() as int), cb),
    ensures
        c.take(a.len() as int) == a,
        consts_model(c.skip(base), ca + cb),
{
    assert(c.take(a.len() as int) =~= b.take(a.len() as int));
    assert forall|k: int| 0 <= k < c.skip(base).len() implies const_model(
        #[trigger] c.skip(base)[k],
        (ca + cb)[k],
    ) by {
        if k < ca.len() {
            assert(c.skip(base)[k] == b.skip(base)[k]) by {
                assert(c[base + k] == c.take(b.len() as int)[base + k]);
            }
        } else {
            assert(c.skip(base)[k] == c.skip(b.len() as int)[k - ca.len()]);
        }
    }
}

/// Loads `constant` into the next free register, which it returns: a `Const`
/// instruction is added, and the constant goes to the end of the table.
pub fn push_constant(
    constant: SSAValue<()>,
    taken_virtual_registers: &mut usize,
    instructions: &mut Vec<SSAInstruction>,
    constants: &mut Vec<SSAValue<()>>,
) -> (register: SSARegister)
    ensures
        register == *old(taken_virtual_registers),
        *final(taken_virtual_registers) == vstd::wrapping::usize_specs::wrapping_add(
            *old(taken_virtual_registers),
            1,
        ),
        final(instructions)@ == old(instructions)@.push(
            Instruction::Const(*old(taken_virtual_registers), old(constants)@.len() as u16),
        ),
        final(constants)@ == old(constants)@.push(constant),
{
    let register = *taken_virtual_registers;
    instructions.push(Instruction::Const(register, constants.len() as u16));
    *taken_virtual_registers = register.wrapping_add(1);
    constants.push(constant);
    register
}

/// The constant that a token stands for: a symbol becomes its index in the ledger,
/// recording it first if it is new.
pub fn token_to_value(symbol_ledger: &mut SymbolLedger, token: Token) -> (value: SSAValue<()>)
    ensures
        match token {
            Token::Symbol(s) => {
                let (index, names) = intern(old(symbol_ledger)@, s@);
                &&& value == GenericValue::<usize, usize, (usize, usize), ()>::Symbol(index)
                &&& final(symbol_ledger)@ == names
            },
            _ => final(symbol_ledger)@ == old(symbol_ledger)@ && const_model(
                value,
                match token {
                    Token::Nil => SpecConst::Nil,
                    Token::IntLiteral(i) => SpecConst::Number(Num::Int(i)),
                    Token::FloatLiteral(f) => SpecConst::Number(Num::Float(f)),
                    Token::StringLiteral(s) => SpecConst::Str(s@),
                    Token::Symbol(_) => SpecConst::Nil,
                },
            ),
        },
{
    match token {
        Token::Nil => GenericValue::Nil,
        Token::IntLiteral(i) => GenericValue::Number(Num::Int(i)),
        Token::FloatLiteral(f) => GenericValue::Number(Num::Float(f)),
        Token::StringLiteral(s) => GenericValue::Str(Rc::new(s)),
        Token::Symbol(s) => GenericValue::Symbol(symbol_ledger.symbol_index(s)),
    }
}

fn build_leaf_ir(
    token: Token,
    bindings: &Vec<(SymbolIndex, u8)>,
    symbol_ledger: &mut SymbolLedger,
    taken_virtual_registers: &mut usize,
    instructions: &mut Vec<SSAInstruction>,
    constants: &mut Vec<SSAValue<()>>,
) -> (r: Result<SSARegister, ASTError>)
    ensures
        compiled_as(
            compile_leaf(
                token,
                bindings@,
                current_state(
                    old(symbol_ledger)@,
                    *old(taken_virtual_registers),
                    old(instructions)@,
                    old(constants)@,
                ),
            ),
            r,
            final(symbol_ledger)@,
            *final(taken_virtual_registers),
            final(instructions)@,
            old(constants)@,
            final(constants)@,
        ),
{
    let ghost start_names = symbol_ledger@;
    let ghost old_constants = constants@;
    let ghost tok = token;
    let value = token_to_value(symbol_ledger, token);
    match value {
        GenericValue::Symbol(index) => {
            match find_binding(bindings, index) {
                Some(i) => {
                    proof {
                        assert(constants@.take(old_constants.len() as int) =~= old_constants);
                        assert(constants@.skip(old_constants.len() as int) =~= Seq::<
                            SSAValue<()>,
                        >::empty());
                    }
                    Ok(bindings[i].1 as usize)
                },
                None => {
                    proof {
                        if let Token::Symbol(name) = tok {
                            let s = name@;
                            let i = first_index_of(start_names, s);
                            lemma_first_index_of_bounds(start_names, s);
                            if i >= 0 {
                                lemma_name_of_known(symbol_ledger@, i);
                            } else {
                                lemma_name_of_known(symbol_ledger@, start_names.len() as int);
                            }
                        }
                    }
                    let name = symbol_ledger.symbol_name(index).unwrap();
                    match CoreFnId::from_name(name.as_str()) {
                        Some(f) => {
                            let register = push_constant(
                                GenericValue::CoreFn(f),
                                taken_virtual_registers,
                                instructions,
                                constants,
                            );
                            proof {
                                assert(constants@.take(old_constants.len() as int) =~= old_constants);
                            }
                            Ok(register)
                        },
                        None => Err(ASTError::UnboundSymbol(name.clone())),
                    }
                },
            }
        },
        value => {
            let register = push_constant(value, taken_virtual_registers, instructions, constants);
            proof {
                assert(constants@.take(old_constants.len() as int) =~= old_constants);
            }
            Ok(register)
        },
    }
}

/// Compiles a function definition: `rest` holds what follows `fn` in list `t`.
fn build_function_ir(
    Ghost(t): Ghost<Tree<Token>>,
    rest: Vec<Tree<Token>>,
    bindings: &Vec<(SymbolIndex, u8)>,
    symbol_ledger: &mut SymbolLedger,
    taken_virtual_registers: &mut usize,
    instructions: &mut Vec<SSAInstruction>,
    constants: &mut Vec<SSAValue<()>>,
) -> (r: Result<SSARegister, ASTError>)
    requires
        t is Inner,
        t->Inner_0@.len() >= 1,
        is_fn_symbol(t->Inner_0@[0]),
        rest@ == t->Inner_0@.skip(1),
    ensures
        compiled_as(
            compile_tree(
                t,
                bindings@,
                current_state(
                    old(symbol_ledger)@,
                    *old(taken_virtual_registers),
                    old(instructions)@,
                    old(constants)@,
                ),
            ),
            r,
            final(symbol_ledger)@,
            *final(taken_virtual_registers),
            final(instructions)@,
            old(constants)@,
            final(constants)@,
        ),
    decreases t, 0int,
{
    let ghost whole = t->Inner_0@;
    let ghost start_names = symbol_ledger@;
    let ghost old_constants = constants@;
    let mut rest = rest;
    if rest.len() == 0 {
        return Err(ASTError::InvalidFunctionDefintionArgumentList(None));
    }
    let args = rest.remove(0);
    proof {
        assert(args == whole[1]);
    }
    match args {
        Tree::Inner(arg_tokens) => {
            let ghost arg_seq = arg_tokens@;
            proof {
                assert(arg_seq.len() == arg_tokens.len());
            }
            let mut new_bindings: Vec<(SymbolIndex, u8)> = Vec::new();
            let mut k: usize = 0;
            while k < bindings.len()
                invariant
                    0 <= k <= bindings@.len(),
                    new_bindings@ == bindings@.take(k as int),
                decreases bindings@.len() - k,
            {
                new_bindings.push(bindings[k]);
                proof {
                    assert(bindings@.take(k + 1) =~= bindings@.take(k as int).push(
                        bindings@[k as int],
                    ));
                }
                k = k + 1;
            }
            proof {
                assert(bindings@.take(bindings@.len() as int) =~= bindings@);
            }
            let arg_count = arg_tokens.len() as u8;
            let mut remaining = arg_tokens;
            let mut j: usize = 0;
            proof {
                assert(remaining@ =~= arg_seq.skip(0));
            }
            while remaining.len() > 0
                invariant
                    0 <= j <= arg_seq.len(),
                    arg_seq.len() <= usize::MAX,
                    t is Inner,
                    whole == t->Inner_0@,
                    whole.len() >= 2,
                    is_fn_symbol(whole[0]),
                    whole[1] is Inner,
                    arg_seq == whole[1]->Inner_0@,
                    start_names == old(symbol_ledger)@,
                    remaining@ == arg_seq.skip(j as int),
                    bind_args(arg_seq, j as int, bindings@, start_names) == Ok::<
                        (Seq<(SymbolIndex, u8)>, Seq<Seq<char>>),
                        SpecAstError,
                    >((new_bindings@, symbol_ledger@)),
                decreases remaining@.len(),
            {
                let token = remaining.remove(0);
                proof {
                    assert(token == arg_seq[j as int]);
                    assert(remaining@ =~= arg_seq.skip(j + 1));
                }
                match token {
                    Tree::Leaf(Token::Symbol(name)) => {
                        let index = symbol_ledger.symbol_index(name);
                        bind_symbol(&mut new_bindings, index);
                    },
                    other => {
                        proof {
                            lemma_bind_args_error(
                                arg_seq,
                                j + 1,
                                arg_seq.len() as int,
                                bindings@,
                                start_names,
                            );
                        }
                        return Err(ASTError::InvalidFunctionDefintionArgument(other));
                    },
                }
                j = j + 1;
            }
            proof {
                assert(j == arg_seq.len());
            }
            if rest.len() == 0 {
                return Err(ASTError::FunctionDefinitionMissingBody);
            }
            let body = rest.remove(0);
            proof {
                assert(body == whole[2]);
                assert(decreases_to!(t => t->Inner_0));
                assert(decreases_to!(t->Inner_0 => t->Inner_0@));
                assert(decreases_to!(t->Inner_0@ => t->Inner_0@[2]));
            }
            let mut function_instructions: Vec<SSAInstruction> = Vec::new();
            let mut function_constants: Vec<SSAValue<()>> = Vec::new();
            let mut function_taken: usize = arg_count as usize;
            let ret = match build_ast_ir(
                body,
                &new_bindings,
                symbol_ledger,
                &mut function_taken,
                &mut function_instructions,
                &mut function_constants,
            ) {
                Ok(ret) => ret,
                Err(e) => {
                    return Err(e);
                },
            };
            proof {
                assert(function_constants@.skip(0) =~= function_constants@);
            }
            function_instructions.push(Instruction::Return(ret));
            let f = GenericValue::CompositeFn(
                Rc::new(
                    GenericCompositeFunction::new(
                        AritySpecifier { count: arg_count },
                        GenericBlock::new_with_metadata(function_instructions, function_constants, ()),
                    ),
                ),
            );
            let register = push_constant(f, taken_virtual_registers, instructions, constants);
            proof {
                assert(constants@.take(old_constants.len() as int) =~= old_constants);
            }
            Ok(register)
        },
        other => Err(ASTError::InvalidFunctionDefintionArgumentList(Some(other))),
    }
}

/// Compiles a call: `first` is the head of list `t`, and `rest` what follows it.
fn build_call_ir(
    Ghost(t): Ghost<Tree<Token>>,
    first: Tree<Token>,
    rest: Vec<Tree<Token>>,
    bindings: &Vec<(SymbolIndex, u8)>,
    symbol_ledger: &mut SymbolLedger,
    taken_virtual_registers: &mut usize,
    instructions: &mut Vec<SSAInstruction>,
    constants: &mut Vec<SSAValue<()>>,
) -> (r: Result<SSARegister, ASTError>)
    requires
        t is Inner,
        t->Inner_0@.len() >= 1,
        !is_fn_symbol(t->Inner_0@[0]),
        first == t->Inner_0@[0],
        rest@ == t->Inner_0@.skip(1),
    ensures
        compiled_as(
            compile_tree(
                t,
                bindings@,
                current_state(
                    old(symbol_ledger)@,
                    *old(taken_virtual_registers),
                    old(instructions)@,
                    old(constants)@,
                ),
            ),
            r,
            final(symbol_ledger)@,
            *final(taken_virtual_registers),
            final(instructions)@,
            old(constants)@,
            final(constants)@,
        ),
    decreases t, 0int,
{
    let ghost whole = t->Inner_0@;
    let ghost old_constants = constants@;
    let ghost start = current_state(
        symbol_ledger@,
        *taken_virtual_registers,
        instructions@,
        constants@,
    );
    proof {
        assert(whole.len() == rest@.len() + 1);
        assert(rest@.len() == rest.len());
    }
    let mut rest = rest;
    let mut arg_registers: Vec<SSARegister> = Vec::new();
    let mut i: usize = 0;
    let ghost mut added: Seq<SpecConst> = Seq::empty();
    proof {
        assert(constants@.take(old_constants.len() as int) =~= old_constants);
        assert(constants@.skip(old_constants.len() as int) =~= Seq::<SSAValue<()>>::empty());
    }
    while rest.len() > 0
        invariant
            t is Inner,
            whole == t->Inner_0@,
            !is_fn_symbol(whole[0]),
            start == current_state(
                old(symbol_ledger)@,
                *old(taken_virtual_registers),
                old(instructions)@,
                old(constants)@,
            ),
            old_constants == old(constants)@,
            1 <= i + 1 <= whole.len(),
            whole.len() <= usize::MAX + 1,
            rest@ == whole.skip(i + 1),
            start.const_count == old_constants.len(),
            compile_args(t, i as int, bindings@, start) == Ok::<
                (Seq<usize>, CompileState, Seq<SpecConst>),
                SpecAstError,
            >(
                (
                    arg_registers@,
                    current_state(symbol_ledger@, *taken_virtual_registers, instructions@, constants@),
                    added,
                ),
            ),
            constants@.len() == old_constants.len() + added.len(),
            constants@.take(old_constants.len() as int) == old_constants,
            consts_model(constants@.skip(old_constants.len() as int), added),
        decreases rest@.len(),
    {
        let arg = rest.remove(0);
        proof {
            assert(arg == whole[i + 1]);
            assert(rest@ =~= whole.skip(i + 2));
            assert(decreases_to!(t => t->Inner_0));
            assert(decreases_to!(t->Inner_0 => t->Inner_0@));
            assert(decreases_to!(t->Inner_0@ => t->Inner_0@[i + 1]));
        }
        let ghost before = constants@;
        let ghost st_before = current_state(
            symbol_ledger@,
            *taken_virtual_registers,
            instructions@,
            constants@,
        );
        match build_ast_ir(
            arg,
            bindings,
            symbol_ledger,
            taken_virtual_registers,
            instructions,
            constants,
        ) {
            Ok(r) => {
                proof {
                    let added2 = compile_tree(whole[i + 1], bindings@, st_before)->Ok_0.2;
                    lemma_consts_model_append(
                        old_constants,
                        before,
                        constants@,
                        added,
                        added2,
                        old_constants.len() as int,
                    );
                    added = added + added2;
                }
                arg_registers.push(r);
            },
            Err(e) => {
                proof {
                    let sub = compile_tree(whole[i + 1], bindings@, st_before);
                    assert(sub is Err);
                    assert(compile_args(t, i + 1, bindings@, start) == Err::<
                        (Seq<usize>, CompileState, Seq<SpecConst>),
                        SpecAstError,
                    >(sub->Err_0));
                    lemma_compile_args_error(
                        t,
                        i + 1,
                        whole.len() - 1,
                        bindings@,
                        start,
                    );
                    assert(compile_tree(t, bindings@, start) == Err::<
                        (usize, CompileState, Seq<SpecConst>),
                        SpecAstError,
                    >(sub->Err_0));
                }
                return Err(e);
            },
        }
        i = i + 1;
    }
    proof {
        assert(rest@.len() == 0);
        assert(i + 1 == whole.len());
        assert(compile_args(t, whole.len() - 1, bindings@, start) is Ok);
        assert(decreases_to!(t => t->Inner_0));
        assert(decreases_to!(t->Inner_0 => t->Inner_0@));
        assert(decreases_to!(t->Inner_0@ => t->Inner_0@[0]));
    }
    let ghost before = constants@;
    let ghost st_before = current_state(
        symbol_ledger@,
        *taken_virtual_registers,
        instructions@,
        constants@,
    );
    let f_register = match build_ast_ir(
        first,
        bindings,
        symbol_ledger,
        taken_virtual_registers,
        instructions,
        constants,
    ) {
        Ok(r) => r,
        Err(e) => {
            return Err(e);
        },
    };
    proof {
        let added2 = compile_tree(whole[0], bindings@, st_before)->Ok_0.2;
        lemma_consts_model_append(
            old_constants,
            before,
            constants@,
            added,
            added2,
            old_constants.len() as int,
        );
    }
    let target = *taken_virtual_registers;
    let ghost with_call = instructions@.push(
        Instruction::Call(target, f_register, arg_registers@.len() as u8),
    );
    instructions.push(Instruction::Call(target, f_register, arg_registers.len() as u8));
    let mut k: usize = 0;
    proof {
        assert(instructions@ =~= with_call + arg_registers@.take(0).map_values(
            |r: usize| Instruction::<usize, usize, (usize, usize)>::CopyArgument(r),
        ));
    }
    while k < arg_registers.len()
        invariant
            0 <= k <= arg_registers@.len(),
            instructions@ == with_call + arg_registers@.take(k as int).map_values(
                |r: usize| Instruction::<usize, usize, (usize, usize)>::CopyArgument(r),
            ),
        decreases arg_registers@.len() - k,
    {
        instructions.push(Instruction::CopyArgument(arg_registers[k]));
        proof {
            assert(arg_registers@.take(k + 1).map_values(
                |r: usize| Instruction::<usize, usize, (usize, usize)>::CopyArgument(r),
            ) =~= arg_registers@.take(k as int).map_values(
                |r: usize| Instruction::<usize, usize, (usize, usize)>::CopyArgument(r),
            ).push(Instruction::CopyArgument(arg_registers@[k as int])));
        }
        k = k + 1;
    }
    proof {
        assert(arg_registers@.take(arg_registers@.len() as int) =~= arg_registers@);
    }
    *taken_virtual_registers = target.wrapping_add(1);
    Ok(target)
}

/// Compiles `ast` (see `compile_tree`), adding its instructions and constants to those
/// given, and returns the register that holds its value.
pub fn build_ast_ir(
    ast: Tree<Token>,
    bindings: &Vec<(SymbolIndex, u8)>,
    symbol_ledger: &mut SymbolLedger,
    taken_virtual_registers: &mut usize,
    instructions: &mut Vec<SSAInstruction>,
    constants: &mut Vec<SSAValue<()>>,
) -> (r: Result<SSARegister, ASTError>)
    ensures
        compiled_as(
            compile_tree(
                ast,
                bindings@,
                current_state(
                    old(symbol_ledger)@,
                    *old(taken_virtual_registers),
                    old(instructions)@,
                    old(constants)@,
                ),
            ),
            r,
            final(symbol_ledger)@,
            *final(taken_virtual_registers),
            final(instructions)@,
            old(constants)@,
            final(constants)@,
        ),
    decreases ast, 1int,
{
    let ghost t = ast;
    match ast {
        Tree::Leaf(token) => build_leaf_ir(
            token,
            bindings,
            symbol_ledger,
            taken_virtual_registers,
            instructions,
            constants,
        ),
        Tree::Inner(list) => {
            let ghost whole = list@;
            let mut rest = list;
            if rest.len() == 0 {
                return Err(ASTError::EmptyList);
            }
            let first = rest.remove(0);
            proof {
                assert(first == whole[0]);
                assert(rest@ =~= whole.skip(1));
            }
            let is_fn = match &first {
                Tree::Leaf(Token::Symbol(s)) => {
                    proof {
                        reveal_strlit("fn");
                        assert("fn"@ =~= seq!['f', 'n']);
                    }
                    str_equals(s.as_str(), "fn")
                },
                _ => false,
            };
            if is_fn {
                build_function_ir(
                    Ghost(t),
                    rest,
                    bindings,
                    symbol_ledger,
                    taken_virtual_registers,
                    instructions,
                    constants,
                )
            } else {
                build_call_ir(
                    Ghost(t),
                    first,
                    rest,
                    bindings,
                    symbol_ledger,
                    taken_virtual_registers,
                    instructions,
                    constants,
                )
            }
        },
    }
}

/// What compiling the whole expression `tokens` from scratch gives: its instructions
/// followed by a `Return` of its register, with the constants it added; or the error.
pub open spec fn lowered(tokens: Tree<Token>, r: Result<SSABlock<()>, ASTError>) -> bool {
    let start = CompileState {
        names: Seq::empty(),
        taken: 0,
        instructions: Seq::empty(),
        const_count: 0,
    };
    match compile_tree(tokens, Seq::empty(), start) {
        Ok((register, st, added)) => {
            &&& r is Ok
            &&& r->Ok_0.instructions@ == st.instructions.push(Instruction::Return(register))
            &&& consts_model(r->Ok_0.constants@, added)
        },
        Err(e) => r is Err && error_matches(r->Err_0, e),
    }
}

/// Compiles an expression, given as a tree of token texts, into a block of the
/// intermediate representation: every leaf is read as a token (`host` reads floats), and
/// the token tree is compiled with no bindings and a fresh symbol ledger (see
/// `compile_tree`). A leaf that is no token makes `ASTError::Parse`.
pub fn expression_ast_to_ir<H: Host>(ast: Tree<String>, host: &H) -> (r: Result<
    SSABlock<()>,
    ASTError,
>)
    ensures
        match r {
            Err(ASTError::Parse(e)) => tree_translation(ast, Err(e), token_outcomes()),
            _ => exists|tokens: Tree<Token>|
                tree_translation(ast, Ok(tokens), token_outcomes()) && lowered(tokens, r),
        },
{
    let reader = |text: String| -> (r: Result<Token, CantParseTokenError>)
        ensures
            token_outcome(text, r),
        {
            let reading = host.parse_float(text.as_str());
            Token::from_text(text, reading)
        };
    let ghost input_ast = ast;
    let translated = ast.translate(&reader);
    proof {
        lemma_tree_translation_weaken(input_ast, translated, leaf_outcomes(reader), token_outcomes());
    }
    let tokens = match translated {
        Ok(tokens) => tokens,
        Err(e) => {
            return Err(ASTError::Parse(e));
        },
    };
    let ghost token_tree = tokens;
    let mut taken_virtual_registers: usize = 0;
    let mut instructions: Vec<SSAInstruction> = Vec::new();
    let mut constants: Vec<SSAValue<()>> = Vec::new();
    let mut ledger = SymbolLedger::new();
    let bindings: Vec<(SymbolIndex, u8)> = Vec::new();
    proof {
        assert(bindings@ =~= Seq::<(SymbolIndex, u8)>::empty());
    }
    let last_register = match build_ast_ir(
        tokens,
        &bindings,
        &mut ledger,
        &mut taken_virtual_registers,
        &mut instructions,
        &mut constants,
    ) {
        Ok(register) => register,
        Err(e) => {
            proof {
                assert(lowered(token_tree, Err::<SSABlock<()>, ASTError>(e)));
            }
            return Err(e);
        },
    };
    instructions.push(Instruction::Return(last_register));
    proof {
        assert(constants@.skip(0) =~= constants@);
    }
    let block = GenericBlock::new_with_metadata(instructions, constants, ());
    proof {
        assert(lowered(token_tree, Ok::<SSABlock<()>, ASTError>(block)));
    }
    Ok(block)
}

/// Below 65536 names the name of each index is the one at that position.
proof fn lemma_name_of_position(names: Seq<Seq<char>>, k: int)
    requires
        0 <= k < names.len(),
        names.len() <= 65536,
    ensures
        name_of(names, k as u16) == Some(names[k]),
    decreases names.len(),
{
    if names.len() - 1 != k {
        assert((names.len() - 1) as u16 != k as u16);
        lemma_name_of_position(names.drop_last(), k);
    }
}

/// A ledger gives back the name that it gave an index to: the index that `name` gets is
/// one under which the ledger afterwards finds `name`, as long as the ledger held fewer
/// than 65536 names (indices are 16 bits wide and wrap around beyond).
pub proof fn law_ledger_gives_back_name(names: Seq<Seq<char>>, name: Seq<char>)
    requires
        names.len() < 65536,
    ensures
        name_of(intern(names, name).1, intern(names, name).0) == Some(name),
{
    lemma_first_index_of_bounds(names, name);
    let i = first_index_of(names, name);
    if i >= 0 {
        lemma_name_of_position(names, i);
    } else {
        let longer = names.push(name);
        assert(longer.drop_last() =~= names);
    }
}

/// Where `x` has no first position in `s`, it does not occur in `s`.
pub proof fn lemma_first_index_absent<T>(s: Seq<T>, x: T)
    requires
        first_index_of(s, x) < 0,
    ensures
        forall|k: int| 0 <= k < s.len() ==> s[k] != x,
    decreases s.len(),
{
    if s.len() > 0 {
        lemma_first_index_absent(s.drop_first(), x);
        assert forall|k: int| 0 <= k < s.len() implies s[k] != x by {
            if k > 0 {
                assert(s[k] == s.drop_first()[k - 1]);
            }
        }
    }
}

/// A ledger never holds a name twice: where `names` holds no name twice, neither does
/// the ledger after a name has been looked up (see `intern`).
pub proof fn law_ledger_names_distinct(names: Seq<Seq<char>>, name: Seq<char>)
    requires
        forall|i: int, j: int|
            0 <= i < names.len() && 0 <= j < names.len() && i != j ==> names[i] != names[j],
    ensures
        forall|i: int, j: int|
            0 <= i < intern(names, name).1.len() && 0 <= j < intern(names, name).1.len() && i != j
                ==> intern(names, name).1[i] != intern(names, name).1[j],
{
    if first_index_of(names, name) < 0 {
        lemma_first_index_absent(names, name);
        let longer = names.push(name);
        assert forall|i: int, j: int|
            0 <= i < longer.len() && 0 <= j < longer.len() && i != j implies longer[i] != longer[j] by {
            if i < names.len() && j < names.len() {
                assert(longer[i] == names[i] && longer[j] == names[j]);
            } else if i < names.len() {
                assert(longer[i] == names[i]);
            } else {
                assert(longer[j] == names[j]);
            }
        }
    }
}

/// Below 65536 names no index past the names has a name.
proof fn lemma_name_of_past_end(names: Seq<Seq<char>>, j: SymbolIndex)
    requires
        names.len() <= j,
    ensures
        name_of(names, j) is None,
    decreases names.len(),
{
    if names.len() > 0 {
        lemma_name_of_past_end(names.drop_last(), j);
    }
}

/// How a ledger of fewer than 65536 names gives out indices: a name it holds keeps the
/// index of its position and the ledger stays as it is; a new name gets the next index
/// and is added; a name given an index is found under it; two different names get
/// different indices; and no index past the names held has a name.
pub proof fn law_ledger_indices(names: Seq<Seq<char>>, name: Seq<char>, other: Seq<char>, j: SymbolIndex)
    requires
        names.len() + 1 < 65536,
    ensures
        first_index_of(names, name) >= 0 ==> intern(names, name) == (
            first_index_of(names, name) as u16,
            names,
        ),
        first_index_of(names, name) < 0 ==> intern(names, name) == (
            names.len() as u16,
            names.push(name),
        ),
        name_of(intern(names, name).1, intern(names, name).0) == Some(name),
        other != name ==> intern(intern(names, name).1, other).0 != intern(names, name).0,
        names.len() <= j ==> name_of(names, j) is None,
{
    law_ledger_gives_back_name(names, name);
    let (i, names1) = intern(names, name);
    lemma_first_index_of_bounds(names, name);
    lemma_first_index_of_bounds(names1, name);
    lemma_first_index_of_bounds(names1, other);
    if first_index_of(names, name) < 0 {
        lemma_first_index_absent(names, name);
        let p = names.len() as int;
        assert(names1[p] == name);
        lemma_first_index_of(names1, name, p);
    }
    let p = first_index_of(names1, name);
    assert(0 <= p < names1.len() && names1[p] == name);
    assert(i == p as u16);
    if other != name {
        let q = first_index_of(names1, other);
        if q >= 0 {
            assert(names1[q] == other);
            assert(q != p);
        } else {
            assert(intern(names1, other).0 == names1.len() as u16);
        }
    }
    if names.len() <= j {
        lemma_name_of_past_end(names, j);
    }
}

} // verus!
