use std::rc::Rc;
use vstd::prelude::*;
use crate::compiler::ast_to_ir::{
    first_index_of, gensym_name, intern, lemma_first_index_of, lemma_first_index_of_bounds, name_of,
    ASTError, SymbolLedger,
};
use crate::runtime::core_functions::CoreFnId;
use crate::runtime::description::{describe_error_into, push_float_text, push_str, with_point};
use crate::runtime::host::Host;
use crate::text::{chars_of, decimal, int_text, push_decimal, push_int_text, string_from_chars};
use crate::compiler::expression_laws::{lemma_lifted_binders, lemma_read_names_symbols};
use crate::runtime::core_functions::spec_from_name;
use crate::compiler::parse::{Token, Tree};
use crate::compiler::SSAValue;
use crate::instructions::SymbolIndex;
use crate::runtime::data::{GenericValue, Num};
use crate::text::str_equals;

verus! {

/// An expression of the language, read from a token tree.
#[derive(Debug)]
pub enum Expression {
    Literal(SSAValue<()>),
    Quoted(Box<Expression>),
    Application(Vec<Expression>),
    Function { arg_names: Vec<SymbolIndex>, body: Vec<Expression> },
}

/// A literal as the expressions see it: symbols by index, strings by their characters,
/// and any other value as it is.
pub ghost enum SpecLiteral {
    Nil,
    Number(Num),
    Str(Seq<char>),
    Symbol(SymbolIndex),
    EmptyList,
    Other(SSAValue<()>),
}

/// The mathematical form of an [`Expression`].
pub ghost enum SpecExpression {
    Literal(SpecLiteral),
    Quoted(Box<SpecExpression>),
    Application(Seq<SpecExpression>),
    Function { arg_names: Seq<SymbolIndex>, body: Seq<SpecExpression> },
}

/// What the literal `v` is.
pub open spec fn literal_model(v: SSAValue<()>) -> SpecLiteral {
    match v {
        GenericValue::Nil => SpecLiteral::Nil,
        GenericValue::Number(n) => SpecLiteral::Number(n),
        GenericValue::Str(s) => SpecLiteral::Str(s@),
        GenericValue::Symbol(k) => SpecLiteral::Symbol(k),
        GenericValue::List(l) => if l@.len() == 0 {
            SpecLiteral::EmptyList
        } else {
            SpecLiteral::Other(v)
        },
        _ => SpecLiteral::Other(v),
    }
}

/// The mathematical form of `e`.
pub open spec fn model(e: Expression) -> SpecExpression
    decreases e,
{
    match e {
        Expression::Literal(v) => SpecExpression::Literal(literal_model(v)),
        Expression::Quoted(sub) => SpecExpression::Quoted(Box::new(model(*sub))),
        Expression::Application(es) => SpecExpression::Application(models(es)),
        Expression::Function { arg_names, body } => SpecExpression::Function {
            arg_names: arg_names@,
            body: models(body),
        },
    }
}

/// The mathematical forms of `es`, one by one.
pub open spec fn models(es: Vec<Expression>) -> Seq<SpecExpression>
    decreases es,
{
    proof {
        assert(decreases_to!(es => es@));
    }
    Seq::new(
        es@.len(),
        |i: int|
            if 0 <= i < es@.len() {
                proof {
                    assert(decreases_to!(es@ => es@[i]));
                }
                model(es@[i])
            } else {
                SpecExpression::Application(Seq::empty())
            },
    )
}

/// The symbols that `e` reads and `bindings` does not bind, in the order in which they
/// occur, repeats included; a function's arguments bind within its body, and nothing
/// inside a quote is read.
pub open spec fn unbound(e: SpecExpression, bindings: Seq<SymbolIndex>) -> Seq<SymbolIndex>
    decreases e,
{
    match e {
        SpecExpression::Literal(SpecLiteral::Symbol(k)) => if bindings.contains(k) {
            Seq::empty()
        } else {
            seq![k]
        },
        SpecExpression::Literal(_) => Seq::empty(),
        SpecExpression::Quoted(_) => Seq::empty(),
        SpecExpression::Application(es) => unbound_all(es, bindings),
        SpecExpression::Function { arg_names, body } => unbound_all(body, bindings + arg_names),
    }
}

/// The unbound symbols of `es`, one expression after another.
pub open spec fn unbound_all(es: Seq<SpecExpression>, bindings: Seq<SymbolIndex>) -> Seq<
    SymbolIndex,
>
    decreases es,
{
    if es.len() == 0 {
        Seq::empty()
    } else {
        unbound_all(es.subrange(0, es.len() - 1), bindings) + unbound(es[es.len() - 1], bindings)
    }
}

/// Whether `symbols` holds `k`.
fn holds_symbol(symbols: &Vec<SymbolIndex>, k: SymbolIndex) -> (held: bool)
    ensures
        held == symbols@.contains(k),
{
    let mut i: usize = 0;
    while i < symbols.len()
        invariant
            0 <= i <= symbols@.len(),
            forall|j: int| 0 <= j < i ==> symbols@[j] != k,
        decreases symbols@.len() - i,
    {
        if symbols[i] == k {
            return true;
        }
        i = i + 1;
    }
    false
}

/// `first` followed by `second`.
fn concatenated(first: &Vec<SymbolIndex>, second: &Vec<SymbolIndex>) -> (joined: Vec<SymbolIndex>)
    ensures
        joined@ == first@ + second@,
{
    let mut joined: Vec<SymbolIndex> = Vec::new();
    let mut i: usize = 0;
    while i < first.len()
        invariant
            0 <= i <= first@.len(),
            joined@ == first@.subrange(0, i as int),
        decreases first@.len() - i,
    {
        joined.push(first[i]);
        i = i + 1;
        proof {
            assert(joined@ =~= first@.subrange(0, i as int));
        }
    }
    let mut j: usize = 0;
    while j < second.len()
        invariant
            0 <= j <= second@.len(),
            i == first@.len(),
            joined@ == first@ + second@.subrange(0, j as int),
        decreases second@.len() - j,
    {
        joined.push(second[j]);
        j = j + 1;
        proof {
            assert(joined@ =~= first@ + second@.subrange(0, j as int));
        }
    }
    proof {
        assert(second@.subrange(0, j as int) =~= second@);
    }
    joined
}

/// The unbound symbols of `es` up to `i`, and then those of the expression at `i`.
proof fn lemma_unbound_all_step(es: Seq<SpecExpression>, i: int, bindings: Seq<SymbolIndex>)
    requires
        0 <= i < es.len(),
    ensures
        unbound_all(es.subrange(0, i + 1), bindings) == unbound_all(es.subrange(0, i), bindings)
            + unbound(es[i], bindings),
{
    assert(es.subrange(0, i + 1).subrange(0, i) =~= es.subrange(0, i));
}

impl Expression {
    /// The symbols that this expression reads and `bindings` does not bind (see
    /// `unbound`).
    fn unbound_internal_symbols(&self, bindings: &Vec<SymbolIndex>) -> (symbols: Vec<SymbolIndex>)
        ensures
            symbols@ == unbound(model(*self), bindings@),
        decreases self,
    {
        match self {
            Expression::Literal(value) => match value {
                GenericValue::Symbol(symbol) => {
                    if holds_symbol(bindings, *symbol) {
                        Vec::new()
                    } else {
                        let mut symbols = Vec::new();
                        symbols.push(*symbol);
                        proof {
                            assert(symbols@ =~= seq![*symbol]);
                        }
                        symbols
                    }
                },
                _ => Vec::new(),
            },
            Expression::Quoted(_) => Vec::new(),
            Expression::Application(subexpressions) => unbound_in_all(subexpressions, bindings),
            Expression::Function { arg_names, body } => {
                let inner_bindings = concatenated(bindings, arg_names);
                unbound_in_all(body, &inner_bindings)
            },
        }
    }
}

/// The unbound symbols of `es`, one expression after another (see `unbound_all`).
fn unbound_in_all(es: &Vec<Expression>, bindings: &Vec<SymbolIndex>) -> (symbols: Vec<SymbolIndex>)
    ensures
        symbols@ == unbound_all(models(*es), bindings@),
    decreases es,
{
    let ghost ms = models(*es);
    let mut symbols: Vec<SymbolIndex> = Vec::new();
    let mut i: usize = 0;
    proof {
        assert(ms.subrange(0, 0) =~= Seq::<SpecExpression>::empty());
    }
    while i < es.len()
        invariant
            0 <= i <= es@.len(),
            ms == models(*es),
            ms.len() == es@.len(),
            symbols@ == unbound_all(ms.subrange(0, i as int), bindings@),
        decreases es@.len() - i,
    {
        proof {
            assert(decreases_to!(es => es@));
            assert(decreases_to!(es@ => es@[i as int]));
        }
        let mut more = es[i].unbound_internal_symbols(bindings);
        proof {
            assert(ms[i as int] == model(es@[i as int]));
            lemma_unbound_all_step(ms, i as int, bindings@);
        }
        symbols.append(&mut more);
        i = i + 1;
    }
    proof {
        assert(ms.subrange(0, i as int) =~= ms);
    }
    symbols
}

/// Why a token tree is no expression.
pub ghost enum ReadError {
    /// A function definition names an argument by this expression, which is no symbol.
    ArgumentName(SpecExpression),
    /// A function definition has this in place of its list of argument names.
    ArgumentList(Option<Tree<Token>>),
    /// A quote holds no expression, or more than one.
    MultipleInQuote,
}

/// `e` is the error that `se` describes.
pub open spec fn read_error_matches(e: ASTError, se: ReadError) -> bool {
    match (e, se) {
        (ASTError::InvalidFunctionDefintionArgumentName(x), ReadError::ArgumentName(m)) => model(x)
            == m,
        (ASTError::InvalidFunctionDefintionArgumentNameList(a), ReadError::ArgumentList(b)) => a
            == b,
        (ASTError::MultipleExpressionsInQuote, ReadError::MultipleInQuote) => true,
        _ => false,
    }
}

/// The literal that `token` reads as, with a ledger holding `names`, and the names held
/// afterwards: a symbol is recorded in the ledger (see `intern`).
pub open spec fn token_literal(token: Token, names: Seq<Seq<char>>) -> (SpecLiteral, Seq<Seq<char>>) {
    match token {
        Token::Nil => (SpecLiteral::Nil, names),
        Token::IntLiteral(i) => (SpecLiteral::Number(Num::Int(i)), names),
        Token::FloatLiteral(f) => (SpecLiteral::Number(Num::Float(f)), names),
        Token::StringLiteral(s) => (SpecLiteral::Str(s@), names),
        Token::Symbol(s) => {
            let (k, after) = intern(names, s@);
            (SpecLiteral::Symbol(k), after)
        },
    }
}

/// Whether `t` is a leaf holding the symbol called `name`.
pub open spec fn is_symbol_named(t: Tree<Token>, name: Seq<char>) -> bool {
    t matches Tree::Leaf(Token::Symbol(s)) && s@ == name
}

/// The expression that `t` reads as, with a ledger holding `names`, and the names held
/// afterwards. An empty list reads as the empty list literal; a list that starts with
/// `fn` as a function, whose second element lists the argument names and whose rest is
/// the body; a list that starts with `quote` as the quote of its one other element; any
/// other list as an application; a leaf as a literal. Elements are read in order, and
/// the first error ends the reading.
pub open spec fn read_expr(t: Tree<Token>, names: Seq<Seq<char>>) -> (
    Result<SpecExpression, ReadError>,
    Seq<Seq<char>>,
)
    decreases t,
{
    match t {
        Tree::Leaf(token) => {
            let (literal, after) = token_literal(token, names);
            (Ok(SpecExpression::Literal(literal)), after)
        },
        Tree::Inner(subtrees) => {
            let ts = subtrees@;
            if ts.len() == 0 {
                (Ok(SpecExpression::Literal(SpecLiteral::EmptyList)), names)
            } else if is_symbol_named(ts[0], seq!['f', 'n']) {
                if ts.len() > 1 && ts[1] is Inner {
                    let (args, after_args) = read_args(ts[1]->Inner_0@, names);
                    match args {
                        Err(e) => (Err(e), after_args),
                        Ok(arg_names) => {
                            let (body, after_body) = read_all(
                                ts.subrange(2, ts.len() as int),
                                after_args,
                            );
                            match body {
                                Err(e) => (Err(e), after_body),
                                Ok(body) => (
                                    Ok(SpecExpression::Function { arg_names, body }),
                                    after_body,
                                ),
                            }
                        },
                    }
                } else {
                    (
                        Err(
                            ReadError::ArgumentList(
                                if ts.len() > 1 {
                                    Some(ts[1])
                                } else {
                                    None
                                },
                            ),
                        ),
                        names,
                    )
                }
            } else if is_symbol_named(ts[0], seq!['q', 'u', 'o', 't', 'e']) {
                if ts.len() == 2 {
                    let (quoted, after) = read_expr(ts[1], names);
                    match quoted {
                        Err(e) => (Err(e), after),
                        Ok(x) => (Ok(SpecExpression::Quoted(Box::new(x))), after),
                    }
                } else {
                    (Err(ReadError::MultipleInQuote), names)
                }
            } else {
                let (elements, after) = read_all(ts, names);
                match elements {
                    Err(e) => (Err(e), after),
                    Ok(es) => (Ok(SpecExpression::Application(es)), after),
                }
            }
        },
    }
}

/// The expressions that `ts` read as, one after another.
pub open spec fn read_all(ts: Seq<Tree<Token>>, names: Seq<Seq<char>>) -> (
    Result<Seq<SpecExpression>, ReadError>,
    Seq<Seq<char>>,
)
    decreases ts,
{
    if ts.len() == 0 {
        (Ok(Seq::empty()), names)
    } else {
        let (init, after_init) = read_all(ts.subrange(0, ts.len() - 1), names);
        match init {
            Err(e) => (Err(e), after_init),
            Ok(es) => {
                let (last, after) = read_expr(ts[ts.len() - 1], after_init);
                match last {
                    Err(e) => (Err(e), after),
                    Ok(x) => (Ok(es.push(x)), after),
                }
            },
        }
    }
}

/// The argument names that `ts` read as: each must read as a symbol.
pub open spec fn read_args(ts: Seq<Tree<Token>>, names: Seq<Seq<char>>) -> (
    Result<Seq<SymbolIndex>, ReadError>,
    Seq<Seq<char>>,
)
    decreases ts,
{
    if ts.len() == 0 {
        (Ok(Seq::empty()), names)
    } else {
        let (init, after_init) = read_args(ts.subrange(0, ts.len() - 1), names);
        match init {
            Err(e) => (Err(e), after_init),
            Ok(ks) => {
                let (last, after) = read_expr(ts[ts.len() - 1], after_init);
                match last {
                    Err(e) => (Err(e), after),
                    Ok(SpecExpression::Literal(SpecLiteral::Symbol(k))) => (Ok(ks.push(k)), after),
                    Ok(x) => (Err(ReadError::ArgumentName(x)), after),
                }
            },
        }
    }
}

/// `r` is the outcome that `spec` describes.
pub open spec fn read_as<T, S>(
    r: Result<T, ASTError>,
    spec: Result<S, ReadError>,
    view: spec_fn(T) -> S,
) -> bool {
    match (r, spec) {
        (Ok(x), Ok(m)) => view(x) == m,
        (Err(e), Err(se)) => read_error_matches(e, se),
        _ => false,
    }
}

/// Once reading a prefix of `ts` fails, reading a longer prefix fails the same way.
proof fn lemma_read_all_error(ts: Seq<Tree<Token>>, j: int, k: int, names: Seq<Seq<char>>)
    requires
        0 <= j <= k <= ts.len(),
        read_all(ts.subrange(0, j), names).0 is Err,
    ensures
        read_all(ts.subrange(0, k), names) == read_all(ts.subrange(0, j), names),
    decreases k - j,
{
    if k > j {
        lemma_read_all_error(ts, j, k - 1, names);
        assert(ts.subrange(0, k).subrange(0, k - 1) =~= ts.subrange(0, k - 1));
    }
}

/// Once reading a prefix of `ts` as argument names fails, reading a longer prefix fails
/// the same way.
proof fn lemma_read_args_error(ts: Seq<Tree<Token>>, j: int, k: int, names: Seq<Seq<char>>)
    requires
        0 <= j <= k <= ts.len(),
        read_args(ts.subrange(0, j), names).0 is Err,
    ensures
        read_args(ts.subrange(0, k), names) == read_args(ts.subrange(0, j), names),
    decreases k - j,
{
    if k > j {
        lemma_read_args_error(ts, j, k - 1, names);
        assert(ts.subrange(0, k).subrange(0, k - 1) =~= ts.subrange(0, k - 1));
    }
}

/// The forms of `es` with `e` pushed are those of `es` with the form of `e` pushed.
proof fn lemma_models_push(before: Vec<Expression>, after: Vec<Expression>, e: Expression)
    requires
        after@ == before@.push(e),
    ensures
        models(after) == models(before).push(model(e)),
{
    assert(models(after) =~= models(before).push(model(e)));
}

impl Expression {
    /// The literal expression that `token` reads as (see `token_literal`).
    fn from_token(token: Token, symbol_ledger: &mut SymbolLedger) -> (e: Expression)
        ensures
            model(e) == SpecExpression::Literal(token_literal(token, old(symbol_ledger)@).0),
            final(symbol_ledger)@ == token_literal(token, old(symbol_ledger)@).1,
    {
        Expression::Literal(
            match token {
                Token::Nil => GenericValue::Nil,
                Token::IntLiteral(i) => GenericValue::Number(Num::Int(i)),
                Token::FloatLiteral(f) => GenericValue::Number(Num::Float(f)),
                Token::StringLiteral(s) => GenericValue::Str(Rc::new(s)),
                Token::Symbol(s) => GenericValue::Symbol(symbol_ledger.symbol_index(s)),
            },
        )
    }

    /// The expression that `token_tree` reads as, recording its symbols in
    /// `symbol_ledger` (see `read_expr`).
    pub fn from_token_tree(token_tree: Tree<Token>, symbol_ledger: &mut SymbolLedger) -> (r: Result<
        Expression,
        ASTError,
    >)
        ensures
            read_as(r, read_expr(token_tree, old(symbol_ledger)@).0, |e: Expression| model(e)),
            final(symbol_ledger)@ == read_expr(token_tree, old(symbol_ledger)@).1,
            r matches Ok(e) ==> all_named(mentioned(model(e)), final(symbol_ledger)@) && binders_named(
                model(e),
                final(symbol_ledger)@,
            ),
        decreases token_tree,
    {
        proof {
            lemma_read_names_symbols(token_tree, symbol_ledger@);
        }
        match token_tree {
            Tree::Inner(subtrees) => {
                let ghost ts = subtrees@;
                proof {
                    assert(decreases_to!(token_tree => subtrees));
                    assert(decreases_to!(subtrees => subtrees@));
                }
                if subtrees.len() == 0 {
                    let empty: Vec<SSAValue<()>> = Vec::new();
                    return Ok(Expression::Literal(GenericValue::List(Rc::new(empty))));
                }
                let (is_fn, is_quote) = match &subtrees[0] {
                    Tree::Leaf(Token::Symbol(s)) => {
                        proof {
                            reveal_strlit("fn");
                            reveal_strlit("quote");
                            assert("fn"@ =~= seq!['f', 'n']);
                            assert("quote"@ =~= seq!['q', 'u', 'o', 't', 'e']);
                        }
                        (str_equals(s.as_str(), "fn"), str_equals(s.as_str(), "quote"))
                    },
                    _ => (false, false),
                };
                if is_fn {
                    let mut rest = subtrees;
                    rest.remove(0);
                    if rest.len() == 0 {
                        return Err(ASTError::InvalidFunctionDefintionArgumentNameList(None));
                    }
                    let second = rest.remove(0);
                    proof {
                        assert(second == ts[1]);
                        assert(rest@ =~= ts.subrange(2, ts.len() as int));
                        assert(decreases_to!(ts => ts[1]));
                        assert(decreases_to!(ts => ts.subrange(2, ts.len() as int)));
                    }
                    match second {
                        Tree::Inner(arg_trees) => {
                            proof {
                                assert(decreases_to!(second => arg_trees));
                                assert(decreases_to!(arg_trees => arg_trees@));
                            }
                            match read_arg_names(arg_trees, symbol_ledger) {
                                Err(e) => Err(e),
                                Ok(arg_names) => match read_expressions(rest, symbol_ledger) {
                                    Err(e) => Err(e),
                                    Ok(body) => Ok(Expression::Function { arg_names, body }),
                                },
                            }
                        },
                        other => Err(ASTError::InvalidFunctionDefintionArgumentNameList(Some(other))),
                    }
                } else if is_quote {
                    if subtrees.len() == 2 {
                        let mut rest = subtrees;
                        let quoted = rest.remove(1);
                        proof {
                            assert(quoted == ts[1]);
                            assert(decreases_to!(ts => ts[1]));
                        }
                        match Expression::from_token_tree(quoted, symbol_ledger) {
                            Err(e) => Err(e),
                            Ok(x) => Ok(Expression::Quoted(Box::new(x))),
                        }
                    } else {
                        Err(ASTError::MultipleExpressionsInQuote)
                    }
                } else {
                    match read_expressions(subtrees, symbol_ledger) {
                        Err(e) => Err(e),
                        Ok(es) => Ok(Expression::Application(es)),
                    }
                }
            },
            Tree::Leaf(token) => Ok(Expression::from_token(token, symbol_ledger)),
        }
    }
}

/// The expressions that `trees` read as, one after another (see `read_all`).
fn read_expressions(trees: Vec<Tree<Token>>, symbol_ledger: &mut SymbolLedger) -> (r: Result<
    Vec<Expression>,
    ASTError,
>)
    ensures
        read_as(r, read_all(trees@, old(symbol_ledger)@).0, |es: Vec<Expression>| models(es)),
        final(symbol_ledger)@ == read_all(trees@, old(symbol_ledger)@).1,
    decreases trees@,
{
    let ghost all = trees@;
    let ghost start = symbol_ledger@;
    let mut pending = trees;
    let mut expressions: Vec<Expression> = Vec::new();
    let mut i: usize = 0;
    proof {
        assert(all.subrange(0, 0) =~= Seq::<Tree<Token>>::empty());
        assert(models(expressions) =~= Seq::<SpecExpression>::empty());
        assert(pending@ =~= all.subrange(0, all.len() as int));
        assert(pending.len() == all.len());
    }
    while pending.len() > 0
        invariant
            all == trees@,
            all.len() <= usize::MAX,
            all.len() == i + pending@.len(),
            pending@ == all.subrange(i as int, all.len() as int),
            start == old(symbol_ledger)@,
            read_all(all.subrange(0, i as int), start) == (
                Ok::<Seq<SpecExpression>, ReadError>(models(expressions)),
                symbol_ledger@,
            ),
        decreases pending@.len(),
    {
        let tree = pending.remove(0);
        proof {
            assert(tree == all[i as int]);
            assert(decreases_to!(all => all[i as int]));
            assert(all.subrange(0, i + 1).subrange(0, i as int) =~= all.subrange(0, i as int));
            assert(all.subrange(0, i + 1)[i as int] == all[i as int]);
        }
        match Expression::from_token_tree(tree, symbol_ledger) {
            Ok(e) => {
                let ghost earlier = expressions;
                let ghost added = e;
                expressions.push(e);
                proof {
                    lemma_models_push(earlier, expressions, added);
                }
            },
            Err(err) => {
                proof {
                    lemma_read_all_error(all, i + 1, all.len() as int, start);
                    assert(all.subrange(0, all.len() as int) =~= all);
                }
                return Err(err);
            },
        }
        proof {
            assert(pending@ =~= all.subrange(i + 1, all.len() as int));
        }
        i = i + 1;
    }
    proof {
        assert(all.subrange(0, i as int) =~= all);
    }
    Ok(expressions)
}

/// The argument names that `trees` read as (see `read_args`).
fn read_arg_names(trees: Vec<Tree<Token>>, symbol_ledger: &mut SymbolLedger) -> (r: Result<
    Vec<SymbolIndex>,
    ASTError,
>)
    ensures
        read_as(r, read_args(trees@, old(symbol_ledger)@).0, |ks: Vec<SymbolIndex>| ks@),
        final(symbol_ledger)@ == read_args(trees@, old(symbol_ledger)@).1,
    decreases trees@,
{
    let ghost all = trees@;
    let ghost start = symbol_ledger@;
    let mut pending = trees;
    let mut arg_names: Vec<SymbolIndex> = Vec::new();
    let mut i: usize = 0;
    proof {
        assert(all.subrange(0, 0) =~= Seq::<Tree<Token>>::empty());
        assert(arg_names@ =~= Seq::<SymbolIndex>::empty());
        assert(pending@ =~= all.subrange(0, all.len() as int));
        assert(pending.len() == all.len());
    }
    while pending.len() > 0
        invariant
            all == trees@,
            all.len() <= usize::MAX,
            all.len() == i + pending@.len(),
            pending@ == all.subrange(i as int, all.len() as int),
            start == old(symbol_ledger)@,
            read_args(all.subrange(0, i as int), start) == (
                Ok::<Seq<SymbolIndex>, ReadError>(arg_names@),
                symbol_ledger@,
            ),
        decreases pending@.len(),
    {
        let tree = pending.remove(0);
        proof {
            assert(tree == all[i as int]);
            assert(decreases_to!(all => all[i as int]));
            assert(all.subrange(0, i + 1).subrange(0, i as int) =~= all.subrange(0, i as int));
            assert(all.subrange(0, i + 1)[i as int] == all[i as int]);
        }
        match Expression::from_token_tree(tree, symbol_ledger) {
            Ok(Expression::Literal(GenericValue::Symbol(k))) => {
                arg_names.push(k);
            },
            Ok(other) => {
                proof {
                    lemma_read_args_error(all, i + 1, all.len() as int, start);
                    assert(all.subrange(0, all.len() as int) =~= all);
                }
                return Err(ASTError::InvalidFunctionDefintionArgumentName(other));
            },
            Err(err) => {
                proof {
                    lemma_read_args_error(all, i + 1, all.len() as int, start);
                    assert(all.subrange(0, all.len() as int) =~= all);
                }
                return Err(err);
            },
        }
        proof {
            assert(pending@ =~= all.subrange(i + 1, all.len() as int));
        }
        i = i + 1;
    }
    proof {
        assert(all.subrange(0, i as int) =~= all);
    }
    Ok(arg_names)
}

/// The symbol that stands in for `k` among `replacements`: the second of the first pair
/// whose first is `k`, if any.
pub open spec fn replacement_of(replacements: Seq<(SymbolIndex, SymbolIndex)>, k: SymbolIndex) -> Option<
    SymbolIndex,
> {
    let i = first_index_of(replacements.map_values(|p: (SymbolIndex, SymbolIndex)| p.0), k);
    if i >= 0 {
        Some(replacements[i].1)
    } else {
        None
    }
}

/// `e` with every symbol of `to_replace` that it reads replaced, quotes left alone, and
/// the ledger's names and the replacements afterwards: a symbol that has a replacement
/// takes it, and any other one takes a new generated symbol (see `gensym_name`), which
/// is recorded as its replacement. Symbols are replaced in the order in which they occur,
/// also inside functions, whatever these bind.
pub open spec fn replaced(
    e: SpecExpression,
    to_replace: Seq<SymbolIndex>,
    names: Seq<Seq<char>>,
    replacements: Seq<(SymbolIndex, SymbolIndex)>,
) -> (SpecExpression, Seq<Seq<char>>, Seq<(SymbolIndex, SymbolIndex)>)
    decreases e,
{
    match e {
        SpecExpression::Literal(SpecLiteral::Symbol(k)) => if to_replace.contains(k) {
            match replacement_of(replacements, k) {
                Some(r) => (SpecExpression::Literal(SpecLiteral::Symbol(r)), names, replacements),
                None => {
                    let generated = names.len() as u16;
                    (
                        SpecExpression::Literal(SpecLiteral::Symbol(generated)),
                        names.push(gensym_name(names)),
                        replacements.push((k, generated)),
                    )
                },
            }
        } else {
            (e, names, replacements)
        },
        SpecExpression::Application(es) => {
            let (new_es, after_names, after_replacements) = replaced_all(
                es,
                to_replace,
                names,
                replacements,
            );
            (SpecExpression::Application(new_es), after_names, after_replacements)
        },
        SpecExpression::Function { arg_names, body } => {
            let (new_body, after_names, after_replacements) = replaced_all(
                body,
                to_replace,
                names,
                replacements,
            );
            (
                SpecExpression::Function { arg_names, body: new_body },
                after_names,
                after_replacements,
            )
        },
        _ => (e, names, replacements),
    }
}

/// `replaced` on each of `es`, one after another.
pub open spec fn replaced_all(
    es: Seq<SpecExpression>,
    to_replace: Seq<SymbolIndex>,
    names: Seq<Seq<char>>,
    replacements: Seq<(SymbolIndex, SymbolIndex)>,
) -> (Seq<SpecExpression>, Seq<Seq<char>>, Seq<(SymbolIndex, SymbolIndex)>)
    decreases es,
{
    if es.len() == 0 {
        (Seq::empty(), names, replacements)
    } else {
        let (init, n1, r1) = replaced_all(
            es.subrange(0, es.len() - 1),
            to_replace,
            names,
            replacements,
        );
        let (last, n2, r2) = replaced(es[es.len() - 1], to_replace, n1, r1);
        (init.push(last), n2, r2)
    }
}

/// The symbol that stands in for `k` among `replacements` (see `replacement_of`).
fn find_replacement(replacements: &Vec<(SymbolIndex, SymbolIndex)>, k: SymbolIndex) -> (r: Option<
    SymbolIndex,
>)
    ensures
        r == replacement_of(replacements@, k),
{
    let ghost keys = replacements@.map_values(|p: (SymbolIndex, SymbolIndex)| p.0);
    let mut i: usize = 0;
    while i < replacements.len()
        invariant
            0 <= i <= replacements@.len(),
            keys == replacements@.map_values(|p: (SymbolIndex, SymbolIndex)| p.0),
            forall|j: int| 0 <= j < i ==> keys[j] != k,
        decreases replacements@.len() - i,
    {
        if replacements[i].0 == k {
            proof {
                lemma_first_index_of(keys, k, i as int);
            }
            return Some(replacements[i].1);
        }
        i = i + 1;
    }
    proof {
        lemma_first_index_of(keys, k, keys.len() as int);
    }
    None
}

impl Expression {
    /// This expression with the symbols of `to_replace` replaced, recording new
    /// replacements in `replacements` and their symbols in `symbol_ledger` (see
    /// `replaced`).
    pub fn replace_symbols(
        self,
        to_replace: &Vec<SymbolIndex>,
        symbol_ledger: &mut SymbolLedger,
        replacements: &mut Vec<(SymbolIndex, SymbolIndex)>,
    ) -> (e: Expression)
        ensures
            (model(e), final(symbol_ledger)@, final(replacements)@) == replaced(
                model(self),
                to_replace@,
                old(symbol_ledger)@,
                old(replacements)@,
            ),
            old(symbol_ledger)@.is_prefix_of(final(symbol_ledger)@),
            all_named(mentioned(model(self)), old(symbol_ledger)@) && replacements_named(
                old(replacements)@,
                old(symbol_ledger)@,
            ) ==> all_named(mentioned(model(e)), final(symbol_ledger)@) && replacements_named(
                final(replacements)@,
                final(symbol_ledger)@,
            ),
        decreases self,
    {
        match self {
            Expression::Literal(value) => match value {
                GenericValue::Symbol(original_symbol) => {
                    if holds_symbol(to_replace, original_symbol) {
                        match find_replacement(replacements, original_symbol) {
                            Some(replacement_symbol) => {
                                proof {
                                    let keys = replacements@.map_values(
                                        |p: (SymbolIndex, SymbolIndex)| p.0,
                                    );
                                    lemma_first_index_of_bounds(keys, original_symbol);
                                    let i = first_index_of(keys, original_symbol);
                                    assert(replacements@[i].1 == replacement_symbol);
                                    assert(seq![replacement_symbol][0] == replacement_symbol);
                                }
                                Expression::Literal(GenericValue::Symbol(replacement_symbol))
                            },
                            None => {
                                let replacement_symbol = symbol_ledger.generate_unique_symbol();
                                replacements.push((original_symbol, replacement_symbol));
                                proof {
                                    lemma_name_of_pushed(old(symbol_ledger)@, gensym_name(old(symbol_ledger)@));
                                    if replacements_named(old(replacements)@, old(symbol_ledger)@) {
                                        lemma_replacements_named_extended(
                                            old(replacements)@,
                                            old(symbol_ledger)@,
                                            symbol_ledger@,
                                        );
                                    }
                                    assert(replacements@ == old(replacements)@.push(
                                        (original_symbol, replacement_symbol),
                                    ));
                                    assert(seq![replacement_symbol][0] == replacement_symbol);
                                }
                                Expression::Literal(GenericValue::Symbol(replacement_symbol))
                            },
                        }
                    } else {
                        Expression::Literal(GenericValue::Symbol(original_symbol))
                    }
                },
                other => Expression::Literal(other),
            },
            Expression::Quoted(subexpression) => Expression::Quoted(subexpression),
            Expression::Application(subexpressions) => {
                proof {
                    assert(decreases_to!(self => subexpressions));
                    assert(decreases_to!(subexpressions => subexpressions@));
                }
                Expression::Application(
                    replace_in_all(subexpressions, to_replace, symbol_ledger, replacements),
                )
            },
            Expression::Function { arg_names, body } => {
                proof {
                    assert(decreases_to!(self => body));
                    assert(decreases_to!(body => body@));
                }
                Expression::Function {
                    arg_names,
                    body: replace_in_all(body, to_replace, symbol_ledger, replacements),
                }
            },
        }
    }
}

/// `replace_symbols` on each of `es`, one after another (see `replaced_all`).
fn replace_in_all(
    es: Vec<Expression>,
    to_replace: &Vec<SymbolIndex>,
    symbol_ledger: &mut SymbolLedger,
    replacements: &mut Vec<(SymbolIndex, SymbolIndex)>,
) -> (new_es: Vec<Expression>)
    ensures
        (models(new_es), final(symbol_ledger)@, final(replacements)@) == replaced_all(
            models(es),
            to_replace@,
            old(symbol_ledger)@,
            old(replacements)@,
        ),
        old(symbol_ledger)@.is_prefix_of(final(symbol_ledger)@),
        all_named(mentioned_all(models(es)), old(symbol_ledger)@) && replacements_named(
            old(replacements)@,
            old(symbol_ledger)@,
        ) ==> all_named(mentioned_all(models(new_es)), final(symbol_ledger)@) && replacements_named(
            final(replacements)@,
            final(symbol_ledger)@,
        ),
    decreases es@,
{
    let ghost all = es@;
    let ghost ms = models(es);
    let mut pending = es;
    let mut new_es: Vec<Expression> = Vec::new();
    let mut i: usize = 0;
    proof {
        assert(ms.subrange(0, 0) =~= Seq::<SpecExpression>::empty());
        assert(models(new_es) =~= Seq::<SpecExpression>::empty());
        assert(pending@ =~= all.subrange(0, all.len() as int));
        assert(pending.len() == all.len());
    }
    while pending.len() > 0
        invariant
            all == es@,
            ms == models(es),
            ms.len() == all.len(),
            all.len() <= usize::MAX,
            all.len() == i + pending@.len(),
            pending@ == all.subrange(i as int, all.len() as int),
            replaced_all(ms.subrange(0, i as int), to_replace@, old(symbol_ledger)@, old(replacements)@)
                == (models(new_es), symbol_ledger@, replacements@),
            old(symbol_ledger)@.is_prefix_of(symbol_ledger@),
            all_named(mentioned_all(ms), old(symbol_ledger)@) && replacements_named(
                old(replacements)@,
                old(symbol_ledger)@,
            ) ==> all_named(mentioned_all(models(new_es)), symbol_ledger@) && replacements_named(
                replacements@,
                symbol_ledger@,
            ),
        decreases pending@.len(),
    {
        let e = pending.remove(0);
        proof {
            assert(e == all[i as int]);
            assert(decreases_to!(all => all[i as int]));
            assert(ms[i as int] == model(e));
            assert(ms.subrange(0, i + 1).subrange(0, i as int) =~= ms.subrange(0, i as int));
            assert(ms.subrange(0, i + 1)[i as int] == ms[i as int]);
        }
        let ghost names_before = symbol_ledger@;
        proof {
            if all_named(mentioned_all(ms), old(symbol_ledger)@) {
                assert forall|k: SymbolIndex| #[trigger] mentioned(ms[i as int]).contains(k) implies name_of(
                    names_before,
                    k,
                ) is Some by {
                    lemma_mentioned_all_element(ms, i as int, k);
                    lemma_name_of_extended(old(symbol_ledger)@, names_before, k);
                }
            }
        }
        let replaced_e = e.replace_symbols(to_replace, symbol_ledger, replacements);
        let ghost earlier = new_es;
        let ghost added = replaced_e;
        new_es.push(replaced_e);
        proof {
            lemma_models_push(earlier, new_es, added);
            lemma_mentioned_all_push(models(earlier), model(added));
            if all_named(mentioned_all(ms), old(symbol_ledger)@) && replacements_named(
                old(replacements)@,
                old(symbol_ledger)@,
            ) {
                lemma_all_named_extended(mentioned_all(models(earlier)), names_before, symbol_ledger@);
                lemma_all_named_concat(mentioned_all(models(earlier)), mentioned(model(added)), symbol_ledger@);
            }
            assert(pending@ =~= all.subrange(i + 1, all.len() as int));
        }
        i = i + 1;
    }
    proof {
        assert(ms.subrange(0, i as int) =~= ms);
    }
    new_es
}

/// The number of nodes of `e`.
pub open spec fn size(e: SpecExpression) -> nat
    decreases e,
{
    match e {
        SpecExpression::Application(es) => 1 + size_all(es),
        SpecExpression::Function { body, .. } => 1 + size_all(body),
        _ => 1,
    }
}

/// The number of nodes of `es`, together.
pub open spec fn size_all(es: Seq<SpecExpression>) -> nat
    decreases es,
{
    if es.len() == 0 {
        0
    } else {
        size_all(es.subrange(0, es.len() - 1)) + size(es[es.len() - 1])
    }
}

/// Replacing symbols keeps the shape.
pub proof fn lemma_replaced_size(
    e: SpecExpression,
    to_replace: Seq<SymbolIndex>,
    names: Seq<Seq<char>>,
    replacements: Seq<(SymbolIndex, SymbolIndex)>,
)
    ensures
        size(replaced(e, to_replace, names, replacements).0) == size(e),
    decreases e,
{
    match e {
        SpecExpression::Application(es) => lemma_replaced_all_size(es, to_replace, names, replacements),
        SpecExpression::Function { arg_names, body } => lemma_replaced_all_size(
            body,
            to_replace,
            names,
            replacements,
        ),
        _ => {},
    }
}

/// Replacing symbols keeps the shape of each expression.
pub proof fn lemma_replaced_all_size(
    es: Seq<SpecExpression>,
    to_replace: Seq<SymbolIndex>,
    names: Seq<Seq<char>>,
    replacements: Seq<(SymbolIndex, SymbolIndex)>,
)
    ensures
        replaced_all(es, to_replace, names, replacements).0.len() == es.len(),
        size_all(replaced_all(es, to_replace, names, replacements).0) == size_all(es),
    decreases es,
{
    if es.len() > 0 {
        let init = es.subrange(0, es.len() - 1);
        lemma_replaced_all_size(init, to_replace, names, replacements);
        let (new_init, n1, r1) = replaced_all(init, to_replace, names, replacements);
        lemma_replaced_size(es[es.len() - 1], to_replace, n1, r1);
        let new_es = replaced_all(es, to_replace, names, replacements).0;
        assert(new_es.subrange(0, new_es.len() - 1) =~= new_init);
    }
}

/// Each expression of `es` is no larger than all of them.
proof fn lemma_size_all_element(es: Seq<SpecExpression>, i: int)
    requires
        0 <= i < es.len(),
    ensures
        size(es[i]) <= size_all(es),
    decreases es.len(),
{
    if i < es.len() - 1 {
        lemma_size_all_element(es.subrange(0, es.len() - 1), i);
    }
}

/// Whether the symbol `k` names a core function, with a ledger holding `names`.
pub open spec fn built_in(names: Seq<Seq<char>>, k: SymbolIndex) -> bool {
    name_of(names, k) matches Some(name) && spec_from_name(name) is Some
}

/// The symbols of `symbols` that are not built in, each once, in the order in which they
/// first occur.
pub open spec fn captured(names: Seq<Seq<char>>, symbols: Seq<SymbolIndex>) -> Seq<SymbolIndex>
    decreases symbols.len(),
{
    if symbols.len() == 0 {
        Seq::empty()
    } else {
        let earlier = captured(names, symbols.drop_last());
        let k = symbols.last();
        if earlier.contains(k) || built_in(names, k) {
            earlier
        } else {
            earlier.push(k)
        }
    }
}

/// The first of `symbols` that `bindings` does not hold, if any.
pub open spec fn first_outside(symbols: Seq<SymbolIndex>, bindings: Seq<SymbolIndex>) -> Option<
    SymbolIndex,
>
    decreases symbols.len(),
{
    if symbols.len() == 0 {
        None
    } else if !bindings.contains(symbols[0]) {
        Some(symbols[0])
    } else {
        first_outside(symbols.drop_first(), bindings)
    }
}

/// `bindings` with each symbol that has a replacement replaced by it.
pub open spec fn rebound(
    bindings: Seq<SymbolIndex>,
    replacements: Seq<(SymbolIndex, SymbolIndex)>,
) -> Seq<SymbolIndex> {
    bindings.map_values(
        |b: SymbolIndex|
            match replacement_of(replacements, b) {
                Some(r) => r,
                None => b,
            },
    )
}

/// The name of the core function that applies a function to some of its arguments.
pub open spec fn partial_name() -> Seq<char> {
    seq!['p', 'a', 'r', 't', 'i', 'a', 'l']
}

/// The name of the symbol `k` with a ledger holding `names`, or nothing.
pub open spec fn name_or_empty(names: Seq<Seq<char>>, k: SymbolIndex) -> Seq<char> {
    match name_of(names, k) {
        Some(name) => name,
        None => Seq::empty(),
    }
}

/// `e` with its functions lifted, where `parent_bindings` are the symbols bound around
/// it, and the ledger's names afterwards; an error holds the name of a symbol that a
/// function reads and nothing binds.
///
/// A function reads, besides its arguments, the symbols `captured` from its body. If one
/// of them is not among `parent_bindings`, lifting fails. If there are none, the function
/// stays, with its body lifted under `parent_bindings` and its arguments. Otherwise each
/// body expression has these symbols replaced by new ones (see `replaced`) and is then
/// lifted under `parent_bindings`, rebound to the replacements, and the arguments; the
/// function becomes an application of `partial` to a function that takes the new symbols
/// before its arguments, and to the captured symbols, in the order of their replacements.
pub open spec fn lifted(e: SpecExpression, parent_bindings: Seq<SymbolIndex>, names: Seq<Seq<char>>) -> (
    Result<SpecExpression, Seq<char>>,
    Seq<Seq<char>>,
)
    decreases size(e), 0nat,
{
    match e {
        SpecExpression::Application(es) => {
            let (r, after) = lifted_all(es, parent_bindings, names);
            (
                match r {
                    Ok(new_es) => Ok(SpecExpression::Application(new_es)),
                    Err(name) => Err(name),
                },
                after,
            )
        },
        SpecExpression::Function { arg_names, body } => {
            let free = captured(names, unbound_all(body, arg_names));
            match first_outside(free, parent_bindings) {
                Some(k) => (Err(name_or_empty(names, k)), names),
                None => if free.len() == 0 {
                    let (r, after) = lifted_all(body, parent_bindings + arg_names, names);
                    (
                        match r {
                            Ok(new_body) => Ok(SpecExpression::Function { arg_names, body: new_body }),
                            Err(name) => Err(name),
                        },
                        after,
                    )
                } else {
                    let (r, after, replacements) = lifted_replaced_all(
                        body,
                        free,
                        parent_bindings,
                        arg_names,
                        names,
                        Seq::empty(),
                    );
                    match r {
                        Err(name) => (Err(name), after),
                        Ok(new_body) => {
                            let (p, after_partial) = intern(after, partial_name());
                            (
                                Ok(
                                    SpecExpression::Application(
                                        seq![
                                            SpecExpression::Literal(SpecLiteral::Symbol(p)),
                                            SpecExpression::Function {
                                                arg_names: replacements.map_values(
                                                    |q: (SymbolIndex, SymbolIndex)| q.1,
                                                ) + arg_names,
                                                body: new_body,
                                            },
                                        ] + replacements.map_values(
                                            |q: (SymbolIndex, SymbolIndex)|
                                                SpecExpression::Literal(SpecLiteral::Symbol(q.0)),
                                        ),
                                    ),
                                ),
                                after_partial,
                            )
                        },
                    }
                },
            }
        },
        _ => (Ok(e), names),
    }
}

/// `lifted` on each of `es`, one after another, until one fails.
pub open spec fn lifted_all(es: Seq<SpecExpression>, parent_bindings: Seq<SymbolIndex>, names: Seq<Seq<char>>) -> (
    Result<Seq<SpecExpression>, Seq<char>>,
    Seq<Seq<char>>,
)
    decreases size_all(es), 1nat,
{
    if es.len() == 0 {
        (Ok(Seq::empty()), names)
    } else {
        proof {
            assert(size(es[es.len() - 1]) >= 1);
        }
        let (init, after_init) = lifted_all(es.subrange(0, es.len() - 1), parent_bindings, names);
        match init {
            Err(name) => (Err(name), after_init),
            Ok(xs) => {
                let (last, after) = lifted(es[es.len() - 1], parent_bindings, after_init);
                match last {
                    Err(name) => (Err(name), after),
                    Ok(x) => (Ok(xs.push(x)), after),
                }
            },
        }
    }
}

/// Each of `es` with the symbols `to_replace` replaced and then lifted under
/// `parent_bindings`, rebound to the replacements so far, and `arg_names`, one after
/// another until one fails; with the names and the replacements afterwards.
pub open spec fn lifted_replaced_all(
    es: Seq<SpecExpression>,
    to_replace: Seq<SymbolIndex>,
    parent_bindings: Seq<SymbolIndex>,
    arg_names: Seq<SymbolIndex>,
    names: Seq<Seq<char>>,
    replacements: Seq<(SymbolIndex, SymbolIndex)>,
) -> (Result<Seq<SpecExpression>, Seq<char>>, Seq<Seq<char>>, Seq<(SymbolIndex, SymbolIndex)>)
    decreases size_all(es), 1nat,
{
    if es.len() == 0 {
        (Ok(Seq::empty()), names, replacements)
    } else {
        proof {
            assert(size(es[es.len() - 1]) >= 1);
        }
        let (init, n0, r0) = lifted_replaced_all(
            es.subrange(0, es.len() - 1),
            to_replace,
            parent_bindings,
            arg_names,
            names,
            replacements,
        );
        match init {
            Err(name) => (Err(name), n0, r0),
            Ok(xs) => {
                let last = es[es.len() - 1];
                let (replaced_last, n1, r1) = replaced(last, to_replace, n0, r0);
                proof {
                    lemma_replaced_size(last, to_replace, n0, r0);
                }
                let (r, n2) = lifted(replaced_last, rebound(parent_bindings, r1) + arg_names, n1);
                match r {
                    Err(name) => (Err(name), n2, r1),
                    Ok(x) => (Ok(xs.push(x)), n2, r1),
                }
            },
        }
    }
}

/// The symbols that `e` reads, wherever they stand outside quotes, in order.
pub open spec fn mentioned(e: SpecExpression) -> Seq<SymbolIndex>
    decreases e,
{
    match e {
        SpecExpression::Literal(SpecLiteral::Symbol(k)) => seq![k],
        SpecExpression::Application(es) => mentioned_all(es),
        SpecExpression::Function { body, .. } => mentioned_all(body),
        _ => Seq::empty(),
    }
}

/// The symbols that `es` read, one expression after another.
pub open spec fn mentioned_all(es: Seq<SpecExpression>) -> Seq<SymbolIndex>
    decreases es,
{
    if es.len() == 0 {
        Seq::empty()
    } else {
        mentioned_all(es.subrange(0, es.len() - 1)) + mentioned(es[es.len() - 1])
    }
}

/// Whether a ledger holding `names` has a name for every symbol in `symbols`.
pub open spec fn all_named(symbols: Seq<SymbolIndex>, names: Seq<Seq<char>>) -> bool {
    forall|k: SymbolIndex| #[trigger] symbols.contains(k) ==> name_of(names, k) is Some
}

/// Whether a ledger holding `names` has a name for every replacing symbol.
pub open spec fn replacements_named(
    replacements: Seq<(SymbolIndex, SymbolIndex)>,
    names: Seq<Seq<char>>,
) -> bool {
    forall|i: int| 0 <= i < replacements.len() ==> name_of(names, #[trigger] replacements[i].1) is Some
}

/// A name stays known when names are added.
pub proof fn lemma_name_of_extended(names: Seq<Seq<char>>, longer: Seq<Seq<char>>, k: SymbolIndex)
    requires
        names.is_prefix_of(longer),
        name_of(names, k) is Some,
    ensures
        name_of(longer, k) is Some,
    decreases longer.len(),
{
    if longer.len() > names.len() && (longer.len() - 1) as u16 != k {
        assert(names.is_prefix_of(longer.drop_last()));
        lemma_name_of_extended(names, longer.drop_last(), k);
    } else if longer.len() == names.len() {
        assert(longer =~= names);
    }
}

/// Every symbol of `symbols` stays named when names are added.
pub proof fn lemma_all_named_extended(symbols: Seq<SymbolIndex>, names: Seq<Seq<char>>, longer: Seq<Seq<char>>)
    requires
        names.is_prefix_of(longer),
        all_named(symbols, names),
    ensures
        all_named(symbols, longer),
{
    assert forall|k: SymbolIndex| #[trigger] symbols.contains(k) implies name_of(longer, k) is Some by {
        lemma_name_of_extended(names, longer, k);
    }
}

/// Every replacing symbol stays named when names are added.
pub proof fn lemma_replacements_named_extended(
    replacements: Seq<(SymbolIndex, SymbolIndex)>,
    names: Seq<Seq<char>>,
    longer: Seq<Seq<char>>,
)
    requires
        names.is_prefix_of(longer),
        replacements_named(replacements, names),
    ensures
        replacements_named(replacements, longer),
{
    assert forall|i: int| 0 <= i < replacements.len() implies name_of(
        longer,
        #[trigger] replacements[i].1,
    ) is Some by {
        lemma_name_of_extended(names, longer, replacements[i].1);
    }
}

/// The symbols that each of `es` reads are among those that all of them read.
pub proof fn lemma_mentioned_all_element(es: Seq<SpecExpression>, i: int, k: SymbolIndex)
    requires
        0 <= i < es.len(),
        mentioned(es[i]).contains(k),
    ensures
        mentioned_all(es).contains(k),
    decreases es.len(),
{
    let init = es.subrange(0, es.len() - 1);
    if i < es.len() - 1 {
        lemma_mentioned_all_element(init, i, k);
        let j = choose|j: int| 0 <= j < mentioned_all(init).len() && mentioned_all(init)[j] == k;
        assert((mentioned_all(init) + mentioned(es[es.len() - 1]))[j] == k);
    } else {
        let j = choose|j: int| 0 <= j < mentioned(es[i]).len() && mentioned(es[i])[j] == k;
        assert((mentioned_all(init) + mentioned(es[es.len() - 1]))[mentioned_all(init).len() + j]
            == k);
    }
}

/// A symbol that `e` reads unbound is one that it reads.
pub proof fn lemma_unbound_mentioned(e: SpecExpression, bindings: Seq<SymbolIndex>, k: SymbolIndex)
    requires
        unbound(e, bindings).contains(k),
    ensures
        mentioned(e).contains(k),
    decreases e,
{
    match e {
        SpecExpression::Application(es) => lemma_unbound_all_mentioned(es, bindings, k),
        SpecExpression::Function { arg_names, body } => lemma_unbound_all_mentioned(
            body,
            bindings + arg_names,
            k,
        ),
        _ => {},
    }
}

/// A symbol that `es` read unbound is one that they read.
pub proof fn lemma_unbound_all_mentioned(es: Seq<SpecExpression>, bindings: Seq<SymbolIndex>, k: SymbolIndex)
    requires
        unbound_all(es, bindings).contains(k),
    ensures
        mentioned_all(es).contains(k),
    decreases es,
{
    if es.len() > 0 {
        let init = es.subrange(0, es.len() - 1);
        let last = es[es.len() - 1];
        let j = choose|j: int|
            0 <= j < unbound_all(es, bindings).len() && unbound_all(es, bindings)[j] == k;
        if j < unbound_all(init, bindings).len() {
            assert(unbound_all(init, bindings)[j] == k);
            lemma_unbound_all_mentioned(init, bindings, k);
            let l = choose|l: int| 0 <= l < mentioned_all(init).len() && mentioned_all(init)[l] == k;
            assert((mentioned_all(init) + mentioned(last))[l] == k);
        } else {
            let jj = j - unbound_all(init, bindings).len();
            assert(unbound(last, bindings)[jj] == k);
            lemma_unbound_mentioned(last, bindings, k);
            let l = choose|l: int| 0 <= l < mentioned(last).len() && mentioned(last)[l] == k;
            assert((mentioned_all(init) + mentioned(last))[mentioned_all(init).len() + l] == k);
        }
    }
}

/// The captured symbols are among the symbols they are taken from.
pub proof fn lemma_captured_from(names: Seq<Seq<char>>, symbols: Seq<SymbolIndex>, k: SymbolIndex)
    requires
        captured(names, symbols).contains(k),
    ensures
        symbols.contains(k),
    decreases symbols.len(),
{
    if symbols.len() > 0 {
        let earlier = captured(names, symbols.drop_last());
        if earlier.contains(k) {
            lemma_captured_from(names, symbols.drop_last(), k);
            let j = choose|j: int| 0 <= j < symbols.drop_last().len() && symbols.drop_last()[j] == k;
            assert(symbols[j] == k);
        } else {
            assert(k == symbols.last());
            assert(symbols[symbols.len() - 1] == k);
        }
    }
}

/// What `a + b` holds is what `a` or `b` holds.
pub proof fn lemma_contains_concat<A>(a: Seq<A>, b: Seq<A>, x: A)
    ensures
        (a + b).contains(x) <==> (a.contains(x) || b.contains(x)),
{
    if (a + b).contains(x) {
        let j = choose|j: int| 0 <= j < (a + b).len() && (a + b)[j] == x;
        if j < a.len() {
            assert(a[j] == x);
        } else {
            assert(b[j - a.len()] == x);
        }
    }
    if a.contains(x) {
        let j = choose|j: int| 0 <= j < a.len() && a[j] == x;
        assert((a + b)[j] == x);
    }
    if b.contains(x) {
        let j = choose|j: int| 0 <= j < b.len() && b[j] == x;
        assert((a + b)[a.len() + j] == x);
    }
}

/// Symbols named one by one are named together.
pub proof fn lemma_all_named_concat(a: Seq<SymbolIndex>, b: Seq<SymbolIndex>, names: Seq<Seq<char>>)
    requires
        all_named(a, names),
        all_named(b, names),
    ensures
        all_named(a + b, names),
{
    assert forall|k: SymbolIndex| #[trigger] (a + b).contains(k) implies name_of(names, k) is Some by {
        lemma_contains_concat(a, b, k);
    }
}

/// The symbols that `ms` with `m` pushed read are those of `ms`, then those of `m`.
pub proof fn lemma_mentioned_all_push(ms: Seq<SpecExpression>, m: SpecExpression)
    ensures
        mentioned_all(ms.push(m)) == mentioned_all(ms) + mentioned(m),
{
    assert(ms.push(m).subrange(0, ms.len() as int) =~= ms);
}

/// A newly pushed name is the name of the next index.
pub proof fn lemma_name_of_pushed(names: Seq<Seq<char>>, name: Seq<char>)
    ensures
        name_of(names.push(name), names.len() as u16) == Some(name),
        names.is_prefix_of(names.push(name)),
{
    assert(names.push(name).drop_last() =~= names);
}

/// `r` is the outcome of lifting that `spec` describes: the lifted expression, or the
/// error for the unbound symbol of that name.
pub open spec fn lifted_as<T, S>(
    r: Result<T, ASTError>,
    spec: Result<S, Seq<char>>,
    view: spec_fn(T) -> S,
) -> bool {
    match (r, spec) {
        (Ok(x), Ok(m)) => view(x) == m,
        (Err(ASTError::UnboundSymbol(s)), Err(name)) => s@ == name,
        _ => false,
    }
}

/// Once a prefix of the symbols are all bound, the first unbound symbol is that of the
/// rest.
proof fn lemma_first_outside_rest(symbols: Seq<SymbolIndex>, bindings: Seq<SymbolIndex>, i: int)
    requires
        0 <= i <= symbols.len(),
        forall|j: int| 0 <= j < i ==> bindings.contains(#[trigger] symbols[j]),
    ensures
        first_outside(symbols, bindings) == first_outside(
            symbols.subrange(i, symbols.len() as int),
            bindings,
        ),
    decreases i,
{
    if i == 0 {
        assert(symbols.subrange(0, symbols.len() as int) =~= symbols);
    } else {
        assert(bindings.contains(symbols[0]));
        assert forall|j: int| 0 <= j < i - 1 implies bindings.contains(
            #[trigger] symbols.drop_first()[j],
        ) by {
            assert(symbols.drop_first()[j] == symbols[j + 1]);
        }
        lemma_first_outside_rest(symbols.drop_first(), bindings, i - 1);
        assert(symbols.drop_first().subrange(i - 1, symbols.len() - 1) =~= symbols.subrange(
            i,
            symbols.len() as int,
        ));
    }
}

/// The captured symbols of a prefix, one symbol further.
proof fn lemma_captured_step(names: Seq<Seq<char>>, symbols: Seq<SymbolIndex>, i: int)
    requires
        0 <= i < symbols.len(),
    ensures
        captured(names, symbols.subrange(0, i + 1)) == ({
            let earlier = captured(names, symbols.subrange(0, i));
            if earlier.contains(symbols[i]) || built_in(names, symbols[i]) {
                earlier
            } else {
                earlier.push(symbols[i])
            }
        }),
{
    assert(symbols.subrange(0, i + 1).drop_last() =~= symbols.subrange(0, i));
}

/// The symbols that the function with `arg_names` and `body` captures (see `captured`).
fn captured_symbols(
    body: &Vec<Expression>,
    arg_names: &Vec<SymbolIndex>,
    symbol_ledger: &SymbolLedger,
) -> (symbols: Vec<SymbolIndex>)
    ensures
        symbols@ == captured(symbol_ledger@, unbound_all(models(*body), arg_names@)),
{
    let unbound_symbols = unbound_in_all(body, arg_names);
    let mut symbols: Vec<SymbolIndex> = Vec::new();
    let mut i: usize = 0;
    proof {
        assert(unbound_symbols@.subrange(0, 0) =~= Seq::<SymbolIndex>::empty());
    }
    while i < unbound_symbols.len()
        invariant
            0 <= i <= unbound_symbols@.len(),
            symbols@ == captured(symbol_ledger@, unbound_symbols@.subrange(0, i as int)),
        decreases unbound_symbols@.len() - i,
    {
        let k = unbound_symbols[i];
        proof {
            lemma_captured_step(symbol_ledger@, unbound_symbols@, i as int);
        }
        if !holds_symbol(&symbols, k) && !symbol_ledger.is_built_in(k) {
            symbols.push(k);
        }
        i = i + 1;
    }
    proof {
        assert(unbound_symbols@.subrange(0, i as int) =~= unbound_symbols@);
    }
    symbols
}

/// `bindings` rebound to `replacements` (see `rebound`).
fn rebound_symbols(bindings: &Vec<SymbolIndex>, replacements: &Vec<(SymbolIndex, SymbolIndex)>) -> (new_bindings: Vec<SymbolIndex>)
    ensures
        new_bindings@ == rebound(bindings@, replacements@),
{
    let mut new_bindings: Vec<SymbolIndex> = Vec::new();
    let mut i: usize = 0;
    while i < bindings.len()
        invariant
            0 <= i <= bindings@.len(),
            new_bindings@ == rebound(bindings@.subrange(0, i as int), replacements@),
        decreases bindings@.len() - i,
    {
        let b = bindings[i];
        let r = match find_replacement(replacements, b) {
            Some(r) => r,
            None => b,
        };
        new_bindings.push(r);
        i = i + 1;
        proof {
            assert(new_bindings@ =~= rebound(bindings@.subrange(0, i as int), replacements@));
        }
    }
    proof {
        assert(bindings@.subrange(0, i as int) =~= bindings@);
    }
    new_bindings
}

impl Expression {
    /// This expression with its functions lifted, where `parent_bindings` are the
    /// symbols bound around it (see `lifted`). Every symbol that it reads must have a
    /// name in `symbol_ledger`, which an unbound one is reported by.
    pub fn lift_lambdas(self, parent_bindings: &Vec<SymbolIndex>, symbol_ledger: &mut SymbolLedger) -> (r: Result<
        Expression,
        ASTError,
    >)
        requires
            all_named(mentioned(model(self)), old(symbol_ledger)@),
        ensures
            lifted_as(
                r,
                lifted(model(self), parent_bindings@, old(symbol_ledger)@).0,
                |e: Expression| model(e),
            ),
            final(symbol_ledger)@ == lifted(model(self), parent_bindings@, old(symbol_ledger)@).1,
            old(symbol_ledger)@.is_prefix_of(final(symbol_ledger)@),
            binders_named(model(self), old(symbol_ledger)@) ==> (r matches Ok(x) ==> binders_named(
                model(x),
                final(symbol_ledger)@,
            )),
        decreases size(model(self)), 0nat,
    {
        let ghost m = model(self);
        proof {
            if binders_named(m, symbol_ledger@) {
                lemma_lifted_binders(m, parent_bindings@, symbol_ledger@);
            }
        }
        match self {
            Expression::Literal(value) => Ok(Expression::Literal(value)),
            Expression::Quoted(subexpression) => Ok(Expression::Quoted(subexpression)),
            Expression::Application(subexpressions) => {
                match lift_in_all(subexpressions, parent_bindings, symbol_ledger) {
                    Ok(lifted_subexpressions) => Ok(Expression::Application(lifted_subexpressions)),
                    Err(e) => Err(e),
                }
            },
            Expression::Function { arg_names, body } => {
                let unbound_body_symbols = captured_symbols(&body, &arg_names, symbol_ledger);
                proof {
                    assert(m == (SpecExpression::Function { arg_names: arg_names@, body: models(body) }));
                    assert(mentioned(m) == mentioned_all(models(body)));
                }
                let mut i: usize = 0;
                while i < unbound_body_symbols.len()
                    invariant
                        0 <= i <= unbound_body_symbols@.len(),
                        unbound_body_symbols@ == captured(
                            symbol_ledger@,
                            unbound_all(models(body), arg_names@),
                        ),
                        all_named(mentioned_all(models(body)), symbol_ledger@),
                        symbol_ledger@ == old(symbol_ledger)@,
                        m == model(self),
                        m == (SpecExpression::Function { arg_names: arg_names@, body: models(body) }),
                        forall|j: int| 0 <= j < i ==> parent_bindings@.contains(
                            #[trigger] unbound_body_symbols@[j],
                        ),
                    decreases unbound_body_symbols@.len() - i,
                {
                    let k = unbound_body_symbols[i];
                    if !holds_symbol(parent_bindings, k) {
                        proof {
                            lemma_first_outside_rest(unbound_body_symbols@, parent_bindings@, i as int);
                            assert(unbound_body_symbols@.subrange(
                                i as int,
                                unbound_body_symbols@.len() as int,
                            )[0] == k);
                            assert(unbound_body_symbols@.contains(k));
                            lemma_captured_from(
                                symbol_ledger@,
                                unbound_all(models(body), arg_names@),
                                k,
                            );
                            lemma_unbound_all_mentioned(models(body), arg_names@, k);
                        }
                        let name = symbol_ledger.symbol_name(k).unwrap().as_str().to_owned();
                        return Err(ASTError::UnboundSymbol(name));
                    }
                    i = i + 1;
                }
                proof {
                    lemma_first_outside_rest(unbound_body_symbols@, parent_bindings@, i as int);
                }
                if unbound_body_symbols.len() == 0 {
                    let new_bindings = concatenated(parent_bindings, &arg_names);
                    match lift_in_all(body, &new_bindings, symbol_ledger) {
                        Ok(new_body) => Ok(Expression::Function { arg_names, body: new_body }),
                        Err(e) => Err(e),
                    }
                } else {
                    let mut replacements: Vec<(SymbolIndex, SymbolIndex)> = Vec::new();
                    match lift_replaced_in_all(
                        body,
                        &unbound_body_symbols,
                        parent_bindings,
                        &arg_names,
                        symbol_ledger,
                        &mut replacements,
                    ) {
                        Err(e) => Err(e),
                        Ok(new_body) => {
                            let ghost names_before = symbol_ledger@;
                            proof {
                                reveal_strlit("partial");
                                assert("partial"@ =~= partial_name());
                            }
                            let partial = Expression::from_token(
                                Token::Symbol("partial".to_owned()),
                                symbol_ledger,
                            );
                            let mut new_arg_names: Vec<SymbolIndex> = Vec::new();
                            let mut j: usize = 0;
                            while j < replacements.len()
                                invariant
                                    0 <= j <= replacements@.len(),
                                    new_arg_names@ == replacements@.subrange(0, j as int).map_values(
                                        |q: (SymbolIndex, SymbolIndex)| q.1,
                                    ),
                                decreases replacements@.len() - j,
                            {
                                new_arg_names.push(replacements[j].1);
                                j = j + 1;
                                proof {
                                    assert(new_arg_names@ =~= replacements@.subrange(
                                        0,
                                        j as int,
                                    ).map_values(|q: (SymbolIndex, SymbolIndex)| q.1));
                                }
                            }
                            proof {
                                assert(replacements@.subrange(0, j as int) =~= replacements@);
                            }
                            let all_arg_names = concatenated(&new_arg_names, &arg_names);
                            let mut elements: Vec<Expression> = Vec::new();
                            elements.push(partial);
                            elements.push(Expression::Function { arg_names: all_arg_names, body: new_body });
                            let ghost head = elements@;
                            let mut l: usize = 0;
                            while l < replacements.len()
                                invariant
                                    0 <= l <= replacements@.len(),
                                    elements@.len() == 2 + l,
                                    elements@.subrange(0, 2) == head,
                                    forall|t: int| 0 <= t < l ==> #[trigger] elements@[2 + t] == Expression::Literal(
                                        GenericValue::Symbol(replacements@[t].0),
                                    ),
                                decreases replacements@.len() - l,
                            {
                                elements.push(Expression::Literal(GenericValue::Symbol(replacements[l].0)));
                                proof {
                                    assert(elements@.subrange(0, 2) =~= head);
                                }
                                l = l + 1;
                            }
                            proof {
                                let ms = models(elements);
                                let expected = seq![
                                    model(head[0]),
                                    model(head[1]),
                                ] + replacements@.map_values(
                                    |q: (SymbolIndex, SymbolIndex)|
                                        SpecExpression::Literal(SpecLiteral::Symbol(q.0)),
                                );
                                assert(head[0] == elements@[0]);
                                assert(head[1] == elements@[1]);
                                assert forall|t: int| 2 <= t < ms.len() implies ms[t] == expected[t] by {
                                    assert(elements@[2 + (t - 2)] == Expression::Literal(
                                        GenericValue::Symbol(replacements@[t - 2].0),
                                    ));
                                }
                                assert(ms =~= expected);
                            }
                            Ok(Expression::Application(elements))
                        },
                    }
                }
            },
        }
    }
}

/// `lift_lambdas` on each of `es`, one after another until one fails (see `lifted_all`).
fn lift_in_all(es: Vec<Expression>, parent_bindings: &Vec<SymbolIndex>, symbol_ledger: &mut SymbolLedger) -> (r: Result<
    Vec<Expression>,
    ASTError,
>)
    requires
        all_named(mentioned_all(models(es)), old(symbol_ledger)@),
    ensures
        lifted_as(
            r,
            lifted_all(models(es), parent_bindings@, old(symbol_ledger)@).0,
            |xs: Vec<Expression>| models(xs),
        ),
        final(symbol_ledger)@ == lifted_all(models(es), parent_bindings@, old(symbol_ledger)@).1,
        old(symbol_ledger)@.is_prefix_of(final(symbol_ledger)@),
    decreases size_all(models(es)), 1nat,
{
    let ghost all = es@;
    let ghost ms = models(es);
    let mut pending = es;
    let mut lifted_es: Vec<Expression> = Vec::new();
    let mut i: usize = 0;
    proof {
        assert(ms.subrange(0, 0) =~= Seq::<SpecExpression>::empty());
        assert(models(lifted_es) =~= Seq::<SpecExpression>::empty());
        assert(pending@ =~= all.subrange(0, all.len() as int));
        assert(pending.len() == all.len());
    }
    while pending.len() > 0
        invariant
            all == es@,
            ms == models(es),
            ms.len() == all.len(),
            all.len() <= usize::MAX,
            all.len() == i + pending@.len(),
            pending@ == all.subrange(i as int, all.len() as int),
            all_named(mentioned_all(ms), old(symbol_ledger)@),
            old(symbol_ledger)@.is_prefix_of(symbol_ledger@),
            lifted_all(ms.subrange(0, i as int), parent_bindings@, old(symbol_ledger)@) == (
                Ok::<Seq<SpecExpression>, Seq<char>>(models(lifted_es)),
                symbol_ledger@,
            ),
        decreases pending@.len(),
    {
        let e = pending.remove(0);
        proof {
            assert(e == all[i as int]);
            assert(ms[i as int] == model(e));
            lemma_size_all_element(ms, i as int);
            assert(ms.subrange(0, i + 1).subrange(0, i as int) =~= ms.subrange(0, i as int));
            assert(ms.subrange(0, i + 1)[i as int] == ms[i as int]);
            assert forall|k: SymbolIndex| #[trigger] mentioned(ms[i as int]).contains(k) implies name_of(
                symbol_ledger@,
                k,
            ) is Some by {
                lemma_mentioned_all_element(ms, i as int, k);
                lemma_name_of_extended(old(symbol_ledger)@, symbol_ledger@, k);
            }
        }
        let ghost names_before = symbol_ledger@;
        match e.lift_lambdas(parent_bindings, symbol_ledger) {
            Ok(x) => {
                let ghost earlier = lifted_es;
                let ghost added = x;
                lifted_es.push(x);
                proof {
                    lemma_models_push(earlier, lifted_es, added);
                }
            },
            Err(err) => {
                proof {
                    lemma_lifted_all_error(ms, i + 1, ms.len() as int, parent_bindings@, old(symbol_ledger)@);
                    assert(ms.subrange(0, ms.len() as int) =~= ms);
                }
                return Err(err);
            },
        }
        proof {
            assert(pending@ =~= all.subrange(i + 1, all.len() as int));
        }
        i = i + 1;
    }
    proof {
        assert(ms.subrange(0, i as int) =~= ms);
    }
    Ok(lifted_es)
}

/// Once lifting a prefix of `es` fails, lifting a longer prefix fails the same way.
proof fn lemma_lifted_all_error(
    es: Seq<SpecExpression>,
    j: int,
    k: int,
    parent_bindings: Seq<SymbolIndex>,
    names: Seq<Seq<char>>,
)
    requires
        0 <= j <= k <= es.len(),
        lifted_all(es.subrange(0, j), parent_bindings, names).0 is Err,
    ensures
        lifted_all(es.subrange(0, k), parent_bindings, names) == lifted_all(
            es.subrange(0, j),
            parent_bindings,
            names,
        ),
    decreases k - j,
{
    if k > j {
        lemma_lifted_all_error(es, j, k - 1, parent_bindings, names);
        assert(es.subrange(0, k).subrange(0, k - 1) =~= es.subrange(0, k - 1));
    }
}

/// Once a prefix of `es` fails, a longer prefix fails the same way.
proof fn lemma_lifted_replaced_all_error(
    es: Seq<SpecExpression>,
    j: int,
    k: int,
    to_replace: Seq<SymbolIndex>,
    parent_bindings: Seq<SymbolIndex>,
    arg_names: Seq<SymbolIndex>,
    names: Seq<Seq<char>>,
    replacements: Seq<(SymbolIndex, SymbolIndex)>,
)
    requires
        0 <= j <= k <= es.len(),
        lifted_replaced_all(
            es.subrange(0, j),
            to_replace,
            parent_bindings,
            arg_names,
            names,
            replacements,
        ).0 is Err,
    ensures
        lifted_replaced_all(
            es.subrange(0, k),
            to_replace,
            parent_bindings,
            arg_names,
            names,
            replacements,
        ) == lifted_replaced_all(
            es.subrange(0, j),
            to_replace,
            parent_bindings,
            arg_names,
            names,
            replacements,
        ),
    decreases k - j,
{
    if k > j {
        lemma_lifted_replaced_all_error(
            es,
            j,
            k - 1,
            to_replace,
            parent_bindings,
            arg_names,
            names,
            replacements,
        );
        assert(es.subrange(0, k).subrange(0, k - 1) =~= es.subrange(0, k - 1));
    }
}

/// Each of `es` with the symbols `to_replace` replaced and then lifted (see
/// `lifted_replaced_all`).
fn lift_replaced_in_all(
    es: Vec<Expression>,
    to_replace: &Vec<SymbolIndex>,
    parent_bindings: &Vec<SymbolIndex>,
    arg_names: &Vec<SymbolIndex>,
    symbol_ledger: &mut SymbolLedger,
    replacements: &mut Vec<(SymbolIndex, SymbolIndex)>,
) -> (r: Result<Vec<Expression>, ASTError>)
    requires
        all_named(mentioned_all(models(es)), old(symbol_ledger)@),
        replacements_named(old(replacements)@, old(symbol_ledger)@),
    ensures
        lifted_as(
            r,
            lifted_replaced_all(
                models(es),
                to_replace@,
                parent_bindings@,
                arg_names@,
                old(symbol_ledger)@,
                old(replacements)@,
            ).0,
            |xs: Vec<Expression>| models(xs),
        ),
        final(symbol_ledger)@ == lifted_replaced_all(
            models(es),
            to_replace@,
            parent_bindings@,
            arg_names@,
            old(symbol_ledger)@,
            old(replacements)@,
        ).1,
        final(replacements)@ == lifted_replaced_all(
            models(es),
            to_replace@,
            parent_bindings@,
            arg_names@,
            old(symbol_ledger)@,
            old(replacements)@,
        ).2,
        old(symbol_ledger)@.is_prefix_of(final(symbol_ledger)@),
    decreases size_all(models(es)), 1nat,
{
    let ghost all = es@;
    let ghost ms = models(es);
    let mut pending = es;
    let mut lifted_es: Vec<Expression> = Vec::new();
    let mut i: usize = 0;
    proof {
        assert(ms.subrange(0, 0) =~= Seq::<SpecExpression>::empty());
        assert(models(lifted_es) =~= Seq::<SpecExpression>::empty());
        assert(pending@ =~= all.subrange(0, all.len() as int));
        assert(pending.len() == all.len());
    }
    while pending.len() > 0
        invariant
            all == es@,
            ms == models(es),
            ms.len() == all.len(),
            all.len() <= usize::MAX,
            all.len() == i + pending@.len(),
            pending@ == all.subrange(i as int, all.len() as int),
            all_named(mentioned_all(ms), old(symbol_ledger)@),
            old(symbol_ledger)@.is_prefix_of(symbol_ledger@),
            replacements_named(replacements@, symbol_ledger@),
            lifted_replaced_all(
                ms.subrange(0, i as int),
                to_replace@,
                parent_bindings@,
                arg_names@,
                old(symbol_ledger)@,
                old(replacements)@,
            ) == (
                Ok::<Seq<SpecExpression>, Seq<char>>(models(lifted_es)),
                symbol_ledger@,
                replacements@,
            ),
        decreases pending@.len(),
    {
        let e = pending.remove(0);
        proof {
            assert(e == all[i as int]);
            assert(ms[i as int] == model(e));
            lemma_size_all_element(ms, i as int);
            assert(ms.subrange(0, i + 1).subrange(0, i as int) =~= ms.subrange(0, i as int));
            assert(ms.subrange(0, i + 1)[i as int] == ms[i as int]);
            assert forall|k: SymbolIndex| #[trigger] mentioned(ms[i as int]).contains(k) implies name_of(
                symbol_ledger@,
                k,
            ) is Some by {
                lemma_mentioned_all_element(ms, i as int, k);
                lemma_name_of_extended(old(symbol_ledger)@, symbol_ledger@, k);
            }
            lemma_replaced_size(model(e), to_replace@, symbol_ledger@, replacements@);
        }
        let replaced_e = e.replace_symbols(to_replace, symbol_ledger, replacements);
        let rebound_parents = rebound_symbols(parent_bindings, replacements);
        let new_bindings = concatenated(&rebound_parents, arg_names);
        let ghost names_between = symbol_ledger@;
        match replaced_e.lift_lambdas(&new_bindings, symbol_ledger) {
            Ok(x) => {
                let ghost earlier = lifted_es;
                let ghost added = x;
                lifted_es.push(x);
                proof {
                    lemma_models_push(earlier, lifted_es, added);
                    lemma_replacements_named_extended(replacements@, names_between, symbol_ledger@);
                }
            },
            Err(err) => {
                proof {
                    lemma_lifted_replaced_all_error(
                        ms,
                        i + 1,
                        ms.len() as int,
                        to_replace@,
                        parent_bindings@,
                        arg_names@,
                        old(symbol_ledger)@,
                        old(replacements)@,
                    );
                    assert(ms.subrange(0, ms.len() as int) =~= ms);
                }
                return Err(err);
            },
        }
        proof {
            assert(pending@ =~= all.subrange(i + 1, all.len() as int));
        }
        i = i + 1;
    }
    proof {
        assert(ms.subrange(0, i as int) =~= ms);
    }
    Ok(lifted_es)
}

/// The text of a literal with a ledger holding `names`, where it does not depend on the
/// host: `nil`, integers in decimal, strings in double quotes, symbols by their names
/// (or an account of the index that has none), the empty list as `[]`; nothing for
/// floats and any other value.
pub open spec fn literal_text(l: SpecLiteral, names: Seq<Seq<char>>) -> Option<Seq<char>> {
    match l {
        SpecLiteral::Nil => Some(seq!['n', 'i', 'l']),
        SpecLiteral::Number(Num::Int(i)) => Some(int_text(i as int)),
        SpecLiteral::Str(s) => Some(seq!['"'] + s + seq!['"']),
        SpecLiteral::Symbol(k) => Some(
            match name_of(names, k) {
                Some(name) => name,
                None => "<unrecognized symbol, index "@ + decimal(k as nat) + seq!['>'],
            },
        ),
        SpecLiteral::EmptyList => Some(seq!['[', ']']),
        _ => None,
    }
}

/// `texts` separated by single spaces.
pub open spec fn spaced(texts: Seq<Seq<char>>) -> Seq<char>
    decreases texts.len(),
{
    if texts.len() == 0 {
        Seq::empty()
    } else if texts.len() == 1 {
        texts[0]
    } else {
        spaced(texts.drop_last()) + seq![' '] + texts.last()
    }
}

/// The names of `symbols` with a ledger holding `names`, if each has one.
pub open spec fn symbol_names(symbols: Seq<SymbolIndex>, names: Seq<Seq<char>>) -> Option<
    Seq<Seq<char>>,
>
    decreases symbols.len(),
{
    if symbols.len() == 0 {
        Some(Seq::empty())
    } else {
        match (symbol_names(symbols.drop_last(), names), name_of(names, symbols.last())) {
            (Some(init), Some(name)) => Some(init.push(name)),
            _ => None,
        }
    }
}

/// Whether every argument of every function in `e`, quotes included, has a name with a
/// ledger holding `names`.
pub open spec fn binders_named(e: SpecExpression, names: Seq<Seq<char>>) -> bool
    decreases e,
{
    match e {
        SpecExpression::Quoted(sub) => binders_named(*sub, names),
        SpecExpression::Application(es) => forall|i: int|
            0 <= i < es.len() ==> binders_named(#[trigger] es[i], names),
        SpecExpression::Function { arg_names, body } => {
            &&& all_named(arg_names, names)
            &&& forall|i: int| 0 <= i < body.len() ==> binders_named(#[trigger] body[i], names)
        },
        _ => true,
    }
}

/// The text of `e` with a ledger holding `names`, as the language writes it, where it
/// does not depend on the host (see `literal_text`): a quote as `(quote x)`, an
/// application as its elements in parentheses, a function as `(fn (args) body)`, with
/// single spaces between elements.
pub open spec fn text_of(e: SpecExpression, names: Seq<Seq<char>>) -> Option<Seq<char>>
    decreases e,
{
    match e {
        SpecExpression::Literal(l) => literal_text(l, names),
        SpecExpression::Quoted(sub) => match text_of(*sub, names) {
            Some(t) => Some("(quote "@ + t + seq![')']),
            None => None,
        },
        SpecExpression::Application(es) => match texts_of(es, names) {
            Some(ts) => Some(seq!['('] + spaced(ts) + seq![')']),
            None => None,
        },
        SpecExpression::Function { arg_names, body } => match (
            symbol_names(arg_names, names),
            texts_of(body, names),
        ) {
            (Some(args), Some(ts)) => Some(
                "(fn ("@ + spaced(args) + seq![')', ' '] + spaced(ts) + seq![')'],
            ),
            _ => None,
        },
    }
}

/// The texts of `es`, if each has one.
pub open spec fn texts_of(es: Seq<SpecExpression>, names: Seq<Seq<char>>) -> Option<Seq<Seq<char>>>
    decreases es,
{
    if es.len() == 0 {
        Some(Seq::empty())
    } else {
        match (texts_of(es.subrange(0, es.len() - 1), names), text_of(es[es.len() - 1], names)) {
            (Some(init), Some(t)) => Some(init.push(t)),
            _ => None,
        }
    }
}

/// Texts separated by spaces, one text further.
proof fn lemma_spaced_push(texts: Seq<Seq<char>>, t: Seq<char>)
    ensures
        spaced(texts.push(t)) == if texts.len() == 0 {
            t
        } else {
            spaced(texts) + seq![' '] + t
        },
{
    assert(texts.push(t).drop_last() =~= texts);
}

/// Appends the text of the literal `v` (see `literal_text`); floats are written by
/// `host`, with a point added where the text has none.
fn push_literal_text<H: Host>(v: &SSAValue<()>, symbol_ledger: &SymbolLedger, host: &H, out: &mut Vec<char>)
    ensures
        literal_text(literal_model(*v), symbol_ledger@) matches Some(t) ==> final(out)@ == old(out)@
            + t,
        *v is Number && v->Number_0 is Float ==> exists|text: Seq<char>|
            final(out)@ == old(out)@ + #[trigger] with_point(text),
    decreases v, 1nat,
{
    match v {
        GenericValue::Nil => {
            proof {
                reveal_strlit("nil");
            }
            push_str(out, "nil");
        },
        GenericValue::Bool(b) => if *b {
            push_str(out, "true");
        } else {
            push_str(out, "false");
        },
        GenericValue::Char(c) => {
            out.push('\'');
            out.push(*c);
            out.push('\'');
        },
        GenericValue::Number(Num::Int(i)) => push_int_text(out, *i),
        GenericValue::Number(Num::Float(f)) => {
            let text = host.format_float(*f);
            push_float_text(out, text.as_str());
        },
        GenericValue::Str(s) => {
            out.push('"');
            push_str(out, s.as_str());
            out.push('"');
            proof {
                assert(final(out)@ =~= old(out)@ + (seq!['"'] + s@ + seq!['"']));
            }
        },
        GenericValue::Symbol(k) => match symbol_ledger.symbol_name(*k) {
            Some(name) => push_str(out, name.as_str()),
            None => {
                proof {
                    reveal_strlit("<unrecognized symbol, index ");
                }
                push_str(out, "<unrecognized symbol, index ");
                push_decimal(out, *k as u64);
                out.push('>');
                proof {
                    assert(final(out)@ =~= old(out)@ + ("<unrecognized symbol, index "@ + decimal(
                        *k as nat,
                    ) + seq!['>']));
                }
            },
        },
        GenericValue::List(values) => {
            out.push('[');
            proof {
                assert(decreases_to!(v => values));
            }
            push_literal_items(values, symbol_ledger, host, out);
            out.push(']');
            proof {
                if values@.len() == 0 {
                    assert(final(out)@ =~= old(out)@ + seq!['[', ']']);
                }
            }
        },
        GenericValue::Hashmap(entries) => {
            out.push('{');
            push_literal_entries(entries, symbol_ledger, host, out);
            out.push('}');
        },
        GenericValue::Hashset(values) => {
            push_str(out, "#{");
            proof {
                assert(decreases_to!(v => values));
            }
            push_literal_items(values, symbol_ledger, host, out);
            out.push('}');
        },
        GenericValue::CoreFn(id) => {
            push_str(out, "core_fn( ");
            match id {
                CoreFnId::CreateCell | CoreFnId::GetCellValue | CoreFnId::SetCellValue
                | CoreFnId::UpdateCell => push_str(out, "<unnamed>"),
                _ => push_str(out, id.name()),
            }
            push_str(out, " )");
        },
        GenericValue::CompositeFn(f) => {
            push_str(out, "fn( ");
            push_decimal(out, f.args.count as u64);
            push_str(out, " args, ");
            push_decimal(out, f.block.instructions.len() as u64);
            push_str(out, " instructions )\n");
        },
        GenericValue::ExternalFn(f) => {
            push_str(out, "external_fn( ");
            match &f.name {
                Some(name) => push_str(out, name.as_str()),
                None => push_str(out, "<unnamed>"),
            }
            push_str(out, " )");
        },
        GenericValue::PartialApplication(partial) => {
            push_str(out, "partial application: f = ");
            proof {
                assert(decreases_to!(v => partial));
                assert(decreases_to!(partial => partial.0));
                assert(decreases_to!(partial => partial.1));
            }
            push_literal_text(&partial.0, symbol_ledger, host, out);
            push_str(out, ", args = [");
            push_literal_items(&partial.1, symbol_ledger, host, out);
            out.push(']');
        },
        GenericValue::Composition(fs) => {
            push_str(out, "composition: [");
            proof {
                assert(decreases_to!(v => fs));
            }
            push_literal_items(fs, symbol_ledger, host, out);
            out.push(']');
        },
        GenericValue::Coroutine(c) => {
            push_str(out, "coroutine (");
            match c {
                None => push_str(out, "dead"),
                Some(_) => push_str(out, "active"),
            }
            out.push(')');
        },
        GenericValue::ExternalObject(_) => push_str(out, "external_object"),
        GenericValue::Error(e) => {
            push_str(out, "error: ");
            let no_coroutines = Vec::new();
            describe_error_into(e, &no_coroutines, host, out);
        },
    }
}

/// The text of the literal `v` with a ledger holding `names`, empty where it has none.
pub open spec fn literal_text_or_empty(v: SSAValue<()>, names: Seq<Seq<char>>) -> Seq<char> {
    match literal_text(literal_model(v), names) {
        Some(t) => t,
        None => Seq::empty(),
    }
}

/// Whether each of `values` has a text (see `literal_text`).
pub open spec fn all_literal_texts(values: Seq<SSAValue<()>>, names: Seq<Seq<char>>) -> bool {
    forall|k: int|
        0 <= k < values.len() ==> #[trigger] literal_text(literal_model(values[k]), names) is Some
}

/// The texts of `values`, separated by `", "`.
pub open spec fn literal_items_joined(values: Seq<SSAValue<()>>, names: Seq<Seq<char>>) -> Seq<char>
    decreases values.len(),
{
    if values.len() == 0 {
        Seq::empty()
    } else if values.len() == 1 {
        literal_text_or_empty(values[0], names)
    } else {
        literal_items_joined(values.drop_last(), names) + seq![',', ' '] + literal_text_or_empty(
            values.last(),
            names,
        )
    }
}

/// Whether each key and each value of `entries` has a text (see `literal_text`).
pub open spec fn all_literal_entry_texts(
    entries: Seq<(SSAValue<()>, SSAValue<()>)>,
    names: Seq<Seq<char>>,
) -> bool {
    forall|k: int|
        0 <= k < entries.len() ==> literal_text(literal_model(#[trigger] entries[k].0), names) is Some
            && literal_text(literal_model(entries[k].1), names) is Some
}

/// The texts of the entries of a map, each key and its value separated by a space, the
/// entries separated by `", "`.
pub open spec fn literal_entries_joined(
    entries: Seq<(SSAValue<()>, SSAValue<()>)>,
    names: Seq<Seq<char>>,
) -> Seq<char>
    decreases entries.len(),
{
    if entries.len() == 0 {
        Seq::empty()
    } else {
        let entry = literal_text_or_empty(entries.last().0, names) + seq![' ']
            + literal_text_or_empty(entries.last().1, names);
        if entries.len() == 1 {
            entry
        } else {
            literal_entries_joined(entries.drop_last(), names) + seq![',', ' '] + entry
        }
    }
}

/// Appends the texts of the entries of a map, each a key and its value separated by a
/// space, the entries separated by `", "`.
fn push_literal_entries<H: Host>(
    entries: &Vec<(SSAValue<()>, SSAValue<()>)>,
    symbol_ledger: &SymbolLedger,
    host: &H,
    out: &mut Vec<char>,
)
    ensures
        all_literal_entry_texts(entries@, symbol_ledger@) ==> final(out)@ == old(out)@
            + literal_entries_joined(entries@, symbol_ledger@),
    decreases entries, 0nat,
{
    let mut i: usize = 0;
    proof {
        assert(old(out)@ + literal_entries_joined(entries@.take(0), symbol_ledger@) =~= old(out)@);
    }
    while i < entries.len()
        invariant
            0 <= i <= entries@.len(),
            all_literal_entry_texts(entries@, symbol_ledger@) ==> out@ == old(out)@
                + literal_entries_joined(entries@.take(i as int), symbol_ledger@),
        decreases entries@.len() - i,
    {
        if i > 0 {
            push_str(out, ", ");
        }
        proof {
            let pair = entries@[i as int];
            assert(decreases_to!(entries => pair));
            assert(decreases_to!(pair => pair.0));
            assert(decreases_to!(pair => pair.1));
        }
        push_literal_text(&entries[i].0, symbol_ledger, host, out);
        out.push(' ');
        push_literal_text(&entries[i].1, symbol_ledger, host, out);
        proof {
            let taken = entries@.take(i + 1);
            assert(taken.drop_last() =~= entries@.take(i as int));
            assert(taken.last() == entries@[i as int]);
            if all_literal_entry_texts(entries@, symbol_ledger@) {
                assert(literal_text(literal_model(entries@[i as int].0), symbol_ledger@) is Some);
                if i > 0 {
                    reveal_strlit(", ");
                    assert(out@ =~= old(out)@ + literal_entries_joined(taken, symbol_ledger@));
                } else {
                    assert(out@ =~= old(out)@ + literal_entries_joined(taken, symbol_ledger@));
                }
            }
        }
        i = i + 1;
    }
    proof {
        assert(entries@.take(entries@.len() as int) =~= entries@);
    }
}

/// Appends the texts of `values`, separated by `", "`.
fn push_literal_items<H: Host>(
    values: &Vec<SSAValue<()>>,
    symbol_ledger: &SymbolLedger,
    host: &H,
    out: &mut Vec<char>,
)
    ensures
        values@.len() == 0 ==> final(out)@ == old(out)@,
        all_literal_texts(values@, symbol_ledger@) ==> final(out)@ == old(out)@
            + literal_items_joined(values@, symbol_ledger@),
    decreases values, 0nat,
{
    let mut i: usize = 0;
    proof {
        assert(old(out)@ + literal_items_joined(values@.take(0), symbol_ledger@) =~= old(out)@);
    }
    while i < values.len()
        invariant
            0 <= i <= values@.len(),
            i == 0 ==> out@ == old(out)@,
            all_literal_texts(values@, symbol_ledger@) ==> out@ == old(out)@
                + literal_items_joined(values@.take(i as int), symbol_ledger@),
        decreases values@.len() - i,
    {
        if i > 0 {
            push_str(out, ", ");
        }
        proof {
            assert(decreases_to!(values => values@[i as int]));
        }
        push_literal_text(&values[i], symbol_ledger, host, out);
        proof {
            let taken = values@.take(i + 1);
            assert(taken.drop_last() =~= values@.take(i as int));
            if all_literal_texts(values@, symbol_ledger@) {
                assert(literal_text(literal_model(values@[i as int]), symbol_ledger@) is Some);
                if i > 0 {
                    reveal_strlit(", ");
                    assert(out@ =~= old(out)@ + literal_items_joined(taken, symbol_ledger@));
                } else {
                    assert(out@ =~= old(out)@ + literal_items_joined(taken, symbol_ledger@));
                }
            }
        }
        i = i + 1;
    }
    proof {
        assert(values@.take(values@.len() as int) =~= values@);
    }
}

impl Expression {
    /// Appends the text of this expression (see `text_of`).
    fn write_text<H: Host>(&self, symbol_ledger: &SymbolLedger, host: &H, out: &mut Vec<char>)
        requires
            binders_named(model(*self), symbol_ledger@),
        ensures
            text_of(model(*self), symbol_ledger@) matches Some(t) ==> final(out)@ == old(out)@ + t,
        decreases self,
    {
        match self {
            Expression::Literal(value) => push_literal_text(value, symbol_ledger, host, out),
            Expression::Quoted(subexpression) => {
                proof {
                    reveal_strlit("(quote ");
                }
                push_str(out, "(quote ");
                subexpression.write_text(symbol_ledger, host, out);
                out.push(')');
                proof {
                    if let Some(t) = text_of(model(**subexpression), symbol_ledger@) {
                        assert(final(out)@ =~= old(out)@ + ("(quote "@ + t + seq![')']));
                    }
                }
            },
            Expression::Application(subexpressions) => {
                out.push('(');
                proof {
                    assert(decreases_to!(self => subexpressions));
                }
                write_texts(subexpressions, symbol_ledger, host, out);
                out.push(')');
                proof {
                    if let Some(ts) = texts_of(models(*subexpressions), symbol_ledger@) {
                        assert(final(out)@ =~= old(out)@ + (seq!['('] + spaced(ts) + seq![')']));
                    }
                }
            },
            Expression::Function { arg_names, body } => {
                proof {
                    reveal_strlit("(fn (");
                }
                push_str(out, "(fn (");
                let ghost start = out@;
                let mut j: usize = 0;
                proof {
                    assert(arg_names@.subrange(0, 0) =~= Seq::<SymbolIndex>::empty());
                }
                while j < arg_names.len()
                    invariant
                        0 <= j <= arg_names@.len(),
                        all_named(arg_names@, symbol_ledger@),
                        symbol_names(arg_names@.subrange(0, j as int), symbol_ledger@) matches Some(
                            ns,
                        ) && out@ == start + spaced(ns),
                    decreases arg_names@.len() - j,
                {
                    let k = arg_names[j];
                    proof {
                        assert(arg_names@.contains(k)) by {
                            assert(arg_names@[j as int] == k);
                        }
                        assert(arg_names@.subrange(0, j + 1).drop_last() =~= arg_names@.subrange(
                            0,
                            j as int,
                        ));
                    }
                    let ghost ns = symbol_names(arg_names@.subrange(0, j as int), symbol_ledger@)->Some_0;
                    let name = symbol_ledger.symbol_name(k).unwrap();
                    if j > 0 {
                        out.push(' ');
                    }
                    push_str(out, name.as_str());
                    proof {
                        lemma_spaced_push(ns, name@);
                        assert(ns.len() == j) by {
                            lemma_symbol_names_len(arg_names@.subrange(0, j as int), symbol_ledger@);
                        }
                        assert(out@ =~= start + spaced(ns.push(name@)));
                    }
                    j = j + 1;
                }
                proof {
                    assert(arg_names@.subrange(0, j as int) =~= arg_names@);
                }
                push_str(out, ") ");
                proof {
                    assert(decreases_to!(self => body));
                }
                write_texts(body, symbol_ledger, host, out);
                out.push(')');
                proof {
                    reveal_strlit(") ");
                    if let (Some(args), Some(ts)) = (
                        symbol_names(arg_names@, symbol_ledger@),
                        texts_of(models(*body), symbol_ledger@),
                    ) {
                        assert(final(out)@ =~= old(out)@ + ("(fn ("@ + spaced(args) + seq![')', ' ']
                            + spaced(ts) + seq![')']));
                    }
                }
            },
        }
    }

    /// The text of this expression, as the language writes it (see `text_of`); floats are
    /// written by `host`.
    pub fn to_string<H: Host>(&self, symbol_ledger: &SymbolLedger, host: &H) -> (text: String)
        requires
            binders_named(model(*self), symbol_ledger@),
        ensures
            text_of(model(*self), symbol_ledger@) matches Some(t) ==> text@ == t,
    {
        let mut out: Vec<char> = Vec::new();
        self.write_text(symbol_ledger, host, &mut out);
        proof {
            if let Some(t) = text_of(model(*self), symbol_ledger@) {
                assert(out@ =~= t);
            }
        }
        string_from_chars(out.as_slice())
    }
}

/// The names of symbols, one per symbol.
proof fn lemma_symbol_names_len(symbols: Seq<SymbolIndex>, names: Seq<Seq<char>>)
    ensures
        symbol_names(symbols, names) matches Some(ns) ==> ns.len() == symbols.len(),
    decreases symbols.len(),
{
    if symbols.len() > 0 {
        lemma_symbol_names_len(symbols.drop_last(), names);
    }
}

/// Appends the texts of `es`, separated by single spaces (see `texts_of`).
fn write_texts<H: Host>(es: &Vec<Expression>, symbol_ledger: &SymbolLedger, host: &H, out: &mut Vec<char>)
    requires
        forall|i: int| 0 <= i < es@.len() ==> binders_named(#[trigger] models(*es)[i], symbol_ledger@),
    ensures
        texts_of(models(*es), symbol_ledger@) matches Some(ts) ==> final(out)@ == old(out)@ + spaced(ts),
    decreases es,
{
    let ghost ms = models(*es);
    let mut i: usize = 0;
    proof {
        assert(ms.subrange(0, 0) =~= Seq::<SpecExpression>::empty());
        assert(old(out)@ + spaced(Seq::<Seq<char>>::empty()) =~= old(out)@);
    }
    while i < es.len()
        invariant
            0 <= i <= es@.len(),
            ms == models(*es),
            ms.len() == es@.len(),
            forall|i: int| 0 <= i < es@.len() ==> binders_named(#[trigger] models(*es)[i], symbol_ledger@),
            texts_of(ms.subrange(0, i as int), symbol_ledger@) matches Some(ts) ==> out@ == old(out)@
                + spaced(ts) && ts.len() == i,
        decreases es@.len() - i,
    {
        proof {
            assert(decreases_to!(es => es@));
            assert(decreases_to!(es@ => es@[i as int]));
            assert(ms[i as int] == model(es@[i as int]));
            assert(ms.subrange(0, i + 1).subrange(0, i as int) =~= ms.subrange(0, i as int));
            assert(ms.subrange(0, i + 1)[i as int] == ms[i as int]);
        }
        let ghost before = out@;
        if i > 0 {
            out.push(' ');
        }
        let ghost middle = out@;
        es[i].write_text(symbol_ledger, host, out);
        proof {
            if let Some(ts) = texts_of(ms.subrange(0, i + 1), symbol_ledger@) {
                let init = texts_of(ms.subrange(0, i as int), symbol_ledger@)->Some_0;
                let t = text_of(ms[i as int], symbol_ledger@)->Some_0;
                assert(ts == init.push(t));
                lemma_spaced_push(init, t);
                assert(out@ =~= old(out)@ + spaced(ts));
            }
        }
        i = i + 1;
    }
    proof {
        assert(ms.subrange(0, i as int) =~= ms);
    }
}

} // verus!
