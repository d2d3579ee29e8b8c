use vstd::prelude::*;
use crate::compiler::ast_to_ir::{
    first_index_of, intern, lemma_first_index_of_bounds, lemma_name_of_known, name_of,
};
use crate::compiler::parse::{Token, Tree};
use crate::compiler::expressions::{
    all_named, built_in, captured, lemma_all_named_concat, lemma_all_named_extended,
    lemma_contains_concat, lemma_mentioned_all_push,
    lemma_name_of_extended, lemma_name_of_pushed, lemma_replacements_named_extended,
    lemma_unbound_all_mentioned, mentioned, mentioned_all, replaced, replaced_all,
    replacement_of, replacements_named, unbound, unbound_all, SpecExpression, SpecLiteral,
    lemma_replaced_size, lifted, lifted_all, lifted_replaced_all, size, size_all, partial_name,
    rebound, first_outside, lemma_captured_from, binders_named, read_expr, read_all, read_args,
    token_literal,
};
use crate::instructions::SymbolIndex;
use crate::runtime::core_functions::{law_name_round_trip, CoreFnId};

verus! {

/// While a ledger holds no more names than there are indices, each index below the
/// number of names is named by the name at that position, and no other index is named.
pub proof fn lemma_name_of_unwrapped(names: Seq<Seq<char>>, k: SymbolIndex)
    requires
        names.len() <= 65536,
    ensures
        name_of(names, k) == if (k as int) < names.len() {
            Some(names[k as int])
        } else {
            None::<Seq<char>>
        },
    decreases names.len(),
{
    if names.len() > 0 {
        let last = names.len() - 1;
        assert(((last as u16) as int) == last);
        if (last as u16) != k {
            lemma_name_of_unwrapped(names.drop_last(), k);
        }
    }
}

/// Whether a symbol is built in does not change as names are added, while the ledger
/// holds no more names than there are indices.
pub proof fn lemma_built_in_stable(names: Seq<Seq<char>>, longer: Seq<Seq<char>>, k: SymbolIndex)
    requires
        names.is_prefix_of(longer),
        longer.len() <= 65536,
        name_of(names, k) is Some,
    ensures
        built_in(longer, k) == built_in(names, k),
{
    lemma_name_of_unwrapped(names, k);
    lemma_name_of_unwrapped(longer, k);
}

/// A symbol read unbound is not among the bindings.
pub proof fn lemma_unbound_excludes(e: SpecExpression, bindings: Seq<SymbolIndex>, k: SymbolIndex)
    requires
        unbound(e, bindings).contains(k),
    ensures
        !bindings.contains(k),
    decreases e,
{
    match e {
        SpecExpression::Application(es) => lemma_unbound_all_excludes(es, bindings, k),
        SpecExpression::Function { arg_names, body } => {
            lemma_unbound_all_excludes(body, bindings + arg_names, k);
            if bindings.contains(k) {
                lemma_contains_concat(bindings, arg_names, k);
            }
        },
        _ => {},
    }
}

/// A symbol read unbound is not among the bindings.
pub proof fn lemma_unbound_all_excludes(
    es: Seq<SpecExpression>,
    bindings: Seq<SymbolIndex>,
    k: SymbolIndex,
)
    requires
        unbound_all(es, bindings).contains(k),
    ensures
        !bindings.contains(k),
    decreases es,
{
    if es.len() > 0 {
        let init = es.subrange(0, es.len() - 1);
        lemma_contains_concat(unbound_all(init, bindings), unbound(es[es.len() - 1], bindings), k);
        if unbound_all(init, bindings).contains(k) {
            lemma_unbound_all_excludes(init, bindings, k);
        } else {
            lemma_unbound_excludes(es[es.len() - 1], bindings, k);
        }
    }
}

/// A symbol read unbound stays unbound under other bindings that do not hold it.
pub proof fn lemma_unbound_rebound(
    e: SpecExpression,
    bindings: Seq<SymbolIndex>,
    other: Seq<SymbolIndex>,
    k: SymbolIndex,
)
    requires
        unbound(e, bindings).contains(k),
        !other.contains(k),
    ensures
        unbound(e, other).contains(k),
    decreases e,
{
    match e {
        SpecExpression::Literal(SpecLiteral::Symbol(s)) => {
            assert(seq![s][0] == s);
        },
        SpecExpression::Application(es) => lemma_unbound_all_rebound(es, bindings, other, k),
        SpecExpression::Function { arg_names, body } => {
            lemma_unbound_all_excludes(body, bindings + arg_names, k);
            lemma_contains_concat(bindings, arg_names, k);
            lemma_contains_concat(other, arg_names, k);
            lemma_unbound_all_rebound(body, bindings + arg_names, other + arg_names, k);
        },
        _ => {},
    }
}

/// A symbol read unbound stays unbound under other bindings that do not hold it.
pub proof fn lemma_unbound_all_rebound(
    es: Seq<SpecExpression>,
    bindings: Seq<SymbolIndex>,
    other: Seq<SymbolIndex>,
    k: SymbolIndex,
)
    requires
        unbound_all(es, bindings).contains(k),
        !other.contains(k),
    ensures
        unbound_all(es, other).contains(k),
    decreases es,
{
    if es.len() > 0 {
        let init = es.subrange(0, es.len() - 1);
        let last = es[es.len() - 1];
        lemma_contains_concat(unbound_all(init, bindings), unbound(last, bindings), k);
        lemma_contains_concat(unbound_all(init, other), unbound(last, other), k);
        if unbound_all(init, bindings).contains(k) {
            lemma_unbound_all_rebound(init, bindings, other, k);
        } else {
            lemma_unbound_rebound(last, bindings, other, k);
        }
    }
}

/// What `es` read unbound, one of them reads unbound.
pub proof fn lemma_unbound_all_some(es: Seq<SpecExpression>, bindings: Seq<SymbolIndex>, k: SymbolIndex)
    requires
        unbound_all(es, bindings).contains(k),
    ensures
        exists|i: int| 0 <= i < es.len() && #[trigger] unbound(es[i], bindings).contains(k),
    decreases es,
{
    if es.len() > 0 {
        let init = es.subrange(0, es.len() - 1);
        lemma_contains_concat(unbound_all(init, bindings), unbound(es[es.len() - 1], bindings), k);
        if unbound_all(init, bindings).contains(k) {
            lemma_unbound_all_some(init, bindings, k);
            let i = choose|i: int| 0 <= i < init.len() && #[trigger] unbound(init[i], bindings).contains(k);
            assert(init[i] == es[i]);
        } else {
            assert(unbound(es[es.len() - 1], bindings).contains(k));
        }
    }
}

/// Every symbol that is not built in is captured.
pub proof fn lemma_captured_complete(names: Seq<Seq<char>>, symbols: Seq<SymbolIndex>, k: SymbolIndex)
    requires
        symbols.contains(k),
        !built_in(names, k),
    ensures
        captured(names, symbols).contains(k),
    decreases symbols.len(),
{
    let earlier = captured(names, symbols.drop_last());
    if symbols.last() == k {
        if !earlier.contains(k) {
            assert(earlier.push(k)[earlier.len() as int] == k);
        }
    } else {
        let j = choose|j: int| 0 <= j < symbols.len() && symbols[j] == k;
        assert(symbols.drop_last()[j] == k);
        lemma_captured_complete(names, symbols.drop_last(), k);
        if !(earlier.contains(symbols.last()) || built_in(names, symbols.last())) {
            let l = choose|l: int| 0 <= l < earlier.len() && earlier[l] == k;
            assert(earlier.push(symbols.last())[l] == k);
        }
    }
}

/// The symbols that stand in for others among `replacements`.
pub open spec fn replacing_symbols(replacements: Seq<(SymbolIndex, SymbolIndex)>) -> Seq<SymbolIndex> {
    replacements.map_values(|q: (SymbolIndex, SymbolIndex)| q.1)
}

/// `after` is `before` with more replacements, each of a symbol of `to_replace`.
pub open spec fn extends_replacements(
    before: Seq<(SymbolIndex, SymbolIndex)>,
    after: Seq<(SymbolIndex, SymbolIndex)>,
    to_replace: Seq<SymbolIndex>,
) -> bool {
    &&& before.is_prefix_of(after)
    &&& forall|i: int| before.len() <= i < after.len() ==> to_replace.contains(#[trigger] after[i].0)
}

/// A symbol that stands in for another before stands in after more replacements.
proof fn lemma_replacing_symbols_grow(
    before: Seq<(SymbolIndex, SymbolIndex)>,
    after: Seq<(SymbolIndex, SymbolIndex)>,
    k: SymbolIndex,
)
    requires
        before.is_prefix_of(after),
        replacing_symbols(before).contains(k),
    ensures
        replacing_symbols(after).contains(k),
{
    let j = choose|j: int| 0 <= j < replacing_symbols(before).len() && replacing_symbols(before)[j] == k;
    assert(replacing_symbols(after)[j] == k);
}

/// What replacing symbols in `e` gives: names and replacements only grow, new
/// replacements replace symbols of `to_replace`, names stay known, and a symbol read
/// unbound afterwards that stands in for none was read unbound before and is not
/// replaced.
pub proof fn lemma_replaced_facts(
    e: SpecExpression,
    to_replace: Seq<SymbolIndex>,
    names: Seq<Seq<char>>,
    replacements: Seq<(SymbolIndex, SymbolIndex)>,
)
    ensures
        names.is_prefix_of(replaced(e, to_replace, names, replacements).1),
        extends_replacements(replacements, replaced(e, to_replace, names, replacements).2, to_replace),
        all_named(mentioned(e), names) && replacements_named(replacements, names) ==> all_named(
            mentioned(replaced(e, to_replace, names, replacements).0),
            replaced(e, to_replace, names, replacements).1,
        ) && replacements_named(
            replaced(e, to_replace, names, replacements).2,
            replaced(e, to_replace, names, replacements).1,
        ),
        forall|bindings: Seq<SymbolIndex>, k: SymbolIndex|
            #[trigger] unbound(replaced(e, to_replace, names, replacements).0, bindings).contains(k)
                && !replacing_symbols(replaced(e, to_replace, names, replacements).2).contains(k)
                ==> unbound(e, bindings).contains(k) && !to_replace.contains(k),
    decreases e,
{
    let (x, n2, r2) = replaced(e, to_replace, names, replacements);
    match e {
        SpecExpression::Literal(SpecLiteral::Symbol(s)) => {
            if to_replace.contains(s) {
                match replacement_of(replacements, s) {
                    Some(r) => {
                        let keys = replacements.map_values(|p: (SymbolIndex, SymbolIndex)| p.0);
                        lemma_first_index_of_bounds(keys, s);
                        let i = first_index_of(keys, s);
                        assert(replacing_symbols(replacements)[i] == r);
                        assert(seq![r][0] == r);
                        assert(x == SpecExpression::Literal(SpecLiteral::Symbol(r)));
                        assert forall|bindings: Seq<SymbolIndex>, k: SymbolIndex|
                            #[trigger] unbound(x, bindings).contains(k) && !replacing_symbols(
                                r2,
                            ).contains(k) implies unbound(e, bindings).contains(k)
                            && !to_replace.contains(k) by {
                            let j = choose|j: int| 0 <= j < unbound(x, bindings).len() && unbound(x, bindings)[j] == k;
                            assert(k == r);
                            assert(replacing_symbols(r2).contains(r));
                        }
                    },
                    None => {
                        let g = names.len() as u16;
                        lemma_name_of_pushed(names, crate::compiler::ast_to_ir::gensym_name(names));
                        assert(r2[replacements.len() as int] == (s, g));
                        assert(replacing_symbols(r2)[replacements.len() as int] == g);
                        assert(seq![g][0] == g);
                        if replacements_named(replacements, names) {
                            lemma_replacements_named_extended(replacements, names, n2);
                            assert forall|i: int| 0 <= i < r2.len() implies name_of(
                                n2,
                                #[trigger] r2[i].1,
                            ) is Some by {
                                if i < replacements.len() {
                                    assert(r2[i] == replacements[i]);
                                }
                            }
                        }
                        assert forall|bindings: Seq<SymbolIndex>, k: SymbolIndex|
                            #[trigger] unbound(x, bindings).contains(k) && !replacing_symbols(
                                r2,
                            ).contains(k) implies unbound(e, bindings).contains(k)
                            && !to_replace.contains(k) by {
                            let j = choose|j: int| 0 <= j < unbound(x, bindings).len() && unbound(x, bindings)[j] == k;
                            assert(k == g);
                            assert(replacing_symbols(r2).contains(g));
                        }
                    },
                }
            } else {
                assert forall|bindings: Seq<SymbolIndex>, k: SymbolIndex|
                    #[trigger] unbound(x, bindings).contains(k) && !replacing_symbols(r2).contains(
                        k,
                    ) implies unbound(e, bindings).contains(k) && !to_replace.contains(k) by {
                    let j = choose|j: int| 0 <= j < unbound(x, bindings).len() && unbound(x, bindings)[j] == k;
                    assert(k == s);
                }
            }
        },
        SpecExpression::Application(es) => {
            lemma_replaced_all_facts(es, to_replace, names, replacements);
            assert forall|bindings: Seq<SymbolIndex>, k: SymbolIndex|
                #[trigger] unbound(x, bindings).contains(k) && !replacing_symbols(r2).contains(k)
                    implies unbound(e, bindings).contains(k) && !to_replace.contains(k) by {
                assert(unbound_all(replaced_all(es, to_replace, names, replacements).0, bindings).contains(k));
            }
        },
        SpecExpression::Function { arg_names, body } => {
            lemma_replaced_all_facts(body, to_replace, names, replacements);
            assert forall|bindings: Seq<SymbolIndex>, k: SymbolIndex|
                #[trigger] unbound(x, bindings).contains(k) && !replacing_symbols(r2).contains(k)
                    implies unbound(e, bindings).contains(k) && !to_replace.contains(k) by {
                assert(unbound_all(replaced_all(body, to_replace, names, replacements).0, bindings + arg_names).contains(k));
            }
        },
        _ => {},
    }
}

/// What replacing symbols in each of `es` gives (see `lemma_replaced_facts`).
pub proof fn lemma_replaced_all_facts(
    es: Seq<SpecExpression>,
    to_replace: Seq<SymbolIndex>,
    names: Seq<Seq<char>>,
    replacements: Seq<(SymbolIndex, SymbolIndex)>,
)
    ensures
        replaced_all(es, to_replace, names, replacements).0.len() == es.len(),
        names.is_prefix_of(replaced_all(es, to_replace, names, replacements).1),
        extends_replacements(replacements, replaced_all(es, to_replace, names, replacements).2, to_replace),
        all_named(mentioned_all(es), names) && replacements_named(replacements, names) ==> all_named(
            mentioned_all(replaced_all(es, to_replace, names, replacements).0),
            replaced_all(es, to_replace, names, replacements).1,
        ) && replacements_named(
            replaced_all(es, to_replace, names, replacements).2,
            replaced_all(es, to_replace, names, replacements).1,
        ),
        forall|bindings: Seq<SymbolIndex>, k: SymbolIndex|
            #[trigger] unbound_all(replaced_all(es, to_replace, names, replacements).0, bindings).contains(k)
                && !replacing_symbols(replaced_all(es, to_replace, names, replacements).2).contains(k)
                ==> unbound_all(es, bindings).contains(k) && !to_replace.contains(k),
    decreases es,
{
    if es.len() > 0 {
        let init = es.subrange(0, es.len() - 1);
        let last = es[es.len() - 1];
        lemma_replaced_all_facts(init, to_replace, names, replacements);
        let (xs0, n1, r1) = replaced_all(init, to_replace, names, replacements);
        lemma_replaced_facts(last, to_replace, n1, r1);
        let (x, n2, r2) = replaced(last, to_replace, n1, r1);
        let xs = xs0.push(x);
        assert(replaced_all(es, to_replace, names, replacements) == (xs, n2, r2));
        assert(xs.subrange(0, xs.len() - 1) =~= xs0);
        assert(xs[xs.len() - 1] == x);
        assert forall|i: int| replacements.len() <= i < r2.len() implies to_replace.contains(#[trigger] r2[i].0) by {
            if i < r1.len() {
                assert(r2[i] == r1[i]);
            }
        }
        if all_named(mentioned_all(es), names) && replacements_named(replacements, names) {
            assert(all_named(mentioned_all(init), names)) by {
                assert forall|k: SymbolIndex| #[trigger] mentioned_all(init).contains(k) implies name_of(names, k) is Some by {
                    lemma_contains_concat(mentioned_all(init), mentioned(last), k);
                }
            }
            assert(all_named(mentioned(last), n1)) by {
                assert forall|k: SymbolIndex| #[trigger] mentioned(last).contains(k) implies name_of(n1, k) is Some by {
                    lemma_contains_concat(mentioned_all(init), mentioned(last), k);
                    lemma_name_of_extended(names, n1, k);
                }
            }
            lemma_all_named_extended(mentioned_all(xs0), n1, n2);
            lemma_mentioned_all_push(xs0, x);
            lemma_all_named_concat(mentioned_all(xs0), mentioned(x), n2);
        }
        assert forall|bindings: Seq<SymbolIndex>, k: SymbolIndex|
            #[trigger] unbound_all(xs, bindings).contains(k) && !replacing_symbols(r2).contains(k)
                implies unbound_all(es, bindings).contains(k) && !to_replace.contains(k) by {
            lemma_contains_concat(unbound_all(xs0, bindings), unbound(x, bindings), k);
            lemma_contains_concat(unbound_all(init, bindings), unbound(last, bindings), k);
            if unbound_all(xs0, bindings).contains(k) {
                if replacing_symbols(r1).contains(k) {
                    lemma_replacing_symbols_grow(r1, r2, k);
                }
            }
        }
    }
}

/// Names only grow as an interned name is recorded.
proof fn lemma_intern_grows(names: Seq<Seq<char>>, name: Seq<char>)
    ensures
        names.is_prefix_of(intern(names, name).1),
{
    if first_index_of(names, name) < 0 {
        assert(names.push(name).subrange(0, names.len() as int) =~= names);
    }
}

/// Names only grow as functions are lifted.
pub proof fn lemma_lifted_grows(e: SpecExpression, parent_bindings: Seq<SymbolIndex>, names: Seq<Seq<char>>)
    ensures
        names.is_prefix_of(lifted(e, parent_bindings, names).1),
    decreases size(e), 0nat,
{
    match e {
        SpecExpression::Application(es) => lemma_lifted_all_grows(es, parent_bindings, names),
        SpecExpression::Function { arg_names, body } => {
            let free = captured(names, unbound_all(body, arg_names));
            if first_outside(free, parent_bindings) is None {
                if free.len() == 0 {
                    lemma_lifted_all_grows(body, parent_bindings + arg_names, names);
                } else {
                    lemma_lifted_replaced_all_grows(
                        body,
                        free,
                        parent_bindings,
                        arg_names,
                        names,
                        Seq::empty(),
                    );
                    let after = lifted_replaced_all(
                        body,
                        free,
                        parent_bindings,
                        arg_names,
                        names,
                        Seq::empty(),
                    ).1;
                    lemma_intern_grows(after, partial_name());
                }
            }
        },
        _ => {},
    }
}

/// Names only grow as functions are lifted.
pub proof fn lemma_lifted_all_grows(
    es: Seq<SpecExpression>,
    parent_bindings: Seq<SymbolIndex>,
    names: Seq<Seq<char>>,
)
    ensures
        names.is_prefix_of(lifted_all(es, parent_bindings, names).1),
    decreases size_all(es), 1nat,
{
    if es.len() > 0 {
        assert(size(es[es.len() - 1]) >= 1);
        let init = es.subrange(0, es.len() - 1);
        lemma_lifted_all_grows(init, parent_bindings, names);
        let (r, after_init) = lifted_all(init, parent_bindings, names);
        if r is Ok {
            lemma_lifted_grows(es[es.len() - 1], parent_bindings, after_init);
        }
    }
}

/// Names and replacements only grow as replaced expressions are lifted; new
/// replacements replace symbols of `to_replace`.
pub proof fn lemma_lifted_replaced_all_grows(
    es: Seq<SpecExpression>,
    to_replace: Seq<SymbolIndex>,
    parent_bindings: Seq<SymbolIndex>,
    arg_names: Seq<SymbolIndex>,
    names: Seq<Seq<char>>,
    replacements: Seq<(SymbolIndex, SymbolIndex)>,
)
    ensures
        names.is_prefix_of(
            lifted_replaced_all(es, to_replace, parent_bindings, arg_names, names, replacements).1,
        ),
        extends_replacements(
            replacements,
            lifted_replaced_all(es, to_replace, parent_bindings, arg_names, names, replacements).2,
            to_replace,
        ),
    decreases size_all(es), 1nat,
{
    if es.len() > 0 {
        assert(size(es[es.len() - 1]) >= 1);
        let init = es.subrange(0, es.len() - 1);
        let last = es[es.len() - 1];
        lemma_lifted_replaced_all_grows(init, to_replace, parent_bindings, arg_names, names, replacements);
        let (r, n0, r0) = lifted_replaced_all(init, to_replace, parent_bindings, arg_names, names, replacements);
        if r is Ok {
            lemma_replaced_facts(last, to_replace, n0, r0);
            lemma_replaced_size(last, to_replace, n0, r0);
            let (replaced_last, n1, r1) = replaced(last, to_replace, n0, r0);
            lemma_lifted_grows(replaced_last, rebound(parent_bindings, r1) + arg_names, n1);
            assert forall|i: int| replacements.len() <= i < r1.len() implies to_replace.contains(#[trigger] r1[i].0) by {
                if i < r0.len() {
                    assert(r1[i] == r0[i]);
                }
            }
        }
    }
}

/// Whether every function in `e`, quotes aside, reads nothing but its arguments and
/// built-in symbols, with a ledger holding `names`.
pub open spec fn functions_closed(e: SpecExpression, names: Seq<Seq<char>>) -> bool
    decreases e,
{
    match e {
        SpecExpression::Application(es) => forall|i: int|
            0 <= i < es.len() ==> functions_closed(#[trigger] es[i], names),
        SpecExpression::Function { arg_names, body } => {
            &&& forall|k: SymbolIndex| #[trigger] unbound_all(body, arg_names).contains(k) ==> built_in(names, k)
            &&& forall|i: int| 0 <= i < body.len() ==> functions_closed(#[trigger] body[i], names)
        },
        _ => true,
    }
}

proof fn lemma_prefix_transitive(a: Seq<Seq<char>>, b: Seq<Seq<char>>, c: Seq<Seq<char>>)
    requires
        a.is_prefix_of(b),
        b.is_prefix_of(c),
    ensures
        a.is_prefix_of(c),
{
    assert forall|i: int| 0 <= i < a.len() implies a[i] == c[i] by {
        assert(a[i] == b[i]);
        assert(b[i] == c[i]);
    }
    assert(c.subrange(0, a.len() as int) =~= a);
}

/// The symbol that the interned name `partial` stands for is built in.
proof fn lemma_partial_built_in(names: Seq<Seq<char>>, all: Seq<Seq<char>>)
    requires
        intern(names, partial_name()).1.is_prefix_of(all),
        all.len() <= 65536,
    ensures
        built_in(all, intern(names, partial_name()).0),
{
    let (p, after) = intern(names, partial_name());
    lemma_first_index_of_bounds(names, partial_name());
    let i = first_index_of(names, partial_name());
    if i >= 0 {
        assert(((i as u16) as int) == i);
        assert(all[i] == names[i]);
    } else {
        assert(((names.len() as u16) as int) == names.len());
        assert(all[names.len() as int] == after[names.len() as int]);
    }
    lemma_name_of_unwrapped(all, p);
    law_name_round_trip(CoreFnId::Partial);
    assert(CoreFnId::Partial.spec_name() == partial_name());
}

/// What lifting gives: every function of the result is closed, and a symbol that the
/// result reads unbound and that is not built in was read unbound before.
pub proof fn lemma_lifted_closed(
    e: SpecExpression,
    parent_bindings: Seq<SymbolIndex>,
    names: Seq<Seq<char>>,
    all: Seq<Seq<char>>,
)
    requires
        all_named(mentioned(e), names),
        lifted(e, parent_bindings, names).1.is_prefix_of(all),
        all.len() <= 65536,
    ensures
        lifted(e, parent_bindings, names).0 matches Ok(x) ==> {
            &&& functions_closed(x, all)
            &&& forall|bindings: Seq<SymbolIndex>, k: SymbolIndex|
                #[trigger] unbound(x, bindings).contains(k) && !built_in(all, k) ==> unbound(
                    e,
                    bindings,
                ).contains(k)
        },
    decreases size(e), 0nat,
{
    match e {
        SpecExpression::Application(es) => {
            lemma_lifted_all_closed(es, parent_bindings, names, all);
            if let Ok(xs) = lifted_all(es, parent_bindings, names).0 {
                assert forall|bindings: Seq<SymbolIndex>, k: SymbolIndex|
                    #[trigger] unbound(SpecExpression::Application(xs), bindings).contains(k)
                        && !built_in(all, k) implies unbound(e, bindings).contains(k) by {
                    assert(unbound_all(xs, bindings).contains(k));
                }
            }
        },
        SpecExpression::Function { arg_names, body } => {
            let free = captured(names, unbound_all(body, arg_names));
            if first_outside(free, parent_bindings) is None {
                if free.len() == 0 {
                    lemma_lifted_all_grows(body, parent_bindings + arg_names, names);
                    lemma_prefix_transitive(
                        names,
                        lifted_all(body, parent_bindings + arg_names, names).1,
                        all,
                    );
                    lemma_lifted_all_closed(body, parent_bindings + arg_names, names, all);
                    if let Ok(xs) = lifted_all(body, parent_bindings + arg_names, names).0 {
                        assert forall|k: SymbolIndex| #[trigger] unbound_all(xs, arg_names).contains(k) implies built_in(all, k) by {
                            if !built_in(all, k) {
                                assert(unbound_all(body, arg_names).contains(k));
                                lemma_unbound_all_mentioned(body, arg_names, k);
                                lemma_built_in_stable(names, all, k);
                                lemma_captured_complete(names, unbound_all(body, arg_names), k);
                                assert(free.contains(k));
                            }
                        }
                        assert forall|bindings: Seq<SymbolIndex>, k: SymbolIndex|
                            #[trigger] unbound(SpecExpression::Function { arg_names, body: xs }, bindings).contains(k)
                                && !built_in(all, k) implies unbound(e, bindings).contains(k) by {
                            assert(unbound_all(xs, bindings + arg_names).contains(k));
                        }
                    }
                } else {
                    let empty = Seq::<(SymbolIndex, SymbolIndex)>::empty();
                    let (r, after, reps) = lifted_replaced_all(
                        body,
                        free,
                        parent_bindings,
                        arg_names,
                        names,
                        empty,
                    );
                    lemma_lifted_replaced_all_grows(
                        body,
                        free,
                        parent_bindings,
                        arg_names,
                        names,
                        empty,
                    );
                    if let Ok(xs) = r {
                        assert(lifted(e, parent_bindings, names).1 == intern(after, partial_name()).1);
                        lemma_intern_grows(after, partial_name());
                        lemma_prefix_transitive(after, intern(after, partial_name()).1, all);
                        lemma_prefix_transitive(names, after, all);
                        lemma_lifted_replaced_all_closed(
                            body,
                            free,
                            parent_bindings,
                            arg_names,
                            names,
                            empty,
                            all,
                        );
                        let p = intern(after, partial_name()).0;
                        lemma_partial_built_in(after, all);
                        let new_args = replacing_symbols(reps) + arg_names;
                        let f = SpecExpression::Function { arg_names: new_args, body: xs };
                        let caps = reps.map_values(
                            |q: (SymbolIndex, SymbolIndex)| SpecExpression::Literal(SpecLiteral::Symbol(q.0)),
                        );
                        let elements = seq![SpecExpression::Literal(SpecLiteral::Symbol(p)), f] + caps;
                        assert(lifted(e, parent_bindings, names).0 == Ok::<SpecExpression, Seq<char>>(
                            SpecExpression::Application(elements),
                        ));
                        assert forall|k: SymbolIndex| #[trigger] unbound_all(xs, new_args).contains(k) implies built_in(all, k) by {
                            if !built_in(all, k) {
                                lemma_unbound_all_excludes(xs, new_args, k);
                                lemma_contains_concat(replacing_symbols(reps), arg_names, k);
                                assert(unbound_all(body, new_args).contains(k) && !free.contains(k));
                                lemma_unbound_all_rebound(body, new_args, arg_names, k);
                                lemma_unbound_all_mentioned(body, arg_names, k);
                                lemma_built_in_stable(names, all, k);
                                lemma_captured_complete(names, unbound_all(body, arg_names), k);
                            }
                        }
                        assert(functions_closed(f, all));
                        assert forall|i: int| 0 <= i < elements.len() implies functions_closed(
                            #[trigger] elements[i],
                            all,
                        ) by {
                            if i >= 2 {
                                assert(elements[i] == caps[i - 2]);
                            }
                        }
                        assert forall|bindings: Seq<SymbolIndex>, k: SymbolIndex|
                            #[trigger] unbound(SpecExpression::Application(elements), bindings).contains(k)
                                && !built_in(all, k) implies unbound(e, bindings).contains(k) by {
                            lemma_unbound_all_some(elements, bindings, k);
                            let i = choose|i: int| 0 <= i < elements.len() && #[trigger] unbound(elements[i], bindings).contains(k);
                            if i == 0 {
                                let j = choose|j: int| 0 <= j < unbound(elements[0], bindings).len() && unbound(elements[0], bindings)[j] == k;
                                assert(k == p);
                            } else if i == 1 {
                                assert(unbound_all(xs, bindings + new_args).contains(k));
                                lemma_unbound_all_excludes(xs, bindings + new_args, k);
                                lemma_contains_concat(bindings, new_args, k);
                                lemma_unbound_all_rebound(xs, bindings + new_args, new_args, k);
                            } else {
                                assert(elements[i] == caps[i - 2]);
                                let c = reps[i - 2].0;
                                let j = choose|j: int| 0 <= j < unbound(elements[i], bindings).len() && unbound(elements[i], bindings)[j] == k;
                                assert(k == c);
                                assert(!bindings.contains(k));
                                assert(free.contains(c));
                                lemma_captured_from(names, unbound_all(body, arg_names), c);
                                lemma_unbound_all_excludes(body, arg_names, c);
                                lemma_contains_concat(bindings, arg_names, c);
                                lemma_unbound_all_rebound(body, arg_names, bindings + arg_names, c);
                            }
                        }
                    }
                }
            }
        },
        _ => {},
    }
}

/// What lifting each of `es` gives (see `lemma_lifted_closed`).
pub proof fn lemma_lifted_all_closed(
    es: Seq<SpecExpression>,
    parent_bindings: Seq<SymbolIndex>,
    names: Seq<Seq<char>>,
    all: Seq<Seq<char>>,
)
    requires
        all_named(mentioned_all(es), names),
        lifted_all(es, parent_bindings, names).1.is_prefix_of(all),
        all.len() <= 65536,
    ensures
        lifted_all(es, parent_bindings, names).0 matches Ok(xs) ==> {
            &&& xs.len() == es.len()
            &&& forall|i: int| 0 <= i < xs.len() ==> functions_closed(#[trigger] xs[i], all)
            &&& forall|bindings: Seq<SymbolIndex>, k: SymbolIndex|
                #[trigger] unbound_all(xs, bindings).contains(k) && !built_in(all, k) ==> unbound_all(
                    es,
                    bindings,
                ).contains(k)
        },
    decreases size_all(es), 1nat,
{
    if es.len() > 0 {
        assert(size(es[es.len() - 1]) >= 1);
        let init = es.subrange(0, es.len() - 1);
        let last = es[es.len() - 1];
        let (r, after_init) = lifted_all(init, parent_bindings, names);
        if let Ok(xs0) = r {
            lemma_lifted_grows(last, parent_bindings, after_init);
            lemma_prefix_transitive(after_init, lifted(last, parent_bindings, after_init).1, all);
            lemma_lifted_all_grows(init, parent_bindings, names);
            assert(all_named(mentioned_all(init), names)) by {
                assert forall|k: SymbolIndex| #[trigger] mentioned_all(init).contains(k) implies name_of(names, k) is Some by {
                    lemma_contains_concat(mentioned_all(init), mentioned(last), k);
                }
            }
            assert(all_named(mentioned(last), after_init)) by {
                assert forall|k: SymbolIndex| #[trigger] mentioned(last).contains(k) implies name_of(after_init, k) is Some by {
                    lemma_contains_concat(mentioned_all(init), mentioned(last), k);
                    lemma_name_of_extended(names, after_init, k);
                }
            }
            lemma_lifted_all_closed(init, parent_bindings, names, all);
            lemma_lifted_closed(last, parent_bindings, after_init, all);
            if let Ok(x) = lifted(last, parent_bindings, after_init).0 {
                let xs = xs0.push(x);
                assert(xs.subrange(0, xs.len() - 1) =~= xs0);
                assert forall|i: int| 0 <= i < xs.len() implies functions_closed(#[trigger] xs[i], all) by {
                    if i < xs0.len() {
                        assert(xs[i] == xs0[i]);
                    }
                }
                assert forall|bindings: Seq<SymbolIndex>, k: SymbolIndex|
                    #[trigger] unbound_all(xs, bindings).contains(k) && !built_in(all, k) implies unbound_all(
                        es,
                        bindings,
                    ).contains(k) by {
                    lemma_contains_concat(unbound_all(xs0, bindings), unbound(x, bindings), k);
                    lemma_contains_concat(unbound_all(init, bindings), unbound(last, bindings), k);
                }
            }
        } else {
            lemma_lifted_all_grows(init, parent_bindings, names);
        }
    }
}

/// What replacing symbols in each of `es` and lifting it gives (see
/// `lemma_lifted_closed`): a symbol read unbound afterwards that is neither built in nor
/// a replacing one was read unbound before and is not replaced.
pub proof fn lemma_lifted_replaced_all_closed(
    es: Seq<SpecExpression>,
    to_replace: Seq<SymbolIndex>,
    parent_bindings: Seq<SymbolIndex>,
    arg_names: Seq<SymbolIndex>,
    names: Seq<Seq<char>>,
    replacements: Seq<(SymbolIndex, SymbolIndex)>,
    all: Seq<Seq<char>>,
)
    requires
        all_named(mentioned_all(es), names),
        replacements_named(replacements, names),
        lifted_replaced_all(es, to_replace, parent_bindings, arg_names, names, replacements).1.is_prefix_of(all),
        all.len() <= 65536,
    ensures
        lifted_replaced_all(es, to_replace, parent_bindings, arg_names, names, replacements).0 matches Ok(xs) ==> {
            let final_replacements = lifted_replaced_all(es, to_replace, parent_bindings, arg_names, names, replacements).2;
            &&& xs.len() == es.len()
            &&& replacements_named(
                final_replacements,
                lifted_replaced_all(es, to_replace, parent_bindings, arg_names, names, replacements).1,
            )
            &&& forall|i: int| 0 <= i < xs.len() ==> functions_closed(#[trigger] xs[i], all)
            &&& forall|bindings: Seq<SymbolIndex>, k: SymbolIndex|
                #[trigger] unbound_all(xs, bindings).contains(k) && !built_in(all, k)
                    && !replacing_symbols(final_replacements).contains(k) ==> unbound_all(
                    es,
                    bindings,
                ).contains(k) && !to_replace.contains(k)
        },
    decreases size_all(es), 1nat,
{
    if es.len() > 0 {
        assert(size(es[es.len() - 1]) >= 1);
        let init = es.subrange(0, es.len() - 1);
        let last = es[es.len() - 1];
        let (r, n0, r0) = lifted_replaced_all(init, to_replace, parent_bindings, arg_names, names, replacements);
        lemma_lifted_replaced_all_grows(init, to_replace, parent_bindings, arg_names, names, replacements);
        if let Ok(xs0) = r {
            lemma_replaced_facts(last, to_replace, n0, r0);
            lemma_replaced_size(last, to_replace, n0, r0);
            let (re, n1, r1) = replaced(last, to_replace, n0, r0);
            let bindings1 = rebound(parent_bindings, r1) + arg_names;
            lemma_lifted_grows(re, bindings1, n1);
            let n2 = lifted(re, bindings1, n1).1;
            lemma_prefix_transitive(n1, n2, all);
            lemma_prefix_transitive(n0, n1, all);
            assert(all_named(mentioned_all(init), names)) by {
                assert forall|k: SymbolIndex| #[trigger] mentioned_all(init).contains(k) implies name_of(names, k) is Some by {
                    lemma_contains_concat(mentioned_all(init), mentioned(last), k);
                }
            }
            lemma_lifted_replaced_all_closed(init, to_replace, parent_bindings, arg_names, names, replacements, all);
            assert(all_named(mentioned(last), n0)) by {
                assert forall|k: SymbolIndex| #[trigger] mentioned(last).contains(k) implies name_of(n0, k) is Some by {
                    lemma_contains_concat(mentioned_all(init), mentioned(last), k);
                    lemma_name_of_extended(names, n0, k);
                }
            }
            lemma_lifted_closed(re, bindings1, n1, all);
            if let Ok(x) = lifted(re, bindings1, n1).0 {
                let xs = xs0.push(x);
                assert(xs.subrange(0, xs.len() - 1) =~= xs0);
                lemma_replacements_named_extended(r1, n1, n2);
                assert forall|i: int| 0 <= i < xs.len() implies functions_closed(#[trigger] xs[i], all) by {
                    if i < xs0.len() {
                        assert(xs[i] == xs0[i]);
                    }
                }
                assert forall|bindings: Seq<SymbolIndex>, k: SymbolIndex|
                    #[trigger] unbound_all(xs, bindings).contains(k) && !built_in(all, k)
                        && !replacing_symbols(r1).contains(k) implies unbound_all(es, bindings).contains(k)
                        && !to_replace.contains(k) by {
                    lemma_contains_concat(unbound_all(xs0, bindings), unbound(x, bindings), k);
                    lemma_contains_concat(unbound_all(init, bindings), unbound(last, bindings), k);
                    if unbound_all(xs0, bindings).contains(k) {
                        if replacing_symbols(r0).contains(k) {
                            lemma_replacing_symbols_grow(r0, r1, k);
                        }
                    } else {
                        assert(unbound(re, bindings).contains(k));
                    }
                }
            }
        }
    }
}

/// Lifting leaves no function that reads a symbol bound around it: when lifting succeeds,
/// every function of the result, quotes aside, reads nothing but its own arguments and
/// built-in symbols, and the result reads unbound, built-in symbols aside, only what the
/// expression read unbound. This holds while the ledger stays within the 65536 symbol
/// indices, so that no two names share an index.
pub proof fn law_lifted_functions_are_closed(
    e: SpecExpression,
    parent_bindings: Seq<SymbolIndex>,
    names: Seq<Seq<char>>,
)
    requires
        all_named(mentioned(e), names),
        lifted(e, parent_bindings, names).1.len() <= 65536,
    ensures
        lifted(e, parent_bindings, names).0 matches Ok(x) ==> {
            &&& functions_closed(x, lifted(e, parent_bindings, names).1)
            &&& forall|bindings: Seq<SymbolIndex>, k: SymbolIndex|
                #[trigger] unbound(x, bindings).contains(k) && !built_in(
                    lifted(e, parent_bindings, names).1,
                    k,
                ) ==> unbound(e, bindings).contains(k)
        },
{
    let all = lifted(e, parent_bindings, names).1;
    assert(all.subrange(0, all.len() as int) =~= all);
    lemma_lifted_closed(e, parent_bindings, names, all);
}

/// Quoted forms are left alone: replacing symbols and lifting functions give a quote back
/// unchanged, with the ledger and the replacements unchanged.
pub proof fn law_quotes_left_alone(
    quoted: SpecExpression,
    to_replace: Seq<SymbolIndex>,
    parent_bindings: Seq<SymbolIndex>,
    names: Seq<Seq<char>>,
    replacements: Seq<(SymbolIndex, SymbolIndex)>,
)
    ensures
        replaced(SpecExpression::Quoted(Box::new(quoted)), to_replace, names, replacements) == (
            SpecExpression::Quoted(Box::new(quoted)),
            names,
            replacements,
        ),
        lifted(SpecExpression::Quoted(Box::new(quoted)), parent_bindings, names) == (
            Ok::<SpecExpression, Seq<char>>(SpecExpression::Quoted(Box::new(quoted))),
            names,
        ),
        unbound(SpecExpression::Quoted(Box::new(quoted)), parent_bindings) == Seq::<SymbolIndex>::empty(),
{
}

/// Whether every function in `e`, quotes included, has its arguments named stays so as
/// names are added.
pub proof fn lemma_binders_named_extended(e: SpecExpression, names: Seq<Seq<char>>, longer: Seq<Seq<char>>)
    requires
        names.is_prefix_of(longer),
        binders_named(e, names),
    ensures
        binders_named(e, longer),
    decreases e,
{
    match e {
        SpecExpression::Quoted(sub) => lemma_binders_named_extended(*sub, names, longer),
        SpecExpression::Application(es) => {
            assert forall|i: int| 0 <= i < es.len() implies binders_named(#[trigger] es[i], longer) by {
                lemma_binders_named_extended(es[i], names, longer);
            }
        },
        SpecExpression::Function { arg_names, body } => {
            lemma_all_named_extended(arg_names, names, longer);
            assert forall|i: int| 0 <= i < body.len() implies binders_named(#[trigger] body[i], longer) by {
                lemma_binders_named_extended(body[i], names, longer);
            }
        },
        _ => {},
    }
}

/// The symbol that an interned name stands for is named afterwards.
proof fn lemma_intern_named(names: Seq<Seq<char>>, name: Seq<char>)
    ensures
        name_of(intern(names, name).1, intern(names, name).0) is Some,
        names.is_prefix_of(intern(names, name).1),
{
    lemma_intern_grows(names, name);
    lemma_first_index_of_bounds(names, name);
    let i = first_index_of(names, name);
    if i >= 0 {
        lemma_name_of_known(names, i);
    } else {
        lemma_name_of_pushed(names, name);
    }
}

/// Reading a token tree records every symbol it reads: the expression read reads only
/// named symbols, and its functions have named arguments, so it can be lifted and
/// written out.
pub proof fn lemma_read_names_symbols(t: Tree<Token>, names: Seq<Seq<char>>)
    ensures
        names.is_prefix_of(read_expr(t, names).1),
        read_expr(t, names).0 matches Ok(m) ==> all_named(mentioned(m), read_expr(t, names).1)
            && binders_named(m, read_expr(t, names).1),
    decreases t,
{
    match t {
        Tree::Leaf(token) => {
            if let Token::Symbol(s) = token {
                lemma_intern_named(names, s@);
                let k = intern(names, s@).0;
                assert forall|j: SymbolIndex| #[trigger] seq![k].contains(j) implies name_of(
                    intern(names, s@).1,
                    j,
                ) is Some by {
                    assert(seq![k][0] == k);
                }
            } else {
                assert(names.subrange(0, names.len() as int) =~= names);
            }
        },
        Tree::Inner(subtrees) => {
            let ts = subtrees@;
            assert(names.subrange(0, names.len() as int) =~= names);
            if ts.len() > 0 {
                if crate::compiler::expressions::is_symbol_named(ts[0], seq!['f', 'n']) {
                    if ts.len() > 1 && ts[1] is Inner {
                        lemma_read_args_names(ts[1]->Inner_0@, names);
                        let (args, after_args) = read_args(ts[1]->Inner_0@, names);
                        if let Ok(arg_names) = args {
                            let rest = ts.subrange(2, ts.len() as int);
                            lemma_read_all_names(rest, after_args);
                            let after_body = read_all(rest, after_args).1;
                            lemma_prefix_transitive(names, after_args, after_body);
                            lemma_all_named_extended(arg_names, after_args, after_body);
                        }
                    }
                } else if crate::compiler::expressions::is_symbol_named(
                    ts[0],
                    seq!['q', 'u', 'o', 't', 'e'],
                ) {
                    if ts.len() == 2 {
                        lemma_read_names_symbols(ts[1], names);
                    }
                } else {
                    lemma_read_all_names(ts, names);
                }
            }
        },
    }
}

/// Reading each of `ts` records every symbol read (see `lemma_read_names_symbols`).
pub proof fn lemma_read_all_names(ts: Seq<Tree<Token>>, names: Seq<Seq<char>>)
    ensures
        names.is_prefix_of(read_all(ts, names).1),
        read_all(ts, names).0 matches Ok(ms) ==> all_named(mentioned_all(ms), read_all(ts, names).1)
            && forall|i: int| 0 <= i < ms.len() ==> binders_named(#[trigger] ms[i], read_all(ts, names).1),
    decreases ts,
{
    if ts.len() == 0 {
        assert(names.subrange(0, names.len() as int) =~= names);
    } else {
        let init = ts.subrange(0, ts.len() - 1);
        lemma_read_all_names(init, names);
        let (r0, n0) = read_all(init, names);
        if let Ok(ms0) = r0 {
            lemma_read_names_symbols(ts[ts.len() - 1], n0);
            let (r1, n1) = read_expr(ts[ts.len() - 1], n0);
            lemma_prefix_transitive(names, n0, n1);
            if let Ok(x) = r1 {
                let ms = ms0.push(x);
                lemma_all_named_extended(mentioned_all(ms0), n0, n1);
                lemma_mentioned_all_push(ms0, x);
                lemma_all_named_concat(mentioned_all(ms0), mentioned(x), n1);
                assert forall|i: int| 0 <= i < ms.len() implies binders_named(#[trigger] ms[i], n1) by {
                    if i < ms0.len() {
                        assert(ms[i] == ms0[i]);
                        lemma_binders_named_extended(ms0[i], n0, n1);
                    }
                }
            }
        }
    }
}

/// Reading argument names records each of them.
pub proof fn lemma_read_args_names(ts: Seq<Tree<Token>>, names: Seq<Seq<char>>)
    ensures
        names.is_prefix_of(read_args(ts, names).1),
        read_args(ts, names).0 matches Ok(ks) ==> all_named(ks, read_args(ts, names).1),
    decreases ts,
{
    if ts.len() == 0 {
        assert(names.subrange(0, names.len() as int) =~= names);
    } else {
        let init = ts.subrange(0, ts.len() - 1);
        lemma_read_args_names(init, names);
        let (r0, n0) = read_args(init, names);
        if let Ok(ks0) = r0 {
            lemma_read_names_symbols(ts[ts.len() - 1], n0);
            let (r1, n1) = read_expr(ts[ts.len() - 1], n0);
            lemma_prefix_transitive(names, n0, n1);
            if let Ok(SpecExpression::Literal(SpecLiteral::Symbol(k))) = r1 {
                lemma_all_named_extended(ks0, n0, n1);
                assert(mentioned(SpecExpression::Literal(SpecLiteral::Symbol(k))).contains(k)) by {
                    assert(seq![k][0] == k);
                }
                assert forall|j: SymbolIndex| #[trigger] ks0.push(k).contains(j) implies name_of(n1, j) is Some by {
                    let l = choose|l: int| 0 <= l < ks0.push(k).len() && ks0.push(k)[l] == j;
                    if l < ks0.len() {
                        assert(ks0[l] == j);
                        assert(ks0.contains(j));
                    } else {
                        assert(j == k);
                        assert(mentioned(SpecExpression::Literal(SpecLiteral::Symbol(k))).contains(j));
                    }
                }
            }
        }
    }
}

/// Replacing symbols keeps the arguments of every function, and their names.
pub proof fn lemma_replaced_binders(
    e: SpecExpression,
    to_replace: Seq<SymbolIndex>,
    names: Seq<Seq<char>>,
    replacements: Seq<(SymbolIndex, SymbolIndex)>,
)
    requires
        binders_named(e, names),
    ensures
        binders_named(
            replaced(e, to_replace, names, replacements).0,
            replaced(e, to_replace, names, replacements).1,
        ),
    decreases e,
{
    lemma_replaced_facts(e, to_replace, names, replacements);
    match e {
        SpecExpression::Quoted(sub) => {
            lemma_binders_named_extended(*sub, names, replaced(e, to_replace, names, replacements).1);
        },
        SpecExpression::Application(es) => {
            lemma_replaced_all_binders(es, to_replace, names, replacements);
            let (xs, n2, r2) = replaced_all(es, to_replace, names, replacements);
            assert forall|i: int| 0 <= i < xs.len() implies binders_named(#[trigger] xs[i], n2) by {
                assert(binders_named(replaced_all(es, to_replace, names, replacements).0[i], n2));
            }
        },
        SpecExpression::Function { arg_names, body } => {
            lemma_replaced_all_binders(body, to_replace, names, replacements);
            let (xs, n2, r2) = replaced_all(body, to_replace, names, replacements);
            lemma_all_named_extended(arg_names, names, n2);
            assert forall|i: int| 0 <= i < xs.len() implies binders_named(#[trigger] xs[i], n2) by {
                assert(binders_named(replaced_all(body, to_replace, names, replacements).0[i], n2));
            }
        },
        _ => {},
    }
}

/// Replacing symbols in each of `es` keeps the arguments of every function, and their
/// names.
pub proof fn lemma_replaced_all_binders(
    es: Seq<SpecExpression>,
    to_replace: Seq<SymbolIndex>,
    names: Seq<Seq<char>>,
    replacements: Seq<(SymbolIndex, SymbolIndex)>,
)
    requires
        forall|i: int| 0 <= i < es.len() ==> binders_named(#[trigger] es[i], names),
    ensures
        forall|i: int|
            0 <= i < replaced_all(es, to_replace, names, replacements).0.len() ==> binders_named(
                #[trigger] replaced_all(es, to_replace, names, replacements).0[i],
                replaced_all(es, to_replace, names, replacements).1,
            ),
    decreases es,
{
    if es.len() > 0 {
        let init = es.subrange(0, es.len() - 1);
        let last = es[es.len() - 1];
        assert forall|i: int| 0 <= i < init.len() implies binders_named(#[trigger] init[i], names) by {
            assert(init[i] == es[i]);
        }
        lemma_replaced_all_binders(init, to_replace, names, replacements);
        lemma_replaced_all_facts(init, to_replace, names, replacements);
        let (xs0, n1, r1) = replaced_all(init, to_replace, names, replacements);
        lemma_binders_named_extended(last, names, n1);
        lemma_replaced_binders(last, to_replace, n1, r1);
        lemma_replaced_facts(last, to_replace, n1, r1);
        let (x, n2, r2) = replaced(last, to_replace, n1, r1);
        let xs = xs0.push(x);
        assert forall|i: int| 0 <= i < xs.len() implies binders_named(#[trigger] xs[i], n2) by {
            if i < xs0.len() {
                assert(xs[i] == xs0[i]);
                lemma_binders_named_extended(xs0[i], n1, n2);
            }
        }
    }
}

/// Lifting keeps every function's arguments named: the result of lifting an expression
/// whose symbols and arguments are named has its arguments named.
pub proof fn lemma_lifted_binders(e: SpecExpression, parent_bindings: Seq<SymbolIndex>, names: Seq<Seq<char>>)
    requires
        all_named(mentioned(e), names),
        binders_named(e, names),
    ensures
        lifted(e, parent_bindings, names).0 matches Ok(x) ==> binders_named(
            x,
            lifted(e, parent_bindings, names).1,
        ),
    decreases size(e), 0nat,
{
    lemma_lifted_grows(e, parent_bindings, names);
    match e {
        SpecExpression::Quoted(sub) => {
            assert(names.subrange(0, names.len() as int) =~= names);
        },
        SpecExpression::Application(es) => lemma_lifted_all_binders(es, parent_bindings, names),
        SpecExpression::Function { arg_names, body } => {
            let free = captured(names, unbound_all(body, arg_names));
            if first_outside(free, parent_bindings) is None {
                if free.len() == 0 {
                    lemma_lifted_all_binders(body, parent_bindings + arg_names, names);
                    lemma_all_named_extended(arg_names, names, lifted(e, parent_bindings, names).1);
                } else {
                    let empty = Seq::<(SymbolIndex, SymbolIndex)>::empty();
                    lemma_lifted_replaced_all_binders(
                        body,
                        free,
                        parent_bindings,
                        arg_names,
                        names,
                        empty,
                    );
                    lemma_lifted_replaced_all_grows(body, free, parent_bindings, arg_names, names, empty);
                    let (r, after, reps) = lifted_replaced_all(
                        body,
                        free,
                        parent_bindings,
                        arg_names,
                        names,
                        empty,
                    );
                    if let Ok(xs) = r {
                        let final_names = intern(after, partial_name()).1;
                        lemma_intern_grows(after, partial_name());
                        lemma_prefix_transitive(names, after, final_names);
                        let p = intern(after, partial_name()).0;
                        let new_args = replacing_symbols(reps) + arg_names;
                        let f = SpecExpression::Function { arg_names: new_args, body: xs };
                        let caps = reps.map_values(
                            |q: (SymbolIndex, SymbolIndex)| SpecExpression::Literal(SpecLiteral::Symbol(q.0)),
                        );
                        let elements = seq![SpecExpression::Literal(SpecLiteral::Symbol(p)), f] + caps;
                        lemma_all_named_extended(arg_names, names, final_names);
                        lemma_replacements_named_extended(reps, after, final_names);
                        assert forall|k: SymbolIndex| #[trigger] new_args.contains(k) implies name_of(final_names, k) is Some by {
                            lemma_contains_concat(replacing_symbols(reps), arg_names, k);
                            if replacing_symbols(reps).contains(k) {
                                let j = choose|j: int| 0 <= j < replacing_symbols(reps).len() && replacing_symbols(reps)[j] == k;
                                assert(reps[j].1 == k);
                            }
                        }
                        assert forall|i: int| 0 <= i < xs.len() implies binders_named(#[trigger] xs[i], final_names) by {
                            lemma_binders_named_extended(xs[i], after, final_names);
                        }
                        assert(binders_named(f, final_names));
                        assert forall|i: int| 0 <= i < elements.len() implies binders_named(
                            #[trigger] elements[i],
                            final_names,
                        ) by {
                            if i >= 2 {
                                assert(elements[i] == caps[i - 2]);
                            }
                        }
                    }
                }
            }
        },
        _ => {},
    }
}

/// Lifting each of `es` keeps every function's arguments named.
pub proof fn lemma_lifted_all_binders(
    es: Seq<SpecExpression>,
    parent_bindings: Seq<SymbolIndex>,
    names: Seq<Seq<char>>,
)
    requires
        all_named(mentioned_all(es), names),
        forall|i: int| 0 <= i < es.len() ==> binders_named(#[trigger] es[i], names),
    ensures
        lifted_all(es, parent_bindings, names).0 matches Ok(xs) ==> forall|i: int|
            0 <= i < xs.len() ==> binders_named(#[trigger] xs[i], lifted_all(es, parent_bindings, names).1),
    decreases size_all(es), 1nat,
{
    if es.len() > 0 {
        assert(size(es[es.len() - 1]) >= 1);
        let init = es.subrange(0, es.len() - 1);
        let last = es[es.len() - 1];
        assert forall|i: int| 0 <= i < init.len() implies binders_named(#[trigger] init[i], names) by {
            assert(init[i] == es[i]);
        }
        assert(all_named(mentioned_all(init), names)) by {
            assert forall|k: SymbolIndex| #[trigger] mentioned_all(init).contains(k) implies name_of(names, k) is Some by {
                lemma_contains_concat(mentioned_all(init), mentioned(last), k);
            }
        }
        lemma_lifted_all_binders(init, parent_bindings, names);
        lemma_lifted_all_grows(init, parent_bindings, names);
        let (r, after_init) = lifted_all(init, parent_bindings, names);
        if let Ok(xs0) = r {
            assert(all_named(mentioned(last), after_init)) by {
                assert forall|k: SymbolIndex| #[trigger] mentioned(last).contains(k) implies name_of(after_init, k) is Some by {
                    lemma_contains_concat(mentioned_all(init), mentioned(last), k);
                    lemma_name_of_extended(names, after_init, k);
                }
            }
            lemma_binders_named_extended(last, names, after_init);
            lemma_lifted_binders(last, parent_bindings, after_init);
            lemma_lifted_grows(last, parent_bindings, after_init);
            let (r1, n1) = lifted(last, parent_bindings, after_init);
            if let Ok(x) = r1 {
                let xs = xs0.push(x);
                assert forall|i: int| 0 <= i < xs.len() implies binders_named(#[trigger] xs[i], n1) by {
                    if i < xs0.len() {
                        assert(xs[i] == xs0[i]);
                        lemma_binders_named_extended(xs0[i], after_init, n1);
                    }
                }
            }
        }
    }
}

/// Replacing and lifting each of `es` keeps every function's arguments named, and names
/// every replacing symbol.
pub proof fn lemma_lifted_replaced_all_binders(
    es: Seq<SpecExpression>,
    to_replace: Seq<SymbolIndex>,
    parent_bindings: Seq<SymbolIndex>,
    arg_names: Seq<SymbolIndex>,
    names: Seq<Seq<char>>,
    replacements: Seq<(SymbolIndex, SymbolIndex)>,
)
    requires
        all_named(mentioned_all(es), names),
        replacements_named(replacements, names),
        forall|i: int| 0 <= i < es.len() ==> binders_named(#[trigger] es[i], names),
    ensures
        lifted_replaced_all(es, to_replace, parent_bindings, arg_names, names, replacements).0 matches Ok(xs) ==> {
            let after = lifted_replaced_all(es, to_replace, parent_bindings, arg_names, names, replacements);
            &&& replacements_named(after.2, after.1)
            &&& forall|i: int| 0 <= i < xs.len() ==> binders_named(#[trigger] xs[i], after.1)
        },
    decreases size_all(es), 1nat,
{
    if es.len() > 0 {
        assert(size(es[es.len() - 1]) >= 1);
        let init = es.subrange(0, es.len() - 1);
        let last = es[es.len() - 1];
        assert forall|i: int| 0 <= i < init.len() implies binders_named(#[trigger] init[i], names) by {
            assert(init[i] == es[i]);
        }
        assert(all_named(mentioned_all(init), names)) by {
            assert forall|k: SymbolIndex| #[trigger] mentioned_all(init).contains(k) implies name_of(names, k) is Some by {
                lemma_contains_concat(mentioned_all(init), mentioned(last), k);
            }
        }
        lemma_lifted_replaced_all_binders(init, to_replace, parent_bindings, arg_names, names, replacements);
        lemma_lifted_replaced_all_grows(init, to_replace, parent_bindings, arg_names, names, replacements);
        let (r, n0, r0) = lifted_replaced_all(init, to_replace, parent_bindings, arg_names, names, replacements);
        if let Ok(xs0) = r {
            assert(all_named(mentioned(last), n0)) by {
                assert forall|k: SymbolIndex| #[trigger] mentioned(last).contains(k) implies name_of(n0, k) is Some by {
                    lemma_contains_concat(mentioned_all(init), mentioned(last), k);
                    lemma_name_of_extended(names, n0, k);
                }
            }
            lemma_binders_named_extended(last, names, n0);
            lemma_replaced_facts(last, to_replace, n0, r0);
            lemma_replaced_binders(last, to_replace, n0, r0);
            lemma_replaced_size(last, to_replace, n0, r0);
            let (re, n1, r1) = replaced(last, to_replace, n0, r0);
            let bindings1 = rebound(parent_bindings, r1) + arg_names;
            lemma_lifted_binders(re, bindings1, n1);
            lemma_lifted_grows(re, bindings1, n1);
            let (rl, n2) = lifted(re, bindings1, n1);
            if let Ok(x) = rl {
                let xs = xs0.push(x);
                lemma_replacements_named_extended(r1, n1, n2);
                lemma_prefix_transitive(n0, n1, n2);
                assert forall|i: int| 0 <= i < xs.len() implies binders_named(#[trigger] xs[i], n2) by {
                    if i < xs0.len() {
                        assert(xs[i] == xs0[i]);
                        lemma_binders_named_extended(xs0[i], n0, n2);
                    }
                }
            }
        }
    }
}

} // verus!
