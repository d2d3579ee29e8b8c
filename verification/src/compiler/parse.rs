use vstd::prelude::*;
use crate::text::{chars_of, is_white_space, str_equals, string_from_chars, white_space};

verus! {

/// A tree whose inner nodes are lists of subtrees.
#[derive(Debug)]
pub enum Tree<T> {
    Inner(Vec<Tree<T>>),
    Leaf(T),
}

/// The mathematical shape of a [`Tree`], with its leaves taken by their views.
pub ghost enum SpecTree<T> {
    Inner(Seq<SpecTree<T>>),
    Leaf(T),
}

/// `model` is the shape of `tree`, with every leaf taken by its view.
pub open spec fn tree_model<T: View>(tree: Tree<T>, model: SpecTree<T::V>) -> bool
    decreases tree,
{
    match tree {
        Tree::Leaf(x) => model == SpecTree::Leaf(x@),
        Tree::Inner(subtrees) => {
            &&& model is Inner
            &&& model->Inner_0.len() == subtrees@.len()
            &&& forall|k: int| 0 <= k < subtrees@.len() ==> tree_model(#[trigger] subtrees@[k], model->Inner_0[k])
        },
    }
}

/// `models` are the shapes of `trees`, one by one.
pub open spec fn trees_model<T: View>(trees: Seq<Tree<T>>, models: Seq<SpecTree<T::V>>) -> bool {
    &&& trees.len() == models.len()
    &&& forall|k: int| 0 <= k < trees.len() ==> tree_model(#[trigger] trees[k], models[k])
}

} // verus!

verus! {

/// Whether `c` is a parenthesis, which always forms a token of its own.
pub open spec fn is_paren(c: char) -> bool {
    c == '(' || c == ')'
}

/// Adds the word being read to the finished tokens, unless it is empty.
pub open spec fn flush_word(tokens: Seq<Seq<char>>, word: Seq<char>) -> Seq<Seq<char>> {
    if word.len() == 0 {
        tokens
    } else {
        tokens.push(word)
    }
}

/// Reads `s` from the left: the finished tokens, and the word still being read.
/// Parentheses are tokens of their own, and white space separates tokens.
pub open spec fn scan_tokens(s: Seq<char>) -> (Seq<Seq<char>>, Seq<char>)
    decreases s.len(),
{
    if s.len() == 0 {
        (Seq::empty(), Seq::empty())
    } else {
        let (tokens, word) = scan_tokens(s.drop_last());
        let c = s.last();
        if is_paren(c) {
            (flush_word(tokens, word).push(seq![c]), Seq::empty())
        } else if is_white_space(c) {
            (flush_word(tokens, word), Seq::empty())
        } else {
            (tokens, word.push(c))
        }
    }
}

/// The tokens of `s`: every parenthesis, and every maximal run of characters that are
/// neither parentheses nor white space.
pub open spec fn spec_tokenize(s: Seq<char>) -> Seq<Seq<char>> {
    flush_word(scan_tokens(s).0, scan_tokens(s).1)
}

/// The views of a list of strings.
pub open spec fn string_views(strings: Seq<String>) -> Seq<Seq<char>> {
    strings.map_values(|s: String| s@)
}

/// The views of a list of character vectors.
pub open spec fn char_vec_views(words: Seq<Vec<char>>) -> Seq<Seq<char>> {
    words.map_values(|w: Vec<char>| w@)
}

proof fn lemma_char_vec_views_push(words: Seq<Vec<char>>, w: Vec<char>)
    ensures
        char_vec_views(words.push(w)) == char_vec_views(words).push(w@),
{
    assert(char_vec_views(words.push(w)) =~= char_vec_views(words).push(w@));
}

fn push_word(tokens: &mut Vec<Vec<char>>, word: Vec<char>)
    ensures
        char_vec_views(final(tokens)@) == flush_word(char_vec_views(old(tokens)@), word@),
{
    if word.len() > 0 {
        proof {
            lemma_char_vec_views_push(old(tokens)@, word);
        }
        tokens.push(word);
    }
}

fn tokenize_chars(input: &str) -> (tokens: Vec<Vec<char>>)
    ensures
        char_vec_views(tokens@) == spec_tokenize(input@),
{
    let chars = chars_of(input);
    let mut tokens: Vec<Vec<char>> = Vec::new();
    let mut word: Vec<char> = Vec::new();
    let mut i: usize = 0;
    proof {
        assert(char_vec_views(tokens@) =~= Seq::<Seq<char>>::empty());
        assert(chars@.take(0) =~= Seq::<char>::empty());
    }
    while i < chars.len()
        invariant
            0 <= i <= chars.len(),
            chars@ == input@,
            (char_vec_views(tokens@), word@) == scan_tokens(chars@.take(i as int)),
        decreases chars.len() - i,
    {
        let c = chars[i];
        proof {
            assert(chars@.take(i + 1).drop_last() =~= chars@.take(i as int));
            assert(chars@.take(i + 1).last() == c);
        }
        if c == '(' || c == ')' {
            push_word(&mut tokens, word);
            let mut paren: Vec<char> = Vec::new();
            paren.push(c);
            proof {
                assert(paren@ =~= seq![c]);
                lemma_char_vec_views_push(tokens@, paren);
            }
            tokens.push(paren);
            word = Vec::new();
        } else if white_space(c) {
            push_word(&mut tokens, word);
            word = Vec::new();
        } else {
            word.push(c);
        }
        proof {
            assert(word@ == scan_tokens(chars@.take(i + 1)).1);
        }
        i = i + 1;
    }
    push_word(&mut tokens, word);
    proof {
        assert(chars@.take(chars@.len() as int) =~= chars@);
    }
    tokens
}

/// The tokens of `input`: every parenthesis, and every maximal run of characters that
/// are neither parentheses nor white space, in order.
pub fn tokenize(input: &str) -> (tokens: Vec<String>)
    ensures
        string_views(tokens@) == spec_tokenize(input@),
{
    let words = tokenize_chars(input);
    let mut tokens: Vec<String> = Vec::new();
    let mut i: usize = 0;
    while i < words.len()
        invariant
            0 <= i <= words.len(),
            char_vec_views(words@) == spec_tokenize(input@),
            tokens@.len() == i,
            forall|k: int| 0 <= k < i ==> (#[trigger] tokens@[k])@ == words@[k]@,
        decreases words.len() - i,
    {
        let token = string_from_chars(words[i].as_slice());
        tokens.push(token);
        i = i + 1;
    }
    proof {
        assert(string_views(tokens@) =~= char_vec_views(words@));
    }
    tokens
}

/// `model` is the shape of the parser's stack, level by level.
pub open spec fn stack_model(stack: Seq<Vec<Tree<String>>>, model: Seq<Seq<SpecTree<Seq<char>>>>) -> bool {
    &&& stack.len() == model.len()
    &&& forall|k: int| 0 <= k < stack.len() ==> trees_model(#[trigger] stack[k]@, model[k])
}

/// The parser's stack of unfinished lists after reading `tokens`, or `None` where a closing
/// parenthesis closes the outermost level (on which the parser panics). An opening
/// parenthesis starts a new list; a closing one ends the innermost list and adds it to the
/// enclosing one; any other token is a leaf of the innermost list.
pub open spec fn parse_stack(tokens: Seq<Seq<char>>) -> Option<Seq<Seq<SpecTree<Seq<char>>>>>
    decreases tokens.len(),
{
    if tokens.len() == 0 {
        Some(seq![Seq::empty()])
    } else {
        match parse_stack(tokens.drop_last()) {
            None => None,
            Some(stack) => {
                let token = tokens.last();
                if token == seq!['('] {
                    Some(stack.push(Seq::empty()))
                } else if token == seq![')'] {
                    if stack.len() < 2 {
                        None
                    } else {
                        let finished = stack.last();
                        let rest = stack.drop_last();
                        Some(rest.update(rest.len() - 1, rest.last().push(SpecTree::Inner(finished))))
                    }
                } else {
                    Some(stack.update(stack.len() - 1, stack.last().push(SpecTree::Leaf(token))))
                }
            }
        }
    }
}

/// Whether `parse_sexp` accepts `input` without panicking: no closing parenthesis closes
/// the outermost level, and the innermost list open at the end is not empty.
pub open spec fn parses(input: Seq<char>) -> bool {
    &&& parse_stack(spec_tokenize(input)) is Some
    &&& parse_stack(spec_tokenize(input))->0.last().len() > 0
}

/// The tree that `parse_sexp` returns: the first element of the innermost list that is
/// open at the end.
pub open spec fn spec_parse_sexp(input: Seq<char>) -> SpecTree<Seq<char>> {
    parse_stack(spec_tokenize(input))->0.last()[0]
}

proof fn lemma_parse_stack_nonempty(tokens: Seq<Seq<char>>)
    ensures
        parse_stack(tokens) matches Some(stack) ==> stack.len() >= 1,
    decreases tokens.len(),
{
    if tokens.len() > 0 {
        lemma_parse_stack_nonempty(tokens.drop_last());
    }
}

proof fn lemma_parse_stack_prefix(tokens: Seq<Seq<char>>, k: int)
    requires
        0 <= k <= tokens.len(),
        parse_stack(tokens) is Some,
    ensures
        parse_stack(tokens.take(k)) is Some,
    decreases tokens.len(),
{
    if k < tokens.len() {
        assert(tokens.drop_last().take(k) =~= tokens.take(k));
        lemma_parse_stack_prefix(tokens.drop_last(), k);
    } else {
        assert(tokens.take(k) =~= tokens);
    }
}

/// Whether `parse_sexp` accepts `input`: no closing parenthesis closes the outermost
/// level, and the innermost list open at the end is not empty.
pub fn sexp_parses(input: &str) -> (b: bool)
    ensures
        b == parses(input@),
{
    let tokens = tokenize_chars(input);
    let ghost views = char_vec_views(tokens@);
    let mut sizes: Vec<usize> = Vec::new();
    sizes.push(0);
    let mut i: usize = 0;
    proof {
        assert(views.take(0) =~= Seq::<Seq<char>>::empty());
    }
    while i < tokens.len()
        invariant
            0 <= i <= tokens@.len(),
            views == char_vec_views(tokens@),
            views == spec_tokenize(input@),
            parse_stack(views.take(i as int)) matches Some(model) && {
                &&& sizes@.len() == model.len()
                &&& forall|k: int| 0 <= k < sizes@.len() ==> #[trigger] sizes@[k] == model[k].len()
                &&& forall|k: int| 0 <= k < sizes@.len() ==> sizes@[k] <= i
            },
        decreases tokens@.len() - i,
    {
        proof {
            assert(views.take(i + 1).drop_last() =~= views.take(i as int));
            lemma_parse_stack_nonempty(views.take(i as int));
        }
        let ghost model = parse_stack(views.take(i as int))->0;
        let token = &tokens[i];
        let last = sizes.len() - 1;
        if token.len() == 1 && token[0] == '(' {
            proof {
                assert(token@ =~= seq!['(']);
            }
            sizes.push(0);
        } else if token.len() == 1 && token[0] == ')' {
            proof {
                assert(token@ =~= seq![')']);
            }
            if sizes.len() < 2 {
                proof {
                    assert(parse_stack(views.take(i + 1)) is None);
                    if parse_stack(views) is Some {
                        lemma_parse_stack_prefix(views, i + 1);
                    }
                }
                return false;
            }
            sizes.pop();
            let top = sizes.len() - 1;
            let grown = sizes[top] + 1;
            sizes.set(top, grown);
        } else {
            proof {
                assert(token@ != seq!['(']);
                assert(token@ != seq![')']);
            }
            let grown = sizes[last] + 1;
            sizes.set(last, grown);
        }
        i = i + 1;
    }
    proof {
        assert(views.take(i as int) =~= views);
        lemma_parse_stack_nonempty(views);
    }
    sizes[sizes.len() - 1] > 0
}

/// Parses an s-expression into a tree of its tokens: each parenthesized list becomes an
/// inner node, and every other token a leaf.
pub fn parse_sexp(input: &str) -> (tree: Tree<String>)
    requires
        parses(input@),
    ensures
        tree_model(tree, spec_parse_sexp(input@)),
{
    let tokens = tokenize_chars(input);
    let ghost token_views = char_vec_views(tokens@);
    let mut stack: Vec<Vec<Tree<String>>> = Vec::new();
    stack.push(Vec::new());
    let mut i: usize = 0;
    proof {
        assert(token_views.take(0) =~= Seq::<Seq<char>>::empty());
        assert(stack_model(stack@, seq![Seq::<SpecTree<Seq<char>>>::empty()]));
    }
    while i < tokens.len()
        invariant
            0 <= i <= tokens.len(),
            token_views == char_vec_views(tokens@),
            token_views == spec_tokenize(input@),
            parse_stack(token_views) is Some,
            parse_stack(token_views.take(i as int)) matches Some(model) && stack_model(stack@, model),
        decreases tokens.len() - i,
    {
        proof {
            assert(token_views.take(i + 1).drop_last() =~= token_views.take(i as int));
            lemma_parse_stack_prefix(token_views, i + 1);
            lemma_parse_stack_nonempty(token_views.take(i as int));
        }
        let ghost model = parse_stack(token_views.take(i as int))->0;
        let token = &tokens[i];
        let ghost old_stack = stack@;
        if token.len() == 1 && token[0] == '(' {
            proof {
                assert(token@ =~= seq!['(']);
            }
            stack.push(Vec::new());
            proof {
                let new_model = model.push(Seq::empty());
                assert forall|k: int| 0 <= k < stack@.len() implies trees_model(#[trigger] stack@[k]@, new_model[k]) by {
                    if k < old_stack.len() {
                        assert(stack@[k] == old_stack[k]);
                    }
                }
            }
        } else if token.len() == 1 && token[0] == ')' {
            proof {
                assert(token@ =~= seq![')']);
            }
            let finished = stack.pop().unwrap();
            let mut top = stack.pop().unwrap();
            let ghost old_top = top@;
            top.push(Tree::Inner(finished));
            stack.push(top);
            proof {
                let finished_model = model.last();
                let rest = model.drop_last();
                let new_top = rest.last().push(SpecTree::Inner(finished_model));
                let new_model = rest.update(rest.len() - 1, new_top);
                assert(trees_model(finished@, finished_model));
                assert(tree_model(Tree::Inner(finished), SpecTree::Inner(finished_model)));
                assert(trees_model(old_top, rest.last()));
                assert forall|k: int| 0 <= k < top@.len() implies tree_model(#[trigger] top@[k], new_top[k]) by {
                    if k < old_top.len() {
                        assert(top@[k] == old_top[k]);
                    }
                }
                assert forall|k: int| 0 <= k < stack@.len() implies trees_model(#[trigger] stack@[k]@, new_model[k]) by {
                    if k < stack@.len() - 1 {
                        assert(stack@[k] == old_stack[k]);
                    }
                }
            }
        } else {
            proof {
                assert(token@ != seq!['(']);
                assert(token@ != seq![')']);
            }
            let leaf = string_from_chars(token.as_slice());
            let mut top = stack.pop().unwrap();
            let ghost old_top = top@;
            top.push(Tree::Leaf(leaf));
            stack.push(top);
            proof {
                let new_top = model.last().push(SpecTree::Leaf(token@));
                let new_model = model.update(model.len() - 1, new_top);
                assert(trees_model(old_top, model.last()));
                assert forall|k: int| 0 <= k < top@.len() implies tree_model(#[trigger] top@[k], new_top[k]) by {
                    if k < old_top.len() {
                        assert(top@[k] == old_top[k]);
                    }
                }
                assert forall|k: int| 0 <= k < stack@.len() implies trees_model(#[trigger] stack@[k]@, new_model[k]) by {
                    if k < stack@.len() - 1 {
                        assert(stack@[k] == old_stack[k]);
                    }
                }
            }
        }
        i = i + 1;
    }
    proof {
        assert(token_views.take(tokens.len() as int) =~= token_views);
        lemma_parse_stack_nonempty(token_views);
    }
    let mut last = stack.pop().unwrap();
    proof {
        let model = parse_stack(token_views)->0;
        assert(trees_model(last@, model.last()));
        assert(tree_model(last@[0], model.last()[0]));
    }
    last.remove(0)
}

impl<T> Tree<T> {
    /// Maps every leaf through `translator`, keeping the shape, and stops at the first
    /// leaf (in order) whose translation fails, returning its error.
    pub fn translate<NewT, E, F: Fn(T) -> Result<NewT, E>>(
        self,
        translator: &F,
    ) -> (translated: Result<Tree<NewT>, E>)
        requires
            forall|t: T| translator.requires((t,)),
        ensures
            tree_translation(self, translated, leaf_outcomes(*translator)),
        decreases self,
    {
        match self {
            Tree::Inner(subtrees) => {
                let ghost all_subtrees = subtrees;
                let ghost old_subtrees = subtrees@;
                let mut subtrees = subtrees;
                let mut translated_subtrees: Vec<Tree<NewT>> = Vec::new();
                let mut i: usize = 0;
                assert(subtrees@.skip(0) =~= old_subtrees);
                while subtrees.len() > 0
                    invariant
                        forall|t: T| translator.requires((t,)),
                        self is Inner,
                        self->Inner_0 == all_subtrees,
                        all_subtrees@ == old_subtrees,
                        old_subtrees.len() == all_subtrees.len(),
                        old_subtrees.len() == i + subtrees@.len(),
                        subtrees@ == old_subtrees.skip(i as int),
                        translated_subtrees@.len() == i,
                        forall|k: int| 0 <= k < i ==> tree_translation(
                            #[trigger] old_subtrees[k],
                            Ok(translated_subtrees@[k]),
                            leaf_outcomes(*translator),
                        ),
                    decreases subtrees.len(),
                {
                    let subtree = subtrees.remove(0);
                    proof {
                        assert(subtree == old_subtrees[i as int]);
                        assert(self->Inner_0 == all_subtrees);
                        assert(decreases_to!(self => self->Inner_0));
                        assert(decreases_to!(all_subtrees => all_subtrees@));
                        assert(0 <= i < all_subtrees@.len());
                        assert(decreases_to!(all_subtrees@ => all_subtrees@[i as int]));
                        assert(decreases_to!(self => subtree));
                    }
                    let ghost before = translated_subtrees@;
                    match subtree.translate(translator) {
                        Ok(t) => translated_subtrees.push(t),
                        Err(e) => {
                            proof {
                                let f = leaf_outcomes(*translator);
                                assert(tree_translation(old_subtrees[i as int], Err(e), f));
                                assert forall|k: int| 0 <= k < i implies #[trigger] leaves_translate(
                                    all_subtrees@[k],
                                    f,
                                ) by {
                                    lemma_translated_leaves(
                                        all_subtrees@[k],
                                        translated_subtrees@[k],
                                        f,
                                    );
                                }
                                assert(0 <= i < all_subtrees@.len());
                                assert(tree_translation(all_subtrees@[i as int], Err(e), f));
                            }
                            return Err(e);
                        },
                    }
                    proof {
                        assert(subtrees@ =~= old_subtrees.skip(i + 1));
                    }
                    i = i + 1;
                }
                Ok(Tree::Inner(translated_subtrees))
            },
            Tree::Leaf(leaf) => match translator(leaf) {
                Ok(x) => Ok(Tree::Leaf(x)),
                Err(e) => Err(e),
            },
        }
    }
}

/// A translation stays one under any looser account of what a leaf may translate to.
pub proof fn lemma_tree_translation_weaken<T, NewT, E>(
    tree: Tree<T>,
    translated: Result<Tree<NewT>, E>,
    f: spec_fn(T, Result<NewT, E>) -> bool,
    g: spec_fn(T, Result<NewT, E>) -> bool,
)
    requires
        tree_translation(tree, translated, f),
        forall|t: T, r: Result<NewT, E>| #[trigger] f(t, r) ==> g(t, r),
    ensures
        tree_translation(tree, translated, g),
    decreases tree,
{
    if let Tree::Inner(subtrees) = tree {
        match translated {
            Ok(Tree::Inner(new_subtrees)) => {
                assert forall|k: int| 0 <= k < subtrees@.len() implies tree_translation(
                    #[trigger] subtrees@[k],
                    Ok(new_subtrees@[k]),
                    g,
                ) by {
                    assert(decreases_to!(tree => subtrees));
                    assert(decreases_to!(subtrees => subtrees@));
                    assert(decreases_to!(subtrees@ => subtrees@[k]));
                    lemma_tree_translation_weaken(subtrees@[k], Ok(new_subtrees@[k]), f, g);
                }
            },
            Err(e) => {
                let j = choose|j: int|
                    0 <= j < subtrees@.len() && tree_translation(
                        #[trigger] subtrees@[j],
                        Err(e),
                        f,
                    ) && forall|k: int| 0 <= k < j ==> #[trigger] leaves_translate(subtrees@[k], f);
                assert(decreases_to!(tree => subtrees));
                assert(decreases_to!(subtrees => subtrees@));
                assert(decreases_to!(subtrees@ => subtrees@[j]));
                lemma_tree_translation_weaken(subtrees@[j], Err(e), f, g);
                assert forall|k: int| 0 <= k < j implies #[trigger] leaves_translate(subtrees@[k], g) by {
                    lemma_leaves_translate_weaken(subtrees@[k], f, g);
                }
            },
            _ => {},
        }
    }
}

/// The outcomes that `translator` may give for a leaf.
pub open spec fn leaf_outcomes<T, NewT, E, F: Fn(T) -> Result<NewT, E>>(translator: F) -> spec_fn(T, Result<NewT, E>) -> bool {
    |t: T, r: Result<NewT, E>| translator.ensures((t,), r)
}

/// `translated` is an outcome of translating the leaves of `tree`, where
/// `leaf_outcome(t, r)` says that `r` is an outcome of translating the leaf `t`: the same
/// shape with every leaf translated, or the error that the translation of some leaf gave,
/// all leaves before it (in order) translating.
pub open spec fn tree_translation<T, NewT, E>(
    tree: Tree<T>,
    translated: Result<Tree<NewT>, E>,
    leaf_outcome: spec_fn(T, Result<NewT, E>) -> bool,
) -> bool
    decreases tree,
{
    match tree {
        Tree::Leaf(t) => match translated {
            Ok(Tree::Leaf(x)) => leaf_outcome(t, Ok(x)),
            Ok(Tree::Inner(_)) => false,
            Err(e) => leaf_outcome(t, Err(e)),
        },
        Tree::Inner(subtrees) => match translated {
            Ok(Tree::Inner(new_subtrees)) => {
                &&& new_subtrees@.len() == subtrees@.len()
                &&& forall|k: int| 0 <= k < subtrees@.len() ==> tree_translation(
                    #[trigger] subtrees@[k], Ok(new_subtrees@[k]), leaf_outcome)
            },
            Ok(Tree::Leaf(_)) => false,
            Err(e) => exists|j: int|
                0 <= j < subtrees@.len() && tree_translation(
                    #[trigger] subtrees@[j],
                    Err(e),
                    leaf_outcome,
                ) && forall|k: int|
                    0 <= k < j ==> #[trigger] leaves_translate(subtrees@[k], leaf_outcome),
        },
    }
}

/// Whether every leaf of `tree` has a successful outcome.
pub open spec fn leaves_translate<T, NewT, E>(
    tree: Tree<T>,
    leaf_outcome: spec_fn(T, Result<NewT, E>) -> bool,
) -> bool
    decreases tree,
{
    match tree {
        Tree::Leaf(t) => exists|x: NewT| #[trigger] leaf_outcome(t, Ok::<NewT, E>(x)),
        Tree::Inner(subtrees) => forall|k: int|
            0 <= k < subtrees@.len() ==> leaves_translate(#[trigger] subtrees@[k], leaf_outcome),
    }
}

/// A successful translation has a successful outcome at every leaf.
proof fn lemma_translated_leaves<T, NewT, E>(
    tree: Tree<T>,
    translated: Tree<NewT>,
    f: spec_fn(T, Result<NewT, E>) -> bool,
)
    requires
        tree_translation(tree, Ok::<Tree<NewT>, E>(translated), f),
    ensures
        leaves_translate(tree, f),
    decreases tree,
{
    match tree {
        Tree::Leaf(t) => {
            let x = translated->Leaf_0;
            assert(f(t, Ok::<NewT, E>(x)));
        },
        Tree::Inner(subtrees) => {
            let new_subtrees = translated->Inner_0;
            assert forall|k: int| 0 <= k < subtrees@.len() implies leaves_translate(
                #[trigger] subtrees@[k],
                f,
            ) by {
                assert(decreases_to!(tree => subtrees));
                assert(decreases_to!(subtrees => subtrees@));
                assert(decreases_to!(subtrees@ => subtrees@[k]));
                lemma_translated_leaves(subtrees@[k], new_subtrees@[k], f);
            }
        },
    }
}

/// Successful outcomes at every leaf stay so under any looser account of outcomes.
proof fn lemma_leaves_translate_weaken<T, NewT, E>(
    tree: Tree<T>,
    f: spec_fn(T, Result<NewT, E>) -> bool,
    g: spec_fn(T, Result<NewT, E>) -> bool,
)
    requires
        leaves_translate(tree, f),
        forall|t: T, r: Result<NewT, E>| #[trigger] f(t, r) ==> g(t, r),
    ensures
        leaves_translate(tree, g),
    decreases tree,
{
    match tree {
        Tree::Leaf(t) => {
            let x = choose|x: NewT| #[trigger] f(t, Ok::<NewT, E>(x));
            assert(g(t, Ok::<NewT, E>(x)));
        },
        Tree::Inner(subtrees) => {
            assert forall|k: int| 0 <= k < subtrees@.len() implies leaves_translate(
                #[trigger] subtrees@[k],
                g,
            ) by {
                assert(decreases_to!(tree => subtrees));
                assert(decreases_to!(subtrees => subtrees@));
                assert(decreases_to!(subtrees@ => subtrees@[k]));
                lemma_leaves_translate_weaken(subtrees@[k], f, g);
            }
        },
    }
}

} // verus!

verus! {

/// A token that is neither a number, `nil`, a well-formed string literal, nor a symbol:
/// a string literal that is not closed, or that holds a quote.
#[derive(Debug, Clone)]
pub struct CantParseTokenError(pub String);

/// A token of the language.
#[derive(Debug, Clone)]
pub enum Token {
    Nil,
    IntLiteral(i64),
    /// A float literal, by the bits of its binary64 value.
    FloatLiteral(u64),
    StringLiteral(String),
    Symbol(String),
}

/// Whether `c` is an ASCII decimal digit.
pub open spec fn is_digit(c: char) -> bool {
    '0' <= c <= '9'
}

/// The value of a run of decimal digits.
pub open spec fn digits_value(s: Seq<char>) -> int
    decreases s.len(),
{
    if s.len() == 0 {
        0
    } else {
        digits_value(s.drop_last()) * 10 + (s.last() as int - '0' as int)
    }
}

/// The digits after an optional leading sign.
pub open spec fn unsigned_part(s: Seq<char>) -> Seq<char> {
    if s.len() > 0 && (s[0] == '-' || s[0] == '+') {
        s.drop_first()
    } else {
        s
    }
}

/// The integer that `s` spells as a decimal `i64`: an optional sign, then one or more
/// ASCII digits, with a value in the range of `i64`.
pub open spec fn spec_parse_i64(s: Seq<char>) -> Option<i64> {
    let digits = unsigned_part(s);
    let magnitude = digits_value(digits);
    let value = if s.len() > 0 && s[0] == '-' {
        -magnitude
    } else {
        magnitude
    };
    if digits.len() > 0 && (forall|i: int| 0 <= i < digits.len() ==> is_digit(#[trigger] digits[i]))
        && i64::MIN <= value <= i64::MAX {
        Some(value as i64)
    } else {
        None
    }
}

proof fn lemma_digits_value_grows(s: Seq<char>, k: int)
    requires
        0 <= k <= s.len(),
        forall|i: int| 0 <= i < s.len() ==> is_digit(#[trigger] s[i]),
    ensures
        0 <= digits_value(s.take(k)) <= digits_value(s),
    decreases s.len(),
{
    if s.len() > 0 {
        if k == s.len() {
            assert(s.take(k) =~= s);
            lemma_digits_value_grows(s.drop_last(), k - 1);
            assert(s.drop_last().take(k - 1) =~= s.drop_last());
        } else {
            lemma_digits_value_grows(s.drop_last(), k);
            assert(s.drop_last().take(k) =~= s.take(k));
        }
    }
}

/// Reads `text` as a decimal `i64`, as `str::parse::<i64>` does.
pub fn parse_i64(text: &Vec<char>) -> (r: Option<i64>)
    ensures
        r == spec_parse_i64(text@),
{
    let n = text.len();
    let mut start: usize = 0;
    let mut negative = false;
    if n > 0 && (text[0] == '-' || text[0] == '+') {
        start = 1;
        negative = text[0] == '-';
    }
    let ghost digits = unsigned_part(text@);
    proof {
        assert(digits =~= text@.subrange(start as int, n as int));
    }
    if start == n {
        proof {
            assert(digits.len() == 0);
        }
        return None;
    }
    let mut magnitude: u64 = 0;
    let mut i: usize = start;
    while i < n
        invariant
            start <= i <= n,
            start < n,
            n == text@.len(),
            digits == unsigned_part(text@),
            digits == text@.subrange(start as int, n as int),
            negative == (text@.len() > 0 && text@[0] == '-'),
            forall|j: int| 0 <= j < i - start ==> is_digit(#[trigger] digits[j]),
            magnitude == digits_value(digits.take(i - start)),
        decreases n - i,
    {
        let c = text[i];
        if !('0' <= c && c <= '9') {
            proof {
                assert(digits[i - start] == c);
                assert(!is_digit(digits[i - start]));
            }
            return None;
        }
        proof {
            assert(digits.take(i - start + 1).drop_last() =~= digits.take(i - start));
            assert(digits.take(i - start + 1).last() == c);
        }
        let d = (c as u32 - '0' as u32) as u64;
        let next = match magnitude.checked_mul(10) {
            Some(m) => m.checked_add(d),
            None => None,
        };
        match next {
            Some(m) => {
                magnitude = m;
            },
            None => {
                proof {
                    let k = i - start + 1;
                    assert(digits_value(digits.take(k)) == magnitude * 10 + d);
                    assert(digits_value(digits.take(k)) > u64::MAX) by (nonlinear_arith)
                        requires
                            digits_value(digits.take(k)) == magnitude * 10 + d,
                            magnitude * 10 > u64::MAX || magnitude * 10 + d > u64::MAX,
                            d >= 0,
                    ;
                    if forall|j: int| 0 <= j < digits.len() ==> is_digit(#[trigger] digits[j]) {
                        lemma_digits_value_grows(digits, k);
                    }
                }
                return None;
            },
        }
        i = i + 1;
    }
    proof {
        assert(digits.take(n - start) =~= digits);
    }
    if negative {
        if magnitude <= 0x8000_0000_0000_0000u64 {
            if magnitude == 0x8000_0000_0000_0000u64 {
                Some(i64::MIN)
            } else {
                Some(-(magnitude as i64))
            }
        } else {
            None
        }
    } else {
        if magnitude <= 0x7fff_ffff_ffff_ffffu64 {
            Some(magnitude as i64)
        } else {
            None
        }
    }
}

/// Whether every character of `s` is ASCII, so that it takes one byte in UTF-8.
pub open spec fn all_ascii(s: Seq<char>) -> bool {
    forall|i: int| 0 <= i < s.len() ==> (#[trigger] s[i] as u32) < 0x80
}

/// How many times `c` occurs in `s`.
pub open spec fn count_char(s: Seq<char>, c: char) -> nat
    decreases s.len(),
{
    if s.len() == 0 {
        0
    } else {
        count_char(s.drop_last(), c) + if s.last() == c {
            1nat
        } else {
            0nat
        }
    }
}

/// The token that `text` spells, given `float_reading`, what `text` reads as when parsed
/// as an `f64` (its bits), if it parses as one: an integer first, then a float; then, for a
/// text that starts with a quote, a string literal if the text ends with a quote and holds
/// no other, and an error otherwise; then `nil`; and otherwise a symbol. The literal keeps
/// the characters after the opening quote, as many as the text has UTF-8 bytes less two:
/// all but the closing quote for an ASCII text, and the closing quote too otherwise.
pub open spec fn spec_token(text: Seq<char>, float_reading: Option<u64>) -> Result<SpecToken, ()> {
    if spec_parse_i64(text) is Some {
        Ok(SpecToken::IntLiteral(spec_parse_i64(text)->0))
    } else if float_reading is Some {
        Ok(SpecToken::FloatLiteral(float_reading->0))
    } else if text.len() > 0 && text[0] == '"' {
        if text.last() == '"' && count_char(text, '"') == 2 {
            Ok(SpecToken::StringLiteral(
                if all_ascii(text) {
                    text.subrange(1, text.len() - 1)
                } else {
                    text.subrange(1, text.len() as int)
                },
            ))
        } else {
            Err(())
        }
    } else if text == seq!['n', 'i', 'l'] {
        Ok(SpecToken::Nil)
    } else {
        Ok(SpecToken::Symbol(text))
    }
}

/// A token, with its texts taken as character sequences.
pub ghost enum SpecToken {
    Nil,
    IntLiteral(i64),
    FloatLiteral(u64),
    StringLiteral(Seq<char>),
    Symbol(Seq<char>),
}

/// `r` is what reading `text` as a token gives, where `float_reading` is what `text`
/// reads as when parsed as an `f64`.
pub open spec fn token_parsed(
    text: Seq<char>,
    float_reading: Option<u64>,
    r: Result<Token, CantParseTokenError>,
) -> bool {
    match (r, spec_token(text, float_reading)) {
        (Ok(t), Ok(st)) => t.model() == st,
        (Err(e), Err(_)) => e.0@ == text,
        _ => false,
    }
}

/// `r` is what reading `text` as a token gives, for some reading of `text` as an `f64`.
pub open spec fn token_outcome(text: String, r: Result<Token, CantParseTokenError>) -> bool {
    exists|reading: Option<u64>| #[trigger] token_parsed(text@, reading, r)
}

/// The outcomes of reading a leaf as a token.
pub open spec fn token_outcomes() -> spec_fn(String, Result<Token, CantParseTokenError>) -> bool {
    |text: String, r: Result<Token, CantParseTokenError>| token_outcome(text, r)
}

impl Token {
    /// The token as character sequences.
    pub open spec fn model(self) -> SpecToken {
        match self {
            Token::Nil => SpecToken::Nil,
            Token::IntLiteral(i) => SpecToken::IntLiteral(i),
            Token::FloatLiteral(f) => SpecToken::FloatLiteral(f),
            Token::StringLiteral(s) => SpecToken::StringLiteral(s@),
            Token::Symbol(s) => SpecToken::Symbol(s@),
        }
    }

    /// Reads `text` as a token (see `spec_token`); `float_reading` is what `text` reads
    /// as when parsed as an `f64`, if it does.
    pub fn from_text(text: String, float_reading: Option<u64>) -> (r: Result<
        Token,
        CantParseTokenError,
    >)
        ensures
            token_parsed(text@, float_reading, r),
    {
        let chars = chars_of(text.as_str());
        if let Some(i) = parse_i64(&chars) {
            return Ok(Token::IntLiteral(i));
        }
        if let Some(f) = float_reading {
            return Ok(Token::FloatLiteral(f));
        }
        let n = chars.len();
        if n > 0 && chars[0] == '"' {
            let mut quotes: usize = 0;
            let mut ascii = true;
            let mut i: usize = 0;
            while i < n
                invariant
                    0 <= i <= n,
                    n == chars@.len(),
                    quotes == count_char(chars@.take(i as int), '"'),
                    quotes <= i,
                    ascii == all_ascii(chars@.take(i as int)),
                decreases n - i,
            {
                proof {
                    assert(chars@.take(i + 1).drop_last() =~= chars@.take(i as int));
                    assert(chars@.take(i + 1).last() == chars@[i as int]);
                }
                if chars[i] == '"' {
                    quotes = quotes + 1;
                }
                if (chars[i] as u32) >= 0x80 {
                    ascii = false;
                }
                proof {
                    if !ascii {
                        if (chars@[i as int] as u32) >= 0x80 {
                            assert(chars@.take(i + 1)[i as int] == chars@[i as int]);
                        }
                    } else {
                        assert forall|j: int| 0 <= j < i + 1 implies (#[trigger] chars@.take(i + 1)[j] as u32) < 0x80 by {
                            if j < i {
                                assert(chars@.take(i + 1)[j] == chars@.take(i as int)[j]);
                            }
                        }
                    }
                }
                i = i + 1;
            }
            proof {
                assert(chars@.take(n as int) =~= chars@);
            }
            if chars[n - 1] == '"' && quotes == 2 {
                let end = if ascii {
                    n - 1
                } else {
                    n
                };
                let body = string_from_chars(&chars.as_slice()[1..end]);
                proof {
                    assert(chars@.subrange(1, end as int) =~= chars@.subrange(1, end as int));
                }
                return Ok(Token::StringLiteral(body));
            } else {
                return Err(CantParseTokenError(text));
            }
        }
        proof {
            reveal_strlit("nil");
            assert("nil"@ =~= seq!['n', 'i', 'l']);
        }
        if str_equals(text.as_str(), "nil") {
            Ok(Token::Nil)
        } else {
            Ok(Token::Symbol(text))
        }
    }
}

/// The tokens of `tokens` one after the other.
pub open spec fn concatenation(tokens: Seq<Seq<char>>) -> Seq<char>
    decreases tokens.len(),
{
    if tokens.len() == 0 {
        Seq::empty()
    } else {
        concatenation(tokens.drop_last()) + tokens.last()
    }
}

/// `s` without its white space.
pub open spec fn without_white_space(s: Seq<char>) -> Seq<char>
    decreases s.len(),
{
    if s.len() == 0 {
        Seq::empty()
    } else if is_white_space(s.last()) {
        without_white_space(s.drop_last())
    } else {
        without_white_space(s.drop_last()).push(s.last())
    }
}

/// Whether `token` is a token of its own kind: a single parenthesis, or a non-empty run
/// of characters none of which is a parenthesis or white space.
pub open spec fn well_formed_token(token: Seq<char>) -> bool {
    ||| token == seq!['(']
    ||| token == seq![')']
    ||| token.len() > 0 && forall|k: int|
        0 <= k < token.len() ==> !is_paren(#[trigger] token[k]) && !is_white_space(token[k])
}

proof fn lemma_scan_tokens(s: Seq<char>)
    ensures
        concatenation(scan_tokens(s).0) + scan_tokens(s).1 == without_white_space(s),
        forall|k: int| 0 <= k < scan_tokens(s).0.len() ==> well_formed_token(#[trigger] scan_tokens(s).0[k]),
        forall|k: int|
            0 <= k < scan_tokens(s).1.len() ==> !is_paren(#[trigger] scan_tokens(s).1[k])
                && !is_white_space(scan_tokens(s).1[k]),
    decreases s.len(),
{
    if s.len() > 0 {
        lemma_scan_tokens(s.drop_last());
        let (tokens, word) = scan_tokens(s.drop_last());
        let c = s.last();
        let flushed = flush_word(tokens, word);
        if word.len() > 0 {
            assert(flushed.drop_last() =~= tokens);
            assert(concatenation(flushed) == concatenation(tokens) + word);
            assert forall|k: int| 0 <= k < flushed.len() implies well_formed_token(#[trigger] flushed[k]) by {
                if k == tokens.len() {
                    assert(flushed[k] == word);
                } else {
                    assert(flushed[k] == tokens[k]);
                }
            }
        } else {
            assert(word =~= Seq::<char>::empty());
            assert(concatenation(tokens) + word =~= concatenation(tokens));
        }
        if is_paren(c) {
            let next = flushed.push(seq![c]);
            assert(next.drop_last() =~= flushed);
            assert(concatenation(next) =~= concatenation(flushed) + seq![c]);
            assert(without_white_space(s) =~= without_white_space(s.drop_last()).push(c));
            assert(concatenation(flushed) =~= concatenation(tokens) + word);
            assert(concatenation(next) + Seq::<char>::empty() =~= without_white_space(s));
            assert forall|k: int| 0 <= k < next.len() implies well_formed_token(#[trigger] next[k]) by {
                if k < flushed.len() {
                    assert(next[k] == flushed[k]);
                }
            }
        } else if is_white_space(c) {
            assert(concatenation(flushed) =~= concatenation(tokens) + word);
            assert(concatenation(flushed) + Seq::<char>::empty() =~= without_white_space(s));
        } else {
            assert(without_white_space(s) =~= without_white_space(s.drop_last()).push(c));
            assert(concatenation(tokens) + word.push(c) =~= without_white_space(s));
            assert forall|k: int| 0 <= k < word.push(c).len() implies !is_paren(#[trigger] word.push(c)[k])
                && !is_white_space(word.push(c)[k]) by {
                if k < word.len() {
                    assert(word.push(c)[k] == word[k]);
                }
            }
        }
    }
}

/// What tokenizing does: the tokens, one after the other, are the text without its white
/// space, and each is a single parenthesis or a non-empty run of characters that are
/// neither parentheses nor white space.
pub proof fn law_tokens(s: Seq<char>)
    ensures
        concatenation(spec_tokenize(s)) == without_white_space(s),
        forall|k: int| 0 <= k < spec_tokenize(s).len() ==> well_formed_token(#[trigger] spec_tokenize(s)[k]),
{
    lemma_scan_tokens(s);
    let (tokens, word) = scan_tokens(s);
    let all = spec_tokenize(s);
    if word.len() > 0 {
        assert(all.drop_last() =~= tokens);
        assert forall|k: int| 0 <= k < all.len() implies well_formed_token(#[trigger] all[k]) by {
            if k == tokens.len() {
                assert(all[k] == word);
            } else {
                assert(all[k] == tokens[k]);
            }
        }
    } else {
        assert(word =~= Seq::<char>::empty());
        assert(concatenation(tokens) + word =~= concatenation(tokens));
    }
}

} // verus!
