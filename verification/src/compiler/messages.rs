use vstd::prelude::*;
use crate::compiler::ast_to_ir::ASTError;
use crate::compiler::error::CompilationError;
use crate::compiler::expressions::Expression;
use crate::compiler::parse::{CantParseTokenError, Token, Tree};
use crate::compiler::transformations::lifetimes::LifetimeError;
use crate::compiler::transformations::register_allocation::RegisterAllocationError;
use crate::runtime::description::{push_str, push_usize};
use crate::text::{decimal, string_from_chars};

verus! {

/// `Some(n)` or `None`, with `n` in decimal.
pub open spec fn optional_text(n: Option<u16>) -> Seq<char> {
    match n {
        Some(n) => "Some("@ + decimal(n as nat) + ")"@,
        None => "None"@,
    }
}

/// The message of a register-lifetime error of the given kind: a register used before it
/// was created (`0`), output to a register that exists (`1`), replacing a register that
/// does not exist (`2`), or using a register already replaced (any other kind).
pub open spec fn lifetime_message(
    kind: u8,
    register: usize,
    timestamp: u16,
    other: Option<u16>,
    replacing: usize,
) -> Seq<char> {
    if kind == 0 {
        "attempted to use register "@ + decimal(register as nat) + " before creation at timestamp "@
            + decimal(timestamp as nat)
    } else if kind == 1 {
        "attempted to output to register "@ + decimal(register as nat) + " at timestamp "@ + decimal(
            timestamp as nat,
        ) + ", when register was already created at timestamp "@ + optional_text(other)
    } else if kind == 2 {
        "attempting to replace register "@ + decimal(register as nat) + " at timestamp "@ + decimal(
            timestamp as nat,
        ) + ", but the register does not exist"@
    } else {
        "attempting to use register "@ + decimal(register as nat) + " at timestamp "@ + decimal(
            timestamp as nat,
        ) + ", but the register as already replaced by "@ + decimal(replacing as nat)
            + " at\n         timestamp "@ + match other {
            Some(t) => decimal(t as nat),
            None => Seq::empty(),
        }
    }
}

/// The message of a lifetime error.
pub open spec fn lifetime_error_text(e: LifetimeError) -> Seq<char> {
    match e {
        LifetimeError::UsedBeforeCreation(r, t) => lifetime_message(0, r, t, None, 0),
        LifetimeError::OutputToExisting(r, created, t) => lifetime_message(1, r, t, created, 0),
        LifetimeError::ReplacingNonexistent(r, t) => lifetime_message(2, r, t, None, 0),
        LifetimeError::UsedAfterReplacement(r, t, by, at) => lifetime_message(3, r, t, Some(at), by),
    }
}

/// The message of a register allocation error.
pub open spec fn allocation_error_text(e: RegisterAllocationError) -> Seq<char> {
    match e {
        RegisterAllocationError::MissingLifetime(r) => "no lifetime for register "@ + decimal(
            r as nat,
        ),
        RegisterAllocationError::UnassignedRegister(r, t) => "register "@ + decimal(r as nat)
            + " holds no runtime register at timestamp "@ + decimal(t as nat),
        RegisterAllocationError::NoFreeRegister(t) => "no free runtime register at timestamp "@
            + decimal(t as nat),
    }
}

/// The message of a compilation error.
pub open spec fn compilation_error_text(e: CompilationError) -> Seq<char> {
    match e {
        CompilationError::UsedBeforeCreation(r, t) => lifetime_message(0, r, t, None, 0),
        CompilationError::OutputToExisting(r, created, t) => lifetime_message(1, r, t, created, 0),
        CompilationError::ReplacingNonexistent(r, t) => lifetime_message(2, r, t, None, 0),
        CompilationError::UsedAfterReplacement(r, t, by, at) => lifetime_message(
            3,
            r,
            t,
            Some(at),
            by,
        ),
        CompilationError::MissingCallArguments(t) => "missing call arguments after the call at timestamp "@
            + decimal(t as nat),
        CompilationError::RegisterAllocation(e) => "register allocation failed: "@
            + allocation_error_text(e),
    }
}

/// Appends `Some(n)` or `None`.
fn push_optional(out: &mut Vec<char>, n: Option<u16>)
    ensures
        final(out)@ == old(out)@ + optional_text(n),
{
    match n {
        Some(n) => {
            push_str(out, "Some(");
            push_usize(out, n as usize);
            push_str(out, ")");
            proof {
                assert(final(out)@ =~= old(out)@ + optional_text(Some(n)));
            }
        },
        None => push_str(out, "None"),
    }
}

/// Appends the message of a register-lifetime error shared by lifetime and
/// compilation errors.
fn push_lifetime_message(
    out: &mut Vec<char>,
    kind: u8,
    register: usize,
    timestamp: u16,
    other: Option<u16>,
    replacing: usize,
)
    ensures
        final(out)@ == old(out)@ + lifetime_message(kind, register, timestamp, other, replacing),
{
    match kind {
        0 => {
            push_str(out, "attempted to use register ");
            push_usize(out, register);
            push_str(out, " before creation at timestamp ");
            push_usize(out, timestamp as usize);
        },
        1 => {
            push_str(out, "attempted to output to register ");
            push_usize(out, register);
            push_str(out, " at timestamp ");
            push_usize(out, timestamp as usize);
            push_str(out, ", when register was already created at timestamp ");
            push_optional(out, other);
        },
        2 => {
            push_str(out, "attempting to replace register ");
            push_usize(out, register);
            push_str(out, " at timestamp ");
            push_usize(out, timestamp as usize);
            push_str(out, ", but the register does not exist");
        },
        _ => {
            push_str(out, "attempting to use register ");
            push_usize(out, register);
            push_str(out, " at timestamp ");
            push_usize(out, timestamp as usize);
            push_str(out, ", but the register as already replaced by ");
            push_usize(out, replacing);
            push_str(out, " at\n         timestamp ");
            match other {
                Some(t) => push_usize(out, t as usize),
                None => {},
            }
        },
    }
}

impl LifetimeError {
    /// The message of the error (see `lifetime_error_text`).
    pub fn description(&self) -> (text: String)
        ensures
            text@ == lifetime_error_text(*self),
    {
        let mut out: Vec<char> = Vec::new();
        match *self {
            LifetimeError::UsedBeforeCreation(r, t) => push_lifetime_message(&mut out, 0, r, t, None, 0),
            LifetimeError::OutputToExisting(r, created, t) => push_lifetime_message(
                &mut out,
                1,
                r,
                t,
                created,
                0,
            ),
            LifetimeError::ReplacingNonexistent(r, t) => push_lifetime_message(&mut out, 2, r, t, None, 0),
            LifetimeError::UsedAfterReplacement(r, t, by, at) => push_lifetime_message(
                &mut out,
                3,
                r,
                t,
                Some(at),
                by,
            ),
        }
        string_from_chars(out.as_slice())
    }
}

impl CompilationError {
    /// The message of the error (see `compilation_error_text`).
    pub fn description(&self) -> (text: String)
        ensures
            text@ == compilation_error_text(*self),
    {
        let mut out: Vec<char> = Vec::new();
        match *self {
            CompilationError::UsedBeforeCreation(r, t) => push_lifetime_message(&mut out, 0, r, t, None, 0),
            CompilationError::OutputToExisting(r, created, t) => push_lifetime_message(
                &mut out,
                1,
                r,
                t,
                created,
                0,
            ),
            CompilationError::ReplacingNonexistent(r, t) => push_lifetime_message(&mut out, 2, r, t, None, 0),
            CompilationError::UsedAfterReplacement(r, t, by, at) => push_lifetime_message(
                &mut out,
                3,
                r,
                t,
                Some(at),
                by,
            ),
            CompilationError::MissingCallArguments(t) => {
                push_str(&mut out, "missing call arguments after the call at timestamp ");
                push_usize(&mut out, t as usize);
                proof {
                    assert(out@ =~= compilation_error_text(*self));
                }
            },
            CompilationError::RegisterAllocation(e) => {
                push_str(&mut out, "register allocation failed: ");
                match e {
                    RegisterAllocationError::MissingLifetime(r) => {
                        push_str(&mut out, "no lifetime for register ");
                        push_usize(&mut out, r);
                        proof {
                            assert(out@ =~= compilation_error_text(*self));
                        }
                    },
                    RegisterAllocationError::UnassignedRegister(r, t) => {
                        push_str(&mut out, "register ");
                        push_usize(&mut out, r);
                        push_str(&mut out, " holds no runtime register at timestamp ");
                        push_usize(&mut out, t as usize);
                        proof {
                            assert(out@ =~= compilation_error_text(*self));
                        }
                    },
                    RegisterAllocationError::NoFreeRegister(t) => {
                        push_str(&mut out, "no free runtime register at timestamp ");
                        push_usize(&mut out, t as usize);
                        proof {
                            assert(out@ =~= compilation_error_text(*self));
                        }
                    },
                }
            },
        }
        string_from_chars(out.as_slice())
    }
}

impl CantParseTokenError {
    /// The message of the error: `failed to parse token: "` and the token, and `"`.
    pub fn description(&self) -> (text: String)
        ensures
            text@ == "failed to parse token: \""@ + self.0@ + "\""@,
    {
        let mut out: Vec<char> = Vec::new();
        push_str(&mut out, "failed to parse token: \"");
        push_str(&mut out, self.0.as_str());
        push_str(&mut out, "\"");
        proof {
            assert(out@ =~= "failed to parse token: \""@ + self.0@ + "\""@);
        }
        string_from_chars(out.as_slice())
    }
}

/// What `{:?}` writes for a token tree: the text of the derived `Debug` of
/// `Tree<Token>`, which depends on the tree alone.
pub uninterp spec fn debug_tree_text(tree: Tree<Token>) -> Seq<char>;

/// What `{:?}` writes for an expression: the text of the derived `Debug` of
/// `Expression`, which depends on the expression alone.
pub uninterp spec fn debug_expression_text(expression: Expression) -> Seq<char>;

/// The text that `{:?}` writes for a token tree (std's `format!` with the derived
/// `Debug` of `Tree<Token>`): it is claimed to be `debug_tree_text` of the tree, that is,
/// to depend on the tree alone; what the text is, is not claimed.
#[verifier::external_body]
fn debug_text_of_tree(tree: &Tree<Token>) -> (text: String)
    ensures
        text@ == debug_tree_text(*tree),
{
    format!("{:?}", tree)
}

/// Appends what `{:?}` writes for a token tree that may be missing: `Some(` and the
/// tree's text and `)`, or `None`.
fn push_optional_tree(out: &mut Vec<char>, tree: &Option<Tree<Token>>)
    ensures
        final(out)@ == old(out)@ + optional_tree_text(*tree),
{
    match tree {
        Some(t) => {
            push_str(out, "Some(");
            let text = debug_text_of_tree(t);
            push_str(out, text.as_str());
            push_str(out, ")");
            proof {
                assert(final(out)@ =~= old(out)@ + optional_tree_text(*tree));
            }
        },
        None => push_str(out, "None"),
    }
}

/// The text that `{:?}` writes for an expression (std's `format!` with the derived
/// `Debug` of `Expression`): it is claimed to be `debug_expression_text` of the
/// expression, that is, to depend on the expression alone; what the text is, is not
/// claimed.
#[verifier::external_body]
fn debug_text_of_expression(expression: &Expression) -> (text: String)
    ensures
        text@ == debug_expression_text(*expression),
{
    format!("{:?}", expression)
}

/// What `{:?}` writes for a token tree that may be missing: `Some(` and the tree's text
/// and `)`, or `None`.
pub open spec fn optional_tree_text(tree: Option<Tree<Token>>) -> Seq<char> {
    match tree {
        Some(t) => "Some("@ + debug_tree_text(t) + ")"@,
        None => "None"@,
    }
}

/// The message of a compile error: the plain message (see `plain_ast_error_text`), or
/// for a malformed function definition a fixed text followed by what `{:?}` writes for
/// the offending tree or expression.
pub open spec fn ast_error_text(e: ASTError) -> Seq<char> {
    match e {
        ASTError::InvalidFunctionDefintionArgumentList(t)
        | ASTError::InvalidFunctionDefintionArgumentNameList(t) => "invalid argument list for function definition: "@
            + optional_tree_text(t),
        ASTError::InvalidFunctionDefintionArgument(t) => "invalid argument name for function definition: "@
            + debug_tree_text(t),
        ASTError::InvalidFunctionDefintionArgumentName(x) => "invalid argument name for function definition: "@
            + debug_expression_text(x),
        _ => plain_ast_error_text(e),
    }
}

/// The message of a compile error, where it holds no tree or expression: the parse
/// error's message, or a fixed text with the unbound symbol's name; empty for the others.
pub open spec fn plain_ast_error_text(e: ASTError) -> Seq<char> {
    match e {
        ASTError::Parse(p) => "failed to parse token: \""@ + p.0@ + "\""@,
        ASTError::EmptyList => "found empty when parsing AST"@,
        ASTError::FunctionDefinitionMissingBody => "no body for function definition"@,
        ASTError::UnboundSymbol(name) => "encountered unbound symbol "@ + name@,
        ASTError::MultipleExpressionsInQuote => "quote must hold exactly one expression"@,
        _ => Seq::empty(),
    }
}

impl ASTError {
    /// The message of the error (see `ast_error_text`): an error that holds a tree or an
    /// expression names what it is about and writes it as `{:?}` does.
    pub fn description(&self) -> (text: String)
        ensures
            text@ == ast_error_text(*self),
    {
        let mut out: Vec<char> = Vec::new();
        match self {
            ASTError::Parse(e) => {
                let message = e.description();
                push_str(&mut out, message.as_str());
            },
            ASTError::EmptyList => push_str(&mut out, "found empty when parsing AST"),
            ASTError::InvalidFunctionDefintionArgumentList(arg_list) => {
                push_str(&mut out, "invalid argument list for function definition: ");
                push_optional_tree(&mut out, arg_list);
            },
            ASTError::InvalidFunctionDefintionArgumentNameList(arg_list) => {
                push_str(&mut out, "invalid argument list for function definition: ");
                push_optional_tree(&mut out, arg_list);
            },
            ASTError::InvalidFunctionDefintionArgument(arg) => {
                push_str(&mut out, "invalid argument name for function definition: ");
                let tree_text = debug_text_of_tree(arg);
                push_str(&mut out, tree_text.as_str());
            },
            ASTError::InvalidFunctionDefintionArgumentName(arg) => {
                push_str(&mut out, "invalid argument name for function definition: ");
                let expression_text = debug_text_of_expression(arg);
                push_str(&mut out, expression_text.as_str());
            },
            ASTError::FunctionDefinitionMissingBody => push_str(
                &mut out,
                "no body for function definition",
            ),
            ASTError::UnboundSymbol(name) => {
                push_str(&mut out, "encountered unbound symbol ");
                push_str(&mut out, name.as_str());
            },
            ASTError::MultipleExpressionsInQuote => push_str(
                &mut out,
                "quote must hold exactly one expression",
            ),
        }
        proof {
            assert(out@ =~= ast_error_text(*self));
        }
        string_from_chars(out.as_slice())
    }
}

} // verus!
