pub mod blocks;
pub mod compiler;
pub mod instructions;
pub mod runtime;
pub mod sharing;
pub mod text;

use vstd::prelude::*;
use crate::blocks::{block_has_usages, block_usages_known};
use crate::compiler::ast_to_ir::{expression_ast_to_ir, lowered, ASTError};
use crate::compiler::error::CompilationError;
use crate::compiler::parse::{
    parse_sexp, parses, sexp_parses, spec_parse_sexp, token_outcomes, tree_model, tree_translation,
    Token, Tree,
};
use crate::compiler::transformations::raw_ir_to_bytecode;
use crate::compiler::transformations::lowered_to_bytecode;
use crate::compiler::transformations::register_allocation::Block;
use crate::compiler::SSABlock;
use crate::runtime::data::Value;
use crate::runtime::description::{describe, full_description, with_point};
use crate::runtime::error::RuntimeError;
use crate::runtime::evaluation::{evaluation_outcome, is_initial_state, EvaluationState};
use crate::runtime::host::Host;

verus! {

/// What stops an s-expression from giving a result.
#[derive(Debug)]
pub enum SexpError {
    /// The text does not parse: a closing parenthesis closes nothing, or the innermost
    /// list open at the end is empty.
    Unparsable,
    /// The expression does not compile.
    Ast(ASTError),
    /// The compiled code holds an instruction that does not report its registers.
    UnknownUsages,
    /// The compiled code does not lower to bytecode.
    Compilation(CompilationError),
    /// The program fails while it runs.
    Runtime(RuntimeError),
}

/// `r` is what running the compiled `block` gives: it must report its registers, lower to
/// bytecode, and run from the start (see `evaluation_outcome`) to a value, whose
/// description is the text (`nil` where there is none), or to an error.
pub open spec fn block_run(block: SSABlock<()>, r: Result<String, SexpError>) -> bool {
    match r {
        Err(SexpError::UnknownUsages) => !block_has_usages(block),
        Err(SexpError::Compilation(e)) => block_has_usages(block) && lowered_to_bytecode(
            block,
            Err(e),
        ),
        Err(SexpError::Runtime(e)) => {
            &&& block_has_usages(block)
            &&& exists|bytecode: Block, start: EvaluationState, end: EvaluationState|
                #![trigger lowered_to_bytecode(block, Ok(bytecode)), evaluation_outcome(start, end, Err(e))]
                {
                    &&& lowered_to_bytecode(block, Ok(bytecode))
                    &&& is_initial_state(start, bytecode)
                    &&& evaluation_outcome(start, end, Err(e))
                }
        },
        Ok(text) => {
            &&& block_has_usages(block)
            &&& exists|bytecode: Block, start: EvaluationState, end: EvaluationState, result: Option<Value>|
                #![trigger lowered_to_bytecode(block, Ok(bytecode)), evaluation_outcome(start, end, Ok(result))]
                {
                    &&& lowered_to_bytecode(block, Ok(bytecode))
                    &&& is_initial_state(start, bytecode)
                    &&& evaluation_outcome(start, end, Ok(result))
                    &&& match result {
                        None => text@ == "nil"@,
                        Some(v) => {
                            &&& full_description(v, end.coroutines@) matches Some(t) ==> text@ == t
                            &&& v is Number && v->Number_0 is Float ==> exists|h: Seq<char>|
                                text@ == #[trigger] with_point(h)
                        },
                    }
                }
        },
        _ => false,
    }
}

/// `r` is what compiling and running the parsed `tree` gives: each leaf is read as a
/// token (a leaf that is none gives its error), the token tree is compiled (see
/// `lowered`), and the block is run (see `block_run`).
pub open spec fn tree_run(tree: Tree<String>, r: Result<String, SexpError>) -> bool {
    match r {
        Err(SexpError::Unparsable) => false,
        Err(SexpError::Ast(ASTError::Parse(e))) => tree_translation(tree, Err(e), token_outcomes()),
        _ => exists|tokens: Tree<Token>|
            #![trigger tree_translation(tree, Ok(tokens), token_outcomes())]
            {
                &&& tree_translation(tree, Ok(tokens), token_outcomes())
                &&& match r {
                    Err(SexpError::Ast(e)) => lowered(tokens, Err(e)),
                    _ => exists|block: SSABlock<()>|
                        #![trigger lowered(tokens, Ok(block))]
                        lowered(tokens, Ok(block)) && block_run(block, r),
                }
            },
    }
}

/// Parses, compiles and runs the s-expression `sexp`: the description of the value it
/// returns, or `nil` where it returns none.
#[verifier::rlimit(50)]
#[verifier::spinoff_prover]
pub fn evaluate_pidgin_sexp<H: Host>(sexp: String, host: &H) -> (r: Result<String, SexpError>)
    ensures
        !parses(sexp@) <==> r matches Err(SexpError::Unparsable),
        parses(sexp@) ==> exists|tree: Tree<String>|
            #![trigger tree_model(tree, spec_parse_sexp(sexp@))]
            tree_model(tree, spec_parse_sexp(sexp@)) && tree_run(tree, r),
{
    if !sexp_parses(sexp.as_str()) {
        return Err(SexpError::Unparsable);
    }
    let tree = parse_sexp(sexp.as_str());
    let ghost parsed = tree;
    let compiled = expression_ast_to_ir(tree, host);
    let ghost compiled_outcome = compiled;
    let raw_ir = match compiled {
        Ok(block) => block,
        Err(e) => {
            return Err(SexpError::Ast(e));
        },
    };
    let ghost raw = raw_ir;
    if !block_usages_known(&raw_ir) {
        return Err(SexpError::UnknownUsages);
    }
    let lowered_outcome = raw_ir_to_bytecode(raw_ir);
    let bytecode = match lowered_outcome {
        Ok(block) => block,
        Err(e) => {
            return Err(SexpError::Compilation(e));
        },
    };
    let ghost code = bytecode;
    let mut state = EvaluationState::new(bytecode);
    let ghost start = state;
    let outcome = state.evaluate(host);
    let ghost end = state;
    match outcome {
        Ok(Some(value)) => {
            let text = describe(&value, &state.coroutines, host);
            proof {
                assert(evaluation_outcome(start, end, Ok(Some(value))));
                assert(block_run(raw, Ok::<String, SexpError>(text)));
            }
            Ok(text)
        },
        Ok(None) => {
            let text = "nil".to_owned();
            proof {
                assert(evaluation_outcome(start, end, Ok(None)));
                assert(block_run(raw, Ok::<String, SexpError>(text)));
            }
            Ok(text)
        },
        Err(e) => {
            proof {
                assert(block_run(raw, Err::<String, SexpError>(SexpError::Runtime(e))));
            }
            Err(SexpError::Runtime(e))
        },
    }
}

} // verus!
