use vstd::prelude::*;
use crate::runtime::data::Value;

verus! {

/// What can go wrong while a program runs.
#[derive(Debug)]
pub enum RuntimeError {
    ArgumentNotNum,
    ArgumentNotInt,
    ArgumentNotList,
    NotYetImplemented,
    CantCastToNum(Value),
    CantApply(Value),
    InvalidArity,
    CantCreateCoroutine(String),
    DeadCoroutine,
    CoroutineAlreadyRunning,
    IsntCoroutine,
    /// An external function failed; the handle identifies its error to the host.
    ExternalError(u64),
    /// A register, or the start of a new frame, lies beyond the end of the evaluator's
    /// fixed-size stack.
    StackOverflow,
    /// The instructions do not form a program that can run: an argument instruction
    /// outside a call, a jump or a conditional that runs past the end of its block, a
    /// function that ends without returning, a recursive call outside a function, a yield
    /// outside a coroutine, an application to something that is not a list, or a lookup
    /// of an unbound global.
    MalformedProgram,
    /// The program ran for `u64::MAX` instructions without ending.
    StepLimitReached,
}

/// The result of an evaluation step.
pub type RuntimeResult<T> = Result<T, RuntimeError>;

} // verus!
