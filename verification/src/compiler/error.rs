use vstd::prelude::*;
use crate::compiler::transformations::lifetimes::{InstructionTimestamp, LifetimeError};
use crate::compiler::transformations::register_allocation::RegisterAllocationError;
use crate::compiler::SSARegister;

verus! {

/// Why a block of the intermediate representation does not compile to bytecode.
#[derive(Clone, Copy, Debug)]
pub enum CompilationError {
    UsedBeforeCreation(SSARegister, InstructionTimestamp),
    OutputToExisting(SSARegister, Option<InstructionTimestamp>, InstructionTimestamp),
    ReplacingNonexistent(SSARegister, InstructionTimestamp),
    UsedAfterReplacement(SSARegister, InstructionTimestamp, SSARegister, InstructionTimestamp),
    /// The call at the timestamp is not followed by as many `CopyArgument` or
    /// `StealArgument` instructions as it passes arguments.
    MissingCallArguments(InstructionTimestamp),
    /// Runtime registers could not be allocated.
    RegisterAllocation(RegisterAllocationError),
}

/// The compilation error that a lifetime error amounts to: the same violation.
pub open spec fn lifetime_compilation_error(e: LifetimeError) -> CompilationError {
    match e {
        LifetimeError::UsedBeforeCreation(r, t) => CompilationError::UsedBeforeCreation(r, t),
        LifetimeError::OutputToExisting(r, c, t) => CompilationError::OutputToExisting(r, c, t),
        LifetimeError::ReplacingNonexistent(r, t) => CompilationError::ReplacingNonexistent(r, t),
        LifetimeError::UsedAfterReplacement(r, t, by, u) => CompilationError::UsedAfterReplacement(
            r,
            t,
            by,
            u,
        ),
    }
}

impl From<LifetimeError> for CompilationError {
    fn from(e: LifetimeError) -> (c: CompilationError) {
        match e {
            LifetimeError::UsedBeforeCreation(r, t) => CompilationError::UsedBeforeCreation(r, t),
            LifetimeError::OutputToExisting(r, c, t) => CompilationError::OutputToExisting(r, c, t),
            LifetimeError::ReplacingNonexistent(r, t) => CompilationError::ReplacingNonexistent(r, t),
            LifetimeError::UsedAfterReplacement(r, t, by, u) => CompilationError::UsedAfterReplacement(
                r,
                t,
                by,
                u,
            ),
        }
    }
}

impl vstd::std_specs::convert::FromSpecImpl<LifetimeError> for CompilationError {
    open spec fn obeys_from_spec() -> bool {
        true
    }

    open spec fn from_spec(e: LifetimeError) -> CompilationError {
        lifetime_compilation_error(e)
    }
}

} // verus!
