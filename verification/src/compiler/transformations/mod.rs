pub mod cleanup;
pub mod core_inlining;
pub mod lifetimes;
pub mod register_allocation;

use vstd::prelude::*;
use crate::blocks::{block_has_usages, block_translation, lemma_block_keeps_usages, GenericBlock};
use crate::compiler::error::{lifetime_compilation_error, CompilationError};
use crate::compiler::{SSABlock, SSAInstruction, SSAValue};
use crate::runtime::data::GenericValue;
use self::cleanup::{erase_unused_constants, erasing_outcomes, lemma_erasing_keeps_usages};
use self::core_inlining::{inline_core_fn_calls, inlining_outcomes, lemma_inlining_keeps_usages};
use self::lifetimes::{
    lemma_tracking_keeps_usages, timing_outcomes, track_register_lifetimes, LifetimeError, Lifetimes,
};
use self::register_allocation::{
    allocate_registers, allocation_outcomes, Block, Register, RegisterAllocationError,
};

verus! {

/// What the passes make of a block, one after the other: core function calls inlined,
/// unused constants erased, lifetimes timed, and runtime registers allocated (each
/// pass over every block, see `block_translation`); or the first error.
pub open spec fn lowered_to_bytecode(raw_ir: SSABlock<()>, r: Result<Block, CompilationError>) -> bool {
    exists|inlined: Result<SSABlock<Lifetimes>, CompilationError>|
        #[trigger] block_translation(
            raw_ir,
            0,
            inlined,
            inlining_outcomes::<()>(),
        ) && match inlined {
            Err(e) => r == Err::<Block, CompilationError>(e),
            Ok(inlined) => exists|erased: Result<SSABlock<()>, LifetimeError>|
                #[trigger] block_translation(
                    inlined,
                    0,
                    erased,
                    erasing_outcomes::<Lifetimes>(),
                ) && match erased {
                    Err(e) => r == Err::<Block, CompilationError>(lifetime_compilation_error(e)),
                    Ok(erased) => exists|timed: Result<SSABlock<Lifetimes>, LifetimeError>|
                        #[trigger] block_translation(
                            erased,
                            0,
                            timed,
                            timing_outcomes::<()>(),
                        ) && match timed {
                            Err(e) => r == Err::<Block, CompilationError>(
                                lifetime_compilation_error(e),
                            ),
                            Ok(timed) => exists|allocated: Result<Block, RegisterAllocationError>|
                                #[trigger] block_translation(
                                    timed,
                                    0,
                                    allocated,
                                    allocation_outcomes(),
                                ) && match allocated {
                                    Err(e) => r == Err::<Block, CompilationError>(
                                        CompilationError::RegisterAllocation(e),
                                    ),
                                    Ok(b) => r == Ok::<Block, CompilationError>(b),
                                },
                        },
                },
        }
}

/// Compiles a block of the intermediate representation to bytecode (see
/// `lowered_to_bytecode`).
pub fn raw_ir_to_bytecode(raw_ir: SSABlock<()>) -> (r: Result<Block, CompilationError>)
    requires
        block_has_usages(raw_ir),
    ensures
        lowered_to_bytecode(raw_ir, r),
{
    let ghost raw = raw_ir;
    let inlined = inline_core_fn_calls(raw_ir);
    let ghost inlined_outcome = inlined;
    let inlined = match inlined {
        Ok(b) => b,
        Err(e) => {
            return Err(e);
        },
    };
    proof {
        lemma_inlining_keeps_usages::<()>();
        lemma_block_keeps_usages(
            raw,
            0,
            inlined,
            inlining_outcomes::<()>(),
        );
    }
    let ghost inlined_block_value = inlined;
    let erased = erase_unused_constants(inlined);
    let ghost erased_outcome = erased;
    let erased = match erased {
        Ok(b) => b,
        Err(e) => {
            let r = Err(CompilationError::from(e));
            proof {
                assert(lowered_to_bytecode(raw, r));
            }
            return r;
        },
    };
    proof {
        lemma_erasing_keeps_usages::<Lifetimes>();
        lemma_block_keeps_usages(
            inlined_block_value,
            0,
            erased,
            erasing_outcomes::<Lifetimes>(),
        );
    }
    let ghost erased_block_value = erased;
    let timed = track_register_lifetimes(erased);
    let ghost timed_outcome = timed;
    let timed = match timed {
        Ok(b) => b,
        Err(e) => {
            let r = Err(CompilationError::from(e));
            proof {
                assert(lowered_to_bytecode(raw, r));
            }
            return r;
        },
    };
    proof {
        lemma_tracking_keeps_usages::<()>();
        lemma_block_keeps_usages(
            erased_block_value,
            0,
            timed,
            timing_outcomes::<()>(),
        );
    }
    let allocated = allocate_registers(timed);
    let r = match allocated {
        Ok(b) => Ok(b),
        Err(e) => Err(CompilationError::RegisterAllocation(e)),
    };
    proof {
        assert(lowered_to_bytecode(raw, r));
    }
    r
}

} // verus!
