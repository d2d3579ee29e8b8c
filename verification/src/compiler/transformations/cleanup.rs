use vstd::prelude::*;
use crate::blocks::{
    all_have_usages, block_has_usages, block_outcomes, block_translation, constants_in_range,
    lemma_block_translation_weaken, outcome_keeps_usages, values_have_usages, GenericBlock,
};
use crate::compiler::transformations::lifetimes::{
    calculate_register_lifetimes, spec_lifetime_of, spec_register_lifetimes, LifetimeError,
    SpecLifetime,
};
use crate::compiler::{SSABlock, SSAInstruction, SSARegister, SSAValue};
use crate::instructions::Instruction;

verus! {

/// Whether the lifetimes show a read of register `r`.
pub open spec fn register_is_used(ls: Seq<(SSARegister, SpecLifetime)>, r: SSARegister) -> bool {
    match spec_lifetime_of(ls, r) {
        Some(l) => l.usages.len() > 0,
        None => false,
    }
}

/// The first `n` instructions with the `Const` instructions whose register nothing reads
/// left out, each remaining `Const` renumbered to load the next constant; and the
/// constants that those load, in order.
pub open spec fn erase_prefix<M>(
    instructions: Seq<SSAInstruction>,
    constants: Seq<SSAValue<M>>,
    ls: Seq<(SSARegister, SpecLifetime)>,
    n: int,
) -> (Seq<SSAInstruction>, Seq<SSAValue<M>>)
    decreases n,
{
    if n <= 0 {
        (Seq::empty(), Seq::empty())
    } else {
        let (kept, kept_constants) = erase_prefix(instructions, constants, ls, n - 1);
        match instructions[n - 1] {
            Instruction::Const(target, index) => if register_is_used(ls, target) {
                (
                    kept.push(Instruction::Const(target, kept_constants.len() as u16)),
                    kept_constants.push(constants[index as int]),
                )
            } else {
                (kept, kept_constants)
            },
            other => (kept.push(other), kept_constants),
        }
    }
}

/// What erasing unused constants makes of one block: its instructions without the
/// `Const` instructions that load a register nothing reads, and only the constants that
/// the others load, renumbered in order; or the violation that the block's register
/// lifetimes show.
pub open spec fn erased_block<M>(
    preallocated: u8,
    instructions: Seq<SSAInstruction>,
    constants: Seq<SSAValue<()>>,
    metadata: M,
    r: Result<SSABlock<()>, LifetimeError>,
) -> bool {
    match spec_register_lifetimes(preallocated, instructions) {
        Ok(ls) => {
            let (kept, kept_constants) = erase_prefix(
                instructions,
                constants,
                ls,
                instructions.len() as int,
            );
            r is Ok && r->Ok_0.instructions@ == kept && r->Ok_0.constants@ == kept_constants
        },
        Err(e) => r == Err::<SSABlock<()>, LifetimeError>(e),
    }
}

/// The outcomes of erasing the unused constants of one block.
pub open spec fn erasing_outcomes<M>() -> spec_fn(u8, Seq<SSAInstruction>, Seq<SSAValue<()>>, M, Result<SSABlock<()>, LifetimeError>) -> bool {
    |p: u8, i: Seq<SSAInstruction>, c: Seq<SSAValue<()>>, m: M, r: Result<SSABlock<()>, LifetimeError>| erased_block(p, i, c, m, r)
}

/// Removes, from every block (the given one, and those of the functions among its
/// constants), the constants that are loaded into registers nothing reads (see
/// `erased_block`).
pub fn erase_unused_constants<M>(block: SSABlock<M>) -> (r: Result<SSABlock<()>, LifetimeError>)
    requires
        block_has_usages(block),
    ensures
        block_translation(
            block,
            0,
            r,
            erasing_outcomes::<M>(),
        ),
{
    let translator = |
        preallocated_registers: u8,
        instructions: Vec<SSAInstruction>,
        constants: Vec<SSAValue<()>>,
        metadata: &M,
    | -> (r: Result<SSABlock<()>, LifetimeError>)
        requires
            all_have_usages(instructions@),
            constants_in_range(instructions@, constants@.len()),
        ensures
            erased_block(preallocated_registers, instructions@, constants@, *metadata, r),
        {
            let lifetimes = match calculate_register_lifetimes(preallocated_registers, &instructions) {
                Ok(l) => l,
                Err(e) => {
                    return Err(e);
                },
            };
            let mut filtered_instructions: Vec<SSAInstruction> = Vec::new();
            let mut filtered_constants: Vec<SSAValue<()>> = Vec::new();
            let mut i: usize = 0;
            while i < instructions.len()
                invariant
                    0 <= i <= instructions@.len(),
                    constants_in_range(instructions@, constants@.len()),
                    erase_prefix(instructions@, constants@, lifetimes@, i as int) == (
                        filtered_instructions@,
                        filtered_constants@,
                    ),
                decreases instructions@.len() - i,
            {
                let instruction = instructions[i];
                match instruction {
                    Instruction::Const(target, const_index) => {
                        let used = match lifetimes.get(target) {
                            Some(l) => l.is_used(),
                            None => false,
                        };
                        if used {
                            proof {
                                assert(instructions@[i as int] matches Instruction::Const(_, index) ==> index < constants@.len());
                            }
                            filtered_instructions.push(
                                Instruction::Const(target, filtered_constants.len() as u16),
                            );
                            filtered_constants.push(constants[const_index as usize].duplicate());
                        }
                    },
                    other => {
                        filtered_instructions.push(other);
                    },
                }
                i = i + 1;
            }
            Ok(GenericBlock::new_with_metadata(filtered_instructions, filtered_constants, ()))
        };
    let r = block.translate(&translator);
    proof {
        lemma_block_translation_weaken(
            block,
            0,
            r,
            block_outcomes(translator),
            erasing_outcomes::<M>(),
        );
    }
    r
}

proof fn lemma_erase_prefix_keeps_usages<M>(
    instructions: Seq<SSAInstruction>,
    constants: Seq<SSAValue<M>>,
    ls: Seq<(SSARegister, SpecLifetime)>,
    n: int,
)
    requires
        0 <= n <= instructions.len(),
        all_have_usages(instructions),
        constants_in_range(instructions, constants.len()),
        values_have_usages(constants),
    ensures
        all_have_usages(erase_prefix(instructions, constants, ls, n).0),
        constants_in_range(
            erase_prefix(instructions, constants, ls, n).0,
            erase_prefix(instructions, constants, ls, n).1.len(),
        ),
        values_have_usages(erase_prefix(instructions, constants, ls, n).1),
    decreases n,
{
    if n > 0 {
        lemma_erase_prefix_keeps_usages(instructions, constants, ls, n - 1);
        assert(instructions[n - 1].has_usages());
        assert(instructions[n - 1] matches Instruction::Const(_, index) ==> index < constants.len());
    }
}

/// Erasing unused constants keeps blocks well-formed.
pub proof fn lemma_erasing_keeps_usages<M>()
    ensures
        outcome_keeps_usages(
            erasing_outcomes::<M>(),
        ),
{
    assert forall|p: u8, i: Seq<SSAInstruction>, c: Seq<SSAValue<()>>, m: M, b: SSABlock<()>|
        erased_block(p, i, c, m, Ok(b)) && all_have_usages(i) && constants_in_range(i, c.len())
            && values_have_usages(c) implies block_has_usages(b) by {
        let ls = spec_register_lifetimes(p, i)->Ok_0;
        lemma_erase_prefix_keeps_usages(i, c, ls, i.len() as int);
    }
}

} // verus!
