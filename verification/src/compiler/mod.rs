pub mod ast_to_ir;
pub mod error;
pub mod expression_laws;
pub mod expressions;
pub mod messages;
pub mod parse;
pub mod transformations;

use vstd::prelude::*;
use crate::blocks::GenericBlock;
use crate::instructions::Instruction;
use crate::runtime::data::GenericValue;

verus! {

/// A virtual register of the intermediate representation, written once.
pub type SSARegister = usize;

/// An instruction of the intermediate representation: a replaced register is a pair of
/// the register read and the register that takes the result.
pub type SSAInstruction = Instruction<SSARegister, SSARegister, (SSARegister, SSARegister)>;

/// A value held by a block of the intermediate representation.
pub type SSAValue<M> = GenericValue<SSARegister, SSARegister, (SSARegister, SSARegister), M>;

/// A block of the intermediate representation.
pub type SSABlock<M> = GenericBlock<SSARegister, SSARegister, (SSARegister, SSARegister), M>;

impl GenericBlock<SSARegister, SSARegister, (SSARegister, SSARegister), ()> {
    /// The block of intermediate `instructions` with `constants`, and no metadata.
    pub fn new(instructions: Vec<SSAInstruction>, constants: Vec<SSAValue<()>>) -> (block: SSABlock<
        (),
    >)
        ensures
            block.instructions@ == instructions@,
            block.constants@ == constants@,
    {
        GenericBlock::new_with_metadata(instructions, constants, ())
    }
}

} // verus!
