use vstd::prelude::*;
use crate::blocks::{
    all_have_usages, block_has_usages, block_outcomes, block_translation,
    lemma_block_translation_weaken, outcome_keeps_usages, GenericBlock,
};
use crate::compiler::ast_to_ir::{
    first_index_of, lemma_first_index_absent, lemma_first_index_of, lemma_first_index_of_bounds,
};
use crate::compiler::{SSABlock, SSAInstruction, SSARegister, SSAValue};
use crate::instructions::Instruction;

verus! {

/// The position of an instruction in its block.
pub type InstructionTimestamp = u16;

/// A way in which a block's instructions break the rule that every register is written
/// once, before it is read, and is not read once it has been replaced.
#[derive(Clone, Copy, Debug)]
pub enum LifetimeError {
    /// The register was read at the timestamp before anything wrote it.
    UsedBeforeCreation(SSARegister, InstructionTimestamp),
    /// The register was written at the last timestamp, when it had already been created
    /// (at the given timestamp, or before the block started if none).
    OutputToExisting(SSARegister, Option<InstructionTimestamp>, InstructionTimestamp),
    /// The register was to be replaced at the timestamp, but nothing had created it.
    ReplacingNonexistent(SSARegister, InstructionTimestamp),
    /// The first register was used at the first timestamp after the second register had
    /// replaced it, at the second timestamp (its last use).
    UsedAfterReplacement(SSARegister, InstructionTimestamp, SSARegister, InstructionTimestamp),
}

/// When a register is created and used.
#[derive(Clone, Debug)]
pub struct RegisterLifetime {
    /// The timestamp of the instruction that writes it, or `None` for a register that
    /// holds an argument when the block starts.
    pub creation: Option<InstructionTimestamp>,
    /// The timestamps of the instructions that read it, in order.
    pub usages: Vec<InstructionTimestamp>,
    /// The register whose value it takes over, if it was created by a replacement.
    pub replacing: Option<SSARegister>,
    /// The register that took its value over, if any.
    pub replaced_by: Option<SSARegister>,
}

/// A register lifetime, with its usages as a sequence.
pub ghost struct SpecLifetime {
    pub creation: Option<InstructionTimestamp>,
    pub usages: Seq<InstructionTimestamp>,
    pub replacing: Option<SSARegister>,
    pub replaced_by: Option<SSARegister>,
}

impl RegisterLifetime {
    /// The lifetime with its usages as a sequence.
    pub open spec fn model(self) -> SpecLifetime {
        SpecLifetime {
            creation: self.creation,
            usages: self.usages@,
            replacing: self.replacing,
            replaced_by: self.replaced_by,
        }
    }

    /// The lifetime of a register that holds an argument when the block starts.
    pub fn new_preexisting() -> (l: Self)
        ensures
            l.model() == preexisting_lifetime(),
    {
        RegisterLifetime { creation: None, usages: Vec::new(), replacing: None, replaced_by: None }
    }

    /// The lifetime of a register written at `creation_timestamp`.
    pub fn new(creation_timestamp: InstructionTimestamp) -> (l: Self)
        ensures
            l.model() == created_lifetime(creation_timestamp, None),
    {
        RegisterLifetime {
            creation: Some(creation_timestamp),
            usages: Vec::new(),
            replacing: None,
            replaced_by: None,
        }
    }

    /// The lifetime of a register that takes over the value of `replacing` at
    /// `creation_timestamp`.
    pub fn new_replacing(creation_timestamp: InstructionTimestamp, replacing: SSARegister) -> (l:
        Self)
        ensures
            l.model() == created_lifetime(creation_timestamp, Some(replacing)),
    {
        RegisterLifetime {
            creation: Some(creation_timestamp),
            usages: Vec::new(),
            replacing: Some(replacing),
            replaced_by: None,
        }
    }

    /// The timestamp of the last read, if any.
    pub fn last_usage(&self) -> (t: Option<InstructionTimestamp>)
        ensures
            t == spec_last_usage(self.model()),
    {
        if self.usages.len() == 0 {
            None
        } else {
            Some(self.usages[self.usages.len() - 1])
        }
    }

    /// Whether anything reads the register.
    pub fn is_used(&self) -> (b: bool)
        ensures
            b == (self.usages@.len() > 0),
    {
        self.usages.len() != 0
    }
}

/// The lifetime of a register that holds an argument when the block starts.
pub open spec fn preexisting_lifetime() -> SpecLifetime {
    SpecLifetime { creation: None, usages: Seq::empty(), replacing: None, replaced_by: None }
}

/// The lifetime of a register just written at `t`, possibly by replacing another.
pub open spec fn created_lifetime(t: InstructionTimestamp, replacing: Option<SSARegister>) -> SpecLifetime {
    SpecLifetime { creation: Some(t), usages: Seq::empty(), replacing, replaced_by: None }
}

/// The timestamp of the last read, if any.
pub open spec fn spec_last_usage(l: SpecLifetime) -> Option<InstructionTimestamp> {
    if l.usages.len() > 0 {
        Some(l.usages.last())
    } else {
        None
    }
}

/// The lifetimes of a block's registers, in the order in which the registers appeared.
#[derive(Clone, Debug)]
pub struct Lifetimes {
    pub entries: Vec<(SSARegister, RegisterLifetime)>,
}

impl View for Lifetimes {
    type V = Seq<(SSARegister, SpecLifetime)>;

    open spec fn view(&self) -> Seq<(SSARegister, SpecLifetime)> {
        self.entries@.map_values(|p: (SSARegister, RegisterLifetime)| (p.0, p.1.model()))
    }
}

/// The position of register `r` among the lifetimes, or -1.
pub open spec fn lifetime_index(ls: Seq<(SSARegister, SpecLifetime)>, r: SSARegister) -> int {
    first_index_of(ls.map_values(|p: (SSARegister, SpecLifetime)| p.0), r)
}

/// The lifetime of register `r`, if it has one.
pub open spec fn spec_lifetime_of(ls: Seq<(SSARegister, SpecLifetime)>, r: SSARegister) -> Option<
    SpecLifetime,
> {
    let i = lifetime_index(ls, r);
    if 0 <= i < ls.len() {
        Some(ls[i].1)
    } else {
        None
    }
}

/// Records that register `r` is read at `t`: it must exist and not have been replaced.
pub open spec fn record_input(ls: Seq<(SSARegister, SpecLifetime)>, r: SSARegister, t: InstructionTimestamp) -> Result<
    Seq<(SSARegister, SpecLifetime)>,
    LifetimeError,
> {
    let i = lifetime_index(ls, r);
    if i < 0 {
        Err(LifetimeError::UsedBeforeCreation(r, t))
    } else {
        let l = ls[i].1;
        match l.replaced_by {
            Some(by) => Err(LifetimeError::UsedAfterReplacement(r, t, by, spec_last_usage(l)->0)),
            None => Ok(ls.update(i, (r, SpecLifetime { usages: l.usages.push(t), ..l }))),
        }
    }
}

/// Records that register `r` is written at `t`: it must not exist yet.
pub open spec fn record_output(ls: Seq<(SSARegister, SpecLifetime)>, r: SSARegister, t: InstructionTimestamp) -> Result<
    Seq<(SSARegister, SpecLifetime)>,
    LifetimeError,
> {
    let i = lifetime_index(ls, r);
    if i >= 0 {
        Err(LifetimeError::OutputToExisting(r, ls[i].1.creation, t))
    } else {
        Ok(ls.push((r, created_lifetime(t, None))))
    }
}

/// Records that register `from` is read and replaced by the new register `to` at `t`.
pub open spec fn record_replacement(
    ls: Seq<(SSARegister, SpecLifetime)>,
    from: SSARegister,
    to: SSARegister,
    t: InstructionTimestamp,
) -> Result<Seq<(SSARegister, SpecLifetime)>, LifetimeError> {
    let i = lifetime_index(ls, from);
    if i < 0 {
        Err(LifetimeError::ReplacingNonexistent(from, t))
    } else {
        let l = ls[i].1;
        match l.replaced_by {
            Some(by) => Err(LifetimeError::UsedAfterReplacement(from, t, by, spec_last_usage(l)->0)),
            None => {
                let ls1 = ls.update(
                    i,
                    (from, SpecLifetime { usages: l.usages.push(t), replaced_by: Some(to), ..l }),
                );
                let j = lifetime_index(ls1, to);
                if j >= 0 {
                    Err(LifetimeError::OutputToExisting(to, ls1[j].1.creation, t))
                } else {
                    Ok(ls1.push((to, created_lifetime(t, Some(from)))))
                }
            },
        }
    }
}

/// Records the reads of `registers` at `t`, in order.
pub open spec fn record_inputs(
    ls: Seq<(SSARegister, SpecLifetime)>,
    registers: Seq<SSARegister>,
    t: InstructionTimestamp,
) -> Result<Seq<(SSARegister, SpecLifetime)>, LifetimeError>
    decreases registers.len(),
{
    if registers.len() == 0 {
        Ok(ls)
    } else {
        match record_inputs(ls, registers.drop_last(), t) {
            Ok(l) => record_input(l, registers.last(), t),
            Err(e) => Err(e),
        }
    }
}

/// Records the writes of `registers` at `t`, in order.
pub open spec fn record_outputs(
    ls: Seq<(SSARegister, SpecLifetime)>,
    registers: Seq<SSARegister>,
    t: InstructionTimestamp,
) -> Result<Seq<(SSARegister, SpecLifetime)>, LifetimeError>
    decreases registers.len(),
{
    if registers.len() == 0 {
        Ok(ls)
    } else {
        match record_outputs(ls, registers.drop_last(), t) {
            Ok(l) => record_output(l, registers.last(), t),
            Err(e) => Err(e),
        }
    }
}

/// Records the replacements of `pairs` at `t`, in order.
pub open spec fn record_replacements(
    ls: Seq<(SSARegister, SpecLifetime)>,
    pairs: Seq<(SSARegister, SSARegister)>,
    t: InstructionTimestamp,
) -> Result<Seq<(SSARegister, SpecLifetime)>, LifetimeError>
    decreases pairs.len(),
{
    if pairs.len() == 0 {
        Ok(ls)
    } else {
        match record_replacements(ls, pairs.drop_last(), t) {
            Ok(l) => record_replacement(l, pairs.last().0, pairs.last().1, t),
            Err(e) => Err(e),
        }
    }
}

/// Records what `instruction` at `t` reads, then what it writes, then what it replaces.
pub open spec fn record_instruction(
    ls: Seq<(SSARegister, SpecLifetime)>,
    instruction: SSAInstruction,
    t: InstructionTimestamp,
) -> Result<Seq<(SSARegister, SpecLifetime)>, LifetimeError> {
    match record_inputs(ls, instruction.spec_inputs(), t) {
        Err(e) => Err(e),
        Ok(l1) => match record_outputs(l1, instruction.spec_outputs(), t) {
            Err(e) => Err(e),
            Ok(l2) => record_replacements(l2, instruction.spec_replacements(), t),
        },
    }
}

/// The lifetimes of the `preallocated` argument registers when a block starts.
pub open spec fn initial_lifetimes(preallocated: u8) -> Seq<(SSARegister, SpecLifetime)> {
    Seq::new(preallocated as nat, |i: int| (i as SSARegister, preexisting_lifetime()))
}

/// The lifetimes after the first `n` instructions, each recorded at its position
/// (wrapped to 16 bits), or the first violation.
pub open spec fn lifetimes_after(
    preallocated: u8,
    instructions: Seq<SSAInstruction>,
    n: int,
) -> Result<Seq<(SSARegister, SpecLifetime)>, LifetimeError>
    decreases n,
{
    if n <= 0 {
        Ok(initial_lifetimes(preallocated))
    } else {
        match lifetimes_after(preallocated, instructions, n - 1) {
            Ok(ls) => record_instruction(ls, instructions[n - 1], (n - 1) as u16),
            Err(e) => Err(e),
        }
    }
}

/// The lifetimes of the registers of a block whose first `preallocated` registers hold
/// arguments, or the first violation of the rule that a register is written once, before
/// it is read, and not read after it has been replaced.
pub open spec fn spec_register_lifetimes(
    preallocated: u8,
    instructions: Seq<SSAInstruction>,
) -> Result<Seq<(SSARegister, SpecLifetime)>, LifetimeError> {
    lifetimes_after(preallocated, instructions, instructions.len() as int)
}

/// A lifetime that was replaced has been used (by the replacement, at least).
pub open spec fn lifetimes_well_formed(ls: Seq<(SSARegister, SpecLifetime)>) -> bool {
    forall|k: int| 0 <= k < ls.len() ==> (#[trigger] ls[k]).1.replaced_by is Some ==> ls[k].1.usages.len() > 0
}

impl Lifetimes {
    /// The position of register `r`'s lifetime, if it has one.
    pub fn position(&self, r: SSARegister) -> (i: Option<usize>)
        ensures
            match i {
                Some(i) => i < self@.len() && lifetime_index(self@, r) == i,
                None => lifetime_index(self@, r) == -1,
            },
    {
        let ghost keys = self@.map_values(|p: (SSARegister, SpecLifetime)| p.0);
        let mut i: usize = 0;
        while i < self.entries.len()
            invariant
                0 <= i <= self.entries@.len(),
                self@.len() == self.entries@.len(),
                keys == self@.map_values(|p: (SSARegister, SpecLifetime)| p.0),
                forall|j: int| 0 <= j < i ==> keys[j] != r,
            decreases self.entries@.len() - i,
        {
            if self.entries[i].0 == r {
                proof {
                    lemma_first_index_of(keys, r, i as int);
                }
                return Some(i);
            }
            i = i + 1;
        }
        proof {
            lemma_first_index_of(keys, r, keys.len() as int);
        }
        None
    }

    /// The lifetime of register `r`, if it has one.
    pub fn get(&self, r: SSARegister) -> (l: Option<&RegisterLifetime>)
        ensures
            match l {
                Some(l) => spec_lifetime_of(self@, r) == Some(l.model()),
                None => spec_lifetime_of(self@, r) is None,
            },
    {
        match self.position(r) {
            Some(i) => Some(&self.entries[i].1),
            None => None,
        }
    }

    fn record_input(&mut self, r: SSARegister, t: InstructionTimestamp) -> (result: Result<
        (),
        LifetimeError,
    >)
        requires
            lifetimes_well_formed(old(self)@),
        ensures
            match record_input(old(self)@, r, t) {
                Ok(ls) => result is Ok && final(self)@ == ls && lifetimes_well_formed(ls),
                Err(e) => result == Err::<(), LifetimeError>(e),
            },
    {
        match self.position(r) {
            None => Err(LifetimeError::UsedBeforeCreation(r, t)),
            Some(i) => {
                let ghost before = self@;
                let lifetime = &self.entries[i].1;
                match lifetime.replaced_by {
                    Some(by) => {
                        proof {
                            assert(before[i as int] == (self.entries@[i as int].0, lifetime.model()));
                        }
                        let last = match lifetime.last_usage() {
                            Some(u) => u,
                            None => {
                                proof {
                                    assert(false);
                                }
                                0
                            },
                        };
                        Err(LifetimeError::UsedAfterReplacement(r, t, by, last))
                    },
                    None => {
                        let mut usages = crate::blocks::copy_all(&lifetime.usages);
                        usages.push(t);
                        let updated = RegisterLifetime {
                            creation: lifetime.creation,
                            usages,
                            replacing: lifetime.replacing,
                            replaced_by: None,
                        };
                        self.entries.set(i, (r, updated));
                        proof {
                            assert(self@ =~= before.update(
                                i as int,
                                (r, SpecLifetime { usages: before[i as int].1.usages.push(t), ..before[i as int].1 }),
                            ));
                        }
                        Ok(())
                    },
                }
            },
        }
    }

    fn record_output(&mut self, r: SSARegister, t: InstructionTimestamp) -> (result: Result<
        (),
        LifetimeError,
    >)
        requires
            lifetimes_well_formed(old(self)@),
        ensures
            match record_output(old(self)@, r, t) {
                Ok(ls) => result is Ok && final(self)@ == ls && lifetimes_well_formed(ls),
                Err(e) => result == Err::<(), LifetimeError>(e),
            },
    {
        match self.position(r) {
            Some(i) => Err(LifetimeError::OutputToExisting(r, self.entries[i].1.creation, t)),
            None => {
                let ghost before = self@;
                self.entries.push((r, RegisterLifetime::new(t)));
                proof {
                    assert(self@ =~= before.push((r, created_lifetime(t, None))));
                }
                Ok(())
            },
        }
    }

    fn record_replacement(&mut self, from: SSARegister, to: SSARegister, t: InstructionTimestamp) -> (result:
        Result<(), LifetimeError>)
        requires
            lifetimes_well_formed(old(self)@),
        ensures
            match record_replacement(old(self)@, from, to, t) {
                Ok(ls) => result is Ok && final(self)@ == ls && lifetimes_well_formed(ls),
                Err(e) => result == Err::<(), LifetimeError>(e),
            },
    {
        match self.position(from) {
            None => Err(LifetimeError::ReplacingNonexistent(from, t)),
            Some(i) => {
                let ghost before = self@;
                let lifetime = &self.entries[i].1;
                match lifetime.replaced_by {
                    Some(by) => {
                        proof {
                            assert(before[i as int] == (self.entries@[i as int].0, lifetime.model()));
                        }
                        let last = match lifetime.last_usage() {
                            Some(u) => u,
                            None => {
                                proof {
                                    assert(false);
                                }
                                0
                            },
                        };
                        Err(LifetimeError::UsedAfterReplacement(from, t, by, last))
                    },
                    None => {
                        let mut usages = crate::blocks::copy_all(&lifetime.usages);
                        usages.push(t);
                        let updated = RegisterLifetime {
                            creation: lifetime.creation,
                            usages,
                            replacing: lifetime.replacing,
                            replaced_by: Some(to),
                        };
                        self.entries.set(i, (from, updated));
                        let ghost middle = before.update(
                            i as int,
                            (
                                from,
                                SpecLifetime {
                                    usages: before[i as int].1.usages.push(t),
                                    replaced_by: Some(to),
                                    ..before[i as int].1
                                },
                            ),
                        );
                        proof {
                            assert(self@ =~= middle);
                        }
                        match self.position(to) {
                            Some(j) => Err(
                                LifetimeError::OutputToExisting(to, self.entries[j].1.creation, t),
                            ),
                            None => {
                                self.entries.push((to, RegisterLifetime::new_replacing(t, from)));
                                proof {
                                    assert(self@ =~= middle.push((to, created_lifetime(t, Some(from)))));
                                }
                                Ok(())
                            },
                        }
                    },
                }
            },
        }
    }
}

/// The lifetimes of the registers of a block whose first `preallocated_registers`
/// registers hold arguments (see `spec_register_lifetimes`).
pub fn calculate_register_lifetimes(
    preallocated_registers: u8,
    instructions: &Vec<SSAInstruction>,
) -> (r: Result<Lifetimes, LifetimeError>)
    requires
        all_have_usages(instructions@),
    ensures
        match r {
            Ok(lifetimes) => spec_register_lifetimes(preallocated_registers, instructions@) == Ok::<
                Seq<(SSARegister, SpecLifetime)>,
                LifetimeError,
            >(lifetimes@),
            Err(e) => spec_register_lifetimes(preallocated_registers, instructions@) == Err::<
                Seq<(SSARegister, SpecLifetime)>,
                LifetimeError,
            >(e),
        },
{
    let mut lifetimes = Lifetimes { entries: Vec::new() };
    let mut p: u8 = 0;
    while p < preallocated_registers
        invariant
            p <= preallocated_registers,
            lifetimes@ == initial_lifetimes(p),
        decreases preallocated_registers - p,
    {
        let ghost before = lifetimes@;
        lifetimes.entries.push((p as usize, RegisterLifetime::new_preexisting()));
        proof {
            assert(lifetimes@ =~= before.push((p as usize, preexisting_lifetime())));
            assert(lifetimes@ =~= initial_lifetimes((p + 1) as u8));
        }
        p = p + 1;
    }
    let mut timestamp: usize = 0;
    while timestamp < instructions.len()
        invariant
            0 <= timestamp <= instructions@.len(),
            all_have_usages(instructions@),
            lifetimes_after(preallocated_registers, instructions@, timestamp as int) == Ok::<
                Seq<(SSARegister, SpecLifetime)>,
                LifetimeError,
            >(lifetimes@),
            lifetimes_well_formed(lifetimes@),
        decreases instructions@.len() - timestamp,
    {
        let t = timestamp as u16;
        let instruction = &instructions[timestamp];
        proof {
            assert(instructions@[timestamp as int].has_usages());
        }
        let usages = instruction.usages();
        let ghost start = lifetimes@;
        let mut k: usize = 0;
        while k < usages.inputs.len()
            invariant
                0 <= k <= usages.inputs@.len(),
                timestamp < instructions@.len(),
                t == timestamp as u16,
                all_have_usages(instructions@),
                instructions@[timestamp as int].spec_inputs() == usages.inputs@,
                instructions@[timestamp as int].spec_outputs() == usages.outputs@,
                instructions@[timestamp as int].spec_replacements() == usages.replacements@,
                lifetimes_after(preallocated_registers, instructions@, timestamp as int) == Ok::<
                    Seq<(SSARegister, SpecLifetime)>,
                    LifetimeError,
                >(start),
                record_inputs(start, usages.inputs@.take(k as int), t) == Ok::<
                    Seq<(SSARegister, SpecLifetime)>,
                    LifetimeError,
                >(lifetimes@),
                lifetimes_well_formed(lifetimes@),
            decreases usages.inputs@.len() - k,
        {
            proof {
                assert(usages.inputs@.take(k + 1).drop_last() =~= usages.inputs@.take(k as int));
            }
            let ghost before_call = lifetimes@;
            match lifetimes.record_input(usages.inputs[k], t) {
                Ok(()) => {},
                Err(e) => {
                    proof {
                        assert(usages.inputs@.take(k + 1).last() == usages.inputs@[k as int]);
                        assert(record_inputs(start, usages.inputs@.take(k + 1), t) == Err::<
                            Seq<(SSARegister, SpecLifetime)>,
                            LifetimeError,
                        >(e));
                        lemma_record_inputs_error(start, usages.inputs@, k + 1, t);
                        lemma_lifetimes_after_error(preallocated_registers, instructions@, timestamp + 1);
                    }
                    return Err(e);
                },
            }
            k = k + 1;
        }
        proof {
            assert(usages.inputs@.take(usages.inputs@.len() as int) =~= usages.inputs@);
        }
        let ghost after_inputs = lifetimes@;
        k = 0;
        while k < usages.outputs.len()
            invariant
                0 <= k <= usages.outputs@.len(),
                timestamp < instructions@.len(),
                t == timestamp as u16,
                all_have_usages(instructions@),
                instructions@[timestamp as int].spec_inputs() == usages.inputs@,
                instructions@[timestamp as int].spec_outputs() == usages.outputs@,
                instructions@[timestamp as int].spec_replacements() == usages.replacements@,
                lifetimes_after(preallocated_registers, instructions@, timestamp as int) == Ok::<
                    Seq<(SSARegister, SpecLifetime)>,
                    LifetimeError,
                >(start),
                record_inputs(start, usages.inputs@, t) == Ok::<
                    Seq<(SSARegister, SpecLifetime)>,
                    LifetimeError,
                >(after_inputs),
                record_outputs(after_inputs, usages.outputs@.take(k as int), t) == Ok::<
                    Seq<(SSARegister, SpecLifetime)>,
                    LifetimeError,
                >(lifetimes@),
                lifetimes_well_formed(lifetimes@),
            decreases usages.outputs@.len() - k,
        {
            proof {
                assert(usages.outputs@.take(k + 1).drop_last() =~= usages.outputs@.take(k as int));
            }
            let ghost before_call = lifetimes@;
            match lifetimes.record_output(usages.outputs[k], t) {
                Ok(()) => {},
                Err(e) => {
                    proof {
                        assert(usages.outputs@.take(k + 1).last() == usages.outputs@[k as int]);
                        assert(record_outputs(after_inputs, usages.outputs@.take(k + 1), t) == Err::<
                            Seq<(SSARegister, SpecLifetime)>,
                            LifetimeError,
                        >(e));
                        lemma_record_outputs_error(after_inputs, usages.outputs@, k + 1, t);
                        lemma_lifetimes_after_error(preallocated_registers, instructions@, timestamp + 1);
                    }
                    return Err(e);
                },
            }
            k = k + 1;
        }
        proof {
            assert(usages.outputs@.take(usages.outputs@.len() as int) =~= usages.outputs@);
        }
        let ghost after_outputs = lifetimes@;
        k = 0;
        while k < usages.replacements.len()
            invariant
                0 <= k <= usages.replacements@.len(),
                timestamp < instructions@.len(),
                t == timestamp as u16,
                all_have_usages(instructions@),
                instructions@[timestamp as int].spec_inputs() == usages.inputs@,
                instructions@[timestamp as int].spec_outputs() == usages.outputs@,
                instructions@[timestamp as int].spec_replacements() == usages.replacements@,
                lifetimes_after(preallocated_registers, instructions@, timestamp as int) == Ok::<
                    Seq<(SSARegister, SpecLifetime)>,
                    LifetimeError,
                >(start),
                record_inputs(start, usages.inputs@, t) == Ok::<
                    Seq<(SSARegister, SpecLifetime)>,
                    LifetimeError,
                >(after_inputs),
                record_outputs(after_inputs, usages.outputs@, t) == Ok::<
                    Seq<(SSARegister, SpecLifetime)>,
                    LifetimeError,
                >(after_outputs),
                record_replacements(after_outputs, usages.replacements@.take(k as int), t) == Ok::<
                    Seq<(SSARegister, SpecLifetime)>,
                    LifetimeError,
                >(lifetimes@),
                lifetimes_well_formed(lifetimes@),
            decreases usages.replacements@.len() - k,
        {
            proof {
                assert(usages.replacements@.take(k + 1).drop_last() =~= usages.replacements@.take(
                    k as int,
                ));
            }
            let (from, to) = usages.replacements[k];
            match lifetimes.record_replacement(from, to, t) {
                Ok(()) => {},
                Err(e) => {
                    proof {
                        assert(usages.replacements@.take(k + 1).last() == usages.replacements@[k as int]);
                        assert(record_replacements(after_outputs, usages.replacements@.take(k + 1), t)
                            == Err::<Seq<(SSARegister, SpecLifetime)>, LifetimeError>(e));
                        lemma_record_replacements_error(after_outputs, usages.replacements@, k + 1, t);
                        lemma_lifetimes_after_error(preallocated_registers, instructions@, timestamp + 1);
                    }
                    return Err(e);
                },
            }
            k = k + 1;
        }
        proof {
            assert(usages.replacements@.take(usages.replacements@.len() as int)
                =~= usages.replacements@);
        }
        timestamp = timestamp + 1;
    }
    Ok(lifetimes)
}

proof fn lemma_record_inputs_error(
    ls: Seq<(SSARegister, SpecLifetime)>,
    registers: Seq<SSARegister>,
    k: int,
    t: InstructionTimestamp,
)
    requires
        1 <= k <= registers.len(),
        record_inputs(ls, registers.take(k), t) is Err,
    ensures
        record_inputs(ls, registers, t) == record_inputs(ls, registers.take(k), t),
    decreases registers.len() - k,
{
    if k < registers.len() {
        assert(registers.take(k + 1).drop_last() =~= registers.take(k));
        lemma_record_inputs_error(ls, registers, k + 1, t);
    } else {
        assert(registers.take(k) =~= registers);
    }
}

proof fn lemma_record_outputs_error(
    ls: Seq<(SSARegister, SpecLifetime)>,
    registers: Seq<SSARegister>,
    k: int,
    t: InstructionTimestamp,
)
    requires
        1 <= k <= registers.len(),
        record_outputs(ls, registers.take(k), t) is Err,
    ensures
        record_outputs(ls, registers, t) == record_outputs(ls, registers.take(k), t),
    decreases registers.len() - k,
{
    if k < registers.len() {
        assert(registers.take(k + 1).drop_last() =~= registers.take(k));
        lemma_record_outputs_error(ls, registers, k + 1, t);
    } else {
        assert(registers.take(k) =~= registers);
    }
}

proof fn lemma_record_replacements_error(
    ls: Seq<(SSARegister, SpecLifetime)>,
    pairs: Seq<(SSARegister, SSARegister)>,
    k: int,
    t: InstructionTimestamp,
)
    requires
        1 <= k <= pairs.len(),
        record_replacements(ls, pairs.take(k), t) is Err,
    ensures
        record_replacements(ls, pairs, t) == record_replacements(ls, pairs.take(k), t),
    decreases pairs.len() - k,
{
    if k < pairs.len() {
        assert(pairs.take(k + 1).drop_last() =~= pairs.take(k));
        lemma_record_replacements_error(ls, pairs, k + 1, t);
    } else {
        assert(pairs.take(k) =~= pairs);
    }
}

proof fn lemma_lifetimes_after_error(preallocated: u8, instructions: Seq<SSAInstruction>, n: int)
    requires
        1 <= n <= instructions.len(),
        lifetimes_after(preallocated, instructions, n) is Err,
    ensures
        spec_register_lifetimes(preallocated, instructions) == lifetimes_after(preallocated, instructions, n),
    decreases instructions.len() - n,
{
    if n < instructions.len() {
        lemma_lifetimes_after_error(preallocated, instructions, n + 1);
    }
}

} // verus!

verus! {

/// What tracking lifetimes makes of one block: the same instructions and constants, with
/// the registers' lifetimes attached, or the violation that the lifetimes show.
pub open spec fn tracked_block<M>(
    preallocated: u8,
    instructions: Seq<SSAInstruction>,
    constants: Seq<SSAValue<Lifetimes>>,
    metadata: M,
    r: Result<SSABlock<Lifetimes>, LifetimeError>,
) -> bool {
    match spec_register_lifetimes(preallocated, instructions) {
        Ok(ls) => r is Ok && r->Ok_0.instructions@ == instructions && r->Ok_0.constants@ == constants
            && r->Ok_0.metadata@ == ls,
        Err(e) => r == Err::<SSABlock<Lifetimes>, LifetimeError>(e),
    }
}

/// The outcomes of tracking the register lifetimes of one block.
pub open spec fn timing_outcomes<M>() -> spec_fn(u8, Seq<SSAInstruction>, Seq<SSAValue<Lifetimes>>, M, Result<SSABlock<Lifetimes>, LifetimeError>) -> bool {
    |p: u8, i: Seq<SSAInstruction>, c: Seq<SSAValue<Lifetimes>>, m: M, r: Result<SSABlock<Lifetimes>, LifetimeError>| tracked_block(p, i, c, m, r)
}

/// Attaches to every block (the given one, and those of the functions among its
/// constants) the lifetimes of its registers (see `spec_register_lifetimes`).
pub fn track_register_lifetimes<M>(block: SSABlock<M>) -> (r: Result<SSABlock<Lifetimes>, LifetimeError>)
    requires
        block_has_usages(block),
    ensures
        block_translation(
            block,
            0,
            r,
            timing_outcomes::<M>(),
        ),
{
    let translator = |
        preallocated_registers: u8,
        instructions: Vec<SSAInstruction>,
        constants: Vec<SSAValue<Lifetimes>>,
        _metadata: &M,
    | -> (r: Result<SSABlock<Lifetimes>, LifetimeError>)
        requires
            all_have_usages(instructions@),
        ensures
            tracked_block(preallocated_registers, instructions@, constants@, *_metadata, r),
        {
            let lifetimes = match calculate_register_lifetimes(preallocated_registers, &instructions) {
                Ok(l) => l,
                Err(e) => {
                    return Err(e);
                },
            };
            Ok(GenericBlock::new_with_metadata(instructions, constants, lifetimes))
        };
    let r = block.translate(&translator);
    proof {
        lemma_block_translation_weaken(
            block,
            0,
            r,
            block_outcomes(translator),
            timing_outcomes::<M>(),
        );
    }
    r
}

/// Tracking lifetimes keeps blocks well-formed.
pub proof fn lemma_tracking_keeps_usages<M>()
    ensures
        outcome_keeps_usages(
            timing_outcomes::<M>(),
        ),
{
}

/// Whether no register has two lifetimes in `ls`.
pub open spec fn one_lifetime_each(ls: Seq<(SSARegister, SpecLifetime)>) -> bool {
    forall|i: int, j: int|
        #![trigger ls[i], ls[j]]
        0 <= i < ls.len() && 0 <= j < ls.len() && i != j ==> ls[i].0 != ls[j].0
}

proof fn lemma_lifetime_index(ls: Seq<(SSARegister, SpecLifetime)>, r: SSARegister)
    ensures
        lifetime_index(ls, r) < ls.len(),
        0 <= lifetime_index(ls, r) ==> ls[lifetime_index(ls, r)].0 == r,
        lifetime_index(ls, r) < 0 ==> forall|k: int| 0 <= k < ls.len() ==> (#[trigger] ls[k]).0 != r,
{
    let keys = ls.map_values(|p: (SSARegister, SpecLifetime)| p.0);
    lemma_first_index_of_bounds(keys, r);
    if first_index_of(keys, r) < 0 {
        lemma_first_index_absent(keys, r);
        assert forall|k: int| 0 <= k < ls.len() implies (#[trigger] ls[k]).0 != r by {
            assert(keys[k] == ls[k].0);
        }
    } else {
        assert(keys[first_index_of(keys, r)] == ls[first_index_of(keys, r)].0);
    }
}

proof fn lemma_same_keys_update(ls: Seq<(SSARegister, SpecLifetime)>, i: int, l: SpecLifetime)
    requires
        one_lifetime_each(ls),
        0 <= i < ls.len(),
    ensures
        one_lifetime_each(ls.update(i, (ls[i].0, l))),
{
    let u = ls.update(i, (ls[i].0, l));
    assert forall|a: int, b: int|
        #![trigger u[a], u[b]]
        0 <= a < u.len() && 0 <= b < u.len() && a != b implies u[a].0 != u[b].0 by {
        assert(u[a].0 == ls[a].0 && u[b].0 == ls[b].0);
    }
}

proof fn lemma_fresh_push(ls: Seq<(SSARegister, SpecLifetime)>, r: SSARegister, l: SpecLifetime)
    requires
        one_lifetime_each(ls),
        forall|k: int| 0 <= k < ls.len() ==> (#[trigger] ls[k]).0 != r,
    ensures
        one_lifetime_each(ls.push((r, l))),
{
    let u = ls.push((r, l));
    assert forall|a: int, b: int|
        #![trigger u[a], u[b]]
        0 <= a < u.len() && 0 <= b < u.len() && a != b implies u[a].0 != u[b].0 by {
        if a < ls.len() {
            assert(u[a] == ls[a]);
        }
        if b < ls.len() {
            assert(u[b] == ls[b]);
        }
    }
}

proof fn lemma_record_input_one_each(ls: Seq<(SSARegister, SpecLifetime)>, r: SSARegister, t: InstructionTimestamp)
    requires
        one_lifetime_each(ls),
        record_input(ls, r, t) is Ok,
    ensures
        one_lifetime_each(record_input(ls, r, t)->Ok_0),
{
    lemma_lifetime_index(ls, r);
    let i = lifetime_index(ls, r);
    let l = ls[i].1;
    lemma_same_keys_update(ls, i, SpecLifetime { usages: l.usages.push(t), ..l });
}

proof fn lemma_record_output_one_each(ls: Seq<(SSARegister, SpecLifetime)>, r: SSARegister, t: InstructionTimestamp)
    requires
        one_lifetime_each(ls),
        record_output(ls, r, t) is Ok,
    ensures
        one_lifetime_each(record_output(ls, r, t)->Ok_0),
{
    lemma_lifetime_index(ls, r);
    lemma_fresh_push(ls, r, created_lifetime(t, None));
}

proof fn lemma_record_replacement_one_each(
    ls: Seq<(SSARegister, SpecLifetime)>,
    from: SSARegister,
    to: SSARegister,
    t: InstructionTimestamp,
)
    requires
        one_lifetime_each(ls),
        record_replacement(ls, from, to, t) is Ok,
    ensures
        one_lifetime_each(record_replacement(ls, from, to, t)->Ok_0),
{
    lemma_lifetime_index(ls, from);
    let i = lifetime_index(ls, from);
    let l = ls[i].1;
    let ls1 = ls.update(i, (from, SpecLifetime { usages: l.usages.push(t), replaced_by: Some(to), ..l }));
    lemma_same_keys_update(ls, i, SpecLifetime { usages: l.usages.push(t), replaced_by: Some(to), ..l });
    lemma_lifetime_index(ls1, to);
    lemma_fresh_push(ls1, to, created_lifetime(t, Some(from)));
}

proof fn lemma_record_inputs_one_each(
    ls: Seq<(SSARegister, SpecLifetime)>,
    registers: Seq<SSARegister>,
    t: InstructionTimestamp,
)
    requires
        one_lifetime_each(ls),
        record_inputs(ls, registers, t) is Ok,
    ensures
        one_lifetime_each(record_inputs(ls, registers, t)->Ok_0),
    decreases registers.len(),
{
    if registers.len() > 0 {
        lemma_record_inputs_one_each(ls, registers.drop_last(), t);
        lemma_record_input_one_each(record_inputs(ls, registers.drop_last(), t)->Ok_0, registers.last(), t);
    }
}

proof fn lemma_record_outputs_one_each(
    ls: Seq<(SSARegister, SpecLifetime)>,
    registers: Seq<SSARegister>,
    t: InstructionTimestamp,
)
    requires
        one_lifetime_each(ls),
        record_outputs(ls, registers, t) is Ok,
    ensures
        one_lifetime_each(record_outputs(ls, registers, t)->Ok_0),
    decreases registers.len(),
{
    if registers.len() > 0 {
        lemma_record_outputs_one_each(ls, registers.drop_last(), t);
        lemma_record_output_one_each(record_outputs(ls, registers.drop_last(), t)->Ok_0, registers.last(), t);
    }
}

proof fn lemma_record_replacements_one_each(
    ls: Seq<(SSARegister, SpecLifetime)>,
    pairs: Seq<(SSARegister, SSARegister)>,
    t: InstructionTimestamp,
)
    requires
        one_lifetime_each(ls),
        record_replacements(ls, pairs, t) is Ok,
    ensures
        one_lifetime_each(record_replacements(ls, pairs, t)->Ok_0),
    decreases pairs.len(),
{
    if pairs.len() > 0 {
        lemma_record_replacements_one_each(ls, pairs.drop_last(), t);
        lemma_record_replacement_one_each(
            record_replacements(ls, pairs.drop_last(), t)->Ok_0,
            pairs.last().0,
            pairs.last().1,
            t,
        );
    }
}

/// Each register has one lifetime: the lifetimes recorded for the first `n`
/// instructions of a block name no register twice.
pub proof fn law_register_has_one_lifetime(preallocated: u8, instructions: Seq<SSAInstruction>, n: int)
    requires
        lifetimes_after(preallocated, instructions, n) is Ok,
    ensures
        one_lifetime_each(lifetimes_after(preallocated, instructions, n)->Ok_0),
    decreases n,
{
    if n <= 0 {
        let ls = initial_lifetimes(preallocated);
        assert forall|a: int, b: int|
            #![trigger ls[a], ls[b]]
            0 <= a < ls.len() && 0 <= b < ls.len() && a != b implies ls[a].0 != ls[b].0 by {
            assert(ls[a].0 == a as SSARegister && ls[b].0 == b as SSARegister);
        }
    } else {
        law_register_has_one_lifetime(preallocated, instructions, n - 1);
        let ls = lifetimes_after(preallocated, instructions, n - 1)->Ok_0;
        let instruction = instructions[n - 1];
        let t = (n - 1) as u16;
        lemma_record_inputs_one_each(ls, instruction.spec_inputs(), t);
        let l1 = record_inputs(ls, instruction.spec_inputs(), t)->Ok_0;
        if record_outputs(l1, instruction.spec_outputs(), t) is Ok {
            lemma_record_outputs_one_each(l1, instruction.spec_outputs(), t);
            let l2 = record_outputs(l1, instruction.spec_outputs(), t)->Ok_0;
            lemma_record_replacements_one_each(l2, instruction.spec_replacements(), t);
        }
    }
}

/// Whether a lifetime entry at position `k` has the shape that recording gives it, up to
/// timestamp `t`: the first `preallocated` entries are the argument registers in order,
/// created before the block; every other register is created at an instruction; its
/// reads come in order, none after `t`, and none before its creation.
pub open spec fn entry_shape(entry: (SSARegister, SpecLifetime), k: int, preallocated: u8, t: int) -> bool {
    let l = entry.1;
    &&& k < preallocated ==> entry.0 == k as SSARegister && l.creation is None
    &&& k >= preallocated ==> l.creation is Some
    &&& forall|a: int, b: int|
        #![trigger l.usages[a], l.usages[b]]
        0 <= a <= b < l.usages.len() ==> l.usages[a] <= l.usages[b]
    &&& forall|a: int| 0 <= a < l.usages.len() ==> #[trigger] l.usages[a] <= t
    &&& l.creation matches Some(c) ==> c <= t && forall|a: int|
        0 <= a < l.usages.len() ==> c <= #[trigger] l.usages[a]
}

/// Whether every entry of `ls` has the shape that recording gives it, up to timestamp
/// `t` (see `entry_shape`).
pub open spec fn lifetimes_shape(ls: Seq<(SSARegister, SpecLifetime)>, preallocated: u8, t: int) -> bool {
    &&& ls.len() >= preallocated
    &&& forall|k: int| 0 <= k < ls.len() ==> entry_shape(#[trigger] ls[k], k, preallocated, t)
}

proof fn lemma_shape_later(ls: Seq<(SSARegister, SpecLifetime)>, p: u8, t: int, t2: int)
    requires
        lifetimes_shape(ls, p, t),
        t <= t2,
    ensures
        lifetimes_shape(ls, p, t2),
{
    assert forall|k: int| 0 <= k < ls.len() implies entry_shape(#[trigger] ls[k], k, p, t2) by {
        assert(entry_shape(ls[k], k, p, t));
    }
}

proof fn lemma_shape_read(ls: Seq<(SSARegister, SpecLifetime)>, p: u8, t: InstructionTimestamp, i: int, l: SpecLifetime)
    requires
        lifetimes_shape(ls, p, t as int),
        0 <= i < ls.len(),
        l.creation == ls[i].1.creation,
        l.usages == ls[i].1.usages.push(t),
    ensures
        lifetimes_shape(ls.update(i, (ls[i].0, l)), p, t as int),
{
    let u = ls.update(i, (ls[i].0, l));
    assert forall|k: int| 0 <= k < u.len() implies entry_shape(#[trigger] u[k], k, p, t as int) by {
        assert(entry_shape(ls[k], k, p, t as int));
        if k == i {
            let old_usages = ls[i].1.usages;
            assert forall|a: int, b: int|
                #![trigger l.usages[a], l.usages[b]]
                0 <= a <= b < l.usages.len() implies l.usages[a] <= l.usages[b] by {
                if b < old_usages.len() {
                    assert(l.usages[a] == old_usages[a] && l.usages[b] == old_usages[b]);
                } else if a < old_usages.len() {
                    assert(l.usages[a] == old_usages[a]);
                }
            }
            assert forall|a: int| 0 <= a < l.usages.len() implies #[trigger] l.usages[a] <= t by {
                if a < old_usages.len() {
                    assert(l.usages[a] == old_usages[a]);
                }
            }
            if let Some(c) = l.creation {
                assert forall|a: int| 0 <= a < l.usages.len() implies c <= #[trigger] l.usages[a] by {
                    if a < old_usages.len() {
                        assert(l.usages[a] == old_usages[a]);
                    }
                }
            }
        }
    }
}

proof fn lemma_shape_create(
    ls: Seq<(SSARegister, SpecLifetime)>,
    p: u8,
    t: InstructionTimestamp,
    r: SSARegister,
    replacing: Option<SSARegister>,
)
    requires
        lifetimes_shape(ls, p, t as int),
    ensures
        lifetimes_shape(ls.push((r, created_lifetime(t, replacing))), p, t as int),
{
    let u = ls.push((r, created_lifetime(t, replacing)));
    assert forall|k: int| 0 <= k < u.len() implies entry_shape(#[trigger] u[k], k, p, t as int) by {
        if k < ls.len() {
            assert(entry_shape(ls[k], k, p, t as int));
            assert(u[k] == ls[k]);
        }
    }
}

proof fn lemma_shape_inputs(ls: Seq<(SSARegister, SpecLifetime)>, p: u8, registers: Seq<SSARegister>, t: InstructionTimestamp)
    requires
        lifetimes_shape(ls, p, t as int),
        record_inputs(ls, registers, t) is Ok,
    ensures
        lifetimes_shape(record_inputs(ls, registers, t)->Ok_0, p, t as int),
    decreases registers.len(),
{
    if registers.len() > 0 {
        lemma_shape_inputs(ls, p, registers.drop_last(), t);
        let l0 = record_inputs(ls, registers.drop_last(), t)->Ok_0;
        let r = registers.last();
        lemma_lifetime_index(l0, r);
        let i = lifetime_index(l0, r);
        let l = l0[i].1;
        lemma_shape_read(l0, p, t, i, SpecLifetime { usages: l.usages.push(t), ..l });
    }
}

proof fn lemma_shape_outputs(ls: Seq<(SSARegister, SpecLifetime)>, p: u8, registers: Seq<SSARegister>, t: InstructionTimestamp)
    requires
        lifetimes_shape(ls, p, t as int),
        record_outputs(ls, registers, t) is Ok,
    ensures
        lifetimes_shape(record_outputs(ls, registers, t)->Ok_0, p, t as int),
    decreases registers.len(),
{
    if registers.len() > 0 {
        lemma_shape_outputs(ls, p, registers.drop_last(), t);
        let l0 = record_outputs(ls, registers.drop_last(), t)->Ok_0;
        lemma_shape_create(l0, p, t, registers.last(), None);
    }
}

proof fn lemma_shape_replacements(
    ls: Seq<(SSARegister, SpecLifetime)>,
    p: u8,
    pairs: Seq<(SSARegister, SSARegister)>,
    t: InstructionTimestamp,
)
    requires
        lifetimes_shape(ls, p, t as int),
        record_replacements(ls, pairs, t) is Ok,
    ensures
        lifetimes_shape(record_replacements(ls, pairs, t)->Ok_0, p, t as int),
    decreases pairs.len(),
{
    if pairs.len() > 0 {
        lemma_shape_replacements(ls, p, pairs.drop_last(), t);
        let l0 = record_replacements(ls, pairs.drop_last(), t)->Ok_0;
        let (from, to) = pairs.last();
        lemma_lifetime_index(l0, from);
        let i = lifetime_index(l0, from);
        let l = l0[i].1;
        let changed = SpecLifetime { usages: l.usages.push(t), replaced_by: Some(to), ..l };
        lemma_shape_read(l0, p, t, i, changed);
        let l1 = l0.update(i, (from, changed));
        lemma_shape_create(l1, p, t, to, Some(from));
    }
}

/// The shape of the lifetimes: after the first `n` instructions of a block (fewer than
/// 65536, so that timestamps do not wrap), the first `preallocated` entries are the
/// argument registers in order, with no creation; every other register was created at an
/// instruction; each register's reads are recorded in order, none before its creation
/// and none after the last instruction recorded.
pub proof fn law_lifetime_shape(preallocated: u8, instructions: Seq<SSAInstruction>, n: int)
    requires
        lifetimes_after(preallocated, instructions, n) is Ok,
        n <= 65536,
    ensures
        lifetimes_shape(lifetimes_after(preallocated, instructions, n)->Ok_0, preallocated, n - 1),
    decreases n,
{
    if n <= 0 {
        let ls = initial_lifetimes(preallocated);
        assert forall|k: int| 0 <= k < ls.len() implies entry_shape(#[trigger] ls[k], k, preallocated, n - 1) by {
            assert(ls[k] == (k as SSARegister, preexisting_lifetime()));
        }
    } else {
        law_lifetime_shape(preallocated, instructions, n - 1);
        let ls = lifetimes_after(preallocated, instructions, n - 1)->Ok_0;
        let instruction = instructions[n - 1];
        let t = (n - 1) as u16;
        assert(t == n - 1);
        lemma_shape_later(ls, preallocated, n - 2, t as int);
        lemma_shape_inputs(ls, preallocated, instruction.spec_inputs(), t);
        let l1 = record_inputs(ls, instruction.spec_inputs(), t)->Ok_0;
        if record_outputs(l1, instruction.spec_outputs(), t) is Ok {
            lemma_shape_outputs(l1, preallocated, instruction.spec_outputs(), t);
            let l2 = record_outputs(l1, instruction.spec_outputs(), t)->Ok_0;
            lemma_shape_replacements(l2, preallocated, instruction.spec_replacements(), t);
        }
    }
}

/// Whether replacements are recorded on both sides: a register replaced by `b` has `b`
/// among the lifetimes, replacing it; and a register that replaces `x` has `x` among the
/// lifetimes, replaced by it.
pub open spec fn replacements_paired(ls: Seq<(SSARegister, SpecLifetime)>) -> bool {
    &&& forall|a: int|
        0 <= a < ls.len() && (#[trigger] ls[a]).1.replaced_by is Some ==> exists|c: int|
            0 <= c < ls.len() && (#[trigger] ls[c]).0 == ls[a].1.replaced_by->0 && ls[c].1.replacing
                == Some(ls[a].0)
    &&& forall|c: int|
        0 <= c < ls.len() && (#[trigger] ls[c]).1.replacing is Some ==> exists|a: int|
            0 <= a < ls.len() && (#[trigger] ls[a]).0 == ls[c].1.replacing->0 && ls[a].1.replaced_by
                == Some(ls[c].0)
}

proof fn lemma_paired_same_links(ls: Seq<(SSARegister, SpecLifetime)>, u: Seq<(SSARegister, SpecLifetime)>)
    requires
        replacements_paired(ls),
        ls.len() <= u.len(),
        forall|k: int|
            0 <= k < ls.len() ==> (#[trigger] u[k]).0 == ls[k].0 && u[k].1.replacing == ls[k].1.replacing
                && u[k].1.replaced_by == ls[k].1.replaced_by,
        forall|k: int|
            ls.len() <= k < u.len() ==> (#[trigger] u[k]).1.replacing is None && u[k].1.replaced_by is None,
    ensures
        replacements_paired(u),
{
    assert forall|a: int|
        0 <= a < u.len() && (#[trigger] u[a]).1.replaced_by is Some implies exists|c: int|
            0 <= c < u.len() && (#[trigger] u[c]).0 == u[a].1.replaced_by->0 && u[c].1.replacing
                == Some(u[a].0) by {
        assert(ls[a].1.replaced_by is Some);
        let c = choose|c: int|
            0 <= c < ls.len() && (#[trigger] ls[c]).0 == ls[a].1.replaced_by->0 && ls[c].1.replacing
                == Some(ls[a].0);
        assert(u[c].0 == ls[c].0);
    }
    assert forall|c: int|
        0 <= c < u.len() && (#[trigger] u[c]).1.replacing is Some implies exists|a: int|
            0 <= a < u.len() && (#[trigger] u[a]).0 == u[c].1.replacing->0 && u[a].1.replaced_by
                == Some(u[c].0) by {
        assert(ls[c].1.replacing is Some);
        let a = choose|a: int|
            0 <= a < ls.len() && (#[trigger] ls[a]).0 == ls[c].1.replacing->0 && ls[a].1.replaced_by
                == Some(ls[c].0);
        assert(u[a].0 == ls[a].0);
    }
}

proof fn lemma_paired_inputs(ls: Seq<(SSARegister, SpecLifetime)>, registers: Seq<SSARegister>, t: InstructionTimestamp)
    requires
        replacements_paired(ls),
        record_inputs(ls, registers, t) is Ok,
    ensures
        replacements_paired(record_inputs(ls, registers, t)->Ok_0),
    decreases registers.len(),
{
    if registers.len() > 0 {
        lemma_paired_inputs(ls, registers.drop_last(), t);
        let l0 = record_inputs(ls, registers.drop_last(), t)->Ok_0;
        let r = registers.last();
        lemma_lifetime_index(l0, r);
        let u = record_input(l0, r, t)->Ok_0;
        assert forall|k: int| 0 <= k < l0.len() implies (#[trigger] u[k]).0 == l0[k].0
            && u[k].1.replacing == l0[k].1.replacing && u[k].1.replaced_by == l0[k].1.replaced_by by {}
        lemma_paired_same_links(l0, u);
    }
}

proof fn lemma_paired_outputs(ls: Seq<(SSARegister, SpecLifetime)>, registers: Seq<SSARegister>, t: InstructionTimestamp)
    requires
        replacements_paired(ls),
        record_outputs(ls, registers, t) is Ok,
    ensures
        replacements_paired(record_outputs(ls, registers, t)->Ok_0),
    decreases registers.len(),
{
    if registers.len() > 0 {
        lemma_paired_outputs(ls, registers.drop_last(), t);
        let l0 = record_outputs(ls, registers.drop_last(), t)->Ok_0;
        let u = record_output(l0, registers.last(), t)->Ok_0;
        assert forall|k: int| 0 <= k < l0.len() implies (#[trigger] u[k]).0 == l0[k].0
            && u[k].1.replacing == l0[k].1.replacing && u[k].1.replaced_by == l0[k].1.replaced_by by {}
        lemma_paired_same_links(l0, u);
    }
}

proof fn lemma_paired_replacement(
    ls: Seq<(SSARegister, SpecLifetime)>,
    from: SSARegister,
    to: SSARegister,
    t: InstructionTimestamp,
)
    requires
        replacements_paired(ls),
        record_replacement(ls, from, to, t) is Ok,
    ensures
        replacements_paired(record_replacement(ls, from, to, t)->Ok_0),
{
    lemma_lifetime_index(ls, from);
    let i = lifetime_index(ls, from);
    let l = ls[i].1;
    let ls1 = ls.update(i, (from, SpecLifetime { usages: l.usages.push(t), replaced_by: Some(to), ..l }));
    let u = ls1.push((to, created_lifetime(t, Some(from))));
    assert(record_replacement(ls, from, to, t)->Ok_0 == u);
    let last = ls.len() as int;
    assert(u[last] == (to, created_lifetime(t, Some(from))));
    assert(u[i].0 == from && u[i].1.replaced_by == Some(to));
    assert forall|a: int|
        0 <= a < u.len() && (#[trigger] u[a]).1.replaced_by is Some implies exists|c: int|
            0 <= c < u.len() && (#[trigger] u[c]).0 == u[a].1.replaced_by->0 && u[c].1.replacing
                == Some(u[a].0) by {
        if a == i {
            assert(u[last].0 == to && u[last].1.replacing == Some(from));
        } else {
            assert(u[a] == ls[a]);
            let c = choose|c: int|
                0 <= c < ls.len() && (#[trigger] ls[c]).0 == ls[a].1.replaced_by->0 && ls[c].1.replacing
                    == Some(ls[a].0);
            assert(u[c].0 == ls[c].0 && u[c].1.replacing == ls[c].1.replacing);
        }
    }
    assert forall|c: int|
        0 <= c < u.len() && (#[trigger] u[c]).1.replacing is Some implies exists|a: int|
            0 <= a < u.len() && (#[trigger] u[a]).0 == u[c].1.replacing->0 && u[a].1.replaced_by
                == Some(u[c].0) by {
        if c == last {
            assert(u[i].0 == from && u[i].1.replaced_by == Some(to));
        } else {
            assert(u[c].0 == ls[c].0 && u[c].1.replacing == ls[c].1.replacing);
            let a = choose|a: int|
                0 <= a < ls.len() && (#[trigger] ls[a]).0 == ls[c].1.replacing->0 && ls[a].1.replaced_by
                    == Some(ls[c].0);
            assert(a != i);
            assert(u[a] == ls[a]);
        }
    }
}

proof fn lemma_paired_replacements(
    ls: Seq<(SSARegister, SpecLifetime)>,
    pairs: Seq<(SSARegister, SSARegister)>,
    t: InstructionTimestamp,
)
    requires
        replacements_paired(ls),
        record_replacements(ls, pairs, t) is Ok,
    ensures
        replacements_paired(record_replacements(ls, pairs, t)->Ok_0),
    decreases pairs.len(),
{
    if pairs.len() > 0 {
        lemma_paired_replacements(ls, pairs.drop_last(), t);
        let l0 = record_replacements(ls, pairs.drop_last(), t)->Ok_0;
        lemma_paired_replacement(l0, pairs.last().0, pairs.last().1, t);
    }
}

/// Replacements are recorded on both sides: in the lifetimes of the first `n`
/// instructions of a block, a register replaced by `b` has `b` among the lifetimes,
/// recorded as replacing it, and a register recorded as replacing `x` has `x` among the
/// lifetimes, recorded as replaced by it.
pub proof fn law_replacements_paired(preallocated: u8, instructions: Seq<SSAInstruction>, n: int)
    requires
        lifetimes_after(preallocated, instructions, n) is Ok,
    ensures
        replacements_paired(lifetimes_after(preallocated, instructions, n)->Ok_0),
    decreases n,
{
    if n > 0 {
        law_replacements_paired(preallocated, instructions, n - 1);
        let ls = lifetimes_after(preallocated, instructions, n - 1)->Ok_0;
        let instruction = instructions[n - 1];
        let t = (n - 1) as u16;
        lemma_paired_inputs(ls, instruction.spec_inputs(), t);
        let l1 = record_inputs(ls, instruction.spec_inputs(), t)->Ok_0;
        if record_outputs(l1, instruction.spec_outputs(), t) is Ok {
            lemma_paired_outputs(l1, instruction.spec_outputs(), t);
            let l2 = record_outputs(l1, instruction.spec_outputs(), t)->Ok_0;
            lemma_paired_replacements(l2, instruction.spec_replacements(), t);
        }
    }
}

} // verus!
