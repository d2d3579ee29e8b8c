use vstd::prelude::*;
use crate::blocks::{
    all_have_usages, block_has_usages, block_outcomes, block_translation, constants_in_range,
    lemma_block_translation_weaken, GenericBlock,
};
use crate::compiler::ast_to_ir::{
    first_index_of, lemma_first_index_absent, lemma_first_index_of, lemma_first_index_of_bounds,
};
use crate::compiler::transformations::lifetimes::{
    spec_last_usage, spec_lifetime_of, InstructionTimestamp, Lifetimes, SpecLifetime,
};
use crate::compiler::{SSABlock, SSAInstruction, SSARegister, SSAValue};
use crate::instructions::Instruction;
use crate::runtime::data::GenericValue;

verus! {

/// A register of the running machine: an index into the current stack frame.
pub type Register = u8;

/// An instruction of the running machine.
pub type RuntimeInstruction = Instruction<Register, Register, Register>;

/// A block of bytecode, whose metadata is the largest register it uses.
pub type Block = GenericBlock<Register, Register, Register, Register>;

/// Why a block's registers could not be allocated.
#[derive(Clone, Copy, Debug)]
pub enum RegisterAllocationError {
    /// A register that holds a value has no lifetime in the block's metadata.
    MissingLifetime(SSARegister),
    /// At the timestamp, the register is used or replaced, but no runtime register holds
    /// it.
    UnassignedRegister(SSARegister, InstructionTimestamp),
    /// At the timestamp, a register is created while all runtime registers but the last
    /// are taken.
    NoFreeRegister(InstructionTimestamp),
}

/// The runtime register that `r` is assigned in `assignment`, if any.
pub open spec fn assigned(assignment: Seq<(SSARegister, Register)>, r: SSARegister) -> Option<Register> {
    let i = first_index_of(assignment.map_values(|p: (SSARegister, Register)| p.0), r);
    if 0 <= i < assignment.len() {
        Some(assignment[i].1)
    } else {
        None
    }
}

/// `assignment` without `r`, and the runtime register it had, if any.
pub open spec fn unassign(assignment: Seq<(SSARegister, Register)>, r: SSARegister) -> (Option<Register>, Seq<(SSARegister, Register)>) {
    let i = first_index_of(assignment.map_values(|p: (SSARegister, Register)| p.0), r);
    if 0 <= i < assignment.len() {
        (Some(assignment[i].1), assignment.remove(i))
    } else {
        (None, assignment)
    }
}

/// `assignment` with `r` assigned runtime register `v`.
pub open spec fn assign(assignment: Seq<(SSARegister, Register)>, r: SSARegister, v: Register) -> Seq<(SSARegister, Register)> {
    let i = first_index_of(assignment.map_values(|p: (SSARegister, Register)| p.0), r);
    if 0 <= i < assignment.len() {
        assignment.update(i, (r, v))
    } else {
        assignment.push((r, v))
    }
}

/// The registers of the first `k` entries of `assignment` whose last use is at `t` and
/// which were not replaced, in order; a register without a lifetime is an error.
pub open spec fn finishing(
    assignment: Seq<(SSARegister, Register)>,
    ls: Seq<(SSARegister, SpecLifetime)>,
    t: InstructionTimestamp,
    k: int,
) -> Result<Seq<SSARegister>, RegisterAllocationError>
    decreases k,
{
    if k <= 0 {
        Ok(Seq::empty())
    } else {
        match finishing(assignment, ls, t, k - 1) {
            Err(e) => Err(e),
            Ok(f) => {
                let r = assignment[k - 1].0;
                match spec_lifetime_of(ls, r) {
                    None => Err(RegisterAllocationError::MissingLifetime(r)),
                    Some(l) => if l.replaced_by is None && spec_last_usage(l) == Some(t) {
                        Ok(f.push(r))
                    } else {
                        Ok(f)
                    },
                }
            },
        }
    }
}

/// The state of allocation: the assignment of runtime registers, which runtime
/// registers are taken, and the assignments of the registers whose last use is the
/// current instruction.
pub ghost struct AllocationState {
    pub assignment: Seq<(SSARegister, Register)>,
    pub taken: Seq<bool>,
    pub finished: Seq<(SSARegister, Register)>,
}

/// Frees the runtime registers of the first `k` of `registers`, in order.
pub open spec fn release(st: AllocationState, registers: Seq<SSARegister>, k: int) -> AllocationState
    decreases k,
{
    if k <= 0 {
        st
    } else {
        let s = release(st, registers, k - 1);
        let r = registers[k - 1];
        match unassign(s.assignment, r) {
            (Some(v), rest) => AllocationState {
                assignment: rest,
                taken: s.taken.update(v as int, false),
                finished: assign(s.finished, r, v),
            },
            (None, _) => s,
        }
    }
}

/// The lowest free runtime register below 255, if any.
pub open spec fn lowest_free(taken: Seq<bool>) -> Option<Register> {
    if exists|r: int| 0 <= r < 255 && !taken[r] {
        let r = choose|r: int| 0 <= r < 255 && !taken[r] && forall|q: int| 0 <= q < r ==> taken[q];
        Some(r as u8)
    } else {
        None
    }
}

/// Assigns runtime registers to the registers whose lifetimes (the first `k` of `ls`)
/// start at `t`: a replacing register takes over the runtime register of the register
/// it replaces, any other takes the lowest free one. Argument registers, which already
/// have theirs, are left alone.
pub open spec fn create(
    st: AllocationState,
    ls: Seq<(SSARegister, SpecLifetime)>,
    preallocated: u8,
    t: InstructionTimestamp,
    k: int,
) -> Result<AllocationState, RegisterAllocationError>
    decreases k,
{
    if k <= 0 {
        Ok(st)
    } else {
        match create(st, ls, preallocated, t, k - 1) {
            Err(e) => Err(e),
            Ok(s) => {
                let (r, l) = ls[k - 1];
                if l.creation == Some(t) && (t != 0 || r >= preallocated) {
                    match l.replacing {
                        Some(replaced) => match unassign(s.assignment, replaced) {
                            (Some(v), rest) => Ok(AllocationState { assignment: assign(rest, r, v), ..s }),
                            (None, _) => Err(RegisterAllocationError::UnassignedRegister(replaced, t)),
                        },
                        None => match lowest_free(s.taken) {
                            Some(v) => Ok(
                                AllocationState {
                                    assignment: assign(s.assignment, r, v),
                                    taken: s.taken.update(v as int, true),
                                    ..s
                                },
                            ),
                            None => Err(RegisterAllocationError::NoFreeRegister(t)),
                        },
                    }
                } else {
                    Ok(s)
                }
            },
        }
    }
}

/// The runtime register that an operand read at this point uses: its own, or the one it
/// had until its last use, which is this instruction.
pub open spec fn input_register(st: AllocationState, r: SSARegister) -> Option<Register> {
    match assigned(st.assignment, r) {
        Some(v) => Some(v),
        None => assigned(st.finished, r),
    }
}

/// Whether every operand of `instruction` has a runtime register in `st`.
pub open spec fn operands_assigned(st: AllocationState, instruction: SSAInstruction) -> bool {
    instruction.operands_satisfy(
        |i: SSARegister| input_register(st, i) is Some,
        |o: SSARegister| assigned(st.assignment, o) is Some,
        |p: (SSARegister, SSARegister)| assigned(st.assignment, p.1) is Some,
    )
}

/// `instruction` with each operand replaced by its runtime register: a read register by
/// `input_register`, a written one by its assignment, and a replaced pair by the
/// assignment of the register that takes the result.
pub open spec fn allocate_operands(st: AllocationState, instruction: SSAInstruction) -> RuntimeInstruction {
    instruction.with_operands(
        |i: SSARegister| input_register(st, i)->0,
        |o: SSARegister| assigned(st.assignment, o)->0,
        |p: (SSARegister, SSARegister)| assigned(st.assignment, p.1)->0,
    )
}

/// The first of the read registers `s`, from position `k` on, without a runtime register.
pub open spec fn first_unassigned_input(st: AllocationState, s: Seq<SSARegister>, k: int) -> Option<SSARegister>
    decreases s.len() - k,
{
    if k < 0 || k >= s.len() {
        None
    } else if input_register(st, s[k]) is None {
        Some(s[k])
    } else {
        first_unassigned_input(st, s, k + 1)
    }
}

/// The first of the written registers `s`, from position `k` on, without a runtime
/// register.
pub open spec fn first_unassigned_output(st: AllocationState, s: Seq<SSARegister>, k: int) -> Option<SSARegister>
    decreases s.len() - k,
{
    if k < 0 || k >= s.len() {
        None
    } else if assigned(st.assignment, s[k]) is None {
        Some(s[k])
    } else {
        first_unassigned_output(st, s, k + 1)
    }
}

/// The first register that takes a replacement's result, among the pairs `s` from
/// position `k` on, without a runtime register.
pub open spec fn first_unassigned_replacement(
    st: AllocationState,
    s: Seq<(SSARegister, SSARegister)>,
    k: int,
) -> Option<SSARegister>
    decreases s.len() - k,
{
    if k < 0 || k >= s.len() {
        None
    } else if assigned(st.assignment, s[k].1) is None {
        Some(s[k].1)
    } else {
        first_unassigned_replacement(st, s, k + 1)
    }
}

/// The first operand of `instruction` without a runtime register: read operands first,
/// then written ones, then the registers that take replacements' results.
pub open spec fn first_unassigned(st: AllocationState, instruction: SSAInstruction) -> Option<SSARegister> {
    match first_unassigned_input(st, instruction.input_slots(), 0) {
        Some(r) => Some(r),
        None => match first_unassigned_output(st, instruction.output_slots(), 0) {
            Some(r) => Some(r),
            None => first_unassigned_replacement(st, instruction.replacement_slots(), 0),
        },
    }
}

/// The allocation state when a block starts: each argument register keeps its index.
pub open spec fn initial_allocation(preallocated: u8) -> AllocationState {
    AllocationState {
        assignment: Seq::new(preallocated as nat, |i: int| (i as SSARegister, i as Register)),
        taken: Seq::new(256, |i: int| i < preallocated),
        finished: Seq::empty(),
    }
}

/// One instruction's step: free the runtime registers of the registers last used here,
/// assign runtime registers to the registers created here, and rewrite the
/// instruction's operands. The state after, and the rewritten instruction, or the error.
pub open spec fn allocate_step(
    st: AllocationState,
    ls: Seq<(SSARegister, SpecLifetime)>,
    preallocated: u8,
    instruction: SSAInstruction,
    t: InstructionTimestamp,
) -> Result<AllocationState, RegisterAllocationError> {
    match finishing(st.assignment, ls, t, st.assignment.len() as int) {
        Err(e) => Err(e),
        Ok(f) => {
            let released = release(
                AllocationState { finished: Seq::empty(), ..st },
                f,
                f.len() as int,
            );
            create(released, ls, preallocated, t, ls.len() as int)
        },
    }
}

/// What allocating runtime registers to the first `n` instructions gives: the rewritten
/// instructions and the state after, or the first error.
pub open spec fn allocation_after(
    ls: Seq<(SSARegister, SpecLifetime)>,
    preallocated: u8,
    instructions: Seq<SSAInstruction>,
    n: int,
) -> Result<(Seq<RuntimeInstruction>, AllocationState), RegisterAllocationError>
    decreases n,
{
    if n <= 0 {
        Ok((Seq::empty(), initial_allocation(preallocated)))
    } else {
        let t = (n - 1) as u16;
        match allocation_after(ls, preallocated, instructions, n - 1) {
            Err(e) => Err(e),
            Ok((done, st)) => match allocate_step(st, ls, preallocated, instructions[n - 1], t) {
                Err(e) => Err(e),
                Ok(st2) => match first_unassigned(st2, instructions[n - 1]) {
                    Some(r) => Err(RegisterAllocationError::UnassignedRegister(r, t)),
                    None => Ok((done.push(allocate_operands(st2, instructions[n - 1])), st2)),
                },
            },
        }
    }
}

fn find_assigned(assignment: &Vec<(SSARegister, Register)>, r: SSARegister) -> (i: Option<usize>)
    ensures
        match i {
            Some(i) => i < assignment@.len() && first_index_of(
                assignment@.map_values(|p: (SSARegister, Register)| p.0),
                r,
            ) == i,
            None => first_index_of(assignment@.map_values(|p: (SSARegister, Register)| p.0), r)
                == -1,
        },
{
    let ghost keys = assignment@.map_values(|p: (SSARegister, Register)| p.0);
    let mut i: usize = 0;
    while i < assignment.len()
        invariant
            0 <= i <= assignment@.len(),
            keys == assignment@.map_values(|p: (SSARegister, Register)| p.0),
            forall|j: int| 0 <= j < i ==> keys[j] != r,
        decreases assignment@.len() - i,
    {
        if assignment[i].0 == r {
            proof {
                lemma_first_index_of(keys, r, i as int);
            }
            return Some(i);
        }
        i = i + 1;
    }
    proof {
        lemma_first_index_of(keys, r, keys.len() as int);
    }
    None
}

fn lookup(assignment: &Vec<(SSARegister, Register)>, r: SSARegister) -> (v: Option<Register>)
    ensures
        v == assigned(assignment@, r),
{
    match find_assigned(assignment, r) {
        Some(i) => Some(assignment[i].1),
        None => None,
    }
}

fn remove_assigned(assignment: &mut Vec<(SSARegister, Register)>, r: SSARegister) -> (v: Option<
    Register,
>)
    ensures
        (v, final(assignment)@) == unassign(old(assignment)@, r),
{
    match find_assigned(assignment, r) {
        Some(i) => {
            let (_, v) = assignment.remove(i);
            Some(v)
        },
        None => None,
    }
}

fn set_assigned(assignment: &mut Vec<(SSARegister, Register)>, r: SSARegister, v: Register)
    ensures
        final(assignment)@ == assign(old(assignment)@, r, v),
{
    match find_assigned(assignment, r) {
        Some(i) => {
            assignment.set(i, (r, v));
        },
        None => {
            assignment.push((r, v));
        },
    }
}

fn lowest_free_register(taken: &Vec<bool>) -> (v: Option<Register>)
    requires
        taken@.len() == 256,
    ensures
        v == lowest_free(taken@),
{
    let mut r: usize = 0;
    while r < 255
        invariant
            0 <= r <= 255,
            taken@.len() == 256,
            forall|q: int| 0 <= q < r ==> taken@[q],
        decreases 255 - r,
    {
        if !taken[r] {
            proof {
                assert(0 <= r < 255 && !taken@[r as int]);
                let c = choose|c: int| 0 <= c < 255 && !taken@[c] && forall|q: int| 0 <= q < c ==> taken@[q];
                assert(0 <= c < 255 && !taken@[c] && forall|q: int| 0 <= q < c ==> taken@[q]);
                if c < r {
                    assert(taken@[c]);
                } else if c > r {
                    assert(taken@[r as int]);
                }
                assert(c == r);
            }
            return Some(r as u8);
        }
        r = r + 1;
    }
    None
}

proof fn lemma_allocation_error_persists(
    ls: Seq<(SSARegister, SpecLifetime)>,
    preallocated: u8,
    instructions: Seq<SSAInstruction>,
    n: int,
)
    requires
        0 <= n <= instructions.len(),
        allocation_after(ls, preallocated, instructions, n) is Err,
    ensures
        allocation_after(ls, preallocated, instructions, instructions.len() as int)
            == allocation_after(ls, preallocated, instructions, n),
    decreases instructions.len() - n,
{
    if n < instructions.len() {
        lemma_allocation_error_persists(ls, preallocated, instructions, n + 1);
    }
}

proof fn lemma_finishing_error_persists(
    assignment: Seq<(SSARegister, Register)>,
    ls: Seq<(SSARegister, SpecLifetime)>,
    t: InstructionTimestamp,
    k: int,
)
    requires
        0 <= k <= assignment.len(),
        finishing(assignment, ls, t, k) is Err,
    ensures
        finishing(assignment, ls, t, assignment.len() as int) == finishing(assignment, ls, t, k),
    decreases assignment.len() - k,
{
    if k < assignment.len() {
        lemma_finishing_error_persists(assignment, ls, t, k + 1);
    }
}

proof fn lemma_create_error_persists(
    st: AllocationState,
    ls: Seq<(SSARegister, SpecLifetime)>,
    preallocated: u8,
    t: InstructionTimestamp,
    k: int,
)
    requires
        0 <= k <= ls.len(),
        create(st, ls, preallocated, t, k) is Err,
    ensures
        create(st, ls, preallocated, t, ls.len() as int) == create(st, ls, preallocated, t, k),
    decreases ls.len() - k,
{
    if k < ls.len() {
        lemma_create_error_persists(st, ls, preallocated, t, k + 1);
    }
}

proof fn lemma_first_unassigned_input(st: AllocationState, s: Seq<SSARegister>, k: int)
    requires
        0 <= k,
        first_unassigned_input(st, s, k) is None,
    ensures
        forall|x: int| k <= x < s.len() ==> input_register(st, #[trigger] s[x]) is Some,
    decreases s.len() - k,
{
    if k < s.len() {
        lemma_first_unassigned_input(st, s, k + 1);
    }
}

proof fn lemma_first_unassigned_output(st: AllocationState, s: Seq<SSARegister>, k: int)
    requires
        0 <= k,
        first_unassigned_output(st, s, k) is None,
    ensures
        forall|x: int| k <= x < s.len() ==> assigned(st.assignment, #[trigger] s[x]) is Some,
    decreases s.len() - k,
{
    if k < s.len() {
        lemma_first_unassigned_output(st, s, k + 1);
    }
}

proof fn lemma_first_unassigned_replacement(
    st: AllocationState,
    s: Seq<(SSARegister, SSARegister)>,
    k: int,
)
    requires
        0 <= k,
        first_unassigned_replacement(st, s, k) is None,
    ensures
        forall|x: int| k <= x < s.len() ==> assigned(st.assignment, (#[trigger] s[x]).1) is Some,
    decreases s.len() - k,
{
    if k < s.len() {
        lemma_first_unassigned_replacement(st, s, k + 1);
    }
}

/// The allocation state that the three vectors make up.
pub open spec fn state_of(
    assignment: Seq<(SSARegister, Register)>,
    taken: Seq<bool>,
    finished: Seq<(SSARegister, Register)>,
) -> AllocationState {
    AllocationState { assignment, taken, finished }
}

fn first_missing_input(assignment: &Vec<(SSARegister, Register)>, finished: &Vec<(SSARegister, Register)>, registers: &Vec<SSARegister>, Ghost(st): Ghost<AllocationState>) -> (r: Option<SSARegister>)
    requires
        st.assignment == assignment@,
        st.finished == finished@,
    ensures
        r == first_unassigned_input(st, registers@, 0),
{
    let mut q: usize = 0;
    while q < registers.len()
        invariant
            0 <= q <= registers@.len(),
            st.assignment == assignment@,
            st.finished == finished@,
            first_unassigned_input(st, registers@, 0) == first_unassigned_input(st, registers@, q as int),
        decreases registers@.len() - q,
    {
        let i = registers[q];
        if lookup(assignment, i).is_none() && lookup(finished, i).is_none() {
            return Some(i);
        }
        q = q + 1;
    }
    None
}

fn first_missing_output(assignment: &Vec<(SSARegister, Register)>, registers: &Vec<SSARegister>, Ghost(st): Ghost<AllocationState>) -> (r: Option<SSARegister>)
    requires
        st.assignment == assignment@,
    ensures
        r == first_unassigned_output(st, registers@, 0),
{
    let mut q: usize = 0;
    while q < registers.len()
        invariant
            0 <= q <= registers@.len(),
            st.assignment == assignment@,
            first_unassigned_output(st, registers@, 0) == first_unassigned_output(st, registers@, q as int),
        decreases registers@.len() - q,
    {
        let o = registers[q];
        if lookup(assignment, o).is_none() {
            return Some(o);
        }
        q = q + 1;
    }
    None
}

fn first_missing_replacement(assignment: &Vec<(SSARegister, Register)>, pairs: &Vec<(SSARegister, SSARegister)>, Ghost(st): Ghost<AllocationState>) -> (r: Option<SSARegister>)
    requires
        st.assignment == assignment@,
    ensures
        r == first_unassigned_replacement(st, pairs@, 0),
{
    let mut q: usize = 0;
    while q < pairs.len()
        invariant
            0 <= q <= pairs@.len(),
            st.assignment == assignment@,
            first_unassigned_replacement(st, pairs@, 0) == first_unassigned_replacement(st, pairs@, q as int),
        decreases pairs@.len() - q,
    {
        let (_, o) = pairs[q];
        if lookup(assignment, o).is_none() {
            return Some(o);
        }
        q = q + 1;
    }
    None
}

fn allocate_block(
    preallocated_registers: u8,
    instructions: &Vec<SSAInstruction>,
    lifetimes: &Lifetimes,
) -> (r: Result<Vec<RuntimeInstruction>, RegisterAllocationError>)
    ensures
        match allocation_after(
            lifetimes@,
            preallocated_registers,
            instructions@,
            instructions@.len() as int,
        ) {
            Ok((done, _)) => r is Ok && r->Ok_0@ == done,
            Err(e) => r == Err::<Vec<RuntimeInstruction>, RegisterAllocationError>(e),
        },
{
    let ghost ls = lifetimes@;
    let mut assignment: Vec<(SSARegister, Register)> = Vec::new();
    let mut taken: Vec<bool> = Vec::new();
    let mut i: usize = 0;
    while i < 256
        invariant
            0 <= i <= 256,
            taken@ == Seq::new(i as nat, |j: int| j < preallocated_registers),
        decreases 256 - i,
    {
        taken.push(i < preallocated_registers as usize);
        proof {
            assert(taken@ =~= Seq::new((i + 1) as nat, |j: int| j < preallocated_registers));
        }
        i = i + 1;
    }
    let mut p: u8 = 0;
    while p < preallocated_registers
        invariant
            p <= preallocated_registers,
            assignment@ == Seq::new(p as nat, |j: int| (j as SSARegister, j as Register)),
        decreases preallocated_registers - p,
    {
        assignment.push((p as usize, p));
        proof {
            assert(assignment@ =~= Seq::new((p + 1) as nat, |j: int| (j as SSARegister, j as Register)));
        }
        p = p + 1;
    }
    let mut finished: Vec<(SSARegister, Register)> = Vec::new();
    let mut done: Vec<RuntimeInstruction> = Vec::new();
    proof {
        assert(state_of(assignment@, taken@, finished@) =~= initial_allocation(preallocated_registers));
    }
    let mut timestamp: usize = 0;
    while timestamp < instructions.len()
        invariant
            0 <= timestamp <= instructions@.len(),
            ls == lifetimes@,
            taken@.len() == 256,
            allocation_after(ls, preallocated_registers, instructions@, timestamp as int) == Ok::<
                (Seq<RuntimeInstruction>, AllocationState),
                RegisterAllocationError,
            >((done@, state_of(assignment@, taken@, finished@))),
        decreases instructions@.len() - timestamp,
    {
        let t = timestamp as u16;
        let instruction = instructions[timestamp];
        let ghost st0 = state_of(assignment@, taken@, finished@);
        let mut finishing_now: Vec<SSARegister> = Vec::new();
        let mut k: usize = 0;
        while k < assignment.len()
            invariant
                0 <= k <= assignment@.len(),
                assignment@ == st0.assignment,
                ls == lifetimes@,
                timestamp < instructions@.len(),
                t == timestamp as u16,
                instruction == instructions@[timestamp as int],
                allocation_after(ls, preallocated_registers, instructions@, timestamp as int) == Ok::<
                    (Seq<RuntimeInstruction>, AllocationState),
                    RegisterAllocationError,
                >((done@, st0)),

                finishing(assignment@, ls, t, k as int) == Ok::<
                    Seq<SSARegister>,
                    RegisterAllocationError,
                >(finishing_now@),
            decreases assignment@.len() - k,
        {
            let r = assignment[k].0;
            match lifetimes.get(r) {
                None => {
                    proof {
                        lemma_finishing_error_persists(assignment@, ls, t, k + 1);
                        lemma_allocation_error_persists(ls, preallocated_registers, instructions@, timestamp + 1);
                    }
                    return Err(RegisterAllocationError::MissingLifetime(r));
                },
                Some(l) => {
                    if l.replaced_by.is_none() && l.last_usage() == Some(t) {
                        finishing_now.push(r);
                    }
                },
            }
            k = k + 1;
        }
        let ghost released_start = AllocationState { finished: Seq::empty(), ..st0 };
        finished = Vec::new();
        let mut j: usize = 0;
        while j < finishing_now.len()
            invariant
                0 <= j <= finishing_now@.len(),
                taken@.len() == 256,
                ls == lifetimes@,
                finishing(st0.assignment, ls, t, st0.assignment.len() as int) == Ok::<
                    Seq<SSARegister>,
                    RegisterAllocationError,
                >(finishing_now@),
                timestamp < instructions@.len(),
                t == timestamp as u16,
                instruction == instructions@[timestamp as int],
                allocation_after(ls, preallocated_registers, instructions@, timestamp as int) == Ok::<
                    (Seq<RuntimeInstruction>, AllocationState),
                    RegisterAllocationError,
                >((done@, st0)),

                release(released_start, finishing_now@, j as int) == state_of(
                    assignment@,
                    taken@,
                    finished@,
                ),
            decreases finishing_now@.len() - j,
        {
            let r = finishing_now[j];
            match remove_assigned(&mut assignment, r) {
                Some(v) => {
                    taken.set(v as usize, false);
                    set_assigned(&mut finished, r, v);
                },
                None => {},
            }
            j = j + 1;
        }
        let ghost released = state_of(assignment@, taken@, finished@);
        k = 0;
        while k < lifetimes.entries.len()
            invariant
                0 <= k <= lifetimes@.len(),
                ls == lifetimes@,
                lifetimes@.len() == lifetimes.entries@.len(),
                taken@.len() == 256,
                finishing(st0.assignment, ls, t, st0.assignment.len() as int) == Ok::<
                    Seq<SSARegister>,
                    RegisterAllocationError,
                >(finishing_now@),
                released == release(released_start, finishing_now@, finishing_now@.len() as int),
                released_start == (AllocationState { finished: Seq::empty(), ..st0 }),
                timestamp < instructions@.len(),
                t == timestamp as u16,
                instruction == instructions@[timestamp as int],
                allocation_after(ls, preallocated_registers, instructions@, timestamp as int) == Ok::<
                    (Seq<RuntimeInstruction>, AllocationState),
                    RegisterAllocationError,
                >((done@, st0)),

                create(released, ls, preallocated_registers, t, k as int) == Ok::<
                    AllocationState,
                    RegisterAllocationError,
                >(state_of(assignment@, taken@, finished@)),
            decreases lifetimes@.len() - k,
        {
            let r = lifetimes.entries[k].0;
            let l = &lifetimes.entries[k].1;
            proof {
                assert(ls[k as int] == (r, l.model()));
            }
            if l.creation == Some(t) && (t != 0 || r >= preallocated_registers as usize) {
                match l.replacing {
                    Some(replaced) => match remove_assigned(&mut assignment, replaced) {
                        Some(v) => {
                            set_assigned(&mut assignment, r, v);
                        },
                        None => {
                            proof {
                                lemma_create_error_persists(released, ls, preallocated_registers, t, k + 1);
                                lemma_allocation_error_persists(ls, preallocated_registers, instructions@, timestamp + 1);
                            }
                            return Err(RegisterAllocationError::UnassignedRegister(replaced, t));
                        },
                    },
                    None => match lowest_free_register(&taken) {
                        Some(v) => {
                            set_assigned(&mut assignment, r, v);
                            taken.set(v as usize, true);
                        },
                        None => {
                            proof {
                                lemma_create_error_persists(released, ls, preallocated_registers, t, k + 1);
                                lemma_allocation_error_persists(ls, preallocated_registers, instructions@, timestamp + 1);
                            }
                            return Err(RegisterAllocationError::NoFreeRegister(t));
                        },
                    },
                }
            }
            k = k + 1;
        }
        let ghost st2 = state_of(assignment@, taken@, finished@);
        proof {
            assert(allocate_step(st0, ls, preallocated_registers, instruction, t) == Ok::<
                AllocationState,
                RegisterAllocationError,
            >(st2));
        }
        let slots = instruction.slots();
        let missing = match first_missing_input(&assignment, &finished, &slots.inputs, Ghost(st2)) {
            Some(r) => Some(r),
            None => match first_missing_output(&assignment, &slots.outputs, Ghost(st2)) {
                Some(r) => Some(r),
                None => first_missing_replacement(&assignment, &slots.replacements, Ghost(st2)),
            },
        };
        if let Some(r) = missing {
            proof {
                lemma_allocation_error_persists(ls, preallocated_registers, instructions@, timestamp + 1);
            }
            return Err(RegisterAllocationError::UnassignedRegister(r, t));
        }
        proof {
            lemma_first_unassigned_input(st2, instruction.input_slots(), 0);
            lemma_first_unassigned_output(st2, instruction.output_slots(), 0);
            lemma_first_unassigned_replacement(st2, instruction.replacement_slots(), 0);
        }
        let input_fn = |i: SSARegister| -> (v: Register)
            requires
                input_register(state_of(assignment@, taken@, finished@), i) is Some,
            ensures
                input_register(state_of(assignment@, taken@, finished@), i)->0 == v,
            {
                match lookup(&assignment, i) {
                    Some(v) => v,
                    None => match lookup(&finished, i) {
                        Some(v) => v,
                        None => 0,
                    },
                }
            };
        let output_fn = |o: SSARegister| -> (v: Register)
            requires
                assigned(assignment@, o) is Some,
            ensures
                assigned(assignment@, o)->0 == v,
            {
                match lookup(&assignment, o) {
                    Some(v) => v,
                    None => 0,
                }
            };
        let replacement_fn = |p: (SSARegister, SSARegister)| -> (v: Register)
            requires
                assigned(assignment@, p.1) is Some,
            ensures
                assigned(assignment@, p.1)->0 == v,
            {
                match lookup(&assignment, p.1) {
                    Some(v) => v,
                    None => 0,
                }
            };
        proof {
            instruction.lemma_operands_satisfy(
                |i: SSARegister| input_fn.requires((i,)),
                |o: SSARegister| output_fn.requires((o,)),
                |p: (SSARegister, SSARegister)| replacement_fn.requires((p,)),
            );
        }
        let translated = instruction.translate(input_fn, output_fn, replacement_fn);
        proof {
            let fi = |i: SSARegister| input_register(st2, i)->0;
            let fo = |o: SSARegister| assigned(st2.assignment, o)->0;
            let fr = |p: (SSARegister, SSARegister)| assigned(st2.assignment, p.1)->0;
            instruction.lemma_translated_into_weaken(
                translated,
                |i: SSARegister, n: Register| input_fn.ensures((i,), n),
                |o: SSARegister, n: Register| output_fn.ensures((o,), n),
                |p: (SSARegister, SSARegister), n: Register| replacement_fn.ensures((p,), n),
                |i: SSARegister, n: Register| fi(i) == n,
                |o: SSARegister, n: Register| fo(o) == n,
                |p: (SSARegister, SSARegister), n: Register| fr(p) == n,
            );
            instruction.lemma_translated_into_functional(translated, fi, fo, fr);
        }
        done.push(translated);
        timestamp = timestamp + 1;
    }
    Ok(done)
}

/// The largest of `current` and the registers of `registers`.
pub open spec fn max_over_registers(current: int, registers: Seq<Register>) -> int
    decreases registers.len(),
{
    if registers.len() == 0 {
        current
    } else {
        let m = max_over_registers(current, registers.drop_last());
        if registers.last() > m {
            registers.last() as int
        } else {
            m
        }
    }
}

/// The largest register that the first `n` instructions use, or 0.
pub open spec fn runtime_max_prefix(instructions: Seq<RuntimeInstruction>, n: int) -> int
    decreases n,
{
    if n <= 0 {
        0
    } else {
        let i = instructions[n - 1];
        max_over_registers(
            max_over_registers(
                max_over_registers(runtime_max_prefix(instructions, n - 1), i.spec_inputs()),
                i.spec_outputs(),
            ),
            i.spec_replacements(),
        )
    }
}

/// The largest register that a block of bytecode uses, or 0.
pub open spec fn spec_max_register(instructions: Seq<RuntimeInstruction>) -> int {
    runtime_max_prefix(instructions, instructions.len() as int)
}

fn max_of_registers(current: Register, registers: &Vec<Register>) -> (m: Register)
    ensures
        m == max_over_registers(current as int, registers@),
{
    let mut m = current;
    let mut i: usize = 0;
    while i < registers.len()
        invariant
            0 <= i <= registers@.len(),
            m == max_over_registers(current as int, registers@.take(i as int)),
        decreases registers@.len() - i,
    {
        proof {
            assert(registers@.take(i + 1).drop_last() =~= registers@.take(i as int));
        }
        if registers[i] > m {
            m = registers[i];
        }
        i = i + 1;
    }
    proof {
        assert(registers@.take(registers@.len() as int) =~= registers@);
    }
    m
}

/// The largest register that a block of bytecode uses, or 0: how far its frame reaches
/// into the stack.
pub fn get_max_register(instructions: &Vec<RuntimeInstruction>) -> (m: Register)
    requires
        all_have_usages(instructions@),
    ensures
        m == spec_max_register(instructions@),
{
    let mut m: Register = 0;
    let mut i: usize = 0;
    while i < instructions.len()
        invariant
            0 <= i <= instructions@.len(),
            all_have_usages(instructions@),
            m == runtime_max_prefix(instructions@, i as int),
        decreases instructions@.len() - i,
    {
        proof {
            assert(instructions@[i as int].has_usages());
        }
        let usages = instructions[i].usages();
        m = max_of_registers(m, &usages.inputs);
        m = max_of_registers(m, &usages.outputs);
        m = max_of_registers(m, &usages.replacements);
        i = i + 1;
    }
    m
}

proof fn lemma_allocation_has_usages(
    ls: Seq<(SSARegister, SpecLifetime)>,
    preallocated: u8,
    instructions: Seq<SSAInstruction>,
    n: int,
)
    requires
        0 <= n <= instructions.len(),
        all_have_usages(instructions),
    ensures
        allocation_after(ls, preallocated, instructions, n) matches Ok((done, _)) ==> all_have_usages(done),
    decreases n,
{
    if n > 0 {
        lemma_allocation_has_usages(ls, preallocated, instructions, n - 1);
        if let Ok((done, st)) = allocation_after(ls, preallocated, instructions, n) {
            let (before, st1) = allocation_after(ls, preallocated, instructions, n - 1)->Ok_0;
            let st2 = allocate_step(st1, ls, preallocated, instructions[n - 1], (n - 1) as u16)->Ok_0;
            assert(instructions[n - 1].has_usages());
            assert(allocate_operands(st2, instructions[n - 1]).has_usages());
            assert(done == before.push(allocate_operands(st2, instructions[n - 1])));
        }
    }
}

/// What register allocation makes of one block: the instructions with runtime registers
/// (see `allocation_after`), its constants, and the largest register used; or the error.
pub open spec fn allocated_block(
    preallocated: u8,
    instructions: Seq<SSAInstruction>,
    constants: Seq<GenericValue<Register, Register, Register, Register>>,
    lifetimes: Lifetimes,
    r: Result<Block, RegisterAllocationError>,
) -> bool {
    match allocation_after(lifetimes@, preallocated, instructions, instructions.len() as int) {
        Ok((done, _)) => r is Ok && r->Ok_0.instructions@ == done && r->Ok_0.constants@ == constants
            && r->Ok_0.metadata == spec_max_register(done),
        Err(e) => r == Err::<Block, RegisterAllocationError>(e),
    }
}

/// The outcomes of allocating the registers of one block.
pub open spec fn allocation_outcomes() -> spec_fn(u8, Seq<SSAInstruction>, Seq<GenericValue<Register, Register, Register, Register>>, Lifetimes, Result<Block, RegisterAllocationError>) -> bool {
    |p: u8, i: Seq<SSAInstruction>, c: Seq<GenericValue<Register, Register, Register, Register>>, m: Lifetimes, r: Result<Block, RegisterAllocationError>| allocated_block(p, i, c, m, r)
}

/// Gives every block (the given one, and those of the functions among its constants)
/// runtime registers in place of its virtual registers, using the lifetimes attached to
/// it (see `allocation_after`): a register is freed after its last use and reused by
/// the next register created, at the lowest free index.
pub fn allocate_registers(block: SSABlock<Lifetimes>) -> (r: Result<Block, RegisterAllocationError>)
    requires
        block_has_usages(block),
    ensures
        block_translation(
            block,
            0,
            r,
            allocation_outcomes(),
        ),
{
    let translator = |
        preallocated_registers: u8,
        instructions: Vec<SSAInstruction>,
        constants: Vec<GenericValue<Register, Register, Register, Register>>,
        lifetimes: &Lifetimes,
    | -> (r: Result<Block, RegisterAllocationError>)
        requires
            all_have_usages(instructions@),
        ensures
            allocated_block(preallocated_registers, instructions@, constants@, *lifetimes, r),
        {
            let translated = match allocate_block(preallocated_registers, &instructions, lifetimes) {
                Ok(t) => t,
                Err(e) => {
                    return Err(e);
                },
            };
            proof {
                lemma_allocation_has_usages(
                    lifetimes@,
                    preallocated_registers,
                    instructions@,
                    instructions@.len() as int,
                );
            }
            let max = get_max_register(&translated);
            Ok(GenericBlock::new_with_metadata(translated, constants, max))
        };
    let r = block.translate(&translator);
    proof {
        lemma_block_translation_weaken(
            block,
            0,
            r,
            block_outcomes(translator),
            allocation_outcomes(),
        );
    }
    r
}

/// Whether no virtual register appears twice in `assignment` and no two of them share
/// a runtime register.
pub open spec fn distinct_entries(assignment: Seq<(SSARegister, Register)>) -> bool {
    forall|i: int, j: int|
        #![trigger assignment[i], assignment[j]]
        0 <= i < assignment.len() && 0 <= j < assignment.len() && i != j ==> assignment[i].0
            != assignment[j].0 && assignment[i].1 != assignment[j].1
}

/// Whether every runtime register of `assignment` is marked taken.
pub open spec fn all_taken(assignment: Seq<(SSARegister, Register)>, taken: Seq<bool>) -> bool {
    forall|i: int| 0 <= i < assignment.len() ==> taken[(#[trigger] assignment[i]).1 as int]
}

/// Whether an allocation state is sound: the virtual registers that hold values have
/// runtime registers of their own, each marked taken.
pub open spec fn well_assigned(st: AllocationState) -> bool {
    &&& st.taken.len() == 256
    &&& distinct_entries(st.assignment)
    &&& all_taken(st.assignment, st.taken)
}

proof fn lemma_unassign_sound(assignment: Seq<(SSARegister, Register)>, taken: Seq<bool>, r: SSARegister)
    requires
        distinct_entries(assignment),
        all_taken(assignment, taken),
    ensures
        distinct_entries(unassign(assignment, r).1),
        all_taken(unassign(assignment, r).1, taken),
        unassign(assignment, r).0 matches Some(v) ==> {
            &&& taken[v as int]
            &&& forall|k: int|
                0 <= k < unassign(assignment, r).1.len() ==> (#[trigger] unassign(
                    assignment,
                    r,
                ).1[k]).1 != v
        },
        unassign(assignment, r).0 is None ==> unassign(assignment, r).1 == assignment,
{
    let keys = assignment.map_values(|p: (SSARegister, Register)| p.0);
    lemma_first_index_of_bounds(keys, r);
    let i = first_index_of(keys, r);
    if 0 <= i < assignment.len() {
        let rest = assignment.remove(i);
        assert(taken[assignment[i].1 as int]);
        assert forall|a: int, b: int|
            #![trigger rest[a], rest[b]]
            0 <= a < rest.len() && 0 <= b < rest.len() && a != b implies rest[a].0 != rest[b].0
                && rest[a].1 != rest[b].1 by {
            let a2 = if a < i { a } else { a + 1 };
            let b2 = if b < i { b } else { b + 1 };
            assert(rest[a] == assignment[a2]);
            assert(rest[b] == assignment[b2]);
        }
        assert forall|k: int| 0 <= k < rest.len() implies taken[(#[trigger] rest[k]).1 as int]
            && rest[k].1 != assignment[i].1 by {
            let k2 = if k < i { k } else { k + 1 };
            assert(rest[k] == assignment[k2]);
        }
    }
}

proof fn lemma_assign_sound(
    assignment: Seq<(SSARegister, Register)>,
    taken: Seq<bool>,
    r: SSARegister,
    v: Register,
)
    requires
        distinct_entries(assignment),
        all_taken(assignment, taken),
        taken[v as int],
        forall|k: int| 0 <= k < assignment.len() ==> (#[trigger] assignment[k]).1 != v,
    ensures
        distinct_entries(assign(assignment, r, v)),
        all_taken(assign(assignment, r, v), taken),
{
    let keys = assignment.map_values(|p: (SSARegister, Register)| p.0);
    lemma_first_index_of_bounds(keys, r);
    let i = first_index_of(keys, r);
    let after = assign(assignment, r, v);
    if 0 <= i < assignment.len() {
        assert forall|a: int, b: int|
            #![trigger after[a], after[b]]
            0 <= a < after.len() && 0 <= b < after.len() && a != b implies after[a].0 != after[b].0
                && after[a].1 != after[b].1 by {
            assert(keys[i] == r);
            if a != i {
                assert(after[a] == assignment[a]);
                assert(keys[a] == assignment[a].0);
            }
            if b != i {
                assert(after[b] == assignment[b]);
                assert(keys[b] == assignment[b].0);
            }
        }
        assert forall|k: int| 0 <= k < after.len() implies taken[(#[trigger] after[k]).1 as int] by {
            if k != i {
                assert(after[k] == assignment[k]);
            }
        }
    } else {
        lemma_first_index_absent(keys, r);
        assert forall|a: int, b: int|
            #![trigger after[a], after[b]]
            0 <= a < after.len() && 0 <= b < after.len() && a != b implies after[a].0 != after[b].0
                && after[a].1 != after[b].1 by {
            if a < assignment.len() {
                assert(keys[a] == assignment[a].0);
                assert(after[a] == assignment[a]);
            }
            if b < assignment.len() {
                assert(keys[b] == assignment[b].0);
                assert(after[b] == assignment[b]);
            }
        }
        assert forall|k: int| 0 <= k < after.len() implies taken[(#[trigger] after[k]).1 as int] by {
            if k < assignment.len() {
                assert(after[k] == assignment[k]);
            }
        }
    }
}

proof fn lemma_release_sound(st: AllocationState, registers: Seq<SSARegister>, k: int)
    requires
        well_assigned(st),
    ensures
        well_assigned(release(st, registers, k)),
    decreases k,
{
    if k > 0 {
        lemma_release_sound(st, registers, k - 1);
        let s = release(st, registers, k - 1);
        let r = registers[k - 1];
        lemma_unassign_sound(s.assignment, s.taken, r);
        if let (Some(v), rest) = unassign(s.assignment, r) {
            let freed = s.taken.update(v as int, false);
            assert forall|i: int| 0 <= i < rest.len() implies freed[(#[trigger] rest[i]).1 as int] by {
                assert(rest[i].1 != v);
            }
        }
    }
}

proof fn lemma_lowest_free_exists(taken: Seq<bool>, r: int)
    requires
        0 <= r < 255,
        !taken[r],
    ensures
        exists|c: int| 0 <= c < 255 && !taken[c] && forall|q: int| 0 <= q < c ==> taken[q],
    decreases r,
{
    if exists|q: int| 0 <= q < r && !taken[q] {
        let q = choose|q: int| 0 <= q < r && !taken[q];
        lemma_lowest_free_exists(taken, q);
    } else {
        assert(0 <= r < 255 && !taken[r] && forall|q: int| 0 <= q < r ==> taken[q]);
    }
}

proof fn lemma_lowest_free_is_free(taken: Seq<bool>)
    requires
        lowest_free(taken) is Some,
    ensures
        (lowest_free(taken)->0 as int) < 255,
        !taken[lowest_free(taken)->0 as int],
{
    let r = choose|r: int| 0 <= r < 255 && !taken[r];
    lemma_lowest_free_exists(taken, r);
}

proof fn lemma_create_sound(
    st: AllocationState,
    ls: Seq<(SSARegister, SpecLifetime)>,
    preallocated: u8,
    t: InstructionTimestamp,
    k: int,
)
    requires
        well_assigned(st),
        create(st, ls, preallocated, t, k) is Ok,
    ensures
        well_assigned(create(st, ls, preallocated, t, k)->Ok_0),
    decreases k,
{
    if k > 0 {
        lemma_create_sound(st, ls, preallocated, t, k - 1);
        let s = create(st, ls, preallocated, t, k - 1)->Ok_0;
        let (r, l) = ls[k - 1];
        if l.creation == Some(t) && (t != 0 || r >= preallocated) {
            match l.replacing {
                Some(replaced) => {
                    lemma_unassign_sound(s.assignment, s.taken, replaced);
                    let (o, rest) = unassign(s.assignment, replaced);
                    let v = o->Some_0;
                    lemma_assign_sound(rest, s.taken, r, v);
                },
                None => {
                    lemma_lowest_free_is_free(s.taken);
                    let v = lowest_free(s.taken)->Some_0;
                    let taken = s.taken.update(v as int, true);
                    assert forall|i: int| 0 <= i < s.assignment.len() implies (#[trigger] s.assignment[i]).1
                        != v by {
                        assert(s.taken[s.assignment[i].1 as int]);
                    }
                    assert forall|i: int| 0 <= i < s.assignment.len() implies taken[(
                    #[trigger] s.assignment[i]).1 as int] by {
                        assert(s.taken[s.assignment[i].1 as int]);
                    }
                    lemma_assign_sound(s.assignment, taken, r, v);
                },
            }
        }
    }
}

/// Register allocation never gives one runtime register to two virtual registers that
/// hold values at the same time: after any number of instructions, the virtual registers
/// that hold values each have a runtime register of their own, marked taken.
pub proof fn law_live_registers_distinct(
    ls: Seq<(SSARegister, SpecLifetime)>,
    preallocated: u8,
    instructions: Seq<SSAInstruction>,
    n: int,
)
    requires
        allocation_after(ls, preallocated, instructions, n) is Ok,
    ensures
        well_assigned(allocation_after(ls, preallocated, instructions, n)->Ok_0.1),
    decreases n,
{
    if n <= 0 {
        let st = initial_allocation(preallocated);
        assert forall|i: int, j: int|
            #![trigger st.assignment[i], st.assignment[j]]
            0 <= i < st.assignment.len() && 0 <= j < st.assignment.len() && i != j implies st.assignment[i].0
                != st.assignment[j].0 && st.assignment[i].1 != st.assignment[j].1 by {
            assert(st.assignment[i] == (i as SSARegister, i as Register));
            assert(st.assignment[j] == (j as SSARegister, j as Register));
        }
    } else {
        let t = (n - 1) as u16;
        law_live_registers_distinct(ls, preallocated, instructions, n - 1);
        let st = allocation_after(ls, preallocated, instructions, n - 1)->Ok_0.1;
        let f = finishing(st.assignment, ls, t, st.assignment.len() as int)->Ok_0;
        let cleared = AllocationState { finished: Seq::empty(), ..st };
        lemma_release_sound(cleared, f, f.len() as int);
        let released = release(cleared, f, f.len() as int);
        lemma_create_sound(released, ls, preallocated, t, ls.len() as int);
    }
}

} // verus!
