use vstd::prelude::*;
use crate::blocks::{
    all_have_usages, block_has_usages, block_outcomes, block_translation, constants_in_range,
    lemma_block_translation_weaken, outcome_keeps_usages, values_have_usages, GenericBlock,
};
use crate::compiler::error::{lifetime_compilation_error, CompilationError};
use crate::compiler::transformations::lifetimes::{
    calculate_register_lifetimes, spec_lifetime_of, spec_register_lifetimes, Lifetimes,
    SpecLifetime,
};
use crate::compiler::{SSABlock, SSAInstruction, SSARegister, SSAValue};
use crate::instructions::Instruction;
use crate::runtime::core_functions::CoreFnId;
use crate::runtime::data::GenericValue;
use vstd::wrapping::usize_specs::wrapping_add;

verus! {

/// The largest of `current` and the registers of `registers`.
pub open spec fn max_over(current: int, registers: Seq<SSARegister>) -> int
    decreases registers.len(),
{
    if registers.len() == 0 {
        current
    } else {
        let m = max_over(current, registers.drop_last());
        if registers.last() > m {
            registers.last() as int
        } else {
            m
        }
    }
}

/// The largest of `current` and the registers of the pairs of `pairs`.
pub open spec fn max_over_pairs(current: int, pairs: Seq<(SSARegister, SSARegister)>) -> int
    decreases pairs.len(),
{
    if pairs.len() == 0 {
        current
    } else {
        let m = max_over_pairs(current, pairs.drop_last());
        let m1 = if pairs.last().0 > m {
            pairs.last().0 as int
        } else {
            m
        };
        if pairs.last().1 > m1 {
            pairs.last().1 as int
        } else {
            m1
        }
    }
}

/// The largest of `current` and the registers that `instruction` uses.
pub open spec fn instruction_max(current: int, instruction: SSAInstruction) -> int {
    max_over_pairs(
        max_over(max_over(current, instruction.spec_inputs()), instruction.spec_outputs()),
        instruction.spec_replacements(),
    )
}

/// The largest register among the first `preallocated` and those that the first `n`
/// instructions use.
pub open spec fn max_register_prefix(preallocated: u8, instructions: Seq<SSAInstruction>, n: int) -> int
    decreases n,
{
    if n <= 0 {
        if preallocated > 0 {
            preallocated - 1
        } else {
            0
        }
    } else {
        instruction_max(max_register_prefix(preallocated, instructions, n - 1), instructions[n - 1])
    }
}

/// The largest register that a block uses, counting its `preallocated` argument
/// registers (and 0 for a block that uses none).
pub open spec fn spec_max_ssa_register(preallocated: u8, instructions: Seq<SSAInstruction>) -> int {
    max_register_prefix(preallocated, instructions, instructions.len() as int)
}

proof fn lemma_max_over_bounds(current: int, registers: Seq<SSARegister>)
    requires
        0 <= current <= usize::MAX,
    ensures
        current <= max_over(current, registers) <= usize::MAX,
    decreases registers.len(),
{
    if registers.len() > 0 {
        lemma_max_over_bounds(current, registers.drop_last());
    }
}

proof fn lemma_max_over_pairs_bounds(current: int, pairs: Seq<(SSARegister, SSARegister)>)
    requires
        0 <= current <= usize::MAX,
    ensures
        current <= max_over_pairs(current, pairs) <= usize::MAX,
    decreases pairs.len(),
{
    if pairs.len() > 0 {
        lemma_max_over_pairs_bounds(current, pairs.drop_last());
    }
}

fn max_of(current: usize, registers: &Vec<SSARegister>) -> (m: usize)
    ensures
        m == max_over(current as int, registers@),
{
    let mut m = current;
    let mut i: usize = 0;
    while i < registers.len()
        invariant
            0 <= i <= registers@.len(),
            m == max_over(current as int, registers@.take(i as int)),
        decreases registers@.len() - i,
    {
        proof {
            assert(registers@.take(i + 1).drop_last() =~= registers@.take(i as int));
        }
        if registers[i] > m {
            m = registers[i];
        }
        i = i + 1;
    }
    proof {
        assert(registers@.take(registers@.len() as int) =~= registers@);
    }
    m
}

fn max_of_pairs(current: usize, pairs: &Vec<(SSARegister, SSARegister)>) -> (m: usize)
    ensures
        m == max_over_pairs(current as int, pairs@),
{
    let mut m = current;
    let mut i: usize = 0;
    while i < pairs.len()
        invariant
            0 <= i <= pairs@.len(),
            m == max_over_pairs(current as int, pairs@.take(i as int)),
        decreases pairs@.len() - i,
    {
        proof {
            assert(pairs@.take(i + 1).drop_last() =~= pairs@.take(i as int));
        }
        let (old_register, new_register) = pairs[i];
        if old_register > m {
            m = old_register;
        }
        if new_register > m {
            m = new_register;
        }
        i = i + 1;
    }
    proof {
        assert(pairs@.take(pairs@.len() as int) =~= pairs@);
    }
    m
}

/// The largest register that a block uses (see `spec_max_ssa_register`).
pub fn get_max_ssa_register(preallocated_registers: u8, instructions: &Vec<SSAInstruction>) -> (m:
    SSARegister)
    requires
        all_have_usages(instructions@),
    ensures
        m == spec_max_ssa_register(preallocated_registers, instructions@),
{
    let mut m: usize = if preallocated_registers > 0 {
        (preallocated_registers - 1) as usize
    } else {
        0
    };
    let mut i: usize = 0;
    while i < instructions.len()
        invariant
            0 <= i <= instructions@.len(),
            all_have_usages(instructions@),
            m == max_register_prefix(preallocated_registers, instructions@, i as int),
        decreases instructions@.len() - i,
    {
        proof {
            assert(instructions@[i as int].has_usages());
        }
        let usages = instructions[i].usages();
        m = max_of(m, &usages.inputs);
        m = max_of(m, &usages.outputs);
        m = max_of_pairs(m, &usages.replacements);
        i = i + 1;
    }
    m
}

/// How many `Call` instructions `s` holds.
pub open spec fn count_calls(s: Seq<SSAInstruction>) -> nat
    decreases s.len(),
{
    if s.len() == 0 {
        0
    } else {
        count_calls(s.drop_last()) + if s.last() is Call {
            1nat
        } else {
            0nat
        }
    }
}

pub proof fn lemma_count_calls_append(a: Seq<SSAInstruction>, b: Seq<SSAInstruction>)
    ensures
        count_calls(a + b) == count_calls(a) + count_calls(b),
    decreases b.len(),
{
    if b.len() > 0 {
        assert((a + b).drop_last() =~= a + b.drop_last());
        lemma_count_calls_append(a, b.drop_last());
    } else {
        assert(a + b =~= a);
    }
}

pub proof fn lemma_count_calls_none(s: Seq<SSAInstruction>)
    requires
        forall|k: int| 0 <= k < s.len() ==> !(#[trigger] s[k] is Call),
    ensures
        count_calls(s) == 0,
    decreases s.len(),
{
    if s.len() > 0 {
        lemma_count_calls_none(s.drop_last());
    }
}

/// Whether `i` passes an argument to the call before it.
pub open spec fn is_argument(i: SSAInstruction) -> bool {
    i is CopyArgument || i is StealArgument
}

/// The register that an argument instruction passes.
pub open spec fn argument_register(i: SSAInstruction) -> SSARegister {
    match i {
        Instruction::CopyArgument(r) => r,
        Instruction::StealArgument(r) => r,
        _ => 0,
    }
}

/// The registers that the `n` argument instructions after the call at `t` pass, if they
/// are there.
pub open spec fn call_arguments(instructions: Seq<SSAInstruction>, t: int, n: int) -> Option<Seq<SSARegister>> {
    if t + 1 + n <= instructions.len() && forall|j: int|
        t + 1 <= j < t + 1 + n ==> is_argument(#[trigger] instructions[j]) {
        Some(Seq::new(n as nat, |j: int| argument_register(instructions[t + 1 + j])))
    } else {
        None
    }
}

/// A binary arithmetic instruction: addition for `Add`, multiplication otherwise.
pub open spec fn arithmetic(id: CoreFnId, target: SSARegister, a: SSARegister, b: SSARegister) -> SSAInstruction {
    if id == CoreFnId::Add {
        Instruction::Add(target, a, b)
    } else {
        Instruction::Multiply(target, a, b)
    }
}

/// A list built from an empty one by pushing the `n` arguments in turn, each push
/// replacing the list register by a fresh one after `max`, the last one into `target`.
pub open spec fn list_chain(target: SSARegister, args: Seq<SSARegister>, max: SSARegister) -> Seq<SSAInstruction> {
    let n = args.len();
    Seq::new(
        n + 1,
        |j: int|
            if j == 0 {
                Instruction::EmptyList(wrapping_add(max, 1))
            } else if j < n {
                Instruction::Push(
                    (wrapping_add(max, j as usize), wrapping_add(wrapping_add(max, j as usize), 1)),
                    args[j - 1],
                )
            } else {
                Instruction::Push((wrapping_add(max, n as usize), target), args[n - 1])
            },
    )
}

/// The arguments combined pairwise from the left: each partial result goes to a fresh
/// register after `max`, the last one to `target`.
pub open spec fn arithmetic_chain(
    id: CoreFnId,
    target: SSARegister,
    args: Seq<SSARegister>,
    max: SSARegister,
) -> Seq<SSAInstruction> {
    let n = args.len();
    let first_free = wrapping_add(max, 1);
    Seq::new(
        (n - 1) as nat,
        |j: int|
            if j == 0 {
                arithmetic(id, first_free, args[0], args[1])
            } else if j < n - 2 {
                arithmetic(
                    id,
                    wrapping_add(first_free, j as usize),
                    wrapping_add(first_free, (j - 1) as usize),
                    args[j + 1],
                )
            } else {
                arithmetic(id, target, wrapping_add(first_free, (n - 3) as usize), args[n - 1])
            },
    )
}

/// The instructions that take the place of a call of core function `id` with `args`
/// into `target`, if the call can be done inline; `max` is the largest register in use.
pub open spec fn inline_replacement(
    id: CoreFnId,
    target: SSARegister,
    args: Seq<SSARegister>,
    max: SSARegister,
) -> Option<Seq<SSAInstruction>> {
    let n = args.len();
    if id == CoreFnId::CreateList {
        if n == 0 {
            Some(seq![Instruction::EmptyList(target)])
        } else {
            Some(list_chain(target, args, max))
        }
    } else if n == 1 {
        if id == CoreFnId::First {
            Some(seq![Instruction::First(target, args[0])])
        } else if id == CoreFnId::Last {
            Some(seq![Instruction::Last(target, args[0])])
        } else if id == CoreFnId::IsEmpty {
            Some(seq![Instruction::IsEmpty(target, args[0])])
        } else if id == CoreFnId::Rest {
            Some(seq![Instruction::Rest((args[0], target))])
        } else if id == CoreFnId::ButLast {
            Some(seq![Instruction::ButLast((args[0], target))])
        } else {
            None
        }
    } else if n == 2 {
        if id == CoreFnId::Add {
            Some(seq![Instruction::Add(target, args[0], args[1])])
        } else if id == CoreFnId::Subtract {
            Some(seq![Instruction::Subtract(target, args[0], args[1])])
        } else if id == CoreFnId::Multiply {
            Some(seq![Instruction::Multiply(target, args[0], args[1])])
        } else if id == CoreFnId::Divide {
            Some(seq![Instruction::Divide(target, args[0], args[1])])
        } else if id == CoreFnId::Push {
            Some(seq![Instruction::Push((args[0], target), args[1])])
        } else if id == CoreFnId::Cons {
            Some(seq![Instruction::Cons((args[0], target), args[1])])
        } else {
            None
        }
    } else if n >= 3 && (id == CoreFnId::Add || id == CoreFnId::Multiply) {
        Some(arithmetic_chain(id, target, args, max))
    } else {
        None
    }
}

/// Looks, from position `t` on, for the first call of a core function that can be done
/// inline: the call's function register must have been loaded by a `Const` of a core
/// function. The call and its argument instructions are replaced by the inline
/// instructions. A call of a core function without its argument instructions after it
/// is an error.
pub open spec fn inline_scan(
    preallocated: u8,
    instructions: Seq<SSAInstruction>,
    constants: Seq<SSAValue<Lifetimes>>,
    ls: Seq<(SSARegister, SpecLifetime)>,
    t: int,
) -> Result<Option<Seq<SSAInstruction>>, CompilationError>
    decreases instructions.len() - t,
{
    if t < 0 || t >= instructions.len() {
        Ok(None)
    } else {
        let next = inline_scan(preallocated, instructions, constants, ls, t + 1);
        match instructions[t] {
            Instruction::Call(target, f, n) => match spec_lifetime_of(ls, f) {
                Some(l) => match l.creation {
                    Some(c) => if (c as int) < instructions.len() {
                        match instructions[c as int] {
                            Instruction::Const(_, k) => match constants[k as int] {
                                GenericValue::CoreFn(id) => match call_arguments(
                                    instructions,
                                    t,
                                    n as int,
                                ) {
                                    None => Err(CompilationError::MissingCallArguments(t as u16)),
                                    Some(args) => match inline_replacement(
                                        id,
                                        target,
                                        args,
                                        spec_max_ssa_register(preallocated, instructions) as usize,
                                    ) {
                                        Some(replacement) => Ok(
                                            Some(
                                                instructions.take(t) + replacement
                                                    + instructions.skip(t + 1 + n),
                                            ),
                                        ),
                                        None => next,
                                    },
                                },
                                _ => next,
                            },
                            _ => next,
                        }
                    } else {
                        next
                    },
                    None => next,
                },
                None => next,
            },
            _ => next,
        }
    }
}

/// Whether `i` is neither a call, nor a constant load, nor an instruction without
/// register usages.
pub open spec fn plain_instruction(i: SSAInstruction) -> bool {
    !(i is Call) && !(i is Const) && i.has_usages()
}

pub proof fn lemma_replacement_plain(id: CoreFnId, target: SSARegister, args: Seq<SSARegister>, max: SSARegister)
    ensures
        inline_replacement(id, target, args, max) matches Some(r) ==> forall|k: int|
            0 <= k < r.len() ==> plain_instruction(#[trigger] r[k]),
{
}

pub proof fn lemma_splice(
    instructions: Seq<SSAInstruction>,
    t: int,
    n: int,
    replacement: Seq<SSAInstruction>,
    constant_count: nat,
)
    requires
        0 <= t,
        0 <= n,
        t + 1 + n <= instructions.len(),
        instructions[t] is Call,
        forall|j: int| t + 1 <= j < t + 1 + n ==> is_argument(#[trigger] instructions[j]),
        forall|k: int| 0 <= k < replacement.len() ==> plain_instruction(#[trigger] replacement[k]),
        all_have_usages(instructions),
        constants_in_range(instructions, constant_count),
    ensures
        count_calls(instructions.take(t) + replacement + instructions.skip(t + 1 + n)) < count_calls(
            instructions,
        ),
        all_have_usages(instructions.take(t) + replacement + instructions.skip(t + 1 + n)),
        constants_in_range(
            instructions.take(t) + replacement + instructions.skip(t + 1 + n),
            constant_count,
        ),
{
    let before = instructions.take(t);
    let middle = instructions.subrange(t, t + 1 + n);
    let after = instructions.skip(t + 1 + n);
    let next = before + replacement + after;
    assert(instructions =~= before + middle + after);
    lemma_count_calls_append(before + middle, after);
    lemma_count_calls_append(before, middle);
    lemma_count_calls_append(before + replacement, after);
    lemma_count_calls_append(before, replacement);
    lemma_count_calls_none(replacement);
    let args = middle.drop_first();
    assert(middle =~= seq![middle[0]] + args);
    lemma_count_calls_append(seq![middle[0]], args);
    assert forall|k: int| 0 <= k < args.len() implies !(#[trigger] args[k] is Call) by {
        assert(args[k] == instructions[t + 1 + k]);
        assert(is_argument(instructions[t + 1 + k]));
    }
    lemma_count_calls_none(args);
    assert(count_calls(seq![middle[0]]) == 1) by {
        assert(middle[0] == instructions[t]);
        assert(seq![middle[0]].drop_last() =~= Seq::<SSAInstruction>::empty());
        assert(count_calls(Seq::<SSAInstruction>::empty()) == 0);
        assert(seq![middle[0]].last() is Call);
    }
    assert forall|k: int| 0 <= k < next.len() implies (#[trigger] next[k]).has_usages() by {
        if k < t {
            assert(next[k] == instructions[k]);
        } else if k < t + replacement.len() {
            assert(next[k] == replacement[k - t]);
        } else {
            assert(next[k] == instructions[k - replacement.len() + 1 + n]);
        }
    }
    assert forall|k: int| 0 <= k < next.len() implies (#[trigger] next[k] matches Instruction::Const(
        _,
        index,
    ) ==> index < constant_count) by {
        if k < t {
            assert(next[k] == instructions[k]);
        } else if k < t + replacement.len() {
            assert(next[k] == replacement[k - t]);
        } else {
            assert(next[k] == instructions[k - replacement.len() + 1 + n]);
        }
    }
}

pub proof fn lemma_inline_scan(
    preallocated: u8,
    instructions: Seq<SSAInstruction>,
    constants: Seq<SSAValue<Lifetimes>>,
    ls: Seq<(SSARegister, SpecLifetime)>,
    t: int,
)
    requires
        all_have_usages(instructions),
        constants_in_range(instructions, constants.len()),
    ensures
        inline_scan(preallocated, instructions, constants, ls, t) matches Ok(Some(next)) ==> {
            &&& count_calls(next) < count_calls(instructions)
            &&& all_have_usages(next)
            &&& constants_in_range(next, constants.len())
        },
    decreases instructions.len() - t,
{
    if 0 <= t < instructions.len() {
        lemma_inline_scan(preallocated, instructions, constants, ls, t + 1);
        if let Instruction::Call(target, f, n) = instructions[t] {
            if let Some(args) = call_arguments(instructions, t, n as int) {
                let max = spec_max_ssa_register(preallocated, instructions) as usize;
                if let Some(c) = spec_lifetime_of(ls, f) {
                    if let Some(created) = c.creation {
                        if (created as int) < instructions.len() {
                            if let Instruction::Const(_, k) = instructions[created as int] {
                                if let GenericValue::CoreFn(id) = constants[k as int] {
                                    lemma_replacement_plain(id, target, args, max);
                                    if let Some(replacement) = inline_replacement(id, target, args, max) {
                                        lemma_splice(
                                            instructions,
                                            t,
                                            n as int,
                                            replacement,
                                            constants.len(),
                                        );
                                    }
                                }
                            }
                        }
                    }
                }
            }
        }
    }
}

/// Inlines calls of core functions, one at a time (see `inline_scan`), recomputing the
/// register lifetimes before each, until none is left that can be done inline: the
/// instructions and their lifetimes, or the first error.
pub open spec fn inline_all(
    preallocated: u8,
    instructions: Seq<SSAInstruction>,
    constants: Seq<SSAValue<Lifetimes>>,
) -> Result<(Seq<SSAInstruction>, Seq<(SSARegister, SpecLifetime)>), CompilationError>
    decreases count_calls(instructions),
{
    if !(all_have_usages(instructions) && constants_in_range(instructions, constants.len())) {
        Ok((instructions, Seq::empty()))
    } else {
        match spec_register_lifetimes(preallocated, instructions) {
            Err(e) => Err(lifetime_compilation_error(e)),
            Ok(ls) => match inline_scan(preallocated, instructions, constants, ls, 0) {
                Err(e) => Err(e),
                Ok(None) => Ok((instructions, ls)),
                Ok(Some(next)) => {
                    proof {
                        lemma_inline_scan(preallocated, instructions, constants, ls, 0);
                    }
                    inline_all(preallocated, next, constants)
                },
            },
        }
    }
}

fn collect_call_arguments(instructions: &Vec<SSAInstruction>, t: usize, n: u8) -> (args: Option<
    Vec<SSARegister>,
>)
    requires
        t < instructions@.len(),
    ensures
        match args {
            Some(a) => call_arguments(instructions@, t as int, n as int) == Some(a@),
            None => call_arguments(instructions@, t as int, n as int) is None,
        },
{
    if n as usize > instructions.len() - t - 1 {
        return None;
    }
    let mut args: Vec<SSARegister> = Vec::new();
    let mut j: usize = 0;
    while j < n as usize
        invariant
            0 <= j <= n,
            t + 1 + n <= instructions@.len(),
            instructions@.len() == instructions.len(),
            args@.len() == j,
            forall|i: int| t + 1 <= i < t + 1 + j ==> is_argument(#[trigger] instructions@[i]),
            forall|i: int| 0 <= i < j ==> args@[i] == argument_register(instructions@[t + 1 + i]),
        decreases n - j,
    {
        match instructions[t + 1 + j] {
            Instruction::CopyArgument(r) => {
                args.push(r);
            },
            Instruction::StealArgument(r) => {
                args.push(r);
            },
            _ => {
                proof {
                    assert(!is_argument(instructions@[t + 1 + j]));
                }
                return None;
            },
        }
        j = j + 1;
    }
    proof {
        assert(args@ =~= Seq::new(
            n as nat,
            |i: int| argument_register(instructions@[t + 1 + i]),
        ));
    }
    Some(args)
}

fn replacement_instructions(
    id: CoreFnId,
    target: SSARegister,
    args: &Vec<SSARegister>,
    max: SSARegister,
) -> (r: Option<Vec<SSAInstruction>>)
    requires
        args@.len() <= 255,
    ensures
        match r {
            Some(v) => inline_replacement(id, target, args@, max) == Some(v@),
            None => inline_replacement(id, target, args@, max) is None,
        },
{
    let n = args.len();
    if id == CoreFnId::CreateList {
        if n == 0 {
            let v = vec![Instruction::EmptyList(target)];
            proof {
                assert(v@ =~= seq![Instruction::EmptyList(target)]);
            }
            return Some(v);
        }
        let mut v: Vec<SSAInstruction> = Vec::new();
        v.push(Instruction::EmptyList(max.wrapping_add(1)));
        let mut j: usize = 1;
        while j < n
            invariant
                1 <= j <= n,
                n == args@.len(),
                n <= 255,
                v@.len() == j,
                forall|i: int| 0 <= i < j ==> v@[i] == list_chain(target, args@, max)[i],
            decreases n - j,
        {
            v.push(
                Instruction::Push(
                    (max.wrapping_add(j), max.wrapping_add(j).wrapping_add(1)),
                    args[j - 1],
                ),
            );
            j = j + 1;
        }
        v.push(Instruction::Push((max.wrapping_add(n), target), args[n - 1]));
        proof {
            assert(v@ =~= list_chain(target, args@, max));
        }
        return Some(v);
    }
    if n == 1 {
        let a = args[0];
        let single = if id == CoreFnId::First {
            Some(Instruction::First(target, a))
        } else if id == CoreFnId::Last {
            Some(Instruction::Last(target, a))
        } else if id == CoreFnId::IsEmpty {
            Some(Instruction::IsEmpty(target, a))
        } else if id == CoreFnId::Rest {
            Some(Instruction::Rest((a, target)))
        } else if id == CoreFnId::ButLast {
            Some(Instruction::ButLast((a, target)))
        } else {
            None
        };
        return match single {
            Some(i) => {
                let v = vec![i];
                proof {
                    assert(v@ =~= seq![i]);
                }
                Some(v)
            },
            None => None,
        };
    }
    if n == 2 {
        let a = args[0];
        let b = args[1];
        let single = if id == CoreFnId::Add {
            Some(Instruction::Add(target, a, b))
        } else if id == CoreFnId::Subtract {
            Some(Instruction::Subtract(target, a, b))
        } else if id == CoreFnId::Multiply {
            Some(Instruction::Multiply(target, a, b))
        } else if id == CoreFnId::Divide {
            Some(Instruction::Divide(target, a, b))
        } else if id == CoreFnId::Push {
            Some(Instruction::Push((a, target), b))
        } else if id == CoreFnId::Cons {
            Some(Instruction::Cons((a, target), b))
        } else {
            None
        };
        return match single {
            Some(i) => {
                let v = vec![i];
                proof {
                    assert(v@ =~= seq![i]);
                }
                Some(v)
            },
            None => None,
        };
    }
    if n >= 3 && (id == CoreFnId::Add || id == CoreFnId::Multiply) {
        let is_add = id == CoreFnId::Add;
        let first_free = max.wrapping_add(1);
        let mut v: Vec<SSAInstruction> = Vec::new();
        v.push(
            if is_add {
                Instruction::Add(first_free, args[0], args[1])
            } else {
                Instruction::Multiply(first_free, args[0], args[1])
            },
        );
        let mut j: usize = 1;
        while j < n - 2
            invariant
                1 <= j <= n - 2,
                n == args@.len(),
                3 <= n <= 255,
                is_add == (id == CoreFnId::Add),
                id == CoreFnId::Add || id == CoreFnId::Multiply,
                first_free == wrapping_add(max, 1),
                v@.len() == j,
                forall|i: int| 0 <= i < j ==> v@[i] == arithmetic_chain(id, target, args@, max)[i],
            decreases n - 2 - j,
        {
            let result = first_free.wrapping_add(j);
            let previous = first_free.wrapping_add(j - 1);
            v.push(
                if is_add {
                    Instruction::Add(result, previous, args[j + 1])
                } else {
                    Instruction::Multiply(result, previous, args[j + 1])
                },
            );
            j = j + 1;
        }
        let last_partial = first_free.wrapping_add(n - 3);
        v.push(
            if is_add {
                Instruction::Add(target, last_partial, args[n - 1])
            } else {
                Instruction::Multiply(target, last_partial, args[n - 1])
            },
        );
        proof {
            assert(v@ =~= arithmetic_chain(id, target, args@, max));
        }
        return Some(v);
    }
    None
}

fn splice(
    instructions: &Vec<SSAInstruction>,
    t: usize,
    n: usize,
    replacement: Vec<SSAInstruction>,
) -> (spliced: Vec<SSAInstruction>)
    requires
        t + 1 + n <= instructions@.len(),
    ensures
        spliced@ == instructions@.take(t as int) + replacement@ + instructions@.skip(t + 1 + n),
{
    let mut spliced: Vec<SSAInstruction> = Vec::new();
    let mut i: usize = 0;
    proof {
        assert(instructions@.len() == instructions.len());
    }
    while i < t
        invariant
            0 <= i <= t,
            t + 1 + n <= instructions@.len(),
            spliced@ == instructions@.take(i as int),
        decreases t - i,
    {
        spliced.push(instructions[i]);
        proof {
            assert(instructions@.take(i + 1) =~= instructions@.take(i as int).push(instructions@[i as int]));
        }
        i = i + 1;
    }
    let mut j: usize = 0;
    while j < replacement.len()
        invariant
            0 <= j <= replacement@.len(),
            spliced@ == instructions@.take(t as int) + replacement@.take(j as int),
        decreases replacement@.len() - j,
    {
        spliced.push(replacement[j]);
        proof {
            assert(replacement@.take(j + 1) =~= replacement@.take(j as int).push(replacement@[j as int]));
        }
        j = j + 1;
    }
    proof {
        assert(replacement@.take(replacement@.len() as int) =~= replacement@);
    }
    let mut k: usize = t + 1 + n;
    while k < instructions.len()
        invariant
            t + 1 + n <= k <= instructions@.len(),
            spliced@ == instructions@.take(t as int) + replacement@ + instructions@.subrange(
                t + 1 + n,
                k as int,
            ),
        decreases instructions@.len() - k,
    {
        spliced.push(instructions[k]);
        proof {
            assert(instructions@.subrange(t + 1 + n, k + 1) =~= instructions@.subrange(
                t + 1 + n,
                k as int,
            ).push(instructions@[k as int]));
        }
        k = k + 1;
    }
    proof {
        assert(instructions@.subrange(t + 1 + n, instructions@.len() as int) =~= instructions@.skip(
            t + 1 + n,
        ));
    }
    spliced
}

fn find_inlining(
    preallocated_registers: u8,
    instructions: &Vec<SSAInstruction>,
    constants: &Vec<SSAValue<Lifetimes>>,
    lifetimes: &Lifetimes,
) -> (r: Result<Option<Vec<SSAInstruction>>, CompilationError>)
    requires
        all_have_usages(instructions@),
        constants_in_range(instructions@, constants@.len()),
    ensures
        match r {
            Ok(Some(next)) => inline_scan(
                preallocated_registers,
                instructions@,
                constants@,
                lifetimes@,
                0,
            ) == Ok::<Option<Seq<SSAInstruction>>, CompilationError>(Some(next@)),
            Ok(None) => inline_scan(preallocated_registers, instructions@, constants@, lifetimes@, 0)
                == Ok::<Option<Seq<SSAInstruction>>, CompilationError>(None),
            Err(e) => inline_scan(preallocated_registers, instructions@, constants@, lifetimes@, 0)
                == Err::<Option<Seq<SSAInstruction>>, CompilationError>(e),
        },
{
    let max = get_max_ssa_register(preallocated_registers, instructions);
    let ghost whole = inline_scan(preallocated_registers, instructions@, constants@, lifetimes@, 0);
    let mut t: usize = 0;
    while t < instructions.len()
        invariant
            0 <= t <= instructions@.len(),
            constants_in_range(instructions@, constants@.len()),
            max == spec_max_ssa_register(preallocated_registers, instructions@),
            whole == inline_scan(preallocated_registers, instructions@, constants@, lifetimes@, t as int),
            whole == inline_scan(preallocated_registers, instructions@, constants@, lifetimes@, 0),
        decreases instructions@.len() - t,
    {
        if let Instruction::Call(target, f, n) = instructions[t] {
            if let Some(l) = lifetimes.get(f) {
                if let Some(created) = l.creation {
                    if (created as usize) < instructions.len() {
                        if let Instruction::Const(_, k) = instructions[created as usize] {
                            proof {
                                assert(instructions@[created as int] matches Instruction::Const(_, index) ==> index < constants@.len());
                            }
                            if let GenericValue::CoreFn(id) = &constants[k as usize] {
                                match collect_call_arguments(instructions, t, n) {
                                    None => {
                                        proof {
                                            assert(spec_lifetime_of(lifetimes@, f) == Some(l.model()));
                                            assert(constants@[k as int] == GenericValue::<usize, usize, (usize, usize), Lifetimes>::CoreFn(*id));
                                            assert(call_arguments(instructions@, t as int, n as int) is None);
                                            assert(inline_scan(preallocated_registers, instructions@, constants@, lifetimes@, t as int) == Err::<Option<Seq<SSAInstruction>>, CompilationError>(CompilationError::MissingCallArguments(t as u16)));
                                        }
                                        return Err(CompilationError::MissingCallArguments(t as u16));
                                    },
                                    Some(args) => {
                                        match replacement_instructions(*id, target, &args, max) {
                                            Some(replacement) => {
                                                let spliced = splice(
                                                    instructions,
                                                    t,
                                                    n as usize,
                                                    replacement,
                                                );
                                                return Ok(Some(spliced));
                                            },
                                            None => {},
                                        }
                                    },
                                }
                            }
                        }
                    }
                }
            }
        }
        t = t + 1;
    }
    Ok(None)
}

fn inline_block(
    preallocated_registers: u8,
    instructions: Vec<SSAInstruction>,
    constants: &Vec<SSAValue<Lifetimes>>,
) -> (r: Result<(Vec<SSAInstruction>, Lifetimes), CompilationError>)
    requires
        all_have_usages(instructions@),
        constants_in_range(instructions@, constants@.len()),
    ensures
        match inline_all(preallocated_registers, instructions@, constants@) {
            Ok((final_instructions, ls)) => r is Ok && r->Ok_0.0@ == final_instructions
                && r->Ok_0.1@ == ls,
            Err(e) => r == Err::<(Vec<SSAInstruction>, Lifetimes), CompilationError>(e),
        },
{
    let mut current = instructions;
    loop
        invariant
            all_have_usages(current@),
            constants_in_range(current@, constants@.len()),
            inline_all(preallocated_registers, instructions@, constants@) == inline_all(
                preallocated_registers,
                current@,
                constants@,
            ),
        decreases count_calls(current@),
    {
        let lifetimes = match calculate_register_lifetimes(preallocated_registers, &current) {
            Ok(l) => l,
            Err(e) => {
                return Err(CompilationError::from(e));
            },
        };
        match find_inlining(preallocated_registers, &current, constants, &lifetimes) {
            Err(e) => {
                return Err(e);
            },
            Ok(None) => {
                return Ok((current, lifetimes));
            },
            Ok(Some(next)) => {
                proof {
                    lemma_inline_scan(preallocated_registers, current@, constants@, lifetimes@, 0);
                }
                current = next;
            },
        }
    }
}

/// What inlining makes of one block: the instructions once every call of a core
/// function that can be done inline has been (see `inline_all`), its constants, and the
/// registers' lifetimes; or the first error.
pub open spec fn inlined_block<M>(
    preallocated: u8,
    instructions: Seq<SSAInstruction>,
    constants: Seq<SSAValue<Lifetimes>>,
    metadata: M,
    r: Result<SSABlock<Lifetimes>, CompilationError>,
) -> bool {
    match inline_all(preallocated, instructions, constants) {
        Ok((final_instructions, ls)) => r is Ok && r->Ok_0.instructions@ == final_instructions
            && r->Ok_0.constants@ == constants && r->Ok_0.metadata@ == ls,
        Err(e) => r == Err::<SSABlock<Lifetimes>, CompilationError>(e),
    }
}

/// The outcomes of inlining one block.
pub open spec fn inlining_outcomes<M>() -> spec_fn(u8, Seq<SSAInstruction>, Seq<SSAValue<Lifetimes>>, M, Result<SSABlock<Lifetimes>, CompilationError>) -> bool {
    |p: u8, i: Seq<SSAInstruction>, c: Seq<SSAValue<Lifetimes>>, m: M, r: Result<SSABlock<Lifetimes>, CompilationError>| inlined_block(p, i, c, m, r)
}

/// Replaces, in every block (the given one, and those of the functions among its
/// constants), the calls of core functions that have an instruction of their own by that
/// instruction, or by a few (see `inline_replacement`), and attaches the registers'
/// lifetimes.
pub fn inline_core_fn_calls<M>(block: SSABlock<M>) -> (r: Result<SSABlock<Lifetimes>, CompilationError>)
    requires
        block_has_usages(block),
    ensures
        block_translation(
            block,
            0,
            r,
            inlining_outcomes::<M>(),
        ),
{
    let translator = |
        preallocated_registers: u8,
        instructions: Vec<SSAInstruction>,
        constants: Vec<SSAValue<Lifetimes>>,
        metadata: &M,
    | -> (r: Result<SSABlock<Lifetimes>, CompilationError>)
        requires
            all_have_usages(instructions@),
            constants_in_range(instructions@, constants@.len()),
        ensures
            inlined_block(preallocated_registers, instructions@, constants@, *metadata, r),
        {
            match inline_block(preallocated_registers, instructions, &constants) {
                Ok((final_instructions, lifetimes)) => Ok(
                    GenericBlock::new_with_metadata(final_instructions, constants, lifetimes),
                ),
                Err(e) => Err(e),
            }
        };
    let r = block.translate(&translator);
    proof {
        lemma_block_translation_weaken(
            block,
            0,
            r,
            block_outcomes(translator),
            inlining_outcomes::<M>(),
        );
    }
    r
}

proof fn lemma_inline_all_keeps_usages(
    preallocated: u8,
    instructions: Seq<SSAInstruction>,
    constants: Seq<SSAValue<Lifetimes>>,
)
    requires
        all_have_usages(instructions),
        constants_in_range(instructions, constants.len()),
    ensures
        inline_all(preallocated, instructions, constants) matches Ok((final_instructions, _)) ==> {
            &&& all_have_usages(final_instructions)
            &&& constants_in_range(final_instructions, constants.len())
        },
    decreases count_calls(instructions),
{
    if let Ok(ls) = spec_register_lifetimes(preallocated, instructions) {
        if let Ok(Some(next)) = inline_scan(preallocated, instructions, constants, ls, 0) {
            lemma_inline_scan(preallocated, instructions, constants, ls, 0);
            lemma_inline_all_keeps_usages(preallocated, next, constants);
        }
    }
}

/// Inlining keeps blocks well-formed.
pub proof fn lemma_inlining_keeps_usages<M>()
    ensures
        outcome_keeps_usages(
            inlining_outcomes::<M>(),
        ),
{
    assert forall|p: u8, i: Seq<SSAInstruction>, c: Seq<SSAValue<Lifetimes>>, m: M, b: SSABlock<Lifetimes>|
        inlined_block(p, i, c, m, Ok(b)) && all_have_usages(i) && constants_in_range(i, c.len())
            && values_have_usages(c) implies block_has_usages(b) by {
        lemma_inline_all_keeps_usages(p, i, c);
    }
}

/// Which calls of core functions are done inline, and by what: `+`, `-`, `*` and `/` of
/// two arguments `a` and `b` become one `Add`, `Subtract`, `Multiply` or `Divide` of `a`
/// and `b`, in that order; `push` and `cons` of a collection `a` and a value `b` change `a`
/// into the target; `first`, `last` and `empty?` of one argument read it, `rest` and
/// `butlast` change it into the target; `list` of no argument is an empty list; and no
/// other core function of one or two arguments is done inline.
pub proof fn law_inline_table(id: CoreFnId, target: SSARegister, a: SSARegister, b: SSARegister, max: SSARegister)
    ensures
        inline_replacement(CoreFnId::Add, target, seq![a, b], max) == Some(
            seq![SSAInstruction::Add(target, a, b)],
        ),
        inline_replacement(CoreFnId::Subtract, target, seq![a, b], max) == Some(
            seq![SSAInstruction::Subtract(target, a, b)],
        ),
        inline_replacement(CoreFnId::Multiply, target, seq![a, b], max) == Some(
            seq![SSAInstruction::Multiply(target, a, b)],
        ),
        inline_replacement(CoreFnId::Divide, target, seq![a, b], max) == Some(
            seq![SSAInstruction::Divide(target, a, b)],
        ),
        inline_replacement(CoreFnId::Push, target, seq![a, b], max) == Some(
            seq![SSAInstruction::Push((a, target), b)],
        ),
        inline_replacement(CoreFnId::Cons, target, seq![a, b], max) == Some(
            seq![SSAInstruction::Cons((a, target), b)],
        ),
        inline_replacement(CoreFnId::First, target, seq![a], max) == Some(
            seq![SSAInstruction::First(target, a)],
        ),
        inline_replacement(CoreFnId::Last, target, seq![a], max) == Some(
            seq![SSAInstruction::Last(target, a)],
        ),
        inline_replacement(CoreFnId::IsEmpty, target, seq![a], max) == Some(
            seq![SSAInstruction::IsEmpty(target, a)],
        ),
        inline_replacement(CoreFnId::Rest, target, seq![a], max) == Some(
            seq![SSAInstruction::Rest((a, target))],
        ),
        inline_replacement(CoreFnId::ButLast, target, seq![a], max) == Some(
            seq![SSAInstruction::ButLast((a, target))],
        ),
        inline_replacement(CoreFnId::CreateList, target, Seq::empty(), max) == Some(
            seq![SSAInstruction::EmptyList(target)],
        ),
        !(id == CoreFnId::First || id == CoreFnId::Last || id == CoreFnId::IsEmpty
            || id == CoreFnId::Rest || id == CoreFnId::ButLast || id == CoreFnId::CreateList)
            ==> inline_replacement(id, target, seq![a], max) is None,
        !(id == CoreFnId::Add || id == CoreFnId::Subtract || id == CoreFnId::Multiply
            || id == CoreFnId::Divide || id == CoreFnId::Push || id == CoreFnId::Cons
            || id == CoreFnId::CreateList) ==> inline_replacement(id, target, seq![a, b], max)
            is None,
{
}

/// Sums and products of three or more arguments are done inline as a chain that combines
/// them from the left: the first instruction combines the first two arguments, each
/// further one combines the result before it with the next argument, and the last one
/// writes to the target; each is an `Add` for `+` and a `Multiply` for `*`.
pub proof fn law_arithmetic_chain(id: CoreFnId, target: SSARegister, args: Seq<SSARegister>, max: SSARegister, j: int)
    requires
        id == CoreFnId::Add || id == CoreFnId::Multiply,
        args.len() >= 3,
        0 <= j < args.len() - 1,
    ensures
        inline_replacement(id, target, args, max) matches Some(chain) && {
            &&& chain.len() == args.len() - 1
            &&& (id == CoreFnId::Add ==> chain[j] is Add)
            &&& (id == CoreFnId::Multiply ==> chain[j] is Multiply)
            &&& (j == 0 ==> chain[0].spec_inputs() == seq![args[0], args[1]])
            &&& (j > 0 ==> chain[j].spec_inputs() == seq![chain[j - 1].spec_outputs()[0], args[j + 1]])
            &&& (j == args.len() - 2 ==> chain[j].spec_outputs() == seq![target])
        },
{
    let chain = inline_replacement(id, target, args, max)->Some_0;
    assert(chain == arithmetic_chain(id, target, args, max));
    if j > 0 {
        assert(chain[j - 1] == arithmetic_chain(id, target, args, max)[j - 1]);
    }
}

} // verus!
