use vstd::prelude::*;
use crate::compiler::transformations::register_allocation::Register;
use crate::instructions::{Instruction, SymbolIndex};
use crate::runtime::data::{wrapped_negation, GenericValue, Num, Value};
use crate::runtime::error::RuntimeResult;
use crate::runtime::evaluation::{global_binding, EvaluationState};
use crate::runtime::register_ops::RegisterEffect;

verus! {

/// `after`, with the result `r`, is what `instruction` makes of `before`, an instruction
/// that only reads and writes registers.
pub open spec fn ran(
    before: EvaluationState,
    instruction: crate::compiler::transformations::register_allocation::RuntimeInstruction,
    after: EvaluationState,
    r: RuntimeResult<Option<Value>>,
) -> bool {
    &&& before.register_effect(instruction) is Some
    &&& before.applies(before.register_effect(instruction).unwrap(), after, r)
}

/// After a register instruction has set `register`, it reads as the list that the
/// effect describes.
proof fn lemma_set_list_reads(
    before: EvaluationState,
    after: EvaluationState,
    r: RuntimeResult<Option<Value>>,
    register: Register,
    elements: Seq<Value>,
)
    requires
        before.holds_register(register),
        before.applies(RegisterEffect::SetsList(register, elements, None), after, r),
    ensures
        r == Ok::<Option<Value>, crate::runtime::error::RuntimeError>(None),
        after.holds_register(register),
        after.read(register) matches Ok(GenericValue::List(l)) && l@ == elements,
{
}

/// Pushing a value onto a list and then taking the list's last element gives the value
/// back.
pub proof fn law_last_of_push(
    before: EvaluationState,
    after: EvaluationState,
    r: RuntimeResult<Option<Value>>,
    list: Register,
    value: Register,
    target: Register,
)
    requires
        before.read(list) is Ok,
        before.read(list)->Ok_0 is List,
        before.read(value) is Ok,
        ran(before, Instruction::Push(list, value), after, r),
    ensures
        r == Ok::<Option<Value>, crate::runtime::error::RuntimeError>(None),
        after.register_effect(Instruction::Last(target, list)) == Some(
            RegisterEffect::Sets(target, before.read(value)->Ok_0, None),
        ),
{
    let v = before.read(value)->Ok_0;
    let l = before.read(list)->Ok_0->List_0;
    lemma_set_list_reads(before, after, r, list, l@.push(v));
}

/// Putting a value in front of a list and then taking the list's first element gives
/// the value back.
pub proof fn law_first_of_cons(
    before: EvaluationState,
    after: EvaluationState,
    r: RuntimeResult<Option<Value>>,
    list: Register,
    value: Register,
    target: Register,
)
    requires
        before.read(list) is Ok,
        before.read(list)->Ok_0 is List,
        before.read(value) is Ok,
        ran(before, Instruction::Cons(list, value), after, r),
    ensures
        r == Ok::<Option<Value>, crate::runtime::error::RuntimeError>(None),
        after.register_effect(Instruction::First(target, list)) == Some(
            RegisterEffect::Sets(target, before.read(value)->Ok_0, None),
        ),
{
    let v = before.read(value)->Ok_0;
    let l = before.read(list)->Ok_0->List_0;
    lemma_set_list_reads(before, after, r, list, seq![v] + l@);
}

/// Putting a value in front of a list and then dropping the list's first element gives
/// back the list's elements.
pub proof fn law_rest_of_cons(
    before: EvaluationState,
    after: EvaluationState,
    r: RuntimeResult<Option<Value>>,
    list: Register,
    value: Register,
)
    requires
        before.read(list) is Ok,
        before.read(list)->Ok_0 is List,
        before.read(value) is Ok,
        ran(before, Instruction::Cons(list, value), after, r),
    ensures
        r == Ok::<Option<Value>, crate::runtime::error::RuntimeError>(None),
        after.register_effect(Instruction::Rest(list)) == Some(
            RegisterEffect::SetsList(list, before.read(list)->Ok_0->List_0@, None),
        ),
{
    let v = before.read(value)->Ok_0;
    let l = before.read(list)->Ok_0->List_0;
    lemma_set_list_reads(before, after, r, list, seq![v] + l@);
    assert((seq![v] + l@).drop_first() =~= l@);
}

/// Pushing a value onto a list and then dropping the list's last element gives back
/// the list's elements.
pub proof fn law_butlast_of_push(
    before: EvaluationState,
    after: EvaluationState,
    r: RuntimeResult<Option<Value>>,
    list: Register,
    value: Register,
)
    requires
        before.read(list) is Ok,
        before.read(list)->Ok_0 is List,
        before.read(value) is Ok,
        ran(before, Instruction::Push(list, value), after, r),
    ensures
        r == Ok::<Option<Value>, crate::runtime::error::RuntimeError>(None),
        after.register_effect(Instruction::ButLast(list)) == Some(
            RegisterEffect::SetsList(list, before.read(list)->Ok_0->List_0@, None),
        ),
{
    let v = before.read(value)->Ok_0;
    let l = before.read(list)->Ok_0->List_0;
    lemma_set_list_reads(before, after, r, list, l@.push(v));
    assert(l@.push(v).drop_last() =~= l@);
}

/// A new empty list is empty.
pub proof fn law_empty_list_is_empty(
    before: EvaluationState,
    after: EvaluationState,
    r: RuntimeResult<Option<Value>>,
    list: Register,
    target: Register,
)
    requires
        before.holds_register(list),
        ran(before, Instruction::EmptyList(list), after, r),
    ensures
        r == Ok::<Option<Value>, crate::runtime::error::RuntimeError>(None),
        after.register_effect(Instruction::IsEmpty(target, list)) == Some(
            RegisterEffect::Sets(target, GenericValue::Bool(true), None),
        ),
{
    lemma_set_list_reads(before, after, r, list, Seq::empty());
}

/// Copying a register and then reading the copy gives the value of the source register,
/// and the source keeps it.
pub proof fn law_copy_reads_back(
    before: EvaluationState,
    after: EvaluationState,
    r: RuntimeResult<Option<Value>>,
    target: Register,
    source: Register,
)
    requires
        before.holds_register(target),
        before.holds_register(source),
        ran(before, Instruction::Copy(target, source), after, r),
    ensures
        r == Ok::<Option<Value>, crate::runtime::error::RuntimeError>(None),
        after.read(target) == before.read(source),
        target != source ==> after.read(source) == before.read(source),
{
}

/// Clearing a register leaves `nil` in it, which the `IsNil` test sees.
pub proof fn law_clear_leaves_nil(
    before: EvaluationState,
    after: EvaluationState,
    r: RuntimeResult<Option<Value>>,
    register: Register,
    target: Register,
)
    requires
        before.holds_register(register),
        ran(before, Instruction::Clear(register), after, r),
    ensures
        r == Ok::<Option<Value>, crate::runtime::error::RuntimeError>(None),
        after.register_effect(Instruction::IsNil(target, register)) == Some(
            RegisterEffect::Sets(target, GenericValue::Bool(true), None),
        ),
{
}

/// Once a symbol is bound to a value, looking it up gives that value.
pub proof fn law_lookup_of_bound_symbol(
    state: EvaluationState,
    symbol: SymbolIndex,
    value: Value,
    target: Register,
)
    requires
        global_binding(state.global_bindings@, symbol) == Some(value),
    ensures
        state.register_effect(Instruction::Lookup(target, symbol)) == Some(
            RegisterEffect::Sets(target, value, None),
        ),
{
}

/// Decrementing an incremented integer gives it back, overflow included.
pub proof fn law_dec_undoes_inc(i: i64)
    ensures
        vstd::wrapping::i64_specs::wrapping_sub(vstd::wrapping::i64_specs::wrapping_add(i, 1), 1)
            == i,
{
}

/// Negating an integer twice gives it back, `i64::MIN` included.
pub proof fn law_negation_is_an_involution(i: i64)
    ensures
        wrapped_negation(wrapped_negation(i)) == i,
{
}

/// Incrementing an integer register and then decrementing the result gives back the
/// integer.
pub proof fn law_dec_of_inc(
    before: EvaluationState,
    after: EvaluationState,
    r: RuntimeResult<Option<Value>>,
    target: Register,
    source: Register,
    last: Register,
    i: i64,
)
    requires
        before.holds_register(target),
        before.read(source) == Ok::<Value, crate::runtime::error::RuntimeError>(
            GenericValue::Number(Num::Int(i)),
        ),
        ran(before, Instruction::Inc(target, source), after, r),
    ensures
        r == Ok::<Option<Value>, crate::runtime::error::RuntimeError>(None),
        after.register_effect(Instruction::Dec(last, target)) == Some(
            RegisterEffect::Sets(last, GenericValue::Number(Num::Int(i)), None),
        ),
{
    law_dec_undoes_inc(i);
}

/// A call of a function of the language, once the function's frame returns, hands the
/// returned value to the caller: the caller runs on past the call and its arguments,
/// with the value in the register that the call named. The function may run any number
/// of steps in between, so long as it returns with the frames that wait under it as the
/// call left them.
pub proof fn law_call_then_return(
    caller: EvaluationState,
    called: EvaluationState,
    returning: EvaluationState,
    returned: EvaluationState,
    result: Option<RuntimeResult<Option<Value>>>,
    target: Register,
    f: Register,
    count: u8,
    returned_register: Register,
)
    requires
        caller.parent_coroutine_stack@.len() == 0,
        caller.current_frame.instruction_index < caller.current_frame.block.instructions@.len(),
        caller.current_frame.block.instructions@[caller.current_frame.instruction_index as int]
            == Instruction::<u8, u8, u8>::Call(target, f, count),
        caller.read(f) is Ok,
        (caller.read(f)->Ok_0 is CompositeFn),
        caller.holds_register(target),
        caller.current_coroutine.stack@.len() <= usize::MAX,
        EvaluationState::step_relation(
            caller,
            called,
            Some(Ok::<Option<Value>, crate::runtime::error::RuntimeError>(None)),
        ),
        returning.current_coroutine.paused_frames == called.current_coroutine.paused_frames,
        returning.current_frame.return_stack_index == called.current_frame.return_stack_index,
        returning.current_coroutine.stack@.len() == caller.current_coroutine.stack@.len(),
        returning.parent_coroutine_stack@.len() == 0,
        returning.current_frame.instruction_index
            < returning.current_frame.block.instructions@.len(),
        returning.current_frame.block.instructions@[
            returning.current_frame.instruction_index as int
        ] == Instruction::<u8, u8, u8>::Return(returned_register),
        returning.holds_register(returned_register),
        EvaluationState::step_relation(returning, returned, result),
    ensures
        result == Some(Ok::<Option<Value>, crate::runtime::error::RuntimeError>(None)),
        returned.current_frame == (crate::runtime::control::StackFrame {
            instruction_index: (caller.advanced().current_frame.instruction_index + count) as usize,
            ..caller.current_frame
        }),
        returned.read(target) == Ok::<Value, crate::runtime::error::RuntimeError>(
            returning.register(returned_register),
        ),
{
    let function = caller.read(f)->Ok_0->CompositeFn_0;
    assert(caller.advanced().read(f) == caller.read(f));
    assert(caller.advanced().calls(called, function, target, count));
    assert(returning.advanced().current_coroutine.paused_frames@.len() > 0);
    assert(returning.advanced().returns_to_caller(returned, returned_register));
}

/// A call of a paused coroutine, once the coroutine yields a value from the frame that
/// the call resumed, hands the value to the caller: the caller runs on past the call and
/// its arguments, with the value in the register that the call named, and no coroutine
/// waits any more. The coroutine may run any number of steps in between, so long as it
/// yields with the caller still waiting as the call left it.
pub proof fn law_coroutine_call_then_yield(
    caller: EvaluationState,
    called: EvaluationState,
    yielding: EvaluationState,
    yielded: EvaluationState,
    result: Option<RuntimeResult<Option<Value>>>,
    target: Register,
    f: Register,
    count: u8,
    yielded_register: Register,
)
    requires
        caller.parent_coroutine_stack@.len() == 0,
        caller.current_frame.instruction_index < caller.current_frame.block.instructions@.len(),
        caller.current_frame.block.instructions@[caller.current_frame.instruction_index as int]
            == Instruction::<u8, u8, u8>::Call(target, f, count),
        caller.read(f) is Ok,
        (caller.read(f)->Ok_0 is Coroutine),
        caller.read(f)->Ok_0->Coroutine_0 is Some,
        caller.read(f)->Ok_0->Coroutine_0->Some_0 < caller.coroutines@.len(),
        caller.coroutines@[caller.read(f)->Ok_0->Coroutine_0->Some_0 as int] is Some,
        caller.holds_register(target),
        caller.current_coroutine.stack@.len() <= usize::MAX,
        EvaluationState::step_relation(
            caller,
            called,
            Some(Ok::<Option<Value>, crate::runtime::error::RuntimeError>(None)),
        ),
        yielding.parent_coroutine_stack == called.parent_coroutine_stack,
        yielding.current_frame.return_stack_index == called.current_frame.return_stack_index,
        yielding.current_frame.instruction_index
            < yielding.current_frame.block.instructions@.len(),
        yielding.current_frame.block.instructions@[
            yielding.current_frame.instruction_index as int
        ] == Instruction::<u8, u8, u8>::Yield(yielded_register),
        yielding.holds_register(yielded_register),
        yielding.can_yield(),
        EvaluationState::step_relation(yielding, yielded, result),
    ensures
        result == Some(Ok::<Option<Value>, crate::runtime::error::RuntimeError>(None)),
        yielded.current_frame == (crate::runtime::control::StackFrame {
            instruction_index: (caller.advanced().current_frame.instruction_index + count) as usize,
            ..caller.current_frame
        }),
        yielded.read(target) == Ok::<Value, crate::runtime::error::RuntimeError>(
            yielding.register(yielded_register),
        ),
        yielded.parent_coroutine_stack@.len() == 0,
{
    let id = caller.read(f)->Ok_0->Coroutine_0->Some_0;
    let coroutine = caller.coroutines@[id as int]->Some_0;
    assert(caller.advanced().read(f) == caller.read(f));
    assert(caller.advanced().resumes_coroutine(called, coroutine, id, f, target, count));
    assert(yielding.advanced().can_yield());
    assert(yielding.advanced().yields_to_parent(yielded, yielding.register(yielded_register), None));
}

} // verus!
