use vstd::prelude::*;
use crate::compiler::transformations::register_allocation::{Register, RuntimeInstruction};
use crate::instructions::Instruction;
use crate::runtime::data::{GenericValue, Num, Value};
use crate::runtime::error::{RuntimeError, RuntimeResult};
use crate::runtime::evaluation::{branch_after, endif_after, instruction_relation, step_ends, EvaluationState};
use crate::runtime::register_ops::RegisterEffect;

verus! {

/// The instruction that the running frame of `state` runs next.
pub open spec fn running(state: EvaluationState) -> RuntimeInstruction {
    state.current_frame.block.instructions@[state.current_frame.instruction_index as int]
}

/// Whether the running frame of `state` has an instruction left.
pub open spec fn has_next(state: EvaluationState) -> bool {
    state.current_frame.instruction_index < state.current_frame.block.instructions@.len()
}

/// Whether one step from `before` ended in `after` with `r` by setting register `t` to
/// `v`: the step goes on without a result, the frame moves past its instruction, and
/// nothing but the stack position of `t` changes.
pub open spec fn stepped_setting(
    before: EvaluationState,
    after: EvaluationState,
    r: Option<RuntimeResult<Option<Value>>>,
    t: Register,
    v: Value,
) -> bool {
    &&& r == Some(Ok::<Option<Value>, RuntimeError>(None))
    &&& before.advanced().changes_stack_at(after, before.slot(t))
    &&& after.register(t) == v
}

/// Whether one step from `before` ended in `after` with `r` by setting register `t` to a
/// list of `elements`, nothing else changing.
pub open spec fn stepped_setting_list(
    before: EvaluationState,
    after: EvaluationState,
    r: Option<RuntimeResult<Option<Value>>>,
    t: Register,
    elements: Seq<Value>,
) -> bool {
    &&& r == Some(Ok::<Option<Value>, RuntimeError>(None))
    &&& before.advanced().changes_stack_at(after, before.slot(t))
    &&& after.register(t) matches GenericValue::List(l) && l@ == elements
}

proof fn lemma_advanced_reads(before: EvaluationState)
    ensures
        forall|x: Register| #[trigger] before.advanced().read(x) == before.read(x),
        forall|x: Register| #[trigger] before.advanced().holds_register(x) == before.holds_register(x),
        forall|x: Register| #[trigger] before.advanced().slot(x) == before.slot(x),
{
}

proof fn lemma_step_sets(
    before: EvaluationState,
    after: EvaluationState,
    r: Option<RuntimeResult<Option<Value>>>,
    t: Register,
    v: Value,
)
    requires
        has_next(before),
        EvaluationState::step_relation(before, after, r),
        before.advanced().register_effect(running(before)) == Some(RegisterEffect::Sets(t, v, None)),
        before.holds_register(t),
    ensures
        stepped_setting(before, after, r, t, v),
{
    lemma_advanced_reads(before);
    let instruction = running(before);
    let (mid, result) = choose|mid: EvaluationState, result: RuntimeResult<Option<Value>>|
        #![trigger instruction_relation(before.advanced(), mid, instruction, result)]
        {
            &&& instruction_relation(before.advanced(), mid, instruction, result)
            &&& step_ends(mid, after, result, r)
        };
    assert(instruction_relation(before.advanced(), mid, instruction, result));
}

proof fn lemma_step_sets_list(
    before: EvaluationState,
    after: EvaluationState,
    r: Option<RuntimeResult<Option<Value>>>,
    t: Register,
    elements: Seq<Value>,
)
    requires
        has_next(before),
        EvaluationState::step_relation(before, after, r),
        before.advanced().register_effect(running(before)) == Some(
            RegisterEffect::SetsList(t, elements, None),
        ),
        before.holds_register(t),
    ensures
        stepped_setting_list(before, after, r, t, elements),
{
    lemma_advanced_reads(before);
    let instruction = running(before);
    let (mid, result) = choose|mid: EvaluationState, result: RuntimeResult<Option<Value>>|
        #![trigger instruction_relation(before.advanced(), mid, instruction, result)]
        {
            &&& instruction_relation(before.advanced(), mid, instruction, result)
            &&& step_ends(mid, after, result, r)
        };
    assert(instruction_relation(before.advanced(), mid, instruction, result));
}

/// The number tests on an integer `i` in register `s`, with register `t` in the stack:
/// one step writes to `t` whether `i` is zero (`IsZero`), above zero (`IsPos`), below
/// zero (`IsNeg`), even (`IsEven`), or odd by Rust's remainder, which is never so for a
/// negative number (`IsOdd`); an integer is never a NaN (`IsNan`) nor infinite (`IsInf`).
pub proof fn law_integer_tests(
    before: EvaluationState,
    after: EvaluationState,
    r: Option<RuntimeResult<Option<Value>>>,
    t: Register,
    s: Register,
    i: i64,
)
    requires
        has_next(before),
        before.read(s) == Ok::<Value, RuntimeError>(GenericValue::Number(Num::Int(i))),
        before.holds_register(t),
        EvaluationState::step_relation(before, after, r),
    ensures
        running(before) == Instruction::<u8, u8, u8>::IsZero(t, s) ==> stepped_setting(
            before,
            after,
            r,
            t,
            GenericValue::Bool(i == 0),
        ),
        running(before) == Instruction::<u8, u8, u8>::IsPos(t, s) ==> stepped_setting(
            before,
            after,
            r,
            t,
            GenericValue::Bool(i > 0),
        ),
        running(before) == Instruction::<u8, u8, u8>::IsNeg(t, s) ==> stepped_setting(
            before,
            after,
            r,
            t,
            GenericValue::Bool(i < 0),
        ),
        running(before) == Instruction::<u8, u8, u8>::IsEven(t, s) ==> stepped_setting(
            before,
            after,
            r,
            t,
            GenericValue::Bool(i % 2 == 0),
        ),
        running(before) == Instruction::<u8, u8, u8>::IsOdd(t, s) ==> stepped_setting(
            before,
            after,
            r,
            t,
            GenericValue::Bool(i >= 0 && i % 2 == 1),
        ),
        running(before) == Instruction::<u8, u8, u8>::IsNan(t, s) ==> stepped_setting(
            before,
            after,
            r,
            t,
            GenericValue::Bool(false),
        ),
        running(before) == Instruction::<u8, u8, u8>::IsInf(t, s) ==> stepped_setting(
            before,
            after,
            r,
            t,
            GenericValue::Bool(false),
        ),
{
    lemma_advanced_reads(before);
    let b = match running(before) {
        Instruction::IsZero(_, _) => i == 0,
        Instruction::IsPos(_, _) => i > 0,
        Instruction::IsNeg(_, _) => i < 0,
        Instruction::IsEven(_, _) => i % 2 == 0,
        Instruction::IsOdd(_, _) => i >= 0 && i % 2 == 1,
        _ => false,
    };
    if running(before) == Instruction::<u8, u8, u8>::IsZero(t, s)
        || running(before) == Instruction::<u8, u8, u8>::IsPos(t, s)
        || running(before) == Instruction::<u8, u8, u8>::IsNeg(t, s)
        || running(before) == Instruction::<u8, u8, u8>::IsEven(t, s)
        || running(before) == Instruction::<u8, u8, u8>::IsOdd(t, s)
        || running(before) == Instruction::<u8, u8, u8>::IsNan(t, s)
        || running(before) == Instruction::<u8, u8, u8>::IsInf(t, s) {
        assert(before.advanced().register_effect(running(before)) == Some(
            RegisterEffect::Sets(t, GenericValue::Bool(b), None),
        ));
        lemma_step_sets(before, after, r, t, GenericValue::Bool(b));
    }
}

/// Arithmetic on integers `x` (in register `a`) and `y` (in register `b`), with register
/// `t` in the stack: one step writes to `t` the successor (`Inc`) or predecessor (`Dec`)
/// of `x`, its negation (`Negate`) or absolute value (`Abs`), where those of `i64::MIN`
/// are itself, `x` itself (`Floor`, `Ceil`), the sum (`Add`), difference `x - y`
/// (`Subtract`) or product (`Multiply`) of `x` and `y`, all wrapping around on overflow,
/// and whether `x` and `y` are equal (`NumericalEqual`).
pub proof fn law_integer_arithmetic(
    before: EvaluationState,
    after: EvaluationState,
    r: Option<RuntimeResult<Option<Value>>>,
    t: Register,
    a: Register,
    b: Register,
    x: i64,
    y: i64,
)
    requires
        has_next(before),
        before.read(a) == Ok::<Value, RuntimeError>(GenericValue::Number(Num::Int(x))),
        before.read(b) == Ok::<Value, RuntimeError>(GenericValue::Number(Num::Int(y))),
        before.holds_register(t),
        EvaluationState::step_relation(before, after, r),
    ensures
        running(before) == Instruction::<u8, u8, u8>::Inc(t, a) ==> stepped_setting(
            before,
            after,
            r,
            t,
            GenericValue::Number(Num::Int(vstd::wrapping::i64_specs::wrapping_add(x, 1))),
        ),
        running(before) == Instruction::<u8, u8, u8>::Dec(t, a) ==> stepped_setting(
            before,
            after,
            r,
            t,
            GenericValue::Number(Num::Int(vstd::wrapping::i64_specs::wrapping_sub(x, 1))),
        ),
        running(before) == Instruction::<u8, u8, u8>::Negate(t, a) ==> stepped_setting(
            before,
            after,
            r,
            t,
            GenericValue::Number(Num::Int(if x == i64::MIN { x } else { (-x) as i64 })),
        ),
        running(before) == Instruction::<u8, u8, u8>::Abs(t, a) ==> stepped_setting(
            before,
            after,
            r,
            t,
            GenericValue::Number(Num::Int(if x < 0 && x != i64::MIN { (-x) as i64 } else { x })),
        ),
        running(before) == Instruction::<u8, u8, u8>::Floor(t, a) ==> stepped_setting(
            before,
            after,
            r,
            t,
            GenericValue::Number(Num::Int(x)),
        ),
        running(before) == Instruction::<u8, u8, u8>::Ceil(t, a) ==> stepped_setting(
            before,
            after,
            r,
            t,
            GenericValue::Number(Num::Int(x)),
        ),
        running(before) == Instruction::<u8, u8, u8>::Add(t, a, b) ==> stepped_setting(
            before,
            after,
            r,
            t,
            GenericValue::Number(Num::Int(vstd::wrapping::i64_specs::wrapping_add(x, y))),
        ),
        running(before) == Instruction::<u8, u8, u8>::Subtract(t, a, b) ==> stepped_setting(
            before,
            after,
            r,
            t,
            GenericValue::Number(Num::Int(vstd::wrapping::i64_specs::wrapping_sub(x, y))),
        ),
        running(before) == Instruction::<u8, u8, u8>::Multiply(t, a, b) ==> stepped_setting(
            before,
            after,
            r,
            t,
            GenericValue::Number(Num::Int(vstd::wrapping::i64_specs::wrapping_mul(x, y))),
        ),
        running(before) == Instruction::<u8, u8, u8>::NumericalEqual(t, a, b) ==> stepped_setting(
            before,
            after,
            r,
            t,
            GenericValue::Bool(x == y),
        ),
{
    lemma_advanced_reads(before);
    if running(before) == Instruction::<u8, u8, u8>::Inc(t, a) {
        assert(before.advanced().register_effect(running(before)) == Some(
            RegisterEffect::Sets(t, GenericValue::Number(Num::Int(vstd::wrapping::i64_specs::wrapping_add(x, 1))), None),
        ));
        lemma_step_sets(before, after, r, t, GenericValue::Number(Num::Int(vstd::wrapping::i64_specs::wrapping_add(x, 1))));
    }
    if running(before) == Instruction::<u8, u8, u8>::Dec(t, a) {
        assert(before.advanced().register_effect(running(before)) == Some(
            RegisterEffect::Sets(t, GenericValue::Number(Num::Int(vstd::wrapping::i64_specs::wrapping_sub(x, 1))), None),
        ));
        lemma_step_sets(before, after, r, t, GenericValue::Number(Num::Int(vstd::wrapping::i64_specs::wrapping_sub(x, 1))));
    }
    if running(before) == Instruction::<u8, u8, u8>::Negate(t, a) {
        assert(before.advanced().register_effect(running(before)) == Some(
            RegisterEffect::Sets(t, GenericValue::Number(Num::Int(if x == i64::MIN { x } else { (-x) as i64 })), None),
        ));
        lemma_step_sets(before, after, r, t, GenericValue::Number(Num::Int(if x == i64::MIN { x } else { (-x) as i64 })));
    }
    if running(before) == Instruction::<u8, u8, u8>::Abs(t, a) {
        assert(before.advanced().register_effect(running(before)) == Some(
            RegisterEffect::Sets(t, GenericValue::Number(Num::Int(if x < 0 && x != i64::MIN { (-x) as i64 } else { x })), None),
        ));
        lemma_step_sets(before, after, r, t, GenericValue::Number(Num::Int(if x < 0 && x != i64::MIN { (-x) as i64 } else { x })));
    }
    if running(before) == Instruction::<u8, u8, u8>::Floor(t, a) {
        assert(before.advanced().register_effect(running(before)) == Some(
            RegisterEffect::Sets(t, GenericValue::Number(Num::Int(x)), None),
        ));
        lemma_step_sets(before, after, r, t, GenericValue::Number(Num::Int(x)));
    }
    if running(before) == Instruction::<u8, u8, u8>::Ceil(t, a) {
        assert(before.advanced().register_effect(running(before)) == Some(
            RegisterEffect::Sets(t, GenericValue::Number(Num::Int(x)), None),
        ));
        lemma_step_sets(before, after, r, t, GenericValue::Number(Num::Int(x)));
    }
    if running(before) == Instruction::<u8, u8, u8>::Add(t, a, b) {
        assert(before.advanced().register_effect(running(before)) == Some(
            RegisterEffect::Sets(t, GenericValue::Number(Num::Int(vstd::wrapping::i64_specs::wrapping_add(x, y))), None),
        ));
        lemma_step_sets(before, after, r, t, GenericValue::Number(Num::Int(vstd::wrapping::i64_specs::wrapping_add(x, y))));
    }
    if running(before) == Instruction::<u8, u8, u8>::Subtract(t, a, b) {
        assert(before.advanced().register_effect(running(before)) == Some(
            RegisterEffect::Sets(t, GenericValue::Number(Num::Int(vstd::wrapping::i64_specs::wrapping_sub(x, y))), None),
        ));
        lemma_step_sets(before, after, r, t, GenericValue::Number(Num::Int(vstd::wrapping::i64_specs::wrapping_sub(x, y))));
    }
    if running(before) == Instruction::<u8, u8, u8>::Multiply(t, a, b) {
        assert(before.advanced().register_effect(running(before)) == Some(
            RegisterEffect::Sets(t, GenericValue::Number(Num::Int(vstd::wrapping::i64_specs::wrapping_mul(x, y))), None),
        ));
        lemma_step_sets(before, after, r, t, GenericValue::Number(Num::Int(vstd::wrapping::i64_specs::wrapping_mul(x, y))));
    }
    if running(before) == Instruction::<u8, u8, u8>::NumericalEqual(t, a, b) {
        assert(before.advanced().register_effect(running(before)) == Some(
            RegisterEffect::Sets(t, GenericValue::Bool(x == y), None),
        ));
        lemma_step_sets(before, after, r, t, GenericValue::Bool(x == y));
    }
}

/// The kind tests on the value `v` in register `s`, with register `t` in the stack: one
/// step writes to `t` whether `v` is `nil`, a boolean, a character, a number, an integer,
/// a float, a symbol, a string, a list, a map, a set, a collection (list, map or set), a
/// function (core, of the language, or external), an error, or a coroutine.
pub proof fn law_kind_tests(
    before: EvaluationState,
    after: EvaluationState,
    r: Option<RuntimeResult<Option<Value>>>,
    t: Register,
    s: Register,
    v: Value,
)
    requires
        has_next(before),
        before.read(s) == Ok::<Value, RuntimeError>(v),
        before.holds_register(t),
        EvaluationState::step_relation(before, after, r),
    ensures
        running(before) == Instruction::<u8, u8, u8>::IsNil(t, s) ==> stepped_setting(
            before,
            after,
            r,
            t,
            GenericValue::Bool(v is Nil),
        ),
        running(before) == Instruction::<u8, u8, u8>::IsBool(t, s) ==> stepped_setting(
            before,
            after,
            r,
            t,
            GenericValue::Bool(v is Bool),
        ),
        running(before) == Instruction::<u8, u8, u8>::IsChar(t, s) ==> stepped_setting(
            before,
            after,
            r,
            t,
            GenericValue::Bool(v is Char),
        ),
        running(before) == Instruction::<u8, u8, u8>::IsNum(t, s) ==> stepped_setting(
            before,
            after,
            r,
            t,
            GenericValue::Bool(v is Number),
        ),
        running(before) == Instruction::<u8, u8, u8>::IsInt(t, s) ==> stepped_setting(
            before,
            after,
            r,
            t,
            GenericValue::Bool(v matches GenericValue::Number(Num::Int(_))),
        ),
        running(before) == Instruction::<u8, u8, u8>::IsFloat(t, s) ==> stepped_setting(
            before,
            after,
            r,
            t,
            GenericValue::Bool(v matches GenericValue::Number(Num::Float(_))),
        ),
        running(before) == Instruction::<u8, u8, u8>::IsSymbol(t, s) ==> stepped_setting(
            before,
            after,
            r,
            t,
            GenericValue::Bool(v is Symbol),
        ),
        running(before) == Instruction::<u8, u8, u8>::IsString(t, s) ==> stepped_setting(
            before,
            after,
            r,
            t,
            GenericValue::Bool(v is Str),
        ),
        running(before) == Instruction::<u8, u8, u8>::IsList(t, s) ==> stepped_setting(
            before,
            after,
            r,
            t,
            GenericValue::Bool(v is List),
        ),
        running(before) == Instruction::<u8, u8, u8>::IsMap(t, s) ==> stepped_setting(
            before,
            after,
            r,
            t,
            GenericValue::Bool(v is Hashmap),
        ),
        running(before) == Instruction::<u8, u8, u8>::IsSet(t, s) ==> stepped_setting(
            before,
            after,
            r,
            t,
            GenericValue::Bool(v is Hashset),
        ),
        running(before) == Instruction::<u8, u8, u8>::IsCollection(t, s) ==> stepped_setting(
            before,
            after,
            r,
            t,
            GenericValue::Bool(v is List || v is Hashmap || v is Hashset),
        ),
        running(before) == Instruction::<u8, u8, u8>::IsFn(t, s) ==> stepped_setting(
            before,
            after,
            r,
            t,
            GenericValue::Bool(v is CoreFn || v is CompositeFn || v is ExternalFn),
        ),
        running(before) == Instruction::<u8, u8, u8>::IsError(t, s) ==> stepped_setting(
            before,
            after,
            r,
            t,
            GenericValue::Bool(v is Error),
        ),
        running(before) == Instruction::<u8, u8, u8>::IsCoroutine(t, s) ==> stepped_setting(
            before,
            after,
            r,
            t,
            GenericValue::Bool(v is Coroutine),
        ),
{
    lemma_advanced_reads(before);
    if running(before) == Instruction::<u8, u8, u8>::IsNil(t, s) {
        assert(before.advanced().register_effect(running(before)) == Some(
            RegisterEffect::Sets(t, GenericValue::Bool(v is Nil), None),
        ));
        lemma_step_sets(before, after, r, t, GenericValue::Bool(v is Nil));
    }
    if running(before) == Instruction::<u8, u8, u8>::IsBool(t, s) {
        assert(before.advanced().register_effect(running(before)) == Some(
            RegisterEffect::Sets(t, GenericValue::Bool(v is Bool), None),
        ));
        lemma_step_sets(before, after, r, t, GenericValue::Bool(v is Bool));
    }
    if running(before) == Instruction::<u8, u8, u8>::IsChar(t, s) {
        assert(before.advanced().register_effect(running(before)) == Some(
            RegisterEffect::Sets(t, GenericValue::Bool(v is Char), None),
        ));
        lemma_step_sets(before, after, r, t, GenericValue::Bool(v is Char));
    }
    if running(before) == Instruction::<u8, u8, u8>::IsNum(t, s) {
        assert(before.advanced().register_effect(running(before)) == Some(
            RegisterEffect::Sets(t, GenericValue::Bool(v is Number), None),
        ));
        lemma_step_sets(before, after, r, t, GenericValue::Bool(v is Number));
    }
    if running(before) == Instruction::<u8, u8, u8>::IsInt(t, s) {
        assert(before.advanced().register_effect(running(before)) == Some(
            RegisterEffect::Sets(t, GenericValue::Bool(v matches GenericValue::Number(Num::Int(_))), None),
        ));
        lemma_step_sets(before, after, r, t, GenericValue::Bool(v matches GenericValue::Number(Num::Int(_))));
    }
    if running(before) == Instruction::<u8, u8, u8>::IsFloat(t, s) {
        assert(before.advanced().register_effect(running(before)) == Some(
            RegisterEffect::Sets(t, GenericValue::Bool(v matches GenericValue::Number(Num::Float(_))), None),
        ));
        lemma_step_sets(before, after, r, t, GenericValue::Bool(v matches GenericValue::Number(Num::Float(_))));
    }
    if running(before) == Instruction::<u8, u8, u8>::IsSymbol(t, s) {
        assert(before.advanced().register_effect(running(before)) == Some(
            RegisterEffect::Sets(t, GenericValue::Bool(v is Symbol), None),
        ));
        lemma_step_sets(before, after, r, t, GenericValue::Bool(v is Symbol));
    }
    if running(before) == Instruction::<u8, u8, u8>::IsString(t, s) {
        assert(before.advanced().register_effect(running(before)) == Some(
            RegisterEffect::Sets(t, GenericValue::Bool(v is Str), None),
        ));
        lemma_step_sets(before, after, r, t, GenericValue::Bool(v is Str));
    }
    if running(before) == Instruction::<u8, u8, u8>::IsList(t, s) {
        assert(before.advanced().register_effect(running(before)) == Some(
            RegisterEffect::Sets(t, GenericValue::Bool(v is List), None),
        ));
        lemma_step_sets(before, after, r, t, GenericValue::Bool(v is List));
    }
    if running(before) == Instruction::<u8, u8, u8>::IsMap(t, s) {
        assert(before.advanced().register_effect(running(before)) == Some(
            RegisterEffect::Sets(t, GenericValue::Bool(v is Hashmap), None),
        ));
        lemma_step_sets(before, after, r, t, GenericValue::Bool(v is Hashmap));
    }
    if running(before) == Instruction::<u8, u8, u8>::IsSet(t, s) {
        assert(before.advanced().register_effect(running(before)) == Some(
            RegisterEffect::Sets(t, GenericValue::Bool(v is Hashset), None),
        ));
        lemma_step_sets(before, after, r, t, GenericValue::Bool(v is Hashset));
    }
    if running(before) == Instruction::<u8, u8, u8>::IsCollection(t, s) {
        assert(before.advanced().register_effect(running(before)) == Some(
            RegisterEffect::Sets(t, GenericValue::Bool(v is List || v is Hashmap || v is Hashset), None),
        ));
        lemma_step_sets(before, after, r, t, GenericValue::Bool(v is List || v is Hashmap || v is Hashset));
    }
    if running(before) == Instruction::<u8, u8, u8>::IsFn(t, s) {
        assert(before.advanced().register_effect(running(before)) == Some(
            RegisterEffect::Sets(t, GenericValue::Bool(v is CoreFn || v is CompositeFn || v is ExternalFn), None),
        ));
        lemma_step_sets(before, after, r, t, GenericValue::Bool(v is CoreFn || v is CompositeFn || v is ExternalFn));
    }
    if running(before) == Instruction::<u8, u8, u8>::IsError(t, s) {
        assert(before.advanced().register_effect(running(before)) == Some(
            RegisterEffect::Sets(t, GenericValue::Bool(v is Error), None),
        ));
        lemma_step_sets(before, after, r, t, GenericValue::Bool(v is Error));
    }
    if running(before) == Instruction::<u8, u8, u8>::IsCoroutine(t, s) {
        assert(before.advanced().register_effect(running(before)) == Some(
            RegisterEffect::Sets(t, GenericValue::Bool(v is Coroutine), None),
        ));
        lemma_step_sets(before, after, r, t, GenericValue::Bool(v is Coroutine));
    }
}

/// Moving values between registers, with register `t` in the stack: one step writes to
/// `t` constant `k` of the running block, where it has one (`Const`), the value `v` of
/// register `s` (`Copy`), `nil` (`Clear`), or whether the value `v` of `s` is a coroutine
/// that has not finished (`IsCoroutineAlive`).
pub proof fn law_register_moves(
    before: EvaluationState,
    after: EvaluationState,
    r: Option<RuntimeResult<Option<Value>>>,
    t: Register,
    s: Register,
    k: u16,
    v: Value,
)
    requires
        has_next(before),
        before.read(s) == Ok::<Value, RuntimeError>(v),
        before.holds_register(t),
        EvaluationState::step_relation(before, after, r),
    ensures
        running(before) == Instruction::<u8, u8, u8>::Const(t, k) && k
            < before.current_frame.block.constants@.len() ==> stepped_setting(
            before,
            after,
            r,
            t,
            before.current_frame.block.constants@[k as int],
        ),
        running(before) == Instruction::<u8, u8, u8>::Copy(t, s) ==> stepped_setting(before, after, r, t, v),
        running(before) == Instruction::<u8, u8, u8>::Clear(t) ==> stepped_setting(
            before,
            after,
            r,
            t,
            GenericValue::Nil,
        ),
        running(before) == Instruction::<u8, u8, u8>::IsCoroutineAlive(t, s) && v is Coroutine
            ==> stepped_setting(before, after, r, t, GenericValue::Bool(v->Coroutine_0 is Some)),
{
    lemma_advanced_reads(before);
    if running(before) == Instruction::<u8, u8, u8>::Const(t, k) && k
        < before.current_frame.block.constants@.len() {
        let c = before.current_frame.block.constants@[k as int];
        assert(before.advanced().register_effect(running(before)) == Some(RegisterEffect::Sets(t, c, None)));
        lemma_step_sets(before, after, r, t, c);
    }
    if running(before) == Instruction::<u8, u8, u8>::Copy(t, s) {
        assert(before.advanced().register_effect(running(before)) == Some(RegisterEffect::Sets(t, v, None)));
        lemma_step_sets(before, after, r, t, v);
    }
    if running(before) == Instruction::<u8, u8, u8>::Clear(t) {
        assert(before.advanced().register_effect(running(before)) == Some(
            RegisterEffect::Sets(t, GenericValue::Nil, None),
        ));
        lemma_step_sets(before, after, r, t, GenericValue::Nil);
    }
    if running(before) == Instruction::<u8, u8, u8>::IsCoroutineAlive(t, s) && v is Coroutine {
        let b = GenericValue::Bool(v->Coroutine_0 is Some);
        assert(before.advanced().register_effect(running(before)) == Some(RegisterEffect::Sets(t, b, None)));
        lemma_step_sets(before, after, r, t, b);
    }
}

/// Reading lists, with the list `l` in register `s` and register `t` in the stack: one
/// step writes to `t` whether `l` is empty (`IsEmpty`), its first element (`First`) or
/// its last (`Last`), `nil` where it has none; and `EmptyList` writes an empty list.
pub proof fn law_list_reads(
    before: EvaluationState,
    after: EvaluationState,
    r: Option<RuntimeResult<Option<Value>>>,
    t: Register,
    s: Register,
    l: Seq<Value>,
)
    requires
        has_next(before),
        before.read(s) matches Ok(GenericValue::List(list)) && list@ == l,
        before.holds_register(t),
        EvaluationState::step_relation(before, after, r),
    ensures
        running(before) == Instruction::<u8, u8, u8>::IsEmpty(t, s) ==> stepped_setting(
            before,
            after,
            r,
            t,
            GenericValue::Bool(l.len() == 0),
        ),
        running(before) == Instruction::<u8, u8, u8>::First(t, s) ==> stepped_setting(
            before,
            after,
            r,
            t,
            if l.len() > 0 {
                l[0]
            } else {
                GenericValue::Nil
            },
        ),
        running(before) == Instruction::<u8, u8, u8>::Last(t, s) ==> stepped_setting(
            before,
            after,
            r,
            t,
            if l.len() > 0 {
                l[l.len() - 1]
            } else {
                GenericValue::Nil
            },
        ),
        running(before) == Instruction::<u8, u8, u8>::EmptyList(t) ==> stepped_setting_list(
            before,
            after,
            r,
            t,
            Seq::empty(),
        ),
{
    lemma_advanced_reads(before);
    if running(before) == Instruction::<u8, u8, u8>::IsEmpty(t, s) {
        let b = GenericValue::Bool(l.len() == 0);
        assert(before.advanced().register_effect(running(before)) == Some(RegisterEffect::Sets(t, b, None)));
        lemma_step_sets(before, after, r, t, b);
    }
    if running(before) == Instruction::<u8, u8, u8>::First(t, s) {
        let x = if l.len() > 0 {
            l[0]
        } else {
            GenericValue::Nil
        };
        assert(before.advanced().register_effect(running(before)) == Some(RegisterEffect::Sets(t, x, None)));
        lemma_step_sets(before, after, r, t, x);
    }
    if running(before) == Instruction::<u8, u8, u8>::Last(t, s) {
        let x = if l.len() > 0 {
            l[l.len() - 1]
        } else {
            GenericValue::Nil
        };
        assert(before.advanced().register_effect(running(before)) == Some(RegisterEffect::Sets(t, x, None)));
        lemma_step_sets(before, after, r, t, x);
    }
    if running(before) == Instruction::<u8, u8, u8>::EmptyList(t) {
        assert(before.advanced().register_effect(running(before)) == Some(
            RegisterEffect::SetsList(t, Seq::empty(), None),
        ));
        lemma_step_sets_list(before, after, r, t, Seq::empty());
    }
}

/// Changing a list in place, with the list `l` in register `c`: one step leaves in `c` the
/// list with the value `v` of register `s` added at the end (`Push`) or at the front
/// (`Cons`), or without its first (`Rest`) or last (`ButLast`) element where it has one.
pub proof fn law_list_changes(
    before: EvaluationState,
    after: EvaluationState,
    r: Option<RuntimeResult<Option<Value>>>,
    c: Register,
    s: Register,
    l: Seq<Value>,
    v: Value,
)
    requires
        has_next(before),
        before.read(c) matches Ok(GenericValue::List(list)) && list@ == l,
        before.read(s) == Ok::<Value, RuntimeError>(v),
        EvaluationState::step_relation(before, after, r),
    ensures
        running(before) == Instruction::<u8, u8, u8>::Push(c, s) ==> stepped_setting_list(
            before,
            after,
            r,
            c,
            l.push(v),
        ),
        running(before) == Instruction::<u8, u8, u8>::Cons(c, s) ==> stepped_setting_list(
            before,
            after,
            r,
            c,
            seq![v] + l,
        ),
        running(before) == Instruction::<u8, u8, u8>::Rest(c) ==> stepped_setting_list(
            before,
            after,
            r,
            c,
            if l.len() > 0 {
                l.subrange(1, l.len() as int)
            } else {
                l
            },
        ),
        running(before) == Instruction::<u8, u8, u8>::ButLast(c) ==> stepped_setting_list(
            before,
            after,
            r,
            c,
            if l.len() > 0 {
                l.subrange(0, l.len() - 1)
            } else {
                l
            },
        ),
{
    lemma_advanced_reads(before);
    if running(before) == Instruction::<u8, u8, u8>::Push(c, s) {
        assert(before.advanced().register_effect(running(before)) == Some(
            RegisterEffect::SetsList(c, l.push(v), None),
        ));
        lemma_step_sets_list(before, after, r, c, l.push(v));
    }
    if running(before) == Instruction::<u8, u8, u8>::Cons(c, s) {
        assert(before.advanced().register_effect(running(before)) == Some(
            RegisterEffect::SetsList(c, seq![v] + l, None),
        ));
        lemma_step_sets_list(before, after, r, c, seq![v] + l);
    }
    if running(before) == Instruction::<u8, u8, u8>::Rest(c) {
        let rest = if l.len() > 0 {
            l.subrange(1, l.len() as int)
        } else {
            l
        };
        assert(l.len() > 0 ==> l.drop_first() =~= rest);
        assert(before.advanced().register_effect(running(before)) == Some(
            RegisterEffect::SetsList(c, rest, None),
        ));
        lemma_step_sets_list(before, after, r, c, rest);
    }
    if running(before) == Instruction::<u8, u8, u8>::ButLast(c) {
        let init = if l.len() > 0 {
            l.subrange(0, l.len() - 1)
        } else {
            l
        };
        assert(l.len() > 0 ==> l.drop_last() =~= init);
        assert(before.advanced().register_effect(running(before)) == Some(
            RegisterEffect::SetsList(c, init, None),
        ));
        lemma_step_sets_list(before, after, r, c, init);
    }
}

/// Whether `v` counts as false in a condition: `nil` or `false`.
pub open spec fn is_false(v: Value) -> bool {
    v is Nil || v == GenericValue::<u8, u8, u8, u8>::Bool(false)
}

/// Whether the instruction at `j` of the running block of `state` ends the branch that a
/// false `If` skips: an `Else`, an `EndIf`, or an `ElseIf` whose condition reads true.
pub open spec fn ends_false_branch(state: EvaluationState, j: int) -> bool {
    let instruction = state.current_frame.block.instructions@[j];
    ||| instruction is Else
    ||| instruction is EndIf
    ||| instruction matches Instruction::ElseIf(d) && state.read(d) matches Ok(w) && !is_false(w)
}

/// Whether the instructions of the running block of `state` from `from` up to `to` are all
/// skipped by a false `If`: none is an `Else` or an `EndIf`, and each `ElseIf` among them
/// has a condition that reads false.
pub open spec fn skipped_by_false_if(state: EvaluationState, from: int, to: int) -> bool {
    forall|k: int|
        from <= k < to ==> {
            let instruction = #[trigger] state.current_frame.block.instructions@[k];
            &&& !(instruction is Else)
            &&& !(instruction is EndIf)
            &&& instruction matches Instruction::ElseIf(d) ==> state.read(d) matches Ok(w) && is_false(w)
        }
}

proof fn lemma_branch_after_lands(state: EvaluationState, m: int, j: int)
    requires
        0 <= m <= j < state.current_frame.block.instructions@.len(),
        skipped_by_false_if(state, m, j),
        ends_false_branch(state, j),
    ensures
        branch_after(state, m) == (Ok::<(), RuntimeError>(()), j + 1),
    decreases j - m,
{
    if m < j {
        assert(state.current_frame.block.instructions@[m] == state.current_frame.block.instructions@[m]);
        lemma_branch_after_lands(state, m + 1, j);
    }
}

proof fn lemma_endif_after_lands(instructions: Seq<RuntimeInstruction>, m: int, j: int)
    requires
        0 <= m <= j < instructions.len(),
        forall|k: int| m <= k < j ==> !(#[trigger] instructions[k] is EndIf),
        instructions[j] is EndIf,
    ensures
        endif_after(instructions, m) == Some(j),
    decreases j - m,
{
    if m < j {
        lemma_endif_after_lands(instructions, m + 1, j);
    }
}

/// Branching. A step on `If(c)` with a true condition `v` (neither `nil` nor `false`)
/// goes on to the next instruction and changes nothing else. With a false condition it
/// goes on past the instruction at `j`, the first after the `If` that is an `Else`, an
/// `EndIf`, or an `ElseIf` with a true condition. A step on `Else` or `ElseIf` goes on past
/// the first `EndIf` at `j` after it. Neither changes any value.
pub proof fn law_branching(
    before: EvaluationState,
    after: EvaluationState,
    r: Option<RuntimeResult<Option<Value>>>,
    c: Register,
    v: Value,
    j: int,
)
    requires
        has_next(before),
        before.read(c) == Ok::<Value, RuntimeError>(v),
        EvaluationState::step_relation(before, after, r),
        before.current_frame.block.instructions@.len() <= usize::MAX,
    ensures
        running(before) == Instruction::<u8, u8, u8>::If(c) && !is_false(v) ==> r == Some(
            Ok::<Option<Value>, RuntimeError>(None),
        ) && after == before.advanced(),
        running(before) == Instruction::<u8, u8, u8>::If(c) && is_false(v)
            && before.current_frame.instruction_index < j
            < before.current_frame.block.instructions@.len() && skipped_by_false_if(
            before,
            before.current_frame.instruction_index + 1,
            j,
        ) && ends_false_branch(before, j) ==> {
            &&& r == Some(Ok::<Option<Value>, RuntimeError>(None))
            &&& after.current_frame.instruction_index == j + 1
            &&& after.current_frame.block == before.current_frame.block
            &&& after.current_coroutine == before.current_coroutine
        },
        (running(before) is Else || running(before) is ElseIf)
            && before.current_frame.instruction_index < j
            < before.current_frame.block.instructions@.len()
            && before.current_frame.block.instructions@[j] is EndIf && (forall|k: int|
            before.current_frame.instruction_index < k < j
                ==> !(#[trigger] before.current_frame.block.instructions@[k] is EndIf)) ==> {
            &&& r == Some(Ok::<Option<Value>, RuntimeError>(None))
            &&& after.current_frame.instruction_index == j + 1
            &&& after.current_frame.block == before.current_frame.block
            &&& after.current_coroutine == before.current_coroutine
        },
{
    lemma_advanced_reads(before);
    let instruction = running(before);
    let adv = before.advanced();
    let (mid, result) = choose|mid: EvaluationState, result: RuntimeResult<Option<Value>>|
        #![trigger instruction_relation(before.advanced(), mid, instruction, result)]
        {
            &&& instruction_relation(before.advanced(), mid, instruction, result)
            &&& step_ends(mid, after, result, r)
        };
    assert(instruction_relation(adv, mid, instruction, result));
    let index = before.current_frame.instruction_index as int;
    if running(before) == Instruction::<u8, u8, u8>::If(c) && is_false(v)
        && index < j < before.current_frame.block.instructions@.len() && skipped_by_false_if(
        before,
        index + 1,
        j,
    ) && ends_false_branch(before, j) {
        assert forall|k: int| index + 1 <= k < j implies {
            let instruction = #[trigger] adv.current_frame.block.instructions@[k];
            &&& !(instruction is Else)
            &&& !(instruction is EndIf)
            &&& instruction matches Instruction::ElseIf(d) ==> adv.read(d) matches Ok(w) && is_false(w)
        } by {
            assert(before.current_frame.block.instructions@[k] == adv.current_frame.block.instructions@[k]);
        }
        assert(skipped_by_false_if(adv, index + 1, j));
        lemma_branch_after_lands(adv, index + 1, j);
        assert(adv.current_frame.instruction_index == index + 1);
        assert(!crate::runtime::data::spec_truthy(v));
        assert(adv.register_effect(instruction) is None);
        assert(crate::runtime::evaluation::control_outcome(adv, mid, instruction, result));
        assert(crate::runtime::evaluation::if_outcome(
            adv,
            mid,
            c,
            crate::runtime::evaluation::unit_of(result),
        ));
        assert(result == Ok::<Option<Value>, RuntimeError>(None));
    }
    if (running(before) is Else || running(before) is ElseIf) && index < j
        < before.current_frame.block.instructions@.len()
        && before.current_frame.block.instructions@[j] is EndIf && (forall|k: int|
        index < k < j ==> !(#[trigger] before.current_frame.block.instructions@[k] is EndIf)) {
        lemma_endif_after_lands(before.current_frame.block.instructions@, index + 1, j);
        assert(adv.current_frame.instruction_index == index + 1);
        assert(adv.register_effect(instruction) is None);
        assert(crate::runtime::evaluation::control_outcome(adv, mid, instruction, result));
        assert(crate::runtime::evaluation::skip_outcome(
            adv,
            mid,
            crate::runtime::evaluation::unit_of(result),
        ));
        assert(result == Ok::<Option<Value>, RuntimeError>(None));
    }
}

/// Jumps and the end of the program: a step on `Jump(j)` goes on at instruction `j` of
/// the same block and changes no value; a step on `Return(v)` in the root frame of the
/// root coroutine ends the program with the value of register `v`.
pub proof fn law_jump_and_return(
    before: EvaluationState,
    after: EvaluationState,
    r: Option<RuntimeResult<Option<Value>>>,
    j: u16,
    v: Register,
)
    requires
        has_next(before),
        EvaluationState::step_relation(before, after, r),
    ensures
        running(before) == Instruction::<u8, u8, u8>::Jump(j) ==> {
            &&& r == Some(Ok::<Option<Value>, RuntimeError>(None))
            &&& after.current_frame.instruction_index == j
            &&& after.current_frame.block == before.current_frame.block
            &&& after.current_coroutine == before.current_coroutine
        },
        running(before) == Instruction::<u8, u8, u8>::Return(v) && before.holds_register(v)
            && before.current_coroutine.paused_frames@.len() == 0
            && before.parent_coroutine_stack@.len() == 0 ==> r == Some(
            Ok::<Option<Value>, RuntimeError>(Some(before.register(v))),
        ),
{
    lemma_advanced_reads(before);
    let instruction = running(before);
    let adv = before.advanced();
    let (mid, result) = choose|mid: EvaluationState, result: RuntimeResult<Option<Value>>|
        #![trigger instruction_relation(before.advanced(), mid, instruction, result)]
        {
            &&& instruction_relation(before.advanced(), mid, instruction, result)
            &&& step_ends(mid, after, result, r)
        };
    assert(instruction_relation(adv, mid, instruction, result));
    if running(before) == Instruction::<u8, u8, u8>::Jump(j) || running(before) == Instruction::<u8, u8, u8>::Return(v) {
        assert(adv.register_effect(instruction) is None);
        assert(crate::runtime::evaluation::control_outcome(adv, mid, instruction, result));
    }
}

} // verus!
