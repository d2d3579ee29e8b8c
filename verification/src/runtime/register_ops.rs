use std::rc::Rc;
use vstd::prelude::*;
use crate::compiler::transformations::register_allocation::{Register, RuntimeInstruction};
use crate::instructions::Instruction;
use crate::runtime::data::{
    duplicate_all, float_is_infinite, float_is_nan, float_is_negative, float_is_positive,
    float_is_zero, float_total_equal, is_infinite_bits, is_nan_bits, is_zero_bits, wrapped_abs,
    wrapped_negation, GenericValue, Num, Value, FLOAT_SIGN,
};
use crate::runtime::error::{RuntimeError, RuntimeResult};
use crate::runtime::evaluation::{global_binding, EvaluationState};

verus! {

/// What an instruction that only reads and writes registers does to the state.
pub enum RegisterEffect {
    /// Nothing.
    Nothing,
    /// Sets the register to the value, then stops with the error, if there is one.
    Sets(Register, Value, Option<RuntimeError>),
    /// Sets the register to a list of the given elements, then stops with the error, if
    /// there is one.
    SetsList(Register, Seq<Value>, Option<RuntimeError>),
    /// Stops with the error and changes nothing.
    Fails(RuntimeError),
}

/// A register effect as the evaluator computes it.
pub enum ComputedEffect {
    Nothing,
    Sets(Register, Value, Option<RuntimeError>),
    Fails(RuntimeError),
}

/// Whether the computed effect is the effect `spec` describes.
pub open spec fn computes(effect: ComputedEffect, spec: RegisterEffect) -> bool {
    match (effect, spec) {
        (ComputedEffect::Nothing, RegisterEffect::Nothing) => true,
        (ComputedEffect::Sets(r, v, e), RegisterEffect::Sets(r2, v2, e2)) => r == r2 && v == v2
            && e == e2,
        (ComputedEffect::Sets(r, v, e), RegisterEffect::SetsList(r2, s, e2)) => {
            &&& r == r2
            &&& e == e2
            &&& v matches GenericValue::List(l) && l@ == s
        },
        (ComputedEffect::Fails(e), RegisterEffect::Fails(e2)) => e == e2,
        _ => false,
    }
}

/// The value as a number: `nil` counts as zero; anything else that is not a number is
/// `CantCastToNum`.
pub open spec fn num_of(v: Value) -> Result<Num, RuntimeError> {
    match v {
        GenericValue::Number(n) => Ok(n),
        GenericValue::Nil => Ok(Num::Int(0)),
        _ => Err(RuntimeError::CantCastToNum(v)),
    }
}

/// The effect of setting `target` to `b`.
pub open spec fn sets_bool(target: Register, b: bool) -> RegisterEffect {
    RegisterEffect::Sets(target, GenericValue::Bool(b), None)
}

/// The effect of setting `target` to the integer `i`.
pub open spec fn sets_int(target: Register, i: i64) -> RegisterEffect {
    RegisterEffect::Sets(target, GenericValue::Number(Num::Int(i)), None)
}

/// Whether an `i64` is even, by Rust's remainder.
pub open spec fn int_is_even(i: i64) -> bool {
    i % 2 == 0
}

/// Whether an `i64` is odd by Rust's remainder, `i % 2 == 1`, which is false for a
/// negative number.
pub open spec fn int_is_odd(i: i64) -> bool {
    i >= 0 && i % 2 == 1
}

/// Whether the instruction tests the kind of a value.
pub open spec fn is_kind_test(instruction: RuntimeInstruction) -> bool {
    ||| instruction is IsNil
    ||| instruction is IsBool
    ||| instruction is IsChar
    ||| instruction is IsNum
    ||| instruction is IsInt
    ||| instruction is IsFloat
    ||| instruction is IsSymbol
    ||| instruction is IsString
    ||| instruction is IsList
    ||| instruction is IsMap
    ||| instruction is IsSet
    ||| instruction is IsCollection
    ||| instruction is IsFn
    ||| instruction is IsError
    ||| instruction is IsCoroutine
}

/// The target and source registers of a kind test.
pub open spec fn kind_test_registers(instruction: RuntimeInstruction) -> (Register, Register) {
    match instruction {
        Instruction::IsNil(t, s) | Instruction::IsBool(t, s) | Instruction::IsChar(t, s)
        | Instruction::IsNum(t, s) | Instruction::IsInt(t, s) | Instruction::IsFloat(t, s)
        | Instruction::IsSymbol(t, s) | Instruction::IsString(t, s) | Instruction::IsList(t, s)
        | Instruction::IsMap(t, s) | Instruction::IsSet(t, s) | Instruction::IsCollection(t, s)
        | Instruction::IsFn(t, s) | Instruction::IsError(t, s) | Instruction::IsCoroutine(t, s) =>
            (t, s),
        _ => (0, 0),
    }
}

/// Whether `v` has the kind that the kind test `instruction` asks for.
pub open spec fn kind_test_holds(instruction: RuntimeInstruction, v: Value) -> bool {
    match instruction {
        Instruction::IsNil(_, _) => v is Nil,
        Instruction::IsBool(_, _) => v is Bool,
        Instruction::IsChar(_, _) => v is Char,
        Instruction::IsNum(_, _) => v is Number,
        Instruction::IsInt(_, _) => v matches GenericValue::Number(Num::Int(_)),
        Instruction::IsFloat(_, _) => v matches GenericValue::Number(Num::Float(_)),
        Instruction::IsSymbol(_, _) => v is Symbol,
        Instruction::IsString(_, _) => v is Str,
        Instruction::IsList(_, _) => v is List,
        Instruction::IsMap(_, _) => v is Hashmap,
        Instruction::IsSet(_, _) => v is Hashset,
        Instruction::IsCollection(_, _) => v is List || v is Hashmap || v is Hashset,
        Instruction::IsFn(_, _) => v is CoreFn || v is CompositeFn || v is ExternalFn,
        Instruction::IsError(_, _) => v is Error,
        Instruction::IsCoroutine(_, _) => v is Coroutine,
        _ => false,
    }
}

/// Whether the instruction is one that the evaluator does not implement yet: it stops
/// with `NotYetImplemented`.
pub open spec fn is_unimplemented(instruction: RuntimeInstruction) -> bool {
    match instruction {
        Instruction::ApplyAndReturn(_, _) | Instruction::ApplySelfAndReturn(_)
        | Instruction::Partial(_, _, _) | Instruction::Compose(_, _, _)
        | Instruction::FindSome(_, _, _) | Instruction::ReduceWithoutInitialValue(_, _)
        | Instruction::ReduceWithInitialValue(_, _, _) | Instruction::Memoize(_, _)
        | Instruction::Constantly(_, _) | Instruction::Pow(_, _, _) | Instruction::Mod(_, _, _)
        | Instruction::Quot(_, _, _) | Instruction::Min(_, _, _) | Instruction::Max(_, _, _)
        | Instruction::GreaterThan(_, _, _) | Instruction::GreaterThanOrEqual(_, _, _)
        | Instruction::LessThan(_, _, _) | Instruction::LessThanOrEqual(_, _, _)
        | Instruction::Rand(_) | Instruction::UpperBoundedRand(_, _)
        | Instruction::LowerUpperBoundedRand(_, _, _) | Instruction::RandInt(_, _)
        | Instruction::LowerBoundedRandInt(_, _, _) | Instruction::Equal(_, _, _)
        | Instruction::NotEqual(_, _, _) | Instruction::Not(_, _) | Instruction::And(_, _, _)
        | Instruction::Or(_, _, _) | Instruction::Xor(_, _, _) | Instruction::Count(_, _)
        | Instruction::Flatten(_, _) | Instruction::Remove(_, _) | Instruction::Filter(_, _)
        | Instruction::CollectionMap(_, _) | Instruction::DoubleMap(_, _, _)
        | Instruction::MultiCollectionMap(_, _) | Instruction::CollectionSet(_, _, _)
        | Instruction::SetIn(_, _, _) | Instruction::Get(_, _, _) | Instruction::GetIn(_, _, _)
        | Instruction::Update(_, _, _) | Instruction::UpdateIn(_, _, _)
        | Instruction::MinKey(_, _, _) | Instruction::MaxKey(_, _, _) | Instruction::Sort(_)
        | Instruction::SortBy(_, _) | Instruction::Nth(_, _, _)
        | Instruction::NthFromLast(_, _, _) | Instruction::Concat(_, _)
        | Instruction::Take(_, _) | Instruction::Drop(_, _) | Instruction::Reverse(_)
        | Instruction::Distinct(_) | Instruction::Sub(_, _, _) | Instruction::Partition(_, _, _)
        | Instruction::SteppedPartition(_, _, _) | Instruction::Pad(_, _, _)
        | Instruction::EmptyMap(_) | Instruction::Keys(_, _) | Instruction::Values(_, _)
        | Instruction::Zip(_, _, _) | Instruction::Invert(_) | Instruction::Merge(_, _, _)
        | Instruction::MergeWith(_, _, _) | Instruction::MapKeys(_, _)
        | Instruction::MapValues(_, _) | Instruction::SelectKeys(_, _) | Instruction::EmptySet(_)
        | Instruction::Union(_, _, _) | Instruction::Intersection(_, _, _)
        | Instruction::Difference(_, _, _) | Instruction::SymmetricDifference(_, _, _)
        | Instruction::InfiniteRange(_) | Instruction::UpperBoundedRange(_, _)
        | Instruction::LowerUpperBoundedRange(_, _, _) | Instruction::InfiniteRepeat(_, _)
        | Instruction::BoundedRepeat(_, _, _) | Instruction::InfiniteRepeatedly(_, _)
        | Instruction::BoundedRepeatedly(_, _, _) | Instruction::InfiniteIterate(_, _, _)
        | Instruction::BoundedIterate(_, _, _) | Instruction::CreateCell(_)
        | Instruction::GetCellValue(_, _) | Instruction::SetCellValue(_, _)
        | Instruction::UpdateCell(_, _) | Instruction::IsCell(_, _) | Instruction::ToBool(_, _)
        | Instruction::ToChar(_, _) | Instruction::ToNum(_, _) | Instruction::ToInt(_, _)
        | Instruction::ToFloat(_, _) | Instruction::ToSymbol(_, _) | Instruction::ToString(_, _)
        | Instruction::ToList(_, _) | Instruction::ToMap(_, _) | Instruction::ToSet(_, _)
        | Instruction::ToError(_, _) => true,
        _ => false,
    }
}

impl EvaluationState {
    /// What a test of the number in `source` does: `f` gives the answer for an integer,
    /// `g` for a float, where there is one without the host.
    pub open spec fn number_test(
        self,
        target: Register,
        source: Register,
        f: spec_fn(i64) -> bool,
        g: spec_fn(u64) -> bool,
    ) -> RegisterEffect {
        match self.read(source) {
            Err(e) => RegisterEffect::Fails(e),
            Ok(GenericValue::Number(Num::Int(i))) => sets_bool(target, f(i)),
            Ok(GenericValue::Number(Num::Float(x))) => sets_bool(target, g(x)),
            Ok(_) => RegisterEffect::Fails(RuntimeError::ArgumentNotNum),
        }
    }

    /// What an operation on the number in `source` does where the number is an integer
    /// (or `nil`, which counts as zero): `f` gives the result. A float is left to the
    /// host (none).
    pub open spec fn int_operation(self, target: Register, source: Register, f: spec_fn(i64) -> i64) -> Option<
        RegisterEffect,
    > {
        match self.read(source) {
            Err(e) => Some(RegisterEffect::Fails(e)),
            Ok(v) => match num_of(v) {
                Err(e) => Some(RegisterEffect::Fails(e)),
                Ok(Num::Int(i)) => Some(sets_int(target, f(i))),
                Ok(Num::Float(_)) => None,
            },
        }
    }

    /// What an operation on the numbers in `a` and `b` does where both are integers (or
    /// `nil`): `f` gives the result. Where either is a float it is left to the host (none).
    pub open spec fn int_binary_operation(
        self,
        target: Register,
        a: Register,
        b: Register,
        f: spec_fn(i64, i64) -> i64,
    ) -> Option<RegisterEffect> {
        match self.read(a) {
            Err(e) => Some(RegisterEffect::Fails(e)),
            Ok(va) => match num_of(va) {
                Err(e) => Some(RegisterEffect::Fails(e)),
                Ok(na) => match self.read(b) {
                    Err(e) => Some(RegisterEffect::Fails(e)),
                    Ok(vb) => match num_of(vb) {
                        Err(e) => Some(RegisterEffect::Fails(e)),
                        Ok(nb) => match (na, nb) {
                            (Num::Int(x), Num::Int(y)) => Some(sets_int(target, f(x, y))),
                            _ => None,
                        },
                    },
                },
            },
        }
    }

    /// What an instruction that takes the collection out of `collection`, and puts back
    /// a list of `f` of its elements, does: `nil` stays `nil`, and anything but a list
    /// (a map or a set where `others_unimplemented`) leaves `nil` and fails.
    pub open spec fn list_rewrite(
        self,
        collection: Register,
        f: spec_fn(Seq<Value>) -> Seq<Value>,
        others_unimplemented: bool,
    ) -> RegisterEffect {
        match self.read(collection) {
            Err(e) => RegisterEffect::Fails(e),
            Ok(GenericValue::List(l)) => RegisterEffect::SetsList(collection, f(l@), None),
            Ok(GenericValue::Nil) => RegisterEffect::Sets(collection, GenericValue::Nil, None),
            Ok(v) => RegisterEffect::Sets(
                collection,
                GenericValue::Nil,
                Some(
                    if others_unimplemented && (v is Hashmap || v is Hashset) {
                        RuntimeError::NotYetImplemented
                    } else {
                        RuntimeError::ArgumentNotList
                    },
                ),
            ),
        }
    }

    /// What `instruction` does, where it only reads and writes registers and needs no
    /// host; none for the instructions that call, return, jump, branch, yield, print, or
    /// compute with floats.
    pub open spec fn register_effect(self, instruction: RuntimeInstruction) -> Option<
        RegisterEffect,
    > {
        if is_unimplemented(instruction) {
            Some(RegisterEffect::Fails(RuntimeError::NotYetImplemented))
        } else if is_kind_test(instruction) {
            let (target, source) = kind_test_registers(instruction);
            Some(
                match self.read(source) {
                    Ok(v) => sets_bool(target, kind_test_holds(instruction, v)),
                    Err(e) => RegisterEffect::Fails(e),
                },
            )
        } else {
            match instruction {
                Instruction::EndIf => Some(RegisterEffect::Nothing),
                Instruction::Clear(t) => Some(RegisterEffect::Sets(t, GenericValue::Nil, None)),
                Instruction::Copy(t, s) => Some(
                    match self.read(s) {
                        Ok(v) => RegisterEffect::Sets(t, v, None),
                        Err(e) => RegisterEffect::Fails(e),
                    },
                ),
                Instruction::Const(t, k) => Some(
                    if k < self.current_frame.block.constants@.len() {
                        RegisterEffect::Sets(t, self.current_frame.block.constants@[k as int], None)
                    } else {
                        RegisterEffect::Fails(RuntimeError::MalformedProgram)
                    },
                ),
                Instruction::EmptyList(t) => Some(RegisterEffect::SetsList(t, Seq::empty(), None)),
                Instruction::CallingFunction(t) => Some(
                    match self.current_frame.calling_function {
                        Some(f) => RegisterEffect::Sets(t, GenericValue::CompositeFn(f), None),
                        None => RegisterEffect::Fails(RuntimeError::MalformedProgram),
                    },
                ),
                Instruction::Lookup(t, symbol) => Some(
                    match global_binding(self.global_bindings@, symbol) {
                        Some(v) => RegisterEffect::Sets(t, v, None),
                        None => RegisterEffect::Fails(RuntimeError::MalformedProgram),
                    },
                ),
                Instruction::IsCoroutineAlive(t, s) => Some(
                    match self.read(s) {
                        Ok(GenericValue::Coroutine(c)) => sets_bool(t, c is Some),
                        Ok(_) => RegisterEffect::Fails(RuntimeError::IsntCoroutine),
                        Err(e) => RegisterEffect::Fails(e),
                    },
                ),
                Instruction::IsZero(t, s) => Some(
                    self.number_test(t, s, |i: i64| i == 0, |x: u64| float_is_zero(x)),
                ),
                Instruction::IsNan(t, s) => Some(
                    self.number_test(t, s, |i: i64| false, |x: u64| float_is_nan(x)),
                ),
                Instruction::IsInf(t, s) => Some(
                    self.number_test(t, s, |i: i64| false, |x: u64| float_is_infinite(x)),
                ),
                Instruction::IsPos(t, s) => Some(
                    self.number_test(t, s, |i: i64| i > 0, |x: u64| float_is_positive(x)),
                ),
                Instruction::IsNeg(t, s) => Some(
                    self.number_test(t, s, |i: i64| i < 0, |x: u64| float_is_negative(x)),
                ),
                Instruction::IsEven(t, s) => match self.read(s) {
                    Err(e) => Some(RegisterEffect::Fails(e)),
                    Ok(GenericValue::Number(Num::Int(i))) => Some(sets_bool(t, int_is_even(i))),
                    Ok(GenericValue::Number(Num::Float(_))) => None,
                    Ok(_) => Some(RegisterEffect::Fails(RuntimeError::ArgumentNotNum)),
                },
                Instruction::IsOdd(t, s) => match self.read(s) {
                    Err(e) => Some(RegisterEffect::Fails(e)),
                    Ok(GenericValue::Number(Num::Int(i))) => Some(sets_bool(t, int_is_odd(i))),
                    Ok(GenericValue::Number(Num::Float(_))) => None,
                    Ok(_) => Some(RegisterEffect::Fails(RuntimeError::ArgumentNotNum)),
                },
                Instruction::NumericalEqual(t, a, b) => match (self.read(a), self.read(b)) {
                    (Err(e), _) => Some(RegisterEffect::Fails(e)),
                    (_, Err(e)) => Some(RegisterEffect::Fails(e)),
                    (
                        Ok(GenericValue::Number(Num::Int(x))),
                        Ok(GenericValue::Number(Num::Int(y))),
                    ) => Some(sets_bool(t, x == y)),
                    (
                        Ok(GenericValue::Number(Num::Float(x))),
                        Ok(GenericValue::Number(Num::Float(y))),
                    ) => Some(sets_bool(t, float_total_equal(x, y))),
                    (Ok(GenericValue::Number(_)), Ok(GenericValue::Number(_))) => None,
                    _ => Some(RegisterEffect::Fails(RuntimeError::ArgumentNotNum)),
                },
                Instruction::Inc(t, s) => self.int_operation(
                    t,
                    s,
                    |i: i64| vstd::wrapping::i64_specs::wrapping_add(i, 1),
                ),
                Instruction::Dec(t, s) => self.int_operation(
                    t,
                    s,
                    |i: i64| vstd::wrapping::i64_specs::wrapping_sub(i, 1),
                ),
                Instruction::Floor(t, s) => self.int_operation(t, s, |i: i64| i),
                Instruction::Ceil(t, s) => self.int_operation(t, s, |i: i64| i),
                Instruction::Negate(t, s) => Some(
                    match self.read(s) {
                        Err(e) => RegisterEffect::Fails(e),
                        Ok(v) => match num_of(v) {
                            Err(e) => RegisterEffect::Fails(e),
                            Ok(Num::Int(i)) => sets_int(t, wrapped_negation(i)),
                            Ok(Num::Float(x)) => RegisterEffect::Sets(
                                t,
                                GenericValue::Number(Num::Float(x ^ FLOAT_SIGN)),
                                None,
                            ),
                        },
                    },
                ),
                Instruction::Abs(t, s) => Some(
                    match self.read(s) {
                        Err(e) => RegisterEffect::Fails(e),
                        Ok(v) => match num_of(v) {
                            Err(e) => RegisterEffect::Fails(e),
                            Ok(Num::Int(i)) => sets_int(t, wrapped_abs(i)),
                            Ok(Num::Float(x)) => RegisterEffect::Sets(
                                t,
                                GenericValue::Number(Num::Float(x & !FLOAT_SIGN)),
                                None,
                            ),
                        },
                    },
                ),
                Instruction::Add(t, a, b) => self.int_binary_operation(
                    t,
                    a,
                    b,
                    |x: i64, y: i64| vstd::wrapping::i64_specs::wrapping_add(x, y),
                ),
                Instruction::Subtract(t, a, b) => self.int_binary_operation(
                    t,
                    a,
                    b,
                    |x: i64, y: i64| vstd::wrapping::i64_specs::wrapping_sub(x, y),
                ),
                Instruction::Multiply(t, a, b) => self.int_binary_operation(
                    t,
                    a,
                    b,
                    |x: i64, y: i64| vstd::wrapping::i64_specs::wrapping_mul(x, y),
                ),
                Instruction::IsEmpty(t, s) => Some(
                    match self.read(s) {
                        Err(e) => RegisterEffect::Fails(e),
                        Ok(GenericValue::List(l)) => sets_bool(t, l@.len() == 0),
                        Ok(GenericValue::Hashset(l)) => sets_bool(t, l@.len() == 0),
                        Ok(GenericValue::Hashmap(m)) => sets_bool(t, m@.len() == 0),
                        Ok(GenericValue::Nil) => sets_bool(t, true),
                        Ok(_) => RegisterEffect::Fails(RuntimeError::ArgumentNotList),
                    },
                ),
                Instruction::First(t, s) => Some(
                    match self.read(s) {
                        Err(e) => RegisterEffect::Fails(e),
                        Ok(GenericValue::List(l)) | Ok(GenericValue::Hashset(l)) => if l@.len()
                            > 0 {
                            RegisterEffect::Sets(t, l@[0], None)
                        } else {
                            RegisterEffect::Sets(t, GenericValue::Nil, None)
                        },
                        Ok(GenericValue::Hashmap(m)) => if m@.len() > 0 {
                            RegisterEffect::SetsList(t, seq![m@[0].0, m@[0].1], None)
                        } else {
                            RegisterEffect::Sets(t, GenericValue::Nil, None)
                        },
                        Ok(GenericValue::Nil) => RegisterEffect::Sets(t, GenericValue::Nil, None),
                        Ok(_) => RegisterEffect::Fails(RuntimeError::ArgumentNotList),
                    },
                ),
                Instruction::Last(t, s) => Some(
                    match self.read(s) {
                        Err(e) => RegisterEffect::Fails(e),
                        Ok(GenericValue::List(l)) => if l@.len() > 0 {
                            RegisterEffect::Sets(t, l@.last(), None)
                        } else {
                            RegisterEffect::Sets(t, GenericValue::Nil, None)
                        },
                        Ok(GenericValue::Nil) => RegisterEffect::Sets(t, GenericValue::Nil, None),
                        Ok(_) => RegisterEffect::Fails(RuntimeError::ArgumentNotList),
                    },
                ),
                Instruction::Push(c, s) => Some(
                    match self.read(s) {
                        Err(e) => RegisterEffect::Fails(e),
                        Ok(v) => self.list_rewrite(c, |l: Seq<Value>| l.push(v), true),
                    },
                ),
                Instruction::Cons(c, s) => Some(
                    match self.read(s) {
                        Err(e) => RegisterEffect::Fails(e),
                        Ok(v) => self.list_rewrite(c, |l: Seq<Value>| seq![v] + l, true),
                    },
                ),
                Instruction::Rest(c) => Some(
                    self.list_rewrite(
                        c,
                        |l: Seq<Value>|
                            if l.len() > 0 {
                                l.drop_first()
                            } else {
                                l
                            },
                        false,
                    ),
                ),
                Instruction::ButLast(c) => Some(
                    self.list_rewrite(
                        c,
                        |l: Seq<Value>|
                            if l.len() > 0 {
                                l.drop_last()
                            } else {
                                l
                            },
                        false,
                    ),
                ),
                _ => None,
            }
        }
    }

    /// Whether `new`, with the result `r`, is what the register effect makes of `self`.
    /// A register past the end of the stack stops the instruction with `StackOverflow`.
    pub open spec fn applies(self, effect: RegisterEffect, new: Self, r: RuntimeResult<Option<Value>>) -> bool {
        match effect {
            RegisterEffect::Nothing => new == self && r == Ok::<Option<Value>, RuntimeError>(None),
            RegisterEffect::Fails(e) => new == self && r == Err::<Option<Value>, RuntimeError>(e),
            RegisterEffect::Sets(t, v, e) => if self.holds_register(t) {
                &&& self.changes_stack_at(new, self.slot(t))
                &&& new.register(t) == v
                &&& r == match e {
                    None => Ok::<Option<Value>, RuntimeError>(None),
                    Some(e) => Err(e),
                }
            } else {
                new == self && r == Err::<Option<Value>, RuntimeError>(RuntimeError::StackOverflow)
            },
            RegisterEffect::SetsList(t, s, e) => if self.holds_register(t) {
                &&& self.changes_stack_at(new, self.slot(t))
                &&& new.register(t) matches GenericValue::List(l) && l@ == s
                &&& r == match e {
                    None => Ok::<Option<Value>, RuntimeError>(None),
                    Some(e) => Err(e),
                }
            } else {
                new == self && r == Err::<Option<Value>, RuntimeError>(RuntimeError::StackOverflow)
            },
        }
    }

    /// The stack position of `register`, where it lies within the stack.
    pub fn slot_of(&self, register: Register) -> (r: Option<usize>)
        ensures
            r is Some <==> self.holds_register(register),
            r matches Some(i) ==> i == self.slot(register),
    {
        let length = self.current_coroutine.stack.len();
        match self.current_frame.beginning.checked_add(register as usize) {
            Some(i) => if i < length {
                Some(i)
            } else {
                None
            },
            None => None,
        }
    }

    /// The value in `register`.
    pub fn read_register(&self, register: Register) -> (r: RuntimeResult<Value>)
        ensures
            r == self.read(register),
    {
        match self.slot_of(register) {
            Some(i) => Ok(self.current_coroutine.stack[i].duplicate()),
            None => Err(RuntimeError::StackOverflow),
        }
    }

    /// Puts `value` in `register`.
    pub fn write_register(&mut self, register: Register, value: Value) -> (r: RuntimeResult<()>)
        ensures
            old(self).holds_register(register) ==> {
                &&& r is Ok
                &&& old(self).changes_stack_at(*final(self), old(self).slot(register))
                &&& final(self).register(register) == value
            },
            !old(self).holds_register(register) ==> r == Err::<(), RuntimeError>(
                RuntimeError::StackOverflow,
            ) && *final(self) == *old(self),
    {
        match self.slot_of(register) {
            Some(i) => {
                self.current_coroutine.stack.set(i, value);
                Ok(())
            },
            None => Err(RuntimeError::StackOverflow),
        }
    }

    /// Carries out a computed register effect.
    fn carry_out(&mut self, effect: ComputedEffect, Ghost(spec): Ghost<RegisterEffect>) -> (r:
        RuntimeResult<Option<Value>>)
        requires
            computes(effect, spec),
        ensures
            old(self).applies(spec, *final(self), r),
    {
        match effect {
            ComputedEffect::Nothing => Ok(None),
            ComputedEffect::Fails(e) => Err(e),
            ComputedEffect::Sets(t, v, e) => match self.write_register(t, v) {
                Ok(()) => match e {
                    None => Ok(None),
                    Some(e) => Err(e),
                },
                Err(e) => Err(e),
            },
        }
    }
}


/// Whether the evaluator leaves `instruction` unimplemented.
pub fn is_unimplemented_instruction(instruction: RuntimeInstruction) -> (b: bool)
    ensures
        b == is_unimplemented(instruction),
{
    match instruction {
        Instruction::ApplyAndReturn(_, _) | Instruction::ApplySelfAndReturn(_)
        | Instruction::Partial(_, _, _) | Instruction::Compose(_, _, _)
        | Instruction::FindSome(_, _, _) | Instruction::ReduceWithoutInitialValue(_, _)
        | Instruction::ReduceWithInitialValue(_, _, _) | Instruction::Memoize(_, _)
        | Instruction::Constantly(_, _) | Instruction::Pow(_, _, _) | Instruction::Mod(_, _, _)
        | Instruction::Quot(_, _, _) | Instruction::Min(_, _, _) | Instruction::Max(_, _, _)
        | Instruction::GreaterThan(_, _, _) | Instruction::GreaterThanOrEqual(_, _, _)
        | Instruction::LessThan(_, _, _) | Instruction::LessThanOrEqual(_, _, _)
        | Instruction::Rand(_) | Instruction::UpperBoundedRand(_, _)
        | Instruction::LowerUpperBoundedRand(_, _, _) | Instruction::RandInt(_, _)
        | Instruction::LowerBoundedRandInt(_, _, _) | Instruction::Equal(_, _, _)
        | Instruction::NotEqual(_, _, _) | Instruction::Not(_, _) | Instruction::And(_, _, _)
        | Instruction::Or(_, _, _) | Instruction::Xor(_, _, _) | Instruction::Count(_, _)
        | Instruction::Flatten(_, _) | Instruction::Remove(_, _) | Instruction::Filter(_, _)
        | Instruction::CollectionMap(_, _) | Instruction::DoubleMap(_, _, _)
        | Instruction::MultiCollectionMap(_, _) | Instruction::CollectionSet(_, _, _)
        | Instruction::SetIn(_, _, _) | Instruction::Get(_, _, _) | Instruction::GetIn(_, _, _)
        | Instruction::Update(_, _, _) | Instruction::UpdateIn(_, _, _)
        | Instruction::MinKey(_, _, _) | Instruction::MaxKey(_, _, _) | Instruction::Sort(_)
        | Instruction::SortBy(_, _) | Instruction::Nth(_, _, _)
        | Instruction::NthFromLast(_, _, _) | Instruction::Concat(_, _)
        | Instruction::Take(_, _) | Instruction::Drop(_, _) | Instruction::Reverse(_)
        | Instruction::Distinct(_) | Instruction::Sub(_, _, _) | Instruction::Partition(_, _, _)
        | Instruction::SteppedPartition(_, _, _) | Instruction::Pad(_, _, _)
        | Instruction::EmptyMap(_) | Instruction::Keys(_, _) | Instruction::Values(_, _)
        | Instruction::Zip(_, _, _) | Instruction::Invert(_) | Instruction::Merge(_, _, _)
        | Instruction::MergeWith(_, _, _) | Instruction::MapKeys(_, _)
        | Instruction::MapValues(_, _) | Instruction::SelectKeys(_, _) | Instruction::EmptySet(_)
        | Instruction::Union(_, _, _) | Instruction::Intersection(_, _, _)
        | Instruction::Difference(_, _, _) | Instruction::SymmetricDifference(_, _, _)
        | Instruction::InfiniteRange(_) | Instruction::UpperBoundedRange(_, _)
        | Instruction::LowerUpperBoundedRange(_, _, _) | Instruction::InfiniteRepeat(_, _)
        | Instruction::BoundedRepeat(_, _, _) | Instruction::InfiniteRepeatedly(_, _)
        | Instruction::BoundedRepeatedly(_, _, _) | Instruction::InfiniteIterate(_, _, _)
        | Instruction::BoundedIterate(_, _, _) | Instruction::CreateCell(_)
        | Instruction::GetCellValue(_, _) | Instruction::SetCellValue(_, _)
        | Instruction::UpdateCell(_, _) | Instruction::IsCell(_, _) | Instruction::ToBool(_, _)
        | Instruction::ToChar(_, _) | Instruction::ToNum(_, _) | Instruction::ToInt(_, _)
        | Instruction::ToFloat(_, _) | Instruction::ToSymbol(_, _) | Instruction::ToString(_, _)
        | Instruction::ToList(_, _) | Instruction::ToMap(_, _) | Instruction::ToSet(_, _)
        | Instruction::ToError(_, _) => true,
        _ => false,
    }
}

/// The target and source registers of a kind test; none for any other instruction.
pub fn kind_test_operands(instruction: RuntimeInstruction) -> (r: Option<(Register, Register)>)
    ensures
        r is Some <==> is_kind_test(instruction),
        r matches Some(p) ==> p == kind_test_registers(instruction),
{
    match instruction {
        Instruction::IsNil(t, s) | Instruction::IsBool(t, s) | Instruction::IsChar(t, s)
        | Instruction::IsNum(t, s) | Instruction::IsInt(t, s) | Instruction::IsFloat(t, s)
        | Instruction::IsSymbol(t, s) | Instruction::IsString(t, s) | Instruction::IsList(t, s)
        | Instruction::IsMap(t, s) | Instruction::IsSet(t, s) | Instruction::IsCollection(t, s)
        | Instruction::IsFn(t, s) | Instruction::IsError(t, s) | Instruction::IsCoroutine(t, s) =>
            Some((t, s)),
        _ => None,
    }
}

/// Whether `v` has the kind that the kind test `instruction` asks for.
fn kind_test_result(instruction: RuntimeInstruction, v: &Value) -> (b: bool)
    requires
        is_kind_test(instruction),
    ensures
        b == kind_test_holds(instruction, *v),
{
    match instruction {
        Instruction::IsNil(_, _) => matches!(v, GenericValue::Nil),
        Instruction::IsBool(_, _) => matches!(v, GenericValue::Bool(..)),
        Instruction::IsChar(_, _) => matches!(v, GenericValue::Char(..)),
        Instruction::IsNum(_, _) => matches!(v, GenericValue::Number(..)),
        Instruction::IsInt(_, _) => match v {
            GenericValue::Number(Num::Int(_)) => true,
            _ => false,
        },
        Instruction::IsFloat(_, _) => match v {
            GenericValue::Number(Num::Float(_)) => true,
            _ => false,
        },
        Instruction::IsSymbol(_, _) => matches!(v, GenericValue::Symbol(..)),
        Instruction::IsString(_, _) => matches!(v, GenericValue::Str(..)),
        Instruction::IsList(_, _) => matches!(v, GenericValue::List(..)),
        Instruction::IsMap(_, _) => matches!(v, GenericValue::Hashmap(..)),
        Instruction::IsSet(_, _) => matches!(v, GenericValue::Hashset(..)),
        Instruction::IsCollection(_, _) => matches!(v, GenericValue::List(..)) || matches!(v, GenericValue::Hashmap(..)) || matches!(v, GenericValue::Hashset(..)),
        Instruction::IsFn(_, _) => matches!(v, GenericValue::CoreFn(..)) || matches!(v, GenericValue::CompositeFn(..)) || matches!(v, GenericValue::ExternalFn(..)),
        Instruction::IsError(_, _) => matches!(v, GenericValue::Error(..)),
        Instruction::IsCoroutine(_, _) => matches!(v, GenericValue::Coroutine(..)),
        _ => false,
    }
}

/// The value as a number: `nil` counts as zero.
fn value_as_num(v: &Value) -> (r: Result<Num, RuntimeError>)
    ensures
        r == num_of(*v),
{
    v.as_num()
}

/// The list of the elements of `l` from `start` on.
fn list_from(l: &Vec<Value>, start: usize) -> (r: Vec<Value>)
    requires
        start <= l@.len(),
    ensures
        r@ == l@.skip(start as int),
{
    let mut r: Vec<Value> = Vec::new();
    let mut i: usize = start;
    while i < l.len()
        invariant
            start <= i <= l@.len(),
            r@ == l@.subrange(start as int, i as int),
        decreases l@.len() - i,
    {
        r.push(l[i].duplicate());
        proof {
            assert(l@.subrange(start as int, i + 1) =~= l@.subrange(start as int, i as int).push(
                l@[i as int],
            ));
        }
        i = i + 1;
    }
    proof {
        assert(l@.subrange(start as int, l@.len() as int) =~= l@.skip(start as int));
    }
    r
}

/// The list of the first `end` elements of `l`.
fn list_to(l: &Vec<Value>, end: usize) -> (r: Vec<Value>)
    requires
        end <= l@.len(),
    ensures
        r@ == l@.take(end as int),
{
    let mut r: Vec<Value> = Vec::new();
    let mut i: usize = 0;
    while i < end
        invariant
            0 <= i <= end <= l@.len(),
            r@ == l@.take(i as int),
        decreases end - i,
    {
        r.push(l[i].duplicate());
        proof {
            assert(l@.take(i + 1) =~= l@.take(i as int).push(l@[i as int]));
        }
        i = i + 1;
    }
    r
}

impl EvaluationState {
    /// The value bound to `symbol`.
    pub fn lookup_global(&self, symbol: crate::instructions::SymbolIndex) -> (r: Option<Value>)
        ensures
            r == global_binding(self.global_bindings@, symbol),
    {
        let mut i: usize = 0;
        proof {
            assert(self.global_bindings@.skip(0) =~= self.global_bindings@);
        }
        while i < self.global_bindings.len()
            invariant
                0 <= i <= self.global_bindings@.len(),
                global_binding(self.global_bindings@, symbol) == global_binding(
                    self.global_bindings@.skip(i as int),
                    symbol,
                ),
            decreases self.global_bindings@.len() - i,
        {
            proof {
                assert(self.global_bindings@.skip(i as int).drop_first()
                    =~= self.global_bindings@.skip(i + 1));
            }
            if self.global_bindings[i].0 == symbol {
                return Some(self.global_bindings[i].1.duplicate());
            }
            i = i + 1;
        }
        None
    }

    /// What a test on the number in `source` computes: `int_test` and `float_test` give
    /// the answers for an integer and for a float.
    fn compute_number_test(&self, instruction: RuntimeInstruction) -> (r: Option<ComputedEffect>)
        requires
            instruction is IsZero || instruction is IsNan || instruction is IsInf
                || instruction is IsPos || instruction is IsNeg || instruction is IsEven
                || instruction is IsOdd,
        ensures
            r is Some <==> self.register_effect(instruction) is Some,
            r matches Some(e) ==> computes(e, self.register_effect(instruction).unwrap()),
    {
        let (t, s) = match instruction {
            Instruction::IsZero(t, s) | Instruction::IsNan(t, s) | Instruction::IsInf(t, s)
            | Instruction::IsPos(t, s) | Instruction::IsNeg(t, s) | Instruction::IsEven(t, s)
            | Instruction::IsOdd(t, s) => (t, s),
            _ => (0, 0),
        };
        let v = match self.read_register(s) {
            Ok(v) => v,
            Err(e) => {
                return Some(ComputedEffect::Fails(e));
            },
        };
        let b = match v {
            GenericValue::Number(Num::Int(i)) => match instruction {
                Instruction::IsZero(_, _) => i == 0,
                Instruction::IsNan(_, _) => false,
                Instruction::IsInf(_, _) => false,
                Instruction::IsPos(_, _) => i > 0,
                Instruction::IsNeg(_, _) => i < 0,
                Instruction::IsEven(_, _) => i % 2 == 0,
                _ => i % 2 == 1,
            },
            GenericValue::Number(Num::Float(x)) => match instruction {
                Instruction::IsZero(_, _) => is_zero_bits(x),
                Instruction::IsNan(_, _) => is_nan_bits(x),
                Instruction::IsInf(_, _) => is_infinite_bits(x),
                Instruction::IsPos(_, _) => !is_nan_bits(x) && !is_zero_bits(x) && x & FLOAT_SIGN
                    == 0,
                Instruction::IsNeg(_, _) => !is_nan_bits(x) && !is_zero_bits(x) && x & FLOAT_SIGN
                    != 0,
                _ => {
                    return None;
                },
            },
            _ => {
                return Some(ComputedEffect::Fails(RuntimeError::ArgumentNotNum));
            },
        };
        Some(ComputedEffect::Sets(t, GenericValue::Bool(b), None))
    }

    /// What an arithmetic instruction computes without the host.
    fn compute_arithmetic(&self, instruction: RuntimeInstruction) -> (r: Option<ComputedEffect>)
        requires
            instruction is NumericalEqual || instruction is Inc || instruction is Dec
                || instruction is Floor || instruction is Ceil || instruction is Negate
                || instruction is Abs || instruction is Add || instruction is Subtract
                || instruction is Multiply,
        ensures
            r is Some <==> self.register_effect(instruction) is Some,
            r matches Some(e) ==> computes(e, self.register_effect(instruction).unwrap()),
    {
        match instruction {
            Instruction::NumericalEqual(t, a, b) => {
                let va = self.read_register(a);
                let vb = self.read_register(b);
                match (va, vb) {
                    (Err(e), _) => Some(ComputedEffect::Fails(e)),
                    (_, Err(e)) => Some(ComputedEffect::Fails(e)),
                    (
                        Ok(GenericValue::Number(Num::Int(x))),
                        Ok(GenericValue::Number(Num::Int(y))),
                    ) => Some(ComputedEffect::Sets(t, GenericValue::Bool(x == y), None)),
                    (
                        Ok(GenericValue::Number(Num::Float(x))),
                        Ok(GenericValue::Number(Num::Float(y))),
                    ) => Some(
                        ComputedEffect::Sets(
                            t,
                            GenericValue::Bool(
                                (is_nan_bits(x) && is_nan_bits(y))
                                    || crate::runtime::data::ieee_equal_bits(x, y),
                            ),
                            None,
                        ),
                    ),
                    (Ok(GenericValue::Number(_)), Ok(GenericValue::Number(_))) => None,
                    _ => Some(ComputedEffect::Fails(RuntimeError::ArgumentNotNum)),
                }
            },
            Instruction::Inc(t, s) | Instruction::Dec(t, s) | Instruction::Floor(t, s)
            | Instruction::Ceil(t, s) | Instruction::Negate(t, s) | Instruction::Abs(t, s) => {
                let v = match self.read_register(s) {
                    Ok(v) => v,
                    Err(e) => {
                        return Some(ComputedEffect::Fails(e));
                    },
                };
                let n = match value_as_num(&v) {
                    Ok(n) => n,
                    Err(e) => {
                        return Some(ComputedEffect::Fails(e));
                    },
                };
                match n {
                    Num::Int(i) => {
                        let result = match instruction {
                            Instruction::Inc(_, _) => i.wrapping_add(1),
                            Instruction::Dec(_, _) => i.wrapping_sub(1),
                            Instruction::Floor(_, _) => i,
                            Instruction::Ceil(_, _) => i,
                            _ => match n.negate() {
                                Num::Int(negated) => match instruction {
                                    Instruction::Negate(_, _) => negated,
                                    _ => match n.abs() {
                                        Num::Int(absolute) => absolute,
                                        Num::Float(_) => i,
                                    },
                                },
                                Num::Float(_) => i,
                            },
                        };
                        Some(
                            ComputedEffect::Sets(t, GenericValue::Number(Num::Int(result)), None),
                        )
                    },
                    Num::Float(x) => match instruction {
                        Instruction::Negate(_, _) => Some(
                            ComputedEffect::Sets(t, GenericValue::Number(n.negate()), None),
                        ),
                        Instruction::Abs(_, _) => Some(
                            ComputedEffect::Sets(t, GenericValue::Number(n.abs()), None),
                        ),
                        _ => None,
                    },
                }
            },
            Instruction::Add(t, a, b) | Instruction::Subtract(t, a, b)
            | Instruction::Multiply(t, a, b) => {
                let va = match self.read_register(a) {
                    Ok(v) => v,
                    Err(e) => {
                        return Some(ComputedEffect::Fails(e));
                    },
                };
                let na = match value_as_num(&va) {
                    Ok(n) => n,
                    Err(e) => {
                        return Some(ComputedEffect::Fails(e));
                    },
                };
                let vb = match self.read_register(b) {
                    Ok(v) => v,
                    Err(e) => {
                        return Some(ComputedEffect::Fails(e));
                    },
                };
                let nb = match value_as_num(&vb) {
                    Ok(n) => n,
                    Err(e) => {
                        return Some(ComputedEffect::Fails(e));
                    },
                };
                match (na, nb) {
                    (Num::Int(x), Num::Int(y)) => {
                        let result = match instruction {
                            Instruction::Add(_, _, _) => x.wrapping_add(y),
                            Instruction::Subtract(_, _, _) => x.wrapping_sub(y),
                            _ => x.wrapping_mul(y),
                        };
                        Some(
                            ComputedEffect::Sets(t, GenericValue::Number(Num::Int(result)), None),
                        )
                    },
                    _ => None,
                }
            },
            _ => None,
        }
    }

    /// What an instruction on a collection computes.
    fn compute_collection_op(&self, instruction: RuntimeInstruction) -> (r: ComputedEffect)
        requires
            instruction is IsEmpty || instruction is First || instruction is Last
                || instruction is Push || instruction is Cons || instruction is Rest
                || instruction is ButLast,
        ensures
            self.register_effect(instruction) is Some,
            computes(r, self.register_effect(instruction).unwrap()),
    {
        match instruction {
            Instruction::IsEmpty(t, s) => match self.read_register(s) {
                Err(e) => ComputedEffect::Fails(e),
                Ok(GenericValue::List(l)) => ComputedEffect::Sets(
                    t,
                    GenericValue::Bool(l.len() == 0),
                    None,
                ),
                Ok(GenericValue::Hashset(l)) => ComputedEffect::Sets(
                    t,
                    GenericValue::Bool(l.len() == 0),
                    None,
                ),
                Ok(GenericValue::Hashmap(m)) => ComputedEffect::Sets(
                    t,
                    GenericValue::Bool(m.len() == 0),
                    None,
                ),
                Ok(GenericValue::Nil) => ComputedEffect::Sets(t, GenericValue::Bool(true), None),
                Ok(_) => ComputedEffect::Fails(RuntimeError::ArgumentNotList),
            },
            Instruction::First(t, s) => match self.read_register(s) {
                Err(e) => ComputedEffect::Fails(e),
                Ok(GenericValue::List(l)) | Ok(GenericValue::Hashset(l)) => if l.len() > 0 {
                    ComputedEffect::Sets(t, l[0].duplicate(), None)
                } else {
                    ComputedEffect::Sets(t, GenericValue::Nil, None)
                },
                Ok(GenericValue::Hashmap(m)) => if m.len() > 0 {
                    let mut pair: Vec<Value> = Vec::new();
                    pair.push(m[0].0.duplicate());
                    pair.push(m[0].1.duplicate());
                    proof {
                        assert(pair@ =~= seq![m@[0].0, m@[0].1]);
                    }
                    ComputedEffect::Sets(t, GenericValue::List(Rc::new(pair)), None)
                } else {
                    ComputedEffect::Sets(t, GenericValue::Nil, None)
                },
                Ok(GenericValue::Nil) => ComputedEffect::Sets(t, GenericValue::Nil, None),
                Ok(_) => ComputedEffect::Fails(RuntimeError::ArgumentNotList),
            },
            Instruction::Last(t, s) => match self.read_register(s) {
                Err(e) => ComputedEffect::Fails(e),
                Ok(GenericValue::List(l)) => if l.len() > 0 {
                    ComputedEffect::Sets(t, l[l.len() - 1].duplicate(), None)
                } else {
                    ComputedEffect::Sets(t, GenericValue::Nil, None)
                },
                Ok(GenericValue::Nil) => ComputedEffect::Sets(t, GenericValue::Nil, None),
                Ok(_) => ComputedEffect::Fails(RuntimeError::ArgumentNotList),
            },
            _ => {
                let (c, added) = match instruction {
                    Instruction::Push(c, s) | Instruction::Cons(c, s) => match self.read_register(
                        s,
                    ) {
                        Ok(v) => (c, Some(v)),
                        Err(e) => {
                            return ComputedEffect::Fails(e);
                        },
                    },
                    Instruction::Rest(c) | Instruction::ButLast(c) => (c, None),
                    _ => (0, None),
                };
                match self.read_register(c) {
                    Err(e) => ComputedEffect::Fails(e),
                    Ok(GenericValue::List(l)) => {
                        let rewritten: Vec<Value> = match instruction {
                            Instruction::Push(_, _) => {
                                let mut copy = duplicate_all(&l);
                                match added {
                                    Some(v) => copy.push(v),
                                    None => {},
                                }
                                copy
                            },
                            Instruction::Cons(_, _) => {
                                let mut copy: Vec<Value> = Vec::new();
                                match added {
                                    Some(v) => copy.push(v),
                                    None => {},
                                }
                                let mut rest = duplicate_all(&l);
                                copy.append(&mut rest);
                                copy
                            },
                            Instruction::Rest(_) => if l.len() > 0 {
                                list_from(&l, 1)
                            } else {
                                Vec::new()
                            },
                            _ => if l.len() > 0 {
                                list_to(&l, l.len() - 1)
                            } else {
                                Vec::new()
                            },
                        };
                        proof {
                            if instruction is Rest && l@.len() > 0 {
                                assert(l@.skip(1) =~= l@.drop_first());
                            }
                            if instruction is Cons {
                                assert(rewritten@ =~= seq![added.unwrap()] + l@);
                            }
                            if instruction is Rest && l@.len() == 0 {
                                assert(rewritten@ =~= l@);
                            }
                            if instruction is ButLast && l@.len() == 0 {
                                assert(rewritten@ =~= l@);
                            }
                        }
                        ComputedEffect::Sets(c, GenericValue::List(Rc::new(rewritten)), None)
                    },
                    Ok(GenericValue::Nil) => ComputedEffect::Sets(c, GenericValue::Nil, None),
                    Ok(v) => {
                        let unimplemented = (matches!(instruction, Instruction::Push(..)) || matches!(
                            instruction,
                            Instruction::Cons(..)
                        )) && (matches!(v, GenericValue::Hashmap(..)) || matches!(
                            v,
                            GenericValue::Hashset(..)
                        ));
                        ComputedEffect::Sets(
                            c,
                            GenericValue::Nil,
                            Some(
                                if unimplemented {
                                    RuntimeError::NotYetImplemented
                                } else {
                                    RuntimeError::ArgumentNotList
                                },
                            ),
                        )
                    },
                }
            },
        }
    }

    /// What `instruction` does, where it only reads and writes registers and needs no
    /// host; none for any other instruction.
    pub fn compute_effect(&self, instruction: RuntimeInstruction) -> (r: Option<ComputedEffect>)
        ensures
            r is Some <==> self.register_effect(instruction) is Some,
            r matches Some(e) ==> computes(e, self.register_effect(instruction).unwrap()),
    {
        if is_unimplemented_instruction(instruction) {
            return Some(ComputedEffect::Fails(RuntimeError::NotYetImplemented));
        }
        match kind_test_operands(instruction) {
            Some((t, s)) => {
                return Some(
                    match self.read_register(s) {
                        Ok(v) => ComputedEffect::Sets(
                            t,
                            GenericValue::Bool(kind_test_result(instruction, &v)),
                            None,
                        ),
                        Err(e) => ComputedEffect::Fails(e),
                    },
                );
            },
            None => {},
        }
        match instruction {
            Instruction::EndIf => Some(ComputedEffect::Nothing),
            Instruction::Clear(t) => Some(ComputedEffect::Sets(t, GenericValue::Nil, None)),
            Instruction::Copy(t, s) => Some(
                match self.read_register(s) {
                    Ok(v) => ComputedEffect::Sets(t, v, None),
                    Err(e) => ComputedEffect::Fails(e),
                },
            ),
            Instruction::Const(t, k) => Some(
                if (k as usize) < self.current_frame.block.constants.len() {
                    ComputedEffect::Sets(
                        t,
                        self.current_frame.block.constants[k as usize].duplicate(),
                        None,
                    )
                } else {
                    ComputedEffect::Fails(RuntimeError::MalformedProgram)
                },
            ),
            Instruction::EmptyList(t) => {
                let empty: Vec<Value> = Vec::new();
                Some(ComputedEffect::Sets(t, GenericValue::List(Rc::new(empty)), None))
            },
            Instruction::CallingFunction(t) => Some(
                match &self.current_frame.calling_function {
                    Some(f) => ComputedEffect::Sets(
                        t,
                        GenericValue::CompositeFn(crate::sharing::rc_clone(f)),
                        None,
                    ),
                    None => ComputedEffect::Fails(RuntimeError::MalformedProgram),
                },
            ),
            Instruction::Lookup(t, symbol) => Some(
                match self.lookup_global(symbol) {
                    Some(v) => ComputedEffect::Sets(t, v, None),
                    None => ComputedEffect::Fails(RuntimeError::MalformedProgram),
                },
            ),
            Instruction::IsCoroutineAlive(t, s) => Some(
                match self.read_register(s) {
                    Ok(GenericValue::Coroutine(c)) => ComputedEffect::Sets(
                        t,
                        GenericValue::Bool(c.is_some()),
                        None,
                    ),
                    Ok(_) => ComputedEffect::Fails(RuntimeError::IsntCoroutine),
                    Err(e) => ComputedEffect::Fails(e),
                },
            ),
            Instruction::IsZero(_, _) | Instruction::IsNan(_, _) | Instruction::IsInf(_, _)
            | Instruction::IsPos(_, _) | Instruction::IsNeg(_, _) | Instruction::IsEven(_, _)
            | Instruction::IsOdd(_, _) => self.compute_number_test(instruction),
            Instruction::NumericalEqual(_, _, _) | Instruction::Inc(_, _) | Instruction::Dec(_, _)
            | Instruction::Floor(_, _) | Instruction::Ceil(_, _) | Instruction::Negate(_, _)
            | Instruction::Abs(_, _) | Instruction::Add(_, _, _) | Instruction::Subtract(_, _, _)
            | Instruction::Multiply(_, _, _) => self.compute_arithmetic(instruction),
            Instruction::IsEmpty(_, _) | Instruction::First(_, _) | Instruction::Last(_, _)
            | Instruction::Push(_, _) | Instruction::Cons(_, _) | Instruction::Rest(_)
            | Instruction::ButLast(_) => Some(self.compute_collection_op(instruction)),
            _ => None,
        }
    }

    /// Runs `instruction` where it only reads and writes registers and needs no host, as
    /// `register_effect` describes; none, changing nothing, for any other instruction.
    pub fn run_register_instruction(&mut self, instruction: RuntimeInstruction) -> (r: Option<
        RuntimeResult<Option<Value>>,
    >)
        ensures
            r is Some <==> old(self).register_effect(instruction) is Some,
            r matches Some(result) ==> old(self).applies(
                old(self).register_effect(instruction).unwrap(),
                *final(self),
                result,
            ),
            r is None ==> *final(self) == *old(self),
    {
        match self.compute_effect(instruction) {
            Some(effect) => Some(self.carry_out(effect, Ghost(self.register_effect(instruction).unwrap()))),
            None => None,
        }
    }
}

} // verus!
