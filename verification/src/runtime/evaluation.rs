use std::rc::Rc;
use vstd::prelude::*;
use crate::compiler::transformations::register_allocation::{Block, Register, RuntimeInstruction};
use crate::instructions::{Instruction, SymbolIndex};
use crate::runtime::control::{
    CompositeFunction, CoroutineState, PausedCoroutine, StackFrame, StackIndex,
};
use crate::runtime::core_functions::CoreFnId;
use crate::runtime::data::{
    duplicate_all, float_is_nan, wrapped_abs, wrapped_negation, AritySpecifier, GenericValue, Num, Value,
    FLOAT_SIGN,
};
use crate::runtime::host::{FloatOp, Host};
use crate::runtime::register_ops::{int_is_even, int_is_odd, num_of};
use crate::runtime::error::{RuntimeError, RuntimeResult};
use crate::sharing::rc_clone;

verus! {

/// A running program: the frame that runs, the coroutine it runs in, the coroutines that
/// wait for it (each with the stack position of the reference to the coroutine they
/// called), the table of coroutines that are not running (a value `Coroutine(Some(i))`
/// refers to entry `i`; the entry is empty while the coroutine runs), and the global
/// bindings of symbols.
#[derive(Debug)]
pub struct EvaluationState {
    pub current_frame: StackFrame,
    pub current_coroutine: CoroutineState,
    pub parent_coroutine_stack: Vec<(StackIndex, PausedCoroutine)>,
    pub coroutines: Vec<Option<PausedCoroutine>>,
    pub global_bindings: Vec<(SymbolIndex, Value)>,
}

/// The value bound to `symbol` in `bindings`: that of its first binding.
pub open spec fn global_binding(bindings: Seq<(SymbolIndex, Value)>, symbol: SymbolIndex) -> Option<
    Value,
>
    decreases bindings.len(),
{
    if bindings.len() == 0 {
        None
    } else if bindings[0].0 == symbol {
        Some(bindings[0].1)
    } else {
        global_binding(bindings.drop_first(), symbol)
    }
}

impl EvaluationState {
    /// The stack position of `register` in the current frame.
    pub open spec fn slot(self, register: Register) -> int {
        self.current_frame.beginning + register
    }

    /// Whether `register` of the current frame lies within the stack.
    pub open spec fn holds_register(self, register: Register) -> bool {
        self.slot(register) < self.current_coroutine.stack@.len()
    }

    /// The value in `register` of the current frame.
    pub open spec fn register(self, register: Register) -> Value {
        self.current_coroutine.stack@[self.slot(register)]
    }

    /// Reading `register`: its value, or `StackOverflow` where it lies past the stack.
    pub open spec fn read(self, register: Register) -> RuntimeResult<Value> {
        if self.holds_register(register) {
            Ok(self.register(register))
        } else {
            Err(RuntimeError::StackOverflow)
        }
    }

    /// Whether `new` is `self` with the stack changed at position `index` alone.
    pub open spec fn changes_stack_at(self, new: Self, index: int) -> bool {
        &&& new.current_frame == self.current_frame
        &&& new.current_coroutine.paused_frames == self.current_coroutine.paused_frames
        &&& new.parent_coroutine_stack == self.parent_coroutine_stack
        &&& new.coroutines == self.coroutines
        &&& new.global_bindings == self.global_bindings
        &&& new.current_coroutine.stack@.len() == self.current_coroutine.stack@.len()
        &&& forall|j: int|
            0 <= j < self.current_coroutine.stack@.len() && j != index
                ==> #[trigger] new.current_coroutine.stack@[j] == self.current_coroutine.stack@[j]
    }

    /// A program about to run `block` from its start, with an empty stack, no
    /// coroutines and no global bindings.
    pub fn new(block: Block) -> (state: Self)
        ensures
            is_initial_state(state, block),
            state.current_frame.beginning == 0,
            state.current_frame.calling_function is None,
            state.current_frame.block == block,
            state.current_frame.instruction_index == 0,
            state.current_coroutine.stack@.len() == crate::runtime::control::STACK_CAPACITY,
            forall|i: int|
                0 <= i < crate::runtime::control::STACK_CAPACITY
                    ==> #[trigger] state.current_coroutine.stack@[i] is Nil,
            state.current_coroutine.paused_frames@.len() == 0,
            state.parent_coroutine_stack@.len() == 0,
            state.coroutines@.len() == 0,
            state.global_bindings@.len() == 0,
    {
        EvaluationState {
            current_frame: StackFrame::root(block),
            current_coroutine: CoroutineState::new(),
            parent_coroutine_stack: Vec::new(),
            coroutines: Vec::new(),
            global_bindings: Vec::new(),
        }
    }

    /// Binds `symbol` to `value`, in place of any value it had.
    pub fn bind_symbol(&mut self, symbol: SymbolIndex, value: Value)
        ensures
            global_binding(final(self).global_bindings@, symbol) == Some(value),
            forall|other: SymbolIndex|
                other != symbol ==> #[trigger] global_binding(final(self).global_bindings@, other)
                    == global_binding(old(self).global_bindings@, other),
            final(self).current_frame == old(self).current_frame,
            final(self).current_coroutine == old(self).current_coroutine,
            final(self).parent_coroutine_stack == old(self).parent_coroutine_stack,
            final(self).coroutines == old(self).coroutines,
    {
        let mut i: usize = 0;
        while i < self.global_bindings.len()
            invariant
                0 <= i <= self.global_bindings@.len(),
                self.global_bindings == old(self).global_bindings,
                self.current_frame == old(self).current_frame,
                self.current_coroutine == old(self).current_coroutine,
                self.parent_coroutine_stack == old(self).parent_coroutine_stack,
                self.coroutines == old(self).coroutines,
                forall|j: int| 0 <= j < i ==> self.global_bindings@[j].0 != symbol,
            decreases self.global_bindings@.len() - i,
        {
            if self.global_bindings[i].0 == symbol {
                let ghost before = self.global_bindings@;
                self.global_bindings.set(i, (symbol, value));
                proof {
                    lemma_binding_update(before, i as int, symbol, value);
                }
                return;
            }
            i = i + 1;
        }
        let ghost before = self.global_bindings@;
        self.global_bindings.push((symbol, value));
        proof {
            lemma_binding_append(before, symbol, value);
        }
    }
}

/// Replacing the binding at `i`, the first of `symbol`, binds `symbol` to `value` and
/// leaves every other symbol as it was.
proof fn lemma_binding_update(
    bindings: Seq<(SymbolIndex, Value)>,
    i: int,
    symbol: SymbolIndex,
    value: Value,
)
    requires
        0 <= i < bindings.len(),
        bindings[i].0 == symbol,
        forall|j: int| 0 <= j < i ==> bindings[j].0 != symbol,
    ensures
        global_binding(bindings.update(i, (symbol, value)), symbol) == Some(value),
        forall|other: SymbolIndex|
            other != symbol ==> #[trigger] global_binding(bindings.update(i, (symbol, value)), other)
                == global_binding(bindings, other),
    decreases bindings.len(),
{
    let updated = bindings.update(i, (symbol, value));
    if i > 0 {
        assert(updated.drop_first() =~= bindings.drop_first().update(i - 1, (symbol, value)));
        lemma_binding_update(bindings.drop_first(), i - 1, symbol, value);
        assert forall|other: SymbolIndex| other != symbol implies #[trigger] global_binding(
            updated,
            other,
        ) == global_binding(bindings, other) by {
            assert(global_binding(updated.drop_first(), other) == global_binding(
                bindings.drop_first(),
                other,
            ));
        }
    } else {
        assert forall|other: SymbolIndex| other != symbol implies #[trigger] global_binding(
            updated,
            other,
        ) == global_binding(bindings, other) by {
            assert(updated.drop_first() =~= bindings.drop_first());
        }
    }
}

/// Appending a binding of `symbol`, which has none, binds it to `value` and leaves every
/// other symbol as it was.
proof fn lemma_binding_append(bindings: Seq<(SymbolIndex, Value)>, symbol: SymbolIndex, value: Value)
    requires
        forall|j: int| 0 <= j < bindings.len() ==> bindings[j].0 != symbol,
    ensures
        global_binding(bindings.push((symbol, value)), symbol) == Some(value),
        forall|other: SymbolIndex|
            other != symbol ==> #[trigger] global_binding(bindings.push((symbol, value)), other)
                == global_binding(bindings, other),
    decreases bindings.len(),
{
    let pushed = bindings.push((symbol, value));
    if bindings.len() > 0 {
        assert(pushed.drop_first() =~= bindings.drop_first().push((symbol, value)));
        assert(pushed[0] == bindings[0]);
        assert(bindings[0].0 != symbol);
        lemma_binding_append(bindings.drop_first(), symbol, value);
        assert forall|other: SymbolIndex| other != symbol implies #[trigger] global_binding(
            pushed,
            other,
        ) == global_binding(bindings, other) by {
            assert(global_binding(pushed.drop_first(), other) == global_binding(
                bindings.drop_first(),
                other,
            ));
        }
    } else {
        assert(pushed.drop_first() =~= Seq::<(SymbolIndex, Value)>::empty());
        assert forall|other: SymbolIndex| other != symbol implies #[trigger] global_binding(
            pushed,
            other,
        ) == global_binding(bindings, other) by {
            assert(global_binding(pushed.drop_first(), other) is None);
        }
    }
}


impl EvaluationState {
    /// The value at stack position `index`.
    pub fn read_stack(&self, index: StackIndex) -> (r: RuntimeResult<Value>)
        ensures
            index < self.current_coroutine.stack@.len() ==> r == Ok::<Value, RuntimeError>(
                self.current_coroutine.stack@[index as int],
            ),
            index >= self.current_coroutine.stack@.len() ==> r == Err::<Value, RuntimeError>(
                RuntimeError::StackOverflow,
            ),
    {
        if index < self.current_coroutine.stack.len() {
            Ok(self.current_coroutine.stack[index].duplicate())
        } else {
            Err(RuntimeError::StackOverflow)
        }
    }

    /// Puts `value` at stack position `index`.
    pub fn write_stack(&mut self, index: StackIndex, value: Value) -> (r: RuntimeResult<()>)
        ensures
            index < old(self).current_coroutine.stack@.len() ==> {
                &&& r is Ok
                &&& old(self).changes_stack_at(*final(self), index as int)
                &&& final(self).current_coroutine.stack@[index as int] == value
            },
            index >= old(self).current_coroutine.stack@.len() ==> r == Err::<(), RuntimeError>(
                RuntimeError::StackOverflow,
            ) && *final(self) == *old(self),
    {
        if index < self.current_coroutine.stack.len() {
            self.current_coroutine.stack.set(index, value);
            Ok(())
        } else {
            Err(RuntimeError::StackOverflow)
        }
    }

    /// Takes the value out of stack position `index`, leaving `nil` there.
    pub fn take_stack(&mut self, index: StackIndex) -> (r: RuntimeResult<Value>)
        ensures
            index < old(self).current_coroutine.stack@.len() ==> {
                &&& r == Ok::<Value, RuntimeError>(old(self).current_coroutine.stack@[index as int])
                &&& old(self).changes_stack_at(*final(self), index as int)
                &&& final(self).current_coroutine.stack@[index as int] is Nil
            },
            index >= old(self).current_coroutine.stack@.len() ==> r == Err::<Value, RuntimeError>(
                RuntimeError::StackOverflow,
            ) && *final(self) == *old(self),
    {
        let value = self.read_stack(index)?;
        self.write_stack(index, GenericValue::Nil)?;
        Ok(value)
    }

    /// The stack position of `register`, or `StackOverflow` where it lies past the stack.
    pub fn register_index(&self, register: Register) -> (r: RuntimeResult<StackIndex>)
        ensures
            r is Ok <==> self.holds_register(register),
            r matches Ok(i) ==> i == self.slot(register),
            !self.holds_register(register) ==> r == Err::<StackIndex, RuntimeError>(
                RuntimeError::StackOverflow,
            ),
    {
        match self.slot_of(register) {
            Some(i) => Ok(i),
            None => Err(RuntimeError::StackOverflow),
        }
    }

    /// Takes the value out of `register`, leaving `nil` there.
    pub fn take_register(&mut self, register: Register) -> (r: RuntimeResult<Value>)
        ensures
            old(self).holds_register(register) ==> {
                &&& r == Ok::<Value, RuntimeError>(old(self).register(register))
                &&& old(self).changes_stack_at(*final(self), old(self).slot(register))
                &&& final(self).register(register) is Nil
            },
            !old(self).holds_register(register) ==> r == Err::<Value, RuntimeError>(
                RuntimeError::StackOverflow,
            ) && *final(self) == *old(self),
    {
        let index = self.register_index(register)?;
        self.take_stack(index)
    }

    /// The value at `register`, as one of the registers of this frame.
    pub fn get_register(&self, register: Register) -> (v: &Value)
        requires
            self.holds_register(register),
        ensures
            *v == self.register(register),
    {
        let length = self.current_coroutine.stack.len();
        let index = self.current_frame.beginning + register as usize;
        &self.current_coroutine.stack[index]
    }

    /// Makes `frame` the running frame; the frame that ran waits under it.
    pub fn push_frame(&mut self, frame: StackFrame)
        ensures
            final(self).current_frame == frame,
            final(self).current_coroutine.paused_frames@ == old(
                self,
            ).current_coroutine.paused_frames@.push(old(self).current_frame),
            final(self).current_coroutine.stack == old(self).current_coroutine.stack,
            final(self).parent_coroutine_stack == old(self).parent_coroutine_stack,
            final(self).coroutines == old(self).coroutines,
            final(self).global_bindings == old(self).global_bindings,
    {
        let mut frame = frame;
        std::mem::swap(&mut self.current_frame, &mut frame);
        self.current_coroutine.paused_frames.push(frame);
    }

    /// Ends the running coroutine, which has run out of frames: its parent resumes, and
    /// the parent's reference to it now refers to a finished coroutine. Gives the frame
    /// of the parent that resumes; none where no coroutine waits.
    fn complete_child_coroutine(&mut self) -> (r: RuntimeResult<Option<StackFrame>>)
        ensures
            old(self).parent_coroutine_stack@.len() == 0 ==> r == Ok::<
                Option<StackFrame>,
                RuntimeError,
            >(None) && *final(self) == *old(self),
            old(self).can_finish() ==> {
                let (reference, parent) = old(self).parent_coroutine_stack@.last();
                &&& r == Ok::<Option<StackFrame>, RuntimeError>(Some(parent.state.paused_frames@.last()))
                &&& final(self).current_frame == old(self).current_frame
                &&& final(self).current_coroutine.paused_frames@ == parent.state.paused_frames@.drop_last()
                &&& final(self).current_coroutine.stack@ == parent.state.stack@.update(
                    reference as int,
                    GenericValue::Coroutine(None),
                )
                &&& final(self).parent_coroutine_stack@ == old(self).parent_coroutine_stack@.drop_last()
                &&& final(self).coroutines == old(self).coroutines
                &&& final(self).global_bindings == old(self).global_bindings
            },
    {
        if self.parent_coroutine_stack.len() == 0 {
            return Ok(None);
        }
        match self.parent_coroutine_stack.pop() {
            Some((child_index, parent)) => match parent.resume_from_child() {
                Some((frame, state)) => {
                    self.current_coroutine = state;
                    let ghost resumed = self.current_coroutine.stack@;
                    self.write_stack(child_index, GenericValue::Coroutine(None))?;
                    proof {
                        if child_index < resumed.len() {
                            assert(self.current_coroutine.stack@ =~= resumed.update(
                                child_index as int,
                                GenericValue::Coroutine(None),
                            ));
                        }
                    }
                    Ok(Some(frame))
                },
                None => Err(RuntimeError::MalformedProgram),
            },
            None => Ok(None),
        }
    }

    /// Ends the running frame: the frame under it, or else the parent coroutine's, runs
    /// on. Gives the ended frame; none where nothing waits.
    fn complete_frame(&mut self) -> (r: RuntimeResult<Option<StackFrame>>)
        ensures
            old(self).current_coroutine.paused_frames@.len() > 0 ==> {
                &&& r == Ok::<Option<StackFrame>, RuntimeError>(Some(old(self).current_frame))
                &&& final(self).current_frame == old(self).current_coroutine.paused_frames@.last()
                &&& final(self).current_coroutine.paused_frames@ == old(
                    self,
                ).current_coroutine.paused_frames@.drop_last()
                &&& final(self).current_coroutine.stack == old(self).current_coroutine.stack
                &&& final(self).parent_coroutine_stack == old(self).parent_coroutine_stack
                &&& final(self).coroutines == old(self).coroutines
                &&& final(self).global_bindings == old(self).global_bindings
            },
            old(self).current_coroutine.paused_frames@.len() == 0
                && old(self).parent_coroutine_stack@.len() == 0 ==> r == Ok::<
                Option<StackFrame>,
                RuntimeError,
            >(None) && *final(self) == *old(self),
            old(self).current_coroutine.paused_frames@.len() == 0 && old(self).can_finish() ==> {
                let (reference, parent) = old(self).parent_coroutine_stack@.last();
                &&& r == Ok::<Option<StackFrame>, RuntimeError>(Some(old(self).current_frame))
                &&& final(self).current_frame == parent.state.paused_frames@.last()
                &&& final(self).current_coroutine.paused_frames@ == parent.state.paused_frames@.drop_last()
                &&& final(self).current_coroutine.stack@ == parent.state.stack@.update(
                    reference as int,
                    GenericValue::Coroutine(None),
                )
                &&& final(self).parent_coroutine_stack@ == old(self).parent_coroutine_stack@.drop_last()
                &&& final(self).coroutines == old(self).coroutines
                &&& final(self).global_bindings == old(self).global_bindings
            },
    {
        let next = if self.current_coroutine.paused_frames.len() > 0 {
            self.current_coroutine.paused_frames.pop()
        } else {
            self.complete_child_coroutine()?
        };
        match next {
            Some(next_frame) => {
                let mut next_frame = next_frame;
                std::mem::swap(&mut self.current_frame, &mut next_frame);
                Ok(Some(next_frame))
            },
            None => Ok(None),
        }
    }

    /// Returns `value` from the running frame: it goes to the register that the frame's
    /// caller named, and the caller runs on. Where nothing waits, the program ends with
    /// `value`.
    fn return_value(&mut self, value: Value) -> (r: RuntimeResult<Option<Value>>)
        ensures
            old(self).current_coroutine.paused_frames@.len() == 0
                && old(self).parent_coroutine_stack@.len() == 0 ==> r == Ok::<
                Option<Value>,
                RuntimeError,
            >(Some(value)) && *final(self) == *old(self),
            old(self).current_coroutine.paused_frames@.len() > 0 ==> {
                &&& final(self).current_frame == old(self).current_coroutine.paused_frames@.last()
                &&& final(self).current_coroutine.paused_frames@ == old(
                    self,
                ).current_coroutine.paused_frames@.drop_last()
                &&& final(self).parent_coroutine_stack == old(self).parent_coroutine_stack
                &&& final(self).coroutines == old(self).coroutines
                &&& final(self).global_bindings == old(self).global_bindings
                &&& old(self).current_frame.return_stack_index
                    < old(self).current_coroutine.stack@.len() ==> {
                    &&& r == Ok::<Option<Value>, RuntimeError>(None)
                    &&& final(self).current_coroutine.stack@ == old(
                        self,
                    ).current_coroutine.stack@.update(
                        old(self).current_frame.return_stack_index as int,
                        value,
                    )
                }
            },
            old(self).current_coroutine.paused_frames@.len() == 0 && old(self).can_finish() ==> r
                == Ok::<Option<Value>, RuntimeError>(None) && old(self).finishes_coroutine(
                *final(self),
                value,
            ),
    {
        match self.complete_frame()? {
            Some(completed) => {
                let ghost before = self.current_coroutine.stack@;
                self.write_stack(completed.return_stack_index, value)?;
                proof {
                    assert(self.current_coroutine.stack@ =~= before.update(
                        completed.return_stack_index as int,
                        value,
                    ));
                }
                Ok(None)
            },
            None => Ok(Some(value)),
        }
    }

    /// Pauses the running coroutine, which gives `yielded` to its parent: the parent
    /// resumes, with `yielded` in the register that its call named, and the coroutine
    /// goes back to its table entry, to accept the given arguments when called again.
    /// Where `kill` holds, the parent's reference to it then refers to a finished
    /// coroutine.
    fn yield_value(
        &mut self,
        yielded: Value,
        new_args: Option<(AritySpecifier, u8)>,
        kill: bool,
    ) -> (r: RuntimeResult<()>)
        ensures
            old(self).parent_coroutine_stack@.len() == 0 ==> r == Err::<(), RuntimeError>(
                RuntimeError::MalformedProgram,
            ),
            r is Ok ==> final(self).parent_coroutine_stack@ == old(
                self,
            ).parent_coroutine_stack@.drop_last(),
            r is Ok ==> final(self).coroutines@.len() == old(self).coroutines@.len(),
            old(self).can_yield() && kill && new_args is None ==> r is Ok && old(self).dies_yielding(
                *final(self),
                yielded,
            ),
            old(self).can_yield() && !kill ==> r is Ok && old(self).yields_to_parent(
                *final(self),
                yielded,
                new_args,
            ),
    {
        let ghost before = *self;
        let return_index = self.current_frame.return_stack_index;
        let (child_index, parent) = match self.parent_coroutine_stack.pop() {
            Some(p) => p,
            None => {
                return Err(RuntimeError::MalformedProgram);
            },
        };
        let (resumed_frame, state) = match parent.resume_from_child() {
            Some(p) => p,
            None => {
                return Err(RuntimeError::MalformedProgram);
            },
        };
        let mut resumed_frame = resumed_frame;
        let mut state = state;
        std::mem::swap(&mut state, &mut self.current_coroutine);
        match self.read_stack(child_index)? {
            GenericValue::Coroutine(Some(id)) => {
                if id >= self.coroutines.len() {
                    return Err(RuntimeError::MalformedProgram);
                }
                std::mem::swap(&mut resumed_frame, &mut self.current_frame);
                self.coroutines.set(id, Some(state.pause(resumed_frame, new_args)));
                let ghost paused_stack = self.current_coroutine.stack@;
                self.write_stack(return_index, yielded)?;
                proof {
                    if return_index < paused_stack.len() {
                        assert(self.current_coroutine.stack@ =~= paused_stack.update(
                            return_index as int,
                            yielded,
                        ));
                    }
                }
            },
            _ => {
                return Err(RuntimeError::MalformedProgram);
            },
        }
        if kill {
            let ghost yielded_stack = self.current_coroutine.stack@;
            proof {
                if before.can_yield() {
                    assert(before.yields_to_parent(*self, yielded, new_args));
                }
            }
            self.write_stack(child_index, GenericValue::Coroutine(None))?;
            proof {
                if child_index < yielded_stack.len() {
                    assert(self.current_coroutine.stack@ =~= yielded_stack.update(
                        child_index as int,
                        GenericValue::Coroutine(None),
                    ));
                }
            }
        }
        Ok(())
    }

    /// Starts or resumes `coroutine` as a child of the running one: the running
    /// coroutine waits, with `reference_index` the stack position of its reference to the
    /// child, and the child's result will go to `return_index`.
    fn push_child_coroutine(
        &mut self,
        coroutine: PausedCoroutine,
        reference_index: StackIndex,
        return_index: StackIndex,
    ) -> (r: RuntimeResult<()>)
        ensures
            coroutine.state.paused_frames@.len() > 0 <==> r is Ok,
            r is Ok ==> final(self).parent_coroutine_stack@.len() == old(
                self,
            ).parent_coroutine_stack@.len() + 1,
            r is Ok ==> final(self).parent_coroutine_stack@.drop_last() == old(
                self,
            ).parent_coroutine_stack@,
            r is Ok ==> final(self).parent_coroutine_stack@.last().0 == reference_index,
            r is Ok ==> final(self).parent_coroutine_stack@.last().1.state.stack == old(
                self,
            ).current_coroutine.stack,
            r is Ok ==> final(self).parent_coroutine_stack@.last().1.state.paused_frames@ == old(
                self,
            ).current_coroutine.paused_frames@.push(old(self).current_frame),
            r is Ok ==> final(self).current_frame == (StackFrame {
                return_stack_index: return_index,
                ..coroutine.state.paused_frames@.last()
            }),
            r is Ok ==> final(self).current_coroutine.paused_frames@
                == coroutine.state.paused_frames@.drop_last(),
            r is Ok ==> final(self).current_coroutine.stack == coroutine.state.stack,
            final(self).coroutines == old(self).coroutines,
            final(self).global_bindings == old(self).global_bindings,
    {
        let (active, state) = match coroutine.begin_as_child(return_index) {
            Some(p) => p,
            None => {
                return Err(RuntimeError::MalformedProgram);
            },
        };
        let mut active = active;
        let mut parent_state = state;
        std::mem::swap(&mut self.current_frame, &mut active);
        std::mem::swap(&mut self.current_coroutine, &mut parent_state);
        let paused_parent = parent_state.pause(active, None);
        self.parent_coroutine_stack.push((reference_index, paused_parent));
        Ok(())
    }

    /// The next instruction of the running frame, which must pass an argument: the
    /// register it names, and whether it takes the value out.
    fn next_argument(&mut self) -> (r: RuntimeResult<(Register, bool)>)
        ensures
            final(self).current_coroutine == old(self).current_coroutine,
            final(self).parent_coroutine_stack == old(self).parent_coroutine_stack,
            final(self).coroutines == old(self).coroutines,
            final(self).global_bindings == old(self).global_bindings,
            final(self).current_frame.beginning == old(self).current_frame.beginning,
            final(self).current_frame.block == old(self).current_frame.block,
            final(self).current_frame.calling_function == old(self).current_frame.calling_function,
            final(self).current_frame.return_stack_index == old(
                self,
            ).current_frame.return_stack_index,
            r is Ok ==> final(self).current_frame.instruction_index == old(
                self,
            ).current_frame.instruction_index + 1,
            final(self).current_frame.instruction_index == index_after(
                old(self).current_frame.block.instructions@,
                old(self).current_frame.instruction_index as int,
            ),
            match argument_at(
                old(self).current_frame.block.instructions@,
                old(self).current_frame.instruction_index as int,
            ) {
                Some(argument) => r == Ok::<(Register, bool), RuntimeError>(argument),
                None => r == Err::<(Register, bool), RuntimeError>(RuntimeError::MalformedProgram),
            },
    {
        match self.current_frame.next_instruction() {
            Some(Instruction::CopyArgument(register)) => Ok((register, false)),
            Some(Instruction::StealArgument(register)) => Ok((register, true)),
            _ => Err(RuntimeError::MalformedProgram),
        }
    }

    /// The value of an argument: copied from `register`, or taken out of it.
    fn argument_value(&mut self, register: Register, steal: bool) -> (r: RuntimeResult<Value>)
        ensures
            final(self).current_frame == old(self).current_frame,
            final(self).current_coroutine.paused_frames == old(self).current_coroutine.paused_frames,
            final(self).current_coroutine.stack@.len() == old(self).current_coroutine.stack@.len(),
            final(self).parent_coroutine_stack == old(self).parent_coroutine_stack,
            final(self).coroutines == old(self).coroutines,
            final(self).global_bindings == old(self).global_bindings,
            r == read_argument(old(self).current_coroutine.stack@, old(self).slot(register), steal).0,
            final(self).current_coroutine.stack@ == read_argument(
                old(self).current_coroutine.stack@,
                old(self).slot(register),
                steal,
            ).1,
            r is Err || !steal ==> *final(self) == *old(self),
    {
        if steal {
            let r = self.take_register(register);
            proof {
                if old(self).holds_register(register) {
                    lemma_changed_at(*old(self), *self, old(self).slot(register), GenericValue::Nil);
                }
            }
            r
        } else {
            self.read_register(register)
        }
    }

    /// The values of the `count` arguments that the next instructions pass.
    fn take_args(&mut self, count: u8) -> (r: RuntimeResult<Vec<Value>>)
        ensures
            final(self).current_frame.beginning == old(self).current_frame.beginning,
            final(self).current_frame.block == old(self).current_frame.block,
            final(self).current_frame.calling_function == old(self).current_frame.calling_function,
            final(self).current_frame.return_stack_index == old(
                self,
            ).current_frame.return_stack_index,
            final(self).current_coroutine.paused_frames == old(self).current_coroutine.paused_frames,
            final(self).current_coroutine.stack@.len() == old(self).current_coroutine.stack@.len(),
            final(self).parent_coroutine_stack == old(self).parent_coroutine_stack,
            final(self).coroutines == old(self).coroutines,
            final(self).global_bindings == old(self).global_bindings,
            r matches Ok(args) ==> args@.len() == count,
            r is Ok ==> final(self).current_frame.instruction_index == old(
                self,
            ).current_frame.instruction_index + count,
            same_outcome(
                r,
                taken_args(
                    old(self).current_frame.block.instructions@,
                    old(self).current_frame.instruction_index as int,
                    old(self).current_frame.beginning as int,
                    old(self).current_coroutine.stack@,
                    count as nat,
                ).0,
            ),
            final(self).current_coroutine.stack@ == taken_args(
                old(self).current_frame.block.instructions@,
                old(self).current_frame.instruction_index as int,
                old(self).current_frame.beginning as int,
                old(self).current_coroutine.stack@,
                count as nat,
            ).1,
            final(self).current_frame.instruction_index == taken_args(
                old(self).current_frame.block.instructions@,
                old(self).current_frame.instruction_index as int,
                old(self).current_frame.beginning as int,
                old(self).current_coroutine.stack@,
                count as nat,
            ).2,
    {
        let ghost instructions = old(self).current_frame.block.instructions@;
        let ghost start = old(self).current_frame.instruction_index as int;
        let ghost beginning = old(self).current_frame.beginning as int;
        let ghost stack = old(self).current_coroutine.stack@;
        let mut args: Vec<Value> = Vec::new();
        let mut i: u8 = 0;
        while i < count
            invariant
                i <= count,
                args@.len() == i,
                instructions == old(self).current_frame.block.instructions@,
                start == old(self).current_frame.instruction_index,
                beginning == old(self).current_frame.beginning,
                stack == old(self).current_coroutine.stack@,
                taken_args(instructions, start, beginning, stack, i as nat) == (
                    Ok::<Seq<Value>, RuntimeError>(args@),
                    self.current_coroutine.stack@,
                    self.current_frame.instruction_index as int,
                ),
                self.current_frame.instruction_index == old(self).current_frame.instruction_index
                    + i,
                self.current_frame.beginning == old(self).current_frame.beginning,
                self.current_frame.block == old(self).current_frame.block,
                self.current_frame.calling_function == old(self).current_frame.calling_function,
                self.current_frame.return_stack_index == old(self).current_frame.return_stack_index,
                self.current_coroutine.paused_frames == old(self).current_coroutine.paused_frames,
                self.current_coroutine.stack@.len() == old(self).current_coroutine.stack@.len(),
                self.parent_coroutine_stack == old(self).parent_coroutine_stack,
                self.coroutines == old(self).coroutines,
                self.global_bindings == old(self).global_bindings,
            decreases count - i,
        {
            let (register, steal) = match self.next_argument() {
                Ok(argument) => argument,
                Err(e) => {
                    proof {
                        lemma_taken_args_error(instructions, start, beginning, stack, (i + 1) as nat, count as nat);
                    }
                    return Err(e);
                },
            };
            let value = match self.argument_value(register, steal) {
                Ok(value) => value,
                Err(e) => {
                    proof {
                        lemma_taken_args_error(instructions, start, beginning, stack, (i + 1) as nat, count as nat);
                    }
                    return Err(e);
                },
            };
            args.push(value);
            i = i + 1;
        }
        Ok(args)
    }

    /// Moves the `count` arguments that the next instructions of `frame` pass, from the
    /// registers of `frame`, to the stack from position `beginning` on.
    fn move_args_from(&mut self, count: u8, beginning: StackIndex, frame: &mut StackFrame) -> (r:
        RuntimeResult<()>)
        ensures
            final(self).current_frame == old(self).current_frame,
            final(self).current_coroutine.paused_frames == old(self).current_coroutine.paused_frames,
            final(self).current_coroutine.stack@.len() == old(self).current_coroutine.stack@.len(),
            final(self).parent_coroutine_stack == old(self).parent_coroutine_stack,
            final(self).coroutines == old(self).coroutines,
            final(self).global_bindings == old(self).global_bindings,
            r == moved_args(
                old(frame).block.instructions@,
                old(frame).instruction_index as int,
                old(frame).beginning as int,
                beginning as int,
                old(self).current_coroutine.stack@,
                count as nat,
            ).0,
            final(self).current_coroutine.stack@ == moved_args(
                old(frame).block.instructions@,
                old(frame).instruction_index as int,
                old(frame).beginning as int,
                beginning as int,
                old(self).current_coroutine.stack@,
                count as nat,
            ).1,
            final(frame).instruction_index == moved_args(
                old(frame).block.instructions@,
                old(frame).instruction_index as int,
                old(frame).beginning as int,
                beginning as int,
                old(self).current_coroutine.stack@,
                count as nat,
            ).2,
            final(frame).beginning == old(frame).beginning,
            final(frame).block == old(frame).block,
            final(frame).calling_function == old(frame).calling_function,
            final(frame).return_stack_index == old(frame).return_stack_index,
    {
        let ghost instructions = old(frame).block.instructions@;
        let ghost start = old(frame).instruction_index as int;
        let ghost source_beginning = old(frame).beginning as int;
        let ghost stack = old(self).current_coroutine.stack@;
        let mut i: u8 = 0;
        while i < count
            invariant
                i <= count,
                self.current_frame == old(self).current_frame,
                self.current_coroutine.paused_frames == old(self).current_coroutine.paused_frames,
                self.current_coroutine.stack@.len() == old(self).current_coroutine.stack@.len(),
                self.parent_coroutine_stack == old(self).parent_coroutine_stack,
                self.coroutines == old(self).coroutines,
                self.global_bindings == old(self).global_bindings,
                instructions == old(frame).block.instructions@,
                start == old(frame).instruction_index,
                source_beginning == old(frame).beginning,
                stack == old(self).current_coroutine.stack@,
                frame.beginning == old(frame).beginning,
                frame.block == old(frame).block,
                frame.calling_function == old(frame).calling_function,
                frame.return_stack_index == old(frame).return_stack_index,
                moved_args(instructions, start, source_beginning, beginning as int, stack, i as nat) == (
                    Ok::<(), RuntimeError>(()),
                    self.current_coroutine.stack@,
                    frame.instruction_index as int,
                ),
            decreases count - i,
        {
            let ghost before = *self;
            let ghost index = frame.instruction_index as int;
            let (register, steal) = match frame.next_instruction() {
                Some(Instruction::CopyArgument(register)) => (register, false),
                Some(Instruction::StealArgument(register)) => (register, true),
                _ => {
                    proof {
                        lemma_moved_args_error(instructions, start, source_beginning, beginning as int, stack, (i + 1) as nat, count as nat);
                    }
                    return Err(RuntimeError::MalformedProgram);
                },
            };
            let source = match frame.beginning.checked_add(register as usize) {
                Some(index) => index,
                None => {
                    proof {
                        assert(self.current_coroutine.stack.len() == self.current_coroutine.stack@.len());
                        lemma_moved_args_error(instructions, start, source_beginning, beginning as int, stack, (i + 1) as nat, count as nat);
                    }
                    return Err(RuntimeError::StackOverflow);
                },
            };
            let read = if steal {
                self.take_stack(source)
            } else {
                self.read_stack(source)
            };
            proof {
                if steal && source < before.current_coroutine.stack@.len() {
                    lemma_changed_at(before, *self, source as int, GenericValue::Nil);
                }
            }
            let value = match read {
                Ok(value) => value,
                Err(e) => {
                    proof {
                        lemma_moved_args_error(instructions, start, source_beginning, beginning as int, stack, (i + 1) as nat, count as nat);
                    }
                    return Err(e);
                },
            };
            let target = match beginning.checked_add(i as usize) {
                Some(index) => index,
                None => {
                    proof {
                        assert(self.current_coroutine.stack.len() == self.current_coroutine.stack@.len());
                        lemma_moved_args_error(instructions, start, source_beginning, beginning as int, stack, (i + 1) as nat, count as nat);
                    }
                    return Err(RuntimeError::StackOverflow);
                },
            };
            let ghost middle = *self;
            let written = self.write_stack(target, value);
            proof {
                if target < middle.current_coroutine.stack@.len() {
                    lemma_changed_at(middle, *self, target as int, value);
                }
            }
            match written {
                Ok(()) => {},
                Err(e) => {
                    proof {
                        lemma_moved_args_error(instructions, start, source_beginning, beginning as int, stack, (i + 1) as nat, count as nat);
                    }
                    return Err(e);
                },
            }
            i = i + 1;
        }
        Ok(())
    }

    /// Moves the `count` arguments that the next instructions of the running frame pass
    /// to the stack from position `beginning` on.
    fn move_args(&mut self, count: u8, beginning: StackIndex) -> (r: RuntimeResult<()>)
        ensures
            final(self).current_frame.beginning == old(self).current_frame.beginning,
            final(self).current_frame.block == old(self).current_frame.block,
            final(self).current_frame.calling_function == old(self).current_frame.calling_function,
            final(self).current_frame.return_stack_index == old(
                self,
            ).current_frame.return_stack_index,
            final(self).current_coroutine.paused_frames == old(self).current_coroutine.paused_frames,
            final(self).current_coroutine.stack@.len() == old(self).current_coroutine.stack@.len(),
            final(self).parent_coroutine_stack == old(self).parent_coroutine_stack,
            final(self).coroutines == old(self).coroutines,
            final(self).global_bindings == old(self).global_bindings,
            r is Ok ==> final(self).current_frame.instruction_index == old(
                self,
            ).current_frame.instruction_index + count,
            r == moved_args(
                old(self).current_frame.block.instructions@,
                old(self).current_frame.instruction_index as int,
                old(self).current_frame.beginning as int,
                beginning as int,
                old(self).current_coroutine.stack@,
                count as nat,
            ).0,
            final(self).current_coroutine.stack@ == moved_args(
                old(self).current_frame.block.instructions@,
                old(self).current_frame.instruction_index as int,
                old(self).current_frame.beginning as int,
                beginning as int,
                old(self).current_coroutine.stack@,
                count as nat,
            ).1,
            final(self).current_frame.instruction_index == moved_args(
                old(self).current_frame.block.instructions@,
                old(self).current_frame.instruction_index as int,
                old(self).current_frame.beginning as int,
                beginning as int,
                old(self).current_coroutine.stack@,
                count as nat,
            ).2,
    {
        let ghost instructions = old(self).current_frame.block.instructions@;
        let ghost start = old(self).current_frame.instruction_index as int;
        let ghost source_beginning = old(self).current_frame.beginning as int;
        let ghost stack = old(self).current_coroutine.stack@;
        let mut i: u8 = 0;
        while i < count
            invariant
                i <= count,
                instructions == old(self).current_frame.block.instructions@,
                start == old(self).current_frame.instruction_index,
                source_beginning == old(self).current_frame.beginning,
                stack == old(self).current_coroutine.stack@,
                moved_args(instructions, start, source_beginning, beginning as int, stack, i as nat) == (
                    Ok::<(), RuntimeError>(()),
                    self.current_coroutine.stack@,
                    self.current_frame.instruction_index as int,
                ),
                self.current_frame.beginning == old(self).current_frame.beginning,
                self.current_frame.block == old(self).current_frame.block,
                self.current_frame.calling_function == old(self).current_frame.calling_function,
                self.current_frame.return_stack_index == old(self).current_frame.return_stack_index,
                self.current_frame.instruction_index == old(self).current_frame.instruction_index
                    + i,
                self.current_coroutine.paused_frames == old(self).current_coroutine.paused_frames,
                self.current_coroutine.stack@.len() == old(self).current_coroutine.stack@.len(),
                self.parent_coroutine_stack == old(self).parent_coroutine_stack,
                self.coroutines == old(self).coroutines,
                self.global_bindings == old(self).global_bindings,
            decreases count - i,
        {
            let (register, steal) = match self.next_argument() {
                Ok(argument) => argument,
                Err(e) => {
                    proof {
                        lemma_moved_args_error(instructions, start, source_beginning, beginning as int, stack, (i + 1) as nat, count as nat);
                    }
                    return Err(e);
                },
            };
            let value = match self.argument_value(register, steal) {
                Ok(value) => value,
                Err(e) => {
                    proof {
                        lemma_moved_args_error(instructions, start, source_beginning, beginning as int, stack, (i + 1) as nat, count as nat);
                    }
                    return Err(e);
                },
            };
            let target = match beginning.checked_add(i as usize) {
                Some(index) => index,
                None => {
                    proof {
                        assert(self.current_coroutine.stack.len() == self.current_coroutine.stack@.len());
                        lemma_moved_args_error(instructions, start, source_beginning, beginning as int, stack, (i + 1) as nat, count as nat);
                    }
                    return Err(RuntimeError::StackOverflow);
                },
            };
            let ghost middle = *self;
            let written = self.write_stack(target, value);
            proof {
                if target < middle.current_coroutine.stack@.len() {
                    lemma_changed_at(middle, *self, target as int, value);
                }
            }
            match written {
                Ok(()) => {},
                Err(e) => {
                    proof {
                        lemma_moved_args_error(instructions, start, source_beginning, beginning as int, stack, (i + 1) as nat, count as nat);
                    }
                    return Err(e);
                },
            }
            i = i + 1;
        }
        Ok(())
    }

    /// Puts `args` in the registers of the running frame from `offset` on.
    fn set_args(&mut self, args: Vec<Value>, offset: u8) -> (r: RuntimeResult<()>)
        ensures
            old(self).current_frame.beginning + offset + args@.len()
                <= old(self).current_coroutine.stack@.len() ==> r is Ok,
            final(self).current_coroutine.stack@.len() == old(self).current_coroutine.stack@.len(),
            final(self).current_frame == old(self).current_frame,
            final(self).current_coroutine.paused_frames == old(self).current_coroutine.paused_frames,
            final(self).parent_coroutine_stack == old(self).parent_coroutine_stack,
            final(self).coroutines == old(self).coroutines,
            final(self).global_bindings == old(self).global_bindings,
            old(self).current_frame.beginning + offset > usize::MAX ==> r == Err::<(), RuntimeError>(
                RuntimeError::StackOverflow,
            ) && *final(self) == *old(self),
            old(self).current_frame.beginning + offset <= usize::MAX ==> {
                &&& r == written_args(
                    old(self).current_coroutine.stack@,
                    old(self).current_frame.beginning + offset,
                    args@,
                ).0
                &&& final(self).current_coroutine.stack@ == written_args(
                    old(self).current_coroutine.stack@,
                    old(self).current_frame.beginning + offset,
                    args@,
                ).1
            },
    {
        let length = self.current_coroutine.stack.len();
        let first = match self.current_frame.beginning.checked_add(offset as usize) {
            Some(index) => index,
            None => {
                return Err(RuntimeError::StackOverflow);
            },
        };
        let mut i: usize = 0;
        while i < args.len()
            invariant
                0 <= i <= args@.len(),
                first == old(self).current_frame.beginning + offset,
                length == old(self).current_coroutine.stack@.len(),
                self.current_coroutine.stack@.len() == old(self).current_coroutine.stack@.len(),
                self.current_frame == old(self).current_frame,
                self.current_coroutine.paused_frames == old(self).current_coroutine.paused_frames,
                self.parent_coroutine_stack == old(self).parent_coroutine_stack,
                self.coroutines == old(self).coroutines,
                self.global_bindings == old(self).global_bindings,
                written_args(old(self).current_coroutine.stack@, first as int, args@.take(i as int))
                    == (Ok::<(), RuntimeError>(()), self.current_coroutine.stack@),
            decreases args@.len() - i,
        {
            proof {
                assert(args@.take(i + 1).drop_last() =~= args@.take(i as int));
                assert(args@.take(i + 1).last() == args@[i as int]);
            }
            let target = match first.checked_add(i) {
                Some(index) => index,
                None => {
                    proof {
                        assert(self.current_coroutine.stack.len() == self.current_coroutine.stack@.len());
                        lemma_written_args_error(old(self).current_coroutine.stack@, first as int, args@, i + 1, args@.len() as int);
                        assert(args@.take(args@.len() as int) =~= args@);
                    }
                    return Err(RuntimeError::StackOverflow);
                },
            };
            let ghost middle = *self;
            let value = args[i].duplicate();
            let written = self.write_stack(target, value);
            proof {
                if target < middle.current_coroutine.stack@.len() {
                    lemma_changed_at(middle, *self, target as int, value);
                }
            }
            match written {
                Ok(()) => {},
                Err(e) => {
                    proof {
                        lemma_written_args_error(old(self).current_coroutine.stack@, first as int, args@, i + 1, args@.len() as int);
                        assert(args@.take(args@.len() as int) =~= args@);
                    }
                    return Err(e);
                },
            }
            i = i + 1;
        }
        proof {
            assert(args@.take(args@.len() as int) =~= args@);
        }
        Ok(())
    }

    /// A frame for `f`, placed past the registers of the running frame, whose result
    /// goes to stack position `return_index`; `StackOverflow` where it would begin past
    /// the end of the stack.
    fn create_fn_stack_frame(&self, f: Rc<CompositeFunction>, return_index: StackIndex) -> (r:
        RuntimeResult<StackFrame>)
        ensures
            r matches Ok(frame) ==> {
                &&& frame.beginning == self.current_frame.beginning
                    + self.current_frame.block.metadata + 1
                &&& frame.beginning < self.current_coroutine.stack@.len()
                &&& frame.calling_function == Some(f)
                &&& frame.block == f.block
                &&& frame.instruction_index == 0
                &&& frame.return_stack_index == return_index
            },
            r is Ok <==> self.current_frame.beginning + self.current_frame.block.metadata + 1
                < self.current_coroutine.stack@.len(),
            r is Err ==> r == Err::<StackFrame, RuntimeError>(RuntimeError::StackOverflow),
    {
        let consumption = self.current_frame.stack_consumption();
        proof {
            assert(self.current_coroutine.stack.len() == self.current_coroutine.stack@.len());
        }
        match self.current_frame.beginning.checked_add(consumption + 1) {
            Some(beginning) => if beginning < self.current_coroutine.stack.len() {
                Ok(StackFrame::for_fn(f, beginning, return_index))
            } else {
                Err(RuntimeError::StackOverflow)
            },
            None => Err(RuntimeError::StackOverflow),
        }
    }
}

/// Whether each state of `trace` is what one step makes of the state before it, a step
/// that went on without a result.
pub open spec fn runs_through(trace: Seq<EvaluationState>) -> bool {
    forall|i: int|
        0 <= i < trace.len() - 1 ==> #[trigger] EvaluationState::step_relation(
            trace[i],
            trace[i + 1],
            Some(Ok::<Option<Value>, RuntimeError>(None)),
        )
}

/// The first error among the values taken as numbers, if any.
pub open spec fn first_num_error(values: Seq<Value>) -> Option<RuntimeError>
    decreases values.len(),
{
    if values.len() == 0 {
        None
    } else {
        match num_of(values[0]) {
            Err(e) => Some(e),
            Ok(_) => first_num_error(values.drop_first()),
        }
    }
}

/// Whether every value is an integer or `nil`.
pub open spec fn all_ints(values: Seq<Value>) -> bool {
    forall|i: int| 0 <= i < values.len() ==> #[trigger] num_of(values[i]) matches Ok(Num::Int(_))
}

/// The sum of the integers among `values`, from the left, wrapping around on overflow.
pub open spec fn int_sum(values: Seq<Value>) -> i64
    decreases values.len(),
{
    if values.len() == 0 {
        0
    } else {
        let rest = int_sum(values.drop_last());
        match num_of(values.last()) {
            Ok(Num::Int(i)) => vstd::wrapping::i64_specs::wrapping_add(rest, i),
            _ => rest,
        }
    }
}

/// The values taken as numbers, with the first error among them.
fn nums_of(values: &Vec<Value>) -> (r: RuntimeResult<Vec<Num>>)
    ensures
        first_num_error(values@) matches Some(e) ==> r == Err::<Vec<Num>, RuntimeError>(e),
        first_num_error(values@) is None ==> (r matches Ok(nums) && nums@.len() == values@.len()
            && forall|i: int| 0 <= i < values@.len() ==> num_of(values@[i]) == Ok::<
            Num,
            RuntimeError,
        >(#[trigger] nums@[i])),
{
    let mut nums: Vec<Num> = Vec::new();
    let mut i: usize = 0;
    proof {
        assert(values@.skip(0) =~= values@);
    }
    while i < values.len()
        invariant
            0 <= i <= values@.len(),
            nums@.len() == i,
            forall|j: int| 0 <= j < i ==> num_of(values@[j]) == Ok::<Num, RuntimeError>(
                #[trigger] nums@[j],
            ),
            first_num_error(values@) == first_num_error(values@.skip(i as int)),
        decreases values@.len() - i,
    {
        proof {
            assert(values@.skip(i as int).drop_first() =~= values@.skip(i + 1));
        }
        match values[i].as_num() {
            Ok(n) => nums.push(n),
            Err(e) => {
                return Err(e);
            },
        }
        i = i + 1;
    }
    proof {
        assert(values@.skip(i as int) =~= Seq::<Value>::empty());
    }
    Ok(nums)
}

/// Calls the core function `id` on `args`. Only `+` is implemented: it adds its
/// arguments, from zero, as numbers (`nil` counts as zero).
pub fn call_core_fn<H: Host>(id: CoreFnId, args: Vec<Value>, host: &H) -> (r: RuntimeResult<Value>)
    ensures
        id != CoreFnId::Add ==> r == Err::<Value, RuntimeError>(RuntimeError::NotYetImplemented),
        id == CoreFnId::Add ==> match first_num_error(args@) {
            Some(e) => r == Err::<Value, RuntimeError>(e),
            None => r is Ok && (all_ints(args@) ==> r == Ok::<Value, RuntimeError>(
                GenericValue::Number(Num::Int(int_sum(args@))),
            )),
        },
{
    match id {
        CoreFnId::Add => {
            let nums = nums_of(&args)?;
            let mut sum = Num::Int(0);
            let mut i: usize = 0;
            while i < nums.len()
                invariant
                    0 <= i <= nums@.len(),
                    nums@.len() == args@.len(),
                    forall|j: int| 0 <= j < args@.len() ==> num_of(args@[j]) == Ok::<
                        Num,
                        RuntimeError,
                    >(#[trigger] nums@[j]),
                    all_ints(args@) ==> sum == Num::Int(int_sum(args@.take(i as int))),
                decreases nums@.len() - i,
            {
                proof {
                    let prefix = args@.take(i + 1);
                    assert(prefix.drop_last() =~= args@.take(i as int));
                    assert(prefix.last() == args@[i as int]);
                    if all_ints(args@) {
                        assert(num_of(args@[i as int]) matches Ok(Num::Int(_)));
                    }
                }
                sum = sum.add(&nums[i], host);
                i = i + 1;
            }
            proof {
                assert(args@.take(i as int) =~= args@);
            }
            Ok(GenericValue::Number(sum))
        },
        _ => Err(RuntimeError::NotYetImplemented),
    }
}

impl EvaluationState {
    /// The state with the running frame one instruction further on.
    pub open spec fn advanced(self) -> Self {
        EvaluationState {
            current_frame: StackFrame {
                instruction_index: (self.current_frame.instruction_index + 1) as usize,
                ..self.current_frame
            },
            ..self
        }
    }

    /// Whether `after` is `self` once the function `function` has been called with
    /// `count` arguments, its result to go to `target`: a frame for the function runs,
    /// past the registers of the calling frame, and the calling frame waits, past the
    /// instructions that passed the arguments.
    pub open spec fn calls(
        self,
        after: Self,
        function: Rc<CompositeFunction>,
        target: Register,
        count: u8,
    ) -> bool {
        &&& after.current_frame == StackFrame {
            beginning: (self.current_frame.beginning + self.current_frame.block.metadata
                + 1) as usize,
            calling_function: Some(function),
            block: function.block,
            instruction_index: 0,
            return_stack_index: self.slot(target) as usize,
        }
        &&& after.current_coroutine.paused_frames@ == self.current_coroutine.paused_frames@.push(
            StackFrame {
                instruction_index: (self.current_frame.instruction_index + count) as usize,
                ..self.current_frame
            },
        )
        &&& after.current_coroutine.stack@.len() == self.current_coroutine.stack@.len()
        &&& after.parent_coroutine_stack == self.parent_coroutine_stack
        &&& after.coroutines == self.coroutines
        &&& after.global_bindings == self.global_bindings
    }

    /// Whether `after` is `self` once the running frame has returned the value of
    /// `register`: the register is left `nil`, the value goes to the stack position that
    /// the frame returns to, and the frame that waits under it runs on.
    pub open spec fn returns_to_caller(self, after: Self, register: Register) -> bool {
        &&& after.current_frame == self.current_coroutine.paused_frames@.last()
        &&& after.current_coroutine.paused_frames@
            == self.current_coroutine.paused_frames@.drop_last()
        &&& after.current_coroutine.stack@ == self.current_coroutine.stack@.update(
            self.slot(register),
            GenericValue::Nil,
        ).update(self.current_frame.return_stack_index as int, self.register(register))
        &&& after.parent_coroutine_stack == self.parent_coroutine_stack
        &&& after.coroutines == self.coroutines
        &&& after.global_bindings == self.global_bindings
    }

    /// Whether `after` is `self` once the paused `coroutine`, from entry `id` of the
    /// table, has been called through register `f` with `count` arguments, its result to
    /// go to `target`: the running coroutine waits, past the instructions that passed
    /// the arguments, with the position of its reference to the coroutine; the
    /// coroutine's top frame runs, returning to `target`, on the coroutine's own stack;
    /// the entry of the table is empty while the coroutine runs.
    pub open spec fn resumes_coroutine(
        self,
        after: Self,
        coroutine: PausedCoroutine,
        id: usize,
        f: Register,
        target: Register,
        count: u8,
    ) -> bool {
        &&& after.parent_coroutine_stack@.len() == self.parent_coroutine_stack@.len() + 1
        &&& after.parent_coroutine_stack@.drop_last() == self.parent_coroutine_stack@
        &&& after.parent_coroutine_stack@.last().0 == self.slot(f) as usize
        &&& after.parent_coroutine_stack@.last().1.state.paused_frames@
            == self.current_coroutine.paused_frames@.push(
            StackFrame {
                instruction_index: (self.current_frame.instruction_index + count) as usize,
                ..self.current_frame
            },
        )
        &&& after.parent_coroutine_stack@.last().1.state.stack@.len()
            == self.current_coroutine.stack@.len()
        &&& after.current_frame == StackFrame {
            return_stack_index: self.slot(target) as usize,
            ..coroutine.state.paused_frames@.last()
        }
        &&& after.current_coroutine.paused_frames@ == coroutine.state.paused_frames@.drop_last()
        &&& after.current_coroutine.stack@.len() == coroutine.state.stack@.len()
        &&& after.coroutines@ == self.coroutines@.update(id as int, None)
        &&& after.global_bindings == self.global_bindings
    }

    /// Whether the running coroutine can give a value to the coroutine that called it:
    /// a caller waits, with a frame to resume, and its reference to this coroutine, at a
    /// position of its stack, refers to an entry of the table; the position that the
    /// running frame returns to lies in the caller's stack.
    pub open spec fn can_yield(self) -> bool {
        &&& self.parent_coroutine_stack@.len() > 0
        &&& {
            let (reference, parent) = self.parent_coroutine_stack@.last();
            &&& parent.state.paused_frames@.len() > 0
            &&& reference < parent.state.stack@.len()
            &&& parent.state.stack@[reference as int] matches GenericValue::Coroutine(Some(id))
                && id < self.coroutines@.len()
            &&& self.current_frame.return_stack_index < parent.state.stack@.len()
        }
    }

    /// Whether `after` is `self` once the running coroutine has given `yielded` to its
    /// caller: the caller runs on from its waiting frame, with `yielded` at the position
    /// the running frame returns to, and the coroutine waits in its table entry with its
    /// stack and frames, to accept `new_args` (none: no arguments) when called again.
    pub open spec fn yields_to_parent(
        self,
        after: Self,
        yielded: Value,
        new_args: Option<(AritySpecifier, u8)>,
    ) -> bool {
        let (reference, parent) = self.parent_coroutine_stack@.last();
        self.gives_to_parent(
            after,
            new_args,
            parent.state.stack@.update(self.current_frame.return_stack_index as int, yielded),
        )
    }

    /// Whether `after` is `self` once the running coroutine has ended by giving `yielded`
    /// to its caller: as `yields_to_parent` without arguments, except that the caller's
    /// reference to the coroutine is dead.
    pub open spec fn dies_yielding(self, after: Self, yielded: Value) -> bool {
        let (reference, parent) = self.parent_coroutine_stack@.last();
        self.gives_to_parent(
            after,
            None,
            parent.state.stack@.update(self.current_frame.return_stack_index as int, yielded).update(
                reference as int,
                GenericValue::Coroutine(None),
            ),
        )
    }

    /// Whether the running coroutine can finish by returning from its root frame: a caller
    /// waits, with a frame to resume, and both its reference to the coroutine and the
    /// position the running frame returns to lie in the caller's stack.
    pub open spec fn can_finish(self) -> bool {
        &&& self.parent_coroutine_stack@.len() > 0
        &&& {
            let (reference, parent) = self.parent_coroutine_stack@.last();
            &&& parent.state.paused_frames@.len() > 0
            &&& reference < parent.state.stack@.len()
            &&& self.current_frame.return_stack_index < parent.state.stack@.len()
        }
    }

    /// Whether `after` is `self` once the running coroutine has finished by returning
    /// `value` from its root frame: its caller runs on from its waiting frame, with
    /// `value` at the position the frame returns to and its reference to the coroutine
    /// dead; the coroutine's table entry stays as it is (empty while it ran).
    pub open spec fn finishes_coroutine(self, after: Self, value: Value) -> bool {
        let (reference, parent) = self.parent_coroutine_stack@.last();
        &&& after.current_frame == parent.state.paused_frames@.last()
        &&& after.current_coroutine.paused_frames@ == parent.state.paused_frames@.drop_last()
        &&& after.current_coroutine.stack@ == parent.state.stack@.update(
            reference as int,
            GenericValue::Coroutine(None),
        ).update(self.current_frame.return_stack_index as int, value)
        &&& after.parent_coroutine_stack@ == self.parent_coroutine_stack@.drop_last()
        &&& after.coroutines == self.coroutines
        &&& after.global_bindings == self.global_bindings
    }

    /// Whether `after` is `self` once the running coroutine has handed control back to
    /// its caller, which runs on from its waiting frame with `stack` as its stack, while
    /// the coroutine waits in its table entry with its stack and frames, to accept
    /// `new_args` (none: no arguments) when called again.
    pub open spec fn gives_to_parent(
        self,
        after: Self,
        new_args: Option<(AritySpecifier, u8)>,
        stack: Seq<Value>,
    ) -> bool {
        let (reference, parent) = self.parent_coroutine_stack@.last();
        let id = parent.state.stack@[reference as int]->Coroutine_0->Some_0;
        &&& after.current_frame == parent.state.paused_frames@.last()
        &&& after.current_coroutine.paused_frames@ == parent.state.paused_frames@.drop_last()
        &&& after.current_coroutine.stack@ == stack
        &&& after.parent_coroutine_stack@ == self.parent_coroutine_stack@.drop_last()
        &&& after.coroutines@.len() == self.coroutines@.len()
        &&& forall|j: int|
            0 <= j < self.coroutines@.len() && j != id ==> #[trigger] after.coroutines@[j]
                == self.coroutines@[j]
        &&& after.coroutines@[id as int] matches Some(paused) && {
            &&& paused.started
            &&& paused.state.stack == self.current_coroutine.stack
            &&& paused.state.paused_frames@ == self.current_coroutine.paused_frames@.push(
                self.current_frame,
            )
            &&& match new_args {
                Some((args, offset)) => paused.args == args && paused.arg_offset == offset,
                None => paused.args.count == 0 && paused.arg_offset == 0,
            }
        }
        &&& after.global_bindings == self.global_bindings
    }

    /// The coroutine in entry `id` of the table, which is then empty: the coroutine runs.
    fn take_coroutine(&mut self, id: usize) -> (r: Option<PausedCoroutine>)
        requires
            id < old(self).coroutines@.len(),
        ensures
            r == old(self).coroutines@[id as int],
            final(self).coroutines@ == old(self).coroutines@.update(id as int, None),
            final(self).current_frame == old(self).current_frame,
            final(self).current_coroutine == old(self).current_coroutine,
            final(self).parent_coroutine_stack == old(self).parent_coroutine_stack,
            final(self).global_bindings == old(self).global_bindings,
    {
        let entry = self.coroutines.remove(id);
        self.coroutines.insert(id, None);
        proof {
            assert(self.coroutines@ =~= old(self).coroutines@.update(id as int, None));
        }
        entry
    }

    /// The function that the running frame runs.
    fn calling_function(&self) -> (r: RuntimeResult<Rc<CompositeFunction>>)
        ensures
            self.current_frame.calling_function matches Some(f) ==> r == Ok::<
                Rc<CompositeFunction>,
                RuntimeError,
            >(f),
            self.current_frame.calling_function is None ==> r == Err::<
                Rc<CompositeFunction>,
                RuntimeError,
            >(RuntimeError::MalformedProgram),
    {
        match &self.current_frame.calling_function {
            Some(f) => Ok(rc_clone(f)),
            None => Err(RuntimeError::MalformedProgram),
        }
    }

    /// Calls the external function `f` on `args` and puts its result in `target` (see
    /// `external_call_outcome`); the host gives the result or an error.
    fn call_external<H: Host>(&mut self, target: Register, f: &crate::runtime::data::ExternalFunction, args: Vec<Value>, host: &H) -> (r:
        RuntimeResult<()>)
        ensures
            external_call_outcome(*old(self), *final(self), target, r),
    {
        match host.call_external(f, args) {
            Ok(v) => {
                let r = self.write_register(target, v);
                proof {
                    assert(wrote_register(*old(self), *self, target, v, r));
                }
                r
            },
            Err(handle) => Err(RuntimeError::ExternalError(handle)),
        }
    }

    /// Applies `f` to `args`, with the result going to `result`: a function of the
    /// language starts a frame with the arguments in its first registers; a core or
    /// external function gives its result at once.
    fn apply<H: Host>(&mut self, result: Register, f: &Value, args: Vec<Value>, host: &H) -> (r:
        RuntimeResult<()>)
        ensures
            apply_outcome(*old(self), *final(self), result, *f, args@, r),
    {
        match f {
            GenericValue::CompositeFn(function) => {
                if !function.args.can_accept(args.len()) {
                    return Err(RuntimeError::InvalidArity);
                }
                let return_index = self.register_index(result)?;
                let frame = self.create_fn_stack_frame(rc_clone(function), return_index)?;
                self.push_frame(frame);
                self.set_args(args, 0)
            },
            GenericValue::CoreFn(id) => {
                let value = match call_core_fn(*id, args, host) {
                    Ok(value) => value,
                    Err(e) => {
                        return Err(e);
                    },
                };
                let r = self.write_register(result, value);
                proof {
                    assert(wrote_register(*old(self), *self, result, value, r));
                }
                r
            },
            GenericValue::ExternalFn(external) => self.call_external(result, external, args, host),
            GenericValue::PartialApplication(_) | GenericValue::List(_) | GenericValue::Hashmap(_)
            | GenericValue::Hashset(_) | GenericValue::Coroutine(_) => Err(
                RuntimeError::NotYetImplemented,
            ),
            _ => Err(RuntimeError::CantApply(f.duplicate())),
        }
    }

    /// Runs `Call(target, f, count)`, whose argument instructions follow.
    fn run_call<H: Host>(&mut self, target: Register, f: Register, count: u8, host: &H) -> (r:
        RuntimeResult<()>)
        ensures
            call_instruction_outcome(*old(self), *final(self), target, f, count, r),
    {
        let f_value = self.read_register(f)?;
        let ghost before = *self;
        match f_value {
            GenericValue::CompositeFn(function) => {
                let return_index = self.register_index(target)?;
                let frame = self.create_fn_stack_frame(function, return_index)?;
                self.move_args(count, frame.beginning)?;
                self.push_frame(frame);
                Ok(())
            },
            GenericValue::CoreFn(id) => {
                let args = self.take_args(count)?;
                let ghost middle = *self;
                proof {
                    assert(took_args(before, middle, count));
                }
                let value = match call_core_fn(id, args, host) {
                    Ok(value) => value,
                    Err(e) => {
                        return Err(e);
                    },
                };
                let r = self.write_register(target, value);
                proof {
                    assert(wrote_register(middle, *self, target, value, r));
                    assert(core_call_outcome(middle, *self, id, args@, target, r));
                }
                r
            },
            GenericValue::ExternalFn(external) => {
                let args = self.take_args(count)?;
                let ghost middle = *self;
                proof {
                    assert(took_args(before, middle, count));
                }
                self.call_external(target, &external, args, host)
            },
            GenericValue::PartialApplication(partial) => {
                let mut args = self.take_args(count)?;
                let ghost middle = *self;
                let ghost taken = args@;
                proof {
                    assert(took_args(before, middle, count));
                }
                let mut all_args = duplicate_all(&partial.1);
                all_args.append(&mut args);
                proof {
                    assert(all_args@ == partial.1@ + taken);
                }
                self.apply(target, &partial.0, all_args, host)
            },
            GenericValue::Coroutine(Some(id)) => {
                if id >= self.coroutines.len() {
                    return Err(RuntimeError::MalformedProgram);
                }
                match self.take_coroutine(id) {
                    Some(coroutine) => {
                        if !coroutine.args.can_accept(count as usize) {
                            return Err(RuntimeError::InvalidArity);
                        }
                        let frame_count = coroutine.state.paused_frames.len();
                        if frame_count == 0 {
                            return Err(RuntimeError::MalformedProgram);
                        }
                        let arg_offset = coroutine.arg_offset;
                        let top_beginning = coroutine.state.paused_frames[frame_count - 1].beginning;
                        match top_beginning.checked_add(arg_offset as usize + count as usize) {
                            Some(end) => if end > coroutine.state.stack.len() {
                                return Err(RuntimeError::StackOverflow);
                            },
                            None => {
                                proof {
                                    assert(coroutine.state.stack.len() == coroutine.state.stack@.len());
                                }
                                return Err(RuntimeError::StackOverflow);
                            },
                        }
                        let args = self.take_args(count)?;
                        let reference_index = self.register_index(f)?;
                        let return_index = self.register_index(target)?;
                        self.push_child_coroutine(coroutine, reference_index, return_index)?;
                        self.set_args(args, arg_offset)
                    },
                    None => Err(RuntimeError::CoroutineAlreadyRunning),
                }
            },
            GenericValue::Coroutine(None) => Err(RuntimeError::DeadCoroutine),
            GenericValue::List(_) | GenericValue::Hashmap(_) | GenericValue::Hashset(_) => Err(
                RuntimeError::NotYetImplemented,
            ),
            other => Err(RuntimeError::CantApply(other)),
        }
    }

    /// Runs `CallAndReturn(f, count)`: the running frame ends, and `f` runs in its place,
    /// returning to where it would have returned.
    fn run_call_and_return(&mut self, f: Register, count: u8) -> (r: RuntimeResult<()>)
        ensures
            tail_call_instruction_outcome(*old(self), *final(self), f, count, r),
    {
        let f_value = self.read_register(f)?;
        let completed = match self.complete_frame()? {
            Some(frame) => frame,
            None => {
                return Err(RuntimeError::MalformedProgram);
            },
        };
        match f_value {
            GenericValue::CompositeFn(function) => {
                let frame = StackFrame::for_fn(
                    function,
                    completed.beginning,
                    completed.return_stack_index,
                );
                let mut completed = completed;
                self.move_args_from(count, frame.beginning, &mut completed)?;
                self.push_frame(frame);
                proof {
                    if old(self).current_coroutine.paused_frames@.len() > 0 {
                        assert(self.current_coroutine.paused_frames@ =~= old(self).current_coroutine.paused_frames@);
                    }
                }
                Ok(())
            },
            GenericValue::CoreFn(_) => Err(RuntimeError::MalformedProgram),
            GenericValue::ExternalFn(_) | GenericValue::PartialApplication(_)
            | GenericValue::Coroutine(_) | GenericValue::List(_) | GenericValue::Hashmap(_)
            | GenericValue::Hashset(_) => Err(RuntimeError::NotYetImplemented),
            other => Err(RuntimeError::CantApply(other)),
        }
    }

    /// Runs `CallSelfAndReturn(count)`: the running frame ends, and its function runs
    /// again in its place.
    fn run_call_self_and_return(&mut self, count: u8) -> (r: RuntimeResult<()>)
        ensures
            self_tail_call_outcome(*old(self), *final(self), count, r),
    {
        let function = self.calling_function()?;
        let completed = match self.complete_frame()? {
            Some(frame) => frame,
            None => {
                return Err(RuntimeError::MalformedProgram);
            },
        };
        let frame = StackFrame::for_fn(function, completed.beginning, completed.return_stack_index);
        let mut completed = completed;
        self.move_args_from(count, frame.beginning, &mut completed)?;
        self.push_frame(frame);
        proof {
            if old(self).current_coroutine.paused_frames@.len() > 0 {
                assert(self.current_coroutine.paused_frames@ =~= old(self).current_coroutine.paused_frames@);
            }
        }
        Ok(())
    }

    /// Skips instructions up to and past the next `EndIf`: the running frame goes on past
    /// the first `EndIf` from its position (see `endif_after`), and where there is none,
    /// it stops at the end of its block with `MalformedProgram`.
    fn skip_to_endif(&mut self) -> (r: RuntimeResult<()>)
        ensures
            skip_outcome(*old(self), *final(self), r),
    {
        loop
            invariant
                self.current_coroutine == old(self).current_coroutine,
                self.parent_coroutine_stack == old(self).parent_coroutine_stack,
                self.coroutines == old(self).coroutines,
                self.global_bindings == old(self).global_bindings,
                self.current_frame.block == old(self).current_frame.block,
                self.current_frame.beginning == old(self).current_frame.beginning,
                self.current_frame.calling_function == old(self).current_frame.calling_function,
                self.current_frame.return_stack_index == old(self).current_frame.return_stack_index,
                endif_after(self.current_frame.block.instructions@, self.current_frame.instruction_index as int)
                    == endif_after(old(self).current_frame.block.instructions@, old(self).current_frame.instruction_index as int),
                self.current_frame.instruction_index >= old(self).current_frame.instruction_index,
                self.current_frame.instruction_index > old(self).current_frame.instruction_index
                    ==> self.current_frame.instruction_index <= self.current_frame.block.instructions@.len(),
            decreases self.current_frame.block.instructions@.len()
                - self.current_frame.instruction_index,
        {
            match self.current_frame.next_instruction() {
                Some(Instruction::EndIf) => {
                    return Ok(());
                },
                Some(_) => {},
                None => {
                    return Err(RuntimeError::MalformedProgram);
                },
            }
        }
    }

    /// Runs `If(condition)`: where the condition is false, skips to the branch that runs
    /// next, past the first `Else`, the first `ElseIf` whose condition is true, or the
    /// `EndIf`.
    fn run_if(&mut self, condition: Register) -> (r: RuntimeResult<()>)
        ensures
            if_outcome(*old(self), *final(self), condition, r),
    {
        if self.read_register(condition)?.as_bool() {
            return Ok(());
        }
        loop
            invariant
                old(self).read(condition) matches Ok(v) && !crate::runtime::data::spec_truthy(v),
                self.current_coroutine == old(self).current_coroutine,
                self.parent_coroutine_stack == old(self).parent_coroutine_stack,
                self.coroutines == old(self).coroutines,
                self.global_bindings == old(self).global_bindings,
                self.current_frame.block == old(self).current_frame.block,
                self.current_frame.beginning == old(self).current_frame.beginning,
                self.current_frame.calling_function == old(self).current_frame.calling_function,
                self.current_frame.return_stack_index == old(self).current_frame.return_stack_index,
                branch_after(*old(self), self.current_frame.instruction_index as int) == branch_after(
                    *old(self),
                    old(self).current_frame.instruction_index as int,
                ),
                forall|c: Register| #[trigger] self.read(c) == old(self).read(c),
            decreases self.current_frame.block.instructions@.len()
                - self.current_frame.instruction_index,
        {
            match self.current_frame.next_instruction() {
                Some(Instruction::Else) | Some(Instruction::EndIf) => {
                    return Ok(());
                },
                Some(Instruction::ElseIf(other)) => {
                    if self.read_register(other)?.as_bool() {
                        return Ok(());
                    }
                },
                Some(_) => {},
                None => {
                    return Err(RuntimeError::MalformedProgram);
                },
            }
        }
    }

    /// Runs an instruction on numbers that needs the host: one that computes with floats.
    fn run_numeric<H: Host>(&mut self, instruction: RuntimeInstruction, host: &H) -> (r:
        RuntimeResult<()>)
        ensures
            numeric_outcome(*old(self), *final(self), instruction, r),
    {
        match instruction {
            Instruction::IsEven(t, s) | Instruction::IsOdd(t, s) => match self.read_register(s)? {
                GenericValue::Number(n) => {
                    let i = n.as_int_lossless(host)?;
                    let b = match instruction {
                        Instruction::IsEven(_, _) => i % 2 == 0,
                        _ => i % 2 == 1,
                    };
                    self.write_register(t, GenericValue::Bool(b))
                },
                _ => Err(RuntimeError::ArgumentNotNum),
            },
            Instruction::NumericalEqual(t, a, b) => {
                let va = self.read_register(a)?;
                let vb = self.read_register(b)?;
                match (va, vb) {
                    (GenericValue::Number(x), GenericValue::Number(y)) => self.write_register(
                        t,
                        GenericValue::Bool(x.numerical_equal(&y, host)),
                    ),
                    _ => Err(RuntimeError::ArgumentNotNum),
                }
            },
            Instruction::Inc(t, s) | Instruction::Dec(t, s) | Instruction::Negate(t, s)
            | Instruction::Abs(t, s) | Instruction::Floor(t, s) | Instruction::Ceil(t, s)
            | Instruction::Sqrt(t, s) | Instruction::Exp(t, s) | Instruction::Exp2(t, s)
            | Instruction::Ln(t, s) | Instruction::Log2(t, s) => {
                let n = self.read_register(s)?.as_num()?;
                let result = match instruction {
                    Instruction::Inc(_, _) => n.inc(host),
                    Instruction::Dec(_, _) => n.dec(host),
                    Instruction::Negate(_, _) => n.negate(),
                    Instruction::Abs(_, _) => n.abs(),
                    Instruction::Floor(_, _) => Num::Int(n.floor(host)),
                    Instruction::Ceil(_, _) => Num::Int(n.ceil(host)),
                    Instruction::Sqrt(_, _) => Num::Float(host.float(FloatOp::Sqrt(n.as_float(host)))),
                    Instruction::Exp(_, _) => Num::Float(host.float(FloatOp::Exp(n.as_float(host)))),
                    Instruction::Exp2(_, _) => Num::Float(host.float(FloatOp::Exp2(n.as_float(host)))),
                    Instruction::Ln(_, _) => Num::Float(host.float(FloatOp::Ln(n.as_float(host)))),
                    _ => Num::Float(host.float(FloatOp::Log2(n.as_float(host)))),
                };
                self.write_register(t, GenericValue::Number(result))
            },
            Instruction::Add(t, a, b) | Instruction::Subtract(t, a, b)
            | Instruction::Multiply(t, a, b) | Instruction::Divide(t, a, b) => {
                let x = self.read_register(a)?.as_num()?;
                let y = self.read_register(b)?.as_num()?;
                let result = match instruction {
                    Instruction::Add(_, _, _) => x.add(&y, host),
                    Instruction::Subtract(_, _, _) => x.subtract(&y, host),
                    Instruction::Multiply(_, _, _) => x.multiply(&y, host),
                    _ => x.divide(&y, host),
                };
                self.write_register(t, GenericValue::Number(result))
            },
            _ => Err(RuntimeError::MalformedProgram),
        }
    }

    /// A coroutine that will run `f` from its start, added to the table of coroutines.
    pub fn fn_coroutine(&mut self, f: &CompositeFunction) -> (coroutine: Value)
        ensures
            coroutine == GenericValue::<u8, u8, u8, u8>::Coroutine(Some(old(self).coroutines@.len() as usize)),
            final(self).coroutines@.len() == old(self).coroutines@.len() + 1,
            forall|i: int|
                0 <= i < old(self).coroutines@.len() ==> #[trigger] final(self).coroutines@[i]
                    == old(self).coroutines@[i],
            final(self).coroutines@.last() matches Some(paused) && !paused.started && paused.args
                == f.args && paused.state.paused_frames@.len() == 1
                && paused.state.paused_frames@[0].block == f.block,
            final(self).current_frame == old(self).current_frame,
            final(self).current_coroutine == old(self).current_coroutine,
            final(self).parent_coroutine_stack == old(self).parent_coroutine_stack,
            final(self).global_bindings == old(self).global_bindings,
    {
        let id = self.coroutines.len();
        self.coroutines.push(Some(PausedCoroutine::from_function(f)));
        GenericValue::Coroutine(Some(id))
    }

    /// Runs `CreateCoroutine(register)`: the function in the register becomes a
    /// coroutine, which takes its place.
    fn run_create_coroutine<H: Host>(&mut self, register: Register, host: &H) -> (r: RuntimeResult<()>)
        ensures
            create_coroutine_outcome(*old(self), *final(self), register, r),
    {
        let ghost before = *self;
        let taken = self.take_register(register);
        proof {
            if before.holds_register(register) {
                lemma_changed_at(before, *self, before.slot(register), GenericValue::Nil);
            }
        }
        match taken? {
            GenericValue::CompositeFn(function) => {
                let ghost middle = *self;
                let coroutine = self.fn_coroutine(&function);
                let ghost made = *self;
                let r = self.write_register(register, coroutine);
                proof {
                    lemma_changed_at(made, *self, before.slot(register), coroutine);
                    assert(self.current_coroutine.stack@ =~= before.current_coroutine.stack@.update(
                        before.slot(register),
                        coroutine,
                    ));
                    assert(self.coroutines@.drop_last() =~= before.coroutines@);
                }
                r
            },
            GenericValue::ExternalFn(_) => Err(
                RuntimeError::CantCreateCoroutine(
                    "can't create a coroutine from an external function".to_owned(),
                ),
            ),
            GenericValue::CoreFn(_) => Err(
                RuntimeError::CantCreateCoroutine(
                    "can't create a coroutine from a core function".to_owned(),
                ),
            ),
            other => Err(
                RuntimeError::CantCreateCoroutine(
                    crate::runtime::description::cant_create_coroutine_message(
                        &other,
                        &self.coroutines,
                        host,
                    ),
                ),
            ),
        }
    }

    /// Runs an instruction that calls, returns, jumps, branches, yields, prints or needs
    /// the host.
    fn run_control<H: Host>(&mut self, instruction: RuntimeInstruction, host: &H) -> (r:
        RuntimeResult<Option<Value>>)
        ensures
            control_outcome(*old(self), *final(self), instruction, r),
    {
        match instruction {
            Instruction::DebugPrint(id) => {
                host.print(crate::runtime::description::debug_report(self, id, host));
                Ok(None)
            },
            Instruction::Print(v) => {
                let value = self.read_register(v)?;
                host.print(crate::runtime::description::describe(&value, &self.coroutines, host));
                Ok(None)
            },
            Instruction::Return(v) => {
                let ghost before = *self;
                let value = self.take_register(v)?;
                proof {
                    if before.holds_register(v) {
                        assert(self.current_coroutine.stack@ =~= before.current_coroutine.stack@.update(
                            before.slot(v),
                            GenericValue::Nil,
                        ));
                    }
                }
                self.return_value(value)
            },
            Instruction::CopyArgument(_) | Instruction::StealArgument(_) => Err(
                RuntimeError::MalformedProgram,
            ),
            Instruction::Call(target, f, count) => {
                self.run_call(target, f, count, host)?;
                Ok(None)
            },
            Instruction::Apply(args_and_result, f) => {
                let f_value = self.read_register(f)?;
                let ghost before = *self;
                let taken = self.take_register(args_and_result)?;
                let ghost mid = *self;
                proof {
                    assert(before.changes_stack_at(mid, before.slot(args_and_result)));
                }
                match taken {
                    GenericValue::List(list) => {
                        let r = self.apply(args_and_result, &f_value, duplicate_all(&list), host);
                        proof {
                            assert(apply_outcome(mid, *self, args_and_result, f_value, list@, r));
                        }
                        r?;
                        Ok(None)
                    },
                    _ => Err(RuntimeError::MalformedProgram),
                }
            },
            Instruction::CallSelf(target, count) => {
                let function = self.calling_function()?;
                let return_index = self.register_index(target)?;
                let frame = self.create_fn_stack_frame(function, return_index)?;
                self.move_args(count, frame.beginning)?;
                self.push_frame(frame);
                Ok(None)
            },
            Instruction::ApplySelf(args_and_result) => {
                let ghost before = *self;
                let taken = self.take_register(args_and_result)?;
                let ghost mid = *self;
                proof {
                    assert(before.changes_stack_at(mid, before.slot(args_and_result)));
                }
                match taken {
                    GenericValue::List(list) => {
                        let function = self.calling_function()?;
                        let return_index = self.register_index(args_and_result)?;
                        let frame = self.create_fn_stack_frame(function, return_index)?;
                        self.push_frame(frame);
                        let r = self.set_args(duplicate_all(&list), 0);
                        proof {
                            assert(applies_self(mid, *self, args_and_result, list@, r));
                        }
                        r?;
                        Ok(None)
                    },
                    _ => Err(RuntimeError::MalformedProgram),
                }
            },
            Instruction::CallAndReturn(f, count) => {
                self.run_call_and_return(f, count)?;
                Ok(None)
            },
            Instruction::CallSelfAndReturn(count) => {
                self.run_call_self_and_return(count)?;
                Ok(None)
            },
            Instruction::Jump(index) => {
                self.current_frame.instruction_index = index as usize;
                Ok(None)
            },
            Instruction::If(condition) => {
                self.run_if(condition)?;
                Ok(None)
            },
            Instruction::Else | Instruction::ElseIf(_) => {
                self.skip_to_endif()?;
                Ok(None)
            },
            Instruction::CreateCoroutine(register) => {
                self.run_create_coroutine(register, host)?;
                Ok(None)
            },
            Instruction::Yield(v) => {
                let yielded = self.read_register(v)?;
                self.yield_value(yielded, None, false)?;
                Ok(None)
            },
            Instruction::YieldAndAccept(v, count, first) => {
                let yielded = self.read_register(v)?;
                self.yield_value(yielded, Some((AritySpecifier { count }, first)), false)?;
                Ok(None)
            },
            _ => {
                self.run_numeric(instruction, host)?;
                Ok(None)
            },
        }
    }

    /// What one step does: none and no change where the running frame has no
    /// instruction left; otherwise what its next instruction does (see
    /// `instruction_relation`) once the frame is past it. An error inside a coroutine
    /// ends the coroutine instead, which gives the error to its caller as an `Error`
    /// value (see `dies_yielding`).
    pub open spec fn step_relation(
        before: EvaluationState,
        after: EvaluationState,
        r: Option<RuntimeResult<Option<Value>>>,
    ) -> bool {
        let index = before.current_frame.instruction_index;
        let instruction = before.current_frame.block.instructions@[index as int];
        if index >= before.current_frame.block.instructions@.len() {
            r is None && after == before
        } else {
            &&& r is Some
            &&& exists|mid: EvaluationState, result: RuntimeResult<Option<Value>>|
                #![trigger instruction_relation(before.advanced(), mid, instruction, result)]
                {
                    &&& instruction_relation(before.advanced(), mid, instruction, result)
                    &&& step_ends(mid, after, result, r)
                }
        }
    }

    /// Runs the next instruction of the running frame; none where the frame has run out
    /// of instructions. Where it fails inside a coroutine, the coroutine ends and gives
    /// the error to its parent as an `Error` value.
    pub fn step<H: Host>(&mut self, host: &H) -> (r: Option<RuntimeResult<Option<Value>>>)
        ensures
            EvaluationState::step_relation(*old(self), *final(self), r),
    {
        let instruction = match self.current_frame.next_instruction() {
            Some(instruction) => instruction,
            None => {
                return None;
            },
        };
        proof {
            assert(*self == old(self).advanced());
            assert forall|register: Register| #[trigger] self.read(register) == old(self).read(
                register,
            ) by {}
        }
        let ghost advanced = *self;
        let result = match self.run_register_instruction(instruction) {
            Some(result) => result,
            None => self.run_control(instruction, host),
        };
        proof {
            assert(instruction_relation(old(self).advanced(), *self, instruction, result));
        }
        match result {
            Ok(value) => Some(Ok(value)),
            Err(error) => {
                if self.parent_coroutine_stack.len() == 0 {
                    Some(Err(error))
                } else {
                    let ghost failed = *self;
                    let shared = Rc::new(error);
                    let yielded = GenericValue::Error(shared);
                    proof {
                        assert(yielded == error_value(error));
                    }
                    let r = match self.yield_value(yielded, None, true) {
                        Ok(()) => Some(Ok(None)),
                        Err(e) => Some(Err(e)),
                    };
                    proof {
                        assert(step_ends(failed, *self, Err::<Option<Value>, RuntimeError>(error), r));
                    }
                    r
                }
            },
        }
    }

    /// Runs the program for at most `max_steps` instructions: its result where it ends
    /// by then, none where it does not. It ends with the value that the root frame
    /// returns, with `nil` (none) where the root block runs out of instructions, or with
    /// the first error outside a coroutine. A function that runs out of instructions
    /// without returning makes the program `MalformedProgram`.
    pub fn run<H: Host>(&mut self, host: &H, max_steps: u64) -> (r: Option<RuntimeResult<Option<Value>>>)
        ensures
            exists|trace: Seq<EvaluationState>|
                #![trigger runs_through(trace)]
                {
                    &&& trace.len() >= 1
                    &&& trace.len() <= max_steps + 1
                    &&& trace[0] == *old(self)
                    &&& runs_through(trace)
                    &&& match r {
                        Some(Ok(Some(_))) => EvaluationState::step_relation(
                            trace.last(),
                            *final(self),
                            r,
                        ),
                        Some(Err(e)) => EvaluationState::step_relation(trace.last(), *final(self), r)
                            || (trace.last() == *final(self) && e == RuntimeError::MalformedProgram
                            && final(self).current_frame.instruction_index
                            >= final(self).current_frame.block.instructions@.len()
                            && final(self).current_coroutine.paused_frames@.len() > 0),
                        Some(Ok(None)) => {
                            &&& trace.last() == *final(self)
                            &&& final(self).current_frame.instruction_index
                                >= final(self).current_frame.block.instructions@.len()
                            &&& final(self).current_coroutine.paused_frames@.len() == 0
                        },
                        None => {
                            &&& trace.last() == *final(self)
                            &&& trace.len() == max_steps + 1
                            &&& final(self).current_frame.instruction_index
                                < final(self).current_frame.block.instructions@.len()
                        },
                    }
                },
            r == Some(Ok::<Option<Value>, RuntimeError>(None)) ==> {
                &&& final(self).current_frame.instruction_index
                    >= final(self).current_frame.block.instructions@.len()
                &&& final(self).current_coroutine.paused_frames@.len() == 0
            },
            old(self).current_frame.instruction_index
                >= old(self).current_frame.block.instructions@.len() ==> {
                &&& *final(self) == *old(self)
                &&& old(self).current_coroutine.paused_frames@.len() == 0 ==> r == Some(
                    Ok::<Option<Value>, RuntimeError>(None),
                )
                &&& old(self).current_coroutine.paused_frames@.len() > 0 ==> r == Some(
                    Err::<Option<Value>, RuntimeError>(RuntimeError::MalformedProgram),
                )
            },
    {
        let ghost mut trace: Seq<EvaluationState> = seq![*self];
        let mut remaining = max_steps;
        loop
            invariant
                old(self).current_frame.instruction_index
                    >= old(self).current_frame.block.instructions@.len() ==> *self == *old(self),
                remaining <= max_steps,
                trace.len() == max_steps - remaining + 1,
                trace[0] == *old(self),
                trace.last() == *self,
                runs_through(trace),
            ensures
                self.current_frame.instruction_index
                    >= self.current_frame.block.instructions@.len(),
                old(self).current_frame.instruction_index
                    >= old(self).current_frame.block.instructions@.len() ==> *self == *old(self),
                trace.len() >= 1,
                trace.len() <= max_steps + 1,
                trace[0] == *old(self),
                trace.last() == *self,
                runs_through(trace),
            decreases remaining,
        {
            if self.current_frame.instruction_index >= self.current_frame.block.instructions.len() {
                break ;
            }
            if remaining == 0 {
                return None;
            }
            remaining = remaining - 1;
            let ghost before = *self;
            let stepped = self.step(host);
            match stepped {
                None => {
                    break ;
                },
                Some(Ok(None)) => {
                    proof {
                        let extended = trace.push(*self);
                        assert forall|i: int| 0 <= i < extended.len() - 1 implies #[trigger]
                            EvaluationState::step_relation(
                            extended[i],
                            extended[i + 1],
                            Some(Ok::<Option<Value>, RuntimeError>(None)),
                        ) by {
                            if i < trace.len() - 1 {
                                assert(extended[i] == trace[i]);
                                assert(extended[i + 1] == trace[i + 1]);
                            } else {
                                assert(extended[i] == before);
                            }
                        }
                        trace = extended;
                    }
                },
                Some(Ok(Some(value))) => {
                    return Some(Ok(Some(value)));
                },
                Some(Err(error)) => {
                    return Some(Err(error));
                },
            }
        }
        if self.current_coroutine.paused_frames.len() > 0 {
            return Some(Err(RuntimeError::MalformedProgram));
        }
        Some(Ok(None))
    }

    /// Runs the program to its end (see `run`); a program that has not ended after
    /// `u64::MAX` instructions stops with `StepLimitReached`. Any other error comes from
    /// the step that failed, or is `MalformedProgram` where a function runs out of
    /// instructions.
    pub fn evaluate<H: Host>(&mut self, host: &H) -> (r: RuntimeResult<Option<Value>>)
        ensures
            evaluation_outcome(*old(self), *final(self), r),
            r == Ok::<Option<Value>, RuntimeError>(None) ==> {
                &&& final(self).current_frame.instruction_index
                    >= final(self).current_frame.block.instructions@.len()
                &&& final(self).current_coroutine.paused_frames@.len() == 0
            },
            old(self).current_frame.instruction_index
                >= old(self).current_frame.block.instructions@.len()
                && old(self).current_coroutine.paused_frames@.len() == 0 ==> r == Ok::<
                Option<Value>,
                RuntimeError,
            >(None) && *final(self) == *old(self),
    {
        match self.run(host, u64::MAX) {
            Some(result) => result,
            None => Err(RuntimeError::StepLimitReached),
        }
    }
}

/// `state` is about to run `block` from its start, with an empty stack, no coroutines
/// and no global bindings.
pub open spec fn is_initial_state(state: EvaluationState, block: Block) -> bool {
    &&& state.current_frame.beginning == 0
    &&& state.current_frame.calling_function is None
    &&& state.current_frame.block == block
    &&& state.current_frame.instruction_index == 0
    &&& state.current_coroutine.stack@.len() == crate::runtime::control::STACK_CAPACITY
    &&& forall|i: int|
        0 <= i < crate::runtime::control::STACK_CAPACITY
            ==> #[trigger] state.current_coroutine.stack@[i] is Nil
    &&& state.current_coroutine.paused_frames@.len() == 0
    &&& state.parent_coroutine_stack@.len() == 0
    &&& state.coroutines@.len() == 0
    &&& state.global_bindings@.len() == 0
}

/// Running from `start` ends in `end` with `r`: a run of steps from `start` (see
/// `runs_through`) after which the program has ended (`Ok(None)`), or returns from its
/// root or fails in one more step; or, stopping where it is, `MalformedProgram` where a
/// function has run out of instructions, or `StepLimitReached` after `u64::MAX` steps.
pub open spec fn evaluation_outcome(
    start: EvaluationState,
    end: EvaluationState,
    r: RuntimeResult<Option<Value>>,
) -> bool {
    exists|trace: Seq<EvaluationState>|
        #![trigger runs_through(trace)]
        {
            &&& trace.len() >= 1
            &&& trace[0] == start
            &&& runs_through(trace)
            &&& match r {
                Ok(None) => {
                    &&& trace.last() == end
                    &&& end.current_frame.instruction_index
                        >= end.current_frame.block.instructions@.len()
                    &&& end.current_coroutine.paused_frames@.len() == 0
                },
                Ok(Some(_)) => EvaluationState::step_relation(trace.last(), end, Some(r)),
                Err(e) => {
                    ||| EvaluationState::step_relation(trace.last(), end, Some(r))
                    ||| {
                        &&& trace.last() == end
                        &&& e == RuntimeError::MalformedProgram
                        &&& end.current_frame.instruction_index
                            >= end.current_frame.block.instructions@.len()
                        &&& end.current_coroutine.paused_frames@.len() > 0
                    }
                    ||| {
                        &&& trace.last() == end
                        &&& e == RuntimeError::StepLimitReached
                        &&& trace.len() == u64::MAX + 1
                        &&& end.current_frame.instruction_index
                            < end.current_frame.block.instructions@.len()
                    }
                },
            }
        }
}


/// The argument that instruction `index` of `instructions` passes, if it passes one: the
/// register it names, and whether it takes the value out of the register.
pub open spec fn argument_at(instructions: Seq<RuntimeInstruction>, index: int) -> Option<
    (Register, bool),
> {
    if 0 <= index < instructions.len() {
        match instructions[index] {
            Instruction::CopyArgument(register) => Some((register, false)),
            Instruction::StealArgument(register) => Some((register, true)),
            _ => None,
        }
    } else {
        None
    }
}

/// The instruction position after reading the instruction at `index`: one further,
/// unless `index` is past the end.
pub open spec fn index_after(instructions: Seq<RuntimeInstruction>, index: int) -> int {
    if index < instructions.len() {
        index + 1
    } else {
        index
    }
}

/// Reading stack position `slot` of `stack` as an argument: the value and the stack
/// after, where the value is taken out when `steal`; `StackOverflow` past the stack.
pub open spec fn read_argument(stack: Seq<Value>, slot: int, steal: bool) -> (
    RuntimeResult<Value>,
    Seq<Value>,
) {
    if slot < stack.len() {
        (
            Ok(stack[slot]),
            if steal {
                stack.update(slot, GenericValue::Nil)
            } else {
                stack
            },
        )
    } else {
        (Err(RuntimeError::StackOverflow), stack)
    }
}

/// Taking the `count` arguments that the instructions from `index` pass, from the
/// registers that begin at stack position `beginning`: the values, the stack after, and
/// the instruction position after. The first instruction that passes no argument makes
/// `MalformedProgram`, and the first error ends the taking.
pub open spec fn taken_args(
    instructions: Seq<RuntimeInstruction>,
    index: int,
    beginning: int,
    stack: Seq<Value>,
    count: nat,
) -> (RuntimeResult<Seq<Value>>, Seq<Value>, int)
    decreases count,
{
    if count == 0 {
        (Ok(Seq::empty()), stack, index)
    } else {
        let (r, st, i) = taken_args(instructions, index, beginning, stack, (count - 1) as nat);
        match r {
            Err(e) => (Err(e), st, i),
            Ok(values) => match argument_at(instructions, i) {
                None => (Err(RuntimeError::MalformedProgram), st, index_after(instructions, i)),
                Some((register, steal)) => {
                    let (v, after) = read_argument(st, beginning + register, steal);
                    match v {
                        Err(e) => (Err(e), after, i + 1),
                        Ok(x) => (Ok(values.push(x)), after, i + 1),
                    }
                },
            },
        }
    }
}

/// Moving the `count` arguments that the instructions from `index` pass, from the
/// registers that begin at stack position `source`, to the stack from position `target`
/// on: the outcome, the stack after, and the instruction position after. Each argument
/// is read (and taken out, where it is stolen) and then written; the first error ends
/// the moving.
pub open spec fn moved_args(
    instructions: Seq<RuntimeInstruction>,
    index: int,
    source: int,
    target: int,
    stack: Seq<Value>,
    count: nat,
) -> (RuntimeResult<()>, Seq<Value>, int)
    decreases count,
{
    if count == 0 {
        (Ok(()), stack, index)
    } else {
        let (r, st, i) = moved_args(instructions, index, source, target, stack, (count - 1) as nat);
        match r {
            Err(e) => (Err(e), st, i),
            Ok(_) => match argument_at(instructions, i) {
                None => (Err(RuntimeError::MalformedProgram), st, index_after(instructions, i)),
                Some((register, steal)) => {
                    let (v, after) = read_argument(st, source + register, steal);
                    match v {
                        Err(e) => (Err(e), after, i + 1),
                        Ok(x) => {
                            let position = target + count - 1;
                            if position < after.len() {
                                (Ok(()), after.update(position, x), i + 1)
                            } else {
                                (Err(RuntimeError::StackOverflow), after, i + 1)
                            }
                        },
                    }
                },
            },
        }
    }
}

/// Writing `args` to `stack` from position `first` on, in order: the outcome and the
/// stack after; the first position past the stack makes `StackOverflow`.
pub open spec fn written_args(stack: Seq<Value>, first: int, args: Seq<Value>) -> (
    RuntimeResult<()>,
    Seq<Value>,
)
    decreases args.len(),
{
    if args.len() == 0 {
        (Ok(()), stack)
    } else {
        let (r, st) = written_args(stack, first, args.drop_last());
        match r {
            Err(e) => (Err(e), st),
            Ok(_) => {
                let position = first + args.len() - 1;
                if position < st.len() {
                    (Ok(()), st.update(position, args.last()))
                } else {
                    (Err(RuntimeError::StackOverflow), st)
                }
            },
        }
    }
}

/// `r` is the outcome that `spec` describes, with the values taken by their views.
pub open spec fn same_outcome<T>(r: RuntimeResult<Vec<T>>, spec: RuntimeResult<Seq<T>>) -> bool {
    match (r, spec) {
        (Ok(values), Ok(s)) => values@ == s,
        (Err(e), Err(f)) => e == f,
        _ => false,
    }
}

/// Once taking arguments fails, taking more fails the same way.
proof fn lemma_taken_args_error(
    instructions: Seq<RuntimeInstruction>,
    index: int,
    beginning: int,
    stack: Seq<Value>,
    j: nat,
    k: nat,
)
    requires
        j <= k,
        taken_args(instructions, index, beginning, stack, j).0 is Err,
    ensures
        taken_args(instructions, index, beginning, stack, k) == taken_args(
            instructions,
            index,
            beginning,
            stack,
            j,
        ),
    decreases k - j,
{
    if k > j {
        lemma_taken_args_error(instructions, index, beginning, stack, j, (k - 1) as nat);
    }
}

/// Once moving arguments fails, moving more fails the same way.
proof fn lemma_moved_args_error(
    instructions: Seq<RuntimeInstruction>,
    index: int,
    source: int,
    target: int,
    stack: Seq<Value>,
    j: nat,
    k: nat,
)
    requires
        j <= k,
        moved_args(instructions, index, source, target, stack, j).0 is Err,
    ensures
        moved_args(instructions, index, source, target, stack, k) == moved_args(
            instructions,
            index,
            source,
            target,
            stack,
            j,
        ),
    decreases k - j,
{
    if k > j {
        lemma_moved_args_error(instructions, index, source, target, stack, j, (k - 1) as nat);
    }
}

/// Once writing arguments fails, writing more fails the same way.
proof fn lemma_written_args_error(stack: Seq<Value>, first: int, args: Seq<Value>, j: int, k: int)
    requires
        0 <= j <= k <= args.len(),
        written_args(stack, first, args.take(j)).0 is Err,
    ensures
        written_args(stack, first, args.take(k)) == written_args(stack, first, args.take(j)),
    decreases k - j,
{
    if k > j {
        lemma_written_args_error(stack, first, args, j, k - 1);
        assert(args.take(k).drop_last() =~= args.take(k - 1));
    }
}

/// A stack changed at one position alone, to `v`, is the stack updated there.
proof fn lemma_changed_at(before: EvaluationState, after: EvaluationState, index: int, v: Value)
    requires
        0 <= index < before.current_coroutine.stack@.len(),
        before.changes_stack_at(after, index),
        after.current_coroutine.stack@[index] == v,
    ensures
        after.current_coroutine.stack@ == before.current_coroutine.stack@.update(index, v),
{
    assert(after.current_coroutine.stack@ =~= before.current_coroutine.stack@.update(index, v));
}


/// The position of the first `EndIf` of `instructions` at or after `index`, if any.
pub open spec fn endif_after(instructions: Seq<RuntimeInstruction>, index: int) -> Option<int>
    decreases instructions.len() - index,
{
    if index < 0 || index >= instructions.len() {
        None
    } else if instructions[index] is EndIf {
        Some(index)
    } else {
        endif_after(instructions, index + 1)
    }
}

/// Where the running frame of `state` goes on when its `If` is false, scanning from
/// instruction `index`: past the first `Else` or `EndIf`, or past the first `ElseIf`
/// whose condition is true (reading a condition may fail), with the outcome and the
/// position after; past the end of the block, `MalformedProgram` where it stops.
pub open spec fn branch_after(state: EvaluationState, index: int) -> (RuntimeResult<()>, int)
    decreases state.current_frame.block.instructions@.len() - index,
{
    let instructions = state.current_frame.block.instructions@;
    if index < 0 || index >= instructions.len() {
        (Err(RuntimeError::MalformedProgram), index)
    } else {
        match instructions[index] {
            Instruction::Else | Instruction::EndIf => (Ok(()), index + 1),
            Instruction::ElseIf(c) => match state.read(c) {
                Err(e) => (Err(e), index + 1),
                Ok(v) => if crate::runtime::data::spec_truthy(v) {
                    (Ok(()), index + 1)
                } else {
                    branch_after(state, index + 1)
                },
            },
            _ => branch_after(state, index + 1),
        }
    }
}


/// `after` is `before` with `value` written to `register`, and `r` the outcome: where
/// the register lies past the stack, `StackOverflow` and no change.
pub open spec fn wrote_register(
    before: EvaluationState,
    after: EvaluationState,
    register: Register,
    value: Value,
    r: RuntimeResult<()>,
) -> bool {
    if before.holds_register(register) {
        &&& r is Ok
        &&& before.changes_stack_at(after, before.slot(register))
        &&& after.register(register) == value
    } else {
        r == Err::<(), RuntimeError>(RuntimeError::StackOverflow) && after == before
    }
}

/// What calling an external function with its result going to `register` can give,
/// whatever the host answers: its error and no change, or its value written to the
/// register.
pub open spec fn external_call_outcome(
    before: EvaluationState,
    after: EvaluationState,
    register: Register,
    r: RuntimeResult<()>,
) -> bool {
    ||| (r matches Err(RuntimeError::ExternalError(_)) && after == before)
    ||| exists|v: Value| #[trigger] wrote_register(before, after, register, v, r)
}

/// What calling the core function `id` on `args` gives, its result going to `register`
/// (see `call_core_fn`): its error and no change, or its value written to the register,
/// which for `+` on integers is their sum.
pub open spec fn core_call_outcome(
    before: EvaluationState,
    after: EvaluationState,
    id: CoreFnId,
    args: Seq<Value>,
    register: Register,
    r: RuntimeResult<()>,
) -> bool {
    if id != CoreFnId::Add {
        r == Err::<(), RuntimeError>(RuntimeError::NotYetImplemented) && after == before
    } else {
        match first_num_error(args) {
            Some(e) => r == Err::<(), RuntimeError>(e) && after == before,
            None => {
                &&& exists|v: Value| #[trigger] wrote_register(before, after, register, v, r)
                &&& all_ints(args) ==> wrote_register(
                    before,
                    after,
                    register,
                    GenericValue::Number(Num::Int(int_sum(args))),
                    r,
                )
            },
        }
    }
}

/// The frame in which `function` runs when the running frame of `before` calls it: past
/// the running frame's registers, returning to stack position `return_index`.
pub open spec fn frame_for(
    before: EvaluationState,
    function: Rc<CompositeFunction>,
    return_index: int,
) -> StackFrame {
    StackFrame {
        beginning: (before.current_frame.beginning + before.current_frame.block.metadata
            + 1) as usize,
        calling_function: Some(function),
        block: function.block,
        instruction_index: 0,
        return_stack_index: return_index as usize,
    }
}

/// What applying `f` to `args` gives, with the result going to `result`: a function of
/// the language that accepts so many arguments starts in a new frame past the running
/// one's registers, with the arguments written to its first registers; a core or
/// external function writes its result; partial applications, collections and
/// coroutines are not applied yet; any other value cannot be applied.
pub open spec fn apply_outcome(
    before: EvaluationState,
    after: EvaluationState,
    result: Register,
    f: Value,
    args: Seq<Value>,
    r: RuntimeResult<()>,
) -> bool {
    match f {
        GenericValue::CompositeFn(function) => if function.args.count != args.len() {
            r == Err::<(), RuntimeError>(RuntimeError::InvalidArity) && after == before
        } else if !before.holds_register(result) || before.current_frame.beginning
            + before.current_frame.block.metadata + 1 >= before.current_coroutine.stack@.len() {
            r == Err::<(), RuntimeError>(RuntimeError::StackOverflow) && after == before
        } else {
            let written = written_args(
                before.current_coroutine.stack@,
                before.current_frame.beginning + before.current_frame.block.metadata + 1,
                args,
            );
            &&& after.current_frame == frame_for(before, function, before.slot(result))
            &&& after.current_coroutine.paused_frames@
                == before.current_coroutine.paused_frames@.push(before.current_frame)
            &&& after.current_coroutine.stack@ == written.1
            &&& r == written.0
            &&& after.parent_coroutine_stack == before.parent_coroutine_stack
            &&& after.coroutines == before.coroutines
            &&& after.global_bindings == before.global_bindings
        },
        GenericValue::CoreFn(id) => core_call_outcome(before, after, id, args, result, r),
        GenericValue::ExternalFn(_) => external_call_outcome(before, after, result, r),
        GenericValue::PartialApplication(_) | GenericValue::List(_) | GenericValue::Hashmap(_)
        | GenericValue::Hashset(_) | GenericValue::Coroutine(_) => r == Err::<(), RuntimeError>(
            RuntimeError::NotYetImplemented,
        ) && after == before,
        _ => r == Err::<(), RuntimeError>(RuntimeError::CantApply(f)) && after == before,
    }
}


/// What ending the running frame of `before` and calling `f` in its place gives, with
/// `count` arguments (for `CallAndReturn` and `CallSelfAndReturn`, where a frame waits
/// under the running one): a function of the language runs in a frame at the same place
/// of the stack, returning where the ended frame would have returned, with the
/// arguments moved to its first registers (see `moved_args`); core functions cannot be
/// called so, and other values are not yet or cannot be.
pub open spec fn tail_call_outcome(
    before: EvaluationState,
    after: EvaluationState,
    f: Value,
    count: u8,
    r: RuntimeResult<()>,
) -> bool {
    match f {
        GenericValue::CompositeFn(function) => {
            let moved = moved_args(
                before.current_frame.block.instructions@,
                before.current_frame.instruction_index as int,
                before.current_frame.beginning as int,
                before.current_frame.beginning as int,
                before.current_coroutine.stack@,
                count as nat,
            );
            &&& r == moved.0
            &&& after.current_coroutine.stack@ == moved.1
            &&& after.parent_coroutine_stack == before.parent_coroutine_stack
            &&& after.coroutines == before.coroutines
            &&& after.global_bindings == before.global_bindings
            &&& r is Ok ==> {
                &&& after.current_frame == StackFrame {
                    beginning: before.current_frame.beginning,
                    calling_function: Some(function),
                    block: function.block,
                    instruction_index: 0,
                    return_stack_index: before.current_frame.return_stack_index,
                }
                &&& after.current_coroutine.paused_frames@ == before.current_coroutine.paused_frames@
            }
        },
        GenericValue::CoreFn(_) => r == Err::<(), RuntimeError>(RuntimeError::MalformedProgram),
        GenericValue::ExternalFn(_) | GenericValue::PartialApplication(_)
        | GenericValue::Coroutine(_) | GenericValue::List(_) | GenericValue::Hashmap(_)
        | GenericValue::Hashset(_) => r == Err::<(), RuntimeError>(RuntimeError::NotYetImplemented),
        _ => r == Err::<(), RuntimeError>(RuntimeError::CantApply(f)),
    }
}


/// `after` is `before` once the running frame has taken `count` arguments (see
/// `taken_args`): the stack and the frame's position as taking leaves them.
pub open spec fn took_args(before: EvaluationState, after: EvaluationState, count: u8) -> bool {
    let taken = taken_args(
        before.current_frame.block.instructions@,
        before.current_frame.instruction_index as int,
        before.current_frame.beginning as int,
        before.current_coroutine.stack@,
        count as nat,
    );
    &&& after.current_coroutine.stack@ == taken.1
    &&& after.current_frame == StackFrame {
        instruction_index: taken.2 as usize,
        ..before.current_frame
    }
    &&& after.current_coroutine.paused_frames == before.current_coroutine.paused_frames
    &&& after.parent_coroutine_stack == before.parent_coroutine_stack
    &&& after.coroutines == before.coroutines
    &&& after.global_bindings == before.global_bindings
}

/// `after` is `before` with entry `id` of the table of coroutines emptied.
pub open spec fn emptied_entry(before: EvaluationState, after: EvaluationState, id: usize) -> bool {
    &&& after.coroutines@ == before.coroutines@.update(id as int, None)
    &&& after.current_frame == before.current_frame
    &&& after.current_coroutine == before.current_coroutine
    &&& after.parent_coroutine_stack == before.parent_coroutine_stack
    &&& after.global_bindings == before.global_bindings
}

/// What `Call(target, _, count)` gives when the called register holds `v`, apart from
/// what the calls and resumptions of `calls` and `resumes_coroutine` say: a function of
/// the language starts where the registers fit, with its arguments moved; a core,
/// external or partially applied function takes its arguments and gives its result (see
/// `core_call_outcome`, `external_call_outcome`, `apply_outcome`); a coroutine that
/// waits and accepts so many arguments, whose top frame has room for them, is resumed
/// once its arguments are taken and the target lies in the stack; anything else fails.
pub open spec fn call_outcome(
    before: EvaluationState,
    after: EvaluationState,
    target: Register,
    v: Value,
    count: u8,
    r: RuntimeResult<()>,
) -> bool {
    let taken = taken_args(
        before.current_frame.block.instructions@,
        before.current_frame.instruction_index as int,
        before.current_frame.beginning as int,
        before.current_coroutine.stack@,
        count as nat,
    );
    match v {
        GenericValue::CompositeFn(function) => if !before.holds_register(target)
            || before.current_frame.beginning + before.current_frame.block.metadata + 1
            >= before.current_coroutine.stack@.len() {
            r == Err::<(), RuntimeError>(RuntimeError::StackOverflow) && after == before
        } else {
            let moved = moved_args(
                before.current_frame.block.instructions@,
                before.current_frame.instruction_index as int,
                before.current_frame.beginning as int,
                before.current_frame.beginning + before.current_frame.block.metadata + 1,
                before.current_coroutine.stack@,
                count as nat,
            );
            &&& r == moved.0
            &&& after.current_coroutine.stack@ == moved.1
            &&& r is Err ==> after.current_frame == StackFrame {
                instruction_index: moved.2 as usize,
                ..before.current_frame
            } && after.current_coroutine.paused_frames == before.current_coroutine.paused_frames
        },
        GenericValue::CoreFn(_) | GenericValue::ExternalFn(_) | GenericValue::PartialApplication(
            _,
        ) => match taken.0 {
            Err(e) => r == Err::<(), RuntimeError>(e) && took_args(before, after, count),
            Ok(args) => exists|middle: EvaluationState|
                #[trigger] took_args(before, middle, count) && match v {
                    GenericValue::CoreFn(id) => core_call_outcome(middle, after, id, args, target, r),
                    GenericValue::ExternalFn(_) => external_call_outcome(middle, after, target, r),
                    GenericValue::PartialApplication(partial) => apply_outcome(
                        middle,
                        after,
                        target,
                        partial.0,
                        partial.1@ + args,
                        r,
                    ),
                    _ => false,
                },
        },
        GenericValue::Coroutine(Some(id)) => if id >= before.coroutines@.len() {
            r == Err::<(), RuntimeError>(RuntimeError::MalformedProgram) && after == before
        } else {
            match before.coroutines@[id as int] {
                None => r == Err::<(), RuntimeError>(RuntimeError::CoroutineAlreadyRunning)
                    && emptied_entry(before, after, id),
                Some(coroutine) => if coroutine.args.count != count {
                    r == Err::<(), RuntimeError>(RuntimeError::InvalidArity) && emptied_entry(
                        before,
                        after,
                        id,
                    )
                } else if coroutine.state.paused_frames@.len() == 0 {
                    r == Err::<(), RuntimeError>(RuntimeError::MalformedProgram) && emptied_entry(
                        before,
                        after,
                        id,
                    )
                } else if coroutine.state.paused_frames@.last().beginning + coroutine.arg_offset
                    + count > coroutine.state.stack@.len() {
                    r == Err::<(), RuntimeError>(RuntimeError::StackOverflow) && emptied_entry(
                        before,
                        after,
                        id,
                    )
                } else {
                    match taken.0 {
                        Err(e) => r == Err::<(), RuntimeError>(e),
                        Ok(_) => if before.holds_register(target) {
                            r is Ok
                        } else {
                            r == Err::<(), RuntimeError>(RuntimeError::StackOverflow)
                        },
                    }
                },
            }
        },
        GenericValue::Coroutine(None) => r == Err::<(), RuntimeError>(
            RuntimeError::DeadCoroutine,
        ) && after == before,
        GenericValue::List(_) | GenericValue::Hashmap(_) | GenericValue::Hashset(_) => r == Err::<
            (),
            RuntimeError,
        >(RuntimeError::NotYetImplemented) && after == before,
        _ => r == Err::<(), RuntimeError>(RuntimeError::CantApply(v)) && after == before,
    }
}

/// Whether `result` can be what the one-operand numeric instruction `instruction` gives
/// for `n`: the integer cases exactly, a float wherever the host computes one.
pub open spec fn unary_numeric_fits(instruction: RuntimeInstruction, n: Num, result: Num) -> bool {
    match instruction {
        Instruction::Inc(_, _) => match n {
            Num::Int(i) => result == Num::Int(vstd::wrapping::i64_specs::wrapping_add(i, 1)),
            Num::Float(_) => result is Float,
        },
        Instruction::Dec(_, _) => match n {
            Num::Int(i) => result == Num::Int(vstd::wrapping::i64_specs::wrapping_sub(i, 1)),
            Num::Float(_) => result is Float,
        },
        Instruction::Negate(_, _) => match n {
            Num::Int(i) => result == Num::Int(wrapped_negation(i)),
            Num::Float(f) => result == Num::Float(f ^ FLOAT_SIGN),
        },
        Instruction::Abs(_, _) => match n {
            Num::Int(i) => result == Num::Int(wrapped_abs(i)),
            Num::Float(f) => result == Num::Float(f & !FLOAT_SIGN),
        },
        Instruction::Floor(_, _) | Instruction::Ceil(_, _) => match n {
            Num::Int(i) => result == Num::Int(i),
            Num::Float(_) => result is Int,
        },
        _ => result is Float,
    }
}

/// Whether `result` can be what the two-operand numeric instruction `instruction` gives
/// for `x` and `y`: two integers add, subtract and multiply exactly with wrapping, and
/// everything else is a float that the host computes.
pub open spec fn binary_numeric_fits(instruction: RuntimeInstruction, x: Num, y: Num, result: Num) -> bool {
    match (instruction, x, y) {
        (Instruction::Add(_, _, _), Num::Int(a), Num::Int(b)) => result == Num::Int(
            vstd::wrapping::i64_specs::wrapping_add(a, b),
        ),
        (Instruction::Subtract(_, _, _), Num::Int(a), Num::Int(b)) => result == Num::Int(
            vstd::wrapping::i64_specs::wrapping_sub(a, b),
        ),
        (Instruction::Multiply(_, _, _), Num::Int(a), Num::Int(b)) => result == Num::Int(
            vstd::wrapping::i64_specs::wrapping_mul(a, b),
        ),
        _ => result is Float,
    }
}

/// Whether the run ended in error `e` with nothing changed.
pub open spec fn failed_unchanged(
    before: EvaluationState,
    after: EvaluationState,
    e: RuntimeError,
    r: RuntimeResult<()>,
) -> bool {
    r == Err::<(), RuntimeError>(e) && after == before
}

/// Whether `register` was set to a value of which `fits` holds (or, where it lies past
/// the stack, `StackOverflow` and no change).
pub open spec fn wrote_fitting(
    before: EvaluationState,
    after: EvaluationState,
    register: Register,
    r: RuntimeResult<()>,
    fits: spec_fn(Value) -> bool,
) -> bool {
    &&& wrote_register(before, after, register, after.register(register), r)
    &&& before.holds_register(register) ==> fits(after.register(register))
}

/// What a numeric instruction does. Parity: an integer gives whether it is even, or
/// (by Rust's remainder, so never for a negative number) odd; a float is either refused as no integer (always where it
/// is a NaN) or gives some boolean; anything else is no number. Numerical equality of
/// two numbers gives a boolean, that of two integers exact. The others read their
/// operands in order, each cast to a number, and write a number of which
/// `unary_numeric_fits` or `binary_numeric_fits` holds. An instruction of another kind
/// is a malformed program. Every error leaves the state unchanged.
pub open spec fn numeric_outcome(
    before: EvaluationState,
    after: EvaluationState,
    instruction: RuntimeInstruction,
    r: RuntimeResult<()>,
) -> bool {
    match instruction {
        Instruction::IsEven(t, s) | Instruction::IsOdd(t, s) => match before.read(s) {
            Err(e) => failed_unchanged(before, after, e, r),
            Ok(GenericValue::Number(Num::Int(i))) => wrote_register(
                before,
                after,
                t,
                GenericValue::Bool(
                    if instruction is IsEven {
                        int_is_even(i)
                    } else {
                        int_is_odd(i)
                    },
                ),
                r,
            ),
            Ok(GenericValue::Number(Num::Float(f))) => if float_is_nan(f) {
                failed_unchanged(before, after, RuntimeError::ArgumentNotInt, r)
            } else {
                failed_unchanged(before, after, RuntimeError::ArgumentNotInt, r) || wrote_fitting(
                    before,
                    after,
                    t,
                    r,
                    |v: Value| v is Bool,
                )
            },
            Ok(_) => failed_unchanged(before, after, RuntimeError::ArgumentNotNum, r),
        },
        Instruction::NumericalEqual(t, a, b) => match (before.read(a), before.read(b)) {
            (Err(e), _) => failed_unchanged(before, after, e, r),
            (Ok(_), Err(e)) => failed_unchanged(before, after, e, r),
            (Ok(GenericValue::Number(x)), Ok(GenericValue::Number(y))) => wrote_fitting(
                before,
                after,
                t,
                r,
                |v: Value|
                    v is Bool && ((x, y) matches (Num::Int(p), Num::Int(q)) ==> v == GenericValue::<
                        u8,
                        u8,
                        u8,
                        u8,
                    >::Bool(p == q)),
            ),
            _ => failed_unchanged(before, after, RuntimeError::ArgumentNotNum, r),
        },
        Instruction::Inc(t, s) | Instruction::Dec(t, s) | Instruction::Negate(t, s)
        | Instruction::Abs(t, s) | Instruction::Floor(t, s) | Instruction::Ceil(t, s)
        | Instruction::Sqrt(t, s) | Instruction::Exp(t, s) | Instruction::Exp2(t, s)
        | Instruction::Ln(t, s) | Instruction::Log2(t, s) => match before.read(s) {
            Err(e) => failed_unchanged(before, after, e, r),
            Ok(v) => match num_of(v) {
                Err(e) => failed_unchanged(before, after, e, r),
                Ok(n) => wrote_fitting(
                    before,
                    after,
                    t,
                    r,
                    |w: Value| w matches GenericValue::Number(m) && unary_numeric_fits(instruction, n, m),
                ),
            },
        },
        Instruction::Add(t, a, b) | Instruction::Subtract(t, a, b)
        | Instruction::Multiply(t, a, b) | Instruction::Divide(t, a, b) => match before.read(a) {
            Err(e) => failed_unchanged(before, after, e, r),
            Ok(va) => match num_of(va) {
                Err(e) => failed_unchanged(before, after, e, r),
                Ok(x) => match before.read(b) {
                    Err(e) => failed_unchanged(before, after, e, r),
                    Ok(vb) => match num_of(vb) {
                        Err(e) => failed_unchanged(before, after, e, r),
                        Ok(y) => wrote_fitting(
                            before,
                            after,
                            t,
                            r,
                            |w: Value| w matches GenericValue::Number(m) && binary_numeric_fits(instruction, x, y, m),
                        ),
                    },
                },
            },
        },
        _ => failed_unchanged(before, after, RuntimeError::MalformedProgram, r),
    }
}

/// What `If(condition)` does once it is the running instruction: a read error and no
/// change; a true condition goes on; a false one jumps past the next `Else`, true `ElseIf`
/// or `EndIf` (see `branch_after`). Only the running frame's position changes.
pub open spec fn if_outcome(
    before: EvaluationState,
    after: EvaluationState,
    condition: Register,
    r: RuntimeResult<()>,
) -> bool {
    &&& (after.current_coroutine == before.current_coroutine)
    &&& (after.parent_coroutine_stack == before.parent_coroutine_stack)
    &&& (after.coroutines == before.coroutines)
    &&& (after.global_bindings == before.global_bindings)
    &&& (after.current_frame.block == before.current_frame.block)
    &&& (after.current_frame.beginning == before.current_frame.beginning)
    &&& (after.current_frame.calling_function == before.current_frame.calling_function)
    &&& (after.current_frame.return_stack_index == before.current_frame.return_stack_index)
    &&& (before.read(condition) matches Ok(v) && crate::runtime::data::spec_truthy(v)
        ==> r is Ok && after == before)
    &&& (before.read(condition) matches Err(e) ==> r == Err::<(), RuntimeError>(e)
        && after == before)
    &&& (before.read(condition) matches Ok(v) && !crate::runtime::data::spec_truthy(v) ==> {
        &&& r == branch_after(before, before.current_frame.instruction_index as int).0
        &&& after.current_frame.instruction_index == branch_after(
            before,
            before.current_frame.instruction_index as int,
        ).1
    })
}

/// What `Else` or `ElseIf` does once it is the running instruction: the branch before it
/// was taken, so the frame goes on past the matching `EndIf` (see `endif_after`);
/// `MalformedProgram` where there is none.
pub open spec fn skip_outcome(
    before: EvaluationState,
    after: EvaluationState,
    r: RuntimeResult<()>,
) -> bool {
    &&& (after.current_coroutine == before.current_coroutine)
    &&& (after.parent_coroutine_stack == before.parent_coroutine_stack)
    &&& (after.coroutines == before.coroutines)
    &&& (after.global_bindings == before.global_bindings)
    &&& (after.current_frame.block == before.current_frame.block)
    &&& (after.current_frame.beginning == before.current_frame.beginning)
    &&& (after.current_frame.calling_function == before.current_frame.calling_function)
    &&& (after.current_frame.return_stack_index == before.current_frame.return_stack_index)
    &&& (match endif_after(
        before.current_frame.block.instructions@,
        before.current_frame.instruction_index as int,
    ) {
        Some(k) => r is Ok && after.current_frame.instruction_index == k + 1,
        None => r == Err::<(), RuntimeError>(RuntimeError::MalformedProgram)
            && after.current_frame.instruction_index == if before.current_frame.instruction_index < before.current_frame.block.instructions@.len() {
            before.current_frame.block.instructions@.len() as int
        } else {
            before.current_frame.instruction_index as int
        },
    })
}

/// What `CallAndReturn(f, count)` does: a read error and no change; `MalformedProgram`
/// from the root frame of the root coroutine; otherwise the tail call of
/// `tail_call_outcome`.
pub open spec fn tail_call_instruction_outcome(
    before: EvaluationState,
    after: EvaluationState,
    f: Register,
    count: u8,
    r: RuntimeResult<()>,
) -> bool {
    &&& (before.read(f) matches Err(e) ==> r == Err::<(), RuntimeError>(e) && after
        == before)
    &&& (before.read(f) is Ok && before.current_coroutine.paused_frames@.len() == 0
        && before.parent_coroutine_stack@.len() == 0 ==> r == Err::<(), RuntimeError>(
        RuntimeError::MalformedProgram,
    ) && after == before)
    &&& (before.read(f) matches Ok(v) ==> (before.current_coroutine.paused_frames@.len()
        > 0 ==> tail_call_outcome(before, after, v, count, r)))
}

/// What `CallSelfAndReturn(count)` does: `MalformedProgram` outside a function or from
/// the root frame of the root coroutine; otherwise the tail call of the running function
/// (see `tail_call_outcome`).
pub open spec fn self_tail_call_outcome(
    before: EvaluationState,
    after: EvaluationState,
    count: u8,
    r: RuntimeResult<()>,
) -> bool {
    &&& (before.current_frame.calling_function is None ==> r == Err::<(), RuntimeError>(
        RuntimeError::MalformedProgram,
    ) && after == before)
    &&& (before.current_frame.calling_function is Some
        && before.current_coroutine.paused_frames@.len() == 0
        && before.parent_coroutine_stack@.len() == 0 ==> r == Err::<(), RuntimeError>(
        RuntimeError::MalformedProgram,
    ) && after == before)
    &&& (before.current_frame.calling_function matches Some(function) ==> (before.current_coroutine.paused_frames@.len() > 0 ==> tail_call_outcome(
        before,
        after,
        GenericValue::CompositeFn(function),
        count,
        r,
    )))
}

/// What `CreateCoroutine(register)` does: a function in the register becomes a new
/// coroutine of the table, referred to from the register; anything else is refused, and
/// the register left `nil`.
pub open spec fn create_coroutine_outcome(
    before: EvaluationState,
    after: EvaluationState,
    register: Register,
    r: RuntimeResult<()>,
) -> bool {
    &&& (!before.holds_register(register) ==> r == Err::<(), RuntimeError>(
        RuntimeError::StackOverflow,
    ) && after == before)
    &&& (before.holds_register(register) ==> {
        &&& after.current_frame == before.current_frame
        &&& after.current_coroutine.paused_frames == before.current_coroutine.paused_frames
        &&& after.parent_coroutine_stack == before.parent_coroutine_stack
        &&& after.global_bindings == before.global_bindings
        &&& match before.register(register) {
            GenericValue::CompositeFn(function) => {
                &&& r is Ok
                &&& after.current_coroutine.stack@ == before.current_coroutine.stack@.update(
                    before.slot(register),
                    GenericValue::Coroutine(Some(before.coroutines@.len() as usize)),
                )
                &&& after.coroutines@.len() == before.coroutines@.len() + 1
                &&& after.coroutines@.drop_last() == before.coroutines@
                &&& after.coroutines@.last() matches Some(paused) && !paused.started
                    && paused.args == function.args && paused.state.paused_frames@.len()
                    == 1 && paused.state.paused_frames@[0].block == function.block
            },
            _ => {
                &&& r matches Err(RuntimeError::CantCreateCoroutine(_))
                &&& after.current_coroutine.stack@ == before.current_coroutine.stack@.update(before.slot(register), GenericValue::Nil)
                &&& after.coroutines == before.coroutines
            },
        }
    })
}

/// What `Call(target, f, count)` does: a read error and no change; otherwise what
/// `call_outcome` says of the value in `f`, a function called or a coroutine resumed.
pub open spec fn call_instruction_outcome(
    before: EvaluationState,
    after: EvaluationState,
    target: Register,
    f: Register,
    count: u8,
    r: RuntimeResult<()>,
) -> bool {
    &&& (before.read(f) matches Ok(GenericValue::CompositeFn(function)) ==> r is Ok ==> before.calls(after, function, target, count))
    &&& (before.read(f) matches Ok(GenericValue::CompositeFn(_))
        ==> after.parent_coroutine_stack == before.parent_coroutine_stack)
    &&& (before.read(f) matches Ok(GenericValue::Coroutine(Some(id))) ==> (id
        < before.coroutines@.len() ==> (before.coroutines@[id as int] matches Some(
        coroutine,
    ) ==> (r is Ok ==> before.resumes_coroutine(
        after,
        coroutine,
        id,
        f,
        target,
        count,
    )))))
    &&& (before.read(f) matches Ok(GenericValue::Coroutine(_)) ==> r is Err
        ==> after.parent_coroutine_stack == before.parent_coroutine_stack)
    &&& (before.read(f) matches Err(e) ==> r == Err::<(), RuntimeError>(e) && after
        == before)
    &&& (before.read(f) matches Ok(v) ==> call_outcome(before, after, target, v, count, r))
}

/// What an instruction that is no register instruction does once it is the running
/// instruction (the frame already past it): jumps, branches, calls (of a value, of the
/// running function, and of a value or the running function on a list of arguments),
/// tail calls, returns, coroutines created, yielded to, resumed and finished, and the
/// instructions on numbers. What printing shows is not described.
pub open spec fn control_outcome(
    before: EvaluationState,
    after: EvaluationState,
    instruction: RuntimeInstruction,
    r: RuntimeResult<Option<Value>>,
) -> bool {
    &&& (instruction matches Instruction::Jump(j) ==> {
        &&& r == Ok::<Option<Value>, RuntimeError>(None)
        &&& after.current_frame == StackFrame {
            instruction_index: j as usize,
            ..before.current_frame
        }
        &&& after.current_coroutine == before.current_coroutine
        &&& after.parent_coroutine_stack == before.parent_coroutine_stack
        &&& after.coroutines == before.coroutines
        &&& after.global_bindings == before.global_bindings
    })
    &&& (instruction matches Instruction::Return(v) ==> {
        before.holds_register(v) && before.current_coroutine.paused_frames@.len() == 0
            && before.parent_coroutine_stack@.len() == 0 ==> r == Ok::<
            Option<Value>,
            RuntimeError,
        >(Some(before.register(v)))
    })
    &&& (instruction matches Instruction::Return(v) ==> {
        before.holds_register(v) && before.current_coroutine.paused_frames@.len() > 0
            && before.current_frame.return_stack_index
            < before.current_coroutine.stack@.len() ==> before.returns_to_caller(
            after,
            v,
        ) && r == Ok::<Option<Value>, RuntimeError>(None)
    })
    &&& (instruction matches Instruction::Return(_) ==> {
        before.current_coroutine.paused_frames@.len() > 0
            ==> after.parent_coroutine_stack == before.parent_coroutine_stack
    })
    &&& (instruction matches Instruction::Return(v) ==> {
        before.holds_register(v) && before.current_coroutine.paused_frames@.len() == 0
            && before.can_finish() ==> r == Ok::<Option<Value>, RuntimeError>(None)
            && before.finishes_coroutine(after, before.register(v))
    })
    &&& (instruction matches Instruction::Yield(v) ==> {
        before.holds_register(v) && before.can_yield() ==> r == Ok::<
            Option<Value>,
            RuntimeError,
        >(None) && before.yields_to_parent(after, before.register(v), None)
    })
    &&& (instruction matches Instruction::YieldAndAccept(v, count, first) ==> {
        before.holds_register(v) && before.can_yield() ==> r == Ok::<
            Option<Value>,
            RuntimeError,
        >(None) && before.yields_to_parent(
            after,
            before.register(v),
            Some((AritySpecifier { count }, first)),
        )
    })
    &&& (instruction matches Instruction::If(c) ==> no_value(r) && if_outcome(before, after, c, unit_of(r)))
    &&& (instruction is Else || instruction is ElseIf ==> no_value(r) && skip_outcome(before, after, unit_of(r)))
    &&& (instruction matches Instruction::Call(t, f, count) ==> no_value(r) && call_instruction_outcome(
        before,
        after,
        t,
        f,
        count,
        unit_of(r),
    ))
    &&& (instruction matches Instruction::Apply(a, f) ==> no_value(r) && match before.read(f) {
        Err(e) => r == Err::<Option<Value>, RuntimeError>(e) && after == before,
        Ok(function) => if !before.holds_register(a) {
            r == Err::<Option<Value>, RuntimeError>(RuntimeError::StackOverflow) && after == before
        } else {
            exists|mid: EvaluationState|
                #![trigger before.changes_stack_at(mid, before.slot(a))]
                {
                    &&& before.changes_stack_at(mid, before.slot(a))
                    &&& mid.register(a) is Nil
                    &&& match before.register(a) {
                        GenericValue::List(l) => apply_outcome(mid, after, a, function, l@, unit_of(r)),
                        _ => r == Err::<Option<Value>, RuntimeError>(RuntimeError::MalformedProgram)
                            && after == mid,
                    }
                }
        },
    })
    &&& (instruction is DebugPrint ==> r == Ok::<Option<Value>, RuntimeError>(None) && after == before)
    &&& (instruction matches Instruction::Print(v) ==> after == before && r == match before.read(v) {
        Ok(_) => Ok::<Option<Value>, RuntimeError>(None),
        Err(e) => Err(e),
    })
    &&& (instruction matches Instruction::ApplySelf(a) ==> no_value(r) && if !before.holds_register(a) {
        r == Err::<Option<Value>, RuntimeError>(RuntimeError::StackOverflow) && after == before
    } else {
        exists|mid: EvaluationState|
            #![trigger before.changes_stack_at(mid, before.slot(a))]
            {
                &&& before.changes_stack_at(mid, before.slot(a))
                &&& mid.register(a) is Nil
                &&& match before.register(a) {
                    GenericValue::List(l) => applies_self(mid, after, a, l@, unit_of(r)),
                    _ => r == Err::<Option<Value>, RuntimeError>(RuntimeError::MalformedProgram)
                        && after == mid,
                }
            }
    })
    &&& (instruction matches Instruction::CallSelf(t, count) ==> no_value(r) && match before.current_frame.calling_function {
        None => r == Err::<Option<Value>, RuntimeError>(RuntimeError::MalformedProgram) && after
            == before,
        Some(function) => call_outcome(
            before,
            after,
            t,
            GenericValue::CompositeFn(function),
            count,
            unit_of(r),
        ),
    })
    &&& (instruction matches Instruction::CallAndReturn(f, count) ==> no_value(r)
        && tail_call_instruction_outcome(before, after, f, count, unit_of(r)))
    &&& (instruction matches Instruction::CallSelfAndReturn(count) ==> no_value(r)
        && self_tail_call_outcome(before, after, count, unit_of(r)))
    &&& (instruction matches Instruction::CreateCoroutine(register) ==> no_value(r)
        && create_coroutine_outcome(before, after, register, unit_of(r)))
    &&& (instruction is CopyArgument || instruction is StealArgument ==> r == Err::<
        Option<Value>,
        RuntimeError,
    >(RuntimeError::MalformedProgram) && after == before)
    &&& (!is_control_instruction(instruction) ==> no_value(r) && numeric_outcome(
        before,
        after,
        instruction,
        unit_of(r),
    ))
}

/// The instructions that `run_control` handles itself rather than as instructions on
/// numbers.
pub open spec fn is_control_instruction(instruction: RuntimeInstruction) -> bool {
    ||| instruction is DebugPrint
    ||| instruction is Print
    ||| instruction is Return
    ||| instruction is CopyArgument
    ||| instruction is StealArgument
    ||| instruction is Call
    ||| instruction is Apply
    ||| instruction is CallSelf
    ||| instruction is ApplySelf
    ||| instruction is CallAndReturn
    ||| instruction is CallSelfAndReturn
    ||| instruction is Jump
    ||| instruction is If
    ||| instruction is Else
    ||| instruction is ElseIf
    ||| instruction is CreateCoroutine
    ||| instruction is Yield
    ||| instruction is YieldAndAccept
}

/// Whether a result carries no value.
pub open spec fn no_value(r: RuntimeResult<Option<Value>>) -> bool {
    r matches Ok(v) ==> v is None
}

/// A result with its value dropped.
pub open spec fn unit_of(r: RuntimeResult<Option<Value>>) -> RuntimeResult<()> {
    match r {
        Ok(_) => Ok(()),
        Err(e) => Err(e),
    }
}

/// What an instruction does once it is the running instruction (the frame already past
/// it): the effect of a register instruction, or else what `control_outcome` says.
pub open spec fn instruction_relation(
    before: EvaluationState,
    after: EvaluationState,
    instruction: RuntimeInstruction,
    r: RuntimeResult<Option<Value>>,
) -> bool {
    match before.register_effect(instruction) {
        Some(effect) => before.applies(effect, after, r),
        None => control_outcome(before, after, instruction, r),
    }
}

/// The value that stands for `error`.
pub open spec fn error_value(error: RuntimeError) -> Value {
    GenericValue::Error(Rc::new(error))
}

/// How a step that left the state `mid` with `result` ends in `after` with `r`: a value
/// or none as it is; an error outside coroutines as it is; an error inside a coroutine
/// given to the coroutine's caller, which the coroutine can do where it has one.
pub open spec fn step_ends(
    mid: EvaluationState,
    after: EvaluationState,
    result: RuntimeResult<Option<Value>>,
    r: Option<RuntimeResult<Option<Value>>>,
) -> bool {
    match result {
        Ok(v) => r == Some(Ok::<Option<Value>, RuntimeError>(v)) && after == mid,
        Err(e) => if mid.parent_coroutine_stack@.len() == 0 {
            r == Some(Err::<Option<Value>, RuntimeError>(e)) && after == mid
        } else {
            mid.can_yield() ==> r == Some(Ok::<Option<Value>, RuntimeError>(None))
                && mid.dies_yielding(after, error_value(e))
        },
    }
}

/// What applying the running function to `args` gives, with the result going to
/// `result` (for `ApplySelf`): `MalformedProgram` outside a function; `StackOverflow`
/// where a new frame would begin past the stack; otherwise the function starts in a new
/// frame past the running one's registers, with the arguments written to its first
/// registers (see `written_args`).
pub open spec fn applies_self(
    before: EvaluationState,
    after: EvaluationState,
    result: Register,
    args: Seq<Value>,
    r: RuntimeResult<()>,
) -> bool {
    match before.current_frame.calling_function {
        None => r == Err::<(), RuntimeError>(RuntimeError::MalformedProgram) && after == before,
        Some(function) => if !before.holds_register(result) || before.current_frame.beginning
            + before.current_frame.block.metadata + 1 >= before.current_coroutine.stack@.len() {
            r == Err::<(), RuntimeError>(RuntimeError::StackOverflow) && after == before
        } else {
            let written = written_args(
                before.current_coroutine.stack@,
                before.current_frame.beginning + before.current_frame.block.metadata + 1,
                args,
            );
            &&& after.current_frame == frame_for(before, function, before.slot(result))
            &&& after.current_coroutine.paused_frames@
                == before.current_coroutine.paused_frames@.push(before.current_frame)
            &&& after.current_coroutine.stack@ == written.1
            &&& r == written.0
            &&& after.parent_coroutine_stack == before.parent_coroutine_stack
            &&& after.coroutines == before.coroutines
            &&& after.global_bindings == before.global_bindings
        },
    }
}

} // verus!
