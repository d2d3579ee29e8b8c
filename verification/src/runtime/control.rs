use std::rc::Rc;
use vstd::prelude::*;
use crate::blocks::{all_have_usages, GenericBlock};
use crate::compiler::transformations::register_allocation::{
    get_max_register, spec_max_register, Block, Register, RuntimeInstruction,
};
use crate::runtime::data::{AritySpecifier, Value};
use crate::sharing::rc_clone;

verus! {

/// How many values a coroutine's stack holds.
pub const STACK_CAPACITY: usize = 1000;

/// A position in a coroutine's stack.
pub type StackIndex = usize;

/// A function written in the language: how many arguments it takes, and its block of
/// instructions, whose first registers hold the arguments.
#[derive(Debug)]
pub struct GenericCompositeFunction<I, O, R, M> {
    pub args: AritySpecifier,
    pub block: GenericBlock<I, O, R, M>,
}

impl<I, O, R, M> GenericCompositeFunction<I, O, R, M> {
    /// A function of `args` arguments running `block`.
    pub fn new(args: AritySpecifier, block: GenericBlock<I, O, R, M>) -> (f: Self)
        ensures
            f.args == args,
            f.block == block,
    {
        GenericCompositeFunction { args, block }
    }
}

/// A function of a running program.
pub type CompositeFunction = GenericCompositeFunction<Register, Register, Register, Register>;

impl GenericBlock<Register, Register, Register, Register> {
    /// The block of bytecode `instructions` with `constants`, whose metadata is the
    /// largest register it uses.
    pub fn new(instructions: Vec<RuntimeInstruction>, constants: Vec<Value>) -> (block: Block)
        requires
            all_have_usages(instructions@),
        ensures
            block.instructions@ == instructions@,
            block.constants@ == constants@,
            block.metadata == spec_max_register(instructions@),
    {
        let max_register = get_max_register(&instructions);
        GenericBlock::new_with_metadata(instructions, constants, max_register)
    }

    /// Another handle on the same block: its instructions and constants are shared.
    pub fn share(&self) -> (b: Block)
        ensures
            b == *self,
    {
        GenericBlock {
            instructions: rc_clone(&self.instructions),
            constants: rc_clone(&self.constants),
            metadata: self.metadata,
        }
    }
}

/// A function call in progress: where its registers start in the stack, the function
/// (none for the program's root block), the block, the next instruction, and where its
/// result goes.
#[derive(Debug)]
pub struct StackFrame {
    pub beginning: StackIndex,
    pub calling_function: Option<Rc<CompositeFunction>>,
    pub block: Block,
    pub instruction_index: usize,
    pub return_stack_index: StackIndex,
}

impl StackFrame {
    /// The frame that runs a program's root block.
    pub fn root(block: Block) -> (frame: StackFrame)
        ensures
            frame.beginning == 0,
            frame.calling_function is None,
            frame.block == block,
            frame.instruction_index == 0,
            frame.return_stack_index == 0,
    {
        StackFrame {
            beginning: 0,
            calling_function: None,
            block,
            instruction_index: 0,
            return_stack_index: 0,
        }
    }

    /// The frame that runs function `f`, with registers from `beginning` on, whose result
    /// goes to `return_stack_index`.
    pub fn for_fn(f: Rc<CompositeFunction>, beginning: StackIndex, return_stack_index: StackIndex) -> (frame:
        StackFrame)
        ensures
            frame.beginning == beginning,
            frame.calling_function == Some(f),
            frame.block == f.block,
            frame.instruction_index == 0,
            frame.return_stack_index == return_stack_index,
    {
        let block = f.block.share();
        StackFrame {
            beginning,
            block,
            instruction_index: 0,
            calling_function: Some(f),
            return_stack_index,
        }
    }

    /// The next instruction, if the block has one, and the position past it.
    pub fn next_instruction(&mut self) -> (instruction: Option<RuntimeInstruction>)
        ensures
            final(self).beginning == old(self).beginning,
            final(self).calling_function == old(self).calling_function,
            final(self).block == old(self).block,
            final(self).return_stack_index == old(self).return_stack_index,
            old(self).instruction_index < old(self).block.instructions@.len() ==> {
                &&& instruction == Some(old(self).block.instructions@[old(self).instruction_index as int])
                &&& final(self).instruction_index == old(self).instruction_index + 1
            },
            old(self).instruction_index >= old(self).block.instructions@.len() ==> {
                &&& instruction is None
                &&& final(self).instruction_index == old(self).instruction_index
            },
    {
        if self.instruction_index < self.block.instructions.len() {
            let instruction = self.block.instructions[self.instruction_index];
            self.instruction_index = self.instruction_index + 1;
            Some(instruction)
        } else {
            None
        }
    }

    /// How far the frame's registers reach past its beginning.
    pub fn stack_consumption(&self) -> (n: StackIndex)
        ensures
            n == self.block.metadata,
    {
        self.block.metadata as StackIndex
    }
}

/// A coroutine's stack of values and its frames that wait for the current one.
#[derive(Debug)]
pub struct CoroutineState {
    pub stack: Vec<Value>,
    pub paused_frames: Vec<StackFrame>,
}

/// A stack of `STACK_CAPACITY` nils.
fn empty_stack() -> (stack: Vec<Value>)
    ensures
        stack@.len() == STACK_CAPACITY,
        forall|i: int| 0 <= i < STACK_CAPACITY ==> stack@[i] is Nil,
{
    let mut stack: Vec<Value> = Vec::new();
    while stack.len() < STACK_CAPACITY
        invariant
            stack@.len() <= STACK_CAPACITY,
            forall|i: int| 0 <= i < stack@.len() ==> stack@[i] is Nil,
        decreases STACK_CAPACITY - stack@.len(),
    {
        stack.push(Value::Nil);
    }
    stack
}

impl CoroutineState {
    /// A coroutine with an empty stack and no waiting frames.
    pub fn new() -> (state: CoroutineState)
        ensures
            state.stack@.len() == STACK_CAPACITY,
            forall|i: int| 0 <= i < STACK_CAPACITY ==> state.stack@[i] is Nil,
            state.paused_frames@.len() == 0,
    {
        CoroutineState { stack: empty_stack(), paused_frames: Vec::new() }
    }

    /// A coroutine with an empty stack whose only frame, waiting, is `root_frame`.
    pub fn new_with_root_frame(root_frame: StackFrame) -> (state: CoroutineState)
        ensures
            state.stack@.len() == STACK_CAPACITY,
            forall|i: int| 0 <= i < STACK_CAPACITY ==> state.stack@[i] is Nil,
            state.paused_frames@ == seq![root_frame],
    {
        let mut paused_frames: Vec<StackFrame> = Vec::new();
        paused_frames.push(root_frame);
        CoroutineState { stack: empty_stack(), paused_frames }
    }

    /// Pauses the coroutine with `active_stack_frame` on top of its waiting frames; when
    /// it resumes it accepts the given number of arguments into registers from the given
    /// offset, or none.
    pub fn pause(self, active_stack_frame: StackFrame, new_arg_count_and_offset: Option<(AritySpecifier, u8)>) -> (paused:
        PausedCoroutine)
        ensures
            paused.started,
            paused.state.stack == self.stack,
            paused.state.paused_frames@ == self.paused_frames@.push(active_stack_frame),
            match new_arg_count_and_offset {
                Some((args, offset)) => paused.args == args && paused.arg_offset == offset,
                None => paused.args.count == 0 && paused.arg_offset == 0,
            },
    {
        let mut state = self;
        state.paused_frames.push(active_stack_frame);
        let (args, arg_offset) = match new_arg_count_and_offset {
            Some(p) => p,
            None => (AritySpecifier { count: 0 }, 0),
        };
        PausedCoroutine { started: true, args, arg_offset, state }
    }
}

/// A coroutine that waits to be called: whether it has run before, the arguments it
/// accepts and the register they go to, and its state.
#[derive(Debug)]
pub struct PausedCoroutine {
    pub started: bool,
    pub args: AritySpecifier,
    pub arg_offset: u8,
    pub state: CoroutineState,
}

impl PausedCoroutine {
    /// A coroutine that will run `f` from its start.
    pub fn from_function(f: &CompositeFunction) -> (paused: PausedCoroutine)
        ensures
            !paused.started,
            paused.args == f.args,
            paused.arg_offset == 0,
            paused.state.stack@.len() == STACK_CAPACITY,
            paused.state.paused_frames@.len() == 1,
            paused.state.paused_frames@[0].block == f.block,
            paused.state.paused_frames@[0].calling_function is None,
            paused.state.paused_frames@[0].beginning == 0,
            paused.state.paused_frames@[0].instruction_index == 0,
    {
        PausedCoroutine {
            started: false,
            args: f.args,
            arg_offset: 0,
            state: CoroutineState::new_with_root_frame(StackFrame::root(f.block.share())),
        }
    }

    /// Starts or resumes the coroutine under a caller whose result register is at
    /// `return_index`: its top frame, now returning there, and its state without it;
    /// none if it has no frame.
    pub fn begin_as_child(self, return_index: StackIndex) -> (r: Option<(StackFrame, CoroutineState)>)
        ensures
            self.state.paused_frames@.len() == 0 ==> r is None,
            self.state.paused_frames@.len() > 0 ==> (r matches Some((frame, state)) && {
                let top = self.state.paused_frames@.last();
                &&& frame.beginning == top.beginning
                &&& frame.calling_function == top.calling_function
                &&& frame.block == top.block
                &&& frame.instruction_index == top.instruction_index
                &&& frame.return_stack_index == return_index
                &&& state.stack == self.state.stack
                &&& state.paused_frames@ == self.state.paused_frames@.drop_last()
            }),
    {
        let mut state = self.state;
        match state.paused_frames.pop() {
            Some(mut active_frame) => {
                active_frame.return_stack_index = return_index;
                Some((active_frame, state))
            },
            None => None,
        }
    }

    /// Resumes the coroutine after a coroutine it called has yielded or finished: its top
    /// frame, and its state without it; none if it has no frame.
    pub fn resume_from_child(self) -> (r: Option<(StackFrame, CoroutineState)>)
        ensures
            self.state.paused_frames@.len() == 0 ==> r is None,
            self.state.paused_frames@.len() > 0 ==> (r matches Some((frame, state)) && {
                &&& frame == self.state.paused_frames@.last()
                &&& state.stack == self.state.stack
                &&& state.paused_frames@ == self.state.paused_frames@.drop_last()
            }),
    {
        let mut state = self.state;
        match state.paused_frames.pop() {
            Some(active_frame) => Some((active_frame, state)),
            None => None,
        }
    }
}

} // verus!
