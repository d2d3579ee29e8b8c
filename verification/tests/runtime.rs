use std::rc::Rc;

use pidgin::blocks::GenericBlock;
use pidgin::compiler::transformations::register_allocation::{Block, RuntimeInstruction};
use pidgin::instructions::Instruction;
use pidgin::instructions::Instruction::{
    Abs, Add, Apply, ButLast, Call, CallAndReturn, CallSelf, CallSelfAndReturn, CallingFunction,
    Clear, Cons, Const, CopyArgument, CreateCoroutine, DebugPrint, Dec, Divide, Else,
    ElseIf, EmptyList, EndIf, First, Floor, If, Inc, IsCollection, IsCoroutineAlive, IsEmpty,
    IsError, IsEven, IsInf, IsList, IsNan, IsNeg, IsNil, IsOdd, IsPos, IsZero, Jump, Last,
    Lookup, Multiply, Negate, NumericalEqual, Push, Rest, Return, Sort, StealArgument, Subtract,
    Yield, YieldAndAccept,
};
use pidgin::runtime::control::GenericCompositeFunction;
use pidgin::runtime::core_functions::CoreFnId;
use pidgin::runtime::data::{AritySpecifier, ExternalFunction, GenericValue, Num, Value};
use pidgin::runtime::description::{describe, indent_lines, pad};
use pidgin::runtime::error::RuntimeError;
use pidgin::runtime::evaluation::EvaluationState;
use pidgin::runtime::host::{FloatOp, Host};

/// Floats by `f64`, and two external functions: a sum of two numbers, and a sum of the
/// four integers of two pairs held as lists.
struct TestHost;

fn f(bits: u64) -> f64 {
    f64::from_bits(bits)
}

impl Host for TestHost {
    fn float(&self, op: FloatOp) -> u64 {
        match op {
            FloatOp::Add(a, b) => (f(a) + f(b)).to_bits(),
            FloatOp::Subtract(a, b) => (f(a) - f(b)).to_bits(),
            FloatOp::Multiply(a, b) => (f(a) * f(b)).to_bits(),
            FloatOp::Divide(a, b) => (f(a) / f(b)).to_bits(),
            FloatOp::FromInt(i) => (i as f64).to_bits(),
            FloatOp::Floor(a) => f(a).floor() as i64 as u64,
            FloatOp::Ceil(a) => f(a).ceil() as i64 as u64,
            FloatOp::Truncate(a) => f(a) as i64 as u64,
            FloatOp::Sqrt(a) => f(a).sqrt().to_bits(),
            FloatOp::Exp(a) => f(a).exp().to_bits(),
            FloatOp::Exp2(a) => f(a).exp2().to_bits(),
            FloatOp::Ln(a) => f(a).ln().to_bits(),
            FloatOp::Log2(a) => f(a).log2().to_bits(),
        }
    }

    fn parse_float(&self, text: &str) -> Option<u64> {
        text.parse::<f64>().ok().map(|x| x.to_bits())
    }

    fn format_float(&self, bits: u64) -> String {
        f(bits).to_string()
    }

    fn print(&self, text: String) {
        println!("{}", text);
    }

    fn call_external(&self, function: &ExternalFunction, args: Vec<Value>) -> Result<Value, u64> {
        let number = |v: &Value| match v {
            GenericValue::Number(Num::Int(i)) => Ok(*i),
            _ => Err(1u64),
        };
        match function.handle {
            0 => Ok(GenericValue::Number(Num::Int(number(&args[0])? + number(&args[1])?))),
            _ => {
                let pair = |v: &Value| match v {
                    GenericValue::List(l) => Ok((number(&l[0])?, number(&l[1])?)),
                    _ => Err(2u64),
                };
                let a = pair(&args[0])?;
                let b = pair(&args[1])?;
                Ok(GenericValue::Number(Num::Int(a.0 + b.0 + a.1 + b.1)))
            }
        }
    }
}

fn int_value(i: i64) -> Value {
    GenericValue::Number(Num::Int(i))
}

fn float(x: f64) -> Value {
    GenericValue::Number(Num::Float(x.to_bits()))
}

fn text(s: &str) -> Value {
    GenericValue::Str(Rc::new(s.to_string()))
}

fn list(values: Vec<Value>) -> Value {
    GenericValue::List(Rc::new(values))
}

fn block(instructions: Vec<RuntimeInstruction>, constants: Vec<Value>) -> Block {
    Block::new(instructions, constants)
}

fn composite_fn(args: u8, body: Block) -> Value {
    GenericValue::CompositeFn(Rc::new(GenericCompositeFunction::new(
        AritySpecifier { count: args },
        body,
    )))
}

fn run(program: Block) -> EvaluationState {
    let mut state = EvaluationState::new(program);
    state.evaluate(&TestHost).unwrap();
    state
}

fn shown(v: &Value) -> String {
    describe(v, &Vec::new(), &TestHost)
}

/// Whether two values are equal: data by value (floats by their bits), the rest by
/// what `{:?}` writes for them.
fn same_value(a: &Value, b: &Value) -> bool {
    match (a, b) {
        (GenericValue::Nil, GenericValue::Nil) => true,
        (GenericValue::Bool(x), GenericValue::Bool(y)) => x == y,
        (GenericValue::Char(x), GenericValue::Char(y)) => x == y,
        (GenericValue::Number(Num::Int(x)), GenericValue::Number(Num::Int(y))) => x == y,
        (GenericValue::Number(Num::Float(x)), GenericValue::Number(Num::Float(y))) => x == y,
        (GenericValue::Symbol(x), GenericValue::Symbol(y)) => x == y,
        (GenericValue::Str(x), GenericValue::Str(y)) => x == y,
        (GenericValue::ExternalObject(x), GenericValue::ExternalObject(y)) => x == y,
        (GenericValue::Coroutine(x), GenericValue::Coroutine(y)) => x == y,
        (GenericValue::List(x), GenericValue::List(y))
        | (GenericValue::Hashset(x), GenericValue::Hashset(y))
        | (GenericValue::Composition(x), GenericValue::Composition(y)) => same_values(x, y),
        (GenericValue::Hashmap(x), GenericValue::Hashmap(y)) => {
            x.len() == y.len()
                && x.iter().zip(y.iter()).all(|(p, q)| same_value(&p.0, &q.0) && same_value(&p.1, &q.1))
        },
        (GenericValue::PartialApplication(x), GenericValue::PartialApplication(y)) => {
            same_value(&x.0, &y.0) && same_values(&x.1, &y.1)
        },
        (GenericValue::CoreFn(_), GenericValue::CoreFn(_))
        | (GenericValue::CompositeFn(_), GenericValue::CompositeFn(_))
        | (GenericValue::ExternalFn(_), GenericValue::ExternalFn(_))
        | (GenericValue::Error(_), GenericValue::Error(_)) => format!("{:?}", a) == format!("{:?}", b),
        _ => false,
    }
}

fn same_values(x: &Vec<Value>, y: &Vec<Value>) -> bool {
    x.len() == y.len() && x.iter().zip(y.iter()).all(|(p, q)| same_value(p, q))
}

fn assert_register(state: &EvaluationState, register: u8, expected: &Value) {
    let held = state.get_register(register);
    assert!(
        same_value(held, expected),
        "register {} holds {:?}, expected {:?}",
        register,
        held,
        expected
    );
}

#[test]
fn mod_constants() {
    let constants = vec![int_value(1), GenericValue::Bool(false), text("Hello!"), GenericValue::Nil];
    let state = run(block(
        vec![Const(0, 0), Const(1, 1), Const(2, 2), Const(3, 3)],
        constants.clone(),
    ));
    assert!(matches!(state.get_register(0), GenericValue::Number(Num::Int(1))));
    assert!(matches!(state.get_register(1), GenericValue::Bool(false)));
    assert!(matches!(state.get_register(2), GenericValue::Str(s) if s.as_str() == "Hello!"));
    assert!(matches!(state.get_register(3), GenericValue::Nil));
    for (register, value) in constants.iter().enumerate() {
        assert_register(&state, register as u8, value);
    }
}

#[test]
fn vm_arithmetic() {
    let state = run(block(
        vec![
            Const(0, 0),
            Const(1, 1),
            Add(2, 0, 1),
            Const(3, 2),
            Multiply(4, 2, 3),
            Const(5, 3),
            Subtract(6, 4, 5),
            Const(7, 4),
            Divide(8, 4, 7),
        ],
        vec![int_value(1), float(2.), int_value(4), int_value(12), int_value(-6)],
    ));
    assert_register(&state, 2, &float(3.));
    assert_register(&state, 4, &float(12.));
    assert_register(&state, 6, &float(0.));
    assert_register(&state, 8, &float(-2.));
}

#[test]
fn vm_environment_lookup() {
    let mut state = EvaluationState::new(block(vec![Lookup(0, 0)], vec![]));
    state.bind_symbol(0, text("test!"));
    state.evaluate(&TestHost).unwrap();
    assert_register(&state, 0, &text("test!"));
}

#[test]
fn vm_lookup_of_unbound_symbol_fails() {
    let mut state = EvaluationState::new(block(vec![Lookup(0, 3)], vec![]));
    assert!(matches!(state.evaluate(&TestHost), Err(RuntimeError::MalformedProgram)));
}

#[test]
fn vm_clear() {
    let state = run(block(vec![Const(0, 0), Clear(0)], vec![int_value(100)]));
    assert_register(&state, 0, &GenericValue::Nil);
}

#[test]
fn vm_copy() {
    let state = run(block(vec![Const(0, 0), Instruction::Copy(1, 0)], vec![int_value(100)]));
    assert_register(&state, 1, &int_value(100));
}

#[test]
fn vm_call_constant_function() {
    let f = composite_fn(0, block(vec![Const(0, 0), Return(0)], vec![int_value(5)]));
    let state = run(block(vec![Const(0, 0), Call(1, 0, 0)], vec![f]));
    assert_register(&state, 1, &int_value(5));
}

fn square() -> Value {
    composite_fn(1, block(vec![Multiply(0, 0, 0), Return(0)], vec![]))
}

#[test]
fn vm_call_square_function() {
    let state = run(block(
        vec![Const(0, 0), Const(1, 1), Call(2, 1, 1), CopyArgument(0)],
        vec![int_value(10), square()],
    ));
    assert_register(&state, 0, &int_value(10));
    assert_register(&state, 2, &int_value(100));
}

#[test]
fn vm_call_square_function_twice() {
    let state = run(block(
        vec![Const(0, 0), Const(1, 1), Call(0, 1, 1), StealArgument(0), Call(0, 1, 1), StealArgument(0)],
        vec![int_value(10), square()],
    ));
    assert_register(&state, 0, &int_value(10000));
}

#[test]
fn vm_call_double_square_nested_function() {
    let outer = composite_fn(
        1,
        block(
            vec![Const(1, 0), Call(0, 1, 1), StealArgument(0), Call(0, 1, 1), StealArgument(0), Return(0)],
            vec![square()],
        ),
    );
    let state = run(block(
        vec![Const(0, 0), Const(1, 1), Call(0, 1, 1), StealArgument(0)],
        vec![int_value(10), outer],
    ));
    assert_register(&state, 0, &int_value(10000));
}

#[test]
fn vm_call_square_product_function() {
    let f = composite_fn(2, block(vec![Multiply(0, 1, 0), Multiply(0, 0, 0), Return(0)], vec![]));
    let state = run(block(
        vec![Const(0, 0), Const(1, 1), Const(2, 2), Call(0, 2, 2), StealArgument(0), StealArgument(1)],
        vec![int_value(2), int_value(3), f],
    ));
    assert_register(&state, 0, &int_value(36));
}

fn triple_product() -> Value {
    composite_fn(3, block(vec![Multiply(0, 1, 0), Multiply(0, 2, 0), Return(0)], vec![]))
}

#[test]
fn vm_call_triple_product_function() {
    let state = run(block(
        vec![
            Const(0, 0),
            Const(1, 1),
            Const(2, 2),
            Const(4, 3),
            Call(3, 4, 3),
            StealArgument(0),
            StealArgument(1),
            StealArgument(2),
        ],
        vec![int_value(2), int_value(3), int_value(4), triple_product()],
    ));
    assert_register(&state, 3, &int_value(24));
}

#[test]
fn vm_apply_fn() {
    let state = run(block(
        vec![Const(0, 0), Const(1, 1), Apply(0, 1)],
        vec![list(vec![int_value(2), int_value(3), int_value(4)]), triple_product()],
    ));
    assert_register(&state, 0, &int_value(24));
}

#[test]
fn vm_apply_core_fn_add() {
    let state = run(block(
        vec![Const(0, 0), Const(1, 1), Apply(0, 1)],
        vec![list(vec![int_value(1), int_value(2), int_value(3)]), GenericValue::CoreFn(CoreFnId::Add)],
    ));
    assert_register(&state, 0, &int_value(6));
}

#[test]
fn vm_list_first_last() {
    let state = run(block(
        vec![Const(0, 0), First(1, 0), Last(2, 0)],
        vec![list(vec![int_value(1), int_value(2)])],
    ));
    assert_register(&state, 1, &int_value(1));
    assert_register(&state, 2, &int_value(2));
}

#[test]
fn vm_list_push() {
    let state = run(block(vec![EmptyList(0), Const(1, 0), Push(0, 1)], vec![text("test")]));
    assert_register(&state, 0, &list(vec![text("test")]));
}

#[test]
fn vm_list_rest() {
    let state = run(block(
        vec![Const(0, 0), Rest(0), Const(1, 1), Rest(1)],
        vec![list(vec![int_value(1), int_value(2)]), list(vec![int_value(1), int_value(2), int_value(3)])],
    ));
    assert_register(&state, 0, &list(vec![int_value(2)]));
    assert_register(&state, 1, &list(vec![int_value(2), int_value(3)]));
}

#[test]
fn vm_list_butlast() {
    let state = run(block(
        vec![Const(0, 0), ButLast(0), Const(1, 1), ButLast(1)],
        vec![list(vec![int_value(1), int_value(2)]), list(vec![int_value(1), int_value(2), int_value(3)])],
    ));
    assert_register(&state, 0, &list(vec![int_value(1)]));
    assert_register(&state, 1, &list(vec![int_value(1), int_value(2)]));
}

#[test]
fn vm_list_cons() {
    let state = run(block(
        vec![Const(0, 0), Const(1, 1), Cons(0, 1), EmptyList(2), Cons(2, 1)],
        vec![list(vec![int_value(2)]), int_value(1)],
    ));
    assert_register(&state, 0, &list(vec![int_value(1), int_value(2)]));
    assert_register(&state, 2, &list(vec![int_value(1)]));
}

fn conditional(condition: bool) -> Block {
    block(
        vec![Const(0, 0), Const(1, 1), If(0), Const(1, 2), EndIf],
        vec![GenericValue::Bool(condition), int_value(-5), int_value(5)],
    )
}

#[test]
fn vm_if_true() {
    assert_register(&run(conditional(true)), 1, &int_value(5));
}

#[test]
fn vm_if_false() {
    assert_register(&run(conditional(false)), 1, &int_value(-5));
}

fn if_else(condition: bool) -> Block {
    block(
        vec![Const(0, 0), If(0), Const(1, 1), Else, Const(1, 2), EndIf],
        vec![GenericValue::Bool(condition), int_value(-5), int_value(5)],
    )
}

#[test]
fn vm_if_else_true() {
    assert_register(&run(if_else(true)), 1, &int_value(-5));
}

#[test]
fn vm_if_else_false() {
    assert_register(&run(if_else(false)), 1, &int_value(5));
}

fn if_else_if_else(first: bool, second: bool) -> Block {
    block(
        vec![
            Const(0, 0),
            Const(1, 1),
            If(0),
            Const(2, 2),
            ElseIf(1),
            Const(2, 3),
            Else,
            Const(2, 4),
            EndIf,
        ],
        vec![GenericValue::Bool(first), GenericValue::Bool(second), int_value(-5), int_value(0), int_value(5)],
    )
}

#[test]
fn vm_if_else_if_else() {
    assert_register(&run(if_else_if_else(true, true)), 2, &int_value(-5));
    assert_register(&run(if_else_if_else(true, false)), 2, &int_value(-5));
    assert_register(&run(if_else_if_else(false, true)), 2, &int_value(0));
    assert_register(&run(if_else_if_else(false, false)), 2, &int_value(5));
}

#[test]
fn vm_recursion() {
    let f = composite_fn(
        1,
        block(
            vec![IsPos(1, 0), If(1), Dec(0, 0), CallingFunction(2), Call(0, 2, 1), StealArgument(0), EndIf, Return(0)],
            vec![],
        ),
    );
    let state = run(block(vec![Const(0, 0), Const(1, 1), Call(0, 1, 1), StealArgument(0)], vec![int_value(10), f]));
    assert_register(&state, 0, &int_value(0));
}

#[test]
fn vm_call_self_recursion() {
    let f = composite_fn(
        1,
        block(vec![IsPos(1, 0), If(1), Dec(0, 0), CallSelf(0, 1), StealArgument(0), EndIf, Return(0)], vec![]),
    );
    let state = run(block(vec![Const(0, 0), Const(1, 1), Call(0, 1, 1), StealArgument(0)], vec![int_value(10), f]));
    assert_register(&state, 0, &int_value(0));
}

#[test]
fn vm_tail_recursion() {
    let f = composite_fn(
        1,
        block(
            vec![IsPos(1, 0), If(1), Dec(2, 0), CallingFunction(3), CallAndReturn(3, 1), StealArgument(2), EndIf, Return(0)],
            vec![],
        ),
    );
    let state = run(block(
        vec![Const(0, 0), Const(1, 1), Call(0, 1, 1), StealArgument(0)],
        vec![int_value(u16::MAX as i64), f],
    ));
    assert_register(&state, 0, &int_value(0));
}

#[test]
fn vm_call_self_tail_recursion() {
    let f = composite_fn(
        1,
        block(vec![IsPos(1, 0), If(1), Dec(2, 0), CallSelfAndReturn(1), StealArgument(2), EndIf, Return(0)], vec![]),
    );
    let state = run(block(
        vec![Const(0, 0), Const(1, 1), Call(0, 1, 1), StealArgument(0)],
        vec![int_value(u16::MAX as i64), f],
    ));
    assert_register(&state, 0, &int_value(0));
}

#[test]
fn vm_jump_loop() {
    let f = composite_fn(1, block(vec![IsPos(1, 0), If(1), Dec(0, 0), Jump(0), EndIf, Return(0)], vec![]));
    let state = run(block(
        vec![Const(0, 0), Const(1, 1), Call(0, 1, 1), StealArgument(0)],
        vec![int_value(u16::MAX as i64), f],
    ));
    assert_register(&state, 0, &int_value(0));
}

#[test]
fn vm_call_external_function() {
    let adder = GenericValue::ExternalFn(Rc::new(ExternalFunction::unnamed(0)));
    let state = run(block(
        vec![Const(0, 0), Const(1, 1), Const(2, 2), Call(0, 2, 2), StealArgument(0), StealArgument(1)],
        vec![int_value(1), int_value(2), adder],
    ));
    assert_register(&state, 0, &int_value(3));
}

#[test]
fn vm_external_object() {
    let pair_adder = GenericValue::ExternalFn(Rc::new(ExternalFunction::unnamed(1)));
    let state = run(block(
        vec![Const(0, 0), Const(1, 1), Const(2, 2), Call(0, 2, 2), StealArgument(0), StealArgument(1)],
        vec![list(vec![int_value(1), int_value(2)]), list(vec![int_value(3), int_value(4)]), pair_adder],
    ));
    assert_register(&state, 0, &int_value(10));
}

#[test]
fn vm_external_error_is_reported() {
    let adder = GenericValue::ExternalFn(Rc::new(ExternalFunction::unnamed(0)));
    let mut state = EvaluationState::new(block(
        vec![Const(0, 0), Const(1, 1), Call(0, 1, 2), StealArgument(0), StealArgument(0)],
        vec![text("no number"), adder],
    ));
    assert!(matches!(state.evaluate(&TestHost), Err(RuntimeError::ExternalError(1))));
}

#[test]
fn vm_create_coroutine() {
    let f = composite_fn(0, block(vec![EmptyList(0), Return(0)], vec![]));
    let state = run(block(vec![Const(0, 0), CreateCoroutine(0)], vec![f]));
    assert!(matches!(state.get_register(0), GenericValue::Coroutine(Some(_))));
}

#[test]
fn vm_run_coroutine() {
    let f = composite_fn(0, block(vec![EmptyList(0), Return(0)], vec![]));
    let state = run(block(vec![Const(0, 0), CreateCoroutine(0), Call(1, 0, 0)], vec![f]));
    assert_register(&state, 1, &list(vec![]));
}

#[test]
fn vm_run_nested_coroutines() {
    let inner = composite_fn(0, block(vec![EmptyList(0), Return(0)], vec![]));
    let outer = composite_fn(
        0,
        block(vec![Const(0, 0), CreateCoroutine(0), Call(1, 0, 0), Return(1)], vec![inner]),
    );
    let state = run(block(vec![Const(0, 0), CreateCoroutine(0), Call(1, 0, 0)], vec![outer]));
    assert_register(&state, 1, &list(vec![]));
}

#[test]
fn vm_coroutine_yield() {
    let f = composite_fn(
        0,
        block(
            vec![Const(0, 0), Yield(0), Const(1, 1), Return(1)],
            vec![text("yielded value!"), text("returned value!")],
        ),
    );
    let state = run(block(vec![Const(0, 0), CreateCoroutine(0), Call(1, 0, 0), Call(2, 0, 0)], vec![f]));
    assert_register(&state, 1, &text("yielded value!"));
    assert_register(&state, 2, &text("returned value!"));
}

#[test]
fn vm_nested_coroutine_yield() {
    let first = composite_fn(
        0,
        block(
            vec![Const(0, 0), Yield(0), Const(1, 1), Yield(1)],
            vec![text("first yield!"), text("first return!")],
        ),
    );
    let second = composite_fn(
        0,
        block(
            vec![Const(0, 0), Yield(0), Const(1, 1), Yield(1)],
            vec![text("second yield!"), text("second return!")],
        ),
    );
    let outer = composite_fn(
        0,
        block(
            vec![
                Const(0, 0),
                CreateCoroutine(0),
                Call(1, 0, 0),
                Yield(1),
                Call(2, 0, 0),
                Yield(2),
                Const(0, 1),
                CreateCoroutine(0),
                Call(1, 0, 0),
                Yield(1),
                Call(2, 0, 0),
                Yield(2),
            ],
            vec![first, second],
        ),
    );
    let state = run(block(
        vec![Const(0, 0), CreateCoroutine(0), Call(1, 0, 0), Call(2, 0, 0), Call(3, 0, 0), Call(4, 0, 0)],
        vec![outer],
    ));
    assert_register(&state, 1, &text("first yield!"));
    assert_register(&state, 2, &text("first return!"));
    assert_register(&state, 3, &text("second yield!"));
    assert_register(&state, 4, &text("second return!"));
}

#[test]
fn vm_run_coroutine_with_args() {
    let f = composite_fn(2, block(vec![Add(2, 0, 1), Return(2)], vec![]));
    let state = run(block(
        vec![Const(0, 0), CreateCoroutine(0), Const(1, 1), Const(2, 2), Call(1, 0, 2), StealArgument(1), StealArgument(2)],
        vec![f, int_value(1), int_value(2)],
    ));
    assert_register(&state, 1, &int_value(3));
}

#[test]
fn vm_resume_coroutine_with_args() {
    // Register usages are not known for `YieldAndAccept`, so the block's largest
    // register is given by hand.
    let f = composite_fn(
        2,
        GenericBlock::new_with_metadata(
            vec![Add(0, 0, 1), YieldAndAccept(0, 2, 1), Add(0, 0, 1), Add(0, 0, 2), Return(0)],
            vec![],
            2,
        ),
    );
    let state = run(block(
        vec![
            Const(0, 0),
            CreateCoroutine(0),
            Const(1, 1),
            Const(2, 2),
            Call(1, 0, 2),
            CopyArgument(1),
            CopyArgument(2),
            Const(2, 3),
            Const(3, 4),
            Call(2, 0, 2),
            CopyArgument(2),
            CopyArgument(3),
        ],
        vec![f, int_value(1), int_value(2), int_value(3), int_value(4)],
    ));
    assert_register(&state, 1, &int_value(3));
    assert_register(&state, 2, &int_value(10));
}

#[test]
fn vm_coroutine_returns_error() {
    let f = composite_fn(2, block(vec![Add(0, 0, 1), Return(0)], vec![]));
    let state = run(block(
        vec![
            Const(0, 0),
            CreateCoroutine(0),
            Const(1, 1),
            Const(2, 2),
            Call(3, 0, 2),
            StealArgument(1),
            StealArgument(2),
            IsError(4, 3),
            DebugPrint(0),
            IsCoroutineAlive(5, 0),
        ],
        vec![
            f,
            text("this isn't a number!!!"),
            text("this isn't either! so adding these will throw an error"),
        ],
    ));
    assert!(matches!(
        state.get_register(3),
        GenericValue::Error(e) if matches!(**e, RuntimeError::CantCastToNum(_))
    ));
    assert_register(&state, 4, &GenericValue::Bool(true));
    assert_register(&state, 5, &GenericValue::Bool(false));
}

#[test]
fn vm_coroutine_is_alive() {
    let f = composite_fn(1, block(vec![Yield(0), Return(0)], vec![]));
    let state = run(block(
        vec![
            Const(0, 0),
            CreateCoroutine(0),
            Const(1, 1),
            Call(1, 0, 1),
            CopyArgument(1),
            IsCoroutineAlive(2, 0),
            Call(1, 0, 0),
            IsCoroutineAlive(3, 0),
        ],
        vec![f, int_value(1)],
    ));
    assert_register(&state, 2, &GenericValue::Bool(true));
    assert_register(&state, 3, &GenericValue::Bool(false));
}

#[test]
fn vm_root_return_ends_the_program() {
    let mut state = EvaluationState::new(block(vec![Const(0, 0), Return(0), Const(0, 1)], vec![int_value(7), int_value(8)]));
    let result = state.evaluate(&TestHost).unwrap();
    assert!(matches!(result, Some(GenericValue::Number(Num::Int(7)))));
}

#[test]
fn vm_function_without_return_is_malformed() {
    let f = composite_fn(0, block(vec![EmptyList(0)], vec![]));
    let mut state = EvaluationState::new(block(vec![Const(0, 0), Call(1, 0, 0)], vec![f]));
    assert!(matches!(state.evaluate(&TestHost), Err(RuntimeError::MalformedProgram)));
}

#[test]
fn vm_errors_outside_coroutines_stop_the_program() {
    let mut state = EvaluationState::new(block(vec![Const(0, 0), Inc(1, 0)], vec![text("x")]));
    assert!(matches!(state.evaluate(&TestHost), Err(RuntimeError::CantCastToNum(_))));
    let mut state = EvaluationState::new(block(vec![Const(0, 0), First(1, 0)], vec![int_value(1)]));
    assert!(matches!(state.evaluate(&TestHost), Err(RuntimeError::ArgumentNotList)));
    let mut state = EvaluationState::new(block(vec![Const(0, 0), IsZero(1, 0)], vec![text("x")]));
    assert!(matches!(state.evaluate(&TestHost), Err(RuntimeError::ArgumentNotNum)));
    let mut state = EvaluationState::new(block(vec![Const(0, 0), IsCoroutineAlive(1, 0)], vec![int_value(1)]));
    assert!(matches!(state.evaluate(&TestHost), Err(RuntimeError::IsntCoroutine)));
    let mut state = EvaluationState::new(block(vec![Const(0, 0), Call(1, 0, 0)], vec![int_value(1)]));
    assert!(matches!(state.evaluate(&TestHost), Err(RuntimeError::CantApply(_))));
    let mut state = EvaluationState::new(block(vec![Sort(0)], vec![]));
    assert!(matches!(state.evaluate(&TestHost), Err(RuntimeError::NotYetImplemented)));
    let mut state = EvaluationState::new(block(vec![Const(0, 0), CreateCoroutine(0)], vec![int_value(1)]));
    match state.evaluate(&TestHost) {
        Err(RuntimeError::CantCreateCoroutine(message)) => {
            assert_eq!(message, "can't create a coroutine from 1")
        }
        other => panic!("unexpected result {:?}", other),
    }
}

#[test]
fn vm_dead_and_running_coroutines() {
    let f = composite_fn(0, block(vec![EmptyList(0), Return(0)], vec![]));
    let mut state = EvaluationState::new(block(
        vec![Const(0, 0), CreateCoroutine(0), Call(1, 0, 0), Call(1, 0, 0)],
        vec![f],
    ));
    assert!(matches!(state.evaluate(&TestHost), Err(RuntimeError::DeadCoroutine)));
}

#[test]
fn vm_stack_overflow_is_reported() {
    let f = composite_fn(0, block(vec![Clear(0), CallSelf(0, 0), Return(0)], vec![]));
    let mut state = EvaluationState::new(block(vec![Const(0, 0), Call(1, 0, 0)], vec![f]));
    assert!(matches!(state.evaluate(&TestHost), Err(RuntimeError::StackOverflow)));
}

#[test]
fn vm_number_predicates() {
    let state = run(block(
        vec![
            Const(0, 0),
            IsEven(1, 0),
            IsOdd(2, 0),
            Const(3, 1),
            IsOdd(4, 3),
            Const(5, 2),
            IsNan(6, 5),
            IsInf(7, 5),
            IsPos(8, 5),
            Const(9, 3),
            IsEven(10, 9),
            IsNeg(11, 3),
            NumericalEqual(12, 0, 9),
            Negate(13, 3),
            Abs(14, 3),
            Floor(15, 9),
        ],
        vec![int_value(4), int_value(-3), float(f64::INFINITY), float(4.0)],
    ));
    assert_register(&state, 1, &GenericValue::Bool(true));
    assert_register(&state, 2, &GenericValue::Bool(false));
    assert_register(&state, 4, &GenericValue::Bool(false));
    assert_register(&state, 6, &GenericValue::Bool(false));
    assert_register(&state, 7, &GenericValue::Bool(true));
    assert_register(&state, 8, &GenericValue::Bool(true));
    assert_register(&state, 10, &GenericValue::Bool(true));
    assert_register(&state, 11, &GenericValue::Bool(true));
    assert_register(&state, 12, &GenericValue::Bool(true));
    assert_register(&state, 13, &int_value(3));
    assert_register(&state, 14, &int_value(3));
    assert_register(&state, 15, &int_value(4));
}

#[test]
fn vm_kind_tests() {
    let state = run(block(
        vec![Const(0, 0), IsList(1, 0), IsNil(2, 0), IsCollection(3, 0), IsEmpty(4, 0), IsEmpty(5, 6)],
        vec![list(vec![])],
    ));
    assert_register(&state, 1, &GenericValue::Bool(true));
    assert_register(&state, 2, &GenericValue::Bool(false));
    assert_register(&state, 3, &GenericValue::Bool(true));
    assert_register(&state, 4, &GenericValue::Bool(true));
    assert_register(&state, 5, &GenericValue::Bool(true));
}

#[test]
fn vm_step_by_step() {
    let mut state = EvaluationState::new(block(vec![Const(0, 0), Jump(0)], vec![int_value(1)]));
    assert!(matches!(state.step(&TestHost), Some(Ok(None))));
    assert!(matches!(state.step(&TestHost), Some(Ok(None))));
    assert_eq!(state.current_frame.instruction_index, 0);
    assert!(state.run(&TestHost, 100).is_none());
}

#[test]
fn vm_run_counts_steps() {
    let mut state = EvaluationState::new(block(vec![Const(0, 0)], vec![int_value(1)]));
    assert!(state.run(&TestHost, 0).is_none());
    assert_eq!(state.current_frame.instruction_index, 0);
    assert!(matches!(state.run(&TestHost, 1), Some(Ok(None))));
    assert_register(&state, 0, &int_value(1));
}

#[test]
fn description_of_values() {
    assert_eq!(shown(&GenericValue::Nil), "nil");
    assert_eq!(shown(&GenericValue::Bool(true)), "true");
    assert_eq!(shown(&GenericValue::Char('x')), "'x'");
    assert_eq!(shown(&int_value(-12)), "-12");
    assert_eq!(shown(&float(2.0)), "2.");
    assert_eq!(shown(&float(2.5)), "2.5");
    assert_eq!(shown(&text("hi")), "\"hi\"");
    assert_eq!(shown(&list(vec![int_value(1), list(vec![int_value(2)])])), "[1, [2]]");
    assert_eq!(shown(&GenericValue::Hashmap(Rc::new(vec![(int_value(1), int_value(2))]))), "{1 2}");
    assert_eq!(shown(&GenericValue::Hashset(Rc::new(vec![int_value(1)]))), "#{1}");
    assert_eq!(shown(&GenericValue::CoreFn(CoreFnId::Add)), "core_fn( + )");
    assert_eq!(shown(&GenericValue::Coroutine(None)), "coroutine (dead)");
    assert_eq!(
        shown(&GenericValue::Error(Rc::new(RuntimeError::InvalidArity))),
        "error: invalid arity"
    );
    assert_eq!(shown(&composite_fn(2, block(vec![Return(0)], vec![]))), "fn( 2 args, 1 instructions )\n");
    assert_eq!(
        shown(&GenericValue::ExternalFn(Rc::new(ExternalFunction::unnamed(3)))),
        "external_fn( <unnamed> )"
    );
    assert_eq!(shown(&GenericValue::CoreFn(CoreFnId::CreateCell)), "core_fn( <unnamed> )");
    assert_eq!(shown(&GenericValue::ExternalObject(9)), "external_object");
    assert_eq!(
        shown(&GenericValue::PartialApplication(Rc::new((GenericValue::CoreFn(CoreFnId::Add), vec![int_value(1)])))),
        "partial application: f = core_fn( + ), args = [1]"
    );
    assert_eq!(
        shown(&GenericValue::Composition(Rc::new(vec![GenericValue::CoreFn(CoreFnId::Add)]))),
        "composition: [core_fn( + )]"
    );
    assert_eq!(
        shown(&GenericValue::Error(Rc::new(RuntimeError::CantCastToNum(text("a"))))),
        "error: can't cast value \"a\" to number"
    );
    assert_eq!(shown(&list(vec![float(1.0), int_value(2)])), "[1., 2]");
}

#[test]
fn string_padding_and_indentation() {
    assert_eq!(pad(5, '-', "ab".to_string()), "ab---");
    assert_eq!(pad(1, '-', "ab".to_string()), "ab");
    assert_eq!(pad(5, 'é', "ab".to_string()), "abéé");
    assert_eq!(pad(4, '-', "é".to_string()), "é--");
    assert_eq!(indent_lines(2, "a\nb".to_string()), "  a\n  b");
    assert_eq!(indent_lines(1, "".to_string()), " ");
}

#[test]
fn core_fn_names_round_trip() {
    let named = [
        CoreFnId::Print,
        CoreFnId::Apply,
        CoreFnId::When,
        CoreFnId::If,
        CoreFnId::Partial,
        CoreFnId::Compose,
        CoreFnId::FindSome,
        CoreFnId::Reduce,
        CoreFnId::Memoize,
        CoreFnId::Constantly,
        CoreFnId::NumericalEqual,
        CoreFnId::IsZero,
        CoreFnId::IsNan,
        CoreFnId::IsInf,
        CoreFnId::IsEven,
        CoreFnId::IsOdd,
        CoreFnId::IsPos,
        CoreFnId::IsNeg,
        CoreFnId::Inc,
        CoreFnId::Dec,
        CoreFnId::Abs,
        CoreFnId::Floor,
        CoreFnId::Ceil,
        CoreFnId::Sqrt,
        CoreFnId::Exp,
        CoreFnId::Exp2,
        CoreFnId::Ln,
        CoreFnId::Log2,
        CoreFnId::Add,
        CoreFnId::Subtract,
        CoreFnId::Multiply,
        CoreFnId::Divide,
        CoreFnId::Pow,
        CoreFnId::Mod,
        CoreFnId::Quot,
        CoreFnId::Min,
        CoreFnId::Max,
        CoreFnId::GreaterThan,
        CoreFnId::GreaterThanOrEqual,
        CoreFnId::LessThan,
        CoreFnId::LessThanOrEqual,
        CoreFnId::Rand,
        CoreFnId::RandInt,
        CoreFnId::Equal,
        CoreFnId::NotEqual,
        CoreFnId::Not,
        CoreFnId::And,
        CoreFnId::Or,
        CoreFnId::Xor,
        CoreFnId::IsEmpty,
        CoreFnId::First,
        CoreFnId::Count,
        CoreFnId::Flatten,
        CoreFnId::Remove,
        CoreFnId::Filter,
        CoreFnId::CollectionMap,
        CoreFnId::CollectionSet,
        CoreFnId::SetIn,
        CoreFnId::Get,
        CoreFnId::GetIn,
        CoreFnId::Update,
        CoreFnId::UpdateIn,
        CoreFnId::MinKey,
        CoreFnId::MaxKey,
        CoreFnId::Push,
        CoreFnId::Sort,
        CoreFnId::SortBy,
        CoreFnId::CreateList,
        CoreFnId::Last,
        CoreFnId::Rest,
        CoreFnId::ButLast,
        CoreFnId::Nth,
        CoreFnId::NthFromLast,
        CoreFnId::Cons,
        CoreFnId::Concat,
        CoreFnId::Take,
        CoreFnId::Drop,
        CoreFnId::Reverse,
        CoreFnId::Distinct,
        CoreFnId::Sub,
        CoreFnId::Partition,
        CoreFnId::Pad,
        CoreFnId::CreateMap,
        CoreFnId::Keys,
        CoreFnId::Values,
        CoreFnId::Zip,
        CoreFnId::Invert,
        CoreFnId::Merge,
        CoreFnId::MergeWith,
        CoreFnId::MapKeys,
        CoreFnId::MapValues,
        CoreFnId::SelectKeys,
        CoreFnId::CreateSet,
        CoreFnId::Union,
        CoreFnId::Intersection,
        CoreFnId::Difference,
        CoreFnId::SymmetricDifference,
        CoreFnId::Range,
        CoreFnId::Repeat,
        CoreFnId::Repeatedly,
        CoreFnId::Iterate,
        CoreFnId::IsNil,
        CoreFnId::IsBool,
        CoreFnId::IsChar,
        CoreFnId::IsNum,
        CoreFnId::IsInt,
        CoreFnId::IsFloat,
        CoreFnId::IsSymbol,
        CoreFnId::IsString,
        CoreFnId::IsList,
        CoreFnId::IsMap,
        CoreFnId::IsSet,
        CoreFnId::IsCollection,
        CoreFnId::IsFn,
        CoreFnId::ToBool,
        CoreFnId::ToChar,
        CoreFnId::ToNum,
        CoreFnId::ToInt,
        CoreFnId::ToFloat,
        CoreFnId::ToSymbol,
        CoreFnId::ToString,
        CoreFnId::ToList,
        CoreFnId::ToMap,
    ];
    for id in named {
        assert_eq!(CoreFnId::from_name(id.name()), Some(id));
    }
    assert_eq!(CoreFnId::from_name("no-such-function"), None);
    assert_eq!(CoreFnId::from_name("+"), Some(CoreFnId::Add));
}

#[test]
fn num_min_and_max() {
    let host = TestHost;
    assert!(matches!(Num::min(Num::Int(3), &Num::Int(-2), &host), Num::Int(-2)));
    assert!(matches!(Num::max(Num::Int(3), &Num::Int(-2), &host), Num::Int(3)));
    let one_and_a_half = Num::Float(1.5f64.to_bits());
    assert!(matches!(Num::min(Num::Int(1), &one_and_a_half, &host), Num::Int(1)));
    assert!(matches!(Num::max(Num::Int(1), &one_and_a_half, &host), Num::Float(x) if f64::from_bits(x) == 1.5));
    let nan = Num::Float(f64::NAN.to_bits());
    assert!(matches!(Num::min(one_and_a_half, &nan, &host), Num::Float(x) if f64::from_bits(x) == 1.5));
    assert!(matches!(Num::max(one_and_a_half, &nan, &host), Num::Float(x) if f64::from_bits(x).is_nan()));
    let negative = Num::Float((-2.0f64).to_bits());
    assert!(matches!(Num::min(one_and_a_half, &negative, &host), Num::Float(x) if f64::from_bits(x) == -2.0));
}
