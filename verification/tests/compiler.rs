use std::fmt::Debug;
use std::rc::Rc;

use pidgin::blocks::{block_usages_known, GenericBlock};
use pidgin::compiler::ast_to_ir::expression_ast_to_ir;
use pidgin::compiler::error::CompilationError;
use pidgin::compiler::transformations::lifetimes::LifetimeError;
use pidgin::compiler::parse::{parse_sexp, sexp_parses, tokenize, CantParseTokenError, Token, Tree};
use pidgin::compiler::transformations::cleanup::erase_unused_constants;
use pidgin::compiler::transformations::core_inlining::inline_core_fn_calls;
use pidgin::compiler::transformations::raw_ir_to_bytecode;
use pidgin::compiler::transformations::register_allocation::{Block, RuntimeInstruction};
use pidgin::compiler::{SSABlock, SSAInstruction, SSAValue};
use pidgin::evaluate_pidgin_sexp;
use pidgin::instructions::Instruction::{Const, Add, ButLast, Call, Cons, CopyArgument, Divide, EmptyList, First, IsEmpty, Last, Multiply, Push, Rest, Return, Subtract};
use pidgin::instructions::Instruction;
use pidgin::runtime::core_functions::CoreFnId;
use pidgin::runtime::data::{ExternalFunction, GenericValue, Num, Value};
use pidgin::runtime::evaluation::EvaluationState;
use pidgin::runtime::host::{FloatOp, Host};

/// Floats by `f64`; no external functions.
struct TestHost;

fn f(bits: u64) -> f64 {
    f64::from_bits(bits)
}

impl Host for TestHost {
    fn float(&self, op: FloatOp) -> u64 {
        match op {
            FloatOp::Add(a, b) => (f(a) + f(b)).to_bits(),
            FloatOp::Subtract(a, b) => (f(a) - f(b)).to_bits(),
            FloatOp::Multiply(a, b) => (f(a) * f(b)).to_bits(),
            FloatOp::Divide(a, b) => (f(a) / f(b)).to_bits(),
            FloatOp::FromInt(i) => (i as f64).to_bits(),
            FloatOp::Floor(a) => f(a).floor() as i64 as u64,
            FloatOp::Ceil(a) => f(a).ceil() as i64 as u64,
            FloatOp::Truncate(a) => f(a) as i64 as u64,
            FloatOp::Sqrt(a) => f(a).sqrt().to_bits(),
            FloatOp::Exp(a) => f(a).exp().to_bits(),
            FloatOp::Exp2(a) => f(a).exp2().to_bits(),
            FloatOp::Ln(a) => f(a).ln().to_bits(),
            FloatOp::Log2(a) => f(a).log2().to_bits(),
        }
    }

    fn parse_float(&self, text: &str) -> Option<u64> {
        text.parse::<f64>().ok().map(|x| x.to_bits())
    }

    fn format_float(&self, bits: u64) -> String {
        f(bits).to_string()
    }

    fn print(&self, text: String) {
        println!("{}", text);
    }

    fn call_external(&self, _function: &ExternalFunction, _args: Vec<Value>) -> Result<Value, u64> {
        Err(0)
    }
}

fn debug_string<T: Debug>(x: &T) -> String {
    format!("{:?}", x)
}

fn num<I, O, R, M>(i: i64) -> GenericValue<I, O, R, M> {
    GenericValue::Number(Num::Int(i))
}

fn flt<I, O, R, M>(x: f64) -> GenericValue<I, O, R, M> {
    GenericValue::Number(Num::Float(x.to_bits()))
}

fn lst<I, O, R, M>(values: Vec<GenericValue<I, O, R, M>>) -> GenericValue<I, O, R, M> {
    GenericValue::List(Rc::new(values))
}

fn composite<I, O, R, M>(args: u8, block: GenericBlock<I, O, R, M>) -> GenericValue<I, O, R, M> {
    GenericValue::composite_fn(args, block)
}

/// An instruction of an intermediate block, or a `Const` of a value that goes to the
/// block's constants.
enum SsaOp {
    SI(SSAInstruction),
    SK(usize, SSAValue<()>),
}
use SsaOp::{SI, SK};

/// An instruction of a bytecode block, or a `Const` of a value that goes to the block's
/// constants.
enum ByteOp {
    BI(RuntimeInstruction),
    BK(u8, Value),
}
use ByteOp::{BI, BK};

fn ssa_block(ops: Vec<SsaOp>) -> SSABlock<()> {
    let mut instructions = vec![];
    let mut constants = vec![];
    for op in ops {
        match op {
            SI(i) => instructions.push(i),
            SK(r, v) => {
                instructions.push(Const(r, constants.len() as u16));
                constants.push(v);
            }
        }
    }
    SSABlock::new(instructions, constants)
}

fn block(ops: Vec<ByteOp>) -> Block {
    let mut instructions = vec![];
    let mut constants = vec![];
    for op in ops {
        match op {
            BI(i) => instructions.push(i),
            BK(r, v) => {
                instructions.push(Const(r, constants.len() as u16));
                constants.push(v);
            }
        }
    }
    Block::new(instructions, constants)
}

fn raw_ir(sexp: &str) -> SSABlock<()> {
    assert!(sexp_parses(sexp));
    let block = expression_ast_to_ir(parse_sexp(sexp), &TestHost).unwrap();
    assert!(block_usages_known(&block));
    block
}

fn inline_and_clean(raw_ir: SSABlock<()>) -> SSABlock<()> {
    assert!(block_usages_known(&raw_ir));
    let inlined = inline_core_fn_calls(raw_ir).unwrap();
    assert!(block_usages_known(&inlined));
    erase_unused_constants(inlined).unwrap()
}

fn check_raw_ir(sexp: &str, expected: SSABlock<()>) {
    assert_eq!(debug_string(&raw_ir(sexp)), debug_string(&expected), "incorrect raw ir");
}

fn check_bytecode(sexp: &str, expected: Block) {
    let bytecode = raw_ir_to_bytecode(raw_ir(sexp)).unwrap();
    assert_eq!(debug_string(&bytecode), debug_string(&expected), "incorrect bytecode");
}

fn check_output(sexp: &str, expected: Value) {
    let bytecode = raw_ir_to_bytecode(raw_ir(sexp)).unwrap();
    let output = EvaluationState::new(bytecode).evaluate(&TestHost).unwrap();
    assert_eq!(debug_string(&output), debug_string(&Some(expected)), "incorrect output");
}

#[test]
fn binary_addition() {
    let sexp = "(+ 1 2)";
    check_raw_ir(sexp, ssa_block(vec![SK(0, num(1)), SK(1, num(2)), SK(2, GenericValue::CoreFn(CoreFnId::Add)), SI(Call(3, 2, 2)), SI(CopyArgument(0)), SI(CopyArgument(1)), SI(Return(3))]));
    check_bytecode(sexp, block(vec![BK(0, num(1)), BK(1, num(2)), BI(Add(0, 0, 1)), BI(Return(0))]));
    check_output(sexp, num(3));
  }

#[test]
fn subtraction() {
    let sexp = "(- 1 2)";
    check_raw_ir(sexp, ssa_block(vec![SK(0, num(1)), SK(1, num(2)), SK(2, GenericValue::CoreFn(CoreFnId::Subtract)), SI(Call(3, 2, 2)), SI(CopyArgument(0)), SI(CopyArgument(1)), SI(Return(3))]));
    check_bytecode(sexp, block(vec![BK(0, num(1)), BK(1, num(2)), BI(Subtract(0, 0, 1)), BI(Return(0))]));
    check_output(sexp, num(-1));
  }

#[test]
fn binary_multiplication() {
    let sexp = "(* 1 2)";
    check_raw_ir(sexp, ssa_block(vec![SK(0, num(1)), SK(1, num(2)), SK(2, GenericValue::CoreFn(CoreFnId::Multiply)), SI(Call(3, 2, 2)), SI(CopyArgument(0)), SI(CopyArgument(1)), SI(Return(3))]));
    check_bytecode(sexp, block(vec![BK(0, num(1)), BK(1, num(2)), BI(Multiply(0, 0, 1)), BI(Return(0))]));
    check_output(sexp, num(2));
  }

#[test]
fn division() {
    let sexp = "(/ 1 2)";
    check_raw_ir(sexp, ssa_block(vec![SK(0, num(1)), SK(1, num(2)), SK(2, GenericValue::CoreFn(CoreFnId::Divide)), SI(Call(3, 2, 2)), SI(CopyArgument(0)), SI(CopyArgument(1)), SI(Return(3))]));
    check_bytecode(sexp, block(vec![BK(0, num(1)), BK(1, num(2)), BI(Divide(0, 0, 1)), BI(Return(0))]));
    check_output(sexp, flt(0.5));
  }

#[test]
fn nested_binary_addition() {
    let sexp = "(+ (+ 1 2) 3)";
    check_raw_ir(sexp, ssa_block(vec![SK(0, num(1)), SK(1, num(2)), SK(2, GenericValue::CoreFn(CoreFnId::Add)), SI(Call(3, 2, 2)), SI(CopyArgument(0)), SI(CopyArgument(1)), SK(4, num(3)), SK(5, GenericValue::CoreFn(CoreFnId::Add)), SI(Call(6, 5, 2)), SI(CopyArgument(3)), SI(CopyArgument(4)), SI(Return(6))]));
    check_bytecode(sexp, block(vec![BK(0, num(1)), BK(1, num(2)), BI(Add(0, 0, 1)), BK(1, num(3)), BI(Add(0, 0, 1)), BI(Return(0))]));
    check_output(sexp, num(6));
  }

#[test]
fn trinary_addition() {
    let sexp = "(+ 1 2 3)";
    check_raw_ir(sexp, ssa_block(vec![SK(0, num(1)), SK(1, num(2)), SK(2, num(3)), SK(3, GenericValue::CoreFn(CoreFnId::Add)), SI(Call(4, 3, 3)), SI(CopyArgument(0)), SI(CopyArgument(1)), SI(CopyArgument(2)), SI(Return(4))]));
    check_bytecode(sexp, block(vec![BK(0, num(1)), BK(1, num(2)), BK(2, num(3)), BI(Add(0, 0, 1)), BI(Add(0, 0, 2)), BI(Return(0))]));
    check_output(sexp, num(6));
  }

#[test]
fn arity_5_addition() {
    let sexp = "(+ 1 2 3 4 5)";
    check_raw_ir(sexp, ssa_block(vec![SK(0, num(1)), SK(1, num(2)), SK(2, num(3)), SK(3, num(4)), SK(4, num(5)), SK(5, GenericValue::CoreFn(CoreFnId::Add)), SI(Call(6, 5, 5)), SI(CopyArgument(0)), SI(CopyArgument(1)), SI(CopyArgument(2)), SI(CopyArgument(3)), SI(CopyArgument(4)), SI(Return(6))]));
    check_bytecode(sexp, block(vec![BK(0, num(1)), BK(1, num(2)), BK(2, num(3)), BK(3, num(4)), BK(4, num(5)), BI(Add(0, 0, 1)), BI(Add(0, 0, 2)), BI(Add(0, 0, 3)), BI(Add(0, 0, 4)), BI(Return(0))]));
    check_output(sexp, num(15));
  }

#[test]
fn trinary_multiplication() {
    let sexp = "(* 2 3 4)";
    check_raw_ir(sexp, ssa_block(vec![SK(0, num(2)), SK(1, num(3)), SK(2, num(4)), SK(3, GenericValue::CoreFn(CoreFnId::Multiply)), SI(Call(4, 3, 3)), SI(CopyArgument(0)), SI(CopyArgument(1)), SI(CopyArgument(2)), SI(Return(4))]));
    check_bytecode(sexp, block(vec![BK(0, num(2)), BK(1, num(3)), BK(2, num(4)), BI(Multiply(0, 0, 1)), BI(Multiply(0, 0, 2)), BI(Return(0))]));
    check_output(sexp, num(24));
  }

#[test]
fn arity_5_multiplication() {
    let sexp = "(* 2 3 4 5 6)";
    check_raw_ir(sexp, ssa_block(vec![SK(0, num(2)), SK(1, num(3)), SK(2, num(4)), SK(3, num(5)), SK(4, num(6)), SK(5, GenericValue::CoreFn(CoreFnId::Multiply)), SI(Call(6, 5, 5)), SI(CopyArgument(0)), SI(CopyArgument(1)), SI(CopyArgument(2)), SI(CopyArgument(3)), SI(CopyArgument(4)), SI(Return(6))]));
    check_bytecode(sexp, block(vec![BK(0, num(2)), BK(1, num(3)), BK(2, num(4)), BK(3, num(5)), BK(4, num(6)), BI(Multiply(0, 0, 1)), BI(Multiply(0, 0, 2)), BI(Multiply(0, 0, 3)), BI(Multiply(0, 0, 4)), BI(Return(0))]));
    check_output(sexp, num(720));
  }

#[test]
fn empty_list() {
    let sexp = "(list)";
    check_raw_ir(sexp, ssa_block(vec![SK(0, GenericValue::CoreFn(CoreFnId::CreateList)), SI(Call(1, 0, 0)), SI(Return(1))]));
    check_bytecode(sexp, block(vec![BI(EmptyList(0)), BI(Return(0))]));
    check_output(sexp, lst(vec![]));
  }

#[test]
fn single_element_list() {
    let sexp = "(list 1)";
    check_raw_ir(sexp, ssa_block(vec![SK(0, num(1)), SK(1, GenericValue::CoreFn(CoreFnId::CreateList)), SI(Call(2, 1, 1)), SI(CopyArgument(0)), SI(Return(2))]));
    check_bytecode(sexp, block(vec![BK(0, num(1)), BI(EmptyList(1)), BI(Push(1, 0)), BI(Return(1))]));
    check_output(sexp, lst(vec![num(1)]));
  }

#[test]
fn multi_element_list() {
    let sexp = "(list 1 2 3)";
    check_raw_ir(sexp, ssa_block(vec![SK(0, num(1)), SK(1, num(2)), SK(2, num(3)), SK(3, GenericValue::CoreFn(CoreFnId::CreateList)), SI(Call(4, 3, 3)), SI(CopyArgument(0)), SI(CopyArgument(1)), SI(CopyArgument(2)), SI(Return(4))]));
    check_bytecode(sexp, block(vec![BK(0, num(1)), BK(1, num(2)), BK(2, num(3)), BI(EmptyList(3)), BI(Push(3, 0)), BI(Push(3, 1)), BI(Push(3, 2)), BI(Return(3))]));
    check_output(sexp, lst(vec![num(1), num(2), num(3)]));
  }

#[test]
fn nil_first() {
    let sexp = "(first nil)";
    check_raw_ir(sexp, ssa_block(vec![SK(0, GenericValue::Nil), SK(1, GenericValue::CoreFn(CoreFnId::First)), SI(Call(2, 1, 1)), SI(CopyArgument(0)), SI(Return(2))]));
    check_bytecode(sexp, block(vec![BK(0, GenericValue::Nil), BI(First(0, 0)), BI(Return(0))]));
    check_output(sexp, GenericValue::Nil);
  }

#[test]
fn empty_list_first() {
    let sexp = "(first (list))";
    check_raw_ir(sexp, ssa_block(vec![SK(0, GenericValue::CoreFn(CoreFnId::CreateList)), SI(Call(1, 0, 0)), SK(2, GenericValue::CoreFn(CoreFnId::First)), SI(Call(3, 2, 1)), SI(CopyArgument(1)), SI(Return(3))]));
    check_bytecode(sexp, block(vec![BI(EmptyList(0)), BI(First(0, 0)), BI(Return(0))]));
    check_output(sexp, GenericValue::Nil);
  }

#[test]
fn nonempty_list_first() {
    let sexp = "(first (list 1))";
    check_raw_ir(sexp, ssa_block(vec![SK(0, num(1)), SK(1, GenericValue::CoreFn(CoreFnId::CreateList)), SI(Call(2, 1, 1)), SI(CopyArgument(0)), SK(3, GenericValue::CoreFn(CoreFnId::First)), SI(Call(4, 3, 1)), SI(CopyArgument(2)), SI(Return(4))]));
    check_bytecode(sexp, block(vec![BK(0, num(1)), BI(EmptyList(1)), BI(Push(1, 0)), BI(First(0, 1)), BI(Return(0))]));
    check_output(sexp, num(1));
  }

#[test]
fn nil_last() {
    let sexp = "(last nil)";
    check_raw_ir(sexp, ssa_block(vec![SK(0, GenericValue::Nil), SK(1, GenericValue::CoreFn(CoreFnId::Last)), SI(Call(2, 1, 1)), SI(CopyArgument(0)), SI(Return(2))]));
    check_bytecode(sexp, block(vec![BK(0, GenericValue::Nil), BI(Last(0, 0)), BI(Return(0))]));
    check_output(sexp, GenericValue::Nil);
  }

#[test]
fn empty_list_last() {
    let sexp = "(last (list))";
    check_raw_ir(sexp, ssa_block(vec![SK(0, GenericValue::CoreFn(CoreFnId::CreateList)), SI(Call(1, 0, 0)), SK(2, GenericValue::CoreFn(CoreFnId::Last)), SI(Call(3, 2, 1)), SI(CopyArgument(1)), SI(Return(3))]));
    check_bytecode(sexp, block(vec![BI(EmptyList(0)), BI(Last(0, 0)), BI(Return(0))]));
    check_output(sexp, GenericValue::Nil);
  }

#[test]
fn nonempty_list_last() {
    let sexp = "(last (list 1))";
    check_raw_ir(sexp, ssa_block(vec![SK(0, num(1)), SK(1, GenericValue::CoreFn(CoreFnId::CreateList)), SI(Call(2, 1, 1)), SI(CopyArgument(0)), SK(3, GenericValue::CoreFn(CoreFnId::Last)), SI(Call(4, 3, 1)), SI(CopyArgument(2)), SI(Return(4))]));
    check_bytecode(sexp, block(vec![BK(0, num(1)), BI(EmptyList(1)), BI(Push(1, 0)), BI(Last(0, 1)), BI(Return(0))]));
    check_output(sexp, num(1));
  }

#[test]
fn nil_rest() {
    let sexp = "(rest nil)";
    check_raw_ir(sexp, ssa_block(vec![SK(0, GenericValue::Nil), SK(1, GenericValue::CoreFn(CoreFnId::Rest)), SI(Call(2, 1, 1)), SI(CopyArgument(0)), SI(Return(2))]));
    check_bytecode(sexp, block(vec![BK(0, GenericValue::Nil), BI(Rest(0)), BI(Return(0))]));
    check_output(sexp, GenericValue::Nil);
  }

#[test]
fn empty_list_rest() {
    let sexp = "(rest (list))";
    check_raw_ir(sexp, ssa_block(vec![SK(0, GenericValue::CoreFn(CoreFnId::CreateList)), SI(Call(1, 0, 0)), SK(2, GenericValue::CoreFn(CoreFnId::Rest)), SI(Call(3, 2, 1)), SI(CopyArgument(1)), SI(Return(3))]));
    check_bytecode(sexp, block(vec![BI(EmptyList(0)), BI(Rest(0)), BI(Return(0))]));
    check_output(sexp, lst(vec![]));
  }

#[test]
fn nonempty_list_rest() {
    let sexp = "(rest (list 1 2))";
    check_raw_ir(sexp, ssa_block(vec![SK(0, num(1)), SK(1, num(2)), SK(2, GenericValue::CoreFn(CoreFnId::CreateList)), SI(Call(3, 2, 2)), SI(CopyArgument(0)), SI(CopyArgument(1)), SK(4, GenericValue::CoreFn(CoreFnId::Rest)), SI(Call(5, 4, 1)), SI(CopyArgument(3)), SI(Return(5))]));
    check_bytecode(sexp, block(vec![BK(0, num(1)), BK(1, num(2)), BI(EmptyList(2)), BI(Push(2, 0)), BI(Push(2, 1)), BI(Rest(2)), BI(Return(2))]));
    check_output(sexp, lst(vec![num(2)]));
  }

#[test]
fn nil_butlast() {
    let sexp = "(butlast nil)";
    check_raw_ir(sexp, ssa_block(vec![SK(0, GenericValue::Nil), SK(1, GenericValue::CoreFn(CoreFnId::ButLast)), SI(Call(2, 1, 1)), SI(CopyArgument(0)), SI(Return(2))]));
    check_bytecode(sexp, block(vec![BK(0, GenericValue::Nil), BI(ButLast(0)), BI(Return(0))]));
    check_output(sexp, GenericValue::Nil);
  }

#[test]
fn empty_list_butlast() {
    let sexp = "(butlast (list))";
    check_raw_ir(sexp, ssa_block(vec![SK(0, GenericValue::CoreFn(CoreFnId::CreateList)), SI(Call(1, 0, 0)), SK(2, GenericValue::CoreFn(CoreFnId::ButLast)), SI(Call(3, 2, 1)), SI(CopyArgument(1)), SI(Return(3))]));
    check_bytecode(sexp, block(vec![BI(EmptyList(0)), BI(ButLast(0)), BI(Return(0))]));
    check_output(sexp, lst(vec![]));
  }

#[test]
fn nonempty_list_butlast() {
    let sexp = "(butlast (list 1 2))";
    check_raw_ir(sexp, ssa_block(vec![SK(0, num(1)), SK(1, num(2)), SK(2, GenericValue::CoreFn(CoreFnId::CreateList)), SI(Call(3, 2, 2)), SI(CopyArgument(0)), SI(CopyArgument(1)), SK(4, GenericValue::CoreFn(CoreFnId::ButLast)), SI(Call(5, 4, 1)), SI(CopyArgument(3)), SI(Return(5))]));
    check_bytecode(sexp, block(vec![BK(0, num(1)), BK(1, num(2)), BI(EmptyList(2)), BI(Push(2, 0)), BI(Push(2, 1)), BI(ButLast(2)), BI(Return(2))]));
    check_output(sexp, lst(vec![num(1)]));
  }

#[test]
fn empty_list_push() {
    let sexp = "(push (list) 1)";
    check_raw_ir(sexp, ssa_block(vec![SK(0, GenericValue::CoreFn(CoreFnId::CreateList)), SI(Call(1, 0, 0)), SK(2, num(1)), SK(3, GenericValue::CoreFn(CoreFnId::Push)), SI(Call(4, 3, 2)), SI(CopyArgument(1)), SI(CopyArgument(2)), SI(Return(4))]));
    check_bytecode(sexp, block(vec![BI(EmptyList(0)), BK(1, num(1)), BI(Push(0, 1)), BI(Return(0))]));
    check_output(sexp, lst(vec![num(1)]));
  }

#[test]
fn nonempty_list_push() {
    let sexp = "(push (list 1) 2)";
    check_raw_ir(sexp, ssa_block(vec![SK(0, num(1)), SK(1, GenericValue::CoreFn(CoreFnId::CreateList)), SI(Call(2, 1, 1)), SI(CopyArgument(0)), SK(3, num(2)), SK(4, GenericValue::CoreFn(CoreFnId::Push)), SI(Call(5, 4, 2)), SI(CopyArgument(2)), SI(CopyArgument(3)), SI(Return(5))]));
    check_bytecode(sexp, block(vec![BK(0, num(1)), BI(EmptyList(1)), BI(Push(1, 0)), BK(0, num(2)), BI(Push(1, 0)), BI(Return(1))]));
    check_output(sexp, lst(vec![num(1), num(2)]));
  }

#[test]
fn empty_list_cons() {
    let sexp = "(cons (list) 1)";
    check_raw_ir(sexp, ssa_block(vec![SK(0, GenericValue::CoreFn(CoreFnId::CreateList)), SI(Call(1, 0, 0)), SK(2, num(1)), SK(3, GenericValue::CoreFn(CoreFnId::Cons)), SI(Call(4, 3, 2)), SI(CopyArgument(1)), SI(CopyArgument(2)), SI(Return(4))]));
    check_bytecode(sexp, block(vec![BI(EmptyList(0)), BK(1, num(1)), BI(Cons(0, 1)), BI(Return(0))]));
    check_output(sexp, lst(vec![num(1)]));
  }

#[test]
fn nonempty_list_cons() {
    let sexp = "(cons (list 2) 1)";
    check_raw_ir(sexp, ssa_block(vec![SK(0, num(2)), SK(1, GenericValue::CoreFn(CoreFnId::CreateList)), SI(Call(2, 1, 1)), SI(CopyArgument(0)), SK(3, num(1)), SK(4, GenericValue::CoreFn(CoreFnId::Cons)), SI(Call(5, 4, 2)), SI(CopyArgument(2)), SI(CopyArgument(3)), SI(Return(5))]));
    check_bytecode(sexp, block(vec![BK(0, num(2)), BI(EmptyList(1)), BI(Push(1, 0)), BK(0, num(1)), BI(Cons(1, 0)), BI(Return(1))]));
    check_output(sexp, lst(vec![num(1), num(2)]));
  }

#[test]
fn empty_list_is_empty() {
    let sexp = "(empty? (list))";
    check_raw_ir(sexp, ssa_block(vec![SK(0, GenericValue::CoreFn(CoreFnId::CreateList)), SI(Call(1, 0, 0)), SK(2, GenericValue::CoreFn(CoreFnId::IsEmpty)), SI(Call(3, 2, 1)), SI(CopyArgument(1)), SI(Return(3))]));
    check_bytecode(sexp, block(vec![BI(EmptyList(0)), BI(IsEmpty(0, 0)), BI(Return(0))]));
    check_output(sexp, GenericValue::Bool(true));
  }

#[test]
fn nonempty_list_is_nonempty() {
    let sexp = "(empty? (list 1))";
    check_raw_ir(sexp, ssa_block(vec![SK(0, num(1)), SK(1, GenericValue::CoreFn(CoreFnId::CreateList)), SI(Call(2, 1, 1)), SI(CopyArgument(0)), SK(3, GenericValue::CoreFn(CoreFnId::IsEmpty)), SI(Call(4, 3, 1)), SI(CopyArgument(2)), SI(Return(4))]));
    check_bytecode(sexp, block(vec![BK(0, num(1)), BI(EmptyList(1)), BI(Push(1, 0)), BI(IsEmpty(0, 1)), BI(Return(0))]));
    check_output(sexp, GenericValue::Bool(false));
  }

#[test]
fn fn_definition() {
    let sexp = "(fn (x) (* x x))";
    check_raw_ir(sexp, ssa_block(vec![SK(0, composite(1, ssa_block(vec![SK(1, GenericValue::CoreFn(CoreFnId::Multiply)), SI(Call(2, 1, 2)), SI(CopyArgument(0)), SI(CopyArgument(0)), SI(Return(2))]))), SI(Return(0))]));
    check_bytecode(sexp, block(vec![BK(0, composite(1, block(vec![BI(Multiply(0, 0, 0)), BI(Return(0))]))), BI(Return(0))]));
    check_output(sexp, composite(1, block(vec![BI(Multiply(0, 0, 0)), BI(Return(0))])));
  }

#[test]
fn fn_definition_mutliarg() {
    let sexp = "(fn (x y) (* x x y y))";
    check_raw_ir(sexp, ssa_block(vec![SK(0, composite(2, ssa_block(vec![SK(2, GenericValue::CoreFn(CoreFnId::Multiply)), SI(Call(3, 2, 4)), SI(CopyArgument(0)), SI(CopyArgument(0)), SI(CopyArgument(1)), SI(CopyArgument(1)), SI(Return(3))]))), SI(Return(0))]));
    check_bytecode(sexp, block(vec![BK(0, composite(2, block(vec![BI(Multiply(0, 0, 0)), BI(Multiply(0, 0, 1)), BI(Multiply(0, 0, 1)), BI(Return(0))]))), BI(Return(0))]));
    check_output(sexp, composite(2, block(vec![BI(Multiply(0, 0, 0)), BI(Multiply(0, 0, 1)), BI(Multiply(0, 0, 1)), BI(Return(0))])));
  }

#[test]
fn fn_definition_and_application() {
    let sexp = "((fn (x y) (* x x y y)) 2 3)";
    check_raw_ir(sexp, ssa_block(vec![SK(0, num(2)), SK(1, num(3)), SK(2, composite(2, ssa_block(vec![SK(2, GenericValue::CoreFn(CoreFnId::Multiply)), SI(Call(3, 2, 4)), SI(CopyArgument(0)), SI(CopyArgument(0)), SI(CopyArgument(1)), SI(CopyArgument(1)), SI(Return(3))]))), SI(Call(3, 2, 2)), SI(CopyArgument(0)), SI(CopyArgument(1)), SI(Return(3))]));
    check_bytecode(sexp, block(vec![BK(0, num(2)), BK(1, num(3)), BK(2, composite(2, block(vec![BI(Multiply(0, 0, 0)), BI(Multiply(0, 0, 1)), BI(Multiply(0, 0, 1)), BI(Return(0))]))), BI(Call(2, 2, 2)), BI(CopyArgument(0)), BI(CopyArgument(1)), BI(Return(2))]));
    check_output(sexp, num(36));
  }

#[test]
fn higher_order_fn_application() {
    let sexp = "((fn (f x) (f (f x))) (fn (x) (* x x)) 2)";
    check_raw_ir(sexp, ssa_block(vec![SK(0, composite(1, ssa_block(vec![SK(1, GenericValue::CoreFn(CoreFnId::Multiply)), SI(Call(2, 1, 2)), SI(CopyArgument(0)), SI(CopyArgument(0)), SI(Return(2))]))), SK(1, num(2)), SK(2, composite(2, ssa_block(vec![SI(Call(2, 0, 1)), SI(CopyArgument(1)), SI(Call(3, 0, 1)), SI(CopyArgument(2)), SI(Return(3))]))), SI(Call(3, 2, 2)), SI(CopyArgument(0)), SI(CopyArgument(1)), SI(Return(3))]));
    check_bytecode(sexp, block(vec![BK(0, composite(1, block(vec![BI(Multiply(0, 0, 0)), BI(Return(0))]))), BK(1, num(2)), BK(2, composite(2, block(vec![BI(Call(2, 0, 1)), BI(CopyArgument(1)), BI(Call(0, 0, 1)), BI(CopyArgument(2)), BI(Return(0))]))), BI(Call(2, 2, 2)), BI(CopyArgument(0)), BI(CopyArgument(1)), BI(Return(2))]));
    check_output(sexp, num(16));
  }

#[test]
fn core_inlining_inline_binary_addition() {
    let raw_ir = ssa_block(vec![SK(0, num(1)), SK(1, num(2)), SK(2, GenericValue::CoreFn(CoreFnId::Add)), SI(Call(3, 2, 2)), SI(CopyArgument(0)), SI(CopyArgument(1)), SI(Return(3))]);
    let inlined_ir =
      inline_and_clean(raw_ir);
    let expected_inlined_ir =
      ssa_block(vec![SK(0, num(1)), SK(1, num(2)), SI(Add(3, 0, 1)), SI(Return(3))]);
    assert_eq!(
      debug_string(&(inlined_ir.instructions, inlined_ir.constants)),
      debug_string(&(
        expected_inlined_ir.instructions,
        expected_inlined_ir.constants
      ))
    );
  }

#[test]
fn core_inlining_inline_trinary_addition() {
    let raw_ir = ssa_block(vec![SK(0, num(1)), SK(1, num(2)), SK(2, num(3)), SK(3, GenericValue::CoreFn(CoreFnId::Add)), SI(Call(4, 3, 3)), SI(CopyArgument(0)), SI(CopyArgument(1)), SI(CopyArgument(2)), SI(Return(4))]);
    let inlined_ir =
      inline_and_clean(raw_ir);
    let expected_inlined_ir = ssa_block(vec![SK(0, num(1)), SK(1, num(2)), SK(2, num(3)), SI(Add(5, 0, 1)), SI(Add(4, 5, 2)), SI(Return(4))]);
    assert_eq!(
      debug_string(&(inlined_ir.instructions, inlined_ir.constants)),
      debug_string(&(
        expected_inlined_ir.instructions,
        expected_inlined_ir.constants
      ))
    );
  }

#[test]
fn core_inlining_inline_quaternary_addition() {
    let raw_ir = ssa_block(vec![SK(0, num(1)), SK(1, num(2)), SK(2, num(3)), SK(3, num(4)), SK(4, GenericValue::CoreFn(CoreFnId::Add)), SI(Call(5, 4, 4)), SI(CopyArgument(0)), SI(CopyArgument(1)), SI(CopyArgument(2)), SI(CopyArgument(3)), SI(Return(5))]);
    let inlined_ir =
      inline_and_clean(raw_ir);
    let expected_inlined_ir = ssa_block(vec![SK(0, num(1)), SK(1, num(2)), SK(2, num(3)), SK(3, num(4)), SI(Add(6, 0, 1)), SI(Add(7, 6, 2)), SI(Add(5, 7, 3)), SI(Return(5))]);
    assert_eq!(
      debug_string(&(inlined_ir.instructions, inlined_ir.constants)),
      debug_string(&(
        expected_inlined_ir.instructions,
        expected_inlined_ir.constants
      ))
    );
  }

#[test]
fn core_inlining_inline_quaternary_multiplication() {
    let raw_ir = ssa_block(vec![SK(0, num(1)), SK(1, num(2)), SK(2, num(3)), SK(3, num(4)), SK(4, GenericValue::CoreFn(CoreFnId::Multiply)), SI(Call(5, 4, 4)), SI(CopyArgument(0)), SI(CopyArgument(1)), SI(CopyArgument(2)), SI(CopyArgument(3)), SI(Return(5))]);
    let inlined_ir =
      inline_and_clean(raw_ir);
    let expected_inlined_ir = ssa_block(vec![SK(0, num(1)), SK(1, num(2)), SK(2, num(3)), SK(3, num(4)), SI(Multiply(6, 0, 1)), SI(Multiply(7, 6, 2)), SI(Multiply(5, 7, 3)), SI(Return(5))]);
    assert_eq!(
      debug_string(&(inlined_ir.instructions, inlined_ir.constants)),
      debug_string(&(
        expected_inlined_ir.instructions,
        expected_inlined_ir.constants
      ))
    );
  }

#[test]
fn core_inlining_inline_push() {
    let raw_ir = ssa_block(vec![SI(EmptyList(0)), SK(1, num(5)), SK(2, GenericValue::CoreFn(CoreFnId::Push)), SI(Call(3, 2, 2)), SI(CopyArgument(0)), SI(CopyArgument(1)), SI(Return(3))]);
    let inlined_ir =
      inline_and_clean(raw_ir);
    let expected_inlined_ir =
      ssa_block(vec![SI(EmptyList(0)), SK(1, num(5)), SI(Push((0, 3), 1)), SI(Return(3))]);
    assert_eq!(
      debug_string(&(inlined_ir.instructions, inlined_ir.constants)),
      debug_string(&(
        expected_inlined_ir.instructions,
        expected_inlined_ir.constants
      ))
    );
  }

#[test]
fn core_inlining_inline_first() {
    let raw_ir = ssa_block(vec![SK(0, lst(vec![num(1), num(2), num(3)])), SK(1, GenericValue::CoreFn(CoreFnId::First)), SI(Call(2, 1, 1)), SI(CopyArgument(0)), SI(Return(2))]);
    let inlined_ir =
      inline_and_clean(raw_ir);
    let expected_inlined_ir = ssa_block(vec![SK(0, lst(vec![num(1), num(2), num(3)])), SI(First(2, 0)), SI(Return(2))]);
    assert_eq!(
      debug_string(&(inlined_ir.instructions, inlined_ir.constants)),
      debug_string(&(
        expected_inlined_ir.instructions,
        expected_inlined_ir.constants
      ))
    );
  }

#[test]
fn core_inlining_inline_rest() {
    let raw_ir = ssa_block(vec![SK(0, lst(vec![num(1), num(2), num(3)])), SK(1, GenericValue::CoreFn(CoreFnId::Rest)), SI(Call(2, 1, 1)), SI(CopyArgument(0)), SI(Return(2))]);
    let inlined_ir =
      inline_and_clean(raw_ir);
    let expected_inlined_ir = ssa_block(vec![SK(0, lst(vec![num(1), num(2), num(3)])), SI(Rest((0, 2))), SI(Return(2))]);
    assert_eq!(
      debug_string(&(inlined_ir.instructions, inlined_ir.constants)),
      debug_string(&(
        expected_inlined_ir.instructions,
        expected_inlined_ir.constants
      ))
    );
  }


fn token(text: &str) -> Token {
    Token::from_text(text.to_string(), TestHost.parse_float(text)).unwrap()
}

#[test]
fn parse_parse_int() {
    assert!(matches!(token("1"), Token::IntLiteral(1)));
}

#[test]
fn parse_parse_float() {
    assert!(matches!(token("1."), Token::FloatLiteral(x) if f64::from_bits(x) == 1.));
    assert!(matches!(token("-1.5"), Token::FloatLiteral(x) if f64::from_bits(x) == -1.5));
}

#[test]
fn parse_parse_nil() {
    assert!(matches!(token("nil"), Token::Nil));
}

#[test]
fn parse_parse_symbol() {
    assert!(matches!(token("hello"), Token::Symbol(s) if s == "hello"));
}

#[test]
fn parse_parse_string() {
    assert!(matches!(token("\"i'm a string!! :D\""), Token::StringLiteral(s) if s == "i'm a string!! :D"));
    let malformed = "\"i'm a malformed string D:";
    assert!(Token::from_text(malformed.to_string(), TestHost.parse_float(malformed)).is_err());
}

#[test]
fn token_parse_int() {
    assert!(matches!(token("1"), Token::IntLiteral(1)));
}

#[test]
fn token_parse_float() {
    assert!(matches!(token("1."), Token::FloatLiteral(x) if f64::from_bits(x) == 1.));
    assert!(matches!(token("-1.5"), Token::FloatLiteral(x) if f64::from_bits(x) == -1.5));
}

#[test]
fn token_parse_nil() {
    assert!(matches!(token("nil"), Token::Nil));
}

#[test]
fn token_parse_symbol() {
    assert!(matches!(token("hello"), Token::Symbol(s) if s == "hello"));
}

#[test]
fn token_parse_string() {
    assert!(matches!(token("\"i'm a string!! :D\""), Token::StringLiteral(s) if s == "i'm a string!! :D"));
    let malformed = "\"i'm a malformed string D:";
    assert!(Token::from_text(malformed.to_string(), TestHost.parse_float(malformed)).is_err());
}

#[test]
fn tokenize_splits_on_parentheses_and_white_space() {
    assert_eq!(tokenize("(+ 1\t(f x))"), vec!["(", "+", "1", "(", "f", "x", ")", ")"]);
    assert_eq!(tokenize("  "), Vec::<String>::new());
}

#[test]
fn parse_sexp_builds_nested_lists() {
    let tree = parse_sexp("(a (b c))");
    match tree {
        Tree::Inner(items) => {
            assert_eq!(items.len(), 2);
            assert!(matches!(&items[0], Tree::Leaf(s) if s == "a"));
            assert!(matches!(&items[1], Tree::Inner(inner) if inner.len() == 2));
        }
        Tree::Leaf(_) => panic!("expected a list"),
    }
    assert!(matches!(parse_sexp("x"), Tree::Leaf(s) if s == "x"));
}

#[test]
fn sexp_parses_rejects_unbalanced_and_empty_input() {
    assert!(sexp_parses("(+ 1 2)"));
    assert!(!sexp_parses(")"));
    assert!(!sexp_parses(""));
    assert!(sexp_parses("(+ 1"));
    assert!(matches!(parse_sexp("(+ 1"), Tree::Leaf(s) if s == "+"));
}

#[test]
fn evaluate_sexp_end_to_end() {
    assert_eq!(evaluate_pidgin_sexp("(+ 1 2)".to_string(), &TestHost).unwrap(), "3");
    assert_eq!(evaluate_pidgin_sexp("(* 2 3 4)".to_string(), &TestHost).unwrap(), "24");
    assert_eq!(evaluate_pidgin_sexp("(list 1 2)".to_string(), &TestHost).unwrap(), "[1, 2]");
    assert_eq!(evaluate_pidgin_sexp("(/ 1 2)".to_string(), &TestHost).unwrap(), "0.5");
    assert!(evaluate_pidgin_sexp(")".to_string(), &TestHost).is_err());
    assert!(evaluate_pidgin_sexp("(undefined-thing 1)".to_string(), &TestHost).is_err());
}

#[test]
fn pipeline_keeps_register_usages() {
    let bytecode = raw_ir_to_bytecode(raw_ir("((fn (x y) (* x x y y)) 2 3)")).unwrap();
    assert!(block_usages_known(&bytecode));
}

#[test]
fn error_messages() {
    assert_eq!(
        CantParseTokenError("\"x".to_string()).description(),
        "failed to parse token: \"\"x\""
    );
    assert_eq!(
        LifetimeError::UsedBeforeCreation(3, 4).description(),
        "attempted to use register 3 before creation at timestamp 4"
    );
    assert_eq!(
        CompilationError::OutputToExisting(1, Some(2), 5).description(),
        "attempted to output to register 1 at timestamp 5, when register was already created at timestamp Some(2)"
    );
    assert_eq!(
        CompilationError::ReplacingNonexistent(7, 8).description(),
        "attempting to replace register 7 at timestamp 8, but the register does not exist"
    );
}

#[test]
fn simultaneous_values_get_their_own_registers() {
    let bytecode = raw_ir_to_bytecode(raw_ir("(+ 1 2 3)")).unwrap();
    let targets: Vec<u8> = bytecode
        .instructions
        .iter()
        .filter_map(|instruction| match instruction {
            Const(target, _) => Some(*target),
            _ => None,
        })
        .collect();
    assert_eq!(targets.len(), 3);
    assert_ne!(targets[0], targets[1]);
    assert_ne!(targets[1], targets[2]);
    assert_ne!(targets[0], targets[2]);
}

#[test]
fn translated_instruction_keeps_usage_shape() {
    let instruction: Instruction<u8, u8, u8> = Add(1, 2, 3);
    let usages = instruction.usages();
    let translated = instruction.translate(|i: u8| i as u16 + 10, |o: u8| o as u16 + 20, |r: u8| r as u16);
    let new_usages = translated.usages();
    assert_eq!(new_usages.inputs, usages.inputs.iter().map(|i| *i as u16 + 10).collect::<Vec<u16>>());
    assert_eq!(new_usages.outputs, usages.outputs.iter().map(|o| *o as u16 + 20).collect::<Vec<u16>>());
}

#[test]
fn each_register_has_one_lifetime() {
    let with_lifetimes = pidgin::compiler::transformations::lifetimes::track_register_lifetimes(raw_ir("(+ 1 (* 2 3) 4)")).unwrap();
    let registers: Vec<_> = with_lifetimes.metadata.entries.iter().map(|entry| entry.0).collect();
    assert!(!registers.is_empty());
    for i in 0..registers.len() {
        for j in 0..registers.len() {
            if i != j {
                assert_ne!(registers[i], registers[j]);
            }
        }
    }
}

#[test]
fn lifetimes_have_their_shape() {
    let with_lifetimes = pidgin::compiler::transformations::lifetimes::track_register_lifetimes(inline_and_clean(raw_ir("(list 1 (+ 2 3) 4)"))).unwrap();
    let entries = &with_lifetimes.metadata.entries;
    let mut replacements = 0;
    for (register, lifetime) in entries.iter() {
        assert!(lifetime.creation.is_some());
        for pair in lifetime.usages.windows(2) {
            assert!(pair[0] <= pair[1]);
        }
        for usage in lifetime.usages.iter() {
            assert!(lifetime.creation.unwrap() <= *usage);
        }
        if let Some(by) = lifetime.replaced_by {
            replacements += 1;
            let replacing = entries.iter().find(|entry| entry.0 == by).unwrap();
            assert_eq!(replacing.1.replacing, Some(*register));
        }
        if let Some(of) = lifetime.replacing {
            let replaced = entries.iter().find(|entry| entry.0 == of).unwrap();
            assert_eq!(replaced.1.replaced_by, Some(*register));
        }
    }
    assert!(replacements > 0);
}
