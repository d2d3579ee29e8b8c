use vstd::prelude::*;
use crate::runtime::data::{ExternalFunction, Value};

verus! {

/// A floating-point operation on IEEE-754 binary64 numbers, each given by its bits.
#[derive(Debug, Clone, Copy, PartialEq, Eq, Structural)]
pub enum FloatOp {
    /// The sum of the two numbers.
    Add(u64, u64),
    /// The first number minus the second.
    Subtract(u64, u64),
    /// The product of the two numbers.
    Multiply(u64, u64),
    /// The first number divided by the second.
    Divide(u64, u64),
    /// The float nearest to the integer (`i as f64`).
    FromInt(i64),
    /// The greatest integer not above the number, as an `i64` (`f.floor() as i64`),
    /// given back as its two's-complement bits.
    Floor(u64),
    /// The least integer not below the number, as an `i64` (`f.ceil() as i64`), given back
    /// as its two's-complement bits.
    Ceil(u64),
    /// The number with its fraction dropped, as an `i64` (`f as i64`), given back as its
    /// two's-complement bits.
    Truncate(u64),
    /// The square root.
    Sqrt(u64),
    /// `e` raised to the number.
    Exp(u64),
    /// 2 raised to the number.
    Exp2(u64),
    /// The natural logarithm.
    Ln(u64),
    /// The base-2 logarithm.
    Log2(u64),
}

/// What a program's evaluation needs from the world around it: floating-point arithmetic,
/// and the functions that the embedding program provides to it.
///
/// Nothing is assumed of the answers: the evaluator is correct for every answer it gets.
pub trait Host {
    /// The result of a floating-point operation, as bits.
    fn float(&self, op: FloatOp) -> u64;

    /// The bits of the `f64` that `text` spells (`str::parse::<f64>`), if it spells one.
    fn parse_float(&self, text: &str) -> Option<u64>;

    /// The text of a float given by its bits, as `f64`'s `Display` writes it.
    fn format_float(&self, bits: u64) -> String;

    /// Shows a line of the program's output.
    fn print(&self, text: String);

    /// Calls an external function with the given arguments; an `Err` carries a handle
    /// to the error it raised.
    fn call_external(&self, function: &ExternalFunction, args: Vec<Value>) -> Result<
        Value,
        u64,
    >;
}

} // verus!
