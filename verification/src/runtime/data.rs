use std::rc::Rc;
use vstd::prelude::*;
use crate::instructions::SymbolIndex;
use crate::runtime::control::GenericCompositeFunction;
use crate::runtime::core_functions::CoreFnId;
use crate::runtime::error::RuntimeError;
use crate::runtime::host::{FloatOp, Host};
use crate::sharing::rc_clone;

verus! {

/// The sign bit of a binary64 number.
pub const FLOAT_SIGN: u64 = 0x8000_0000_0000_0000u64;

/// The exponent bits of a binary64 number.
pub const FLOAT_EXPONENT: u64 = 0x7ff0_0000_0000_0000u64;

/// The fraction bits of a binary64 number.
pub const FLOAT_FRACTION: u64 = 0x000f_ffff_ffff_ffffu64;

/// The bits of the binary64 number `1.0`.
pub const FLOAT_ONE: u64 = 0x3ff0_0000_0000_0000u64;

/// Whether the binary64 number with bits `b` is a NaN.
pub open spec fn float_is_nan(b: u64) -> bool {
    b & FLOAT_EXPONENT == FLOAT_EXPONENT && b & FLOAT_FRACTION != 0
}

/// Whether the binary64 number with bits `b` is an infinity.
pub open spec fn float_is_infinite(b: u64) -> bool {
    b & FLOAT_EXPONENT == FLOAT_EXPONENT && b & FLOAT_FRACTION == 0
}

/// Whether the binary64 number with bits `b` is a zero, of either sign.
pub open spec fn float_is_zero(b: u64) -> bool {
    b & !FLOAT_SIGN == 0
}

/// Whether the binary64 number with bits `b` is greater than zero.
pub open spec fn float_is_positive(b: u64) -> bool {
    !float_is_nan(b) && !float_is_zero(b) && b & FLOAT_SIGN == 0
}

/// Whether the binary64 number with bits `b` is less than zero.
pub open spec fn float_is_negative(b: u64) -> bool {
    !float_is_nan(b) && !float_is_zero(b) && b & FLOAT_SIGN != 0
}

/// IEEE-754 equality: no NaN equals anything, and the two zeros are equal.
pub open spec fn float_ieee_equal(a: u64, b: u64) -> bool {
    !float_is_nan(a) && !float_is_nan(b) && (a == b || (float_is_zero(a) && float_is_zero(b)))
}

/// The equality of totally ordered floats: IEEE-754 equality, except that every NaN
/// equals every NaN.
pub open spec fn float_total_equal(a: u64, b: u64) -> bool {
    (float_is_nan(a) && float_is_nan(b)) || float_ieee_equal(a, b)
}

/// IEEE-754 `<`: no NaN is below or above anything, and the two zeros are equal.
pub open spec fn float_less(a: u64, b: u64) -> bool {
    &&& !float_is_nan(a)
    &&& !float_is_nan(b)
    &&& !(float_is_zero(a) && float_is_zero(b))
    &&& if a & FLOAT_SIGN == 0 {
        b & FLOAT_SIGN == 0 && a < b
    } else {
        b & FLOAT_SIGN == 0 || a > b
    }
}

/// IEEE-754 `<=`.
pub open spec fn float_less_or_equal(a: u64, b: u64) -> bool {
    float_less(a, b) || float_ieee_equal(a, b)
}

/// The order of totally ordered floats: IEEE-754 `<`, except that a NaN is above every
/// other number.
pub open spec fn float_total_less(a: u64, b: u64) -> bool {
    if float_is_nan(a) {
        false
    } else if float_is_nan(b) {
        true
    } else {
        float_less(a, b)
    }
}

/// IEEE-754 `<` on two binary64 numbers given by their bits.
pub fn less_bits(a: u64, b: u64) -> (r: bool)
    ensures
        r == float_less(a, b),
{
    !is_nan_bits(a) && !is_nan_bits(b) && !(is_zero_bits(a) && is_zero_bits(b)) && if a
        & FLOAT_SIGN == 0 {
        b & FLOAT_SIGN == 0 && a < b
    } else {
        b & FLOAT_SIGN == 0 || a > b
    }
}

/// The order of totally ordered floats, on their bits.
pub fn total_less_bits(a: u64, b: u64) -> (r: bool)
    ensures
        r == float_total_less(a, b),
{
    if is_nan_bits(a) {
        false
    } else if is_nan_bits(b) {
        true
    } else {
        less_bits(a, b)
    }
}

/// Whether `b` is the bits of a NaN.
pub fn is_nan_bits(b: u64) -> (r: bool)
    ensures
        r == float_is_nan(b),
{
    b & FLOAT_EXPONENT == FLOAT_EXPONENT && b & FLOAT_FRACTION != 0
}

/// Whether `b` is the bits of an infinity.
pub fn is_infinite_bits(b: u64) -> (r: bool)
    ensures
        r == float_is_infinite(b),
{
    b & FLOAT_EXPONENT == FLOAT_EXPONENT && b & FLOAT_FRACTION == 0
}

/// Whether `b` is the bits of a zero.
pub fn is_zero_bits(b: u64) -> (r: bool)
    ensures
        r == float_is_zero(b),
{
    b & !FLOAT_SIGN == 0
}

/// IEEE-754 equality of two binary64 numbers given by their bits.
pub fn ieee_equal_bits(a: u64, b: u64) -> (r: bool)
    ensures
        r == float_ieee_equal(a, b),
{
    !is_nan_bits(a) && !is_nan_bits(b) && (a == b || (is_zero_bits(a) && is_zero_bits(b)))
}

/// `i` negated, where the negation of `i64::MIN` wraps around to itself.
pub open spec fn wrapped_negation(i: i64) -> i64 {
    if i == i64::MIN {
        i
    } else {
        (-i) as i64
    }
}

/// `i`'s absolute value, where that of `i64::MIN` wraps around to itself.
pub open spec fn wrapped_abs(i: i64) -> i64 {
    if i < 0 {
        wrapped_negation(i)
    } else {
        i
    }
}

/// A number: an integer, or a binary64 float held by its bits.
#[derive(Clone, Copy, Debug)]
pub enum Num {
    Int(i64),
    Float(u64),
}

impl Num {
    /// The number as a float, asking `host` to convert an integer.
    pub fn as_float<H: Host>(&self, host: &H) -> (bits: u64)
        ensures
            *self matches Num::Float(f) ==> bits == f,
    {
        match self {
            Num::Int(i) => host.float(FloatOp::FromInt(*i)),
            Num::Float(f) => *f,
        }
    }

    /// The greatest integer not above the number; `host` rounds a float.
    pub fn floor<H: Host>(&self, host: &H) -> (i: i64)
        ensures
            *self matches Num::Int(n) ==> i == n,
    {
        match self {
            Num::Int(i) => *i,
            Num::Float(f) => host.float(FloatOp::Floor(*f)) as i64,
        }
    }

    /// The least integer not below the number; `host` rounds a float.
    pub fn ceil<H: Host>(&self, host: &H) -> (i: i64)
        ensures
            *self matches Num::Int(n) ==> i == n,
    {
        match self {
            Num::Int(i) => *i,
            Num::Float(f) => host.float(FloatOp::Ceil(*f)) as i64,
        }
    }

    /// The number as an integer, if it is one: a float counts where its fraction is zero
    /// and dropping it gives back an equal number. Anything else is
    /// `RuntimeError::ArgumentNotInt`.
    pub fn as_int_lossless<H: Host>(&self, host: &H) -> (r: Result<i64, RuntimeError>)
        ensures
            *self matches Num::Int(n) ==> r == Ok::<i64, RuntimeError>(n),
            *self is Float ==> (r is Ok || r == Err::<i64, RuntimeError>(RuntimeError::ArgumentNotInt)),
            *self matches Num::Float(f) && float_is_nan(f) ==> r == Err::<i64, RuntimeError>(RuntimeError::ArgumentNotInt),
    {
        match self {
            Num::Int(i) => Ok(*i),
            Num::Float(f) => {
                let i = host.float(FloatOp::Truncate(*f)) as i64;
                let back = host.float(FloatOp::FromInt(i));
                if ieee_equal_bits(back, *f) {
                    Ok(i)
                } else {
                    Err(RuntimeError::ArgumentNotInt)
                }
            },
        }
    }

    /// Whether the two numbers are numerically equal: integers as integers, floats as
    /// totally ordered floats (a NaN equals a NaN), and an integer and a float by IEEE-754
    /// equality once `host` has converted the integer.
    pub fn numerical_equal<H: Host>(&self, other: &Num, host: &H) -> (r: bool)
        ensures
            (*self, *other) matches (Num::Int(a), Num::Int(b)) ==> r == (a == b),
            (*self, *other) matches (Num::Float(a), Num::Float(b)) ==> r == float_total_equal(a, b),
            (*self, *other) matches (Num::Int(_), Num::Float(b)) && float_is_nan(b) ==> !r,
            (*self, *other) matches (Num::Float(a), Num::Int(_)) && float_is_nan(a) ==> !r,
    {
        match (self, other) {
            (Num::Int(a), Num::Int(b)) => *a == *b,
            (Num::Float(a), Num::Float(b)) => (is_nan_bits(*a) && is_nan_bits(*b))
                || ieee_equal_bits(*a, *b),
            (Num::Int(a), Num::Float(b)) => ieee_equal_bits(host.float(FloatOp::FromInt(*a)), *b),
            (Num::Float(a), Num::Int(b)) => ieee_equal_bits(*a, host.float(FloatOp::FromInt(*b))),
        }
    }

    /// The smaller of the two numbers, `a` where they are equal: integers compare as
    /// integers, floats as totally ordered floats (a NaN above everything), and an
    /// integer and a float by IEEE-754 `<=` once `host` has converted the integer.
    pub fn min<H: Host>(a: Num, b: &Num, host: &H) -> (r: Num)
        ensures
            (a, *b) matches (Num::Int(x), Num::Int(y)) ==> r == Num::Int(if x <= y { x } else { y }),
            (a, *b) matches (Num::Float(x), Num::Float(y)) ==> r == if float_total_less(y, x) {
                Num::Float(y)
            } else {
                Num::Float(x)
            },
            r == a || r == *b,
            (a, *b) matches (Num::Int(_), Num::Float(y)) && float_is_nan(y) ==> r == *b,
            (a, *b) matches (Num::Float(x), Num::Int(_)) && float_is_nan(x) ==> r == a,
    {
        match (a, b) {
            (Num::Int(x), Num::Int(y)) => Num::Int(
                if x <= *y {
                    x
                } else {
                    *y
                },
            ),
            (Num::Float(x), Num::Float(y)) => if total_less_bits(*y, x) {
                Num::Float(*y)
            } else {
                Num::Float(x)
            },
            (Num::Int(x), Num::Float(y)) => {
                let converted = host.float(FloatOp::FromInt(x));
                if less_bits(converted, *y) || ieee_equal_bits(converted, *y) {
                    Num::Int(x)
                } else {
                    Num::Float(*y)
                }
            },
            (Num::Float(x), Num::Int(y)) => {
                let converted = host.float(FloatOp::FromInt(*y));
                if less_bits(converted, x) || ieee_equal_bits(converted, x) {
                    Num::Int(*y)
                } else {
                    Num::Float(x)
                }
            },
        }
    }

    /// The larger of the two numbers, `b` where they are equal: integers compare as
    /// integers, floats as totally ordered floats (a NaN above everything), and an
    /// integer and a float by IEEE-754 `>=` once `host` has converted the integer (`a`
    /// where they are equal).
    pub fn max<H: Host>(a: Num, b: &Num, host: &H) -> (r: Num)
        ensures
            (a, *b) matches (Num::Int(x), Num::Int(y)) ==> r == Num::Int(if x <= y { y } else { x }),
            (a, *b) matches (Num::Float(x), Num::Float(y)) ==> r == if float_total_less(y, x) {
                Num::Float(x)
            } else {
                Num::Float(y)
            },
            r == a || r == *b,
            (a, *b) matches (Num::Int(_), Num::Float(y)) && float_is_nan(y) ==> r == *b,
            (a, *b) matches (Num::Float(x), Num::Int(_)) && float_is_nan(x) ==> r == a,
    {
        match (a, b) {
            (Num::Int(x), Num::Int(y)) => Num::Int(
                if x <= *y {
                    *y
                } else {
                    x
                },
            ),
            (Num::Float(x), Num::Float(y)) => if total_less_bits(*y, x) {
                Num::Float(x)
            } else {
                Num::Float(*y)
            },
            (Num::Int(x), Num::Float(y)) => {
                let converted = host.float(FloatOp::FromInt(x));
                if less_bits(*y, converted) || ieee_equal_bits(converted, *y) {
                    Num::Int(x)
                } else {
                    Num::Float(*y)
                }
            },
            (Num::Float(x), Num::Int(y)) => {
                let converted = host.float(FloatOp::FromInt(*y));
                if less_bits(x, converted) || ieee_equal_bits(converted, x) {
                    Num::Int(*y)
                } else {
                    Num::Float(x)
                }
            },
        }
    }

    /// The number plus one; integers wrap around on overflow.
    pub fn inc<H: Host>(&self, host: &H) -> (r: Num)
        ensures
            *self matches Num::Int(i) ==> r == Num::Int(vstd::wrapping::i64_specs::wrapping_add(i, 1)),
            *self is Float ==> r is Float,
    {
        match self {
            Num::Int(i) => Num::Int(i.wrapping_add(1)),
            Num::Float(f) => Num::Float(host.float(FloatOp::Add(*f, FLOAT_ONE))),
        }
    }

    /// The number minus one; integers wrap around on overflow.
    pub fn dec<H: Host>(&self, host: &H) -> (r: Num)
        ensures
            *self matches Num::Int(i) ==> r == Num::Int(vstd::wrapping::i64_specs::wrapping_sub(i, 1)),
            *self is Float ==> r is Float,
    {
        match self {
            Num::Int(i) => Num::Int(i.wrapping_sub(1)),
            Num::Float(f) => Num::Float(host.float(FloatOp::Subtract(*f, FLOAT_ONE))),
        }
    }

    /// The number's absolute value: a float loses its sign bit.
    pub fn abs(&self) -> (r: Num)
        ensures
            *self matches Num::Int(i) ==> r == Num::Int(wrapped_abs(i)),
            *self matches Num::Float(f) ==> r == Num::Float(f & !FLOAT_SIGN),
    {
        match self {
            Num::Int(i) => Num::Int(
                if *i < 0 {
                    if *i == i64::MIN {
                        *i
                    } else {
                        -*i
                    }
                } else {
                    *i
                },
            ),
            Num::Float(f) => Num::Float(*f & !FLOAT_SIGN),
        }
    }

    /// The number negated: a float has its sign bit flipped.
    pub fn negate(&self) -> (r: Num)
        ensures
            *self matches Num::Int(i) ==> r == Num::Int(wrapped_negation(i)),
            *self matches Num::Float(f) ==> r == Num::Float(f ^ FLOAT_SIGN),
    {
        match self {
            Num::Int(i) => Num::Int(
                if *i == i64::MIN {
                    *i
                } else {
                    -*i
                },
            ),
            Num::Float(f) => Num::Float(*f ^ FLOAT_SIGN),
        }
    }

    /// The sum: two integers add as integers, wrapping around on overflow; otherwise
    /// `host` adds the two as floats.
    pub fn add<H: Host>(&self, other: &Num, host: &H) -> (r: Num)
        ensures
            (*self, *other) matches (Num::Int(a), Num::Int(b))
                ==> r == Num::Int(vstd::wrapping::i64_specs::wrapping_add(a, b)),
            !(*self is Int && *other is Int) ==> r is Float,
    {
        match (self, other) {
            (Num::Int(a), Num::Int(b)) => Num::Int(a.wrapping_add(*b)),
            _ => Num::Float(host.float(FloatOp::Add(self.as_float(host), other.as_float(host)))),
        }
    }

    /// The difference: two integers subtract as integers, wrapping around on overflow;
    /// otherwise `host` subtracts the two as floats.
    pub fn subtract<H: Host>(&self, other: &Num, host: &H) -> (r: Num)
        ensures
            (*self, *other) matches (Num::Int(a), Num::Int(b))
                ==> r == Num::Int(vstd::wrapping::i64_specs::wrapping_sub(a, b)),
            !(*self is Int && *other is Int) ==> r is Float,
    {
        match (self, other) {
            (Num::Int(a), Num::Int(b)) => Num::Int(a.wrapping_sub(*b)),
            _ => Num::Float(
                host.float(FloatOp::Subtract(self.as_float(host), other.as_float(host))),
            ),
        }
    }

    /// The product: two integers multiply as integers, wrapping around on overflow;
    /// otherwise `host` multiplies the two as floats.
    pub fn multiply<H: Host>(&self, other: &Num, host: &H) -> (r: Num)
        ensures
            (*self, *other) matches (Num::Int(a), Num::Int(b))
                ==> r == Num::Int(vstd::wrapping::i64_specs::wrapping_mul(a, b)),
            !(*self is Int && *other is Int) ==> r is Float,
    {
        match (self, other) {
            (Num::Int(a), Num::Int(b)) => Num::Int(a.wrapping_mul(*b)),
            _ => Num::Float(
                host.float(FloatOp::Multiply(self.as_float(host), other.as_float(host))),
            ),
        }
    }

    /// The quotient, always a float: `host` divides the two as floats.
    pub fn divide<H: Host>(&self, other: &Num, host: &H) -> (r: Num)
        ensures
            r is Float,
    {
        Num::Float(host.float(FloatOp::Divide(self.as_float(host), other.as_float(host))))
    }
}

/// A function that the embedding program provides, known to the evaluator by a handle
/// that the host resolves.
#[derive(Clone, Debug)]
pub struct ExternalFunction {
    pub name: Option<String>,
    pub handle: u64,
}

impl ExternalFunction {
    /// An external function without a name.
    pub fn unnamed(handle: u64) -> (f: ExternalFunction)
        ensures
            f.name is None,
            f.handle == handle,
    {
        ExternalFunction { name: None, handle }
    }
}

/// How many arguments a function takes.
#[derive(Clone, Copy, Debug)]
pub struct AritySpecifier {
    pub count: u8,
}

impl AritySpecifier {
    /// Whether a call with `count` arguments fits.
    pub fn can_accept(&self, count: usize) -> (b: bool)
        ensures
            b == (self.count == count),
    {
        self.count as usize == count
    }

    /// How many registers the arguments occupy at the start of the function's frame.
    pub fn register_count(&self) -> (c: u8)
        ensures
            c == self.count,
    {
        self.count
    }
}

/// A value of the language, generic over the register types of the blocks that its
/// functions hold (see `Instruction`) and over their metadata `M`.
#[derive(Debug)]
pub enum GenericValue<I, O, R, M> {
    Nil,
    Bool(bool),
    Char(char),
    Number(Num),
    Symbol(SymbolIndex),
    Str(Rc<String>),
    List(Rc<Vec<GenericValue<I, O, R, M>>>),
    Hashmap(Rc<Vec<(GenericValue<I, O, R, M>, GenericValue<I, O, R, M>)>>),
    Hashset(Rc<Vec<GenericValue<I, O, R, M>>>),
    CoreFn(CoreFnId),
    CompositeFn(Rc<GenericCompositeFunction<I, O, R, M>>),
    ExternalFn(Rc<ExternalFunction>),
    PartialApplication(Rc<(GenericValue<I, O, R, M>, Vec<GenericValue<I, O, R, M>>)>),
    Composition(Rc<Vec<GenericValue<I, O, R, M>>>),
    /// An object of the embedding program, known by a handle.
    ExternalObject(u64),
    /// A coroutine, by its slot in the evaluator's table of coroutines; `None` once it
    /// has finished.
    Coroutine(Option<usize>),
    Error(Rc<RuntimeError>),
}

impl<I, O, R, M> GenericValue<I, O, R, M> {
    /// Another handle on the same value: shared parts are shared, not copied.
    pub fn duplicate(&self) -> (v: Self)
        ensures
            v == *self,
    {
        match self {
            GenericValue::Nil => GenericValue::Nil,
            GenericValue::Bool(b) => GenericValue::Bool(*b),
            GenericValue::Char(c) => GenericValue::Char(*c),
            GenericValue::Number(n) => GenericValue::Number(*n),
            GenericValue::Symbol(s) => GenericValue::Symbol(*s),
            GenericValue::Str(s) => GenericValue::Str(rc_clone(s)),
            GenericValue::List(l) => GenericValue::List(rc_clone(l)),
            GenericValue::Hashmap(m) => GenericValue::Hashmap(rc_clone(m)),
            GenericValue::Hashset(s) => GenericValue::Hashset(rc_clone(s)),
            GenericValue::CoreFn(f) => GenericValue::CoreFn(*f),
            GenericValue::CompositeFn(f) => GenericValue::CompositeFn(rc_clone(f)),
            GenericValue::ExternalFn(f) => GenericValue::ExternalFn(rc_clone(f)),
            GenericValue::PartialApplication(p) => GenericValue::PartialApplication(rc_clone(p)),
            GenericValue::Composition(c) => GenericValue::Composition(rc_clone(c)),
            GenericValue::ExternalObject(o) => GenericValue::ExternalObject(*o),
            GenericValue::Coroutine(c) => GenericValue::Coroutine(*c),
            GenericValue::Error(e) => GenericValue::Error(rc_clone(e)),
        }
    }
}

impl<I, O, R, M> GenericValue<I, O, R, M> {
    /// A function of `args` arguments running `block`.
    pub fn composite_fn(args: u8, block: crate::blocks::GenericBlock<I, O, R, M>) -> (v: Self)
        ensures
            v matches GenericValue::CompositeFn(f) && f.args.count == args && f.block == block,
    {
        GenericValue::CompositeFn(Rc::new(GenericCompositeFunction::new(AritySpecifier { count: args }, block)))
    }
}

impl<I, O, R, M> Clone for GenericValue<I, O, R, M> {
    fn clone(&self) -> (v: Self)
        ensures
            v == *self,
    {
        self.duplicate()
    }
}

/// Copies of the values in `values`, in order.
pub fn duplicate_all<I, O, R, M>(values: &Vec<GenericValue<I, O, R, M>>) -> (copies: Vec<
    GenericValue<I, O, R, M>,
>)
    ensures
        copies@ == values@,
{
    let mut copies: Vec<GenericValue<I, O, R, M>> = Vec::new();
    let mut i: usize = 0;
    while i < values.len()
        invariant
            0 <= i <= values.len(),
            copies@ == values@.take(i as int),
        decreases values.len() - i,
    {
        copies.push(values[i].duplicate());
        proof {
            assert(values@.take(i + 1) =~= values@.take(i as int).push(values@[i as int]));
        }
        i = i + 1;
    }
    proof {
        assert(values@.take(values.len() as int) =~= values@);
    }
    copies
}

/// The values of a running program.
pub type Value = GenericValue<u8, u8, u8, u8>;

impl GenericValue<u8, u8, u8, u8> {
    /// The value as a number: `nil` counts as zero, and anything else that is not a
    /// number is `RuntimeError::CantCastToNum`, which carries the value.
    pub fn as_num(&self) -> (r: Result<Num, RuntimeError>)
        ensures
            *self matches GenericValue::Number(n) ==> r == Ok::<Num, RuntimeError>(n),
            *self is Nil ==> r == Ok::<Num, RuntimeError>(Num::Int(0)),
            !(*self is Number || self is Nil) ==> r == Err::<Num, RuntimeError>(
                RuntimeError::CantCastToNum(*self),
            ),
    {
        match self {
            GenericValue::Number(n) => Ok(*n),
            GenericValue::Nil => Ok(Num::Int(0)),
            _ => Err(RuntimeError::CantCastToNum(self.duplicate())),
        }
    }
}

impl<I, O, R, M> GenericValue<I, O, R, M> {

    /// The value as a condition: `false` and `nil` are false, anything else is true.
    pub fn as_bool(&self) -> (b: bool)
        ensures
            b == spec_truthy(*self),
    {
        match self {
            GenericValue::Bool(value) => *value,
            GenericValue::Nil => false,
            _ => true,
        }
    }
}

/// Whether a value counts as true in a condition: everything but `false` and `nil`.
pub open spec fn spec_truthy<I, O, R, M>(v: GenericValue<I, O, R, M>) -> bool {
    match v {
        GenericValue::Bool(b) => b,
        GenericValue::Nil => false,
        _ => true,
    }
}

} // verus!
