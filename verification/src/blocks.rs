use std::rc::Rc;
use vstd::prelude::*;
use crate::instructions::Instruction;
use crate::runtime::control::GenericCompositeFunction;
use crate::runtime::data::GenericValue;
use crate::sharing::rc_clone;

verus! {

/// A block of instructions with the constants they load, and metadata that a compiler
/// pass attaches.
#[derive(Debug)]
pub struct GenericBlock<I, O, R, M> {
    pub instructions: Rc<Vec<Instruction<I, O, R>>>,
    pub constants: Rc<Vec<GenericValue<I, O, R, M>>>,
    pub metadata: M,
}

impl<I, O, R, M> GenericBlock<I, O, R, M> {
    /// The block of `instructions` and `constants`, carrying `metadata`.
    pub fn new_with_metadata(
        instructions: Vec<Instruction<I, O, R>>,
        constants: Vec<GenericValue<I, O, R, M>>,
        metadata: M,
    ) -> (block: Self)
        ensures
            block.instructions@ == instructions@,
            block.constants@ == constants@,
            block.metadata == metadata,
    {
        GenericBlock { instructions: Rc::new(instructions), constants: Rc::new(constants), metadata }
    }

    /// The number of instructions.
    pub fn len(&self) -> (n: usize)
        ensures
            n == self.instructions@.len(),
    {
        self.instructions.len()
    }
}

/// A copy of `v`.
pub fn copy_all<T: Copy>(v: &Vec<T>) -> (copy: Vec<T>)
    ensures
        copy@ == v@,
{
    let mut copy: Vec<T> = Vec::new();
    let mut i: usize = 0;
    while i < v.len()
        invariant
            0 <= i <= v@.len(),
            copy@ == v@.take(i as int),
        decreases v@.len() - i,
    {
        copy.push(v[i]);
        proof {
            assert(v@.take(i + 1) =~= v@.take(i as int).push(v@[i as int]));
        }
        i = i + 1;
    }
    proof {
        assert(v@.take(v@.len() as int) =~= v@);
    }
    copy
}

/// The outcomes that a block translator may give: it is handed the number of registers
/// that hold arguments when the block starts, the block's instructions, its constants
/// already translated, and its metadata.
pub open spec fn block_outcomes<I, O, R, M, NI, NO, NR, NM, E, F: Fn(
    u8,
    Vec<Instruction<I, O, R>>,
    Vec<GenericValue<NI, NO, NR, NM>>,
    &M,
) -> Result<GenericBlock<NI, NO, NR, NM>, E>>(translator: F) -> spec_fn(
    u8,
    Seq<Instruction<I, O, R>>,
    Seq<GenericValue<NI, NO, NR, NM>>,
    M,
    Result<GenericBlock<NI, NO, NR, NM>, E>,
) -> bool {
    |
        preallocated: u8,
        instructions: Seq<Instruction<I, O, R>>,
        constants: Seq<GenericValue<NI, NO, NR, NM>>,
        metadata: M,
        r: Result<GenericBlock<NI, NO, NR, NM>, E>,
    |
        exists|iv: Vec<Instruction<I, O, R>>, cv: Vec<GenericValue<NI, NO, NR, NM>>|
            iv@ == instructions && cv@ == constants && #[trigger] translator.ensures(
                (preallocated, iv, cv, &metadata),
                r,
            )
}

/// `translated` is an outcome of translating every block in `values`, in order: the
/// translated values one by one, or the error of the first value whose translation
/// failed, every value before it translated.
pub open spec fn values_translation<I, O, R, M, NI, NO, NR, NM, E>(
    values: Seq<GenericValue<I, O, R, M>>,
    translated: Result<Seq<GenericValue<NI, NO, NR, NM>>, E>,
    outcome: spec_fn(
        u8,
        Seq<Instruction<I, O, R>>,
        Seq<GenericValue<NI, NO, NR, NM>>,
        M,
        Result<GenericBlock<NI, NO, NR, NM>, E>,
    ) -> bool,
) -> bool
    decreases values, 0int,
{
    match translated {
        Ok(new_values) => {
            &&& new_values.len() == values.len()
            &&& forall|k: int| 0 <= k < values.len() ==> value_translation(
                #[trigger] values[k],
                Ok(new_values[k]),
                outcome,
            )
        },
        Err(e) => exists|done: Seq<GenericValue<NI, NO, NR, NM>>|
            #![trigger values[done.len() as int]]
            {
                &&& done.len() < values.len()
                &&& forall|k: int|
                    0 <= k < done.len() ==> value_translation(
                        #[trigger] values[k],
                        Ok(done[k]),
                        outcome,
                    )
                &&& value_translation(values[done.len() as int], Err(e), outcome)
            },
    }
}

/// `translated` is an outcome of translating the blocks inside `value`: the value with
/// every function's block translated (with its arguments preallocated) and everything
/// else kept, or the error of the first of them whose translation failed, in order
/// (keys before their values, a function before its arguments).
pub open spec fn value_translation<I, O, R, M, NI, NO, NR, NM, E>(
    value: GenericValue<I, O, R, M>,
    translated: Result<GenericValue<NI, NO, NR, NM>, E>,
    outcome: spec_fn(
        u8,
        Seq<Instruction<I, O, R>>,
        Seq<GenericValue<NI, NO, NR, NM>>,
        M,
        Result<GenericBlock<NI, NO, NR, NM>, E>,
    ) -> bool,
) -> bool
    decreases value, 1int,
{
    match value {
        GenericValue::CompositeFn(f) => match translated {
            Ok(GenericValue::CompositeFn(nf)) => {
                &&& nf.args == f.args
                &&& block_translation(f.block, f.args.count, Ok(nf.block), outcome)
            },
            Ok(_) => false,
            Err(e) => block_translation(f.block, f.args.count, Err(e), outcome),
        },
        GenericValue::List(l) => match translated {
            Ok(GenericValue::List(nl)) => values_translation(l@, Ok(nl@), outcome),
            Ok(_) => false,
            Err(e) => values_translation(l@, Err(e), outcome),
        },
        GenericValue::Hashset(l) => match translated {
            Ok(GenericValue::Hashset(nl)) => values_translation(l@, Ok(nl@), outcome),
            Ok(_) => false,
            Err(e) => values_translation(l@, Err(e), outcome),
        },
        GenericValue::Composition(l) => match translated {
            Ok(GenericValue::Composition(nl)) => values_translation(l@, Ok(nl@), outcome),
            Ok(_) => false,
            Err(e) => values_translation(l@, Err(e), outcome),
        },
        GenericValue::Hashmap(m) => match translated {
            Ok(GenericValue::Hashmap(nm)) => {
                &&& nm@.len() == m@.len()
                &&& forall|k: int|
                    0 <= k < m@.len() ==> value_translation(#[trigger] m@[k].0, Ok(nm@[k].0), outcome)
                        && value_translation(m@[k].1, Ok(nm@[k].1), outcome)
            },
            Ok(_) => false,
            Err(e) => exists|
                progress: (
                    Seq<(GenericValue<NI, NO, NR, NM>, GenericValue<NI, NO, NR, NM>)>,
                    Option<GenericValue<NI, NO, NR, NM>>,
                ),
            |
                #![trigger m@[progress.0.len() as int]]
                {
                    let done = progress.0;
                    let j = done.len() as int;
                    &&& j < m@.len()
                    &&& forall|k: int|
                        0 <= k < j ==> value_translation(
                            #[trigger] m@[k].0,
                            Ok(done[k].0),
                            outcome,
                        ) && value_translation(m@[k].1, Ok(done[k].1), outcome)
                    &&& match progress.1 {
                        None => value_translation(m@[j].0, Err(e), outcome),
                        Some(key) => value_translation(m@[j].0, Ok(key), outcome)
                            && value_translation(m@[j].1, Err(e), outcome),
                    }
                },
        },
        GenericValue::PartialApplication(p) => match translated {
            Ok(GenericValue::PartialApplication(np)) => {
                &&& value_translation(p.0, Ok(np.0), outcome)
                &&& values_translation(p.1@, Ok(np.1@), outcome)
            },
            Ok(_) => false,
            Err(e) => {
                ||| value_translation(p.0, Err(e), outcome)
                ||| exists|heads: Seq<GenericValue<NI, NO, NR, NM>>|
                    #![trigger heads[0]]
                    heads.len() == 1 && value_translation(p.0, Ok(heads[0]), outcome)
                        && values_translation(p.1@, Err(e), outcome)
            },
        },
        GenericValue::Nil => translated == Ok::<GenericValue<NI, NO, NR, NM>, E>(GenericValue::Nil),
        GenericValue::Bool(b) => translated == Ok::<GenericValue<NI, NO, NR, NM>, E>(
            GenericValue::Bool(b),
        ),
        GenericValue::Char(c) => translated == Ok::<GenericValue<NI, NO, NR, NM>, E>(
            GenericValue::Char(c),
        ),
        GenericValue::Number(n) => translated == Ok::<GenericValue<NI, NO, NR, NM>, E>(
            GenericValue::Number(n),
        ),
        GenericValue::Symbol(s) => translated == Ok::<GenericValue<NI, NO, NR, NM>, E>(
            GenericValue::Symbol(s),
        ),
        GenericValue::Str(s) => translated == Ok::<GenericValue<NI, NO, NR, NM>, E>(
            GenericValue::Str(s),
        ),
        GenericValue::CoreFn(f) => translated == Ok::<GenericValue<NI, NO, NR, NM>, E>(
            GenericValue::CoreFn(f),
        ),
        GenericValue::ExternalFn(f) => translated == Ok::<GenericValue<NI, NO, NR, NM>, E>(
            GenericValue::ExternalFn(f),
        ),
        GenericValue::ExternalObject(o) => translated == Ok::<GenericValue<NI, NO, NR, NM>, E>(
            GenericValue::ExternalObject(o),
        ),
        GenericValue::Coroutine(c) => translated == Ok::<GenericValue<NI, NO, NR, NM>, E>(
            GenericValue::Coroutine(c),
        ),
        GenericValue::Error(e) => translated == Ok::<GenericValue<NI, NO, NR, NM>, E>(
            GenericValue::Error(e),
        ),
    }
}

/// `translated` is an outcome of translating `block`, whose first `preallocated`
/// registers hold arguments: its constants are translated first, in order, and the
/// translator then gets the block with them; or an error from either.
pub open spec fn block_translation<I, O, R, M, NI, NO, NR, NM, E>(
    block: GenericBlock<I, O, R, M>,
    preallocated: u8,
    translated: Result<GenericBlock<NI, NO, NR, NM>, E>,
    outcome: spec_fn(
        u8,
        Seq<Instruction<I, O, R>>,
        Seq<GenericValue<NI, NO, NR, NM>>,
        M,
        Result<GenericBlock<NI, NO, NR, NM>, E>,
    ) -> bool,
) -> bool
    decreases block, 2int,
{
    ||| translated matches Err(e) && values_translation(block.constants@, Err(e), outcome)
    ||| exists|constants: Seq<GenericValue<NI, NO, NR, NM>>|
        values_translation(block.constants@, Ok(constants), outcome) && #[trigger] outcome(
            preallocated,
            block.instructions@,
            constants,
            block.metadata,
            translated,
        )
}

/// Whether every instruction of `instructions` can report its register usages.
pub open spec fn all_have_usages<I, O, R>(instructions: Seq<Instruction<I, O, R>>) -> bool {
    forall|k: int| 0 <= k < instructions.len() ==> (#[trigger] instructions[k]).has_usages()
}

/// Whether every block inside `values` holds only instructions that can report their
/// register usages.
pub open spec fn values_have_usages<I, O, R, M>(values: Seq<GenericValue<I, O, R, M>>) -> bool
    decreases values, 0int,
{
    forall|k: int| 0 <= k < values.len() ==> value_has_usages(#[trigger] values[k])
}

/// Whether every block inside `value` holds only instructions that can report their
/// register usages.
pub open spec fn value_has_usages<I, O, R, M>(value: GenericValue<I, O, R, M>) -> bool
    decreases value, 1int,
{
    match value {
        GenericValue::CompositeFn(f) => block_has_usages(f.block),
        GenericValue::List(l) => values_have_usages(l@),
        GenericValue::Hashset(l) => values_have_usages(l@),
        GenericValue::Composition(l) => values_have_usages(l@),
        GenericValue::Hashmap(m) => forall|k: int|
            0 <= k < m@.len() ==> value_has_usages(#[trigger] m@[k].0) && value_has_usages(m@[k].1),
        GenericValue::PartialApplication(p) => value_has_usages(p.0) && values_have_usages(p.1@),
        _ => true,
    }
}

/// Whether every `Const` instruction of `instructions` loads one of `count` constants.
pub open spec fn constants_in_range<I, O, R>(instructions: Seq<Instruction<I, O, R>>, count: nat) -> bool {
    forall|k: int|
        0 <= k < instructions.len() ==> (#[trigger] instructions[k] matches Instruction::Const(
            _,
            index,
        ) ==> index < count)
}

/// Whether `block`, and every block inside its constants, holds only instructions that
/// can report their register usages and that load constants the block has.
pub open spec fn block_has_usages<I, O, R, M>(block: GenericBlock<I, O, R, M>) -> bool
    decreases block, 2int,
{
    &&& all_have_usages(block.instructions@)
    &&& constants_in_range(block.instructions@, block.constants@.len())
    &&& values_have_usages(block.constants@)
}

/// Whether `translator` accepts every block whose instructions can report their usages.
pub open spec fn accepts_blocks<I, O, R, M, NI, NO, NR, NM, E, F: Fn(
    u8,
    Vec<Instruction<I, O, R>>,
    Vec<GenericValue<NI, NO, NR, NM>>,
    &M,
) -> Result<GenericBlock<NI, NO, NR, NM>, E>>(translator: F) -> bool {
    forall|p: u8, i: Vec<Instruction<I, O, R>>, c: Vec<GenericValue<NI, NO, NR, NM>>, m: &M|
        all_have_usages(i@) && constants_in_range(i@, c@.len()) ==> #[trigger] translator.requires(
            (p, i, c, m),
        )
}

/// Translates every value of `values`, in order (see `values_translation`).
pub fn translate_values<
    I: Copy,
    O: Copy,
    R: Copy,
    M,
    NI,
    NO,
    NR,
    NM,
    E,
    F: Fn(u8, Vec<Instruction<I, O, R>>, Vec<GenericValue<NI, NO, NR, NM>>, &M) -> Result<
        GenericBlock<NI, NO, NR, NM>,
        E,
    >,
>(values: &Vec<GenericValue<I, O, R, M>>, translator: &F) -> (r: Result<
    Vec<GenericValue<NI, NO, NR, NM>>,
    E,
>)
    requires
        accepts_blocks(*translator),
        values_have_usages(values@),
    ensures
        values_translation(
            values@,
            match r {
                Ok(v) => Ok(v@),
                Err(e) => Err(e),
            },
            block_outcomes(*translator),
        ),
    decreases values@, 0int,
{
    let mut translated: Vec<GenericValue<NI, NO, NR, NM>> = Vec::new();
    let mut i: usize = 0;
    while i < values.len()
        invariant
            0 <= i <= values@.len(),
            accepts_blocks(*translator),
            values_have_usages(values@),
            translated@.len() == i,
            forall|k: int| 0 <= k < i ==> value_translation(
                #[trigger] values@[k],
                Ok(translated@[k]),
                block_outcomes(*translator),
            ),
        decreases values@.len() - i,
    {
        proof {
            assert(decreases_to!(values@ => values@[i as int]));
        }
        match values[i].translate_value(translator) {
            Ok(v) => {
                translated.push(v);
            },
            Err(e) => {
                proof {
                    assert(values@[translated@.len() as int] == values@[i as int]);
                }
                return Err(e);
            },
        }
        i = i + 1;
    }
    Ok(translated)
}

/// Translates both values of every pair of `pairs`, in order.
fn translate_pairs<
    I: Copy,
    O: Copy,
    R: Copy,
    M,
    NI,
    NO,
    NR,
    NM,
    E,
    F: Fn(u8, Vec<Instruction<I, O, R>>, Vec<GenericValue<NI, NO, NR, NM>>, &M) -> Result<
        GenericBlock<NI, NO, NR, NM>,
        E,
    >,
>(
    pairs: &Vec<(GenericValue<I, O, R, M>, GenericValue<I, O, R, M>)>,
    translator: &F,
) -> (r: Result<Vec<(GenericValue<NI, NO, NR, NM>, GenericValue<NI, NO, NR, NM>)>, E>)
    requires
        accepts_blocks(*translator),
        forall|k: int|
            0 <= k < pairs@.len() ==> value_has_usages(#[trigger] pairs@[k].0) && value_has_usages(
                pairs@[k].1,
            ),
    ensures
        match r {
            Ok(nm) => {
                &&& nm@.len() == pairs@.len()
                &&& forall|k: int|
                    0 <= k < pairs@.len() ==> value_translation(
                        #[trigger] pairs@[k].0,
                        Ok(nm@[k].0),
                        block_outcomes(*translator),
                    ) && value_translation(pairs@[k].1, Ok(nm@[k].1), block_outcomes(*translator))
            },
            Err(e) => exists|
                progress: (
                    Seq<(GenericValue<NI, NO, NR, NM>, GenericValue<NI, NO, NR, NM>)>,
                    Option<GenericValue<NI, NO, NR, NM>>,
                ),
            |
                #![trigger pairs@[progress.0.len() as int]]
                {
                    let done = progress.0;
                    let j = done.len() as int;
                    &&& j < pairs@.len()
                    &&& forall|k: int|
                        0 <= k < j ==> value_translation(
                            #[trigger] pairs@[k].0,
                            Ok(done[k].0),
                            block_outcomes(*translator),
                        ) && value_translation(pairs@[k].1, Ok(done[k].1), block_outcomes(*translator))
                    &&& match progress.1 {
                        None => value_translation(pairs@[j].0, Err(e), block_outcomes(*translator)),
                        Some(key) => value_translation(pairs@[j].0, Ok(key), block_outcomes(*translator))
                            && value_translation(pairs@[j].1, Err(e), block_outcomes(*translator)),
                    }
                },
        },
    decreases pairs@, 0int,
{
    let mut translated: Vec<(GenericValue<NI, NO, NR, NM>, GenericValue<NI, NO, NR, NM>)> =
        Vec::new();
    let mut i: usize = 0;
    while i < pairs.len()
        invariant
            0 <= i <= pairs@.len(),
            accepts_blocks(*translator),
            forall|k: int|
                0 <= k < pairs@.len() ==> value_has_usages(#[trigger] pairs@[k].0)
                    && value_has_usages(pairs@[k].1),
            translated@.len() == i,
            forall|k: int|
                0 <= k < i ==> value_translation(
                    #[trigger] pairs@[k].0,
                    Ok(translated@[k].0),
                    block_outcomes(*translator),
                ) && value_translation(pairs@[k].1, Ok(translated@[k].1), block_outcomes(*translator)),
        decreases pairs@.len() - i,
    {
        proof {
            let pair = pairs@[i as int];
            assert(decreases_to!(pairs@ => pair));
            assert(decreases_to!(pair => pair.0));
            assert(decreases_to!(pair => pair.1));
        }
        let key = match pairs[i].0.translate_value(translator) {
            Ok(k) => k,
            Err(e) => {
                proof {
                    let progress = (translated@, None::<GenericValue<NI, NO, NR, NM>>);
                    assert(pairs@[progress.0.len() as int] == pairs@[i as int]);
                }
                return Err(e);
            },
        };
        let value = match pairs[i].1.translate_value(translator) {
            Ok(v) => v,
            Err(e) => {
                proof {
                    let progress = (translated@, Some(key));
                    assert(pairs@[progress.0.len() as int] == pairs@[i as int]);
                    assert(value_translation(pairs@[i as int].0, Ok(key), block_outcomes(*translator)));
                }
                return Err(e);
            },
        };
        translated.push((key, value));
        i = i + 1;
    }
    Ok(translated)
}

impl<I: Copy, O: Copy, R: Copy, M> GenericBlock<I, O, R, M> {
    /// Translates the block, whose first `preallocated_registers` registers hold
    /// arguments: first its constants, then the block itself (see `block_translation`).
    pub fn translate_inner<
        NI,
        NO,
        NR,
        NM,
        E,
        F: Fn(u8, Vec<Instruction<I, O, R>>, Vec<GenericValue<NI, NO, NR, NM>>, &M) -> Result<
            GenericBlock<NI, NO, NR, NM>,
            E,
        >,
    >(&self, preallocated_registers: u8, translator: &F) -> (r: Result<
        GenericBlock<NI, NO, NR, NM>,
        E,
    >)
        requires
            accepts_blocks(*translator),
            block_has_usages(*self),
        ensures
            block_translation(*self, preallocated_registers, r, block_outcomes(*translator)),
        decreases *self, 2int,
    {
        proof {
            assert(decreases_to!(*self => self.constants));
        }
        let constants = match translate_values(&self.constants, translator) {
            Ok(c) => c,
            Err(e) => {
                proof {
                    assert(values_translation(self.constants@, Err(e), block_outcomes(*translator)));
                }
                return Err(e);
            },
        };
        let instructions = copy_all(&self.instructions);
        let ghost iv = instructions;
        let ghost cv = constants;
        let r = translator(preallocated_registers, instructions, constants, &self.metadata);
        proof {
            let f = block_outcomes(*translator);
            assert(translator.ensures((preallocated_registers, iv, cv, &self.metadata), r));
            assert(f(preallocated_registers, self.instructions@, cv@, self.metadata, r));
            assert(values_translation(self.constants@, Ok(cv@), f));
        }
        r
    }

    /// Translates the block, whose registers start out empty (see `translate_inner`).
    pub fn translate<
        NI,
        NO,
        NR,
        NM,
        E,
        F: Fn(u8, Vec<Instruction<I, O, R>>, Vec<GenericValue<NI, NO, NR, NM>>, &M) -> Result<
            GenericBlock<NI, NO, NR, NM>,
            E,
        >,
    >(&self, translator: &F) -> (r: Result<GenericBlock<NI, NO, NR, NM>, E>)
        requires
            accepts_blocks(*translator),
            block_has_usages(*self),
        ensures
            block_translation(*self, 0, r, block_outcomes(*translator)),
    {
        self.translate_inner(0, translator)
    }
}

impl<I: Copy, O: Copy, R: Copy, M> GenericValue<I, O, R, M> {
    /// Translates the blocks inside the value (see `value_translation`).
    pub fn translate_value<
        NI,
        NO,
        NR,
        NM,
        E,
        F: Fn(u8, Vec<Instruction<I, O, R>>, Vec<GenericValue<NI, NO, NR, NM>>, &M) -> Result<
            GenericBlock<NI, NO, NR, NM>,
            E,
        >,
    >(&self, translator: &F) -> (r: Result<GenericValue<NI, NO, NR, NM>, E>)
        requires
            accepts_blocks(*translator),
            value_has_usages(*self),
        ensures
            value_translation(*self, r, block_outcomes(*translator)),
        decreases *self, 1int,
    {
        match self {
            GenericValue::CompositeFn(f) => {
                proof {
                    assert(decreases_to!(*self => f.block));
                }
                match f.block.translate_inner(f.args.count, translator) {
                    Ok(block) => Ok(
                        GenericValue::CompositeFn(
                            Rc::new(GenericCompositeFunction::new(f.args, block)),
                        ),
                    ),
                    Err(e) => Err(e),
                }
            },
            GenericValue::List(l) => match translate_values(l, translator) {
                Ok(v) => Ok(GenericValue::List(Rc::new(v))),
                Err(e) => Err(e),
            },
            GenericValue::Hashset(l) => match translate_values(l, translator) {
                Ok(v) => Ok(GenericValue::Hashset(Rc::new(v))),
                Err(e) => Err(e),
            },
            GenericValue::Composition(l) => match translate_values(l, translator) {
                Ok(v) => Ok(GenericValue::Composition(Rc::new(v))),
                Err(e) => Err(e),
            },
            GenericValue::Hashmap(m) => match translate_pairs(m, translator) {
                Ok(v) => Ok(GenericValue::Hashmap(Rc::new(v))),
                Err(e) => Err(e),
            },
            GenericValue::PartialApplication(p) => {
                proof {
                    assert(decreases_to!(*self => p.0));
                    assert(decreases_to!(*self => p.1));
                }
                let f = match p.0.translate_value(translator) {
                    Ok(f) => f,
                    Err(e) => {
                        return Err(e);
                    },
                };
                let args = match translate_values(&p.1, translator) {
                    Ok(a) => a,
                    Err(e) => {
                        proof {
                            let heads = seq![f];
                            assert(heads[0] == f);
                            assert(value_translation(p.0, Ok(f), block_outcomes(*translator)));
                        }
                        return Err(e);
                    },
                };
                Ok(GenericValue::PartialApplication(Rc::new((f, args))))
            },
            GenericValue::Nil => Ok(GenericValue::Nil),
            GenericValue::Bool(b) => Ok(GenericValue::Bool(*b)),
            GenericValue::Char(c) => Ok(GenericValue::Char(*c)),
            GenericValue::Number(n) => Ok(GenericValue::Number(*n)),
            GenericValue::Symbol(s) => Ok(GenericValue::Symbol(*s)),
            GenericValue::Str(s) => Ok(GenericValue::Str(rc_clone(s))),
            GenericValue::CoreFn(f) => Ok(GenericValue::CoreFn(*f)),
            GenericValue::ExternalFn(f) => Ok(GenericValue::ExternalFn(rc_clone(f))),
            GenericValue::ExternalObject(o) => Ok(GenericValue::ExternalObject(*o)),
            GenericValue::Coroutine(c) => Ok(GenericValue::Coroutine(*c)),
            GenericValue::Error(e) => Ok(GenericValue::Error(rc_clone(e))),
        }
    }
}

/// The block of a function value.
pub open spec fn function_block<I, O, R, M>(v: GenericValue<I, O, R, M>) -> GenericBlock<I, O, R, M> {
    v->CompositeFn_0.block
}

/// The number of arguments of a function value.
pub open spec fn function_arity<I, O, R, M>(v: GenericValue<I, O, R, M>) -> u8 {
    v->CompositeFn_0.args.count
}

/// The pairs of a map value.
pub open spec fn pairs_of<I, O, R, M>(v: GenericValue<I, O, R, M>) -> Vec<(GenericValue<I, O, R, M>, GenericValue<I, O, R, M>)> {
    *v->Hashmap_0
}

/// The function of a partial application.
pub open spec fn partial_head<I, O, R, M>(v: GenericValue<I, O, R, M>) -> GenericValue<I, O, R, M> {
    v->PartialApplication_0.0
}

/// The arguments of a partial application.
pub open spec fn partial_args<I, O, R, M>(v: GenericValue<I, O, R, M>) -> Vec<GenericValue<I, O, R, M>> {
    v->PartialApplication_0.1
}

/// Translating values stays a translation under any looser account of block outcomes.
pub proof fn lemma_values_translation_weaken<I, O, R, M, NI, NO, NR, NM, E>(
    values: Seq<GenericValue<I, O, R, M>>,
    translated: Result<Seq<GenericValue<NI, NO, NR, NM>>, E>,
    f: spec_fn(u8, Seq<Instruction<I, O, R>>, Seq<GenericValue<NI, NO, NR, NM>>, M, Result<GenericBlock<NI, NO, NR, NM>, E>) -> bool,
    g: spec_fn(u8, Seq<Instruction<I, O, R>>, Seq<GenericValue<NI, NO, NR, NM>>, M, Result<GenericBlock<NI, NO, NR, NM>, E>) -> bool,
)
    requires
        values_translation(values, translated, f),
        forall|p, i, c, m, r| #[trigger] f(p, i, c, m, r) ==> g(p, i, c, m, r),
    ensures
        values_translation(values, translated, g),
    decreases values, 0int,
{
    match translated {
        Ok(new_values) => {
            assert forall|k: int| 0 <= k < values.len() implies value_translation(
                #[trigger] values[k],
                Ok(new_values[k]),
                g,
            ) by {
                assert(decreases_to!(values => values[k]));
                lemma_value_translation_weaken(values[k], Ok(new_values[k]), f, g);
            }
        },
        Err(e) => {
            let done = choose|done: Seq<GenericValue<NI, NO, NR, NM>>|
                #![trigger values[done.len() as int]]
                {
                    &&& done.len() < values.len()
                    &&& forall|k: int|
                        0 <= k < done.len() ==> value_translation(#[trigger] values[k], Ok(done[k]), f)
                    &&& value_translation(values[done.len() as int], Err(e), f)
                };
            assert forall|k: int| 0 <= k < done.len() implies value_translation(
                #[trigger] values[k],
                Ok(done[k]),
                g,
            ) by {
                assert(decreases_to!(values => values[k]));
                lemma_value_translation_weaken(values[k], Ok(done[k]), f, g);
            }
            let j = done.len() as int;
            assert(decreases_to!(values => values[j]));
            lemma_value_translation_weaken(values[j], Err(e), f, g);
        },
    }
}

/// Translating a value stays a translation under any looser account of block outcomes.
pub proof fn lemma_value_translation_weaken<I, O, R, M, NI, NO, NR, NM, E>(
    value: GenericValue<I, O, R, M>,
    translated: Result<GenericValue<NI, NO, NR, NM>, E>,
    f: spec_fn(u8, Seq<Instruction<I, O, R>>, Seq<GenericValue<NI, NO, NR, NM>>, M, Result<GenericBlock<NI, NO, NR, NM>, E>) -> bool,
    g: spec_fn(u8, Seq<Instruction<I, O, R>>, Seq<GenericValue<NI, NO, NR, NM>>, M, Result<GenericBlock<NI, NO, NR, NM>, E>) -> bool,
)
    requires
        value_translation(value, translated, f),
        forall|p, i, c, m, r| #[trigger] f(p, i, c, m, r) ==> g(p, i, c, m, r),
    ensures
        value_translation(value, translated, g),
    decreases value, 1int,
{
    match value {
        GenericValue::CompositeFn(func) => {
            let b = function_block(value);
            let n = function_arity(value);
            assert(decreases_to!(value => b));
            match translated {
                Ok(GenericValue::CompositeFn(nf)) => {
                    lemma_block_translation_weaken(b, n, Ok(function_block(translated->Ok_0)), f, g);
                },
                Err(e) => {
                    lemma_block_translation_weaken(b, n, Err(e), f, g);
                },
                _ => {},
            }
        },
        GenericValue::List(l) => {
            match translated {
                Ok(GenericValue::List(nl)) => lemma_values_translation_weaken(l@, Ok(nl@), f, g),
                Err(e) => lemma_values_translation_weaken(l@, Err(e), f, g),
                _ => {},
            }
        },
        GenericValue::Hashset(l) => {
            match translated {
                Ok(GenericValue::Hashset(nl)) => lemma_values_translation_weaken(l@, Ok(nl@), f, g),
                Err(e) => lemma_values_translation_weaken(l@, Err(e), f, g),
                _ => {},
            }
        },
        GenericValue::Composition(l) => {
            match translated {
                Ok(GenericValue::Composition(nl)) => lemma_values_translation_weaken(
                    l@,
                    Ok(nl@),
                    f,
                    g,
                ),
                Err(e) => lemma_values_translation_weaken(l@, Err(e), f, g),
                _ => {},
            }
        },
        GenericValue::Hashmap(m) => {
            let v = pairs_of(value);
            match translated {
                Ok(GenericValue::Hashmap(nm)) => {
                    assert forall|k: int| 0 <= k < m@.len() implies value_translation(
                        #[trigger] m@[k].0,
                        Ok(nm@[k].0),
                        g,
                    ) && value_translation(m@[k].1, Ok(nm@[k].1), g) by {
                        let pair = v@[k];
                        assert(decreases_to!(value => v));
                        assert(decreases_to!(v => v@));
                        assert(decreases_to!(v@ => pair));
                        assert(decreases_to!(pair => pair.0));
                        assert(decreases_to!(pair => pair.1));
                        lemma_value_translation_weaken(m@[k].0, Ok(nm@[k].0), f, g);
                        lemma_value_translation_weaken(m@[k].1, Ok(nm@[k].1), f, g);
                    }
                },
                Err(e) => {
                    let progress = choose|
                        progress: (
                            Seq<(GenericValue<NI, NO, NR, NM>, GenericValue<NI, NO, NR, NM>)>,
                            Option<GenericValue<NI, NO, NR, NM>>,
                        ),
                    |
                        #![trigger m@[progress.0.len() as int]]
                        {
                            let done = progress.0;
                            let j = done.len() as int;
                            &&& j < m@.len()
                            &&& forall|k: int|
                                0 <= k < j ==> value_translation(
                                    #[trigger] m@[k].0,
                                    Ok(done[k].0),
                                    f,
                                ) && value_translation(m@[k].1, Ok(done[k].1), f)
                            &&& match progress.1 {
                                None => value_translation(m@[j].0, Err(e), f),
                                Some(key) => value_translation(m@[j].0, Ok(key), f)
                                    && value_translation(m@[j].1, Err(e), f),
                            }
                        };
                    let done = progress.0;
                    assert(decreases_to!(value => v));
                    assert(decreases_to!(v => v@));
                    assert forall|k: int| 0 <= k < done.len() implies value_translation(
                        #[trigger] m@[k].0,
                        Ok(done[k].0),
                        g,
                    ) && value_translation(m@[k].1, Ok(done[k].1), g) by {
                        let pair = v@[k];
                        assert(decreases_to!(v@ => pair));
                        assert(decreases_to!(pair => pair.0));
                        assert(decreases_to!(pair => pair.1));
                        lemma_value_translation_weaken(m@[k].0, Ok(done[k].0), f, g);
                        lemma_value_translation_weaken(m@[k].1, Ok(done[k].1), f, g);
                    }
                    let j = done.len() as int;
                    let pair = v@[j];
                    assert(decreases_to!(v@ => pair));
                    assert(decreases_to!(pair => pair.0));
                    assert(decreases_to!(pair => pair.1));
                    match progress.1 {
                        None => lemma_value_translation_weaken(m@[j].0, Err(e), f, g),
                        Some(key) => {
                            lemma_value_translation_weaken(m@[j].0, Ok(key), f, g);
                            lemma_value_translation_weaken(m@[j].1, Err(e), f, g);
                        },
                    }
                    assert(m@[progress.0.len() as int] == pair);
                },
                _ => {},
            }
        },
        GenericValue::PartialApplication(p) => {
            let head = partial_head(value);
            let args = partial_args(value);
            assert(decreases_to!(value => head));
            assert(decreases_to!(value => args));
            match translated {
                Ok(GenericValue::PartialApplication(np)) => {
                    lemma_value_translation_weaken(head, Ok(partial_head(translated->Ok_0)), f, g);
                    lemma_values_translation_weaken(
                        args@,
                        Ok(partial_args(translated->Ok_0)@),
                        f,
                        g,
                    );
                },
                Err(e) => {
                    if value_translation(head, Err(e), f) {
                        lemma_value_translation_weaken(head, Err(e), f, g);
                    } else {
                        let heads = choose|heads: Seq<GenericValue<NI, NO, NR, NM>>|
                            #![trigger heads[0]]
                            heads.len() == 1 && value_translation(head, Ok(heads[0]), f)
                                && values_translation(args@, Err(e), f);
                        lemma_value_translation_weaken(head, Ok(heads[0]), f, g);
                        lemma_values_translation_weaken(args@, Err(e), f, g);
                    }
                },
                _ => {},
            }
        },
        _ => {},
    }
}

/// Translating a block stays a translation under any looser account of block outcomes.
pub proof fn lemma_block_translation_weaken<I, O, R, M, NI, NO, NR, NM, E>(
    block: GenericBlock<I, O, R, M>,
    preallocated: u8,
    translated: Result<GenericBlock<NI, NO, NR, NM>, E>,
    f: spec_fn(u8, Seq<Instruction<I, O, R>>, Seq<GenericValue<NI, NO, NR, NM>>, M, Result<GenericBlock<NI, NO, NR, NM>, E>) -> bool,
    g: spec_fn(u8, Seq<Instruction<I, O, R>>, Seq<GenericValue<NI, NO, NR, NM>>, M, Result<GenericBlock<NI, NO, NR, NM>, E>) -> bool,
)
    requires
        block_translation(block, preallocated, translated, f),
        forall|p, i, c, m, r| #[trigger] f(p, i, c, m, r) ==> g(p, i, c, m, r),
    ensures
        block_translation(block, preallocated, translated, g),
    decreases block, 2int,
{
    assert(decreases_to!(block => block.constants@));
    if translated is Err && values_translation(block.constants@, Err(translated->Err_0), f) {
        lemma_values_translation_weaken(block.constants@, Err(translated->Err_0), f, g);
    } else {
        let constants = choose|constants: Seq<GenericValue<NI, NO, NR, NM>>|
            values_translation(block.constants@, Ok(constants), f) && #[trigger] f(
                preallocated,
                block.instructions@,
                constants,
                block.metadata,
                translated,
            );
        lemma_values_translation_weaken(block.constants@, Ok(constants), f, g);
    }
}

/// Whether a block translator's every successful outcome on a well-formed block (whose
/// instructions report their usages and load constants it has) is again well-formed, as
/// deep as its translated constants are.
pub open spec fn outcome_keeps_usages<I, O, R, M, NI, NO, NR, NM, E>(
    outcome: spec_fn(u8, Seq<Instruction<I, O, R>>, Seq<GenericValue<NI, NO, NR, NM>>, M, Result<GenericBlock<NI, NO, NR, NM>, E>) -> bool,
) -> bool {
    forall|p: u8, i: Seq<Instruction<I, O, R>>, c: Seq<GenericValue<NI, NO, NR, NM>>, m: M, b: GenericBlock<NI, NO, NR, NM>|
        #[trigger] outcome(p, i, c, m, Ok(b)) && all_have_usages(i) && constants_in_range(i, c.len())
            && values_have_usages(c) ==> block_has_usages(b)
}

/// A successful translation of well-formed values is well-formed.
pub proof fn lemma_values_keep_usages<I, O, R, M, NI, NO, NR, NM, E>(
    values: Seq<GenericValue<I, O, R, M>>,
    translated: Seq<GenericValue<NI, NO, NR, NM>>,
    f: spec_fn(u8, Seq<Instruction<I, O, R>>, Seq<GenericValue<NI, NO, NR, NM>>, M, Result<GenericBlock<NI, NO, NR, NM>, E>) -> bool,
)
    requires
        values_translation(values, Ok(translated), f),
        values_have_usages(values),
        outcome_keeps_usages(f),
    ensures
        values_have_usages(translated),
    decreases values, 0int,
{
    assert forall|k: int| 0 <= k < translated.len() implies value_has_usages(#[trigger] translated[k]) by {
        assert(decreases_to!(values => values[k]));
        assert(value_has_usages(values[k]));
        lemma_value_keeps_usages(values[k], translated[k], f);
    }
}

/// A successful translation of a well-formed value is well-formed.
pub proof fn lemma_value_keeps_usages<I, O, R, M, NI, NO, NR, NM, E>(
    value: GenericValue<I, O, R, M>,
    translated: GenericValue<NI, NO, NR, NM>,
    f: spec_fn(u8, Seq<Instruction<I, O, R>>, Seq<GenericValue<NI, NO, NR, NM>>, M, Result<GenericBlock<NI, NO, NR, NM>, E>) -> bool,
)
    requires
        value_translation(value, Ok(translated), f),
        value_has_usages(value),
        outcome_keeps_usages(f),
    ensures
        value_has_usages(translated),
    decreases value, 1int,
{
    match value {
        GenericValue::CompositeFn(func) => {
            let b = function_block(value);
            assert(decreases_to!(value => b));
            lemma_block_keeps_usages(b, function_arity(value), function_block(translated), f);
        },
        GenericValue::List(l) => {
            lemma_values_keep_usages(l@, translated->List_0@, f);
        },
        GenericValue::Hashset(l) => {
            lemma_values_keep_usages(l@, translated->Hashset_0@, f);
        },
        GenericValue::Composition(l) => {
            lemma_values_keep_usages(l@, translated->Composition_0@, f);
        },
        GenericValue::Hashmap(m) => {
            let v = pairs_of(value);
            let nm = pairs_of(translated);
            assert forall|k: int| 0 <= k < nm@.len() implies value_has_usages(#[trigger] nm@[k].0)
                && value_has_usages(nm@[k].1) by {
                let pair = v@[k];
                assert(decreases_to!(value => v));
                assert(decreases_to!(v => v@));
                assert(decreases_to!(v@ => pair));
                assert(decreases_to!(pair => pair.0));
                assert(decreases_to!(pair => pair.1));
                lemma_value_keeps_usages(v@[k].0, nm@[k].0, f);
                lemma_value_keeps_usages(v@[k].1, nm@[k].1, f);
            }
        },
        GenericValue::PartialApplication(p) => {
            let head = partial_head(value);
            let args = partial_args(value);
            assert(decreases_to!(value => head));
            assert(decreases_to!(value => args));
            lemma_value_keeps_usages(head, partial_head(translated), f);
            lemma_values_keep_usages(args@, partial_args(translated)@, f);
        },
        _ => {},
    }
}

/// A successful translation of a well-formed block is well-formed.
pub proof fn lemma_block_keeps_usages<I, O, R, M, NI, NO, NR, NM, E>(
    block: GenericBlock<I, O, R, M>,
    preallocated: u8,
    translated: GenericBlock<NI, NO, NR, NM>,
    f: spec_fn(u8, Seq<Instruction<I, O, R>>, Seq<GenericValue<NI, NO, NR, NM>>, M, Result<GenericBlock<NI, NO, NR, NM>, E>) -> bool,
)
    requires
        block_translation(block, preallocated, Ok(translated), f),
        block_has_usages(block),
        outcome_keeps_usages(f),
    ensures
        block_has_usages(translated),
    decreases block, 2int,
{
    assert(decreases_to!(block => block.constants@));
    let constants = choose|constants: Seq<GenericValue<NI, NO, NR, NM>>|
        values_translation(block.constants@, Ok(constants), f) && #[trigger] f(
            preallocated,
            block.instructions@,
            constants,
            block.metadata,
            Ok(translated),
        );
    lemma_values_keep_usages(block.constants@, constants, f);
}


/// Whether every instruction of `instructions` can report its register usages, and loads
/// only constants below `count`.
fn instructions_usages_known<I, O, R>(instructions: &Vec<Instruction<I, O, R>>, count: usize) -> (b:
    bool)
    ensures
        b == (all_have_usages(instructions@) && constants_in_range(instructions@, count as nat)),
{
    let mut i: usize = 0;
    while i < instructions.len()
        invariant
            0 <= i <= instructions@.len(),
            forall|k: int| 0 <= k < i ==> (#[trigger] instructions@[k]).has_usages(),
            forall|k: int|
                0 <= k < i ==> (#[trigger] instructions@[k] matches Instruction::Const(_, index)
                    ==> index < count),
        decreases instructions@.len() - i,
    {
        match &instructions[i] {
            Instruction::YieldAndAccept(_, _, _) => {
                return false;
            },
            Instruction::Const(_, index) => {
                if *index as usize >= count {
                    return false;
                }
            },
            _ => {},
        }
        i = i + 1;
    }
    true
}

/// Whether every block inside `values` holds only instructions that can report their
/// register usages and that load constants the block has.
pub fn values_usages_known<I, O, R, M>(values: &Vec<GenericValue<I, O, R, M>>) -> (b: bool)
    ensures
        b == values_have_usages(values@),
    decreases values, 0int,
{
    let mut i: usize = 0;
    while i < values.len()
        invariant
            0 <= i <= values@.len(),
            forall|k: int| 0 <= k < i ==> value_has_usages(#[trigger] values@[k]),
        decreases values@.len() - i,
    {
        proof {
            assert(decreases_to!(values => values@[i as int]));
        }
        if !value_usages_known(&values[i]) {
            return false;
        }
        i = i + 1;
    }
    true
}

/// Whether every block inside `value` holds only instructions that can report their
/// register usages and that load constants the block has.
pub fn value_usages_known<I, O, R, M>(value: &GenericValue<I, O, R, M>) -> (b: bool)
    ensures
        b == value_has_usages(*value),
    decreases value, 1int,
{
    match value {
        GenericValue::CompositeFn(f) => block_usages_known(&f.block),
        GenericValue::List(l) | GenericValue::Hashset(l) | GenericValue::Composition(l) =>
            values_usages_known(l),
        GenericValue::Hashmap(m) => entries_usages_known(m),
        GenericValue::PartialApplication(p) => {
            proof {
                assert(decreases_to!(value => p.0));
            }
            value_usages_known(&p.0) && values_usages_known(&p.1)
        },
        _ => true,
    }
}

/// Whether every block inside the key and the value of `entry` holds only instructions
/// that can report their register usages.
pub open spec fn entry_has_usages<I, O, R, M>(
    entry: (GenericValue<I, O, R, M>, GenericValue<I, O, R, M>),
) -> bool {
    value_has_usages(entry.0) && value_has_usages(entry.1)
}

/// Whether every block inside the keys and values of `entries` holds only instructions
/// that can report their register usages and that load constants the block has.
fn entries_usages_known<I, O, R, M>(
    entries: &Vec<(GenericValue<I, O, R, M>, GenericValue<I, O, R, M>)>,
) -> (b: bool)
    ensures
        b == forall|k: int|
            0 <= k < entries@.len() ==> value_has_usages(#[trigger] entries@[k].0)
                && value_has_usages(entries@[k].1),
    decreases entries, 0int,
{
    let mut i: usize = 0;
    while i < entries.len()
        invariant
            0 <= i <= entries@.len(),
            forall|k: int| 0 <= k < i ==> entry_has_usages(#[trigger] entries@[k]),
        decreases entries@.len() - i,
    {
        proof {
            let pair = entries@[i as int];
            assert(decreases_to!(entries => pair));
            assert(decreases_to!(pair => pair.0));
            assert(decreases_to!(pair => pair.1));
        }
        let key_known = value_usages_known(&entries[i].0);
        let value_known = value_usages_known(&entries[i].1);
        if !key_known || !value_known {
            return false;
        }
        assert(entry_has_usages(entries@[i as int]));
        i = i + 1;
    }
    assert forall|k: int| 0 <= k < entries@.len() implies value_has_usages(
        #[trigger] entries@[k].0,
    ) && value_has_usages(entries@[k].1) by {
        assert(entry_has_usages(entries@[k]));
    }
    true
}

/// Whether `block`, and every block inside its constants, holds only instructions that
/// can report their register usages and that load constants the block has.
pub fn block_usages_known<I, O, R, M>(block: &GenericBlock<I, O, R, M>) -> (b: bool)
    ensures
        b == block_has_usages(*block),
    decreases block, 2int,
{
    instructions_usages_known(&block.instructions, block.constants.len()) && values_usages_known(
        &block.constants,
    )
}
} // verus!
