use vstd::prelude::*;

verus! {

/// Index of a constant in a block's constant table.
pub type ConstIndex = u16;

/// Index of a symbol in a symbol ledger.
pub type SymbolIndex = u16;

/// A virtual-machine instruction, generic over the kinds of register operands it holds:
/// `I` for registers that are read, `O` for registers that are written, and `R` for
/// registers that are read and then replaced by the result.
#[derive(Clone, Copy, Debug, PartialEq, Eq, Hash)]
pub enum Instruction<I, O, R> {
    DebugPrint(u8),
    // Register manipulation
    Clear(O),
    Copy(O, I),
    Const(O, ConstIndex),
    // Output
    Print(I),
    // Function control flow
    Return(I),
    CopyArgument(I),
    StealArgument(I),
    Call(O, I, u8),
    Apply(R, I),
    CallSelf(O, u8),
    ApplySelf(R),
    CallAndReturn(I, u8),
    ApplyAndReturn(I, I),
    CallSelfAndReturn(u8),
    ApplySelfAndReturn(I),
    CallingFunction(O),
    Jump(u16),
    // Environment manipulation
    Lookup(O, SymbolIndex),
    // Control flow
    If(I),
    Else,
    ElseIf(I),
    EndIf,
    // Functions manipulation
    Partial(O, I, I),
    Compose(O, I, I),
    FindSome(O, I, I),
    ReduceWithoutInitialValue(R, I),
    ReduceWithInitialValue(R, I, I),
    Memoize(O, I),
    // Special function constructors
    Constantly(O, I),
    // Math
    NumericalEqual(O, I, I),
    IsZero(O, I),
    IsNan(O, I),
    IsInf(O, I),
    IsEven(O, I),
    IsOdd(O, I),
    IsPos(O, I),
    IsNeg(O, I),
    Inc(O, I),
    Dec(O, I),
    Negate(O, I),
    Abs(O, I),
    Floor(O, I),
    Ceil(O, I),
    Sqrt(O, I),
    Exp(O, I),
    Exp2(O, I),
    Ln(O, I),
    Log2(O, I),
    Add(O, I, I),
    Subtract(O, I, I),
    Multiply(O, I, I),
    Divide(O, I, I),
    Pow(O, I, I),
    Mod(O, I, I),
    Quot(O, I, I),
    Min(O, I, I),
    Max(O, I, I),
    GreaterThan(O, I, I),
    GreaterThanOrEqual(O, I, I),
    LessThan(O, I, I),
    LessThanOrEqual(O, I, I),
    Rand(O),
    UpperBoundedRand(O, I),
    LowerUpperBoundedRand(O, I, I),
    RandInt(O, I),
    LowerBoundedRandInt(O, I, I),
    // Boolean logic
    Equal(O, I, I),
    NotEqual(O, I, I),
    Not(O, I),
    And(O, I, I),
    Or(O, I, I),
    Xor(O, I, I),
    // List + Map + Set manipulation
    IsEmpty(O, I),
    First(O, I),
    Count(O, I),
    Flatten(O, I),
    Remove(R, I),
    Filter(R, I),
    CollectionMap(R, I),
    DoubleMap(R, I, I),
    MultiCollectionMap(R, I),
    // List + Map manipulation
    CollectionSet(R, I, I),
    SetIn(R, I, I),
    Get(O, I, I),
    GetIn(O, I, I),
    Update(R, I, I),
    UpdateIn(R, I, I),
    MinKey(O, I, I),
    MaxKey(O, I, I),
    // List + Set manipulation
    Push(R, I),
    Sort(R),
    SortBy(R, I),
    // List manipulation (most apply to strings as well)
    EmptyList(O),
    Last(O, I),
    Rest(R),
    ButLast(R),
    Nth(O, I, I),
    NthFromLast(O, I, I),
    Cons(R, I),
    Concat(R, I),
    Take(R, I),
    Drop(R, I),
    Reverse(R),
    Distinct(R),
    Sub(R, I, I),
    Partition(O, I, I),
    SteppedPartition(R, I, I),
    Pad(R, I, I),
    // Map manipulation
    EmptyMap(O),
    Keys(O, I),
    Values(O, I),
    Zip(O, I, I),
    Invert(R),
    Merge(O, I, I),
    MergeWith(R, I, I),
    MapKeys(R, I),
    MapValues(R, I),
    SelectKeys(R, I),
    // Set manipulation
    EmptySet(O),
    Union(O, I, I),
    Intersection(O, I, I),
    Difference(O, I, I),
    SymmetricDifference(O, I, I),
    // Specialized list constructors
    InfiniteRange(O),
    UpperBoundedRange(O, I),
    LowerUpperBoundedRange(O, I, I),
    InfiniteRepeat(O, I),
    BoundedRepeat(O, I, I),
    InfiniteRepeatedly(O, I),
    BoundedRepeatedly(O, I, I),
    InfiniteIterate(O, I, I),
    BoundedIterate(R, I, I),
    // Cells
    CreateCell(O),
    GetCellValue(O, I),
    SetCellValue(O, I),
    UpdateCell(O, I),
    // Coroutines
    CreateCoroutine(R),
    IsCoroutineAlive(O, I),
    Yield(O),
    YieldAndAccept(O, u8, I),
    // Type checkers
    IsNil(O, I),
    IsBool(O, I),
    IsChar(O, I),
    IsNum(O, I),
    IsInt(O, I),
    IsFloat(O, I),
    IsSymbol(O, I),
    IsString(O, I),
    IsList(O, I),
    IsMap(O, I),
    IsSet(O, I),
    IsCollection(O, I),
    IsFn(O, I),
    IsError(O, I),
    IsCell(O, I),
    IsCoroutine(O, I),
    // Type conversions
    ToBool(O, I),
    ToChar(O, I),
    ToNum(O, I),
    ToInt(O, I),
    ToFloat(O, I),
    ToSymbol(O, I),
    ToString(O, I),
    ToList(O, I),
    ToMap(O, I),
    ToSet(O, I),
    ToError(O, I),
}

/// The registers an instruction reads, writes, and replaces.
pub struct RegisterUsages<I, O, R> {
    pub inputs: Vec<I>,
    pub outputs: Vec<O>,
    pub replacements: Vec<R>,
}

impl<I, O, R> Instruction<I, O, R> {
    /// The registers that `usages` reports as read.
    pub open spec fn spec_inputs(self) -> Seq<I> {
        match self {
            Instruction::DebugPrint(_) => seq![],
            Instruction::Clear(_) => seq![],
            Instruction::Copy(_, b) => seq![b],
            Instruction::Const(_, _) => seq![],
            Instruction::Print(a) => seq![a],
            Instruction::Return(a) => seq![a],
            Instruction::CopyArgument(a) => seq![a],
            Instruction::StealArgument(a) => seq![a],
            Instruction::Call(_, b, _) => seq![b],
            Instruction::Apply(_, b) => seq![b],
            Instruction::CallSelf(_, _) => seq![],
            Instruction::ApplySelf(_) => seq![],
            Instruction::CallAndReturn(a, _) => seq![a],
            Instruction::ApplyAndReturn(a, _) => seq![a],
            Instruction::CallSelfAndReturn(_) => seq![],
            Instruction::ApplySelfAndReturn(a) => seq![a],
            Instruction::CallingFunction(_) => seq![],
            Instruction::Jump(_) => seq![],
            Instruction::Lookup(_, _) => seq![],
            Instruction::If(a) => seq![a],
            Instruction::Else => seq![],
            Instruction::ElseIf(a) => seq![a],
            Instruction::EndIf => seq![],
            Instruction::Partial(_, b, c) => seq![b, c],
            Instruction::Compose(_, b, c) => seq![b, c],
            Instruction::FindSome(_, b, c) => seq![b, c],
            Instruction::ReduceWithoutInitialValue(_, b) => seq![b],
            Instruction::ReduceWithInitialValue(_, b, c) => seq![b, c],
            Instruction::Memoize(_, b) => seq![b],
            Instruction::Constantly(_, b) => seq![b],
            Instruction::NumericalEqual(_, b, c) => seq![b, c],
            Instruction::IsZero(_, b) => seq![b],
            Instruction::IsNan(_, b) => seq![b],
            Instruction::IsInf(_, b) => seq![b],
            Instruction::IsEven(_, b) => seq![b],
            Instruction::IsOdd(_, b) => seq![b],
            Instruction::IsPos(_, b) => seq![b],
            Instruction::IsNeg(_, b) => seq![b],
            Instruction::Inc(_, b) => seq![b],
            Instruction::Dec(_, b) => seq![b],
            Instruction::Negate(_, b) => seq![b],
            Instruction::Abs(_, b) => seq![b],
            Instruction::Floor(_, b) => seq![b],
            Instruction::Ceil(_, b) => seq![b],
            Instruction::Sqrt(_, b) => seq![b],
            Instruction::Exp(_, b) => seq![b],
            Instruction::Exp2(_, b) => seq![b],
            Instruction::Ln(_, b) => seq![b],
            Instruction::Log2(_, b) => seq![b],
            Instruction::Add(_, b, c) => seq![b, c],
            Instruction::Subtract(_, b, c) => seq![b, c],
            Instruction::Multiply(_, b, c) => seq![b, c],
            Instruction::Divide(_, b, c) => seq![b, c],
            Instruction::Pow(_, b, c) => seq![b, c],
            Instruction::Mod(_, b, c) => seq![b, c],
            Instruction::Quot(_, b, c) => seq![b, c],
            Instruction::Min(_, b, c) => seq![b, c],
            Instruction::Max(_, b, c) => seq![b, c],
            Instruction::GreaterThan(_, b, c) => seq![b, c],
            Instruction::GreaterThanOrEqual(_, b, c) => seq![b, c],
            Instruction::LessThan(_, b, c) => seq![b, c],
            Instruction::LessThanOrEqual(_, b, c) => seq![b, c],
            Instruction::Rand(_) => seq![],
            Instruction::UpperBoundedRand(_, b) => seq![b],
            Instruction::LowerUpperBoundedRand(_, b, c) => seq![b, c],
            Instruction::RandInt(_, b) => seq![b],
            Instruction::LowerBoundedRandInt(_, b, c) => seq![b, c],
            Instruction::Equal(_, b, c) => seq![b, c],
            Instruction::NotEqual(_, b, c) => seq![b, c],
            Instruction::Not(_, b) => seq![b],
            Instruction::And(_, b, c) => seq![b, c],
            Instruction::Or(_, b, c) => seq![b, c],
            Instruction::Xor(_, b, c) => seq![b, c],
            Instruction::IsEmpty(_, b) => seq![b],
            Instruction::First(_, b) => seq![b],
            Instruction::Count(_, b) => seq![b],
            Instruction::Flatten(_, b) => seq![b],
            Instruction::Remove(_, b) => seq![b],
            Instruction::Filter(_, b) => seq![b],
            Instruction::CollectionMap(_, b) => seq![b],
            Instruction::DoubleMap(_, b, c) => seq![b, c],
            Instruction::MultiCollectionMap(_, b) => seq![b],
            Instruction::CollectionSet(_, b, c) => seq![b, c],
            Instruction::SetIn(_, b, c) => seq![b, c],
            Instruction::Get(_, b, c) => seq![b, c],
            Instruction::GetIn(_, b, c) => seq![b, c],
            Instruction::Update(_, b, c) => seq![b, c],
            Instruction::UpdateIn(_, b, c) => seq![b, c],
            Instruction::MinKey(_, b, c) => seq![b, c],
            Instruction::MaxKey(_, b, c) => seq![b, c],
            Instruction::Push(_, b) => seq![b],
            Instruction::Sort(_) => seq![],
            Instruction::SortBy(_, b) => seq![b],
            Instruction::EmptyList(_) => seq![],
            Instruction::Last(_, b) => seq![b],
            Instruction::Rest(_) => seq![],
            Instruction::ButLast(_) => seq![],
            Instruction::Nth(_, b, c) => seq![b, c],
            Instruction::NthFromLast(_, b, c) => seq![b, c],
            Instruction::Cons(_, b) => seq![b],
            Instruction::Concat(_, b) => seq![b],
            Instruction::Take(_, b) => seq![b],
            Instruction::Drop(_, b) => seq![b],
            Instruction::Reverse(_) => seq![],
            Instruction::Distinct(_) => seq![],
            Instruction::Sub(_, b, c) => seq![b, c],
            Instruction::Partition(_, b, c) => seq![b, c],
            Instruction::SteppedPartition(_, b, c) => seq![b, c],
            Instruction::Pad(_, b, c) => seq![b, c],
            Instruction::EmptyMap(_) => seq![],
            Instruction::Keys(_, b) => seq![b],
            Instruction::Values(_, b) => seq![b],
            Instruction::Zip(_, b, c) => seq![b, c],
            Instruction::Invert(_) => seq![],
            Instruction::Merge(_, b, c) => seq![b, c],
            Instruction::MergeWith(_, b, c) => seq![b, c],
            Instruction::MapKeys(_, b) => seq![b],
            Instruction::MapValues(_, b) => seq![b],
            Instruction::SelectKeys(_, b) => seq![b],
            Instruction::EmptySet(_) => seq![],
            Instruction::Union(_, b, c) => seq![b, c],
            Instruction::Intersection(_, b, c) => seq![b, c],
            Instruction::Difference(_, b, c) => seq![b, c],
            Instruction::SymmetricDifference(_, b, c) => seq![b, c],
            Instruction::InfiniteRange(_) => seq![],
            Instruction::UpperBoundedRange(_, b) => seq![b],
            Instruction::LowerUpperBoundedRange(_, b, c) => seq![b, c],
            Instruction::InfiniteRepeat(_, b) => seq![b],
            Instruction::BoundedRepeat(_, b, c) => seq![b, c],
            Instruction::InfiniteRepeatedly(_, b) => seq![b],
            Instruction::BoundedRepeatedly(_, b, c) => seq![b, c],
            Instruction::InfiniteIterate(_, b, c) => seq![b, c],
            Instruction::BoundedIterate(_, b, c) => seq![b, c],
            Instruction::CreateCell(_) => seq![],
            Instruction::GetCellValue(_, b) => seq![b],
            Instruction::SetCellValue(_, b) => seq![b],
            Instruction::UpdateCell(_, b) => seq![b],
            Instruction::CreateCoroutine(_) => seq![],
            Instruction::IsCoroutineAlive(_, b) => seq![b],
            Instruction::Yield(_) => seq![],
            Instruction::YieldAndAccept(_, _, c) => seq![c],
            Instruction::IsNil(_, b) => seq![b],
            Instruction::IsBool(_, b) => seq![b],
            Instruction::IsChar(_, b) => seq![b],
            Instruction::IsNum(_, b) => seq![b],
            Instruction::IsInt(_, b) => seq![b],
            Instruction::IsFloat(_, b) => seq![b],
            Instruction::IsSymbol(_, b) => seq![b],
            Instruction::IsString(_, b) => seq![b],
            Instruction::IsList(_, b) => seq![b],
            Instruction::IsMap(_, b) => seq![b],
            Instruction::IsSet(_, b) => seq![b],
            Instruction::IsCollection(_, b) => seq![b],
            Instruction::IsFn(_, b) => seq![b],
            Instruction::IsError(_, b) => seq![b],
            Instruction::IsCell(_, b) => seq![b],
            Instruction::IsCoroutine(_, b) => seq![b],
            Instruction::ToBool(_, b) => seq![b],
            Instruction::ToChar(_, b) => seq![b],
            Instruction::ToNum(_, b) => seq![b],
            Instruction::ToInt(_, b) => seq![b],
            Instruction::ToFloat(_, b) => seq![b],
            Instruction::ToSymbol(_, b) => seq![b],
            Instruction::ToString(_, b) => seq![b],
            Instruction::ToList(_, b) => seq![b],
            Instruction::ToMap(_, b) => seq![b],
            Instruction::ToSet(_, b) => seq![b],
            Instruction::ToError(_, b) => seq![b],
        }
    }

    /// The registers that `usages` reports as written.
    pub open spec fn spec_outputs(self) -> Seq<O> {
        match self {
            Instruction::DebugPrint(_) => seq![],
            Instruction::Clear(a) => seq![a],
            Instruction::Copy(a, _) => seq![a],
            Instruction::Const(a, _) => seq![a],
            Instruction::Print(_) => seq![],
            Instruction::Return(_) => seq![],
            Instruction::CopyArgument(_) => seq![],
            Instruction::StealArgument(_) => seq![],
            Instruction::Call(a, _, _) => seq![a],
            Instruction::Apply(_, _) => seq![],
            Instruction::CallSelf(a, _) => seq![a],
            Instruction::ApplySelf(_) => seq![],
            Instruction::CallAndReturn(_, _) => seq![],
            Instruction::ApplyAndReturn(_, _) => seq![],
            Instruction::CallSelfAndReturn(_) => seq![],
            Instruction::ApplySelfAndReturn(_) => seq![],
            Instruction::CallingFunction(a) => seq![a],
            Instruction::Jump(_) => seq![],
            Instruction::Lookup(a, _) => seq![a],
            Instruction::If(_) => seq![],
            Instruction::Else => seq![],
            Instruction::ElseIf(_) => seq![],
            Instruction::EndIf => seq![],
            Instruction::Partial(a, _, _) => seq![a],
            Instruction::Compose(a, _, _) => seq![a],
            Instruction::FindSome(a, _, _) => seq![a],
            Instruction::ReduceWithoutInitialValue(_, _) => seq![],
            Instruction::ReduceWithInitialValue(_, _, _) => seq![],
            Instruction::Memoize(a, _) => seq![a],
            Instruction::Constantly(a, _) => seq![a],
            Instruction::NumericalEqual(a, _, _) => seq![a],
            Instruction::IsZero(a, _) => seq![a],
            Instruction::IsNan(a, _) => seq![a],
            Instruction::IsInf(a, _) => seq![a],
            Instruction::IsEven(a, _) => seq![a],
            Instruction::IsOdd(a, _) => seq![a],
            Instruction::IsPos(a, _) => seq![a],
            Instruction::IsNeg(a, _) => seq![a],
            Instruction::Inc(a, _) => seq![a],
            Instruction::Dec(a, _) => seq![a],
            Instruction::Negate(a, _) => seq![a],
            Instruction::Abs(a, _) => seq![a],
            Instruction::Floor(a, _) => seq![a],
            Instruction::Ceil(a, _) => seq![a],
            Instruction::Sqrt(a, _) => seq![a],
            Instruction::Exp(a, _) => seq![a],
            Instruction::Exp2(a, _) => seq![a],
            Instruction::Ln(a, _) => seq![a],
            Instruction::Log2(a, _) => seq![a],
            Instruction::Add(a, _, _) => seq![a],
            Instruction::Subtract(a, _, _) => seq![a],
            Instruction::Multiply(a, _, _) => seq![a],
            Instruction::Divide(a, _, _) => seq![a],
            Instruction::Pow(a, _, _) => seq![a],
            Instruction::Mod(a, _, _) => seq![a],
            Instruction::Quot(a, _, _) => seq![a],
            Instruction::Min(a, _, _) => seq![a],
            Instruction::Max(a, _, _) => seq![a],
            Instruction::GreaterThan(a, _, _) => seq![a],
            Instruction::GreaterThanOrEqual(a, _, _) => seq![a],
            Instruction::LessThan(a, _, _) => seq![a],
            Instruction::LessThanOrEqual(a, _, _) => seq![a],
            Instruction::Rand(a) => seq![a],
            Instruction::UpperBoundedRand(a, _) => seq![a],
            Instruction::LowerUpperBoundedRand(a, _, _) => seq![a],
            Instruction::RandInt(a, _) => seq![a],
            Instruction::LowerBoundedRandInt(a, _, _) => seq![a],
            Instruction::Equal(a, _, _) => seq![a],
            Instruction::NotEqual(a, _, _) => seq![a],
            Instruction::Not(a, _) => seq![a],
            Instruction::And(a, _, _) => seq![a],
            Instruction::Or(a, _, _) => seq![a],
            Instruction::Xor(a, _, _) => seq![a],
            Instruction::IsEmpty(a, _) => seq![a],
            Instruction::First(a, _) => seq![a],
            Instruction::Count(a, _) => seq![a],
            Instruction::Flatten(a, _) => seq![a],
            Instruction::Remove(_, _) => seq![],
            Instruction::Filter(_, _) => seq![],
            Instruction::CollectionMap(_, _) => seq![],
            Instruction::DoubleMap(_, _, _) => seq![],
            Instruction::MultiCollectionMap(_, _) => seq![],
            Instruction::CollectionSet(_, _, _) => seq![],
            Instruction::SetIn(_, _, _) => seq![],
            Instruction::Get(a, _, _) => seq![a],
            Instruction::GetIn(a, _, _) => seq![a],
            Instruction::Update(_, _, _) => seq![],
            Instruction::UpdateIn(_, _, _) => seq![],
            Instruction::MinKey(a, _, _) => seq![a],
            Instruction::MaxKey(a, _, _) => seq![a],
            Instruction::Push(_, _) => seq![],
            Instruction::Sort(_) => seq![],
            Instruction::SortBy(_, _) => seq![],
            Instruction::EmptyList(a) => seq![a],
            Instruction::Last(a, _) => seq![a],
            Instruction::Rest(_) => seq![],
            Instruction::ButLast(_) => seq![],
            Instruction::Nth(a, _, _) => seq![a],
            Instruction::NthFromLast(a, _, _) => seq![a],
            Instruction::Cons(_, _) => seq![],
            Instruction::Concat(_, _) => seq![],
            Instruction::Take(_, _) => seq![],
            Instruction::Drop(_, _) => seq![],
            Instruction::Reverse(_) => seq![],
            Instruction::Distinct(_) => seq![],
            Instruction::Sub(_, _, _) => seq![],
            Instruction::Partition(a, _, _) => seq![a],
            Instruction::SteppedPartition(_, _, _) => seq![],
            Instruction::Pad(_, _, _) => seq![],
            Instruction::EmptyMap(a) => seq![a],
            Instruction::Keys(a, _) => seq![a],
            Instruction::Values(a, _) => seq![a],
            Instruction::Zip(a, _, _) => seq![a],
            Instruction::Invert(_) => seq![],
            Instruction::Merge(a, _, _) => seq![a],
            Instruction::MergeWith(_, _, _) => seq![],
            Instruction::MapKeys(_, _) => seq![],
            Instruction::MapValues(_, _) => seq![],
            Instruction::SelectKeys(_, _) => seq![],
            Instruction::EmptySet(a) => seq![a],
            Instruction::Union(a, _, _) => seq![a],
            Instruction::Intersection(a, _, _) => seq![a],
            Instruction::Difference(a, _, _) => seq![a],
            Instruction::SymmetricDifference(a, _, _) => seq![a],
            Instruction::InfiniteRange(a) => seq![a],
            Instruction::UpperBoundedRange(a, _) => seq![a],
            Instruction::LowerUpperBoundedRange(a, _, _) => seq![a],
            Instruction::InfiniteRepeat(a, _) => seq![a],
            Instruction::BoundedRepeat(a, _, _) => seq![a],
            Instruction::InfiniteRepeatedly(a, _) => seq![a],
            Instruction::BoundedRepeatedly(a, _, _) => seq![a],
            Instruction::InfiniteIterate(a, _, _) => seq![a],
            Instruction::BoundedIterate(_, _, _) => seq![],
            Instruction::CreateCell(a) => seq![a],
            Instruction::GetCellValue(a, _) => seq![a],
            Instruction::SetCellValue(a, _) => seq![a],
            Instruction::UpdateCell(a, _) => seq![a],
            Instruction::CreateCoroutine(_) => seq![],
            Instruction::IsCoroutineAlive(a, _) => seq![a],
            Instruction::Yield(a) => seq![a],
            Instruction::YieldAndAccept(a, _, _) => seq![a],
            Instruction::IsNil(a, _) => seq![a],
            Instruction::IsBool(a, _) => seq![a],
            Instruction::IsChar(a, _) => seq![a],
            Instruction::IsNum(a, _) => seq![a],
            Instruction::IsInt(a, _) => seq![a],
            Instruction::IsFloat(a, _) => seq![a],
            Instruction::IsSymbol(a, _) => seq![a],
            Instruction::IsString(a, _) => seq![a],
            Instruction::IsList(a, _) => seq![a],
            Instruction::IsMap(a, _) => seq![a],
            Instruction::IsSet(a, _) => seq![a],
            Instruction::IsCollection(a, _) => seq![a],
            Instruction::IsFn(a, _) => seq![a],
            Instruction::IsError(a, _) => seq![a],
            Instruction::IsCell(a, _) => seq![a],
            Instruction::IsCoroutine(a, _) => seq![a],
            Instruction::ToBool(a, _) => seq![a],
            Instruction::ToChar(a, _) => seq![a],
            Instruction::ToNum(a, _) => seq![a],
            Instruction::ToInt(a, _) => seq![a],
            Instruction::ToFloat(a, _) => seq![a],
            Instruction::ToSymbol(a, _) => seq![a],
            Instruction::ToString(a, _) => seq![a],
            Instruction::ToList(a, _) => seq![a],
            Instruction::ToMap(a, _) => seq![a],
            Instruction::ToSet(a, _) => seq![a],
            Instruction::ToError(a, _) => seq![a],
        }
    }

    /// The register pairs that `usages` reports as replaced.
    pub open spec fn spec_replacements(self) -> Seq<R> {
        match self {
            Instruction::DebugPrint(_) => seq![],
            Instruction::Clear(_) => seq![],
            Instruction::Copy(_, _) => seq![],
            Instruction::Const(_, _) => seq![],
            Instruction::Print(_) => seq![],
            Instruction::Return(_) => seq![],
            Instruction::CopyArgument(_) => seq![],
            Instruction::StealArgument(_) => seq![],
            Instruction::Call(_, _, _) => seq![],
            Instruction::Apply(a, _) => seq![a],
            Instruction::CallSelf(_, _) => seq![],
            Instruction::ApplySelf(a) => seq![a],
            Instruction::CallAndReturn(_, _) => seq![],
            Instruction::ApplyAndReturn(_, _) => seq![],
            Instruction::CallSelfAndReturn(_) => seq![],
            Instruction::ApplySelfAndReturn(_) => seq![],
            Instruction::CallingFunction(_) => seq![],
            Instruction::Jump(_) => seq![],
            Instruction::Lookup(_, _) => seq![],
            Instruction::If(_) => seq![],
            Instruction::Else => seq![],
            Instruction::ElseIf(_) => seq![],
            Instruction::EndIf => seq![],
            Instruction::Partial(_, _, _) => seq![],
            Instruction::Compose(_, _, _) => seq![],
            Instruction::FindSome(_, _, _) => seq![],
            Instruction::ReduceWithoutInitialValue(a, _) => seq![a],
            Instruction::ReduceWithInitialValue(a, _, _) => seq![a],
            Instruction::Memoize(_, _) => seq![],
            Instruction::Constantly(_, _) => seq![],
            Instruction::NumericalEqual(_, _, _) => seq![],
            Instruction::IsZero(_, _) => seq![],
            Instruction::IsNan(_, _) => seq![],
            Instruction::IsInf(_, _) => seq![],
            Instruction::IsEven(_, _) => seq![],
            Instruction::IsOdd(_, _) => seq![],
            Instruction::IsPos(_, _) => seq![],
            Instruction::IsNeg(_, _) => seq![],
            Instruction::Inc(_, _) => seq![],
            Instruction::Dec(_, _) => seq![],
            Instruction::Negate(_, _) => seq![],
            Instruction::Abs(_, _) => seq![],
            Instruction::Floor(_, _) => seq![],
            Instruction::Ceil(_, _) => seq![],
            Instruction::Sqrt(_, _) => seq![],
            Instruction::Exp(_, _) => seq![],
            Instruction::Exp2(_, _) => seq![],
            Instruction::Ln(_, _) => seq![],
            Instruction::Log2(_, _) => seq![],
            Instruction::Add(_, _, _) => seq![],
            Instruction::Subtract(_, _, _) => seq![],
            Instruction::Multiply(_, _, _) => seq![],
            Instruction::Divide(_, _, _) => seq![],
            Instruction::Pow(_, _, _) => seq![],
            Instruction::Mod(_, _, _) => seq![],
            Instruction::Quot(_, _, _) => seq![],
            Instruction::Min(_, _, _) => seq![],
            Instruction::Max(_, _, _) => seq![],
            Instruction::GreaterThan(_, _, _) => seq![],
            Instruction::GreaterThanOrEqual(_, _, _) => seq![],
            Instruction::LessThan(_, _, _) => seq![],
            Instruction::LessThanOrEqual(_, _, _) => seq![],
            Instruction::Rand(_) => seq![],
            Instruction::UpperBoundedRand(_, _) => seq![],
            Instruction::LowerUpperBoundedRand(_, _, _) => seq![],
            Instruction::RandInt(_, _) => seq![],
            Instruction::LowerBoundedRandInt(_, _, _) => seq![],
            Instruction::Equal(_, _, _) => seq![],
            Instruction::NotEqual(_, _, _) => seq![],
            Instruction::Not(_, _) => seq![],
            Instruction::And(_, _, _) => seq![],
            Instruction::Or(_, _, _) => seq![],
            Instruction::Xor(_, _, _) => seq![],
            Instruction::IsEmpty(_, _) => seq![],
            Instruction::First(_, _) => seq![],
            Instruction::Count(_, _) => seq![],
            Instruction::Flatten(_, _) => seq![],
            Instruction::Remove(a, _) => seq![a],
            Instruction::Filter(a, _) => seq![a],
            Instruction::CollectionMap(a, _) => seq![a],
            Instruction::DoubleMap(a, _, _) => seq![a],
            Instruction::MultiCollectionMap(a, _) => seq![a],
            Instruction::CollectionSet(a, _, _) => seq![a],
            Instruction::SetIn(a, _, _) => seq![a],
            Instruction::Get(_, _, _) => seq![],
            Instruction::GetIn(_, _, _) => seq![],
            Instruction::Update(a, _, _) => seq![a],
            Instruction::UpdateIn(a, _, _) => seq![a],
            Instruction::MinKey(_, _, _) => seq![],
            Instruction::MaxKey(_, _, _) => seq![],
            Instruction::Push(a, _) => seq![a],
            Instruction::Sort(a) => seq![a],
            Instruction::SortBy(a, _) => seq![a],
            Instruction::EmptyList(_) => seq![],
            Instruction::Last(_, _) => seq![],
            Instruction::Rest(a) => seq![a],
            Instruction::ButLast(a) => seq![a],
            Instruction::Nth(_, _, _) => seq![],
            Instruction::NthFromLast(_, _, _) => seq![],
            Instruction::Cons(a, _) => seq![a],
            Instruction::Concat(a, _) => seq![a],
            Instruction::Take(a, _) => seq![a],
            Instruction::Drop(a, _) => seq![a],
            Instruction::Reverse(a) => seq![a],
            Instruction::Distinct(a) => seq![a],
            Instruction::Sub(a, _, _) => seq![a],
            Instruction::Partition(_, _, _) => seq![],
            Instruction::SteppedPartition(a, _, _) => seq![a],
            Instruction::Pad(a, _, _) => seq![a],
            Instruction::EmptyMap(_) => seq![],
            Instruction::Keys(_, _) => seq![],
            Instruction::Values(_, _) => seq![],
            Instruction::Zip(_, _, _) => seq![],
            Instruction::Invert(a) => seq![a],
            Instruction::Merge(_, _, _) => seq![],
            Instruction::MergeWith(a, _, _) => seq![a],
            Instruction::MapKeys(a, _) => seq![a],
            Instruction::MapValues(a, _) => seq![a],
            Instruction::SelectKeys(a, _) => seq![a],
            Instruction::EmptySet(_) => seq![],
            Instruction::Union(_, _, _) => seq![],
            Instruction::Intersection(_, _, _) => seq![],
            Instruction::Difference(_, _, _) => seq![],
            Instruction::SymmetricDifference(_, _, _) => seq![],
            Instruction::InfiniteRange(_) => seq![],
            Instruction::UpperBoundedRange(_, _) => seq![],
            Instruction::LowerUpperBoundedRange(_, _, _) => seq![],
            Instruction::InfiniteRepeat(_, _) => seq![],
            Instruction::BoundedRepeat(_, _, _) => seq![],
            Instruction::InfiniteRepeatedly(_, _) => seq![],
            Instruction::BoundedRepeatedly(_, _, _) => seq![],
            Instruction::InfiniteIterate(_, _, _) => seq![],
            Instruction::BoundedIterate(a, _, _) => seq![a],
            Instruction::CreateCell(_) => seq![],
            Instruction::GetCellValue(_, _) => seq![],
            Instruction::SetCellValue(_, _) => seq![],
            Instruction::UpdateCell(_, _) => seq![],
            Instruction::CreateCoroutine(a) => seq![a],
            Instruction::IsCoroutineAlive(_, _) => seq![],
            Instruction::Yield(_) => seq![],
            Instruction::YieldAndAccept(_, _, _) => seq![],
            Instruction::IsNil(_, _) => seq![],
            Instruction::IsBool(_, _) => seq![],
            Instruction::IsChar(_, _) => seq![],
            Instruction::IsNum(_, _) => seq![],
            Instruction::IsInt(_, _) => seq![],
            Instruction::IsFloat(_, _) => seq![],
            Instruction::IsSymbol(_, _) => seq![],
            Instruction::IsString(_, _) => seq![],
            Instruction::IsList(_, _) => seq![],
            Instruction::IsMap(_, _) => seq![],
            Instruction::IsSet(_, _) => seq![],
            Instruction::IsCollection(_, _) => seq![],
            Instruction::IsFn(_, _) => seq![],
            Instruction::IsError(_, _) => seq![],
            Instruction::IsCell(_, _) => seq![],
            Instruction::IsCoroutine(_, _) => seq![],
            Instruction::ToBool(_, _) => seq![],
            Instruction::ToChar(_, _) => seq![],
            Instruction::ToNum(_, _) => seq![],
            Instruction::ToInt(_, _) => seq![],
            Instruction::ToFloat(_, _) => seq![],
            Instruction::ToSymbol(_, _) => seq![],
            Instruction::ToString(_, _) => seq![],
            Instruction::ToList(_, _) => seq![],
            Instruction::ToMap(_, _) => seq![],
            Instruction::ToSet(_, _) => seq![],
            Instruction::ToError(_, _) => seq![],
        }
    }

    /// Every operand of type `I`, in order.
    pub open spec fn input_slots(self) -> Seq<I> {
        match self {
            Instruction::DebugPrint(_) => seq![],
            Instruction::Clear(_) => seq![],
            Instruction::Copy(_, b) => seq![b],
            Instruction::Const(_, _) => seq![],
            Instruction::Print(a) => seq![a],
            Instruction::Return(a) => seq![a],
            Instruction::CopyArgument(a) => seq![a],
            Instruction::StealArgument(a) => seq![a],
            Instruction::Call(_, b, _) => seq![b],
            Instruction::Apply(_, b) => seq![b],
            Instruction::CallSelf(_, _) => seq![],
            Instruction::ApplySelf(_) => seq![],
            Instruction::CallAndReturn(a, _) => seq![a],
            Instruction::ApplyAndReturn(a, b) => seq![a, b],
            Instruction::CallSelfAndReturn(_) => seq![],
            Instruction::ApplySelfAndReturn(a) => seq![a],
            Instruction::CallingFunction(_) => seq![],
            Instruction::Jump(_) => seq![],
            Instruction::Lookup(_, _) => seq![],
            Instruction::If(a) => seq![a],
            Instruction::Else => seq![],
            Instruction::ElseIf(a) => seq![a],
            Instruction::EndIf => seq![],
            Instruction::Partial(_, b, c) => seq![b, c],
            Instruction::Compose(_, b, c) => seq![b, c],
            Instruction::FindSome(_, b, c) => seq![b, c],
            Instruction::ReduceWithoutInitialValue(_, b) => seq![b],
            Instruction::ReduceWithInitialValue(_, b, c) => seq![b, c],
            Instruction::Memoize(_, b) => seq![b],
            Instruction::Constantly(_, b) => seq![b],
            Instruction::NumericalEqual(_, b, c) => seq![b, c],
            Instruction::IsZero(_, b) => seq![b],
            Instruction::IsNan(_, b) => seq![b],
            Instruction::IsInf(_, b) => seq![b],
            Instruction::IsEven(_, b) => seq![b],
            Instruction::IsOdd(_, b) => seq![b],
            Instruction::IsPos(_, b) => seq![b],
            Instruction::IsNeg(_, b) => seq![b],
            Instruction::Inc(_, b) => seq![b],
            Instruction::Dec(_, b) => seq![b],
            Instruction::Negate(_, b) => seq![b],
            Instruction::Abs(_, b) => seq![b],
            Instruction::Floor(_, b) => seq![b],
            Instruction::Ceil(_, b) => seq![b],
            Instruction::Sqrt(_, b) => seq![b],
            Instruction::Exp(_, b) => seq![b],
            Instruction::Exp2(_, b) => seq![b],
            Instruction::Ln(_, b) => seq![b],
            Instruction::Log2(_, b) => seq![b],
            Instruction::Add(_, b, c) => seq![b, c],
            Instruction::Subtract(_, b, c) => seq![b, c],
            Instruction::Multiply(_, b, c) => seq![b, c],
            Instruction::Divide(_, b, c) => seq![b, c],
            Instruction::Pow(_, b, c) => seq![b, c],
            Instruction::Mod(_, b, c) => seq![b, c],
            Instruction::Quot(_, b, c) => seq![b, c],
            Instruction::Min(_, b, c) => seq![b, c],
            Instruction::Max(_, b, c) => seq![b, c],
            Instruction::GreaterThan(_, b, c) => seq![b, c],
            Instruction::GreaterThanOrEqual(_, b, c) => seq![b, c],
            Instruction::LessThan(_, b, c) => seq![b, c],
            Instruction::LessThanOrEqual(_, b, c) => seq![b, c],
            Instruction::Rand(_) => seq![],
            Instruction::UpperBoundedRand(_, b) => seq![b],
            Instruction::LowerUpperBoundedRand(_, b, c) => seq![b, c],
            Instruction::RandInt(_, b) => seq![b],
            Instruction::LowerBoundedRandInt(_, b, c) => seq![b, c],
            Instruction::Equal(_, b, c) => seq![b, c],
            Instruction::NotEqual(_, b, c) => seq![b, c],
            Instruction::Not(_, b) => seq![b],
            Instruction::And(_, b, c) => seq![b, c],
            Instruction::Or(_, b, c) => seq![b, c],
            Instruction::Xor(_, b, c) => seq![b, c],
            Instruction::IsEmpty(_, b) => seq![b],
            Instruction::First(_, b) => seq![b],
            Instruction::Count(_, b) => seq![b],
            Instruction::Flatten(_, b) => seq![b],
            Instruction::Remove(_, b) => seq![b],
            Instruction::Filter(_, b) => seq![b],
            Instruction::CollectionMap(_, b) => seq![b],
            Instruction::DoubleMap(_, b, c) => seq![b, c],
            Instruction::MultiCollectionMap(_, b) => seq![b],
            Instruction::CollectionSet(_, b, c) => seq![b, c],
            Instruction::SetIn(_, b, c) => seq![b, c],
            Instruction::Get(_, b, c) => seq![b, c],
            Instruction::GetIn(_, b, c) => seq![b, c],
            Instruction::Update(_, b, c) => seq![b, c],
            Instruction::UpdateIn(_, b, c) => seq![b, c],
            Instruction::MinKey(_, b, c) => seq![b, c],
            Instruction::MaxKey(_, b, c) => seq![b, c],
            Instruction::Push(_, b) => seq![b],
            Instruction::Sort(_) => seq![],
            Instruction::SortBy(_, b) => seq![b],
            Instruction::EmptyList(_) => seq![],
            Instruction::Last(_, b) => seq![b],
            Instruction::Rest(_) => seq![],
            Instruction::ButLast(_) => seq![],
            Instruction::Nth(_, b, c) => seq![b, c],
            Instruction::NthFromLast(_, b, c) => seq![b, c],
            Instruction::Cons(_, b) => seq![b],
            Instruction::Concat(_, b) => seq![b],
            Instruction::Take(_, b) => seq![b],
            Instruction::Drop(_, b) => seq![b],
            Instruction::Reverse(_) => seq![],
            Instruction::Distinct(_) => seq![],
            Instruction::Sub(_, b, c) => seq![b, c],
            Instruction::Partition(_, b, c) => seq![b, c],
            Instruction::SteppedPartition(_, b, c) => seq![b, c],
            Instruction::Pad(_, b, c) => seq![b, c],
            Instruction::EmptyMap(_) => seq![],
            Instruction::Keys(_, b) => seq![b],
            Instruction::Values(_, b) => seq![b],
            Instruction::Zip(_, b, c) => seq![b, c],
            Instruction::Invert(_) => seq![],
            Instruction::Merge(_, b, c) => seq![b, c],
            Instruction::MergeWith(_, b, c) => seq![b, c],
            Instruction::MapKeys(_, b) => seq![b],
            Instruction::MapValues(_, b) => seq![b],
            Instruction::SelectKeys(_, b) => seq![b],
            Instruction::EmptySet(_) => seq![],
            Instruction::Union(_, b, c) => seq![b, c],
            Instruction::Intersection(_, b, c) => seq![b, c],
            Instruction::Difference(_, b, c) => seq![b, c],
            Instruction::SymmetricDifference(_, b, c) => seq![b, c],
            Instruction::InfiniteRange(_) => seq![],
            Instruction::UpperBoundedRange(_, b) => seq![b],
            Instruction::LowerUpperBoundedRange(_, b, c) => seq![b, c],
            Instruction::InfiniteRepeat(_, b) => seq![b],
            Instruction::BoundedRepeat(_, b, c) => seq![b, c],
            Instruction::InfiniteRepeatedly(_, b) => seq![b],
            Instruction::BoundedRepeatedly(_, b, c) => seq![b, c],
            Instruction::InfiniteIterate(_, b, c) => seq![b, c],
            Instruction::BoundedIterate(_, b, c) => seq![b, c],
            Instruction::CreateCell(_) => seq![],
            Instruction::GetCellValue(_, b) => seq![b],
            Instruction::SetCellValue(_, b) => seq![b],
            Instruction::UpdateCell(_, b) => seq![b],
            Instruction::CreateCoroutine(_) => seq![],
            Instruction::IsCoroutineAlive(_, b) => seq![b],
            Instruction::Yield(_) => seq![],
            Instruction::YieldAndAccept(_, _, c) => seq![c],
            Instruction::IsNil(_, b) => seq![b],
            Instruction::IsBool(_, b) => seq![b],
            Instruction::IsChar(_, b) => seq![b],
            Instruction::IsNum(_, b) => seq![b],
            Instruction::IsInt(_, b) => seq![b],
            Instruction::IsFloat(_, b) => seq![b],
            Instruction::IsSymbol(_, b) => seq![b],
            Instruction::IsString(_, b) => seq![b],
            Instruction::IsList(_, b) => seq![b],
            Instruction::IsMap(_, b) => seq![b],
            Instruction::IsSet(_, b) => seq![b],
            Instruction::IsCollection(_, b) => seq![b],
            Instruction::IsFn(_, b) => seq![b],
            Instruction::IsError(_, b) => seq![b],
            Instruction::IsCell(_, b) => seq![b],
            Instruction::IsCoroutine(_, b) => seq![b],
            Instruction::ToBool(_, b) => seq![b],
            Instruction::ToChar(_, b) => seq![b],
            Instruction::ToNum(_, b) => seq![b],
            Instruction::ToInt(_, b) => seq![b],
            Instruction::ToFloat(_, b) => seq![b],
            Instruction::ToSymbol(_, b) => seq![b],
            Instruction::ToString(_, b) => seq![b],
            Instruction::ToList(_, b) => seq![b],
            Instruction::ToMap(_, b) => seq![b],
            Instruction::ToSet(_, b) => seq![b],
            Instruction::ToError(_, b) => seq![b],
        }
    }

    /// Every operand of type `O`, in order.
    pub open spec fn output_slots(self) -> Seq<O> {
        match self {
            Instruction::DebugPrint(_) => seq![],
            Instruction::Clear(a) => seq![a],
            Instruction::Copy(a, _) => seq![a],
            Instruction::Const(a, _) => seq![a],
            Instruction::Print(_) => seq![],
            Instruction::Return(_) => seq![],
            Instruction::CopyArgument(_) => seq![],
            Instruction::StealArgument(_) => seq![],
            Instruction::Call(a, _, _) => seq![a],
            Instruction::Apply(_, _) => seq![],
            Instruction::CallSelf(a, _) => seq![a],
            Instruction::ApplySelf(_) => seq![],
            Instruction::CallAndReturn(_, _) => seq![],
            Instruction::ApplyAndReturn(_, _) => seq![],
            Instruction::CallSelfAndReturn(_) => seq![],
            Instruction::ApplySelfAndReturn(_) => seq![],
            Instruction::CallingFunction(a) => seq![a],
            Instruction::Jump(_) => seq![],
            Instruction::Lookup(a, _) => seq![a],
            Instruction::If(_) => seq![],
            Instruction::Else => seq![],
            Instruction::ElseIf(_) => seq![],
            Instruction::EndIf => seq![],
            Instruction::Partial(a, _, _) => seq![a],
            Instruction::Compose(a, _, _) => seq![a],
            Instruction::FindSome(a, _, _) => seq![a],
            Instruction::ReduceWithoutInitialValue(_, _) => seq![],
            Instruction::ReduceWithInitialValue(_, _, _) => seq![],
            Instruction::Memoize(a, _) => seq![a],
            Instruction::Constantly(a, _) => seq![a],
            Instruction::NumericalEqual(a, _, _) => seq![a],
            Instruction::IsZero(a, _) => seq![a],
            Instruction::IsNan(a, _) => seq![a],
            Instruction::IsInf(a, _) => seq![a],
            Instruction::IsEven(a, _) => seq![a],
            Instruction::IsOdd(a, _) => seq![a],
            Instruction::IsPos(a, _) => seq![a],
            Instruction::IsNeg(a, _) => seq![a],
            Instruction::Inc(a, _) => seq![a],
            Instruction::Dec(a, _) => seq![a],
            Instruction::Negate(a, _) => seq![a],
            Instruction::Abs(a, _) => seq![a],
            Instruction::Floor(a, _) => seq![a],
            Instruction::Ceil(a, _) => seq![a],
            Instruction::Sqrt(a, _) => seq![a],
            Instruction::Exp(a, _) => seq![a],
            Instruction::Exp2(a, _) => seq![a],
            Instruction::Ln(a, _) => seq![a],
            Instruction::Log2(a, _) => seq![a],
            Instruction::Add(a, _, _) => seq![a],
            Instruction::Subtract(a, _, _) => seq![a],
            Instruction::Multiply(a, _, _) => seq![a],
            Instruction::Divide(a, _, _) => seq![a],
            Instruction::Pow(a, _, _) => seq![a],
            Instruction::Mod(a, _, _) => seq![a],
            Instruction::Quot(a, _, _) => seq![a],
            Instruction::Min(a, _, _) => seq![a],
            Instruction::Max(a, _, _) => seq![a],
            Instruction::GreaterThan(a, _, _) => seq![a],
            Instruction::GreaterThanOrEqual(a, _, _) => seq![a],
            Instruction::LessThan(a, _, _) => seq![a],
            Instruction::LessThanOrEqual(a, _, _) => seq![a],
            Instruction::Rand(a) => seq![a],
            Instruction::UpperBoundedRand(a, _) => seq![a],
            Instruction::LowerUpperBoundedRand(a, _, _) => seq![a],
            Instruction::RandInt(a, _) => seq![a],
            Instruction::LowerBoundedRandInt(a, _, _) => seq![a],
            Instruction::Equal(a, _, _) => seq![a],
            Instruction::NotEqual(a, _, _) => seq![a],
            Instruction::Not(a, _) => seq![a],
            Instruction::And(a, _, _) => seq![a],
            Instruction::Or(a, _, _) => seq![a],
            Instruction::Xor(a, _, _) => seq![a],
            Instruction::IsEmpty(a, _) => seq![a],
            Instruction::First(a, _) => seq![a],
            Instruction::Count(a, _) => seq![a],
            Instruction::Flatten(a, _) => seq![a],
            Instruction::Remove(_, _) => seq![],
            Instruction::Filter(_, _) => seq![],
            Instruction::CollectionMap(_, _) => seq![],
            Instruction::DoubleMap(_, _, _) => seq![],
            Instruction::MultiCollectionMap(_, _) => seq![],
            Instruction::CollectionSet(_, _, _) => seq![],
            Instruction::SetIn(_, _, _) => seq![],
            Instruction::Get(a, _, _) => seq![a],
            Instruction::GetIn(a, _, _) => seq![a],
            Instruction::Update(_, _, _) => seq![],
            Instruction::UpdateIn(_, _, _) => seq![],
            Instruction::MinKey(a, _, _) => seq![a],
            Instruction::MaxKey(a, _, _) => seq![a],
            Instruction::Push(_, _) => seq![],
            Instruction::Sort(_) => seq![],
            Instruction::SortBy(_, _) => seq![],
            Instruction::EmptyList(a) => seq![a],
            Instruction::Last(a, _) => seq![a],
            Instruction::Rest(_) => seq![],
            Instruction::ButLast(_) => seq![],
            Instruction::Nth(a, _, _) => seq![a],
            Instruction::NthFromLast(a, _, _) => seq![a],
            Instruction::Cons(_, _) => seq![],
            Instruction::Concat(_, _) => seq![],
            Instruction::Take(_, _) => seq![],
            Instruction::Drop(_, _) => seq![],
            Instruction::Reverse(_) => seq![],
            Instruction::Distinct(_) => seq![],
            Instruction::Sub(_, _, _) => seq![],
            Instruction::Partition(a, _, _) => seq![a],
            Instruction::SteppedPartition(_, _, _) => seq![],
            Instruction::Pad(_, _, _) => seq![],
            Instruction::EmptyMap(a) => seq![a],
            Instruction::Keys(a, _) => seq![a],
            Instruction::Values(a, _) => seq![a],
            Instruction::Zip(a, _, _) => seq![a],
            Instruction::Invert(_) => seq![],
            Instruction::Merge(a, _, _) => seq![a],
            Instruction::MergeWith(_, _, _) => seq![],
            Instruction::MapKeys(_, _) => seq![],
            Instruction::MapValues(_, _) => seq![],
            Instruction::SelectKeys(_, _) => seq![],
            Instruction::EmptySet(a) => seq![a],
            Instruction::Union(a, _, _) => seq![a],
            Instruction::Intersection(a, _, _) => seq![a],
            Instruction::Difference(a, _, _) => seq![a],
            Instruction::SymmetricDifference(a, _, _) => seq![a],
            Instruction::InfiniteRange(a) => seq![a],
            Instruction::UpperBoundedRange(a, _) => seq![a],
            Instruction::LowerUpperBoundedRange(a, _, _) => seq![a],
            Instruction::InfiniteRepeat(a, _) => seq![a],
            Instruction::BoundedRepeat(a, _, _) => seq![a],
            Instruction::InfiniteRepeatedly(a, _) => seq![a],
            Instruction::BoundedRepeatedly(a, _, _) => seq![a],
            Instruction::InfiniteIterate(a, _, _) => seq![a],
            Instruction::BoundedIterate(_, _, _) => seq![],
            Instruction::CreateCell(a) => seq![a],
            Instruction::GetCellValue(a, _) => seq![a],
            Instruction::SetCellValue(a, _) => seq![a],
            Instruction::UpdateCell(a, _) => seq![a],
            Instruction::CreateCoroutine(_) => seq![],
            Instruction::IsCoroutineAlive(a, _) => seq![a],
            Instruction::Yield(a) => seq![a],
            Instruction::YieldAndAccept(a, _, _) => seq![a],
            Instruction::IsNil(a, _) => seq![a],
            Instruction::IsBool(a, _) => seq![a],
            Instruction::IsChar(a, _) => seq![a],
            Instruction::IsNum(a, _) => seq![a],
            Instruction::IsInt(a, _) => seq![a],
            Instruction::IsFloat(a, _) => seq![a],
            Instruction::IsSymbol(a, _) => seq![a],
            Instruction::IsString(a, _) => seq![a],
            Instruction::IsList(a, _) => seq![a],
            Instruction::IsMap(a, _) => seq![a],
            Instruction::IsSet(a, _) => seq![a],
            Instruction::IsCollection(a, _) => seq![a],
            Instruction::IsFn(a, _) => seq![a],
            Instruction::IsError(a, _) => seq![a],
            Instruction::IsCell(a, _) => seq![a],
            Instruction::IsCoroutine(a, _) => seq![a],
            Instruction::ToBool(a, _) => seq![a],
            Instruction::ToChar(a, _) => seq![a],
            Instruction::ToNum(a, _) => seq![a],
            Instruction::ToInt(a, _) => seq![a],
            Instruction::ToFloat(a, _) => seq![a],
            Instruction::ToSymbol(a, _) => seq![a],
            Instruction::ToString(a, _) => seq![a],
            Instruction::ToList(a, _) => seq![a],
            Instruction::ToMap(a, _) => seq![a],
            Instruction::ToSet(a, _) => seq![a],
            Instruction::ToError(a, _) => seq![a],
        }
    }

    /// Every operand of type `R`, in order.
    pub open spec fn replacement_slots(self) -> Seq<R> {
        match self {
            Instruction::DebugPrint(_) => seq![],
            Instruction::Clear(_) => seq![],
            Instruction::Copy(_, _) => seq![],
            Instruction::Const(_, _) => seq![],
            Instruction::Print(_) => seq![],
            Instruction::Return(_) => seq![],
            Instruction::CopyArgument(_) => seq![],
            Instruction::StealArgument(_) => seq![],
            Instruction::Call(_, _, _) => seq![],
            Instruction::Apply(a, _) => seq![a],
            Instruction::CallSelf(_, _) => seq![],
            Instruction::ApplySelf(a) => seq![a],
            Instruction::CallAndReturn(_, _) => seq![],
            Instruction::ApplyAndReturn(_, _) => seq![],
            Instruction::CallSelfAndReturn(_) => seq![],
            Instruction::ApplySelfAndReturn(_) => seq![],
            Instruction::CallingFunction(_) => seq![],
            Instruction::Jump(_) => seq![],
            Instruction::Lookup(_, _) => seq![],
            Instruction::If(_) => seq![],
            Instruction::Else => seq![],
            Instruction::ElseIf(_) => seq![],
            Instruction::EndIf => seq![],
            Instruction::Partial(_, _, _) => seq![],
            Instruction::Compose(_, _, _) => seq![],
            Instruction::FindSome(_, _, _) => seq![],
            Instruction::ReduceWithoutInitialValue(a, _) => seq![a],
            Instruction::ReduceWithInitialValue(a, _, _) => seq![a],
            Instruction::Memoize(_, _) => seq![],
            Instruction::Constantly(_, _) => seq![],
            Instruction::NumericalEqual(_, _, _) => seq![],
            Instruction::IsZero(_, _) => seq![],
            Instruction::IsNan(_, _) => seq![],
            Instruction::IsInf(_, _) => seq![],
            Instruction::IsEven(_, _) => seq![],
            Instruction::IsOdd(_, _) => seq![],
            Instruction::IsPos(_, _) => seq![],
            Instruction::IsNeg(_, _) => seq![],
            Instruction::Inc(_, _) => seq![],
            Instruction::Dec(_, _) => seq![],
            Instruction::Negate(_, _) => seq![],
            Instruction::Abs(_, _) => seq![],
            Instruction::Floor(_, _) => seq![],
            Instruction::Ceil(_, _) => seq![],
            Instruction::Sqrt(_, _) => seq![],
            Instruction::Exp(_, _) => seq![],
            Instruction::Exp2(_, _) => seq![],
            Instruction::Ln(_, _) => seq![],
            Instruction::Log2(_, _) => seq![],
            Instruction::Add(_, _, _) => seq![],
            Instruction::Subtract(_, _, _) => seq![],
            Instruction::Multiply(_, _, _) => seq![],
            Instruction::Divide(_, _, _) => seq![],
            Instruction::Pow(_, _, _) => seq![],
            Instruction::Mod(_, _, _) => seq![],
            Instruction::Quot(_, _, _) => seq![],
            Instruction::Min(_, _, _) => seq![],
            Instruction::Max(_, _, _) => seq![],
            Instruction::GreaterThan(_, _, _) => seq![],
            Instruction::GreaterThanOrEqual(_, _, _) => seq![],
            Instruction::LessThan(_, _, _) => seq![],
            Instruction::LessThanOrEqual(_, _, _) => seq![],
            Instruction::Rand(_) => seq![],
            Instruction::UpperBoundedRand(_, _) => seq![],
            Instruction::LowerUpperBoundedRand(_, _, _) => seq![],
            Instruction::RandInt(_, _) => seq![],
            Instruction::LowerBoundedRandInt(_, _, _) => seq![],
            Instruction::Equal(_, _, _) => seq![],
            Instruction::NotEqual(_, _, _) => seq![],
            Instruction::Not(_, _) => seq![],
            Instruction::And(_, _, _) => seq![],
            Instruction::Or(_, _, _) => seq![],
            Instruction::Xor(_, _, _) => seq![],
            Instruction::IsEmpty(_, _) => seq![],
            Instruction::First(_, _) => seq![],
            Instruction::Count(_, _) => seq![],
            Instruction::Flatten(_, _) => seq![],
            Instruction::Remove(a, _) => seq![a],
            Instruction::Filter(a, _) => seq![a],
            Instruction::CollectionMap(a, _) => seq![a],
            Instruction::DoubleMap(a, _, _) => seq![a],
            Instruction::MultiCollectionMap(a, _) => seq![a],
            Instruction::CollectionSet(a, _, _) => seq![a],
            Instruction::SetIn(a, _, _) => seq![a],
            Instruction::Get(_, _, _) => seq![],
            Instruction::GetIn(_, _, _) => seq![],
            Instruction::Update(a, _, _) => seq![a],
            Instruction::UpdateIn(a, _, _) => seq![a],
            Instruction::MinKey(_, _, _) => seq![],
            Instruction::MaxKey(_, _, _) => seq![],
            Instruction::Push(a, _) => seq![a],
            Instruction::Sort(a) => seq![a],
            Instruction::SortBy(a, _) => seq![a],
            Instruction::EmptyList(_) => seq![],
            Instruction::Last(_, _) => seq![],
            Instruction::Rest(a) => seq![a],
            Instruction::ButLast(a) => seq![a],
            Instruction::Nth(_, _, _) => seq![],
            Instruction::NthFromLast(_, _, _) => seq![],
            Instruction::Cons(a, _) => seq![a],
            Instruction::Concat(a, _) => seq![a],
            Instruction::Take(a, _) => seq![a],
            Instruction::Drop(a, _) => seq![a],
            Instruction::Reverse(a) => seq![a],
            Instruction::Distinct(a) => seq![a],
            Instruction::Sub(a, _, _) => seq![a],
            Instruction::Partition(_, _, _) => seq![],
            Instruction::SteppedPartition(a, _, _) => seq![a],
            Instruction::Pad(a, _, _) => seq![a],
            Instruction::EmptyMap(_) => seq![],
            Instruction::Keys(_, _) => seq![],
            Instruction::Values(_, _) => seq![],
            Instruction::Zip(_, _, _) => seq![],
            Instruction::Invert(a) => seq![a],
            Instruction::Merge(_, _, _) => seq![],
            Instruction::MergeWith(a, _, _) => seq![a],
            Instruction::MapKeys(a, _) => seq![a],
            Instruction::MapValues(a, _) => seq![a],
            Instruction::SelectKeys(a, _) => seq![a],
            Instruction::EmptySet(_) => seq![],
            Instruction::Union(_, _, _) => seq![],
            Instruction::Intersection(_, _, _) => seq![],
            Instruction::Difference(_, _, _) => seq![],
            Instruction::SymmetricDifference(_, _, _) => seq![],
            Instruction::InfiniteRange(_) => seq![],
            Instruction::UpperBoundedRange(_, _) => seq![],
            Instruction::LowerUpperBoundedRange(_, _, _) => seq![],
            Instruction::InfiniteRepeat(_, _) => seq![],
            Instruction::BoundedRepeat(_, _, _) => seq![],
            Instruction::InfiniteRepeatedly(_, _) => seq![],
            Instruction::BoundedRepeatedly(_, _, _) => seq![],
            Instruction::InfiniteIterate(_, _, _) => seq![],
            Instruction::BoundedIterate(a, _, _) => seq![a],
            Instruction::CreateCell(_) => seq![],
            Instruction::GetCellValue(_, _) => seq![],
            Instruction::SetCellValue(_, _) => seq![],
            Instruction::UpdateCell(_, _) => seq![],
            Instruction::CreateCoroutine(a) => seq![a],
            Instruction::IsCoroutineAlive(_, _) => seq![],
            Instruction::Yield(_) => seq![],
            Instruction::YieldAndAccept(_, _, _) => seq![],
            Instruction::IsNil(_, _) => seq![],
            Instruction::IsBool(_, _) => seq![],
            Instruction::IsChar(_, _) => seq![],
            Instruction::IsNum(_, _) => seq![],
            Instruction::IsInt(_, _) => seq![],
            Instruction::IsFloat(_, _) => seq![],
            Instruction::IsSymbol(_, _) => seq![],
            Instruction::IsString(_, _) => seq![],
            Instruction::IsList(_, _) => seq![],
            Instruction::IsMap(_, _) => seq![],
            Instruction::IsSet(_, _) => seq![],
            Instruction::IsCollection(_, _) => seq![],
            Instruction::IsFn(_, _) => seq![],
            Instruction::IsError(_, _) => seq![],
            Instruction::IsCell(_, _) => seq![],
            Instruction::IsCoroutine(_, _) => seq![],
            Instruction::ToBool(_, _) => seq![],
            Instruction::ToChar(_, _) => seq![],
            Instruction::ToNum(_, _) => seq![],
            Instruction::ToInt(_, _) => seq![],
            Instruction::ToFloat(_, _) => seq![],
            Instruction::ToSymbol(_, _) => seq![],
            Instruction::ToString(_, _) => seq![],
            Instruction::ToList(_, _) => seq![],
            Instruction::ToMap(_, _) => seq![],
            Instruction::ToSet(_, _) => seq![],
            Instruction::ToError(_, _) => seq![],
        }
    }

    /// Whether `usages` is defined for this instruction (it is not for `YieldAndAccept`).
    pub open spec fn has_usages(self) -> bool {
        !(self is YieldAndAccept)
    }

    /// `new` has the same opcode and the same non-register operands as `self`, and each
    /// register operand of `new` is related to the corresponding operand of `self` by
    /// `fi`, `fo` or `fr`, according to its kind.
    pub open spec fn translated_into<NI, NO, NR>(
        self,
        new: Instruction<NI, NO, NR>,
        fi: spec_fn(I, NI) -> bool,
        fo: spec_fn(O, NO) -> bool,
        fr: spec_fn(R, NR) -> bool,
    ) -> bool {
        match (self, new) {
            (Instruction::DebugPrint(a), Instruction::DebugPrint(na)) => a == na,
            (Instruction::Clear(a), Instruction::Clear(na)) => fo(a, na),
            (Instruction::Copy(a, b), Instruction::Copy(na, nb)) => fo(a, na) && fi(b, nb),
            (Instruction::Const(a, b), Instruction::Const(na, nb)) => fo(a, na) && b == nb,
            (Instruction::Print(a), Instruction::Print(na)) => fi(a, na),
            (Instruction::Return(a), Instruction::Return(na)) => fi(a, na),
            (Instruction::CopyArgument(a), Instruction::CopyArgument(na)) => fi(a, na),
            (Instruction::StealArgument(a), Instruction::StealArgument(na)) => fi(a, na),
            (Instruction::Call(a, b, c), Instruction::Call(na, nb, nc)) => fo(a, na) && fi(b, nb) && c == nc,
            (Instruction::Apply(a, b), Instruction::Apply(na, nb)) => fr(a, na) && fi(b, nb),
            (Instruction::CallSelf(a, b), Instruction::CallSelf(na, nb)) => fo(a, na) && b == nb,
            (Instruction::ApplySelf(a), Instruction::ApplySelf(na)) => fr(a, na),
            (Instruction::CallAndReturn(a, b), Instruction::CallAndReturn(na, nb)) => fi(a, na) && b == nb,
            (Instruction::ApplyAndReturn(a, b), Instruction::ApplyAndReturn(na, nb)) => fi(a, na) && fi(b, nb),
            (Instruction::CallSelfAndReturn(a), Instruction::CallSelfAndReturn(na)) => a == na,
            (Instruction::ApplySelfAndReturn(a), Instruction::ApplySelfAndReturn(na)) => fi(a, na),
            (Instruction::CallingFunction(a), Instruction::CallingFunction(na)) => fo(a, na),
            (Instruction::Jump(a), Instruction::Jump(na)) => a == na,
            (Instruction::Lookup(a, b), Instruction::Lookup(na, nb)) => fo(a, na) && b == nb,
            (Instruction::If(a), Instruction::If(na)) => fi(a, na),
            (Instruction::Else, Instruction::Else) => true,
            (Instruction::ElseIf(a), Instruction::ElseIf(na)) => fi(a, na),
            (Instruction::EndIf, Instruction::EndIf) => true,
            (Instruction::Partial(a, b, c), Instruction::Partial(na, nb, nc)) => fo(a, na) && fi(b, nb) && fi(c, nc),
            (Instruction::Compose(a, b, c), Instruction::Compose(na, nb, nc)) => fo(a, na) && fi(b, nb) && fi(c, nc),
            (Instruction::FindSome(a, b, c), Instruction::FindSome(na, nb, nc)) => fo(a, na) && fi(b, nb) && fi(c, nc),
            (Instruction::ReduceWithoutInitialValue(a, b), Instruction::ReduceWithoutInitialValue(na, nb)) => fr(a, na) && fi(b, nb),
            (Instruction::ReduceWithInitialValue(a, b, c), Instruction::ReduceWithInitialValue(na, nb, nc)) => fr(a, na) && fi(b, nb) && fi(c, nc),
            (Instruction::Memoize(a, b), Instruction::Memoize(na, nb)) => fo(a, na) && fi(b, nb),
            (Instruction::Constantly(a, b), Instruction::Constantly(na, nb)) => fo(a, na) && fi(b, nb),
            (Instruction::NumericalEqual(a, b, c), Instruction::NumericalEqual(na, nb, nc)) => fo(a, na) && fi(b, nb) && fi(c, nc),
            (Instruction::IsZero(a, b), Instruction::IsZero(na, nb)) => fo(a, na) && fi(b, nb),
            (Instruction::IsNan(a, b), Instruction::IsNan(na, nb)) => fo(a, na) && fi(b, nb),
            (Instruction::IsInf(a, b), Instruction::IsInf(na, nb)) => fo(a, na) && fi(b, nb),
            (Instruction::IsEven(a, b), Instruction::IsEven(na, nb)) => fo(a, na) && fi(b, nb),
            (Instruction::IsOdd(a, b), Instruction::IsOdd(na, nb)) => fo(a, na) && fi(b, nb),
            (Instruction::IsPos(a, b), Instruction::IsPos(na, nb)) => fo(a, na) && fi(b, nb),
            (Instruction::IsNeg(a, b), Instruction::IsNeg(na, nb)) => fo(a, na) && fi(b, nb),
            (Instruction::Inc(a, b), Instruction::Inc(na, nb)) => fo(a, na) && fi(b, nb),
            (Instruction::Dec(a, b), Instruction::Dec(na, nb)) => fo(a, na) && fi(b, nb),
            (Instruction::Negate(a, b), Instruction::Negate(na, nb)) => fo(a, na) && fi(b, nb),
            (Instruction::Abs(a, b), Instruction::Abs(na, nb)) => fo(a, na) && fi(b, nb),
            (Instruction::Floor(a, b), Instruction::Floor(na, nb)) => fo(a, na) && fi(b, nb),
            (Instruction::Ceil(a, b), Instruction::Ceil(na, nb)) => fo(a, na) && fi(b, nb),
            (Instruction::Sqrt(a, b), Instruction::Sqrt(na, nb)) => fo(a, na) && fi(b, nb),
            (Instruction::Exp(a, b), Instruction::Exp(na, nb)) => fo(a, na) && fi(b, nb),
            (Instruction::Exp2(a, b), Instruction::Exp2(na, nb)) => fo(a, na) && fi(b, nb),
            (Instruction::Ln(a, b), Instruction::Ln(na, nb)) => fo(a, na) && fi(b, nb),
            (Instruction::Log2(a, b), Instruction::Log2(na, nb)) => fo(a, na) && fi(b, nb),
            (Instruction::Add(a, b, c), Instruction::Add(na, nb, nc)) => fo(a, na) && fi(b, nb) && fi(c, nc),
            (Instruction::Subtract(a, b, c), Instruction::Subtract(na, nb, nc)) => fo(a, na) && fi(b, nb) && fi(c, nc),
            (Instruction::Multiply(a, b, c), Instruction::Multiply(na, nb, nc)) => fo(a, na) && fi(b, nb) && fi(c, nc),
            (Instruction::Divide(a, b, c), Instruction::Divide(na, nb, nc)) => fo(a, na) && fi(b, nb) && fi(c, nc),
            (Instruction::Pow(a, b, c), Instruction::Pow(na, nb, nc)) => fo(a, na) && fi(b, nb) && fi(c, nc),
            (Instruction::Mod(a, b, c), Instruction::Mod(na, nb, nc)) => fo(a, na) && fi(b, nb) && fi(c, nc),
            (Instruction::Quot(a, b, c), Instruction::Quot(na, nb, nc)) => fo(a, na) && fi(b, nb) && fi(c, nc),
            (Instruction::Min(a, b, c), Instruction::Min(na, nb, nc)) => fo(a, na) && fi(b, nb) && fi(c, nc),
            (Instruction::Max(a, b, c), Instruction::Max(na, nb, nc)) => fo(a, na) && fi(b, nb) && fi(c, nc),
            (Instruction::GreaterThan(a, b, c), Instruction::GreaterThan(na, nb, nc)) => fo(a, na) && fi(b, nb) && fi(c, nc),
            (Instruction::GreaterThanOrEqual(a, b, c), Instruction::GreaterThanOrEqual(na, nb, nc)) => fo(a, na) && fi(b, nb) && fi(c, nc),
            (Instruction::LessThan(a, b, c), Instruction::LessThan(na, nb, nc)) => fo(a, na) && fi(b, nb) && fi(c, nc),
            (Instruction::LessThanOrEqual(a, b, c), Instruction::LessThanOrEqual(na, nb, nc)) => fo(a, na) && fi(b, nb) && fi(c, nc),
            (Instruction::Rand(a), Instruction::Rand(na)) => fo(a, na),
            (Instruction::UpperBoundedRand(a, b), Instruction::UpperBoundedRand(na, nb)) => fo(a, na) && fi(b, nb),
            (Instruction::LowerUpperBoundedRand(a, b, c), Instruction::LowerUpperBoundedRand(na, nb, nc)) => fo(a, na) && fi(b, nb) && fi(c, nc),
            (Instruction::RandInt(a, b), Instruction::RandInt(na, nb)) => fo(a, na) && fi(b, nb),
            (Instruction::LowerBoundedRandInt(a, b, c), Instruction::LowerBoundedRandInt(na, nb, nc)) => fo(a, na) && fi(b, nb) && fi(c, nc),
            (Instruction::Equal(a, b, c), Instruction::Equal(na, nb, nc)) => fo(a, na) && fi(b, nb) && fi(c, nc),
            (Instruction::NotEqual(a, b, c), Instruction::NotEqual(na, nb, nc)) => fo(a, na) && fi(b, nb) && fi(c, nc),
            (Instruction::Not(a, b), Instruction::Not(na, nb)) => fo(a, na) && fi(b, nb),
            (Instruction::And(a, b, c), Instruction::And(na, nb, nc)) => fo(a, na) && fi(b, nb) && fi(c, nc),
            (Instruction::Or(a, b, c), Instruction::Or(na, nb, nc)) => fo(a, na) && fi(b, nb) && fi(c, nc),
            (Instruction::Xor(a, b, c), Instruction::Xor(na, nb, nc)) => fo(a, na) && fi(b, nb) && fi(c, nc),
            (Instruction::IsEmpty(a, b), Instruction::IsEmpty(na, nb)) => fo(a, na) && fi(b, nb),
            (Instruction::First(a, b), Instruction::First(na, nb)) => fo(a, na) && fi(b, nb),
            (Instruction::Count(a, b), Instruction::Count(na, nb)) => fo(a, na) && fi(b, nb),
            (Instruction::Flatten(a, b), Instruction::Flatten(na, nb)) => fo(a, na) && fi(b, nb),
            (Instruction::Remove(a, b), Instruction::Remove(na, nb)) => fr(a, na) && fi(b, nb),
            (Instruction::Filter(a, b), Instruction::Filter(na, nb)) => fr(a, na) && fi(b, nb),
            (Instruction::CollectionMap(a, b), Instruction::CollectionMap(na, nb)) => fr(a, na) && fi(b, nb),
            (Instruction::DoubleMap(a, b, c), Instruction::DoubleMap(na, nb, nc)) => fr(a, na) && fi(b, nb) && fi(c, nc),
            (Instruction::MultiCollectionMap(a, b), Instruction::MultiCollectionMap(na, nb)) => fr(a, na) && fi(b, nb),
            (Instruction::CollectionSet(a, b, c), Instruction::CollectionSet(na, nb, nc)) => fr(a, na) && fi(b, nb) && fi(c, nc),
            (Instruction::SetIn(a, b, c), Instruction::SetIn(na, nb, nc)) => fr(a, na) && fi(b, nb) && fi(c, nc),
            (Instruction::Get(a, b, c), Instruction::Get(na, nb, nc)) => fo(a, na) && fi(b, nb) && fi(c, nc),
            (Instruction::GetIn(a, b, c), Instruction::GetIn(na, nb, nc)) => fo(a, na) && fi(b, nb) && fi(c, nc),
            (Instruction::Update(a, b, c), Instruction::Update(na, nb, nc)) => fr(a, na) && fi(b, nb) && fi(c, nc),
            (Instruction::UpdateIn(a, b, c), Instruction::UpdateIn(na, nb, nc)) => fr(a, na) && fi(b, nb) && fi(c, nc),
            (Instruction::MinKey(a, b, c), Instruction::MinKey(na, nb, nc)) => fo(a, na) && fi(b, nb) && fi(c, nc),
            (Instruction::MaxKey(a, b, c), Instruction::MaxKey(na, nb, nc)) => fo(a, na) && fi(b, nb) && fi(c, nc),
            (Instruction::Push(a, b), Instruction::Push(na, nb)) => fr(a, na) && fi(b, nb),
            (Instruction::Sort(a), Instruction::Sort(na)) => fr(a, na),
            (Instruction::SortBy(a, b), Instruction::SortBy(na, nb)) => fr(a, na) && fi(b, nb),
            (Instruction::EmptyList(a), Instruction::EmptyList(na)) => fo(a, na),
            (Instruction::Last(a, b), Instruction::Last(na, nb)) => fo(a, na) && fi(b, nb),
            (Instruction::Rest(a), Instruction::Rest(na)) => fr(a, na),
            (Instruction::ButLast(a), Instruction::ButLast(na)) => fr(a, na),
            (Instruction::Nth(a, b, c), Instruction::Nth(na, nb, nc)) => fo(a, na) && fi(b, nb) && fi(c, nc),
            (Instruction::NthFromLast(a, b, c), Instruction::NthFromLast(na, nb, nc)) => fo(a, na) && fi(b, nb) && fi(c, nc),
            (Instruction::Cons(a, b), Instruction::Cons(na, nb)) => fr(a, na) && fi(b, nb),
            (Instruction::Concat(a, b), Instruction::Concat(na, nb)) => fr(a, na) && fi(b, nb),
            (Instruction::Take(a, b), Instruction::Take(na, nb)) => fr(a, na) && fi(b, nb),
            (Instruction::Drop(a, b), Instruction::Drop(na, nb)) => fr(a, na) && fi(b, nb),
            (Instruction::Reverse(a), Instruction::Reverse(na)) => fr(a, na),
            (Instruction::Distinct(a), Instruction::Distinct(na)) => fr(a, na),
            (Instruction::Sub(a, b, c), Instruction::Sub(na, nb, nc)) => fr(a, na) && fi(b, nb) && fi(c, nc),
            (Instruction::Partition(a, b, c), Instruction::Partition(na, nb, nc)) => fo(a, na) && fi(b, nb) && fi(c, nc),
            (Instruction::SteppedPartition(a, b, c), Instruction::SteppedPartition(na, nb, nc)) => fr(a, na) && fi(b, nb) && fi(c, nc),
            (Instruction::Pad(a, b, c), Instruction::Pad(na, nb, nc)) => fr(a, na) && fi(b, nb) && fi(c, nc),
            (Instruction::EmptyMap(a), Instruction::EmptyMap(na)) => fo(a, na),
            (Instruction::Keys(a, b), Instruction::Keys(na, nb)) => fo(a, na) && fi(b, nb),
            (Instruction::Values(a, b), Instruction::Values(na, nb)) => fo(a, na) && fi(b, nb),
            (Instruction::Zip(a, b, c), Instruction::Zip(na, nb, nc)) => fo(a, na) && fi(b, nb) && fi(c, nc),
            (Instruction::Invert(a), Instruction::Invert(na)) => fr(a, na),
            (Instruction::Merge(a, b, c), Instruction::Merge(na, nb, nc)) => fo(a, na) && fi(b, nb) && fi(c, nc),
            (Instruction::MergeWith(a, b, c), Instruction::MergeWith(na, nb, nc)) => fr(a, na) && fi(b, nb) && fi(c, nc),
            (Instruction::MapKeys(a, b), Instruction::MapKeys(na, nb)) => fr(a, na) && fi(b, nb),
            (Instruction::MapValues(a, b), Instruction::MapValues(na, nb)) => fr(a, na) && fi(b, nb),
            (Instruction::SelectKeys(a, b), Instruction::SelectKeys(na, nb)) => fr(a, na) && fi(b, nb),
            (Instruction::EmptySet(a), Instruction::EmptySet(na)) => fo(a, na),
            (Instruction::Union(a, b, c), Instruction::Union(na, nb, nc)) => fo(a, na) && fi(b, nb) && fi(c, nc),
            (Instruction::Intersection(a, b, c), Instruction::Intersection(na, nb, nc)) => fo(a, na) && fi(b, nb) && fi(c, nc),
            (Instruction::Difference(a, b, c), Instruction::Difference(na, nb, nc)) => fo(a, na) && fi(b, nb) && fi(c, nc),
            (Instruction::SymmetricDifference(a, b, c), Instruction::SymmetricDifference(na, nb, nc)) => fo(a, na) && fi(b, nb) && fi(c, nc),
            (Instruction::InfiniteRange(a), Instruction::InfiniteRange(na)) => fo(a, na),
            (Instruction::UpperBoundedRange(a, b), Instruction::UpperBoundedRange(na, nb)) => fo(a, na) && fi(b, nb),
            (Instruction::LowerUpperBoundedRange(a, b, c), Instruction::LowerUpperBoundedRange(na, nb, nc)) => fo(a, na) && fi(b, nb) && fi(c, nc),
            (Instruction::InfiniteRepeat(a, b), Instruction::InfiniteRepeat(na, nb)) => fo(a, na) && fi(b, nb),
            (Instruction::BoundedRepeat(a, b, c), Instruction::BoundedRepeat(na, nb, nc)) => fo(a, na) && fi(b, nb) && fi(c, nc),
            (Instruction::InfiniteRepeatedly(a, b), Instruction::InfiniteRepeatedly(na, nb)) => fo(a, na) && fi(b, nb),
            (Instruction::BoundedRepeatedly(a, b, c), Instruction::BoundedRepeatedly(na, nb, nc)) => fo(a, na) && fi(b, nb) && fi(c, nc),
            (Instruction::InfiniteIterate(a, b, c), Instruction::InfiniteIterate(na, nb, nc)) => fo(a, na) && fi(b, nb) && fi(c, nc),
            (Instruction::BoundedIterate(a, b, c), Instruction::BoundedIterate(na, nb, nc)) => fr(a, na) && fi(b, nb) && fi(c, nc),
            (Instruction::CreateCell(a), Instruction::CreateCell(na)) => fo(a, na),
            (Instruction::GetCellValue(a, b), Instruction::GetCellValue(na, nb)) => fo(a, na) && fi(b, nb),
            (Instruction::SetCellValue(a, b), Instruction::SetCellValue(na, nb)) => fo(a, na) && fi(b, nb),
            (Instruction::UpdateCell(a, b), Instruction::UpdateCell(na, nb)) => fo(a, na) && fi(b, nb),
            (Instruction::CreateCoroutine(a), Instruction::CreateCoroutine(na)) => fr(a, na),
            (Instruction::IsCoroutineAlive(a, b), Instruction::IsCoroutineAlive(na, nb)) => fo(a, na) && fi(b, nb),
            (Instruction::Yield(a), Instruction::Yield(na)) => fo(a, na),
            (Instruction::YieldAndAccept(a, b, c), Instruction::YieldAndAccept(na, nb, nc)) => fo(a, na) && b == nb && fi(c, nc),
            (Instruction::IsNil(a, b), Instruction::IsNil(na, nb)) => fo(a, na) && fi(b, nb),
            (Instruction::IsBool(a, b), Instruction::IsBool(na, nb)) => fo(a, na) && fi(b, nb),
            (Instruction::IsChar(a, b), Instruction::IsChar(na, nb)) => fo(a, na) && fi(b, nb),
            (Instruction::IsNum(a, b), Instruction::IsNum(na, nb)) => fo(a, na) && fi(b, nb),
            (Instruction::IsInt(a, b), Instruction::IsInt(na, nb)) => fo(a, na) && fi(b, nb),
            (Instruction::IsFloat(a, b), Instruction::IsFloat(na, nb)) => fo(a, na) && fi(b, nb),
            (Instruction::IsSymbol(a, b), Instruction::IsSymbol(na, nb)) => fo(a, na) && fi(b, nb),
            (Instruction::IsString(a, b), Instruction::IsString(na, nb)) => fo(a, na) && fi(b, nb),
            (Instruction::IsList(a, b), Instruction::IsList(na, nb)) => fo(a, na) && fi(b, nb),
            (Instruction::IsMap(a, b), Instruction::IsMap(na, nb)) => fo(a, na) && fi(b, nb),
            (Instruction::IsSet(a, b), Instruction::IsSet(na, nb)) => fo(a, na) && fi(b, nb),
            (Instruction::IsCollection(a, b), Instruction::IsCollection(na, nb)) => fo(a, na) && fi(b, nb),
            (Instruction::IsFn(a, b), Instruction::IsFn(na, nb)) => fo(a, na) && fi(b, nb),
            (Instruction::IsError(a, b), Instruction::IsError(na, nb)) => fo(a, na) && fi(b, nb),
            (Instruction::IsCell(a, b), Instruction::IsCell(na, nb)) => fo(a, na) && fi(b, nb),
            (Instruction::IsCoroutine(a, b), Instruction::IsCoroutine(na, nb)) => fo(a, na) && fi(b, nb),
            (Instruction::ToBool(a, b), Instruction::ToBool(na, nb)) => fo(a, na) && fi(b, nb),
            (Instruction::ToChar(a, b), Instruction::ToChar(na, nb)) => fo(a, na) && fi(b, nb),
            (Instruction::ToNum(a, b), Instruction::ToNum(na, nb)) => fo(a, na) && fi(b, nb),
            (Instruction::ToInt(a, b), Instruction::ToInt(na, nb)) => fo(a, na) && fi(b, nb),
            (Instruction::ToFloat(a, b), Instruction::ToFloat(na, nb)) => fo(a, na) && fi(b, nb),
            (Instruction::ToSymbol(a, b), Instruction::ToSymbol(na, nb)) => fo(a, na) && fi(b, nb),
            (Instruction::ToString(a, b), Instruction::ToString(na, nb)) => fo(a, na) && fi(b, nb),
            (Instruction::ToList(a, b), Instruction::ToList(na, nb)) => fo(a, na) && fi(b, nb),
            (Instruction::ToMap(a, b), Instruction::ToMap(na, nb)) => fo(a, na) && fi(b, nb),
            (Instruction::ToSet(a, b), Instruction::ToSet(na, nb)) => fo(a, na) && fi(b, nb),
            (Instruction::ToError(a, b), Instruction::ToError(na, nb)) => fo(a, na) && fi(b, nb),
            _ => false,
        }
    }

    /// Every register operand of `self` satisfies the predicate for its kind.
    pub open spec fn operands_satisfy(
        self,
        pi: spec_fn(I) -> bool,
        po: spec_fn(O) -> bool,
        pr: spec_fn(R) -> bool,
    ) -> bool {
        match self {
            Instruction::DebugPrint(_) => true,
            Instruction::Clear(a) => po(a),
            Instruction::Copy(a, b) => po(a) && pi(b),
            Instruction::Const(a, _) => po(a),
            Instruction::Print(a) => pi(a),
            Instruction::Return(a) => pi(a),
            Instruction::CopyArgument(a) => pi(a),
            Instruction::StealArgument(a) => pi(a),
            Instruction::Call(a, b, _) => po(a) && pi(b),
            Instruction::Apply(a, b) => pr(a) && pi(b),
            Instruction::CallSelf(a, _) => po(a),
            Instruction::ApplySelf(a) => pr(a),
            Instruction::CallAndReturn(a, _) => pi(a),
            Instruction::ApplyAndReturn(a, b) => pi(a) && pi(b),
            Instruction::CallSelfAndReturn(_) => true,
            Instruction::ApplySelfAndReturn(a) => pi(a),
            Instruction::CallingFunction(a) => po(a),
            Instruction::Jump(_) => true,
            Instruction::Lookup(a, _) => po(a),
            Instruction::If(a) => pi(a),
            Instruction::Else => true,
            Instruction::ElseIf(a) => pi(a),
            Instruction::EndIf => true,
            Instruction::Partial(a, b, c) => po(a) && pi(b) && pi(c),
            Instruction::Compose(a, b, c) => po(a) && pi(b) && pi(c),
            Instruction::FindSome(a, b, c) => po(a) && pi(b) && pi(c),
            Instruction::ReduceWithoutInitialValue(a, b) => pr(a) && pi(b),
            Instruction::ReduceWithInitialValue(a, b, c) => pr(a) && pi(b) && pi(c),
            Instruction::Memoize(a, b) => po(a) && pi(b),
            Instruction::Constantly(a, b) => po(a) && pi(b),
            Instruction::NumericalEqual(a, b, c) => po(a) && pi(b) && pi(c),
            Instruction::IsZero(a, b) => po(a) && pi(b),
            Instruction::IsNan(a, b) => po(a) && pi(b),
            Instruction::IsInf(a, b) => po(a) && pi(b),
            Instruction::IsEven(a, b) => po(a) && pi(b),
            Instruction::IsOdd(a, b) => po(a) && pi(b),
            Instruction::IsPos(a, b) => po(a) && pi(b),
            Instruction::IsNeg(a, b) => po(a) && pi(b),
            Instruction::Inc(a, b) => po(a) && pi(b),
            Instruction::Dec(a, b) => po(a) && pi(b),
            Instruction::Negate(a, b) => po(a) && pi(b),
            Instruction::Abs(a, b) => po(a) && pi(b),
            Instruction::Floor(a, b) => po(a) && pi(b),
            Instruction::Ceil(a, b) => po(a) && pi(b),
            Instruction::Sqrt(a, b) => po(a) && pi(b),
            Instruction::Exp(a, b) => po(a) && pi(b),
            Instruction::Exp2(a, b) => po(a) && pi(b),
            Instruction::Ln(a, b) => po(a) && pi(b),
            Instruction::Log2(a, b) => po(a) && pi(b),
            Instruction::Add(a, b, c) => po(a) && pi(b) && pi(c),
            Instruction::Subtract(a, b, c) => po(a) && pi(b) && pi(c),
            Instruction::Multiply(a, b, c) => po(a) && pi(b) && pi(c),
            Instruction::Divide(a, b, c) => po(a) && pi(b) && pi(c),
            Instruction::Pow(a, b, c) => po(a) && pi(b) && pi(c),
            Instruction::Mod(a, b, c) => po(a) && pi(b) && pi(c),
            Instruction::Quot(a, b, c) => po(a) && pi(b) && pi(c),
            Instruction::Min(a, b, c) => po(a) && pi(b) && pi(c),
            Instruction::Max(a, b, c) => po(a) && pi(b) && pi(c),
            Instruction::GreaterThan(a, b, c) => po(a) && pi(b) && pi(c),
            Instruction::GreaterThanOrEqual(a, b, c) => po(a) && pi(b) && pi(c),
            Instruction::LessThan(a, b, c) => po(a) && pi(b) && pi(c),
            Instruction::LessThanOrEqual(a, b, c) => po(a) && pi(b) && pi(c),
            Instruction::Rand(a) => po(a),
            Instruction::UpperBoundedRand(a, b) => po(a) && pi(b),
            Instruction::LowerUpperBoundedRand(a, b, c) => po(a) && pi(b) && pi(c),
            Instruction::RandInt(a, b) => po(a) && pi(b),
            Instruction::LowerBoundedRandInt(a, b, c) => po(a) && pi(b) && pi(c),
            Instruction::Equal(a, b, c) => po(a) && pi(b) && pi(c),
            Instruction::NotEqual(a, b, c) => po(a) && pi(b) && pi(c),
            Instruction::Not(a, b) => po(a) && pi(b),
            Instruction::And(a, b, c) => po(a) && pi(b) && pi(c),
            Instruction::Or(a, b, c) => po(a) && pi(b) && pi(c),
            Instruction::Xor(a, b, c) => po(a) && pi(b) && pi(c),
            Instruction::IsEmpty(a, b) => po(a) && pi(b),
            Instruction::First(a, b) => po(a) && pi(b),
            Instruction::Count(a, b) => po(a) && pi(b),
            Instruction::Flatten(a, b) => po(a) && pi(b),
            Instruction::Remove(a, b) => pr(a) && pi(b),
            Instruction::Filter(a, b) => pr(a) && pi(b),
            Instruction::CollectionMap(a, b) => pr(a) && pi(b),
            Instruction::DoubleMap(a, b, c) => pr(a) && pi(b) && pi(c),
            Instruction::MultiCollectionMap(a, b) => pr(a) && pi(b),
            Instruction::CollectionSet(a, b, c) => pr(a) && pi(b) && pi(c),
            Instruction::SetIn(a, b, c) => pr(a) && pi(b) && pi(c),
            Instruction::Get(a, b, c) => po(a) && pi(b) && pi(c),
            Instruction::GetIn(a, b, c) => po(a) && pi(b) && pi(c),
            Instruction::Update(a, b, c) => pr(a) && pi(b) && pi(c),
            Instruction::UpdateIn(a, b, c) => pr(a) && pi(b) && pi(c),
            Instruction::MinKey(a, b, c) => po(a) && pi(b) && pi(c),
            Instruction::MaxKey(a, b, c) => po(a) && pi(b) && pi(c),
            Instruction::Push(a, b) => pr(a) && pi(b),
            Instruction::Sort(a) => pr(a),
            Instruction::SortBy(a, b) => pr(a) && pi(b),
            Instruction::EmptyList(a) => po(a),
            Instruction::Last(a, b) => po(a) && pi(b),
            Instruction::Rest(a) => pr(a),
            Instruction::ButLast(a) => pr(a),
            Instruction::Nth(a, b, c) => po(a) && pi(b) && pi(c),
            Instruction::NthFromLast(a, b, c) => po(a) && pi(b) && pi(c),
            Instruction::Cons(a, b) => pr(a) && pi(b),
            Instruction::Concat(a, b) => pr(a) && pi(b),
            Instruction::Take(a, b) => pr(a) && pi(b),
            Instruction::Drop(a, b) => pr(a) && pi(b),
            Instruction::Reverse(a) => pr(a),
            Instruction::Distinct(a) => pr(a),
            Instruction::Sub(a, b, c) => pr(a) && pi(b) && pi(c),
            Instruction::Partition(a, b, c) => po(a) && pi(b) && pi(c),
            Instruction::SteppedPartition(a, b, c) => pr(a) && pi(b) && pi(c),
            Instruction::Pad(a, b, c) => pr(a) && pi(b) && pi(c),
            Instruction::EmptyMap(a) => po(a),
            Instruction::Keys(a, b) => po(a) && pi(b),
            Instruction::Values(a, b) => po(a) && pi(b),
            Instruction::Zip(a, b, c) => po(a) && pi(b) && pi(c),
            Instruction::Invert(a) => pr(a),
            Instruction::Merge(a, b, c) => po(a) && pi(b) && pi(c),
            Instruction::MergeWith(a, b, c) => pr(a) && pi(b) && pi(c),
            Instruction::MapKeys(a, b) => pr(a) && pi(b),
            Instruction::MapValues(a, b) => pr(a) && pi(b),
            Instruction::SelectKeys(a, b) => pr(a) && pi(b),
            Instruction::EmptySet(a) => po(a),
            Instruction::Union(a, b, c) => po(a) && pi(b) && pi(c),
            Instruction::Intersection(a, b, c) => po(a) && pi(b) && pi(c),
            Instruction::Difference(a, b, c) => po(a) && pi(b) && pi(c),
            Instruction::SymmetricDifference(a, b, c) => po(a) && pi(b) && pi(c),
            Instruction::InfiniteRange(a) => po(a),
            Instruction::UpperBoundedRange(a, b) => po(a) && pi(b),
            Instruction::LowerUpperBoundedRange(a, b, c) => po(a) && pi(b) && pi(c),
            Instruction::InfiniteRepeat(a, b) => po(a) && pi(b),
            Instruction::BoundedRepeat(a, b, c) => po(a) && pi(b) && pi(c),
            Instruction::InfiniteRepeatedly(a, b) => po(a) && pi(b),
            Instruction::BoundedRepeatedly(a, b, c) => po(a) && pi(b) && pi(c),
            Instruction::InfiniteIterate(a, b, c) => po(a) && pi(b) && pi(c),
            Instruction::BoundedIterate(a, b, c) => pr(a) && pi(b) && pi(c),
            Instruction::CreateCell(a) => po(a),
            Instruction::GetCellValue(a, b) => po(a) && pi(b),
            Instruction::SetCellValue(a, b) => po(a) && pi(b),
            Instruction::UpdateCell(a, b) => po(a) && pi(b),
            Instruction::CreateCoroutine(a) => pr(a),
            Instruction::IsCoroutineAlive(a, b) => po(a) && pi(b),
            Instruction::Yield(a) => po(a),
            Instruction::YieldAndAccept(a, _, c) => po(a) && pi(c),
            Instruction::IsNil(a, b) => po(a) && pi(b),
            Instruction::IsBool(a, b) => po(a) && pi(b),
            Instruction::IsChar(a, b) => po(a) && pi(b),
            Instruction::IsNum(a, b) => po(a) && pi(b),
            Instruction::IsInt(a, b) => po(a) && pi(b),
            Instruction::IsFloat(a, b) => po(a) && pi(b),
            Instruction::IsSymbol(a, b) => po(a) && pi(b),
            Instruction::IsString(a, b) => po(a) && pi(b),
            Instruction::IsList(a, b) => po(a) && pi(b),
            Instruction::IsMap(a, b) => po(a) && pi(b),
            Instruction::IsSet(a, b) => po(a) && pi(b),
            Instruction::IsCollection(a, b) => po(a) && pi(b),
            Instruction::IsFn(a, b) => po(a) && pi(b),
            Instruction::IsError(a, b) => po(a) && pi(b),
            Instruction::IsCell(a, b) => po(a) && pi(b),
            Instruction::IsCoroutine(a, b) => po(a) && pi(b),
            Instruction::ToBool(a, b) => po(a) && pi(b),
            Instruction::ToChar(a, b) => po(a) && pi(b),
            Instruction::ToNum(a, b) => po(a) && pi(b),
            Instruction::ToInt(a, b) => po(a) && pi(b),
            Instruction::ToFloat(a, b) => po(a) && pi(b),
            Instruction::ToSymbol(a, b) => po(a) && pi(b),
            Instruction::ToString(a, b) => po(a) && pi(b),
            Instruction::ToList(a, b) => po(a) && pi(b),
            Instruction::ToMap(a, b) => po(a) && pi(b),
            Instruction::ToSet(a, b) => po(a) && pi(b),
            Instruction::ToError(a, b) => po(a) && pi(b),
        }
    }
}

impl<I: Copy, O: Copy, R: Copy> Instruction<I, O, R> {
    /// The registers this instruction reads, writes, and replaces.
    pub fn usages(&self) -> (usages: RegisterUsages<I, O, R>)
        requires
            self.has_usages(),
        ensures
            usages.inputs@ == self.spec_inputs(),
            usages.outputs@ == self.spec_outputs(),
            usages.replacements@ == self.spec_replacements(),
    {
        let (inputs, outputs, replacements): (Vec<I>, Vec<O>, Vec<R>) = match self {
            Instruction::DebugPrint(_) => (vec![], vec![], vec![]),
            Instruction::Clear(a) => (vec![], vec![*a], vec![]),
            Instruction::Copy(a, b) => (vec![*b], vec![*a], vec![]),
            Instruction::Const(a, _) => (vec![], vec![*a], vec![]),
            Instruction::Print(a) => (vec![*a], vec![], vec![]),
            Instruction::Return(a) => (vec![*a], vec![], vec![]),
            Instruction::CopyArgument(a) => (vec![*a], vec![], vec![]),
            Instruction::StealArgument(a) => (vec![*a], vec![], vec![]),
            Instruction::Call(a, b, _) => (vec![*b], vec![*a], vec![]),
            Instruction::Apply(a, b) => (vec![*b], vec![], vec![*a]),
            Instruction::CallSelf(a, _) => (vec![], vec![*a], vec![]),
            Instruction::ApplySelf(a) => (vec![], vec![], vec![*a]),
            Instruction::CallAndReturn(a, _) => (vec![*a], vec![], vec![]),
            Instruction::ApplyAndReturn(a, _) => (vec![*a], vec![], vec![]),
            Instruction::CallSelfAndReturn(_) => (vec![], vec![], vec![]),
            Instruction::ApplySelfAndReturn(a) => (vec![*a], vec![], vec![]),
            Instruction::CallingFunction(a) => (vec![], vec![*a], vec![]),
            Instruction::Jump(_) => (vec![], vec![], vec![]),
            Instruction::Lookup(a, _) => (vec![], vec![*a], vec![]),
            Instruction::If(a) => (vec![*a], vec![], vec![]),
            Instruction::Else => (vec![], vec![], vec![]),
            Instruction::ElseIf(a) => (vec![*a], vec![], vec![]),
            Instruction::EndIf => (vec![], vec![], vec![]),
            Instruction::Partial(a, b, c) => (vec![*b, *c], vec![*a], vec![]),
            Instruction::Compose(a, b, c) => (vec![*b, *c], vec![*a], vec![]),
            Instruction::FindSome(a, b, c) => (vec![*b, *c], vec![*a], vec![]),
            Instruction::ReduceWithoutInitialValue(a, b) => (vec![*b], vec![], vec![*a]),
            Instruction::ReduceWithInitialValue(a, b, c) => (vec![*b, *c], vec![], vec![*a]),
            Instruction::Memoize(a, b) => (vec![*b], vec![*a], vec![]),
            Instruction::Constantly(a, b) => (vec![*b], vec![*a], vec![]),
            Instruction::NumericalEqual(a, b, c) => (vec![*b, *c], vec![*a], vec![]),
            Instruction::IsZero(a, b) => (vec![*b], vec![*a], vec![]),
            Instruction::IsNan(a, b) => (vec![*b], vec![*a], vec![]),
            Instruction::IsInf(a, b) => (vec![*b], vec![*a], vec![]),
            Instruction::IsEven(a, b) => (vec![*b], vec![*a], vec![]),
            Instruction::IsOdd(a, b) => (vec![*b], vec![*a], vec![]),
            Instruction::IsPos(a, b) => (vec![*b], vec![*a], vec![]),
            Instruction::IsNeg(a, b) => (vec![*b], vec![*a], vec![]),
            Instruction::Inc(a, b) => (vec![*b], vec![*a], vec![]),
            Instruction::Dec(a, b) => (vec![*b], vec![*a], vec![]),
            Instruction::Negate(a, b) => (vec![*b], vec![*a], vec![]),
            Instruction::Abs(a, b) => (vec![*b], vec![*a], vec![]),
            Instruction::Floor(a, b) => (vec![*b], vec![*a], vec![]),
            Instruction::Ceil(a, b) => (vec![*b], vec![*a], vec![]),
            Instruction::Sqrt(a, b) => (vec![*b], vec![*a], vec![]),
            Instruction::Exp(a, b) => (vec![*b], vec![*a], vec![]),
            Instruction::Exp2(a, b) => (vec![*b], vec![*a], vec![]),
            Instruction::Ln(a, b) => (vec![*b], vec![*a], vec![]),
            Instruction::Log2(a, b) => (vec![*b], vec![*a], vec![]),
            Instruction::Add(a, b, c) => (vec![*b, *c], vec![*a], vec![]),
            Instruction::Subtract(a, b, c) => (vec![*b, *c], vec![*a], vec![]),
            Instruction::Multiply(a, b, c) => (vec![*b, *c], vec![*a], vec![]),
            Instruction::Divide(a, b, c) => (vec![*b, *c], vec![*a], vec![]),
            Instruction::Pow(a, b, c) => (vec![*b, *c], vec![*a], vec![]),
            Instruction::Mod(a, b, c) => (vec![*b, *c], vec![*a], vec![]),
            Instruction::Quot(a, b, c) => (vec![*b, *c], vec![*a], vec![]),
            Instruction::Min(a, b, c) => (vec![*b, *c], vec![*a], vec![]),
            Instruction::Max(a, b, c) => (vec![*b, *c], vec![*a], vec![]),
            Instruction::GreaterThan(a, b, c) => (vec![*b, *c], vec![*a], vec![]),
            Instruction::GreaterThanOrEqual(a, b, c) => (vec![*b, *c], vec![*a], vec![]),
            Instruction::LessThan(a, b, c) => (vec![*b, *c], vec![*a], vec![]),
            Instruction::LessThanOrEqual(a, b, c) => (vec![*b, *c], vec![*a], vec![]),
            Instruction::Rand(a) => (vec![], vec![*a], vec![]),
            Instruction::UpperBoundedRand(a, b) => (vec![*b], vec![*a], vec![]),
            Instruction::LowerUpperBoundedRand(a, b, c) => (vec![*b, *c], vec![*a], vec![]),
            Instruction::RandInt(a, b) => (vec![*b], vec![*a], vec![]),
            Instruction::LowerBoundedRandInt(a, b, c) => (vec![*b, *c], vec![*a], vec![]),
            Instruction::Equal(a, b, c) => (vec![*b, *c], vec![*a], vec![]),
            Instruction::NotEqual(a, b, c) => (vec![*b, *c], vec![*a], vec![]),
            Instruction::Not(a, b) => (vec![*b], vec![*a], vec![]),
            Instruction::And(a, b, c) => (vec![*b, *c], vec![*a], vec![]),
            Instruction::Or(a, b, c) => (vec![*b, *c], vec![*a], vec![]),
            Instruction::Xor(a, b, c) => (vec![*b, *c], vec![*a], vec![]),
            Instruction::IsEmpty(a, b) => (vec![*b], vec![*a], vec![]),
            Instruction::First(a, b) => (vec![*b], vec![*a], vec![]),
            Instruction::Count(a, b) => (vec![*b], vec![*a], vec![]),
            Instruction::Flatten(a, b) => (vec![*b], vec![*a], vec![]),
            Instruction::Remove(a, b) => (vec![*b], vec![], vec![*a]),
            Instruction::Filter(a, b) => (vec![*b], vec![], vec![*a]),
            Instruction::CollectionMap(a, b) => (vec![*b], vec![], vec![*a]),
            Instruction::DoubleMap(a, b, c) => (vec![*b, *c], vec![], vec![*a]),
            Instruction::MultiCollectionMap(a, b) => (vec![*b], vec![], vec![*a]),
            Instruction::CollectionSet(a, b, c) => (vec![*b, *c], vec![], vec![*a]),
            Instruction::SetIn(a, b, c) => (vec![*b, *c], vec![], vec![*a]),
            Instruction::Get(a, b, c) => (vec![*b, *c], vec![*a], vec![]),
            Instruction::GetIn(a, b, c) => (vec![*b, *c], vec![*a], vec![]),
            Instruction::Update(a, b, c) => (vec![*b, *c], vec![], vec![*a]),
            Instruction::UpdateIn(a, b, c) => (vec![*b, *c], vec![], vec![*a]),
            Instruction::MinKey(a, b, c) => (vec![*b, *c], vec![*a], vec![]),
            Instruction::MaxKey(a, b, c) => (vec![*b, *c], vec![*a], vec![]),
            Instruction::Push(a, b) => (vec![*b], vec![], vec![*a]),
            Instruction::Sort(a) => (vec![], vec![], vec![*a]),
            Instruction::SortBy(a, b) => (vec![*b], vec![], vec![*a]),
            Instruction::EmptyList(a) => (vec![], vec![*a], vec![]),
            Instruction::Last(a, b) => (vec![*b], vec![*a], vec![]),
            Instruction::Rest(a) => (vec![], vec![], vec![*a]),
            Instruction::ButLast(a) => (vec![], vec![], vec![*a]),
            Instruction::Nth(a, b, c) => (vec![*b, *c], vec![*a], vec![]),
            Instruction::NthFromLast(a, b, c) => (vec![*b, *c], vec![*a], vec![]),
            Instruction::Cons(a, b) => (vec![*b], vec![], vec![*a]),
            Instruction::Concat(a, b) => (vec![*b], vec![], vec![*a]),
            Instruction::Take(a, b) => (vec![*b], vec![], vec![*a]),
            Instruction::Drop(a, b) => (vec![*b], vec![], vec![*a]),
            Instruction::Reverse(a) => (vec![], vec![], vec![*a]),
            Instruction::Distinct(a) => (vec![], vec![], vec![*a]),
            Instruction::Sub(a, b, c) => (vec![*b, *c], vec![], vec![*a]),
            Instruction::Partition(a, b, c) => (vec![*b, *c], vec![*a], vec![]),
            Instruction::SteppedPartition(a, b, c) => (vec![*b, *c], vec![], vec![*a]),
            Instruction::Pad(a, b, c) => (vec![*b, *c], vec![], vec![*a]),
            Instruction::EmptyMap(a) => (vec![], vec![*a], vec![]),
            Instruction::Keys(a, b) => (vec![*b], vec![*a], vec![]),
            Instruction::Values(a, b) => (vec![*b], vec![*a], vec![]),
            Instruction::Zip(a, b, c) => (vec![*b, *c], vec![*a], vec![]),
            Instruction::Invert(a) => (vec![], vec![], vec![*a]),
            Instruction::Merge(a, b, c) => (vec![*b, *c], vec![*a], vec![]),
            Instruction::MergeWith(a, b, c) => (vec![*b, *c], vec![], vec![*a]),
            Instruction::MapKeys(a, b) => (vec![*b], vec![], vec![*a]),
            Instruction::MapValues(a, b) => (vec![*b], vec![], vec![*a]),
            Instruction::SelectKeys(a, b) => (vec![*b], vec![], vec![*a]),
            Instruction::EmptySet(a) => (vec![], vec![*a], vec![]),
            Instruction::Union(a, b, c) => (vec![*b, *c], vec![*a], vec![]),
            Instruction::Intersection(a, b, c) => (vec![*b, *c], vec![*a], vec![]),
            Instruction::Difference(a, b, c) => (vec![*b, *c], vec![*a], vec![]),
            Instruction::SymmetricDifference(a, b, c) => (vec![*b, *c], vec![*a], vec![]),
            Instruction::InfiniteRange(a) => (vec![], vec![*a], vec![]),
            Instruction::UpperBoundedRange(a, b) => (vec![*b], vec![*a], vec![]),
            Instruction::LowerUpperBoundedRange(a, b, c) => (vec![*b, *c], vec![*a], vec![]),
            Instruction::InfiniteRepeat(a, b) => (vec![*b], vec![*a], vec![]),
            Instruction::BoundedRepeat(a, b, c) => (vec![*b, *c], vec![*a], vec![]),
            Instruction::InfiniteRepeatedly(a, b) => (vec![*b], vec![*a], vec![]),
            Instruction::BoundedRepeatedly(a, b, c) => (vec![*b, *c], vec![*a], vec![]),
            Instruction::InfiniteIterate(a, b, c) => (vec![*b, *c], vec![*a], vec![]),
            Instruction::BoundedIterate(a, b, c) => (vec![*b, *c], vec![], vec![*a]),
            Instruction::CreateCell(a) => (vec![], vec![*a], vec![]),
            Instruction::GetCellValue(a, b) => (vec![*b], vec![*a], vec![]),
            Instruction::SetCellValue(a, b) => (vec![*b], vec![*a], vec![]),
            Instruction::UpdateCell(a, b) => (vec![*b], vec![*a], vec![]),
            Instruction::CreateCoroutine(a) => (vec![], vec![], vec![*a]),
            Instruction::IsCoroutineAlive(a, b) => (vec![*b], vec![*a], vec![]),
            Instruction::Yield(a) => (vec![], vec![*a], vec![]),
            Instruction::IsNil(a, b) => (vec![*b], vec![*a], vec![]),
            Instruction::IsBool(a, b) => (vec![*b], vec![*a], vec![]),
            Instruction::IsChar(a, b) => (vec![*b], vec![*a], vec![]),
            Instruction::IsNum(a, b) => (vec![*b], vec![*a], vec![]),
            Instruction::IsInt(a, b) => (vec![*b], vec![*a], vec![]),
            Instruction::IsFloat(a, b) => (vec![*b], vec![*a], vec![]),
            Instruction::IsSymbol(a, b) => (vec![*b], vec![*a], vec![]),
            Instruction::IsString(a, b) => (vec![*b], vec![*a], vec![]),
            Instruction::IsList(a, b) => (vec![*b], vec![*a], vec![]),
            Instruction::IsMap(a, b) => (vec![*b], vec![*a], vec![]),
            Instruction::IsSet(a, b) => (vec![*b], vec![*a], vec![]),
            Instruction::IsCollection(a, b) => (vec![*b], vec![*a], vec![]),
            Instruction::IsFn(a, b) => (vec![*b], vec![*a], vec![]),
            Instruction::IsError(a, b) => (vec![*b], vec![*a], vec![]),
            Instruction::IsCell(a, b) => (vec![*b], vec![*a], vec![]),
            Instruction::IsCoroutine(a, b) => (vec![*b], vec![*a], vec![]),
            Instruction::ToBool(a, b) => (vec![*b], vec![*a], vec![]),
            Instruction::ToChar(a, b) => (vec![*b], vec![*a], vec![]),
            Instruction::ToNum(a, b) => (vec![*b], vec![*a], vec![]),
            Instruction::ToInt(a, b) => (vec![*b], vec![*a], vec![]),
            Instruction::ToFloat(a, b) => (vec![*b], vec![*a], vec![]),
            Instruction::ToSymbol(a, b) => (vec![*b], vec![*a], vec![]),
            Instruction::ToString(a, b) => (vec![*b], vec![*a], vec![]),
            Instruction::ToList(a, b) => (vec![*b], vec![*a], vec![]),
            Instruction::ToMap(a, b) => (vec![*b], vec![*a], vec![]),
            Instruction::ToSet(a, b) => (vec![*b], vec![*a], vec![]),
            Instruction::ToError(a, b) => (vec![*b], vec![*a], vec![]),
            Instruction::YieldAndAccept(_, _, _) => (Vec::new(), Vec::new(), Vec::new()),
        };
        RegisterUsages { inputs, outputs, replacements }
    }
}

impl<I: Copy, O: Copy, R: Copy> Instruction<I, O, R> {
    /// Every register operand of the instruction, by kind, in order.
    pub fn slots(&self) -> (slots: RegisterUsages<I, O, R>)
        ensures
            slots.inputs@ == self.input_slots(),
            slots.outputs@ == self.output_slots(),
            slots.replacements@ == self.replacement_slots(),
    {
        let (inputs, outputs, replacements): (Vec<I>, Vec<O>, Vec<R>) = match self {
            Instruction::DebugPrint(_) => (vec![], vec![], vec![]),
            Instruction::Clear(a) => (vec![], vec![*a], vec![]),
            Instruction::Copy(a, b) => (vec![*b], vec![*a], vec![]),
            Instruction::Const(a, _) => (vec![], vec![*a], vec![]),
            Instruction::Print(a) => (vec![*a], vec![], vec![]),
            Instruction::Return(a) => (vec![*a], vec![], vec![]),
            Instruction::CopyArgument(a) => (vec![*a], vec![], vec![]),
            Instruction::StealArgument(a) => (vec![*a], vec![], vec![]),
            Instruction::Call(a, b, _) => (vec![*b], vec![*a], vec![]),
            Instruction::Apply(a, b) => (vec![*b], vec![], vec![*a]),
            Instruction::CallSelf(a, _) => (vec![], vec![*a], vec![]),
            Instruction::ApplySelf(a) => (vec![], vec![], vec![*a]),
            Instruction::CallAndReturn(a, _) => (vec![*a], vec![], vec![]),
            Instruction::ApplyAndReturn(a, b) => (vec![*a, *b], vec![], vec![]),
            Instruction::CallSelfAndReturn(_) => (vec![], vec![], vec![]),
            Instruction::ApplySelfAndReturn(a) => (vec![*a], vec![], vec![]),
            Instruction::CallingFunction(a) => (vec![], vec![*a], vec![]),
            Instruction::Jump(_) => (vec![], vec![], vec![]),
            Instruction::Lookup(a, _) => (vec![], vec![*a], vec![]),
            Instruction::If(a) => (vec![*a], vec![], vec![]),
            Instruction::Else => (vec![], vec![], vec![]),
            Instruction::ElseIf(a) => (vec![*a], vec![], vec![]),
            Instruction::EndIf => (vec![], vec![], vec![]),
            Instruction::Partial(a, b, c) => (vec![*b, *c], vec![*a], vec![]),
            Instruction::Compose(a, b, c) => (vec![*b, *c], vec![*a], vec![]),
            Instruction::FindSome(a, b, c) => (vec![*b, *c], vec![*a], vec![]),
            Instruction::ReduceWithoutInitialValue(a, b) => (vec![*b], vec![], vec![*a]),
            Instruction::ReduceWithInitialValue(a, b, c) => (vec![*b, *c], vec![], vec![*a]),
            Instruction::Memoize(a, b) => (vec![*b], vec![*a], vec![]),
            Instruction::Constantly(a, b) => (vec![*b], vec![*a], vec![]),
            Instruction::NumericalEqual(a, b, c) => (vec![*b, *c], vec![*a], vec![]),
            Instruction::IsZero(a, b) => (vec![*b], vec![*a], vec![]),
            Instruction::IsNan(a, b) => (vec![*b], vec![*a], vec![]),
            Instruction::IsInf(a, b) => (vec![*b], vec![*a], vec![]),
            Instruction::IsEven(a, b) => (vec![*b], vec![*a], vec![]),
            Instruction::IsOdd(a, b) => (vec![*b], vec![*a], vec![]),
            Instruction::IsPos(a, b) => (vec![*b], vec![*a], vec![]),
            Instruction::IsNeg(a, b) => (vec![*b], vec![*a], vec![]),
            Instruction::Inc(a, b) => (vec![*b], vec![*a], vec![]),
            Instruction::Dec(a, b) => (vec![*b], vec![*a], vec![]),
            Instruction::Negate(a, b) => (vec![*b], vec![*a], vec![]),
            Instruction::Abs(a, b) => (vec![*b], vec![*a], vec![]),
            Instruction::Floor(a, b) => (vec![*b], vec![*a], vec![]),
            Instruction::Ceil(a, b) => (vec![*b], vec![*a], vec![]),
            Instruction::Sqrt(a, b) => (vec![*b], vec![*a], vec![]),
            Instruction::Exp(a, b) => (vec![*b], vec![*a], vec![]),
            Instruction::Exp2(a, b) => (vec![*b], vec![*a], vec![]),
            Instruction::Ln(a, b) => (vec![*b], vec![*a], vec![]),
            Instruction::Log2(a, b) => (vec![*b], vec![*a], vec![]),
            Instruction::Add(a, b, c) => (vec![*b, *c], vec![*a], vec![]),
            Instruction::Subtract(a, b, c) => (vec![*b, *c], vec![*a], vec![]),
            Instruction::Multiply(a, b, c) => (vec![*b, *c], vec![*a], vec![]),
            Instruction::Divide(a, b, c) => (vec![*b, *c], vec![*a], vec![]),
            Instruction::Pow(a, b, c) => (vec![*b, *c], vec![*a], vec![]),
            Instruction::Mod(a, b, c) => (vec![*b, *c], vec![*a], vec![]),
            Instruction::Quot(a, b, c) => (vec![*b, *c], vec![*a], vec![]),
            Instruction::Min(a, b, c) => (vec![*b, *c], vec![*a], vec![]),
            Instruction::Max(a, b, c) => (vec![*b, *c], vec![*a], vec![]),
            Instruction::GreaterThan(a, b, c) => (vec![*b, *c], vec![*a], vec![]),
            Instruction::GreaterThanOrEqual(a, b, c) => (vec![*b, *c], vec![*a], vec![]),
            Instruction::LessThan(a, b, c) => (vec![*b, *c], vec![*a], vec![]),
            Instruction::LessThanOrEqual(a, b, c) => (vec![*b, *c], vec![*a], vec![]),
            Instruction::Rand(a) => (vec![], vec![*a], vec![]),
            Instruction::UpperBoundedRand(a, b) => (vec![*b], vec![*a], vec![]),
            Instruction::LowerUpperBoundedRand(a, b, c) => (vec![*b, *c], vec![*a], vec![]),
            Instruction::RandInt(a, b) => (vec![*b], vec![*a], vec![]),
            Instruction::LowerBoundedRandInt(a, b, c) => (vec![*b, *c], vec![*a], vec![]),
            Instruction::Equal(a, b, c) => (vec![*b, *c], vec![*a], vec![]),
            Instruction::NotEqual(a, b, c) => (vec![*b, *c], vec![*a], vec![]),
            Instruction::Not(a, b) => (vec![*b], vec![*a], vec![]),
            Instruction::And(a, b, c) => (vec![*b, *c], vec![*a], vec![]),
            Instruction::Or(a, b, c) => (vec![*b, *c], vec![*a], vec![]),
            Instruction::Xor(a, b, c) => (vec![*b, *c], vec![*a], vec![]),
            Instruction::IsEmpty(a, b) => (vec![*b], vec![*a], vec![]),
            Instruction::First(a, b) => (vec![*b], vec![*a], vec![]),
            Instruction::Count(a, b) => (vec![*b], vec![*a], vec![]),
            Instruction::Flatten(a, b) => (vec![*b], vec![*a], vec![]),
            Instruction::Remove(a, b) => (vec![*b], vec![], vec![*a]),
            Instruction::Filter(a, b) => (vec![*b], vec![], vec![*a]),
            Instruction::CollectionMap(a, b) => (vec![*b], vec![], vec![*a]),
            Instruction::DoubleMap(a, b, c) => (vec![*b, *c], vec![], vec![*a]),
            Instruction::MultiCollectionMap(a, b) => (vec![*b], vec![], vec![*a]),
            Instruction::CollectionSet(a, b, c) => (vec![*b, *c], vec![], vec![*a]),
            Instruction::SetIn(a, b, c) => (vec![*b, *c], vec![], vec![*a]),
            Instruction::Get(a, b, c) => (vec![*b, *c], vec![*a], vec![]),
            Instruction::GetIn(a, b, c) => (vec![*b, *c], vec![*a], vec![]),
            Instruction::Update(a, b, c) => (vec![*b, *c], vec![], vec![*a]),
            Instruction::UpdateIn(a, b, c) => (vec![*b, *c], vec![], vec![*a]),
            Instruction::MinKey(a, b, c) => (vec![*b, *c], vec![*a], vec![]),
            Instruction::MaxKey(a, b, c) => (vec![*b, *c], vec![*a], vec![]),
            Instruction::Push(a, b) => (vec![*b], vec![], vec![*a]),
            Instruction::Sort(a) => (vec![], vec![], vec![*a]),
            Instruction::SortBy(a, b) => (vec![*b], vec![], vec![*a]),
            Instruction::EmptyList(a) => (vec![], vec![*a], vec![]),
            Instruction::Last(a, b) => (vec![*b], vec![*a], vec![]),
            Instruction::Rest(a) => (vec![], vec![], vec![*a]),
            Instruction::ButLast(a) => (vec![], vec![], vec![*a]),
            Instruction::Nth(a, b, c) => (vec![*b, *c], vec![*a], vec![]),
            Instruction::NthFromLast(a, b, c) => (vec![*b, *c], vec![*a], vec![]),
            Instruction::Cons(a, b) => (vec![*b], vec![], vec![*a]),
            Instruction::Concat(a, b) => (vec![*b], vec![], vec![*a]),
            Instruction::Take(a, b) => (vec![*b], vec![], vec![*a]),
            Instruction::Drop(a, b) => (vec![*b], vec![], vec![*a]),
            Instruction::Reverse(a) => (vec![], vec![], vec![*a]),
            Instruction::Distinct(a) => (vec![], vec![], vec![*a]),
            Instruction::Sub(a, b, c) => (vec![*b, *c], vec![], vec![*a]),
            Instruction::Partition(a, b, c) => (vec![*b, *c], vec![*a], vec![]),
            Instruction::SteppedPartition(a, b, c) => (vec![*b, *c], vec![], vec![*a]),
            Instruction::Pad(a, b, c) => (vec![*b, *c], vec![], vec![*a]),
            Instruction::EmptyMap(a) => (vec![], vec![*a], vec![]),
            Instruction::Keys(a, b) => (vec![*b], vec![*a], vec![]),
            Instruction::Values(a, b) => (vec![*b], vec![*a], vec![]),
            Instruction::Zip(a, b, c) => (vec![*b, *c], vec![*a], vec![]),
            Instruction::Invert(a) => (vec![], vec![], vec![*a]),
            Instruction::Merge(a, b, c) => (vec![*b, *c], vec![*a], vec![]),
            Instruction::MergeWith(a, b, c) => (vec![*b, *c], vec![], vec![*a]),
            Instruction::MapKeys(a, b) => (vec![*b], vec![], vec![*a]),
            Instruction::MapValues(a, b) => (vec![*b], vec![], vec![*a]),
            Instruction::SelectKeys(a, b) => (vec![*b], vec![], vec![*a]),
            Instruction::EmptySet(a) => (vec![], vec![*a], vec![]),
            Instruction::Union(a, b, c) => (vec![*b, *c], vec![*a], vec![]),
            Instruction::Intersection(a, b, c) => (vec![*b, *c], vec![*a], vec![]),
            Instruction::Difference(a, b, c) => (vec![*b, *c], vec![*a], vec![]),
            Instruction::SymmetricDifference(a, b, c) => (vec![*b, *c], vec![*a], vec![]),
            Instruction::InfiniteRange(a) => (vec![], vec![*a], vec![]),
            Instruction::UpperBoundedRange(a, b) => (vec![*b], vec![*a], vec![]),
            Instruction::LowerUpperBoundedRange(a, b, c) => (vec![*b, *c], vec![*a], vec![]),
            Instruction::InfiniteRepeat(a, b) => (vec![*b], vec![*a], vec![]),
            Instruction::BoundedRepeat(a, b, c) => (vec![*b, *c], vec![*a], vec![]),
            Instruction::InfiniteRepeatedly(a, b) => (vec![*b], vec![*a], vec![]),
            Instruction::BoundedRepeatedly(a, b, c) => (vec![*b, *c], vec![*a], vec![]),
            Instruction::InfiniteIterate(a, b, c) => (vec![*b, *c], vec![*a], vec![]),
            Instruction::BoundedIterate(a, b, c) => (vec![*b, *c], vec![], vec![*a]),
            Instruction::CreateCell(a) => (vec![], vec![*a], vec![]),
            Instruction::GetCellValue(a, b) => (vec![*b], vec![*a], vec![]),
            Instruction::SetCellValue(a, b) => (vec![*b], vec![*a], vec![]),
            Instruction::UpdateCell(a, b) => (vec![*b], vec![*a], vec![]),
            Instruction::CreateCoroutine(a) => (vec![], vec![], vec![*a]),
            Instruction::IsCoroutineAlive(a, b) => (vec![*b], vec![*a], vec![]),
            Instruction::Yield(a) => (vec![], vec![*a], vec![]),
            Instruction::YieldAndAccept(a, _, c) => (vec![*c], vec![*a], vec![]),
            Instruction::IsNil(a, b) => (vec![*b], vec![*a], vec![]),
            Instruction::IsBool(a, b) => (vec![*b], vec![*a], vec![]),
            Instruction::IsChar(a, b) => (vec![*b], vec![*a], vec![]),
            Instruction::IsNum(a, b) => (vec![*b], vec![*a], vec![]),
            Instruction::IsInt(a, b) => (vec![*b], vec![*a], vec![]),
            Instruction::IsFloat(a, b) => (vec![*b], vec![*a], vec![]),
            Instruction::IsSymbol(a, b) => (vec![*b], vec![*a], vec![]),
            Instruction::IsString(a, b) => (vec![*b], vec![*a], vec![]),
            Instruction::IsList(a, b) => (vec![*b], vec![*a], vec![]),
            Instruction::IsMap(a, b) => (vec![*b], vec![*a], vec![]),
            Instruction::IsSet(a, b) => (vec![*b], vec![*a], vec![]),
            Instruction::IsCollection(a, b) => (vec![*b], vec![*a], vec![]),
            Instruction::IsFn(a, b) => (vec![*b], vec![*a], vec![]),
            Instruction::IsError(a, b) => (vec![*b], vec![*a], vec![]),
            Instruction::IsCell(a, b) => (vec![*b], vec![*a], vec![]),
            Instruction::IsCoroutine(a, b) => (vec![*b], vec![*a], vec![]),
            Instruction::ToBool(a, b) => (vec![*b], vec![*a], vec![]),
            Instruction::ToChar(a, b) => (vec![*b], vec![*a], vec![]),
            Instruction::ToNum(a, b) => (vec![*b], vec![*a], vec![]),
            Instruction::ToInt(a, b) => (vec![*b], vec![*a], vec![]),
            Instruction::ToFloat(a, b) => (vec![*b], vec![*a], vec![]),
            Instruction::ToSymbol(a, b) => (vec![*b], vec![*a], vec![]),
            Instruction::ToString(a, b) => (vec![*b], vec![*a], vec![]),
            Instruction::ToList(a, b) => (vec![*b], vec![*a], vec![]),
            Instruction::ToMap(a, b) => (vec![*b], vec![*a], vec![]),
            Instruction::ToSet(a, b) => (vec![*b], vec![*a], vec![]),
            Instruction::ToError(a, b) => (vec![*b], vec![*a], vec![]),
        };
        RegisterUsages { inputs, outputs, replacements }
    }
}

impl<I, O, R> Instruction<I, O, R> {
    /// If every operand of each kind satisfies the predicate for its kind, the
    /// instruction's operands satisfy them.
    pub proof fn lemma_operands_satisfy(
        self,
        pi: spec_fn(I) -> bool,
        po: spec_fn(O) -> bool,
        pr: spec_fn(R) -> bool,
    )
        requires
            forall|k: int| 0 <= k < self.input_slots().len() ==> pi(#[trigger] self.input_slots()[k]),
            forall|k: int| 0 <= k < self.output_slots().len() ==> po(#[trigger] self.output_slots()[k]),
            forall|k: int|
                0 <= k < self.replacement_slots().len() ==> pr(#[trigger] self.replacement_slots()[k]),
        ensures
            self.operands_satisfy(pi, po, pr),
    {
        match self {
            Instruction::DebugPrint(..) => {},
            Instruction::Clear(..) => {assert(po(self.output_slots()[0]));},
            Instruction::Copy(..) => {assert(pi(self.input_slots()[0])); assert(po(self.output_slots()[0]));},
            Instruction::Const(..) => {assert(po(self.output_slots()[0]));},
            Instruction::Print(..) => {assert(pi(self.input_slots()[0]));},
            Instruction::Return(..) => {assert(pi(self.input_slots()[0]));},
            Instruction::CopyArgument(..) => {assert(pi(self.input_slots()[0]));},
            Instruction::StealArgument(..) => {assert(pi(self.input_slots()[0]));},
            Instruction::Call(..) => {assert(pi(self.input_slots()[0])); assert(po(self.output_slots()[0]));},
            Instruction::Apply(..) => {assert(pi(self.input_slots()[0])); assert(pr(self.replacement_slots()[0]));},
            Instruction::CallSelf(..) => {assert(po(self.output_slots()[0]));},
            Instruction::ApplySelf(..) => {assert(pr(self.replacement_slots()[0]));},
            Instruction::CallAndReturn(..) => {assert(pi(self.input_slots()[0]));},
            Instruction::ApplyAndReturn(..) => {assert(pi(self.input_slots()[0])); assert(pi(self.input_slots()[1]));},
            Instruction::CallSelfAndReturn(..) => {},
            Instruction::ApplySelfAndReturn(..) => {assert(pi(self.input_slots()[0]));},
            Instruction::CallingFunction(..) => {assert(po(self.output_slots()[0]));},
            Instruction::Jump(..) => {},
            Instruction::Lookup(..) => {assert(po(self.output_slots()[0]));},
            Instruction::If(..) => {assert(pi(self.input_slots()[0]));},
            Instruction::Else => {},
            Instruction::ElseIf(..) => {assert(pi(self.input_slots()[0]));},
            Instruction::EndIf => {},
            Instruction::Partial(..) => {assert(pi(self.input_slots()[0])); assert(pi(self.input_slots()[1])); assert(po(self.output_slots()[0]));},
            Instruction::Compose(..) => {assert(pi(self.input_slots()[0])); assert(pi(self.input_slots()[1])); assert(po(self.output_slots()[0]));},
            Instruction::FindSome(..) => {assert(pi(self.input_slots()[0])); assert(pi(self.input_slots()[1])); assert(po(self.output_slots()[0]));},
            Instruction::ReduceWithoutInitialValue(..) => {assert(pi(self.input_slots()[0])); assert(pr(self.replacement_slots()[0]));},
            Instruction::ReduceWithInitialValue(..) => {assert(pi(self.input_slots()[0])); assert(pi(self.input_slots()[1])); assert(pr(self.replacement_slots()[0]));},
            Instruction::Memoize(..) => {assert(pi(self.input_slots()[0])); assert(po(self.output_slots()[0]));},
            Instruction::Constantly(..) => {assert(pi(self.input_slots()[0])); assert(po(self.output_slots()[0]));},
            Instruction::NumericalEqual(..) => {assert(pi(self.input_slots()[0])); assert(pi(self.input_slots()[1])); assert(po(self.output_slots()[0]));},
            Instruction::IsZero(..) => {assert(pi(self.input_slots()[0])); assert(po(self.output_slots()[0]));},
            Instruction::IsNan(..) => {assert(pi(self.input_slots()[0])); assert(po(self.output_slots()[0]));},
            Instruction::IsInf(..) => {assert(pi(self.input_slots()[0])); assert(po(self.output_slots()[0]));},
            Instruction::IsEven(..) => {assert(pi(self.input_slots()[0])); assert(po(self.output_slots()[0]));},
            Instruction::IsOdd(..) => {assert(pi(self.input_slots()[0])); assert(po(self.output_slots()[0]));},
            Instruction::IsPos(..) => {assert(pi(self.input_slots()[0])); assert(po(self.output_slots()[0]));},
            Instruction::IsNeg(..) => {assert(pi(self.input_slots()[0])); assert(po(self.output_slots()[0]));},
            Instruction::Inc(..) => {assert(pi(self.input_slots()[0])); assert(po(self.output_slots()[0]));},
            Instruction::Dec(..) => {assert(pi(self.input_slots()[0])); assert(po(self.output_slots()[0]));},
            Instruction::Negate(..) => {assert(pi(self.input_slots()[0])); assert(po(self.output_slots()[0]));},
            Instruction::Abs(..) => {assert(pi(self.input_slots()[0])); assert(po(self.output_slots()[0]));},
            Instruction::Floor(..) => {assert(pi(self.input_slots()[0])); assert(po(self.output_slots()[0]));},
            Instruction::Ceil(..) => {assert(pi(self.input_slots()[0])); assert(po(self.output_slots()[0]));},
            Instruction::Sqrt(..) => {assert(pi(self.input_slots()[0])); assert(po(self.output_slots()[0]));},
            Instruction::Exp(..) => {assert(pi(self.input_slots()[0])); assert(po(self.output_slots()[0]));},
            Instruction::Exp2(..) => {assert(pi(self.input_slots()[0])); assert(po(self.output_slots()[0]));},
            Instruction::Ln(..) => {assert(pi(self.input_slots()[0])); assert(po(self.output_slots()[0]));},
            Instruction::Log2(..) => {assert(pi(self.input_slots()[0])); assert(po(self.output_slots()[0]));},
            Instruction::Add(..) => {assert(pi(self.input_slots()[0])); assert(pi(self.input_slots()[1])); assert(po(self.output_slots()[0]));},
            Instruction::Subtract(..) => {assert(pi(self.input_slots()[0])); assert(pi(self.input_slots()[1])); assert(po(self.output_slots()[0]));},
            Instruction::Multiply(..) => {assert(pi(self.input_slots()[0])); assert(pi(self.input_slots()[1])); assert(po(self.output_slots()[0]));},
            Instruction::Divide(..) => {assert(pi(self.input_slots()[0])); assert(pi(self.input_slots()[1])); assert(po(self.output_slots()[0]));},
            Instruction::Pow(..) => {assert(pi(self.input_slots()[0])); assert(pi(self.input_slots()[1])); assert(po(self.output_slots()[0]));},
            Instruction::Mod(..) => {assert(pi(self.input_slots()[0])); assert(pi(self.input_slots()[1])); assert(po(self.output_slots()[0]));},
            Instruction::Quot(..) => {assert(pi(self.input_slots()[0])); assert(pi(self.input_slots()[1])); assert(po(self.output_slots()[0]));},
            Instruction::Min(..) => {assert(pi(self.input_slots()[0])); assert(pi(self.input_slots()[1])); assert(po(self.output_slots()[0]));},
            Instruction::Max(..) => {assert(pi(self.input_slots()[0])); assert(pi(self.input_slots()[1])); assert(po(self.output_slots()[0]));},
            Instruction::GreaterThan(..) => {assert(pi(self.input_slots()[0])); assert(pi(self.input_slots()[1])); assert(po(self.output_slots()[0]));},
            Instruction::GreaterThanOrEqual(..) => {assert(pi(self.input_slots()[0])); assert(pi(self.input_slots()[1])); assert(po(self.output_slots()[0]));},
            Instruction::LessThan(..) => {assert(pi(self.input_slots()[0])); assert(pi(self.input_slots()[1])); assert(po(self.output_slots()[0]));},
            Instruction::LessThanOrEqual(..) => {assert(pi(self.input_slots()[0])); assert(pi(self.input_slots()[1])); assert(po(self.output_slots()[0]));},
            Instruction::Rand(..) => {assert(po(self.output_slots()[0]));},
            Instruction::UpperBoundedRand(..) => {assert(pi(self.input_slots()[0])); assert(po(self.output_slots()[0]));},
            Instruction::LowerUpperBoundedRand(..) => {assert(pi(self.input_slots()[0])); assert(pi(self.input_slots()[1])); assert(po(self.output_slots()[0]));},
            Instruction::RandInt(..) => {assert(pi(self.input_slots()[0])); assert(po(self.output_slots()[0]));},
            Instruction::LowerBoundedRandInt(..) => {assert(pi(self.input_slots()[0])); assert(pi(self.input_slots()[1])); assert(po(self.output_slots()[0]));},
            Instruction::Equal(..) => {assert(pi(self.input_slots()[0])); assert(pi(self.input_slots()[1])); assert(po(self.output_slots()[0]));},
            Instruction::NotEqual(..) => {assert(pi(self.input_slots()[0])); assert(pi(self.input_slots()[1])); assert(po(self.output_slots()[0]));},
            Instruction::Not(..) => {assert(pi(self.input_slots()[0])); assert(po(self.output_slots()[0]));},
            Instruction::And(..) => {assert(pi(self.input_slots()[0])); assert(pi(self.input_slots()[1])); assert(po(self.output_slots()[0]));},
            Instruction::Or(..) => {assert(pi(self.input_slots()[0])); assert(pi(self.input_slots()[1])); assert(po(self.output_slots()[0]));},
            Instruction::Xor(..) => {assert(pi(self.input_slots()[0])); assert(pi(self.input_slots()[1])); assert(po(self.output_slots()[0]));},
            Instruction::IsEmpty(..) => {assert(pi(self.input_slots()[0])); assert(po(self.output_slots()[0]));},
            Instruction::First(..) => {assert(pi(self.input_slots()[0])); assert(po(self.output_slots()[0]));},
            Instruction::Count(..) => {assert(pi(self.input_slots()[0])); assert(po(self.output_slots()[0]));},
            Instruction::Flatten(..) => {assert(pi(self.input_slots()[0])); assert(po(self.output_slots()[0]));},
            Instruction::Remove(..) => {assert(pi(self.input_slots()[0])); assert(pr(self.replacement_slots()[0]));},
            Instruction::Filter(..) => {assert(pi(self.input_slots()[0])); assert(pr(self.replacement_slots()[0]));},
            Instruction::CollectionMap(..) => {assert(pi(self.input_slots()[0])); assert(pr(self.replacement_slots()[0]));},
            Instruction::DoubleMap(..) => {assert(pi(self.input_slots()[0])); assert(pi(self.input_slots()[1])); assert(pr(self.replacement_slots()[0]));},
            Instruction::MultiCollectionMap(..) => {assert(pi(self.input_slots()[0])); assert(pr(self.replacement_slots()[0]));},
            Instruction::CollectionSet(..) => {assert(pi(self.input_slots()[0])); assert(pi(self.input_slots()[1])); assert(pr(self.replacement_slots()[0]));},
            Instruction::SetIn(..) => {assert(pi(self.input_slots()[0])); assert(pi(self.input_slots()[1])); assert(pr(self.replacement_slots()[0]));},
            Instruction::Get(..) => {assert(pi(self.input_slots()[0])); assert(pi(self.input_slots()[1])); assert(po(self.output_slots()[0]));},
            Instruction::GetIn(..) => {assert(pi(self.input_slots()[0])); assert(pi(self.input_slots()[1])); assert(po(self.output_slots()[0]));},
            Instruction::Update(..) => {assert(pi(self.input_slots()[0])); assert(pi(self.input_slots()[1])); assert(pr(self.replacement_slots()[0]));},
            Instruction::UpdateIn(..) => {assert(pi(self.input_slots()[0])); assert(pi(self.input_slots()[1])); assert(pr(self.replacement_slots()[0]));},
            Instruction::MinKey(..) => {assert(pi(self.input_slots()[0])); assert(pi(self.input_slots()[1])); assert(po(self.output_slots()[0]));},
            Instruction::MaxKey(..) => {assert(pi(self.input_slots()[0])); assert(pi(self.input_slots()[1])); assert(po(self.output_slots()[0]));},
            Instruction::Push(..) => {assert(pi(self.input_slots()[0])); assert(pr(self.replacement_slots()[0]));},
            Instruction::Sort(..) => {assert(pr(self.replacement_slots()[0]));},
            Instruction::SortBy(..) => {assert(pi(self.input_slots()[0])); assert(pr(self.replacement_slots()[0]));},
            Instruction::EmptyList(..) => {assert(po(self.output_slots()[0]));},
            Instruction::Last(..) => {assert(pi(self.input_slots()[0])); assert(po(self.output_slots()[0]));},
            Instruction::Rest(..) => {assert(pr(self.replacement_slots()[0]));},
            Instruction::ButLast(..) => {assert(pr(self.replacement_slots()[0]));},
            Instruction::Nth(..) => {assert(pi(self.input_slots()[0])); assert(pi(self.input_slots()[1])); assert(po(self.output_slots()[0]));},
            Instruction::NthFromLast(..) => {assert(pi(self.input_slots()[0])); assert(pi(self.input_slots()[1])); assert(po(self.output_slots()[0]));},
            Instruction::Cons(..) => {assert(pi(self.input_slots()[0])); assert(pr(self.replacement_slots()[0]));},
            Instruction::Concat(..) => {assert(pi(self.input_slots()[0])); assert(pr(self.replacement_slots()[0]));},
            Instruction::Take(..) => {assert(pi(self.input_slots()[0])); assert(pr(self.replacement_slots()[0]));},
            Instruction::Drop(..) => {assert(pi(self.input_slots()[0])); assert(pr(self.replacement_slots()[0]));},
            Instruction::Reverse(..) => {assert(pr(self.replacement_slots()[0]));},
            Instruction::Distinct(..) => {assert(pr(self.replacement_slots()[0]));},
            Instruction::Sub(..) => {assert(pi(self.input_slots()[0])); assert(pi(self.input_slots()[1])); assert(pr(self.replacement_slots()[0]));},
            Instruction::Partition(..) => {assert(pi(self.input_slots()[0])); assert(pi(self.input_slots()[1])); assert(po(self.output_slots()[0]));},
            Instruction::SteppedPartition(..) => {assert(pi(self.input_slots()[0])); assert(pi(self.input_slots()[1])); assert(pr(self.replacement_slots()[0]));},
            Instruction::Pad(..) => {assert(pi(self.input_slots()[0])); assert(pi(self.input_slots()[1])); assert(pr(self.replacement_slots()[0]));},
            Instruction::EmptyMap(..) => {assert(po(self.output_slots()[0]));},
            Instruction::Keys(..) => {assert(pi(self.input_slots()[0])); assert(po(self.output_slots()[0]));},
            Instruction::Values(..) => {assert(pi(self.input_slots()[0])); assert(po(self.output_slots()[0]));},
            Instruction::Zip(..) => {assert(pi(self.input_slots()[0])); assert(pi(self.input_slots()[1])); assert(po(self.output_slots()[0]));},
            Instruction::Invert(..) => {assert(pr(self.replacement_slots()[0]));},
            Instruction::Merge(..) => {assert(pi(self.input_slots()[0])); assert(pi(self.input_slots()[1])); assert(po(self.output_slots()[0]));},
            Instruction::MergeWith(..) => {assert(pi(self.input_slots()[0])); assert(pi(self.input_slots()[1])); assert(pr(self.replacement_slots()[0]));},
            Instruction::MapKeys(..) => {assert(pi(self.input_slots()[0])); assert(pr(self.replacement_slots()[0]));},
            Instruction::MapValues(..) => {assert(pi(self.input_slots()[0])); assert(pr(self.replacement_slots()[0]));},
            Instruction::SelectKeys(..) => {assert(pi(self.input_slots()[0])); assert(pr(self.replacement_slots()[0]));},
            Instruction::EmptySet(..) => {assert(po(self.output_slots()[0]));},
            Instruction::Union(..) => {assert(pi(self.input_slots()[0])); assert(pi(self.input_slots()[1])); assert(po(self.output_slots()[0]));},
            Instruction::Intersection(..) => {assert(pi(self.input_slots()[0])); assert(pi(self.input_slots()[1])); assert(po(self.output_slots()[0]));},
            Instruction::Difference(..) => {assert(pi(self.input_slots()[0])); assert(pi(self.input_slots()[1])); assert(po(self.output_slots()[0]));},
            Instruction::SymmetricDifference(..) => {assert(pi(self.input_slots()[0])); assert(pi(self.input_slots()[1])); assert(po(self.output_slots()[0]));},
            Instruction::InfiniteRange(..) => {assert(po(self.output_slots()[0]));},
            Instruction::UpperBoundedRange(..) => {assert(pi(self.input_slots()[0])); assert(po(self.output_slots()[0]));},
            Instruction::LowerUpperBoundedRange(..) => {assert(pi(self.input_slots()[0])); assert(pi(self.input_slots()[1])); assert(po(self.output_slots()[0]));},
            Instruction::InfiniteRepeat(..) => {assert(pi(self.input_slots()[0])); assert(po(self.output_slots()[0]));},
            Instruction::BoundedRepeat(..) => {assert(pi(self.input_slots()[0])); assert(pi(self.input_slots()[1])); assert(po(self.output_slots()[0]));},
            Instruction::InfiniteRepeatedly(..) => {assert(pi(self.input_slots()[0])); assert(po(self.output_slots()[0]));},
            Instruction::BoundedRepeatedly(..) => {assert(pi(self.input_slots()[0])); assert(pi(self.input_slots()[1])); assert(po(self.output_slots()[0]));},
            Instruction::InfiniteIterate(..) => {assert(pi(self.input_slots()[0])); assert(pi(self.input_slots()[1])); assert(po(self.output_slots()[0]));},
            Instruction::BoundedIterate(..) => {assert(pi(self.input_slots()[0])); assert(pi(self.input_slots()[1])); assert(pr(self.replacement_slots()[0]));},
            Instruction::CreateCell(..) => {assert(po(self.output_slots()[0]));},
            Instruction::GetCellValue(..) => {assert(pi(self.input_slots()[0])); assert(po(self.output_slots()[0]));},
            Instruction::SetCellValue(..) => {assert(pi(self.input_slots()[0])); assert(po(self.output_slots()[0]));},
            Instruction::UpdateCell(..) => {assert(pi(self.input_slots()[0])); assert(po(self.output_slots()[0]));},
            Instruction::CreateCoroutine(..) => {assert(pr(self.replacement_slots()[0]));},
            Instruction::IsCoroutineAlive(..) => {assert(pi(self.input_slots()[0])); assert(po(self.output_slots()[0]));},
            Instruction::Yield(..) => {assert(po(self.output_slots()[0]));},
            Instruction::YieldAndAccept(..) => {assert(pi(self.input_slots()[0])); assert(po(self.output_slots()[0]));},
            Instruction::IsNil(..) => {assert(pi(self.input_slots()[0])); assert(po(self.output_slots()[0]));},
            Instruction::IsBool(..) => {assert(pi(self.input_slots()[0])); assert(po(self.output_slots()[0]));},
            Instruction::IsChar(..) => {assert(pi(self.input_slots()[0])); assert(po(self.output_slots()[0]));},
            Instruction::IsNum(..) => {assert(pi(self.input_slots()[0])); assert(po(self.output_slots()[0]));},
            Instruction::IsInt(..) => {assert(pi(self.input_slots()[0])); assert(po(self.output_slots()[0]));},
            Instruction::IsFloat(..) => {assert(pi(self.input_slots()[0])); assert(po(self.output_slots()[0]));},
            Instruction::IsSymbol(..) => {assert(pi(self.input_slots()[0])); assert(po(self.output_slots()[0]));},
            Instruction::IsString(..) => {assert(pi(self.input_slots()[0])); assert(po(self.output_slots()[0]));},
            Instruction::IsList(..) => {assert(pi(self.input_slots()[0])); assert(po(self.output_slots()[0]));},
            Instruction::IsMap(..) => {assert(pi(self.input_slots()[0])); assert(po(self.output_slots()[0]));},
            Instruction::IsSet(..) => {assert(pi(self.input_slots()[0])); assert(po(self.output_slots()[0]));},
            Instruction::IsCollection(..) => {assert(pi(self.input_slots()[0])); assert(po(self.output_slots()[0]));},
            Instruction::IsFn(..) => {assert(pi(self.input_slots()[0])); assert(po(self.output_slots()[0]));},
            Instruction::IsError(..) => {assert(pi(self.input_slots()[0])); assert(po(self.output_slots()[0]));},
            Instruction::IsCell(..) => {assert(pi(self.input_slots()[0])); assert(po(self.output_slots()[0]));},
            Instruction::IsCoroutine(..) => {assert(pi(self.input_slots()[0])); assert(po(self.output_slots()[0]));},
            Instruction::ToBool(..) => {assert(pi(self.input_slots()[0])); assert(po(self.output_slots()[0]));},
            Instruction::ToChar(..) => {assert(pi(self.input_slots()[0])); assert(po(self.output_slots()[0]));},
            Instruction::ToNum(..) => {assert(pi(self.input_slots()[0])); assert(po(self.output_slots()[0]));},
            Instruction::ToInt(..) => {assert(pi(self.input_slots()[0])); assert(po(self.output_slots()[0]));},
            Instruction::ToFloat(..) => {assert(pi(self.input_slots()[0])); assert(po(self.output_slots()[0]));},
            Instruction::ToSymbol(..) => {assert(pi(self.input_slots()[0])); assert(po(self.output_slots()[0]));},
            Instruction::ToString(..) => {assert(pi(self.input_slots()[0])); assert(po(self.output_slots()[0]));},
            Instruction::ToList(..) => {assert(pi(self.input_slots()[0])); assert(po(self.output_slots()[0]));},
            Instruction::ToMap(..) => {assert(pi(self.input_slots()[0])); assert(po(self.output_slots()[0]));},
            Instruction::ToSet(..) => {assert(pi(self.input_slots()[0])); assert(po(self.output_slots()[0]));},
            Instruction::ToError(..) => {assert(pi(self.input_slots()[0])); assert(po(self.output_slots()[0]));},
        }
    }
}

impl<I, O, R> Instruction<I, O, R> {
    /// If the instruction's operands satisfy the predicates for their kinds, every
    /// operand of each kind satisfies the predicate for its kind.
    pub proof fn lemma_slots_satisfy(
        self,
        pi: spec_fn(I) -> bool,
        po: spec_fn(O) -> bool,
        pr: spec_fn(R) -> bool,
    )
        requires
            self.operands_satisfy(pi, po, pr),
        ensures
            forall|k: int| 0 <= k < self.input_slots().len() ==> pi(#[trigger] self.input_slots()[k]),
            forall|k: int| 0 <= k < self.output_slots().len() ==> po(#[trigger] self.output_slots()[k]),
            forall|k: int|
                0 <= k < self.replacement_slots().len() ==> pr(#[trigger] self.replacement_slots()[k]),
    {
    }

    /// A translation stays one under looser relations between old and new operands.
    pub proof fn lemma_translated_into_weaken<NI, NO, NR>(
        self,
        new: Instruction<NI, NO, NR>,
        fi: spec_fn(I, NI) -> bool,
        fo: spec_fn(O, NO) -> bool,
        fr: spec_fn(R, NR) -> bool,
        gi: spec_fn(I, NI) -> bool,
        go: spec_fn(O, NO) -> bool,
        gr: spec_fn(R, NR) -> bool,
    )
        requires
            self.translated_into(new, fi, fo, fr),
            forall|a: I, b: NI| #[trigger] fi(a, b) ==> gi(a, b),
            forall|a: O, b: NO| #[trigger] fo(a, b) ==> go(a, b),
            forall|a: R, b: NR| #[trigger] fr(a, b) ==> gr(a, b),
        ensures
            self.translated_into(new, gi, go, gr),
    {
    }
}

impl<I, O, R> Instruction<I, O, R> {
    /// The instruction with each register operand mapped by the function for its kind.
    pub open spec fn with_operands<NI, NO, NR>(
        self,
        fi: spec_fn(I) -> NI,
        fo: spec_fn(O) -> NO,
        fr: spec_fn(R) -> NR,
    ) -> Instruction<NI, NO, NR> {
        match self {
            Instruction::DebugPrint(a) => Instruction::DebugPrint(a),
            Instruction::Clear(a) => Instruction::Clear(fo(a)),
            Instruction::Copy(a, b) => Instruction::Copy(fo(a), fi(b)),
            Instruction::Const(a, b) => Instruction::Const(fo(a), b),
            Instruction::Print(a) => Instruction::Print(fi(a)),
            Instruction::Return(a) => Instruction::Return(fi(a)),
            Instruction::CopyArgument(a) => Instruction::CopyArgument(fi(a)),
            Instruction::StealArgument(a) => Instruction::StealArgument(fi(a)),
            Instruction::Call(a, b, c) => Instruction::Call(fo(a), fi(b), c),
            Instruction::Apply(a, b) => Instruction::Apply(fr(a), fi(b)),
            Instruction::CallSelf(a, b) => Instruction::CallSelf(fo(a), b),
            Instruction::ApplySelf(a) => Instruction::ApplySelf(fr(a)),
            Instruction::CallAndReturn(a, b) => Instruction::CallAndReturn(fi(a), b),
            Instruction::ApplyAndReturn(a, b) => Instruction::ApplyAndReturn(fi(a), fi(b)),
            Instruction::CallSelfAndReturn(a) => Instruction::CallSelfAndReturn(a),
            Instruction::ApplySelfAndReturn(a) => Instruction::ApplySelfAndReturn(fi(a)),
            Instruction::CallingFunction(a) => Instruction::CallingFunction(fo(a)),
            Instruction::Jump(a) => Instruction::Jump(a),
            Instruction::Lookup(a, b) => Instruction::Lookup(fo(a), b),
            Instruction::If(a) => Instruction::If(fi(a)),
            Instruction::Else => Instruction::Else,
            Instruction::ElseIf(a) => Instruction::ElseIf(fi(a)),
            Instruction::EndIf => Instruction::EndIf,
            Instruction::Partial(a, b, c) => Instruction::Partial(fo(a), fi(b), fi(c)),
            Instruction::Compose(a, b, c) => Instruction::Compose(fo(a), fi(b), fi(c)),
            Instruction::FindSome(a, b, c) => Instruction::FindSome(fo(a), fi(b), fi(c)),
            Instruction::ReduceWithoutInitialValue(a, b) => Instruction::ReduceWithoutInitialValue(fr(a), fi(b)),
            Instruction::ReduceWithInitialValue(a, b, c) => Instruction::ReduceWithInitialValue(fr(a), fi(b), fi(c)),
            Instruction::Memoize(a, b) => Instruction::Memoize(fo(a), fi(b)),
            Instruction::Constantly(a, b) => Instruction::Constantly(fo(a), fi(b)),
            Instruction::NumericalEqual(a, b, c) => Instruction::NumericalEqual(fo(a), fi(b), fi(c)),
            Instruction::IsZero(a, b) => Instruction::IsZero(fo(a), fi(b)),
            Instruction::IsNan(a, b) => Instruction::IsNan(fo(a), fi(b)),
            Instruction::IsInf(a, b) => Instruction::IsInf(fo(a), fi(b)),
            Instruction::IsEven(a, b) => Instruction::IsEven(fo(a), fi(b)),
            Instruction::IsOdd(a, b) => Instruction::IsOdd(fo(a), fi(b)),
            Instruction::IsPos(a, b) => Instruction::IsPos(fo(a), fi(b)),
            Instruction::IsNeg(a, b) => Instruction::IsNeg(fo(a), fi(b)),
            Instruction::Inc(a, b) => Instruction::Inc(fo(a), fi(b)),
            Instruction::Dec(a, b) => Instruction::Dec(fo(a), fi(b)),
            Instruction::Negate(a, b) => Instruction::Negate(fo(a), fi(b)),
            Instruction::Abs(a, b) => Instruction::Abs(fo(a), fi(b)),
            Instruction::Floor(a, b) => Instruction::Floor(fo(a), fi(b)),
            Instruction::Ceil(a, b) => Instruction::Ceil(fo(a), fi(b)),
            Instruction::Sqrt(a, b) => Instruction::Sqrt(fo(a), fi(b)),
            Instruction::Exp(a, b) => Instruction::Exp(fo(a), fi(b)),
            Instruction::Exp2(a, b) => Instruction::Exp2(fo(a), fi(b)),
            Instruction::Ln(a, b) => Instruction::Ln(fo(a), fi(b)),
            Instruction::Log2(a, b) => Instruction::Log2(fo(a), fi(b)),
            Instruction::Add(a, b, c) => Instruction::Add(fo(a), fi(b), fi(c)),
            Instruction::Subtract(a, b, c) => Instruction::Subtract(fo(a), fi(b), fi(c)),
            Instruction::Multiply(a, b, c) => Instruction::Multiply(fo(a), fi(b), fi(c)),
            Instruction::Divide(a, b, c) => Instruction::Divide(fo(a), fi(b), fi(c)),
            Instruction::Pow(a, b, c) => Instruction::Pow(fo(a), fi(b), fi(c)),
            Instruction::Mod(a, b, c) => Instruction::Mod(fo(a), fi(b), fi(c)),
            Instruction::Quot(a, b, c) => Instruction::Quot(fo(a), fi(b), fi(c)),
            Instruction::Min(a, b, c) => Instruction::Min(fo(a), fi(b), fi(c)),
            Instruction::Max(a, b, c) => Instruction::Max(fo(a), fi(b), fi(c)),
            Instruction::GreaterThan(a, b, c) => Instruction::GreaterThan(fo(a), fi(b), fi(c)),
            Instruction::GreaterThanOrEqual(a, b, c) => Instruction::GreaterThanOrEqual(fo(a), fi(b), fi(c)),
            Instruction::LessThan(a, b, c) => Instruction::LessThan(fo(a), fi(b), fi(c)),
            Instruction::LessThanOrEqual(a, b, c) => Instruction::LessThanOrEqual(fo(a), fi(b), fi(c)),
            Instruction::Rand(a) => Instruction::Rand(fo(a)),
            Instruction::UpperBoundedRand(a, b) => Instruction::UpperBoundedRand(fo(a), fi(b)),
            Instruction::LowerUpperBoundedRand(a, b, c) => Instruction::LowerUpperBoundedRand(fo(a), fi(b), fi(c)),
            Instruction::RandInt(a, b) => Instruction::RandInt(fo(a), fi(b)),
            Instruction::LowerBoundedRandInt(a, b, c) => Instruction::LowerBoundedRandInt(fo(a), fi(b), fi(c)),
            Instruction::Equal(a, b, c) => Instruction::Equal(fo(a), fi(b), fi(c)),
            Instruction::NotEqual(a, b, c) => Instruction::NotEqual(fo(a), fi(b), fi(c)),
            Instruction::Not(a, b) => Instruction::Not(fo(a), fi(b)),
            Instruction::And(a, b, c) => Instruction::And(fo(a), fi(b), fi(c)),
            Instruction::Or(a, b, c) => Instruction::Or(fo(a), fi(b), fi(c)),
            Instruction::Xor(a, b, c) => Instruction::Xor(fo(a), fi(b), fi(c)),
            Instruction::IsEmpty(a, b) => Instruction::IsEmpty(fo(a), fi(b)),
            Instruction::First(a, b) => Instruction::First(fo(a), fi(b)),
            Instruction::Count(a, b) => Instruction::Count(fo(a), fi(b)),
            Instruction::Flatten(a, b) => Instruction::Flatten(fo(a), fi(b)),
            Instruction::Remove(a, b) => Instruction::Remove(fr(a), fi(b)),
            Instruction::Filter(a, b) => Instruction::Filter(fr(a), fi(b)),
            Instruction::CollectionMap(a, b) => Instruction::CollectionMap(fr(a), fi(b)),
            Instruction::DoubleMap(a, b, c) => Instruction::DoubleMap(fr(a), fi(b), fi(c)),
            Instruction::MultiCollectionMap(a, b) => Instruction::MultiCollectionMap(fr(a), fi(b)),
            Instruction::CollectionSet(a, b, c) => Instruction::CollectionSet(fr(a), fi(b), fi(c)),
            Instruction::SetIn(a, b, c) => Instruction::SetIn(fr(a), fi(b), fi(c)),
            Instruction::Get(a, b, c) => Instruction::Get(fo(a), fi(b), fi(c)),
            Instruction::GetIn(a, b, c) => Instruction::GetIn(fo(a), fi(b), fi(c)),
            Instruction::Update(a, b, c) => Instruction::Update(fr(a), fi(b), fi(c)),
            Instruction::UpdateIn(a, b, c) => Instruction::UpdateIn(fr(a), fi(b), fi(c)),
            Instruction::MinKey(a, b, c) => Instruction::MinKey(fo(a), fi(b), fi(c)),
            Instruction::MaxKey(a, b, c) => Instruction::MaxKey(fo(a), fi(b), fi(c)),
            Instruction::Push(a, b) => Instruction::Push(fr(a), fi(b)),
            Instruction::Sort(a) => Instruction::Sort(fr(a)),
            Instruction::SortBy(a, b) => Instruction::SortBy(fr(a), fi(b)),
            Instruction::EmptyList(a) => Instruction::EmptyList(fo(a)),
            Instruction::Last(a, b) => Instruction::Last(fo(a), fi(b)),
            Instruction::Rest(a) => Instruction::Rest(fr(a)),
            Instruction::ButLast(a) => Instruction::ButLast(fr(a)),
            Instruction::Nth(a, b, c) => Instruction::Nth(fo(a), fi(b), fi(c)),
            Instruction::NthFromLast(a, b, c) => Instruction::NthFromLast(fo(a), fi(b), fi(c)),
            Instruction::Cons(a, b) => Instruction::Cons(fr(a), fi(b)),
            Instruction::Concat(a, b) => Instruction::Concat(fr(a), fi(b)),
            Instruction::Take(a, b) => Instruction::Take(fr(a), fi(b)),
            Instruction::Drop(a, b) => Instruction::Drop(fr(a), fi(b)),
            Instruction::Reverse(a) => Instruction::Reverse(fr(a)),
            Instruction::Distinct(a) => Instruction::Distinct(fr(a)),
            Instruction::Sub(a, b, c) => Instruction::Sub(fr(a), fi(b), fi(c)),
            Instruction::Partition(a, b, c) => Instruction::Partition(fo(a), fi(b), fi(c)),
            Instruction::SteppedPartition(a, b, c) => Instruction::SteppedPartition(fr(a), fi(b), fi(c)),
            Instruction::Pad(a, b, c) => Instruction::Pad(fr(a), fi(b), fi(c)),
            Instruction::EmptyMap(a) => Instruction::EmptyMap(fo(a)),
            Instruction::Keys(a, b) => Instruction::Keys(fo(a), fi(b)),
            Instruction::Values(a, b) => Instruction::Values(fo(a), fi(b)),
            Instruction::Zip(a, b, c) => Instruction::Zip(fo(a), fi(b), fi(c)),
            Instruction::Invert(a) => Instruction::Invert(fr(a)),
            Instruction::Merge(a, b, c) => Instruction::Merge(fo(a), fi(b), fi(c)),
            Instruction::MergeWith(a, b, c) => Instruction::MergeWith(fr(a), fi(b), fi(c)),
            Instruction::MapKeys(a, b) => Instruction::MapKeys(fr(a), fi(b)),
            Instruction::MapValues(a, b) => Instruction::MapValues(fr(a), fi(b)),
            Instruction::SelectKeys(a, b) => Instruction::SelectKeys(fr(a), fi(b)),
            Instruction::EmptySet(a) => Instruction::EmptySet(fo(a)),
            Instruction::Union(a, b, c) => Instruction::Union(fo(a), fi(b), fi(c)),
            Instruction::Intersection(a, b, c) => Instruction::Intersection(fo(a), fi(b), fi(c)),
            Instruction::Difference(a, b, c) => Instruction::Difference(fo(a), fi(b), fi(c)),
            Instruction::SymmetricDifference(a, b, c) => Instruction::SymmetricDifference(fo(a), fi(b), fi(c)),
            Instruction::InfiniteRange(a) => Instruction::InfiniteRange(fo(a)),
            Instruction::UpperBoundedRange(a, b) => Instruction::UpperBoundedRange(fo(a), fi(b)),
            Instruction::LowerUpperBoundedRange(a, b, c) => Instruction::LowerUpperBoundedRange(fo(a), fi(b), fi(c)),
            Instruction::InfiniteRepeat(a, b) => Instruction::InfiniteRepeat(fo(a), fi(b)),
            Instruction::BoundedRepeat(a, b, c) => Instruction::BoundedRepeat(fo(a), fi(b), fi(c)),
            Instruction::InfiniteRepeatedly(a, b) => Instruction::InfiniteRepeatedly(fo(a), fi(b)),
            Instruction::BoundedRepeatedly(a, b, c) => Instruction::BoundedRepeatedly(fo(a), fi(b), fi(c)),
            Instruction::InfiniteIterate(a, b, c) => Instruction::InfiniteIterate(fo(a), fi(b), fi(c)),
            Instruction::BoundedIterate(a, b, c) => Instruction::BoundedIterate(fr(a), fi(b), fi(c)),
            Instruction::CreateCell(a) => Instruction::CreateCell(fo(a)),
            Instruction::GetCellValue(a, b) => Instruction::GetCellValue(fo(a), fi(b)),
            Instruction::SetCellValue(a, b) => Instruction::SetCellValue(fo(a), fi(b)),
            Instruction::UpdateCell(a, b) => Instruction::UpdateCell(fo(a), fi(b)),
            Instruction::CreateCoroutine(a) => Instruction::CreateCoroutine(fr(a)),
            Instruction::IsCoroutineAlive(a, b) => Instruction::IsCoroutineAlive(fo(a), fi(b)),
            Instruction::Yield(a) => Instruction::Yield(fo(a)),
            Instruction::YieldAndAccept(a, b, c) => Instruction::YieldAndAccept(fo(a), b, fi(c)),
            Instruction::IsNil(a, b) => Instruction::IsNil(fo(a), fi(b)),
            Instruction::IsBool(a, b) => Instruction::IsBool(fo(a), fi(b)),
            Instruction::IsChar(a, b) => Instruction::IsChar(fo(a), fi(b)),
            Instruction::IsNum(a, b) => Instruction::IsNum(fo(a), fi(b)),
            Instruction::IsInt(a, b) => Instruction::IsInt(fo(a), fi(b)),
            Instruction::IsFloat(a, b) => Instruction::IsFloat(fo(a), fi(b)),
            Instruction::IsSymbol(a, b) => Instruction::IsSymbol(fo(a), fi(b)),
            Instruction::IsString(a, b) => Instruction::IsString(fo(a), fi(b)),
            Instruction::IsList(a, b) => Instruction::IsList(fo(a), fi(b)),
            Instruction::IsMap(a, b) => Instruction::IsMap(fo(a), fi(b)),
            Instruction::IsSet(a, b) => Instruction::IsSet(fo(a), fi(b)),
            Instruction::IsCollection(a, b) => Instruction::IsCollection(fo(a), fi(b)),
            Instruction::IsFn(a, b) => Instruction::IsFn(fo(a), fi(b)),
            Instruction::IsError(a, b) => Instruction::IsError(fo(a), fi(b)),
            Instruction::IsCell(a, b) => Instruction::IsCell(fo(a), fi(b)),
            Instruction::IsCoroutine(a, b) => Instruction::IsCoroutine(fo(a), fi(b)),
            Instruction::ToBool(a, b) => Instruction::ToBool(fo(a), fi(b)),
            Instruction::ToChar(a, b) => Instruction::ToChar(fo(a), fi(b)),
            Instruction::ToNum(a, b) => Instruction::ToNum(fo(a), fi(b)),
            Instruction::ToInt(a, b) => Instruction::ToInt(fo(a), fi(b)),
            Instruction::ToFloat(a, b) => Instruction::ToFloat(fo(a), fi(b)),
            Instruction::ToSymbol(a, b) => Instruction::ToSymbol(fo(a), fi(b)),
            Instruction::ToString(a, b) => Instruction::ToString(fo(a), fi(b)),
            Instruction::ToList(a, b) => Instruction::ToList(fo(a), fi(b)),
            Instruction::ToMap(a, b) => Instruction::ToMap(fo(a), fi(b)),
            Instruction::ToSet(a, b) => Instruction::ToSet(fo(a), fi(b)),
            Instruction::ToError(a, b) => Instruction::ToError(fo(a), fi(b)),
        }
    }

    /// A translation whose relations are those of functions is the instruction with its
    /// operands mapped by them.
    pub proof fn lemma_translated_into_functional<NI, NO, NR>(
        self,
        new: Instruction<NI, NO, NR>,
        fi: spec_fn(I) -> NI,
        fo: spec_fn(O) -> NO,
        fr: spec_fn(R) -> NR,
    )
        requires
            self.translated_into(
                new,
                |i: I, n: NI| fi(i) == n,
                |o: O, n: NO| fo(o) == n,
                |r: R, n: NR| fr(r) == n,
            ),
        ensures
            new == self.with_operands(fi, fo, fr),
    {
    }
}

impl<I, O, R> Instruction<I, O, R> {
    /// Rewrites every register operand with the translator for its kind, keeping the
    /// opcode and the other operands.
    pub fn translate<
        NewI,
        NewO,
        NewR,
        InputTranslator: Fn(I) -> NewI,
        OutputTranslator: Fn(O) -> NewO,
        ReplacementTranslator: Fn(R) -> NewR,
    >(
        self,
        input_translator: InputTranslator,
        output_translator: OutputTranslator,
        replacement_translator: ReplacementTranslator,
    ) -> (translated: Instruction<NewI, NewO, NewR>)
        requires
            self.operands_satisfy(
                |i: I| input_translator.requires((i,)),
                |o: O| output_translator.requires((o,)),
                |r: R| replacement_translator.requires((r,)),
            ),
        ensures
            self.translated_into(
                translated,
                |i: I, n: NewI| input_translator.ensures((i,), n),
                |o: O, n: NewO| output_translator.ensures((o,), n),
                |r: R, n: NewR| replacement_translator.ensures((r,), n),
            ),
    {
        match self {
            Instruction::DebugPrint(a) => Instruction::DebugPrint(a),
            Instruction::Clear(a) => Instruction::Clear(output_translator(a)),
            Instruction::Copy(a, b) => Instruction::Copy(output_translator(a), input_translator(b)),
            Instruction::Const(a, b) => Instruction::Const(output_translator(a), b),
            Instruction::Print(a) => Instruction::Print(input_translator(a)),
            Instruction::Return(a) => Instruction::Return(input_translator(a)),
            Instruction::CopyArgument(a) => Instruction::CopyArgument(input_translator(a)),
            Instruction::StealArgument(a) => Instruction::StealArgument(input_translator(a)),
            Instruction::Call(a, b, c) => Instruction::Call(output_translator(a), input_translator(b), c),
            Instruction::Apply(a, b) => Instruction::Apply(replacement_translator(a), input_translator(b)),
            Instruction::CallSelf(a, b) => Instruction::CallSelf(output_translator(a), b),
            Instruction::ApplySelf(a) => Instruction::ApplySelf(replacement_translator(a)),
            Instruction::CallAndReturn(a, b) => Instruction::CallAndReturn(input_translator(a), b),
            Instruction::ApplyAndReturn(a, b) => Instruction::ApplyAndReturn(input_translator(a), input_translator(b)),
            Instruction::CallSelfAndReturn(a) => Instruction::CallSelfAndReturn(a),
            Instruction::ApplySelfAndReturn(a) => Instruction::ApplySelfAndReturn(input_translator(a)),
            Instruction::CallingFunction(a) => Instruction::CallingFunction(output_translator(a)),
            Instruction::Jump(a) => Instruction::Jump(a),
            Instruction::Lookup(a, b) => Instruction::Lookup(output_translator(a), b),
            Instruction::If(a) => Instruction::If(input_translator(a)),
            Instruction::Else => Instruction::Else,
            Instruction::ElseIf(a) => Instruction::ElseIf(input_translator(a)),
            Instruction::EndIf => Instruction::EndIf,
            Instruction::Partial(a, b, c) => Instruction::Partial(output_translator(a), input_translator(b), input_translator(c)),
            Instruction::Compose(a, b, c) => Instruction::Compose(output_translator(a), input_translator(b), input_translator(c)),
            Instruction::FindSome(a, b, c) => Instruction::FindSome(output_translator(a), input_translator(b), input_translator(c)),
            Instruction::ReduceWithoutInitialValue(a, b) => Instruction::ReduceWithoutInitialValue(replacement_translator(a), input_translator(b)),
            Instruction::ReduceWithInitialValue(a, b, c) => Instruction::ReduceWithInitialValue(replacement_translator(a), input_translator(b), input_translator(c)),
            Instruction::Memoize(a, b) => Instruction::Memoize(output_translator(a), input_translator(b)),
            Instruction::Constantly(a, b) => Instruction::Constantly(output_translator(a), input_translator(b)),
            Instruction::NumericalEqual(a, b, c) => Instruction::NumericalEqual(output_translator(a), input_translator(b), input_translator(c)),
            Instruction::IsZero(a, b) => Instruction::IsZero(output_translator(a), input_translator(b)),
            Instruction::IsNan(a, b) => Instruction::IsNan(output_translator(a), input_translator(b)),
            Instruction::IsInf(a, b) => Instruction::IsInf(output_translator(a), input_translator(b)),
            Instruction::IsEven(a, b) => Instruction::IsEven(output_translator(a), input_translator(b)),
            Instruction::IsOdd(a, b) => Instruction::IsOdd(output_translator(a), input_translator(b)),
            Instruction::IsPos(a, b) => Instruction::IsPos(output_translator(a), input_translator(b)),
            Instruction::IsNeg(a, b) => Instruction::IsNeg(output_translator(a), input_translator(b)),
            Instruction::Inc(a, b) => Instruction::Inc(output_translator(a), input_translator(b)),
            Instruction::Dec(a, b) => Instruction::Dec(output_translator(a), input_translator(b)),
            Instruction::Negate(a, b) => Instruction::Negate(output_translator(a), input_translator(b)),
            Instruction::Abs(a, b) => Instruction::Abs(output_translator(a), input_translator(b)),
            Instruction::Floor(a, b) => Instruction::Floor(output_translator(a), input_translator(b)),
            Instruction::Ceil(a, b) => Instruction::Ceil(output_translator(a), input_translator(b)),
            Instruction::Sqrt(a, b) => Instruction::Sqrt(output_translator(a), input_translator(b)),
            Instruction::Exp(a, b) => Instruction::Exp(output_translator(a), input_translator(b)),
            Instruction::Exp2(a, b) => Instruction::Exp2(output_translator(a), input_translator(b)),
            Instruction::Ln(a, b) => Instruction::Ln(output_translator(a), input_translator(b)),
            Instruction::Log2(a, b) => Instruction::Log2(output_translator(a), input_translator(b)),
            Instruction::Add(a, b, c) => Instruction::Add(output_translator(a), input_translator(b), input_translator(c)),
            Instruction::Subtract(a, b, c) => Instruction::Subtract(output_translator(a), input_translator(b), input_translator(c)),
            Instruction::Multiply(a, b, c) => Instruction::Multiply(output_translator(a), input_translator(b), input_translator(c)),
            Instruction::Divide(a, b, c) => Instruction::Divide(output_translator(a), input_translator(b), input_translator(c)),
            Instruction::Pow(a, b, c) => Instruction::Pow(output_translator(a), input_translator(b), input_translator(c)),
            Instruction::Mod(a, b, c) => Instruction::Mod(output_translator(a), input_translator(b), input_translator(c)),
            Instruction::Quot(a, b, c) => Instruction::Quot(output_translator(a), input_translator(b), input_translator(c)),
            Instruction::Min(a, b, c) => Instruction::Min(output_translator(a), input_translator(b), input_translator(c)),
            Instruction::Max(a, b, c) => Instruction::Max(output_translator(a), input_translator(b), input_translator(c)),
            Instruction::GreaterThan(a, b, c) => Instruction::GreaterThan(output_translator(a), input_translator(b), input_translator(c)),
            Instruction::GreaterThanOrEqual(a, b, c) => Instruction::GreaterThanOrEqual(output_translator(a), input_translator(b), input_translator(c)),
            Instruction::LessThan(a, b, c) => Instruction::LessThan(output_translator(a), input_translator(b), input_translator(c)),
            Instruction::LessThanOrEqual(a, b, c) => Instruction::LessThanOrEqual(output_translator(a), input_translator(b), input_translator(c)),
            Instruction::Rand(a) => Instruction::Rand(output_translator(a)),
            Instruction::UpperBoundedRand(a, b) => Instruction::UpperBoundedRand(output_translator(a), input_translator(b)),
            Instruction::LowerUpperBoundedRand(a, b, c) => Instruction::LowerUpperBoundedRand(output_translator(a), input_translator(b), input_translator(c)),
            Instruction::RandInt(a, b) => Instruction::RandInt(output_translator(a), input_translator(b)),
            Instruction::LowerBoundedRandInt(a, b, c) => Instruction::LowerBoundedRandInt(output_translator(a), input_translator(b), input_translator(c)),
            Instruction::Equal(a, b, c) => Instruction::Equal(output_translator(a), input_translator(b), input_translator(c)),
            Instruction::NotEqual(a, b, c) => Instruction::NotEqual(output_translator(a), input_translator(b), input_translator(c)),
            Instruction::Not(a, b) => Instruction::Not(output_translator(a), input_translator(b)),
            Instruction::And(a, b, c) => Instruction::And(output_translator(a), input_translator(b), input_translator(c)),
            Instruction::Or(a, b, c) => Instruction::Or(output_translator(a), input_translator(b), input_translator(c)),
            Instruction::Xor(a, b, c) => Instruction::Xor(output_translator(a), input_translator(b), input_translator(c)),
            Instruction::IsEmpty(a, b) => Instruction::IsEmpty(output_translator(a), input_translator(b)),
            Instruction::First(a, b) => Instruction::First(output_translator(a), input_translator(b)),
            Instruction::Count(a, b) => Instruction::Count(output_translator(a), input_translator(b)),
            Instruction::Flatten(a, b) => Instruction::Flatten(output_translator(a), input_translator(b)),
            Instruction::Remove(a, b) => Instruction::Remove(replacement_translator(a), input_translator(b)),
            Instruction::Filter(a, b) => Instruction::Filter(replacement_translator(a), input_translator(b)),
            Instruction::CollectionMap(a, b) => Instruction::CollectionMap(replacement_translator(a), input_translator(b)),
            Instruction::DoubleMap(a, b, c) => Instruction::DoubleMap(replacement_translator(a), input_translator(b), input_translator(c)),
            Instruction::MultiCollectionMap(a, b) => Instruction::MultiCollectionMap(replacement_translator(a), input_translator(b)),
            Instruction::CollectionSet(a, b, c) => Instruction::CollectionSet(replacement_translator(a), input_translator(b), input_translator(c)),
            Instruction::SetIn(a, b, c) => Instruction::SetIn(replacement_translator(a), input_translator(b), input_translator(c)),
            Instruction::Get(a, b, c) => Instruction::Get(output_translator(a), input_translator(b), input_translator(c)),
            Instruction::GetIn(a, b, c) => Instruction::GetIn(output_translator(a), input_translator(b), input_translator(c)),
            Instruction::Update(a, b, c) => Instruction::Update(replacement_translator(a), input_translator(b), input_translator(c)),
            Instruction::UpdateIn(a, b, c) => Instruction::UpdateIn(replacement_translator(a), input_translator(b), input_translator(c)),
            Instruction::MinKey(a, b, c) => Instruction::MinKey(output_translator(a), input_translator(b), input_translator(c)),
            Instruction::MaxKey(a, b, c) => Instruction::MaxKey(output_translator(a), input_translator(b), input_translator(c)),
            Instruction::Push(a, b) => Instruction::Push(replacement_translator(a), input_translator(b)),
            Instruction::Sort(a) => Instruction::Sort(replacement_translator(a)),
            Instruction::SortBy(a, b) => Instruction::SortBy(replacement_translator(a), input_translator(b)),
            Instruction::EmptyList(a) => Instruction::EmptyList(output_translator(a)),
            Instruction::Last(a, b) => Instruction::Last(output_translator(a), input_translator(b)),
            Instruction::Rest(a) => Instruction::Rest(replacement_translator(a)),
            Instruction::ButLast(a) => Instruction::ButLast(replacement_translator(a)),
            Instruction::Nth(a, b, c) => Instruction::Nth(output_translator(a), input_translator(b), input_translator(c)),
            Instruction::NthFromLast(a, b, c) => Instruction::NthFromLast(output_translator(a), input_translator(b), input_translator(c)),
            Instruction::Cons(a, b) => Instruction::Cons(replacement_translator(a), input_translator(b)),
            Instruction::Concat(a, b) => Instruction::Concat(replacement_translator(a), input_translator(b)),
            Instruction::Take(a, b) => Instruction::Take(replacement_translator(a), input_translator(b)),
            Instruction::Drop(a, b) => Instruction::Drop(replacement_translator(a), input_translator(b)),
            Instruction::Reverse(a) => Instruction::Reverse(replacement_translator(a)),
            Instruction::Distinct(a) => Instruction::Distinct(replacement_translator(a)),
            Instruction::Sub(a, b, c) => Instruction::Sub(replacement_translator(a), input_translator(b), input_translator(c)),
            Instruction::Partition(a, b, c) => Instruction::Partition(output_translator(a), input_translator(b), input_translator(c)),
            Instruction::SteppedPartition(a, b, c) => Instruction::SteppedPartition(replacement_translator(a), input_translator(b), input_translator(c)),
            Instruction::Pad(a, b, c) => Instruction::Pad(replacement_translator(a), input_translator(b), input_translator(c)),
            Instruction::EmptyMap(a) => Instruction::EmptyMap(output_translator(a)),
            Instruction::Keys(a, b) => Instruction::Keys(output_translator(a), input_translator(b)),
            Instruction::Values(a, b) => Instruction::Values(output_translator(a), input_translator(b)),
            Instruction::Zip(a, b, c) => Instruction::Zip(output_translator(a), input_translator(b), input_translator(c)),
            Instruction::Invert(a) => Instruction::Invert(replacement_translator(a)),
            Instruction::Merge(a, b, c) => Instruction::Merge(output_translator(a), input_translator(b), input_translator(c)),
            Instruction::MergeWith(a, b, c) => Instruction::MergeWith(replacement_translator(a), input_translator(b), input_translator(c)),
            Instruction::MapKeys(a, b) => Instruction::MapKeys(replacement_translator(a), input_translator(b)),
            Instruction::MapValues(a, b) => Instruction::MapValues(replacement_translator(a), input_translator(b)),
            Instruction::SelectKeys(a, b) => Instruction::SelectKeys(replacement_translator(a), input_translator(b)),
            Instruction::EmptySet(a) => Instruction::EmptySet(output_translator(a)),
            Instruction::Union(a, b, c) => Instruction::Union(output_translator(a), input_translator(b), input_translator(c)),
            Instruction::Intersection(a, b, c) => Instruction::Intersection(output_translator(a), input_translator(b), input_translator(c)),
            Instruction::Difference(a, b, c) => Instruction::Difference(output_translator(a), input_translator(b), input_translator(c)),
            Instruction::SymmetricDifference(a, b, c) => Instruction::SymmetricDifference(output_translator(a), input_translator(b), input_translator(c)),
            Instruction::InfiniteRange(a) => Instruction::InfiniteRange(output_translator(a)),
            Instruction::UpperBoundedRange(a, b) => Instruction::UpperBoundedRange(output_translator(a), input_translator(b)),
            Instruction::LowerUpperBoundedRange(a, b, c) => Instruction::LowerUpperBoundedRange(output_translator(a), input_translator(b), input_translator(c)),
            Instruction::InfiniteRepeat(a, b) => Instruction::InfiniteRepeat(output_translator(a), input_translator(b)),
            Instruction::BoundedRepeat(a, b, c) => Instruction::BoundedRepeat(output_translator(a), input_translator(b), input_translator(c)),
            Instruction::InfiniteRepeatedly(a, b) => Instruction::InfiniteRepeatedly(output_translator(a), input_translator(b)),
            Instruction::BoundedRepeatedly(a, b, c) => Instruction::BoundedRepeatedly(output_translator(a), input_translator(b), input_translator(c)),
            Instruction::InfiniteIterate(a, b, c) => Instruction::InfiniteIterate(output_translator(a), input_translator(b), input_translator(c)),
            Instruction::BoundedIterate(a, b, c) => Instruction::BoundedIterate(replacement_translator(a), input_translator(b), input_translator(c)),
            Instruction::CreateCell(a) => Instruction::CreateCell(output_translator(a)),
            Instruction::GetCellValue(a, b) => Instruction::GetCellValue(output_translator(a), input_translator(b)),
            Instruction::SetCellValue(a, b) => Instruction::SetCellValue(output_translator(a), input_translator(b)),
            Instruction::UpdateCell(a, b) => Instruction::UpdateCell(output_translator(a), input_translator(b)),
            Instruction::CreateCoroutine(a) => Instruction::CreateCoroutine(replacement_translator(a)),
            Instruction::IsCoroutineAlive(a, b) => Instruction::IsCoroutineAlive(output_translator(a), input_translator(b)),
            Instruction::Yield(a) => Instruction::Yield(output_translator(a)),
            Instruction::YieldAndAccept(a, b, c) => Instruction::YieldAndAccept(output_translator(a), b, input_translator(c)),
            Instruction::IsNil(a, b) => Instruction::IsNil(output_translator(a), input_translator(b)),
            Instruction::IsBool(a, b) => Instruction::IsBool(output_translator(a), input_translator(b)),
            Instruction::IsChar(a, b) => Instruction::IsChar(output_translator(a), input_translator(b)),
            Instruction::IsNum(a, b) => Instruction::IsNum(output_translator(a), input_translator(b)),
            Instruction::IsInt(a, b) => Instruction::IsInt(output_translator(a), input_translator(b)),
            Instruction::IsFloat(a, b) => Instruction::IsFloat(output_translator(a), input_translator(b)),
            Instruction::IsSymbol(a, b) => Instruction::IsSymbol(output_translator(a), input_translator(b)),
            Instruction::IsString(a, b) => Instruction::IsString(output_translator(a), input_translator(b)),
            Instruction::IsList(a, b) => Instruction::IsList(output_translator(a), input_translator(b)),
            Instruction::IsMap(a, b) => Instruction::IsMap(output_translator(a), input_translator(b)),
            Instruction::IsSet(a, b) => Instruction::IsSet(output_translator(a), input_translator(b)),
            Instruction::IsCollection(a, b) => Instruction::IsCollection(output_translator(a), input_translator(b)),
            Instruction::IsFn(a, b) => Instruction::IsFn(output_translator(a), input_translator(b)),
            Instruction::IsError(a, b) => Instruction::IsError(output_translator(a), input_translator(b)),
            Instruction::IsCell(a, b) => Instruction::IsCell(output_translator(a), input_translator(b)),
            Instruction::IsCoroutine(a, b) => Instruction::IsCoroutine(output_translator(a), input_translator(b)),
            Instruction::ToBool(a, b) => Instruction::ToBool(output_translator(a), input_translator(b)),
            Instruction::ToChar(a, b) => Instruction::ToChar(output_translator(a), input_translator(b)),
            Instruction::ToNum(a, b) => Instruction::ToNum(output_translator(a), input_translator(b)),
            Instruction::ToInt(a, b) => Instruction::ToInt(output_translator(a), input_translator(b)),
            Instruction::ToFloat(a, b) => Instruction::ToFloat(output_translator(a), input_translator(b)),
            Instruction::ToSymbol(a, b) => Instruction::ToSymbol(output_translator(a), input_translator(b)),
            Instruction::ToString(a, b) => Instruction::ToString(output_translator(a), input_translator(b)),
            Instruction::ToList(a, b) => Instruction::ToList(output_translator(a), input_translator(b)),
            Instruction::ToMap(a, b) => Instruction::ToMap(output_translator(a), input_translator(b)),
            Instruction::ToSet(a, b) => Instruction::ToSet(output_translator(a), input_translator(b)),
            Instruction::ToError(a, b) => Instruction::ToError(output_translator(a), input_translator(b)),
        }
    }
}

/// Translating the registers of an instruction translates its register usages: where
/// `instruction` reports its usages and `translated` is it with every read register
/// related by `fi`, every written one by `fo` and every replaced one by `fr` to its
/// translation, `translated` reports its usages too, and they are the old ones, in order,
/// each related to its translation in the same way.
pub proof fn law_translation_maps_usages<I, O, R, NI, NO, NR>(
    instruction: Instruction<I, O, R>,
    translated: Instruction<NI, NO, NR>,
    fi: spec_fn(I, NI) -> bool,
    fo: spec_fn(O, NO) -> bool,
    fr: spec_fn(R, NR) -> bool,
)
    requires
        instruction.has_usages(),
        instruction.translated_into(translated, fi, fo, fr),
    ensures
        translated.has_usages(),
        translated.spec_inputs().len() == instruction.spec_inputs().len(),
        translated.spec_outputs().len() == instruction.spec_outputs().len(),
        translated.spec_replacements().len() == instruction.spec_replacements().len(),
        forall|k: int|
            0 <= k < instruction.spec_inputs().len() ==> fi(
                #[trigger] instruction.spec_inputs()[k],
                translated.spec_inputs()[k],
            ),
        forall|k: int|
            0 <= k < instruction.spec_outputs().len() ==> fo(
                #[trigger] instruction.spec_outputs()[k],
                translated.spec_outputs()[k],
            ),
        forall|k: int|
            0 <= k < instruction.spec_replacements().len() ==> fr(
                #[trigger] instruction.spec_replacements()[k],
                translated.spec_replacements()[k],
            ),
{
}

} // verus!
