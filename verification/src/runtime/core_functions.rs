use vstd::prelude::*;
use crate::text::str_equals;

verus! {

/// The functions built into the language, each of which a program can name.
#[derive(Debug, PartialEq, Eq, Structural, Hash, Clone, Copy)]
pub enum CoreFnId {
    Print,
    Apply,
    When,
    If,
    Partial,
    Compose,
    FindSome,
    Reduce,
    Memoize,
    Constantly,
    NumericalEqual,
    IsZero,
    IsNan,
    IsInf,
    IsEven,
    IsOdd,
    IsPos,
    IsNeg,
    Inc,
    Dec,
    Abs,
    Floor,
    Ceil,
    Sqrt,
    Exp,
    Exp2,
    Ln,
    Log2,
    Add,
    Subtract,
    Multiply,
    Divide,
    Pow,
    Mod,
    Quot,
    Min,
    Max,
    GreaterThan,
    GreaterThanOrEqual,
    LessThan,
    LessThanOrEqual,
    Rand,
    RandInt,
    Equal,
    NotEqual,
    Not,
    And,
    Or,
    Xor,
    IsEmpty,
    First,
    Count,
    Flatten,
    Remove,
    Filter,
    CollectionMap,
    CollectionSet,
    SetIn,
    Get,
    GetIn,
    Update,
    UpdateIn,
    MinKey,
    MaxKey,
    Push,
    Sort,
    SortBy,
    CreateList,
    Last,
    Rest,
    ButLast,
    Nth,
    NthFromLast,
    Cons,
    Concat,
    Take,
    Drop,
    Reverse,
    Distinct,
    Sub,
    Partition,
    Pad,
    CreateMap,
    Keys,
    Values,
    Zip,
    Invert,
    Merge,
    MergeWith,
    MapKeys,
    MapValues,
    SelectKeys,
    CreateSet,
    Union,
    Intersection,
    Difference,
    SymmetricDifference,
    Range,
    Repeat,
    Repeatedly,
    Iterate,
    IsNil,
    IsBool,
    IsChar,
    IsNum,
    IsInt,
    IsFloat,
    IsSymbol,
    IsString,
    IsList,
    IsMap,
    IsSet,
    IsCollection,
    IsFn,
    ToBool,
    ToChar,
    ToNum,
    ToInt,
    ToFloat,
    ToSymbol,
    ToString,
    ToList,
    ToMap,
    CreateCell,
    GetCellValue,
    SetCellValue,
    UpdateCell,
}

impl CoreFnId {
    /// Whether the function has a name by which programs refer to it.
    pub open spec fn is_named(self) -> bool {
        !(self is CreateCell || self is GetCellValue || self is SetCellValue || self is UpdateCell)
    }

    /// The name by which programs refer to the function.
    pub open spec fn spec_name(self) -> Seq<char>
        recommends
            self.is_named(),
    {
        match self {
            CoreFnId::Print => seq!['p', 'r', 'i', 'n', 't'],
            CoreFnId::Apply => seq!['a', 'p', 'p', 'l', 'y'],
            CoreFnId::When => seq!['w', 'h', 'e', 'n'],
            CoreFnId::If => seq!['i', 'f'],
            CoreFnId::Partial => seq!['p', 'a', 'r', 't', 'i', 'a', 'l'],
            CoreFnId::Compose => seq!['c', 'o', 'm', 'p', 'o', 's', 'e'],
            CoreFnId::FindSome => seq!['s', 'o', 'm', 'e'],
            CoreFnId::Reduce => seq!['r', 'e', 'd', 'u', 'c', 'e'],
            CoreFnId::Memoize => seq!['m', 'e', 'm', 'o', 'i', 'z', 'e'],
            CoreFnId::Constantly => seq!['c', 'o', 'n', 's', 't', 'a', 'n', 't', 'l', 'y'],
            CoreFnId::NumericalEqual => seq!['=', '='],
            CoreFnId::IsZero => seq!['z', 'e', 'r', 'o', '?'],
            CoreFnId::IsNan => seq!['n', 'a', 'n', '?'],
            CoreFnId::IsInf => seq!['i', 'n', 'f', '?'],
            CoreFnId::IsEven => seq!['e', 'v', 'e', 'n', '?'],
            CoreFnId::IsOdd => seq!['o', 'd', 'd', '?'],
            CoreFnId::IsPos => seq!['p', 'o', 's', '?'],
            CoreFnId::IsNeg => seq!['n', 'e', 'g', '?'],
            CoreFnId::Inc => seq!['i', 'n', 'c'],
            CoreFnId::Dec => seq!['d', 'e', 'c'],
            CoreFnId::Abs => seq!['a', 'b', 's'],
            CoreFnId::Floor => seq!['f', 'l', 'o', 'o', 'r'],
            CoreFnId::Ceil => seq!['c', 'e', 'i', 'l'],
            CoreFnId::Sqrt => seq!['s', 'q', 'r', 't'],
            CoreFnId::Exp => seq!['e', 'x', 'p'],
            CoreFnId::Exp2 => seq!['e', 'x', 'p', '2'],
            CoreFnId::Ln => seq!['l', 'n'],
            CoreFnId::Log2 => seq!['l', 'o', 'g', '2'],
            CoreFnId::Add => seq!['+'],
            CoreFnId::Subtract => seq!['-'],
            CoreFnId::Multiply => seq!['*'],
            CoreFnId::Divide => seq!['/'],
            CoreFnId::Pow => seq!['p', 'o', 'w'],
            CoreFnId::Mod => seq!['m', 'o', 'd'],
            CoreFnId::Quot => seq!['q', 'u', 'o', 't'],
            CoreFnId::Min => seq!['m', 'i', 'n'],
            CoreFnId::Max => seq!['m', 'a', 'x'],
            CoreFnId::GreaterThan => seq!['>'],
            CoreFnId::GreaterThanOrEqual => seq!['>', '='],
            CoreFnId::LessThan => seq!['<'],
            CoreFnId::LessThanOrEqual => seq!['<', '='],
            CoreFnId::Rand => seq!['r', 'a', 'n', 'd'],
            CoreFnId::RandInt => seq!['r', 'a', 'n', 'd', '-', 'i', 'n', 't'],
            CoreFnId::Equal => seq!['='],
            CoreFnId::NotEqual => seq!['n', 'o', 't', '='],
            CoreFnId::Not => seq!['n', 'o', 't'],
            CoreFnId::And => seq!['a', 'n', 'd'],
            CoreFnId::Or => seq!['o', 'r'],
            CoreFnId::Xor => seq!['x', 'o', 'r'],
            CoreFnId::IsEmpty => seq!['e', 'm', 'p', 't', 'y', '?'],
            CoreFnId::First => seq!['f', 'i', 'r', 's', 't'],
            CoreFnId::Count => seq!['c', 'o', 'u', 'n', 't'],
            CoreFnId::Flatten => seq!['f', 'l', 'a', 't', 't', 'e', 'n'],
            CoreFnId::Remove => seq!['r', 'e', 'm', 'o', 'v', 'e'],
            CoreFnId::Filter => seq!['f', 'i', 'l', 't', 'e', 'r'],
            CoreFnId::CollectionMap => seq!['m', 'a', 'p'],
            CoreFnId::CollectionSet => seq!['s', 'e', 't'],
            CoreFnId::SetIn => seq!['s', 'e', 't', '-', 'i', 'n'],
            CoreFnId::Get => seq!['g', 'e', 't'],
            CoreFnId::GetIn => seq!['g', 'e', 't', '-', 'i', 'n'],
            CoreFnId::Update => seq!['u', 'p', 'd', 'a', 't', 'e'],
            CoreFnId::UpdateIn => seq!['u', 'p', 'd', 'a', 't', 'e', '-', 'i', 'n'],
            CoreFnId::MinKey => seq!['m', 'i', 'n', '-', 'k', 'e', 'y'],
            CoreFnId::MaxKey => seq!['m', 'a', 'x', '-', 'k', 'e', 'y'],
            CoreFnId::Push => seq!['p', 'u', 's', 'h'],
            CoreFnId::Sort => seq!['s', 'o', 'r', 't'],
            CoreFnId::SortBy => seq!['s', 'o', 'r', 't', '-', 'b', 'y'],
            CoreFnId::CreateList => seq!['l', 'i', 's', 't'],
            CoreFnId::Last => seq!['l', 'a', 's', 't'],
            CoreFnId::Rest => seq!['r', 'e', 's', 't'],
            CoreFnId::ButLast => seq!['b', 'u', 't', 'l', 'a', 's', 't'],
            CoreFnId::Nth => seq!['n', 't', 'h'],
            CoreFnId::NthFromLast => seq!['n', 't', 'h', '-', 'f', 'r', 'o', 'm', '-', 'l', 'a', 's', 't'],
            CoreFnId::Cons => seq!['c', 'o', 'n', 's'],
            CoreFnId::Concat => seq!['c', 'o', 'n', 'c', 'a', 't'],
            CoreFnId::Take => seq!['t', 'a', 'k', 'e'],
            CoreFnId::Drop => seq!['d', 'r', 'o', 'p'],
            CoreFnId::Reverse => seq!['r', 'e', 'v', 'e', 'r', 's', 'e'],
            CoreFnId::Distinct => seq!['d', 'i', 's', 't', 'i', 'n', 'c', 't'],
            CoreFnId::Sub => seq!['s', 'u', 'b'],
            CoreFnId::Partition => seq!['p', 'a', 'r', 't', 'i', 't', 'i', 'o', 'n'],
            CoreFnId::Pad => seq!['p', 'a', 'd'],
            CoreFnId::CreateMap => seq!['h', 'a', 's', 'h', 'm', 'a', 'p'],
            CoreFnId::Keys => seq!['k', 'e', 'y', 's'],
            CoreFnId::Values => seq!['v', 'a', 'l', 's'],
            CoreFnId::Zip => seq!['z', 'i', 'p'],
            CoreFnId::Invert => seq!['i', 'n', 'v', 'e', 'r', 't'],
            CoreFnId::Merge => seq!['m', 'e', 'r', 'g', 'e'],
            CoreFnId::MergeWith => seq!['m', 'e', 'r', 'g', 'e', '-', 'w', 'i', 't', 'h'],
            CoreFnId::MapKeys => seq!['m', 'a', 'p', '-', 'k', 'e', 'y', 's'],
            CoreFnId::MapValues => seq!['m', 'a', 'p', '-', 'v', 'a', 'l', 's'],
            CoreFnId::SelectKeys => seq!['s', 'e', 'l', 'e', 'c', 't', '-', 'k', 'e', 'y', 's'],
            CoreFnId::CreateSet => seq!['h', 'a', 's', 'h', 's', 'e', 't'],
            CoreFnId::Union => seq!['u', 'n', 'i', 'o', 'n'],
            CoreFnId::Intersection => seq!['i', 'n', 't', 'e', 'r', 's', 'e', 'c', 't', 'i', 'o', 'n'],
            CoreFnId::Difference => seq!['d', 'i', 'f', 'f', 'e', 'r', 'e', 'n', 'c', 'e'],
            CoreFnId::SymmetricDifference => seq!['s', 'y', 'm', '-', 'd', 'i', 'f', 'f', 'e', 'r', 'e', 'n', 'c', 'e'],
            CoreFnId::Range => seq!['r', 'a', 'n', 'g', 'e'],
            CoreFnId::Repeat => seq!['r', 'e', 'p', 'e', 'a', 't'],
            CoreFnId::Repeatedly => seq!['r', 'e', 'p', 'e', 'a', 't', 'e', 'd', 'l', 'y'],
            CoreFnId::Iterate => seq!['i', 't', 'e', 'r', 'a', 't', 'e'],
            CoreFnId::IsNil => seq!['n', 'i', 'l', '?'],
            CoreFnId::IsBool => seq!['b', 'o', 'o', 'l', '?'],
            CoreFnId::IsChar => seq!['c', 'h', 'a', 'r', '?'],
            CoreFnId::IsNum => seq!['n', 'u', 'm', '?'],
            CoreFnId::IsInt => seq!['i', 'n', 't', '?'],
            CoreFnId::IsFloat => seq!['f', 'l', 'o', 'a', 't', '?'],
            CoreFnId::IsSymbol => seq!['s', 'y', 'm', 'b', 'o', 'l', '?'],
            CoreFnId::IsString => seq!['s', 't', 'r', '?'],
            CoreFnId::IsList => seq!['l', 'i', 's', 't', '?'],
            CoreFnId::IsMap => seq!['h', 'a', 's', 'h', 'm', 'a', 'p', '?'],
            CoreFnId::IsSet => seq!['h', 'a', 's', 'h', 's', 'e', 't', '?'],
            CoreFnId::IsCollection => seq!['c', 'o', 'l', 'l', 'e', 'c', 't', 'i', 'o', 'n', '?'],
            CoreFnId::IsFn => seq!['f', 'n', '?'],
            CoreFnId::ToBool => seq!['b', 'o', 'o', 'l'],
            CoreFnId::ToChar => seq!['c', 'h', 'a', 'r'],
            CoreFnId::ToNum => seq!['n', 'u', 'm'],
            CoreFnId::ToInt => seq!['i', 'n', 't'],
            CoreFnId::ToFloat => seq!['f', 'l', 'o', 'a', 't'],
            CoreFnId::ToSymbol => seq!['s', 'y', 'm', 'b', 'o', 'l'],
            CoreFnId::ToString => seq!['s', 't', 'r'],
            CoreFnId::ToList => seq!['t', 'o', '-', 'l', 'i', 's', 't'],
            CoreFnId::ToMap => seq!['t', 'o', '-', 'h', 'a', 's', 'h', 'm', 'a', 'p'],
            _ => Seq::empty(),
        }
    }

    /// The name by which programs refer to the function.
    pub fn name(&self) -> (name: &'static str)
        requires
            self.is_named(),
        ensures
            name@ == self.spec_name(),
    {
        match self {
            CoreFnId::Print => {
                proof {
                    reveal_strlit("print");
                }
                "print"
            },
            CoreFnId::Apply => {
                proof {
                    reveal_strlit("apply");
                }
                "apply"
            },
            CoreFnId::When => {
                proof {
                    reveal_strlit("when");
                }
                "when"
            },
            CoreFnId::If => {
                proof {
                    reveal_strlit("if");
                }
                "if"
            },
            CoreFnId::Partial => {
                proof {
                    reveal_strlit("partial");
                }
                "partial"
            },
            CoreFnId::Compose => {
                proof {
                    reveal_strlit("compose");
                }
                "compose"
            },
            CoreFnId::FindSome => {
                proof {
                    reveal_strlit("some");
                }
                "some"
            },
            CoreFnId::Reduce => {
                proof {
                    reveal_strlit("reduce");
                }
                "reduce"
            },
            CoreFnId::Memoize => {
                proof {
                    reveal_strlit("memoize");
                }
                "memoize"
            },
            CoreFnId::Constantly => {
                proof {
                    reveal_strlit("constantly");
                }
                "constantly"
            },
            CoreFnId::NumericalEqual => {
                proof {
                    reveal_strlit("==");
                }
                "=="
            },
            CoreFnId::IsZero => {
                proof {
                    reveal_strlit("zero?");
                }
                "zero?"
            },
            CoreFnId::IsNan => {
                proof {
                    reveal_strlit("nan?");
                }
                "nan?"
            },
            CoreFnId::IsInf => {
                proof {
                    reveal_strlit("inf?");
                }
                "inf?"
            },
            CoreFnId::IsEven => {
                proof {
                    reveal_strlit("even?");
                }
                "even?"
            },
            CoreFnId::IsOdd => {
                proof {
                    reveal_strlit("odd?");
                }
                "odd?"
            },
            CoreFnId::IsPos => {
                proof {
                    reveal_strlit("pos?");
                }
                "pos?"
            },
            CoreFnId::IsNeg => {
                proof {
                    reveal_strlit("neg?");
                }
                "neg?"
            },
            CoreFnId::Inc => {
                proof {
                    reveal_strlit("inc");
                }
                "inc"
            },
            CoreFnId::Dec => {
                proof {
                    reveal_strlit("dec");
                }
                "dec"
            },
            CoreFnId::Abs => {
                proof {
                    reveal_strlit("abs");
                }
                "abs"
            },
            CoreFnId::Floor => {
                proof {
                    reveal_strlit("floor");
                }
                "floor"
            },
            CoreFnId::Ceil => {
                proof {
                    reveal_strlit("ceil");
                }
                "ceil"
            },
            CoreFnId::Sqrt => {
                proof {
                    reveal_strlit("sqrt");
                }
                "sqrt"
            },
            CoreFnId::Exp => {
                proof {
                    reveal_strlit("exp");
                }
                "exp"
            },
            CoreFnId::Exp2 => {
                proof {
                    reveal_strlit("exp2");
                }
                "exp2"
            },
            CoreFnId::Ln => {
                proof {
                    reveal_strlit("ln");
                }
                "ln"
            },
            CoreFnId::Log2 => {
                proof {
                    reveal_strlit("log2");
                }
                "log2"
            },
            CoreFnId::Add => {
                proof {
                    reveal_strlit("+");
                }
                "+"
            },
            CoreFnId::Subtract => {
                proof {
                    reveal_strlit("-");
                }
                "-"
            },
            CoreFnId::Multiply => {
                proof {
                    reveal_strlit("*");
                }
                "*"
            },
            CoreFnId::Divide => {
                proof {
                    reveal_strlit("/");
                }
                "/"
            },
            CoreFnId::Pow => {
                proof {
                    reveal_strlit("pow");
                }
                "pow"
            },
            CoreFnId::Mod => {
                proof {
                    reveal_strlit("mod");
                }
                "mod"
            },
            CoreFnId::Quot => {
                proof {
                    reveal_strlit("quot");
                }
                "quot"
            },
            CoreFnId::Min => {
                proof {
                    reveal_strlit("min");
                }
                "min"
            },
            CoreFnId::Max => {
                proof {
                    reveal_strlit("max");
                }
                "max"
            },
            CoreFnId::GreaterThan => {
                proof {
                    reveal_strlit(">");
                }
                ">"
            },
            CoreFnId::GreaterThanOrEqual => {
                proof {
                    reveal_strlit(">=");
                }
                ">="
            },
            CoreFnId::LessThan => {
                proof {
                    reveal_strlit("<");
                }
                "<"
            },
            CoreFnId::LessThanOrEqual => {
                proof {
                    reveal_strlit("<=");
                }
                "<="
            },
            CoreFnId::Rand => {
                proof {
                    reveal_strlit("rand");
                }
                "rand"
            },
            CoreFnId::RandInt => {
                proof {
                    reveal_strlit("rand-int");
                }
                "rand-int"
            },
            CoreFnId::Equal => {
                proof {
                    reveal_strlit("=");
                }
                "="
            },
            CoreFnId::NotEqual => {
                proof {
                    reveal_strlit("not=");
                }
                "not="
            },
            CoreFnId::Not => {
                proof {
                    reveal_strlit("not");
                }
                "not"
            },
            CoreFnId::And => {
                proof {
                    reveal_strlit("and");
                }
                "and"
            },
            CoreFnId::Or => {
                proof {
                    reveal_strlit("or");
                }
                "or"
            },
            CoreFnId::Xor => {
                proof {
                    reveal_strlit("xor");
                }
                "xor"
            },
            CoreFnId::IsEmpty => {
                proof {
                    reveal_strlit("empty?");
                }
                "empty?"
            },
            CoreFnId::First => {
                proof {
                    reveal_strlit("first");
                }
                "first"
            },
            CoreFnId::Count => {
                proof {
                    reveal_strlit("count");
                }
                "count"
            },
            CoreFnId::Flatten => {
                proof {
                    reveal_strlit("flatten");
                }
                "flatten"
            },
            CoreFnId::Remove => {
                proof {
                    reveal_strlit("remove");
                }
                "remove"
            },
            CoreFnId::Filter => {
                proof {
                    reveal_strlit("filter");
                }
                "filter"
            },
            CoreFnId::CollectionMap => {
                proof {
                    reveal_strlit("map");
                }
                "map"
            },
            CoreFnId::CollectionSet => {
                proof {
                    reveal_strlit("set");
                }
                "set"
            },
            CoreFnId::SetIn => {
                proof {
                    reveal_strlit("set-in");
                }
                "set-in"
            },
            CoreFnId::Get => {
                proof {
                    reveal_strlit("get");
                }
                "get"
            },
            CoreFnId::GetIn => {
                proof {
                    reveal_strlit("get-in");
                }
                "get-in"
            },
            CoreFnId::Update => {
                proof {
                    reveal_strlit("update");
                }
                "update"
            },
            CoreFnId::UpdateIn => {
                proof {
                    reveal_strlit("update-in");
                }
                "update-in"
            },
            CoreFnId::MinKey => {
                proof {
                    reveal_strlit("min-key");
                }
                "min-key"
            },
            CoreFnId::MaxKey => {
                proof {
                    reveal_strlit("max-key");
                }
                "max-key"
            },
            CoreFnId::Push => {
                proof {
                    reveal_strlit("push");
                }
                "push"
            },
            CoreFnId::Sort => {
                proof {
                    reveal_strlit("sort");
                }
                "sort"
            },
            CoreFnId::SortBy => {
                proof {
                    reveal_strlit("sort-by");
                }
                "sort-by"
            },
            CoreFnId::CreateList => {
                proof {
                    reveal_strlit("list");
                }
                "list"
            },
            CoreFnId::Last => {
                proof {
                    reveal_strlit("last");
                }
                "last"
            },
            CoreFnId::Rest => {
                proof {
                    reveal_strlit("rest");
                }
                "rest"
            },
            CoreFnId::ButLast => {
                proof {
                    reveal_strlit("butlast");
                }
                "butlast"
            },
            CoreFnId::Nth => {
                proof {
                    reveal_strlit("nth");
                }
                "nth"
            },
            CoreFnId::NthFromLast => {
                proof {
                    reveal_strlit("nth-from-last");
                }
                "nth-from-last"
            },
            CoreFnId::Cons => {
                proof {
                    reveal_strlit("cons");
                }
                "cons"
            },
            CoreFnId::Concat => {
                proof {
                    reveal_strlit("concat");
                }
                "concat"
            },
            CoreFnId::Take => {
                proof {
                    reveal_strlit("take");
                }
                "take"
            },
            CoreFnId::Drop => {
                proof {
                    reveal_strlit("drop");
                }
                "drop"
            },
            CoreFnId::Reverse => {
                proof {
                    reveal_strlit("reverse");
                }
                "reverse"
            },
            CoreFnId::Distinct => {
                proof {
                    reveal_strlit("distinct");
                }
                "distinct"
            },
            CoreFnId::Sub => {
                proof {
                    reveal_strlit("sub");
                }
                "sub"
            },
            CoreFnId::Partition => {
                proof {
                    reveal_strlit("partition");
                }
                "partition"
            },
            CoreFnId::Pad => {
                proof {
                    reveal_strlit("pad");
                }
                "pad"
            },
            CoreFnId::CreateMap => {
                proof {
                    reveal_strlit("hashmap");
                }
                "hashmap"
            },
            CoreFnId::Keys => {
                proof {
                    reveal_strlit("keys");
                }
                "keys"
            },
            CoreFnId::Values => {
                proof {
                    reveal_strlit("vals");
                }
                "vals"
            },
            CoreFnId::Zip => {
                proof {
                    reveal_strlit("zip");
                }
                "zip"
            },
            CoreFnId::Invert => {
                proof {
                    reveal_strlit("invert");
                }
                "invert"
            },
            CoreFnId::Merge => {
                proof {
                    reveal_strlit("merge");
                }
                "merge"
            },
            CoreFnId::MergeWith => {
                proof {
                    reveal_strlit("merge-with");
                }
                "merge-with"
            },
            CoreFnId::MapKeys => {
                proof {
                    reveal_strlit("map-keys");
                }
                "map-keys"
            },
            CoreFnId::MapValues => {
                proof {
                    reveal_strlit("map-vals");
                }
                "map-vals"
            },
            CoreFnId::SelectKeys => {
                proof {
                    reveal_strlit("select-keys");
                }
                "select-keys"
            },
            CoreFnId::CreateSet => {
                proof {
                    reveal_strlit("hashset");
                }
                "hashset"
            },
            CoreFnId::Union => {
                proof {
                    reveal_strlit("union");
                }
                "union"
            },
            CoreFnId::Intersection => {
                proof {
                    reveal_strlit("intersection");
                }
                "intersection"
            },
            CoreFnId::Difference => {
                proof {
                    reveal_strlit("difference");
                }
                "difference"
            },
            CoreFnId::SymmetricDifference => {
                proof {
                    reveal_strlit("sym-difference");
                }
                "sym-difference"
            },
            CoreFnId::Range => {
                proof {
                    reveal_strlit("range");
                }
                "range"
            },
            CoreFnId::Repeat => {
                proof {
                    reveal_strlit("repeat");
                }
                "repeat"
            },
            CoreFnId::Repeatedly => {
                proof {
                    reveal_strlit("repeatedly");
                }
                "repeatedly"
            },
            CoreFnId::Iterate => {
                proof {
                    reveal_strlit("iterate");
                }
                "iterate"
            },
            CoreFnId::IsNil => {
                proof {
                    reveal_strlit("nil?");
                }
                "nil?"
            },
            CoreFnId::IsBool => {
                proof {
                    reveal_strlit("bool?");
                }
                "bool?"
            },
            CoreFnId::IsChar => {
                proof {
                    reveal_strlit("char?");
                }
                "char?"
            },
            CoreFnId::IsNum => {
                proof {
                    reveal_strlit("num?");
                }
                "num?"
            },
            CoreFnId::IsInt => {
                proof {
                    reveal_strlit("int?");
                }
                "int?"
            },
            CoreFnId::IsFloat => {
                proof {
                    reveal_strlit("float?");
                }
                "float?"
            },
            CoreFnId::IsSymbol => {
                proof {
                    reveal_strlit("symbol?");
                }
                "symbol?"
            },
            CoreFnId::IsString => {
                proof {
                    reveal_strlit("str?");
                }
                "str?"
            },
            CoreFnId::IsList => {
                proof {
                    reveal_strlit("list?");
                }
                "list?"
            },
            CoreFnId::IsMap => {
                proof {
                    reveal_strlit("hashmap?");
                }
                "hashmap?"
            },
            CoreFnId::IsSet => {
                proof {
                    reveal_strlit("hashset?");
                }
                "hashset?"
            },
            CoreFnId::IsCollection => {
                proof {
                    reveal_strlit("collection?");
                }
                "collection?"
            },
            CoreFnId::IsFn => {
                proof {
                    reveal_strlit("fn?");
                }
                "fn?"
            },
            CoreFnId::ToBool => {
                proof {
                    reveal_strlit("bool");
                }
                "bool"
            },
            CoreFnId::ToChar => {
                proof {
                    reveal_strlit("char");
                }
                "char"
            },
            CoreFnId::ToNum => {
                proof {
                    reveal_strlit("num");
                }
                "num"
            },
            CoreFnId::ToInt => {
                proof {
                    reveal_strlit("int");
                }
                "int"
            },
            CoreFnId::ToFloat => {
                proof {
                    reveal_strlit("float");
                }
                "float"
            },
            CoreFnId::ToSymbol => {
                proof {
                    reveal_strlit("symbol");
                }
                "symbol"
            },
            CoreFnId::ToString => {
                proof {
                    reveal_strlit("str");
                }
                "str"
            },
            CoreFnId::ToList => {
                proof {
                    reveal_strlit("to-list");
                }
                "to-list"
            },
            CoreFnId::ToMap => {
                proof {
                    reveal_strlit("to-hashmap");
                }
                "to-hashmap"
            },
            _ => {
                proof {
                    assert(false);
                }
                ""
            },
        }
    }
}

/// The function that `name` names, if any. Names are compared among those of the same
/// length, in the order of the functions.
pub open spec fn spec_from_name(name: Seq<char>) -> Option<CoreFnId> {
    if name.len() == 1 {
        if name == seq!['+'] {
            Some(CoreFnId::Add)
        } else if name == seq!['-'] {
            Some(CoreFnId::Subtract)
        } else if name == seq!['*'] {
            Some(CoreFnId::Multiply)
        } else if name == seq!['/'] {
            Some(CoreFnId::Divide)
        } else if name == seq!['>'] {
            Some(CoreFnId::GreaterThan)
        } else if name == seq!['<'] {
            Some(CoreFnId::LessThan)
        } else if name == seq!['='] {
            Some(CoreFnId::Equal)
        } else {
            None
        }
    } else if name.len() == 2 {
        if name == seq!['i', 'f'] {
            Some(CoreFnId::If)
        } else if name == seq!['=', '='] {
            Some(CoreFnId::NumericalEqual)
        } else if name == seq!['l', 'n'] {
            Some(CoreFnId::Ln)
        } else if name == seq!['>', '='] {
            Some(CoreFnId::GreaterThanOrEqual)
        } else if name == seq!['<', '='] {
            Some(CoreFnId::LessThanOrEqual)
        } else if name == seq!['o', 'r'] {
            Some(CoreFnId::Or)
        } else {
            None
        }
    } else if name.len() == 3 {
        if name == seq!['i', 'n', 'c'] {
            Some(CoreFnId::Inc)
        } else if name == seq!['d', 'e', 'c'] {
            Some(CoreFnId::Dec)
        } else if name == seq!['a', 'b', 's'] {
            Some(CoreFnId::Abs)
        } else if name == seq!['e', 'x', 'p'] {
            Some(CoreFnId::Exp)
        } else if name == seq!['p', 'o', 'w'] {
            Some(CoreFnId::Pow)
        } else if name == seq!['m', 'o', 'd'] {
            Some(CoreFnId::Mod)
        } else if name == seq!['m', 'i', 'n'] {
            Some(CoreFnId::Min)
        } else if name == seq!['m', 'a', 'x'] {
            Some(CoreFnId::Max)
        } else if name == seq!['n', 'o', 't'] {
            Some(CoreFnId::Not)
        } else if name == seq!['a', 'n', 'd'] {
            Some(CoreFnId::And)
        } else if name == seq!['x', 'o', 'r'] {
            Some(CoreFnId::Xor)
        } else if name == seq!['m', 'a', 'p'] {
            Some(CoreFnId::CollectionMap)
        } else if name == seq!['s', 'e', 't'] {
            Some(CoreFnId::CollectionSet)
        } else if name == seq!['g', 'e', 't'] {
            Some(CoreFnId::Get)
        } else if name == seq!['n', 't', 'h'] {
            Some(CoreFnId::Nth)
        } else if name == seq!['s', 'u', 'b'] {
            Some(CoreFnId::Sub)
        } else if name == seq!['p', 'a', 'd'] {
            Some(CoreFnId::Pad)
        } else if name == seq!['z', 'i', 'p'] {
            Some(CoreFnId::Zip)
        } else if name == seq!['f', 'n', '?'] {
            Some(CoreFnId::IsFn)
        } else if name == seq!['n', 'u', 'm'] {
            Some(CoreFnId::ToNum)
        } else if name == seq!['i', 'n', 't'] {
            Some(CoreFnId::ToInt)
        } else if name == seq!['s', 't', 'r'] {
            Some(CoreFnId::ToString)
        } else {
            None
        }
    } else if name.len() == 4 {
        if name == seq!['w', 'h', 'e', 'n'] {
            Some(CoreFnId::When)
        } else if name == seq!['s', 'o', 'm', 'e'] {
            Some(CoreFnId::FindSome)
        } else if name == seq!['n', 'a', 'n', '?'] {
            Some(CoreFnId::IsNan)
        } else if name == seq!['i', 'n', 'f', '?'] {
            Some(CoreFnId::IsInf)
        } else if name == seq!['o', 'd', 'd', '?'] {
            Some(CoreFnId::IsOdd)
        } else if name == seq!['p', 'o', 's', '?'] {
            Some(CoreFnId::IsPos)
        } else if name == seq!['n', 'e', 'g', '?'] {
            Some(CoreFnId::IsNeg)
        } else if name == seq!['c', 'e', 'i', 'l'] {
            Some(CoreFnId::Ceil)
        } else if name == seq!['s', 'q', 'r', 't'] {
            Some(CoreFnId::Sqrt)
        } else if name == seq!['e', 'x', 'p', '2'] {
            Some(CoreFnId::Exp2)
        } else if name == seq!['l', 'o', 'g', '2'] {
            Some(CoreFnId::Log2)
        } else if name == seq!['q', 'u', 'o', 't'] {
            Some(CoreFnId::Quot)
        } else if name == seq!['r', 'a', 'n', 'd'] {
            Some(CoreFnId::Rand)
        } else if name == seq!['n', 'o', 't', '='] {
            Some(CoreFnId::NotEqual)
        } else if name == seq!['p', 'u', 's', 'h'] {
            Some(CoreFnId::Push)
        } else if name == seq!['s', 'o', 'r', 't'] {
            Some(CoreFnId::Sort)
        } else if name == seq!['l', 'i', 's', 't'] {
            Some(CoreFnId::CreateList)
        } else if name == seq!['l', 'a', 's', 't'] {
            Some(CoreFnId::Last)
        } else if name == seq!['r', 'e', 's', 't'] {
            Some(CoreFnId::Rest)
        } else if name == seq!['c', 'o', 'n', 's'] {
            Some(CoreFnId::Cons)
        } else if name == seq!['t', 'a', 'k', 'e'] {
            Some(CoreFnId::Take)
        } else if name == seq!['d', 'r', 'o', 'p'] {
            Some(CoreFnId::Drop)
        } else if name == seq!['k', 'e', 'y', 's'] {
            Some(CoreFnId::Keys)
        } else if name == seq!['v', 'a', 'l', 's'] {
            Some(CoreFnId::Values)
        } else if name == seq!['n', 'i', 'l', '?'] {
            Some(CoreFnId::IsNil)
        } else if name == seq!['n', 'u', 'm', '?'] {
            Some(CoreFnId::IsNum)
        } else if name == seq!['i', 'n', 't', '?'] {
            Some(CoreFnId::IsInt)
        } else if name == seq!['s', 't', 'r', '?'] {
            Some(CoreFnId::IsString)
        } else if name == seq!['b', 'o', 'o', 'l'] {
            Some(CoreFnId::ToBool)
        } else if name == seq!['c', 'h', 'a', 'r'] {
            Some(CoreFnId::ToChar)
        } else {
            None
        }
    } else if name.len() == 5 {
        if name == seq!['p', 'r', 'i', 'n', 't'] {
            Some(CoreFnId::Print)
        } else if name == seq!['a', 'p', 'p', 'l', 'y'] {
            Some(CoreFnId::Apply)
        } else if name == seq!['z', 'e', 'r', 'o', '?'] {
            Some(CoreFnId::IsZero)
        } else if name == seq!['e', 'v', 'e', 'n', '?'] {
            Some(CoreFnId::IsEven)
        } else if name == seq!['f', 'l', 'o', 'o', 'r'] {
            Some(CoreFnId::Floor)
        } else if name == seq!['f', 'i', 'r', 's', 't'] {
            Some(CoreFnId::First)
        } else if name == seq!['c', 'o', 'u', 'n', 't'] {
            Some(CoreFnId::Count)
        } else if name == seq!['m', 'e', 'r', 'g', 'e'] {
            Some(CoreFnId::Merge)
        } else if name == seq!['u', 'n', 'i', 'o', 'n'] {
            Some(CoreFnId::Union)
        } else if name == seq!['r', 'a', 'n', 'g', 'e'] {
            Some(CoreFnId::Range)
        } else if name == seq!['b', 'o', 'o', 'l', '?'] {
            Some(CoreFnId::IsBool)
        } else if name == seq!['c', 'h', 'a', 'r', '?'] {
            Some(CoreFnId::IsChar)
        } else if name == seq!['l', 'i', 's', 't', '?'] {
            Some(CoreFnId::IsList)
        } else if name == seq!['f', 'l', 'o', 'a', 't'] {
            Some(CoreFnId::ToFloat)
        } else {
            None
        }
    } else if name.len() == 6 {
        if name == seq!['r', 'e', 'd', 'u', 'c', 'e'] {
            Some(CoreFnId::Reduce)
        } else if name == seq!['e', 'm', 'p', 't', 'y', '?'] {
            Some(CoreFnId::IsEmpty)
        } else if name == seq!['r', 'e', 'm', 'o', 'v', 'e'] {
            Some(CoreFnId::Remove)
        } else if name == seq!['f', 'i', 'l', 't', 'e', 'r'] {
            Some(CoreFnId::Filter)
        } else if name == seq!['s', 'e', 't', '-', 'i', 'n'] {
            Some(CoreFnId::SetIn)
        } else if name == seq!['g', 'e', 't', '-', 'i', 'n'] {
            Some(CoreFnId::GetIn)
        } else if name == seq!['u', 'p', 'd', 'a', 't', 'e'] {
            Some(CoreFnId::Update)
        } else if name == seq!['c', 'o', 'n', 'c', 'a', 't'] {
            Some(CoreFnId::Concat)
        } else if name == seq!['i', 'n', 'v', 'e', 'r', 't'] {
            Some(CoreFnId::Invert)
        } else if name == seq!['r', 'e', 'p', 'e', 'a', 't'] {
            Some(CoreFnId::Repeat)
        } else if name == seq!['f', 'l', 'o', 'a', 't', '?'] {
            Some(CoreFnId::IsFloat)
        } else if name == seq!['s', 'y', 'm', 'b', 'o', 'l'] {
            Some(CoreFnId::ToSymbol)
        } else {
            None
        }
    } else if name.len() == 7 {
        if name == seq!['p', 'a', 'r', 't', 'i', 'a', 'l'] {
            Some(CoreFnId::Partial)
        } else if name == seq!['c', 'o', 'm', 'p', 'o', 's', 'e'] {
            Some(CoreFnId::Compose)
        } else if name == seq!['m', 'e', 'm', 'o', 'i', 'z', 'e'] {
            Some(CoreFnId::Memoize)
        } else if name == seq!['f', 'l', 'a', 't', 't', 'e', 'n'] {
            Some(CoreFnId::Flatten)
        } else if name == seq!['m', 'i', 'n', '-', 'k', 'e', 'y'] {
            Some(CoreFnId::MinKey)
        } else if name == seq!['m', 'a', 'x', '-', 'k', 'e', 'y'] {
            Some(CoreFnId::MaxKey)
        } else if name == seq!['s', 'o', 'r', 't', '-', 'b', 'y'] {
            Some(CoreFnId::SortBy)
        } else if name == seq!['b', 'u', 't', 'l', 'a', 's', 't'] {
            Some(CoreFnId::ButLast)
        } else if name == seq!['r', 'e', 'v', 'e', 'r', 's', 'e'] {
            Some(CoreFnId::Reverse)
        } else if name == seq!['h', 'a', 's', 'h', 'm', 'a', 'p'] {
            Some(CoreFnId::CreateMap)
        } else if name == seq!['h', 'a', 's', 'h', 's', 'e', 't'] {
            Some(CoreFnId::CreateSet)
        } else if name == seq!['i', 't', 'e', 'r', 'a', 't', 'e'] {
            Some(CoreFnId::Iterate)
        } else if name == seq!['s', 'y', 'm', 'b', 'o', 'l', '?'] {
            Some(CoreFnId::IsSymbol)
        } else if name == seq!['t', 'o', '-', 'l', 'i', 's', 't'] {
            Some(CoreFnId::ToList)
        } else {
            None
        }
    } else if name.len() == 8 {
        if name == seq!['r', 'a', 'n', 'd', '-', 'i', 'n', 't'] {
            Some(CoreFnId::RandInt)
        } else if name == seq!['d', 'i', 's', 't', 'i', 'n', 'c', 't'] {
            Some(CoreFnId::Distinct)
        } else if name == seq!['m', 'a', 'p', '-', 'k', 'e', 'y', 's'] {
            Some(CoreFnId::MapKeys)
        } else if name == seq!['m', 'a', 'p', '-', 'v', 'a', 'l', 's'] {
            Some(CoreFnId::MapValues)
        } else if name == seq!['h', 'a', 's', 'h', 'm', 'a', 'p', '?'] {
            Some(CoreFnId::IsMap)
        } else if name == seq!['h', 'a', 's', 'h', 's', 'e', 't', '?'] {
            Some(CoreFnId::IsSet)
        } else {
            None
        }
    } else if name.len() == 9 {
        if name == seq!['u', 'p', 'd', 'a', 't', 'e', '-', 'i', 'n'] {
            Some(CoreFnId::UpdateIn)
        } else if name == seq!['p', 'a', 'r', 't', 'i', 't', 'i', 'o', 'n'] {
            Some(CoreFnId::Partition)
        } else {
            None
        }
    } else if name.len() == 10 {
        if name == seq!['c', 'o', 'n', 's', 't', 'a', 'n', 't', 'l', 'y'] {
            Some(CoreFnId::Constantly)
        } else if name == seq!['m', 'e', 'r', 'g', 'e', '-', 'w', 'i', 't', 'h'] {
            Some(CoreFnId::MergeWith)
        } else if name == seq!['d', 'i', 'f', 'f', 'e', 'r', 'e', 'n', 'c', 'e'] {
            Some(CoreFnId::Difference)
        } else if name == seq!['r', 'e', 'p', 'e', 'a', 't', 'e', 'd', 'l', 'y'] {
            Some(CoreFnId::Repeatedly)
        } else if name == seq!['t', 'o', '-', 'h', 'a', 's', 'h', 'm', 'a', 'p'] {
            Some(CoreFnId::ToMap)
        } else {
            None
        }
    } else if name.len() == 11 {
        if name == seq!['s', 'e', 'l', 'e', 'c', 't', '-', 'k', 'e', 'y', 's'] {
            Some(CoreFnId::SelectKeys)
        } else if name == seq!['c', 'o', 'l', 'l', 'e', 'c', 't', 'i', 'o', 'n', '?'] {
            Some(CoreFnId::IsCollection)
        } else {
            None
        }
    } else if name.len() == 12 {
        if name == seq!['i', 'n', 't', 'e', 'r', 's', 'e', 'c', 't', 'i', 'o', 'n'] {
            Some(CoreFnId::Intersection)
        } else {
            None
        }
    } else if name.len() == 13 {
        if name == seq!['n', 't', 'h', '-', 'f', 'r', 'o', 'm', '-', 'l', 'a', 's', 't'] {
            Some(CoreFnId::NthFromLast)
        } else {
            None
        }
    } else if name.len() == 14 {
        if name == seq!['s', 'y', 'm', '-', 'd', 'i', 'f', 'f', 'e', 'r', 'e', 'n', 'c', 'e'] {
            Some(CoreFnId::SymmetricDifference)
        } else {
            None
        }
    } else {
        None
    }
}

impl CoreFnId {
    /// The function that `name` names, if any.
    pub fn from_name(name: &str) -> (id: Option<CoreFnId>)
        ensures
            id == spec_from_name(name@),
    {
        proof {
            reveal_strlit("print");
            assert("print"@ =~= seq!['p', 'r', 'i', 'n', 't']);
        }
        if str_equals(name, "print") {
            return Some(CoreFnId::Print);
        }
        proof {
            reveal_strlit("apply");
            assert("apply"@ =~= seq!['a', 'p', 'p', 'l', 'y']);
        }
        if str_equals(name, "apply") {
            return Some(CoreFnId::Apply);
        }
        proof {
            reveal_strlit("when");
            assert("when"@ =~= seq!['w', 'h', 'e', 'n']);
        }
        if str_equals(name, "when") {
            return Some(CoreFnId::When);
        }
        proof {
            reveal_strlit("if");
            assert("if"@ =~= seq!['i', 'f']);
        }
        if str_equals(name, "if") {
            return Some(CoreFnId::If);
        }
        proof {
            reveal_strlit("partial");
            assert("partial"@ =~= seq!['p', 'a', 'r', 't', 'i', 'a', 'l']);
        }
        if str_equals(name, "partial") {
            return Some(CoreFnId::Partial);
        }
        proof {
            reveal_strlit("compose");
            assert("compose"@ =~= seq!['c', 'o', 'm', 'p', 'o', 's', 'e']);
        }
        if str_equals(name, "compose") {
            return Some(CoreFnId::Compose);
        }
        proof {
            reveal_strlit("some");
            assert("some"@ =~= seq!['s', 'o', 'm', 'e']);
        }
        if str_equals(name, "some") {
            return Some(CoreFnId::FindSome);
        }
        proof {
            reveal_strlit("reduce");
            assert("reduce"@ =~= seq!['r', 'e', 'd', 'u', 'c', 'e']);
        }
        if str_equals(name, "reduce") {
            return Some(CoreFnId::Reduce);
        }
        proof {
            reveal_strlit("memoize");
            assert("memoize"@ =~= seq!['m', 'e', 'm', 'o', 'i', 'z', 'e']);
        }
        if str_equals(name, "memoize") {
            return Some(CoreFnId::Memoize);
        }
        proof {
            reveal_strlit("constantly");
            assert("constantly"@ =~= seq!['c', 'o', 'n', 's', 't', 'a', 'n', 't', 'l', 'y']);
        }
        if str_equals(name, "constantly") {
            return Some(CoreFnId::Constantly);
        }
        proof {
            reveal_strlit("==");
            assert("=="@ =~= seq!['=', '=']);
        }
        if str_equals(name, "==") {
            return Some(CoreFnId::NumericalEqual);
        }
        proof {
            reveal_strlit("zero?");
            assert("zero?"@ =~= seq!['z', 'e', 'r', 'o', '?']);
        }
        if str_equals(name, "zero?") {
            return Some(CoreFnId::IsZero);
        }
        proof {
            reveal_strlit("nan?");
            assert("nan?"@ =~= seq!['n', 'a', 'n', '?']);
        }
        if str_equals(name, "nan?") {
            return Some(CoreFnId::IsNan);
        }
        proof {
            reveal_strlit("inf?");
            assert("inf?"@ =~= seq!['i', 'n', 'f', '?']);
        }
        if str_equals(name, "inf?") {
            return Some(CoreFnId::IsInf);
        }
        proof {
            reveal_strlit("even?");
            assert("even?"@ =~= seq!['e', 'v', 'e', 'n', '?']);
        }
        if str_equals(name, "even?") {
            return Some(CoreFnId::IsEven);
        }
        proof {
            reveal_strlit("odd?");
            assert("odd?"@ =~= seq!['o', 'd', 'd', '?']);
        }
        if str_equals(name, "odd?") {
            return Some(CoreFnId::IsOdd);
        }
        proof {
            reveal_strlit("pos?");
            assert("pos?"@ =~= seq!['p', 'o', 's', '?']);
        }
        if str_equals(name, "pos?") {
            return Some(CoreFnId::IsPos);
        }
        proof {
            reveal_strlit("neg?");
            assert("neg?"@ =~= seq!['n', 'e', 'g', '?']);
        }
        if str_equals(name, "neg?") {
            return Some(CoreFnId::IsNeg);
        }
        proof {
            reveal_strlit("inc");
            assert("inc"@ =~= seq!['i', 'n', 'c']);
        }
        if str_equals(name, "inc") {
            return Some(CoreFnId::Inc);
        }
        proof {
            reveal_strlit("dec");
            assert("dec"@ =~= seq!['d', 'e', 'c']);
        }
        if str_equals(name, "dec") {
            return Some(CoreFnId::Dec);
        }
        proof {
            reveal_strlit("abs");
            assert("abs"@ =~= seq!['a', 'b', 's']);
        }
        if str_equals(name, "abs") {
            return Some(CoreFnId::Abs);
        }
        proof {
            reveal_strlit("floor");
            assert("floor"@ =~= seq!['f', 'l', 'o', 'o', 'r']);
        }
        if str_equals(name, "floor") {
            return Some(CoreFnId::Floor);
        }
        proof {
            reveal_strlit("ceil");
            assert("ceil"@ =~= seq!['c', 'e', 'i', 'l']);
        }
        if str_equals(name, "ceil") {
            return Some(CoreFnId::Ceil);
        }
        proof {
            reveal_strlit("sqrt");
            assert("sqrt"@ =~= seq!['s', 'q', 'r', 't']);
        }
        if str_equals(name, "sqrt") {
            return Some(CoreFnId::Sqrt);
        }
        proof {
            reveal_strlit("exp");
            assert("exp"@ =~= seq!['e', 'x', 'p']);
        }
        if str_equals(name, "exp") {
            return Some(CoreFnId::Exp);
        }
        proof {
            reveal_strlit("exp2");
            assert("exp2"@ =~= seq!['e', 'x', 'p', '2']);
        }
        if str_equals(name, "exp2") {
            return Some(CoreFnId::Exp2);
        }
        proof {
            reveal_strlit("ln");
            assert("ln"@ =~= seq!['l', 'n']);
        }
        if str_equals(name, "ln") {
            return Some(CoreFnId::Ln);
        }
        proof {
            reveal_strlit("log2");
            assert("log2"@ =~= seq!['l', 'o', 'g', '2']);
        }
        if str_equals(name, "log2") {
            return Some(CoreFnId::Log2);
        }
        proof {
            reveal_strlit("+");
            assert("+"@ =~= seq!['+']);
        }
        if str_equals(name, "+") {
            return Some(CoreFnId::Add);
        }
        proof {
            reveal_strlit("-");
            assert("-"@ =~= seq!['-']);
        }
        if str_equals(name, "-") {
            return Some(CoreFnId::Subtract);
        }
        proof {
            reveal_strlit("*");
            assert("*"@ =~= seq!['*']);
        }
        if str_equals(name, "*") {
            return Some(CoreFnId::Multiply);
        }
        proof {
            reveal_strlit("/");
            assert("/"@ =~= seq!['/']);
        }
        if str_equals(name, "/") {
            return Some(CoreFnId::Divide);
        }
        proof {
            reveal_strlit("pow");
            assert("pow"@ =~= seq!['p', 'o', 'w']);
        }
        if str_equals(name, "pow") {
            return Some(CoreFnId::Pow);
        }
        proof {
            reveal_strlit("mod");
            assert("mod"@ =~= seq!['m', 'o', 'd']);
        }
        if str_equals(name, "mod") {
            return Some(CoreFnId::Mod);
        }
        proof {
            reveal_strlit("quot");
            assert("quot"@ =~= seq!['q', 'u', 'o', 't']);
        }
        if str_equals(name, "quot") {
            return Some(CoreFnId::Quot);
        }
        proof {
            reveal_strlit("min");
            assert("min"@ =~= seq!['m', 'i', 'n']);
        }
        if str_equals(name, "min") {
            return Some(CoreFnId::Min);
        }
        proof {
            reveal_strlit("max");
            assert("max"@ =~= seq!['m', 'a', 'x']);
        }
        if str_equals(name, "max") {
            return Some(CoreFnId::Max);
        }
        proof {
            reveal_strlit(">");
            assert(">"@ =~= seq!['>']);
        }
        if str_equals(name, ">") {
            return Some(CoreFnId::GreaterThan);
        }
        proof {
            reveal_strlit(">=");
            assert(">="@ =~= seq!['>', '=']);
        }
        if str_equals(name, ">=") {
            return Some(CoreFnId::GreaterThanOrEqual);
        }
        proof {
            reveal_strlit("<");
            assert("<"@ =~= seq!['<']);
        }
        if str_equals(name, "<") {
            return Some(CoreFnId::LessThan);
        }
        proof {
            reveal_strlit("<=");
            assert("<="@ =~= seq!['<', '=']);
        }
        if str_equals(name, "<=") {
            return Some(CoreFnId::LessThanOrEqual);
        }
        proof {
            reveal_strlit("rand");
            assert("rand"@ =~= seq!['r', 'a', 'n', 'd']);
        }
        if str_equals(name, "rand") {
            return Some(CoreFnId::Rand);
        }
        proof {
            reveal_strlit("rand-int");
            assert("rand-int"@ =~= seq!['r', 'a', 'n', 'd', '-', 'i', 'n', 't']);
        }
        if str_equals(name, "rand-int") {
            return Some(CoreFnId::RandInt);
        }
        proof {
            reveal_strlit("=");
            assert("="@ =~= seq!['=']);
        }
        if str_equals(name, "=") {
            return Some(CoreFnId::Equal);
        }
        proof {
            reveal_strlit("not=");
            assert("not="@ =~= seq!['n', 'o', 't', '=']);
        }
        if str_equals(name, "not=") {
            return Some(CoreFnId::NotEqual);
        }
        proof {
            reveal_strlit("not");
            assert("not"@ =~= seq!['n', 'o', 't']);
        }
        if str_equals(name, "not") {
            return Some(CoreFnId::Not);
        }
        proof {
            reveal_strlit("and");
            assert("and"@ =~= seq!['a', 'n', 'd']);
        }
        if str_equals(name, "and") {
            return Some(CoreFnId::And);
        }
        proof {
            reveal_strlit("or");
            assert("or"@ =~= seq!['o', 'r']);
        }
        if str_equals(name, "or") {
            return Some(CoreFnId::Or);
        }
        proof {
            reveal_strlit("xor");
            assert("xor"@ =~= seq!['x', 'o', 'r']);
        }
        if str_equals(name, "xor") {
            return Some(CoreFnId::Xor);
        }
        proof {
            reveal_strlit("empty?");
            assert("empty?"@ =~= seq!['e', 'm', 'p', 't', 'y', '?']);
        }
        if str_equals(name, "empty?") {
            return Some(CoreFnId::IsEmpty);
        }
        proof {
            reveal_strlit("first");
            assert("first"@ =~= seq!['f', 'i', 'r', 's', 't']);
        }
        if str_equals(name, "first") {
            return Some(CoreFnId::First);
        }
        proof {
            reveal_strlit("count");
            assert("count"@ =~= seq!['c', 'o', 'u', 'n', 't']);
        }
        if str_equals(name, "count") {
            return Some(CoreFnId::Count);
        }
        proof {
            reveal_strlit("flatten");
            assert("flatten"@ =~= seq!['f', 'l', 'a', 't', 't', 'e', 'n']);
        }
        if str_equals(name, "flatten") {
            return Some(CoreFnId::Flatten);
        }
        proof {
            reveal_strlit("remove");
            assert("remove"@ =~= seq!['r', 'e', 'm', 'o', 'v', 'e']);
        }
        if str_equals(name, "remove") {
            return Some(CoreFnId::Remove);
        }
        proof {
            reveal_strlit("filter");
            assert("filter"@ =~= seq!['f', 'i', 'l', 't', 'e', 'r']);
        }
        if str_equals(name, "filter") {
            return Some(CoreFnId::Filter);
        }
        proof {
            reveal_strlit("map");
            assert("map"@ =~= seq!['m', 'a', 'p']);
        }
        if str_equals(name, "map") {
            return Some(CoreFnId::CollectionMap);
        }
        proof {
            reveal_strlit("set");
            assert("set"@ =~= seq!['s', 'e', 't']);
        }
        if str_equals(name, "set") {
            return Some(CoreFnId::CollectionSet);
        }
        proof {
            reveal_strlit("set-in");
            assert("set-in"@ =~= seq!['s', 'e', 't', '-', 'i', 'n']);
        }
        if str_equals(name, "set-in") {
            return Some(CoreFnId::SetIn);
        }
        proof {
            reveal_strlit("get");
            assert("get"@ =~= seq!['g', 'e', 't']);
        }
        if str_equals(name, "get") {
            return Some(CoreFnId::Get);
        }
        proof {
            reveal_strlit("get-in");
            assert("get-in"@ =~= seq!['g', 'e', 't', '-', 'i', 'n']);
        }
        if str_equals(name, "get-in") {
            return Some(CoreFnId::GetIn);
        }
        proof {
            reveal_strlit("update");
            assert("update"@ =~= seq!['u', 'p', 'd', 'a', 't', 'e']);
        }
        if str_equals(name, "update") {
            return Some(CoreFnId::Update);
        }
        proof {
            reveal_strlit("update-in");
            assert("update-in"@ =~= seq!['u', 'p', 'd', 'a', 't', 'e', '-', 'i', 'n']);
        }
        if str_equals(name, "update-in") {
            return Some(CoreFnId::UpdateIn);
        }
        proof {
            reveal_strlit("min-key");
            assert("min-key"@ =~= seq!['m', 'i', 'n', '-', 'k', 'e', 'y']);
        }
        if str_equals(name, "min-key") {
            return Some(CoreFnId::MinKey);
        }
        proof {
            reveal_strlit("max-key");
            assert("max-key"@ =~= seq!['m', 'a', 'x', '-', 'k', 'e', 'y']);
        }
        if str_equals(name, "max-key") {
            return Some(CoreFnId::MaxKey);
        }
        proof {
            reveal_strlit("push");
            assert("push"@ =~= seq!['p', 'u', 's', 'h']);
        }
        if str_equals(name, "push") {
            return Some(CoreFnId::Push);
        }
        proof {
            reveal_strlit("sort");
            assert("sort"@ =~= seq!['s', 'o', 'r', 't']);
        }
        if str_equals(name, "sort") {
            return Some(CoreFnId::Sort);
        }
        proof {
            reveal_strlit("sort-by");
            assert("sort-by"@ =~= seq!['s', 'o', 'r', 't', '-', 'b', 'y']);
        }
        if str_equals(name, "sort-by") {
            return Some(CoreFnId::SortBy);
        }
        proof {
            reveal_strlit("list");
            assert("list"@ =~= seq!['l', 'i', 's', 't']);
        }
        if str_equals(name, "list") {
            return Some(CoreFnId::CreateList);
        }
        proof {
            reveal_strlit("last");
            assert("last"@ =~= seq!['l', 'a', 's', 't']);
        }
        if str_equals(name, "last") {
            return Some(CoreFnId::Last);
        }
        proof {
            reveal_strlit("rest");
            assert("rest"@ =~= seq!['r', 'e', 's', 't']);
        }
        if str_equals(name, "rest") {
            return Some(CoreFnId::Rest);
        }
        proof {
            reveal_strlit("butlast");
            assert("butlast"@ =~= seq!['b', 'u', 't', 'l', 'a', 's', 't']);
        }
        if str_equals(name, "butlast") {
            return Some(CoreFnId::ButLast);
        }
        proof {
            reveal_strlit("nth");
            assert("nth"@ =~= seq!['n', 't', 'h']);
        }
        if str_equals(name, "nth") {
            return Some(CoreFnId::Nth);
        }
        proof {
            reveal_strlit("nth-from-last");
            assert("nth-from-last"@ =~= seq!['n', 't', 'h', '-', 'f', 'r', 'o', 'm', '-', 'l', 'a', 's', 't']);
        }
        if str_equals(name, "nth-from-last") {
            return Some(CoreFnId::NthFromLast);
        }
        proof {
            reveal_strlit("cons");
            assert("cons"@ =~= seq!['c', 'o', 'n', 's']);
        }
        if str_equals(name, "cons") {
            return Some(CoreFnId::Cons);
        }
        proof {
            reveal_strlit("concat");
            assert("concat"@ =~= seq!['c', 'o', 'n', 'c', 'a', 't']);
        }
        if str_equals(name, "concat") {
            return Some(CoreFnId::Concat);
        }
        proof {
            reveal_strlit("take");
            assert("take"@ =~= seq!['t', 'a', 'k', 'e']);
        }
        if str_equals(name, "take") {
            return Some(CoreFnId::Take);
        }
        proof {
            reveal_strlit("drop");
            assert("drop"@ =~= seq!['d', 'r', 'o', 'p']);
        }
        if str_equals(name, "drop") {
            return Some(CoreFnId::Drop);
        }
        proof {
            reveal_strlit("reverse");
            assert("reverse"@ =~= seq!['r', 'e', 'v', 'e', 'r', 's', 'e']);
        }
        if str_equals(name, "reverse") {
            return Some(CoreFnId::Reverse);
        }
        proof {
            reveal_strlit("distinct");
            assert("distinct"@ =~= seq!['d', 'i', 's', 't', 'i', 'n', 'c', 't']);
        }
        if str_equals(name, "distinct") {
            return Some(CoreFnId::Distinct);
        }
        proof {
            reveal_strlit("sub");
            assert("sub"@ =~= seq!['s', 'u', 'b']);
        }
        if str_equals(name, "sub") {
            return Some(CoreFnId::Sub);
        }
        proof {
            reveal_strlit("partition");
            assert("partition"@ =~= seq!['p', 'a', 'r', 't', 'i', 't', 'i', 'o', 'n']);
        }
        if str_equals(name, "partition") {
            return Some(CoreFnId::Partition);
        }
        proof {
            reveal_strlit("pad");
            assert("pad"@ =~= seq!['p', 'a', 'd']);
        }
        if str_equals(name, "pad") {
            return Some(CoreFnId::Pad);
        }
        proof {
            reveal_strlit("hashmap");
            assert("hashmap"@ =~= seq!['h', 'a', 's', 'h', 'm', 'a', 'p']);
        }
        if str_equals(name, "hashmap") {
            return Some(CoreFnId::CreateMap);
        }
        proof {
            reveal_strlit("keys");
            assert("keys"@ =~= seq!['k', 'e', 'y', 's']);
        }
        if str_equals(name, "keys") {
            return Some(CoreFnId::Keys);
        }
        proof {
            reveal_strlit("vals");
            assert("vals"@ =~= seq!['v', 'a', 'l', 's']);
        }
        if str_equals(name, "vals") {
            return Some(CoreFnId::Values);
        }
        proof {
            reveal_strlit("zip");
            assert("zip"@ =~= seq!['z', 'i', 'p']);
        }
        if str_equals(name, "zip") {
            return Some(CoreFnId::Zip);
        }
        proof {
            reveal_strlit("invert");
            assert("invert"@ =~= seq!['i', 'n', 'v', 'e', 'r', 't']);
        }
        if str_equals(name, "invert") {
            return Some(CoreFnId::Invert);
        }
        proof {
            reveal_strlit("merge");
            assert("merge"@ =~= seq!['m', 'e', 'r', 'g', 'e']);
        }
        if str_equals(name, "merge") {
            return Some(CoreFnId::Merge);
        }
        proof {
            reveal_strlit("merge-with");
            assert("merge-with"@ =~= seq!['m', 'e', 'r', 'g', 'e', '-', 'w', 'i', 't', 'h']);
        }
        if str_equals(name, "merge-with") {
            return Some(CoreFnId::MergeWith);
        }
        proof {
            reveal_strlit("map-keys");
            assert("map-keys"@ =~= seq!['m', 'a', 'p', '-', 'k', 'e', 'y', 's']);
        }
        if str_equals(name, "map-keys") {
            return Some(CoreFnId::MapKeys);
        }
        proof {
            reveal_strlit("map-vals");
            assert("map-vals"@ =~= seq!['m', 'a', 'p', '-', 'v', 'a', 'l', 's']);
        }
        if str_equals(name, "map-vals") {
            return Some(CoreFnId::MapValues);
        }
        proof {
            reveal_strlit("select-keys");
            assert("select-keys"@ =~= seq!['s', 'e', 'l', 'e', 'c', 't', '-', 'k', 'e', 'y', 's']);
        }
        if str_equals(name, "select-keys") {
            return Some(CoreFnId::SelectKeys);
        }
        proof {
            reveal_strlit("hashset");
            assert("hashset"@ =~= seq!['h', 'a', 's', 'h', 's', 'e', 't']);
        }
        if str_equals(name, "hashset") {
            return Some(CoreFnId::CreateSet);
        }
        proof {
            reveal_strlit("union");
            assert("union"@ =~= seq!['u', 'n', 'i', 'o', 'n']);
        }
        if str_equals(name, "union") {
            return Some(CoreFnId::Union);
        }
        proof {
            reveal_strlit("intersection");
            assert("intersection"@ =~= seq!['i', 'n', 't', 'e', 'r', 's', 'e', 'c', 't', 'i', 'o', 'n']);
        }
        if str_equals(name, "intersection") {
            return Some(CoreFnId::Intersection);
        }
        proof {
            reveal_strlit("difference");
            assert("difference"@ =~= seq!['d', 'i', 'f', 'f', 'e', 'r', 'e', 'n', 'c', 'e']);
        }
        if str_equals(name, "difference") {
            return Some(CoreFnId::Difference);
        }
        proof {
            reveal_strlit("sym-difference");
            assert("sym-difference"@ =~= seq!['s', 'y', 'm', '-', 'd', 'i', 'f', 'f', 'e', 'r', 'e', 'n', 'c', 'e']);
        }
        if str_equals(name, "sym-difference") {
            return Some(CoreFnId::SymmetricDifference);
        }
        proof {
            reveal_strlit("range");
            assert("range"@ =~= seq!['r', 'a', 'n', 'g', 'e']);
        }
        if str_equals(name, "range") {
            return Some(CoreFnId::Range);
        }
        proof {
            reveal_strlit("repeat");
            assert("repeat"@ =~= seq!['r', 'e', 'p', 'e', 'a', 't']);
        }
        if str_equals(name, "repeat") {
            return Some(CoreFnId::Repeat);
        }
        proof {
            reveal_strlit("repeatedly");
            assert("repeatedly"@ =~= seq!['r', 'e', 'p', 'e', 'a', 't', 'e', 'd', 'l', 'y']);
        }
        if str_equals(name, "repeatedly") {
            return Some(CoreFnId::Repeatedly);
        }
        proof {
            reveal_strlit("iterate");
            assert("iterate"@ =~= seq!['i', 't', 'e', 'r', 'a', 't', 'e']);
        }
        if str_equals(name, "iterate") {
            return Some(CoreFnId::Iterate);
        }
        proof {
            reveal_strlit("nil?");
            assert("nil?"@ =~= seq!['n', 'i', 'l', '?']);
        }
        if str_equals(name, "nil?") {
            return Some(CoreFnId::IsNil);
        }
        proof {
            reveal_strlit("bool?");
            assert("bool?"@ =~= seq!['b', 'o', 'o', 'l', '?']);
        }
        if str_equals(name, "bool?") {
            return Some(CoreFnId::IsBool);
        }
        proof {
            reveal_strlit("char?");
            assert("char?"@ =~= seq!['c', 'h', 'a', 'r', '?']);
        }
        if str_equals(name, "char?") {
            return Some(CoreFnId::IsChar);
        }
        proof {
            reveal_strlit("num?");
            assert("num?"@ =~= seq!['n', 'u', 'm', '?']);
        }
        if str_equals(name, "num?") {
            return Some(CoreFnId::IsNum);
        }
        proof {
            reveal_strlit("int?");
            assert("int?"@ =~= seq!['i', 'n', 't', '?']);
        }
        if str_equals(name, "int?") {
            return Some(CoreFnId::IsInt);
        }
        proof {
            reveal_strlit("float?");
            assert("float?"@ =~= seq!['f', 'l', 'o', 'a', 't', '?']);
        }
        if str_equals(name, "float?") {
            return Some(CoreFnId::IsFloat);
        }
        proof {
            reveal_strlit("symbol?");
            assert("symbol?"@ =~= seq!['s', 'y', 'm', 'b', 'o', 'l', '?']);
        }
        if str_equals(name, "symbol?") {
            return Some(CoreFnId::IsSymbol);
        }
        proof {
            reveal_strlit("str?");
            assert("str?"@ =~= seq!['s', 't', 'r', '?']);
        }
        if str_equals(name, "str?") {
            return Some(CoreFnId::IsString);
        }
        proof {
            reveal_strlit("list?");
            assert("list?"@ =~= seq!['l', 'i', 's', 't', '?']);
        }
        if str_equals(name, "list?") {
            return Some(CoreFnId::IsList);
        }
        proof {
            reveal_strlit("hashmap?");
            assert("hashmap?"@ =~= seq!['h', 'a', 's', 'h', 'm', 'a', 'p', '?']);
        }
        if str_equals(name, "hashmap?") {
            return Some(CoreFnId::IsMap);
        }
        proof {
            reveal_strlit("hashset?");
            assert("hashset?"@ =~= seq!['h', 'a', 's', 'h', 's', 'e', 't', '?']);
        }
        if str_equals(name, "hashset?") {
            return Some(CoreFnId::IsSet);
        }
        proof {
            reveal_strlit("collection?");
            assert("collection?"@ =~= seq!['c', 'o', 'l', 'l', 'e', 'c', 't', 'i', 'o', 'n', '?']);
        }
        if str_equals(name, "collection?") {
            return Some(CoreFnId::IsCollection);
        }
        proof {
            reveal_strlit("fn?");
            assert("fn?"@ =~= seq!['f', 'n', '?']);
        }
        if str_equals(name, "fn?") {
            return Some(CoreFnId::IsFn);
        }
        proof {
            reveal_strlit("bool");
            assert("bool"@ =~= seq!['b', 'o', 'o', 'l']);
        }
        if str_equals(name, "bool") {
            return Some(CoreFnId::ToBool);
        }
        proof {
            reveal_strlit("char");
            assert("char"@ =~= seq!['c', 'h', 'a', 'r']);
        }
        if str_equals(name, "char") {
            return Some(CoreFnId::ToChar);
        }
        proof {
            reveal_strlit("num");
            assert("num"@ =~= seq!['n', 'u', 'm']);
        }
        if str_equals(name, "num") {
            return Some(CoreFnId::ToNum);
        }
        proof {
            reveal_strlit("int");
            assert("int"@ =~= seq!['i', 'n', 't']);
        }
        if str_equals(name, "int") {
            return Some(CoreFnId::ToInt);
        }
        proof {
            reveal_strlit("float");
            assert("float"@ =~= seq!['f', 'l', 'o', 'a', 't']);
        }
        if str_equals(name, "float") {
            return Some(CoreFnId::ToFloat);
        }
        proof {
            reveal_strlit("symbol");
            assert("symbol"@ =~= seq!['s', 'y', 'm', 'b', 'o', 'l']);
        }
        if str_equals(name, "symbol") {
            return Some(CoreFnId::ToSymbol);
        }
        proof {
            reveal_strlit("str");
            assert("str"@ =~= seq!['s', 't', 'r']);
        }
        if str_equals(name, "str") {
            return Some(CoreFnId::ToString);
        }
        proof {
            reveal_strlit("to-list");
            assert("to-list"@ =~= seq!['t', 'o', '-', 'l', 'i', 's', 't']);
        }
        if str_equals(name, "to-list") {
            return Some(CoreFnId::ToList);
        }
        proof {
            reveal_strlit("to-hashmap");
            assert("to-hashmap"@ =~= seq!['t', 'o', '-', 'h', 'a', 's', 'h', 'm', 'a', 'p']);
        }
        if str_equals(name, "to-hashmap") {
            return Some(CoreFnId::ToMap);
        }
        None
    }
}

/// A name always names the function whose name it is.
pub proof fn lemma_from_name_gives_named(name: Seq<char>)
    ensures
        spec_from_name(name) matches Some(id) ==> id.is_named() && id.spec_name() == name,
{
}


proof fn lemma_round_trip_add()
    ensures
        spec_from_name(CoreFnId::Add.spec_name()) == Some(CoreFnId::Add),
{
}

proof fn lemma_round_trip_subtract()
    ensures
        spec_from_name(CoreFnId::Subtract.spec_name()) == Some(CoreFnId::Subtract),
{
    assert(seq!['-'][0] != seq!['+'][0]);
}

proof fn lemma_round_trip_multiply()
    ensures
        spec_from_name(CoreFnId::Multiply.spec_name()) == Some(CoreFnId::Multiply),
{
    assert(seq!['*'][0] != seq!['+'][0]);
    assert(seq!['*'][0] != seq!['-'][0]);
}

proof fn lemma_round_trip_divide()
    ensures
        spec_from_name(CoreFnId::Divide.spec_name()) == Some(CoreFnId::Divide),
{
    assert(seq!['/'][0] != seq!['+'][0]);
    assert(seq!['/'][0] != seq!['-'][0]);
    assert(seq!['/'][0] != seq!['*'][0]);
}

proof fn lemma_round_trip_greater_than()
    ensures
        spec_from_name(CoreFnId::GreaterThan.spec_name()) == Some(CoreFnId::GreaterThan),
{
    assert(seq!['>'][0] != seq!['+'][0]);
    assert(seq!['>'][0] != seq!['-'][0]);
    assert(seq!['>'][0] != seq!['*'][0]);
    assert(seq!['>'][0] != seq!['/'][0]);
}

proof fn lemma_round_trip_less_than()
    ensures
        spec_from_name(CoreFnId::LessThan.spec_name()) == Some(CoreFnId::LessThan),
{
    assert(seq!['<'][0] != seq!['+'][0]);
    assert(seq!['<'][0] != seq!['-'][0]);
    assert(seq!['<'][0] != seq!['*'][0]);
    assert(seq!['<'][0] != seq!['/'][0]);
    assert(seq!['<'][0] != seq!['>'][0]);
}

proof fn lemma_round_trip_equal()
    ensures
        spec_from_name(CoreFnId::Equal.spec_name()) == Some(CoreFnId::Equal),
{
    assert(seq!['='][0] != seq!['+'][0]);
    assert(seq!['='][0] != seq!['-'][0]);
    assert(seq!['='][0] != seq!['*'][0]);
    assert(seq!['='][0] != seq!['/'][0]);
    assert(seq!['='][0] != seq!['>'][0]);
    assert(seq!['='][0] != seq!['<'][0]);
}

proof fn lemma_round_trip_if()
    ensures
        spec_from_name(CoreFnId::If.spec_name()) == Some(CoreFnId::If),
{
}

proof fn lemma_round_trip_numerical_equal()
    ensures
        spec_from_name(CoreFnId::NumericalEqual.spec_name()) == Some(CoreFnId::NumericalEqual),
{
    assert(seq!['=', '='][0] != seq!['i', 'f'][0]);
}

proof fn lemma_round_trip_ln()
    ensures
        spec_from_name(CoreFnId::Ln.spec_name()) == Some(CoreFnId::Ln),
{
    assert(seq!['l', 'n'][0] != seq!['i', 'f'][0]);
    assert(seq!['l', 'n'][0] != seq!['=', '='][0]);
}

proof fn lemma_round_trip_greater_than_or_equal()
    ensures
        spec_from_name(CoreFnId::GreaterThanOrEqual.spec_name()) == Some(CoreFnId::GreaterThanOrEqual),
{
    assert(seq!['>', '='][0] != seq!['i', 'f'][0]);
    assert(seq!['>', '='][0] != seq!['=', '='][0]);
    assert(seq!['>', '='][0] != seq!['l', 'n'][0]);
}

proof fn lemma_round_trip_less_than_or_equal()
    ensures
        spec_from_name(CoreFnId::LessThanOrEqual.spec_name()) == Some(CoreFnId::LessThanOrEqual),
{
    assert(seq!['<', '='][0] != seq!['i', 'f'][0]);
    assert(seq!['<', '='][0] != seq!['=', '='][0]);
    assert(seq!['<', '='][0] != seq!['l', 'n'][0]);
    assert(seq!['<', '='][0] != seq!['>', '='][0]);
}

proof fn lemma_round_trip_or()
    ensures
        spec_from_name(CoreFnId::Or.spec_name()) == Some(CoreFnId::Or),
{
    assert(seq!['o', 'r'][0] != seq!['i', 'f'][0]);
    assert(seq!['o', 'r'][0] != seq!['=', '='][0]);
    assert(seq!['o', 'r'][0] != seq!['l', 'n'][0]);
    assert(seq!['o', 'r'][0] != seq!['>', '='][0]);
    assert(seq!['o', 'r'][0] != seq!['<', '='][0]);
}

proof fn lemma_round_trip_inc()
    ensures
        spec_from_name(CoreFnId::Inc.spec_name()) == Some(CoreFnId::Inc),
{
}

proof fn lemma_round_trip_dec()
    ensures
        spec_from_name(CoreFnId::Dec.spec_name()) == Some(CoreFnId::Dec),
{
    assert(seq!['d', 'e', 'c'][0] != seq!['i', 'n', 'c'][0]);
}

proof fn lemma_round_trip_abs()
    ensures
        spec_from_name(CoreFnId::Abs.spec_name()) == Some(CoreFnId::Abs),
{
    assert(seq!['a', 'b', 's'][0] != seq!['i', 'n', 'c'][0]);
    assert(seq!['a', 'b', 's'][0] != seq!['d', 'e', 'c'][0]);
}

proof fn lemma_round_trip_exp()
    ensures
        spec_from_name(CoreFnId::Exp.spec_name()) == Some(CoreFnId::Exp),
{
    assert(seq!['e', 'x', 'p'][0] != seq!['i', 'n', 'c'][0]);
    assert(seq!['e', 'x', 'p'][0] != seq!['d', 'e', 'c'][0]);
    assert(seq!['e', 'x', 'p'][0] != seq!['a', 'b', 's'][0]);
}

proof fn lemma_round_trip_pow()
    ensures
        spec_from_name(CoreFnId::Pow.spec_name()) == Some(CoreFnId::Pow),
{
    assert(seq!['p', 'o', 'w'][0] != seq!['i', 'n', 'c'][0]);
    assert(seq!['p', 'o', 'w'][0] != seq!['d', 'e', 'c'][0]);
    assert(seq!['p', 'o', 'w'][0] != seq!['a', 'b', 's'][0]);
    assert(seq!['p', 'o', 'w'][0] != seq!['e', 'x', 'p'][0]);
}

proof fn lemma_round_trip_mod()
    ensures
        spec_from_name(CoreFnId::Mod.spec_name()) == Some(CoreFnId::Mod),
{
    assert(seq!['m', 'o', 'd'][0] != seq!['i', 'n', 'c'][0]);
    assert(seq!['m', 'o', 'd'][0] != seq!['d', 'e', 'c'][0]);
    assert(seq!['m', 'o', 'd'][0] != seq!['a', 'b', 's'][0]);
    assert(seq!['m', 'o', 'd'][0] != seq!['e', 'x', 'p'][0]);
    assert(seq!['m', 'o', 'd'][0] != seq!['p', 'o', 'w'][0]);
}

proof fn lemma_round_trip_min()
    ensures
        spec_from_name(CoreFnId::Min.spec_name()) == Some(CoreFnId::Min),
{
    assert(seq!['m', 'i', 'n'][0] != seq!['i', 'n', 'c'][0]);
    assert(seq!['m', 'i', 'n'][0] != seq!['d', 'e', 'c'][0]);
    assert(seq!['m', 'i', 'n'][0] != seq!['a', 'b', 's'][0]);
    assert(seq!['m', 'i', 'n'][0] != seq!['e', 'x', 'p'][0]);
    assert(seq!['m', 'i', 'n'][0] != seq!['p', 'o', 'w'][0]);
    assert(seq!['m', 'i', 'n'][1] != seq!['m', 'o', 'd'][1]);
}

proof fn lemma_round_trip_max()
    ensures
        spec_from_name(CoreFnId::Max.spec_name()) == Some(CoreFnId::Max),
{
    assert(seq!['m', 'a', 'x'][0] != seq!['i', 'n', 'c'][0]);
    assert(seq!['m', 'a', 'x'][0] != seq!['d', 'e', 'c'][0]);
    assert(seq!['m', 'a', 'x'][0] != seq!['a', 'b', 's'][0]);
    assert(seq!['m', 'a', 'x'][0] != seq!['e', 'x', 'p'][0]);
    assert(seq!['m', 'a', 'x'][0] != seq!['p', 'o', 'w'][0]);
    assert(seq!['m', 'a', 'x'][1] != seq!['m', 'o', 'd'][1]);
    assert(seq!['m', 'a', 'x'][1] != seq!['m', 'i', 'n'][1]);
}

proof fn lemma_round_trip_not()
    ensures
        spec_from_name(CoreFnId::Not.spec_name()) == Some(CoreFnId::Not),
{
    assert(seq!['n', 'o', 't'][0] != seq!['i', 'n', 'c'][0]);
    assert(seq!['n', 'o', 't'][0] != seq!['d', 'e', 'c'][0]);
    assert(seq!['n', 'o', 't'][0] != seq!['a', 'b', 's'][0]);
    assert(seq!['n', 'o', 't'][0] != seq!['e', 'x', 'p'][0]);
    assert(seq!['n', 'o', 't'][0] != seq!['p', 'o', 'w'][0]);
    assert(seq!['n', 'o', 't'][0] != seq!['m', 'o', 'd'][0]);
    assert(seq!['n', 'o', 't'][0] != seq!['m', 'i', 'n'][0]);
    assert(seq!['n', 'o', 't'][0] != seq!['m', 'a', 'x'][0]);
}

proof fn lemma_round_trip_and()
    ensures
        spec_from_name(CoreFnId::And.spec_name()) == Some(CoreFnId::And),
{
    assert(seq!['a', 'n', 'd'][0] != seq!['i', 'n', 'c'][0]);
    assert(seq!['a', 'n', 'd'][0] != seq!['d', 'e', 'c'][0]);
    assert(seq!['a', 'n', 'd'][1] != seq!['a', 'b', 's'][1]);
    assert(seq!['a', 'n', 'd'][0] != seq!['e', 'x', 'p'][0]);
    assert(seq!['a', 'n', 'd'][0] != seq!['p', 'o', 'w'][0]);
    assert(seq!['a', 'n', 'd'][0] != seq!['m', 'o', 'd'][0]);
    assert(seq!['a', 'n', 'd'][0] != seq!['m', 'i', 'n'][0]);
    assert(seq!['a', 'n', 'd'][0] != seq!['m', 'a', 'x'][0]);
    assert(seq!['a', 'n', 'd'][0] != seq!['n', 'o', 't'][0]);
}

proof fn lemma_round_trip_xor()
    ensures
        spec_from_name(CoreFnId::Xor.spec_name()) == Some(CoreFnId::Xor),
{
    assert(seq!['x', 'o', 'r'][0] != seq!['i', 'n', 'c'][0]);
    assert(seq!['x', 'o', 'r'][0] != seq!['d', 'e', 'c'][0]);
    assert(seq!['x', 'o', 'r'][0] != seq!['a', 'b', 's'][0]);
    assert(seq!['x', 'o', 'r'][0] != seq!['e', 'x', 'p'][0]);
    assert(seq!['x', 'o', 'r'][0] != seq!['p', 'o', 'w'][0]);
    assert(seq!['x', 'o', 'r'][0] != seq!['m', 'o', 'd'][0]);
    assert(seq!['x', 'o', 'r'][0] != seq!['m', 'i', 'n'][0]);
    assert(seq!['x', 'o', 'r'][0] != seq!['m', 'a', 'x'][0]);
    assert(seq!['x', 'o', 'r'][0] != seq!['n', 'o', 't'][0]);
    assert(seq!['x', 'o', 'r'][0] != seq!['a', 'n', 'd'][0]);
}

proof fn lemma_round_trip_collection_map()
    ensures
        spec_from_name(CoreFnId::CollectionMap.spec_name()) == Some(CoreFnId::CollectionMap),
{
    assert(seq!['m', 'a', 'p'][0] != seq!['i', 'n', 'c'][0]);
    assert(seq!['m', 'a', 'p'][0] != seq!['d', 'e', 'c'][0]);
    assert(seq!['m', 'a', 'p'][0] != seq!['a', 'b', 's'][0]);
    assert(seq!['m', 'a', 'p'][0] != seq!['e', 'x', 'p'][0]);
    assert(seq!['m', 'a', 'p'][0] != seq!['p', 'o', 'w'][0]);
    assert(seq!['m', 'a', 'p'][1] != seq!['m', 'o', 'd'][1]);
    assert(seq!['m', 'a', 'p'][1] != seq!['m', 'i', 'n'][1]);
    assert(seq!['m', 'a', 'p'][2] != seq!['m', 'a', 'x'][2]);
    assert(seq!['m', 'a', 'p'][0] != seq!['n', 'o', 't'][0]);
    assert(seq!['m', 'a', 'p'][0] != seq!['a', 'n', 'd'][0]);
    assert(seq!['m', 'a', 'p'][0] != seq!['x', 'o', 'r'][0]);
}

proof fn lemma_round_trip_collection_set()
    ensures
        spec_from_name(CoreFnId::CollectionSet.spec_name()) == Some(CoreFnId::CollectionSet),
{
    assert(seq!['s', 'e', 't'][0] != seq!['i', 'n', 'c'][0]);
    assert(seq!['s', 'e', 't'][0] != seq!['d', 'e', 'c'][0]);
    assert(seq!['s', 'e', 't'][0] != seq!['a', 'b', 's'][0]);
    assert(seq!['s', 'e', 't'][0] != seq!['e', 'x', 'p'][0]);
    assert(seq!['s', 'e', 't'][0] != seq!['p', 'o', 'w'][0]);
    assert(seq!['s', 'e', 't'][0] != seq!['m', 'o', 'd'][0]);
    assert(seq!['s', 'e', 't'][0] != seq!['m', 'i', 'n'][0]);
    assert(seq!['s', 'e', 't'][0] != seq!['m', 'a', 'x'][0]);
    assert(seq!['s', 'e', 't'][0] != seq!['n', 'o', 't'][0]);
    assert(seq!['s', 'e', 't'][0] != seq!['a', 'n', 'd'][0]);
    assert(seq!['s', 'e', 't'][0] != seq!['x', 'o', 'r'][0]);
    assert(seq!['s', 'e', 't'][0] != seq!['m', 'a', 'p'][0]);
}

proof fn lemma_round_trip_get()
    ensures
        spec_from_name(CoreFnId::Get.spec_name()) == Some(CoreFnId::Get),
{
    assert(seq!['g', 'e', 't'][0] != seq!['i', 'n', 'c'][0]);
    assert(seq!['g', 'e', 't'][0] != seq!['d', 'e', 'c'][0]);
    assert(seq!['g', 'e', 't'][0] != seq!['a', 'b', 's'][0]);
    assert(seq!['g', 'e', 't'][0] != seq!['e', 'x', 'p'][0]);
    assert(seq!['g', 'e', 't'][0] != seq!['p', 'o', 'w'][0]);
    assert(seq!['g', 'e', 't'][0] != seq!['m', 'o', 'd'][0]);
    assert(seq!['g', 'e', 't'][0] != seq!['m', 'i', 'n'][0]);
    assert(seq!['g', 'e', 't'][0] != seq!['m', 'a', 'x'][0]);
    assert(seq!['g', 'e', 't'][0] != seq!['n', 'o', 't'][0]);
    assert(seq!['g', 'e', 't'][0] != seq!['a', 'n', 'd'][0]);
    assert(seq!['g', 'e', 't'][0] != seq!['x', 'o', 'r'][0]);
    assert(seq!['g', 'e', 't'][0] != seq!['m', 'a', 'p'][0]);
    assert(seq!['g', 'e', 't'][0] != seq!['s', 'e', 't'][0]);
}

proof fn lemma_round_trip_nth()
    ensures
        spec_from_name(CoreFnId::Nth.spec_name()) == Some(CoreFnId::Nth),
{
    assert(seq!['n', 't', 'h'][0] != seq!['i', 'n', 'c'][0]);
    assert(seq!['n', 't', 'h'][0] != seq!['d', 'e', 'c'][0]);
    assert(seq!['n', 't', 'h'][0] != seq!['a', 'b', 's'][0]);
    assert(seq!['n', 't', 'h'][0] != seq!['e', 'x', 'p'][0]);
    assert(seq!['n', 't', 'h'][0] != seq!['p', 'o', 'w'][0]);
    assert(seq!['n', 't', 'h'][0] != seq!['m', 'o', 'd'][0]);
    assert(seq!['n', 't', 'h'][0] != seq!['m', 'i', 'n'][0]);
    assert(seq!['n', 't', 'h'][0] != seq!['m', 'a', 'x'][0]);
    assert(seq!['n', 't', 'h'][1] != seq!['n', 'o', 't'][1]);
    assert(seq!['n', 't', 'h'][0] != seq!['a', 'n', 'd'][0]);
    assert(seq!['n', 't', 'h'][0] != seq!['x', 'o', 'r'][0]);
    assert(seq!['n', 't', 'h'][0] != seq!['m', 'a', 'p'][0]);
    assert(seq!['n', 't', 'h'][0] != seq!['s', 'e', 't'][0]);
    assert(seq!['n', 't', 'h'][0] != seq!['g', 'e', 't'][0]);
}

proof fn lemma_round_trip_sub()
    ensures
        spec_from_name(CoreFnId::Sub.spec_name()) == Some(CoreFnId::Sub),
{
    assert(seq!['s', 'u', 'b'][0] != seq!['i', 'n', 'c'][0]);
    assert(seq!['s', 'u', 'b'][0] != seq!['d', 'e', 'c'][0]);
    assert(seq!['s', 'u', 'b'][0] != seq!['a', 'b', 's'][0]);
    assert(seq!['s', 'u', 'b'][0] != seq!['e', 'x', 'p'][0]);
    assert(seq!['s', 'u', 'b'][0] != seq!['p', 'o', 'w'][0]);
    assert(seq!['s', 'u', 'b'][0] != seq!['m', 'o', 'd'][0]);
    assert(seq!['s', 'u', 'b'][0] != seq!['m', 'i', 'n'][0]);
    assert(seq!['s', 'u', 'b'][0] != seq!['m', 'a', 'x'][0]);
    assert(seq!['s', 'u', 'b'][0] != seq!['n', 'o', 't'][0]);
    assert(seq!['s', 'u', 'b'][0] != seq!['a', 'n', 'd'][0]);
    assert(seq!['s', 'u', 'b'][0] != seq!['x', 'o', 'r'][0]);
    assert(seq!['s', 'u', 'b'][0] != seq!['m', 'a', 'p'][0]);
    assert(seq!['s', 'u', 'b'][1] != seq!['s', 'e', 't'][1]);
    assert(seq!['s', 'u', 'b'][0] != seq!['g', 'e', 't'][0]);
    assert(seq!['s', 'u', 'b'][0] != seq!['n', 't', 'h'][0]);
}

proof fn lemma_round_trip_pad()
    ensures
        spec_from_name(CoreFnId::Pad.spec_name()) == Some(CoreFnId::Pad),
{
    assert(seq!['p', 'a', 'd'][0] != seq!['i', 'n', 'c'][0]);
    assert(seq!['p', 'a', 'd'][0] != seq!['d', 'e', 'c'][0]);
    assert(seq!['p', 'a', 'd'][0] != seq!['a', 'b', 's'][0]);
    assert(seq!['p', 'a', 'd'][0] != seq!['e', 'x', 'p'][0]);
    assert(seq!['p', 'a', 'd'][1] != seq!['p', 'o', 'w'][1]);
    assert(seq!['p', 'a', 'd'][0] != seq!['m', 'o', 'd'][0]);
    assert(seq!['p', 'a', 'd'][0] != seq!['m', 'i', 'n'][0]);
    assert(seq!['p', 'a', 'd'][0] != seq!['m', 'a', 'x'][0]);
    assert(seq!['p', 'a', 'd'][0] != seq!['n', 'o', 't'][0]);
    assert(seq!['p', 'a', 'd'][0] != seq!['a', 'n', 'd'][0]);
    assert(seq!['p', 'a', 'd'][0] != seq!['x', 'o', 'r'][0]);
    assert(seq!['p', 'a', 'd'][0] != seq!['m', 'a', 'p'][0]);
    assert(seq!['p', 'a', 'd'][0] != seq!['s', 'e', 't'][0]);
    assert(seq!['p', 'a', 'd'][0] != seq!['g', 'e', 't'][0]);
    assert(seq!['p', 'a', 'd'][0] != seq!['n', 't', 'h'][0]);
    assert(seq!['p', 'a', 'd'][0] != seq!['s', 'u', 'b'][0]);
}

proof fn lemma_round_trip_zip()
    ensures
        spec_from_name(CoreFnId::Zip.spec_name()) == Some(CoreFnId::Zip),
{
    assert(seq!['z', 'i', 'p'][0] != seq!['i', 'n', 'c'][0]);
    assert(seq!['z', 'i', 'p'][0] != seq!['d', 'e', 'c'][0]);
    assert(seq!['z', 'i', 'p'][0] != seq!['a', 'b', 's'][0]);
    assert(seq!['z', 'i', 'p'][0] != seq!['e', 'x', 'p'][0]);
    assert(seq!['z', 'i', 'p'][0] != seq!['p', 'o', 'w'][0]);
    assert(seq!['z', 'i', 'p'][0] != seq!['m', 'o', 'd'][0]);
    assert(seq!['z', 'i', 'p'][0] != seq!['m', 'i', 'n'][0]);
    assert(seq!['z', 'i', 'p'][0] != seq!['m', 'a', 'x'][0]);
    assert(seq!['z', 'i', 'p'][0] != seq!['n', 'o', 't'][0]);
    assert(seq!['z', 'i', 'p'][0] != seq!['a', 'n', 'd'][0]);
    assert(seq!['z', 'i', 'p'][0] != seq!['x', 'o', 'r'][0]);
    assert(seq!['z', 'i', 'p'][0] != seq!['m', 'a', 'p'][0]);
    assert(seq!['z', 'i', 'p'][0] != seq!['s', 'e', 't'][0]);
    assert(seq!['z', 'i', 'p'][0] != seq!['g', 'e', 't'][0]);
    assert(seq!['z', 'i', 'p'][0] != seq!['n', 't', 'h'][0]);
    assert(seq!['z', 'i', 'p'][0] != seq!['s', 'u', 'b'][0]);
    assert(seq!['z', 'i', 'p'][0] != seq!['p', 'a', 'd'][0]);
}

proof fn lemma_round_trip_is_fn()
    ensures
        spec_from_name(CoreFnId::IsFn.spec_name()) == Some(CoreFnId::IsFn),
{
    assert(seq!['f', 'n', '?'][0] != seq!['i', 'n', 'c'][0]);
    assert(seq!['f', 'n', '?'][0] != seq!['d', 'e', 'c'][0]);
    assert(seq!['f', 'n', '?'][0] != seq!['a', 'b', 's'][0]);
    assert(seq!['f', 'n', '?'][0] != seq!['e', 'x', 'p'][0]);
    assert(seq!['f', 'n', '?'][0] != seq!['p', 'o', 'w'][0]);
    assert(seq!['f', 'n', '?'][0] != seq!['m', 'o', 'd'][0]);
    assert(seq!['f', 'n', '?'][0] != seq!['m', 'i', 'n'][0]);
    assert(seq!['f', 'n', '?'][0] != seq!['m', 'a', 'x'][0]);
    assert(seq!['f', 'n', '?'][0] != seq!['n', 'o', 't'][0]);
    assert(seq!['f', 'n', '?'][0] != seq!['a', 'n', 'd'][0]);
    assert(seq!['f', 'n', '?'][0] != seq!['x', 'o', 'r'][0]);
    assert(seq!['f', 'n', '?'][0] != seq!['m', 'a', 'p'][0]);
    assert(seq!['f', 'n', '?'][0] != seq!['s', 'e', 't'][0]);
    assert(seq!['f', 'n', '?'][0] != seq!['g', 'e', 't'][0]);
    assert(seq!['f', 'n', '?'][0] != seq!['n', 't', 'h'][0]);
    assert(seq!['f', 'n', '?'][0] != seq!['s', 'u', 'b'][0]);
    assert(seq!['f', 'n', '?'][0] != seq!['p', 'a', 'd'][0]);
    assert(seq!['f', 'n', '?'][0] != seq!['z', 'i', 'p'][0]);
}

proof fn lemma_round_trip_to_num()
    ensures
        spec_from_name(CoreFnId::ToNum.spec_name()) == Some(CoreFnId::ToNum),
{
    assert(seq!['n', 'u', 'm'][0] != seq!['i', 'n', 'c'][0]);
    assert(seq!['n', 'u', 'm'][0] != seq!['d', 'e', 'c'][0]);
    assert(seq!['n', 'u', 'm'][0] != seq!['a', 'b', 's'][0]);
    assert(seq!['n', 'u', 'm'][0] != seq!['e', 'x', 'p'][0]);
    assert(seq!['n', 'u', 'm'][0] != seq!['p', 'o', 'w'][0]);
    assert(seq!['n', 'u', 'm'][0] != seq!['m', 'o', 'd'][0]);
    assert(seq!['n', 'u', 'm'][0] != seq!['m', 'i', 'n'][0]);
    assert(seq!['n', 'u', 'm'][0] != seq!['m', 'a', 'x'][0]);
    assert(seq!['n', 'u', 'm'][1] != seq!['n', 'o', 't'][1]);
    assert(seq!['n', 'u', 'm'][0] != seq!['a', 'n', 'd'][0]);
    assert(seq!['n', 'u', 'm'][0] != seq!['x', 'o', 'r'][0]);
    assert(seq!['n', 'u', 'm'][0] != seq!['m', 'a', 'p'][0]);
    assert(seq!['n', 'u', 'm'][0] != seq!['s', 'e', 't'][0]);
    assert(seq!['n', 'u', 'm'][0] != seq!['g', 'e', 't'][0]);
    assert(seq!['n', 'u', 'm'][1] != seq!['n', 't', 'h'][1]);
    assert(seq!['n', 'u', 'm'][0] != seq!['s', 'u', 'b'][0]);
    assert(seq!['n', 'u', 'm'][0] != seq!['p', 'a', 'd'][0]);
    assert(seq!['n', 'u', 'm'][0] != seq!['z', 'i', 'p'][0]);
    assert(seq!['n', 'u', 'm'][0] != seq!['f', 'n', '?'][0]);
}

proof fn lemma_round_trip_to_int()
    ensures
        spec_from_name(CoreFnId::ToInt.spec_name()) == Some(CoreFnId::ToInt),
{
    assert(seq!['i', 'n', 't'][2] != seq!['i', 'n', 'c'][2]);
    assert(seq!['i', 'n', 't'][0] != seq!['d', 'e', 'c'][0]);
    assert(seq!['i', 'n', 't'][0] != seq!['a', 'b', 's'][0]);
    assert(seq!['i', 'n', 't'][0] != seq!['e', 'x', 'p'][0]);
    assert(seq!['i', 'n', 't'][0] != seq!['p', 'o', 'w'][0]);
    assert(seq!['i', 'n', 't'][0] != seq!['m', 'o', 'd'][0]);
    assert(seq!['i', 'n', 't'][0] != seq!['m', 'i', 'n'][0]);
    assert(seq!['i', 'n', 't'][0] != seq!['m', 'a', 'x'][0]);
    assert(seq!['i', 'n', 't'][0] != seq!['n', 'o', 't'][0]);
    assert(seq!['i', 'n', 't'][0] != seq!['a', 'n', 'd'][0]);
    assert(seq!['i', 'n', 't'][0] != seq!['x', 'o', 'r'][0]);
    assert(seq!['i', 'n', 't'][0] != seq!['m', 'a', 'p'][0]);
    assert(seq!['i', 'n', 't'][0] != seq!['s', 'e', 't'][0]);
    assert(seq!['i', 'n', 't'][0] != seq!['g', 'e', 't'][0]);
    assert(seq!['i', 'n', 't'][0] != seq!['n', 't', 'h'][0]);
    assert(seq!['i', 'n', 't'][0] != seq!['s', 'u', 'b'][0]);
    assert(seq!['i', 'n', 't'][0] != seq!['p', 'a', 'd'][0]);
    assert(seq!['i', 'n', 't'][0] != seq!['z', 'i', 'p'][0]);
    assert(seq!['i', 'n', 't'][0] != seq!['f', 'n', '?'][0]);
    assert(seq!['i', 'n', 't'][0] != seq!['n', 'u', 'm'][0]);
}

proof fn lemma_round_trip_to_string()
    ensures
        spec_from_name(CoreFnId::ToString.spec_name()) == Some(CoreFnId::ToString),
{
    assert(seq!['s', 't', 'r'][0] != seq!['i', 'n', 'c'][0]);
    assert(seq!['s', 't', 'r'][0] != seq!['d', 'e', 'c'][0]);
    assert(seq!['s', 't', 'r'][0] != seq!['a', 'b', 's'][0]);
    assert(seq!['s', 't', 'r'][0] != seq!['e', 'x', 'p'][0]);
    assert(seq!['s', 't', 'r'][0] != seq!['p', 'o', 'w'][0]);
    assert(seq!['s', 't', 'r'][0] != seq!['m', 'o', 'd'][0]);
    assert(seq!['s', 't', 'r'][0] != seq!['m', 'i', 'n'][0]);
    assert(seq!['s', 't', 'r'][0] != seq!['m', 'a', 'x'][0]);
    assert(seq!['s', 't', 'r'][0] != seq!['n', 'o', 't'][0]);
    assert(seq!['s', 't', 'r'][0] != seq!['a', 'n', 'd'][0]);
    assert(seq!['s', 't', 'r'][0] != seq!['x', 'o', 'r'][0]);
    assert(seq!['s', 't', 'r'][0] != seq!['m', 'a', 'p'][0]);
    assert(seq!['s', 't', 'r'][1] != seq!['s', 'e', 't'][1]);
    assert(seq!['s', 't', 'r'][0] != seq!['g', 'e', 't'][0]);
    assert(seq!['s', 't', 'r'][0] != seq!['n', 't', 'h'][0]);
    assert(seq!['s', 't', 'r'][1] != seq!['s', 'u', 'b'][1]);
    assert(seq!['s', 't', 'r'][0] != seq!['p', 'a', 'd'][0]);
    assert(seq!['s', 't', 'r'][0] != seq!['z', 'i', 'p'][0]);
    assert(seq!['s', 't', 'r'][0] != seq!['f', 'n', '?'][0]);
    assert(seq!['s', 't', 'r'][0] != seq!['n', 'u', 'm'][0]);
    assert(seq!['s', 't', 'r'][0] != seq!['i', 'n', 't'][0]);
}

proof fn lemma_round_trip_when()
    ensures
        spec_from_name(CoreFnId::When.spec_name()) == Some(CoreFnId::When),
{
}

proof fn lemma_round_trip_find_some()
    ensures
        spec_from_name(CoreFnId::FindSome.spec_name()) == Some(CoreFnId::FindSome),
{
    assert(seq!['s', 'o', 'm', 'e'][0] != seq!['w', 'h', 'e', 'n'][0]);
}

proof fn lemma_round_trip_is_nan()
    ensures
        spec_from_name(CoreFnId::IsNan.spec_name()) == Some(CoreFnId::IsNan),
{
    assert(seq!['n', 'a', 'n', '?'][0] != seq!['w', 'h', 'e', 'n'][0]);
    assert(seq!['n', 'a', 'n', '?'][0] != seq!['s', 'o', 'm', 'e'][0]);
}

proof fn lemma_round_trip_is_inf()
    ensures
        spec_from_name(CoreFnId::IsInf.spec_name()) == Some(CoreFnId::IsInf),
{
    assert(seq!['i', 'n', 'f', '?'][0] != seq!['w', 'h', 'e', 'n'][0]);
    assert(seq!['i', 'n', 'f', '?'][0] != seq!['s', 'o', 'm', 'e'][0]);
    assert(seq!['i', 'n', 'f', '?'][0] != seq!['n', 'a', 'n', '?'][0]);
}

proof fn lemma_round_trip_is_odd()
    ensures
        spec_from_name(CoreFnId::IsOdd.spec_name()) == Some(CoreFnId::IsOdd),
{
    assert(seq!['o', 'd', 'd', '?'][0] != seq!['w', 'h', 'e', 'n'][0]);
    assert(seq!['o', 'd', 'd', '?'][0] != seq!['s', 'o', 'm', 'e'][0]);
    assert(seq!['o', 'd', 'd', '?'][0] != seq!['n', 'a', 'n', '?'][0]);
    assert(seq!['o', 'd', 'd', '?'][0] != seq!['i', 'n', 'f', '?'][0]);
}

proof fn lemma_round_trip_is_pos()
    ensures
        spec_from_name(CoreFnId::IsPos.spec_name()) == Some(CoreFnId::IsPos),
{
    assert(seq!['p', 'o', 's', '?'][0] != seq!['w', 'h', 'e', 'n'][0]);
    assert(seq!['p', 'o', 's', '?'][0] != seq!['s', 'o', 'm', 'e'][0]);
    assert(seq!['p', 'o', 's', '?'][0] != seq!['n', 'a', 'n', '?'][0]);
    assert(seq!['p', 'o', 's', '?'][0] != seq!['i', 'n', 'f', '?'][0]);
    assert(seq!['p', 'o', 's', '?'][0] != seq!['o', 'd', 'd', '?'][0]);
}

proof fn lemma_round_trip_is_neg()
    ensures
        spec_from_name(CoreFnId::IsNeg.spec_name()) == Some(CoreFnId::IsNeg),
{
    assert(seq!['n', 'e', 'g', '?'][0] != seq!['w', 'h', 'e', 'n'][0]);
    assert(seq!['n', 'e', 'g', '?'][0] != seq!['s', 'o', 'm', 'e'][0]);
    assert(seq!['n', 'e', 'g', '?'][1] != seq!['n', 'a', 'n', '?'][1]);
    assert(seq!['n', 'e', 'g', '?'][0] != seq!['i', 'n', 'f', '?'][0]);
    assert(seq!['n', 'e', 'g', '?'][0] != seq!['o', 'd', 'd', '?'][0]);
    assert(seq!['n', 'e', 'g', '?'][0] != seq!['p', 'o', 's', '?'][0]);
}

proof fn lemma_round_trip_ceil()
    ensures
        spec_from_name(CoreFnId::Ceil.spec_name()) == Some(CoreFnId::Ceil),
{
    assert(seq!['c', 'e', 'i', 'l'][0] != seq!['w', 'h', 'e', 'n'][0]);
    assert(seq!['c', 'e', 'i', 'l'][0] != seq!['s', 'o', 'm', 'e'][0]);
    assert(seq!['c', 'e', 'i', 'l'][0] != seq!['n', 'a', 'n', '?'][0]);
    assert(seq!['c', 'e', 'i', 'l'][0] != seq!['i', 'n', 'f', '?'][0]);
    assert(seq!['c', 'e', 'i', 'l'][0] != seq!['o', 'd', 'd', '?'][0]);
    assert(seq!['c', 'e', 'i', 'l'][0] != seq!['p', 'o', 's', '?'][0]);
    assert(seq!['c', 'e', 'i', 'l'][0] != seq!['n', 'e', 'g', '?'][0]);
}

proof fn lemma_round_trip_sqrt()
    ensures
        spec_from_name(CoreFnId::Sqrt.spec_name()) == Some(CoreFnId::Sqrt),
{
    assert(seq!['s', 'q', 'r', 't'][0] != seq!['w', 'h', 'e', 'n'][0]);
    assert(seq!['s', 'q', 'r', 't'][1] != seq!['s', 'o', 'm', 'e'][1]);
    assert(seq!['s', 'q', 'r', 't'][0] != seq!['n', 'a', 'n', '?'][0]);
    assert(seq!['s', 'q', 'r', 't'][0] != seq!['i', 'n', 'f', '?'][0]);
    assert(seq!['s', 'q', 'r', 't'][0] != seq!['o', 'd', 'd', '?'][0]);
    assert(seq!['s', 'q', 'r', 't'][0] != seq!['p', 'o', 's', '?'][0]);
    assert(seq!['s', 'q', 'r', 't'][0] != seq!['n', 'e', 'g', '?'][0]);
    assert(seq!['s', 'q', 'r', 't'][0] != seq!['c', 'e', 'i', 'l'][0]);
}

proof fn lemma_round_trip_exp2()
    ensures
        spec_from_name(CoreFnId::Exp2.spec_name()) == Some(CoreFnId::Exp2),
{
    assert(seq!['e', 'x', 'p', '2'][0] != seq!['w', 'h', 'e', 'n'][0]);
    assert(seq!['e', 'x', 'p', '2'][0] != seq!['s', 'o', 'm', 'e'][0]);
    assert(seq!['e', 'x', 'p', '2'][0] != seq!['n', 'a', 'n', '?'][0]);
    assert(seq!['e', 'x', 'p', '2'][0] != seq!['i', 'n', 'f', '?'][0]);
    assert(seq!['e', 'x', 'p', '2'][0] != seq!['o', 'd', 'd', '?'][0]);
    assert(seq!['e', 'x', 'p', '2'][0] != seq!['p', 'o', 's', '?'][0]);
    assert(seq!['e', 'x', 'p', '2'][0] != seq!['n', 'e', 'g', '?'][0]);
    assert(seq!['e', 'x', 'p', '2'][0] != seq!['c', 'e', 'i', 'l'][0]);
    assert(seq!['e', 'x', 'p', '2'][0] != seq!['s', 'q', 'r', 't'][0]);
}

proof fn lemma_round_trip_log2()
    ensures
        spec_from_name(CoreFnId::Log2.spec_name()) == Some(CoreFnId::Log2),
{
    assert(seq!['l', 'o', 'g', '2'][0] != seq!['w', 'h', 'e', 'n'][0]);
    assert(seq!['l', 'o', 'g', '2'][0] != seq!['s', 'o', 'm', 'e'][0]);
    assert(seq!['l', 'o', 'g', '2'][0] != seq!['n', 'a', 'n', '?'][0]);
    assert(seq!['l', 'o', 'g', '2'][0] != seq!['i', 'n', 'f', '?'][0]);
    assert(seq!['l', 'o', 'g', '2'][0] != seq!['o', 'd', 'd', '?'][0]);
    assert(seq!['l', 'o', 'g', '2'][0] != seq!['p', 'o', 's', '?'][0]);
    assert(seq!['l', 'o', 'g', '2'][0] != seq!['n', 'e', 'g', '?'][0]);
    assert(seq!['l', 'o', 'g', '2'][0] != seq!['c', 'e', 'i', 'l'][0]);
    assert(seq!['l', 'o', 'g', '2'][0] != seq!['s', 'q', 'r', 't'][0]);
    assert(seq!['l', 'o', 'g', '2'][0] != seq!['e', 'x', 'p', '2'][0]);
}

proof fn lemma_round_trip_quot()
    ensures
        spec_from_name(CoreFnId::Quot.spec_name()) == Some(CoreFnId::Quot),
{
    assert(seq!['q', 'u', 'o', 't'][0] != seq!['w', 'h', 'e', 'n'][0]);
    assert(seq!['q', 'u', 'o', 't'][0] != seq!['s', 'o', 'm', 'e'][0]);
    assert(seq!['q', 'u', 'o', 't'][0] != seq!['n', 'a', 'n', '?'][0]);
    assert(seq!['q', 'u', 'o', 't'][0] != seq!['i', 'n', 'f', '?'][0]);
    assert(seq!['q', 'u', 'o', 't'][0] != seq!['o', 'd', 'd', '?'][0]);
    assert(seq!['q', 'u', 'o', 't'][0] != seq!['p', 'o', 's', '?'][0]);
    assert(seq!['q', 'u', 'o', 't'][0] != seq!['n', 'e', 'g', '?'][0]);
    assert(seq!['q', 'u', 'o', 't'][0] != seq!['c', 'e', 'i', 'l'][0]);
    assert(seq!['q', 'u', 'o', 't'][0] != seq!['s', 'q', 'r', 't'][0]);
    assert(seq!['q', 'u', 'o', 't'][0] != seq!['e', 'x', 'p', '2'][0]);
    assert(seq!['q', 'u', 'o', 't'][0] != seq!['l', 'o', 'g', '2'][0]);
}

proof fn lemma_round_trip_rand()
    ensures
        spec_from_name(CoreFnId::Rand.spec_name()) == Some(CoreFnId::Rand),
{
    assert(seq!['r', 'a', 'n', 'd'][0] != seq!['w', 'h', 'e', 'n'][0]);
    assert(seq!['r', 'a', 'n', 'd'][0] != seq!['s', 'o', 'm', 'e'][0]);
    assert(seq!['r', 'a', 'n', 'd'][0] != seq!['n', 'a', 'n', '?'][0]);
    assert(seq!['r', 'a', 'n', 'd'][0] != seq!['i', 'n', 'f', '?'][0]);
    assert(seq!['r', 'a', 'n', 'd'][0] != seq!['o', 'd', 'd', '?'][0]);
    assert(seq!['r', 'a', 'n', 'd'][0] != seq!['p', 'o', 's', '?'][0]);
    assert(seq!['r', 'a', 'n', 'd'][0] != seq!['n', 'e', 'g', '?'][0]);
    assert(seq!['r', 'a', 'n', 'd'][0] != seq!['c', 'e', 'i', 'l'][0]);
    assert(seq!['r', 'a', 'n', 'd'][0] != seq!['s', 'q', 'r', 't'][0]);
    assert(seq!['r', 'a', 'n', 'd'][0] != seq!['e', 'x', 'p', '2'][0]);
    assert(seq!['r', 'a', 'n', 'd'][0] != seq!['l', 'o', 'g', '2'][0]);
    assert(seq!['r', 'a', 'n', 'd'][0] != seq!['q', 'u', 'o', 't'][0]);
}

proof fn lemma_round_trip_not_equal()
    ensures
        spec_from_name(CoreFnId::NotEqual.spec_name()) == Some(CoreFnId::NotEqual),
{
    assert(seq!['n', 'o', 't', '='][0] != seq!['w', 'h', 'e', 'n'][0]);
    assert(seq!['n', 'o', 't', '='][0] != seq!['s', 'o', 'm', 'e'][0]);
    assert(seq!['n', 'o', 't', '='][1] != seq!['n', 'a', 'n', '?'][1]);
    assert(seq!['n', 'o', 't', '='][0] != seq!['i', 'n', 'f', '?'][0]);
    assert(seq!['n', 'o', 't', '='][0] != seq!['o', 'd', 'd', '?'][0]);
    assert(seq!['n', 'o', 't', '='][0] != seq!['p', 'o', 's', '?'][0]);
    assert(seq!['n', 'o', 't', '='][1] != seq!['n', 'e', 'g', '?'][1]);
    assert(seq!['n', 'o', 't', '='][0] != seq!['c', 'e', 'i', 'l'][0]);
    assert(seq!['n', 'o', 't', '='][0] != seq!['s', 'q', 'r', 't'][0]);
    assert(seq!['n', 'o', 't', '='][0] != seq!['e', 'x', 'p', '2'][0]);
    assert(seq!['n', 'o', 't', '='][0] != seq!['l', 'o', 'g', '2'][0]);
    assert(seq!['n', 'o', 't', '='][0] != seq!['q', 'u', 'o', 't'][0]);
    assert(seq!['n', 'o', 't', '='][0] != seq!['r', 'a', 'n', 'd'][0]);
}

proof fn lemma_round_trip_push()
    ensures
        spec_from_name(CoreFnId::Push.spec_name()) == Some(CoreFnId::Push),
{
    assert(seq!['p', 'u', 's', 'h'][0] != seq!['w', 'h', 'e', 'n'][0]);
    assert(seq!['p', 'u', 's', 'h'][0] != seq!['s', 'o', 'm', 'e'][0]);
    assert(seq!['p', 'u', 's', 'h'][0] != seq!['n', 'a', 'n', '?'][0]);
    assert(seq!['p', 'u', 's', 'h'][0] != seq!['i', 'n', 'f', '?'][0]);
    assert(seq!['p', 'u', 's', 'h'][0] != seq!['o', 'd', 'd', '?'][0]);
    assert(seq!['p', 'u', 's', 'h'][1] != seq!['p', 'o', 's', '?'][1]);
    assert(seq!['p', 'u', 's', 'h'][0] != seq!['n', 'e', 'g', '?'][0]);
    assert(seq!['p', 'u', 's', 'h'][0] != seq!['c', 'e', 'i', 'l'][0]);
    assert(seq!['p', 'u', 's', 'h'][0] != seq!['s', 'q', 'r', 't'][0]);
    assert(seq!['p', 'u', 's', 'h'][0] != seq!['e', 'x', 'p', '2'][0]);
    assert(seq!['p', 'u', 's', 'h'][0] != seq!['l', 'o', 'g', '2'][0]);
    assert(seq!['p', 'u', 's', 'h'][0] != seq!['q', 'u', 'o', 't'][0]);
    assert(seq!['p', 'u', 's', 'h'][0] != seq!['r', 'a', 'n', 'd'][0]);
    assert(seq!['p', 'u', 's', 'h'][0] != seq!['n', 'o', 't', '='][0]);
}

proof fn lemma_round_trip_sort()
    ensures
        spec_from_name(CoreFnId::Sort.spec_name()) == Some(CoreFnId::Sort),
{
    assert(seq!['s', 'o', 'r', 't'][0] != seq!['w', 'h', 'e', 'n'][0]);
    assert(seq!['s', 'o', 'r', 't'][2] != seq!['s', 'o', 'm', 'e'][2]);
    assert(seq!['s', 'o', 'r', 't'][0] != seq!['n', 'a', 'n', '?'][0]);
    assert(seq!['s', 'o', 'r', 't'][0] != seq!['i', 'n', 'f', '?'][0]);
    assert(seq!['s', 'o', 'r', 't'][0] != seq!['o', 'd', 'd', '?'][0]);
    assert(seq!['s', 'o', 'r', 't'][0] != seq!['p', 'o', 's', '?'][0]);
    assert(seq!['s', 'o', 'r', 't'][0] != seq!['n', 'e', 'g', '?'][0]);
    assert(seq!['s', 'o', 'r', 't'][0] != seq!['c', 'e', 'i', 'l'][0]);
    assert(seq!['s', 'o', 'r', 't'][1] != seq!['s', 'q', 'r', 't'][1]);
    assert(seq!['s', 'o', 'r', 't'][0] != seq!['e', 'x', 'p', '2'][0]);
    assert(seq!['s', 'o', 'r', 't'][0] != seq!['l', 'o', 'g', '2'][0]);
    assert(seq!['s', 'o', 'r', 't'][0] != seq!['q', 'u', 'o', 't'][0]);
    assert(seq!['s', 'o', 'r', 't'][0] != seq!['r', 'a', 'n', 'd'][0]);
    assert(seq!['s', 'o', 'r', 't'][0] != seq!['n', 'o', 't', '='][0]);
    assert(seq!['s', 'o', 'r', 't'][0] != seq!['p', 'u', 's', 'h'][0]);
}

proof fn lemma_round_trip_create_list()
    ensures
        spec_from_name(CoreFnId::CreateList.spec_name()) == Some(CoreFnId::CreateList),
{
    assert(seq!['l', 'i', 's', 't'][0] != seq!['w', 'h', 'e', 'n'][0]);
    assert(seq!['l', 'i', 's', 't'][0] != seq!['s', 'o', 'm', 'e'][0]);
    assert(seq!['l', 'i', 's', 't'][0] != seq!['n', 'a', 'n', '?'][0]);
    assert(seq!['l', 'i', 's', 't'][0] != seq!['i', 'n', 'f', '?'][0]);
    assert(seq!['l', 'i', 's', 't'][0] != seq!['o', 'd', 'd', '?'][0]);
    assert(seq!['l', 'i', 's', 't'][0] != seq!['p', 'o', 's', '?'][0]);
    assert(seq!['l', 'i', 's', 't'][0] != seq!['n', 'e', 'g', '?'][0]);
    assert(seq!['l', 'i', 's', 't'][0] != seq!['c', 'e', 'i', 'l'][0]);
    assert(seq!['l', 'i', 's', 't'][0] != seq!['s', 'q', 'r', 't'][0]);
    assert(seq!['l', 'i', 's', 't'][0] != seq!['e', 'x', 'p', '2'][0]);
    assert(seq!['l', 'i', 's', 't'][1] != seq!['l', 'o', 'g', '2'][1]);
    assert(seq!['l', 'i', 's', 't'][0] != seq!['q', 'u', 'o', 't'][0]);
    assert(seq!['l', 'i', 's', 't'][0] != seq!['r', 'a', 'n', 'd'][0]);
    assert(seq!['l', 'i', 's', 't'][0] != seq!['n', 'o', 't', '='][0]);
    assert(seq!['l', 'i', 's', 't'][0] != seq!['p', 'u', 's', 'h'][0]);
    assert(seq!['l', 'i', 's', 't'][0] != seq!['s', 'o', 'r', 't'][0]);
}

proof fn lemma_round_trip_last()
    ensures
        spec_from_name(CoreFnId::Last.spec_name()) == Some(CoreFnId::Last),
{
    assert(seq!['l', 'a', 's', 't'][0] != seq!['w', 'h', 'e', 'n'][0]);
    assert(seq!['l', 'a', 's', 't'][0] != seq!['s', 'o', 'm', 'e'][0]);
    assert(seq!['l', 'a', 's', 't'][0] != seq!['n', 'a', 'n', '?'][0]);
    assert(seq!['l', 'a', 's', 't'][0] != seq!['i', 'n', 'f', '?'][0]);
    assert(seq!['l', 'a', 's', 't'][0] != seq!['o', 'd', 'd', '?'][0]);
    assert(seq!['l', 'a', 's', 't'][0] != seq!['p', 'o', 's', '?'][0]);
    assert(seq!['l', 'a', 's', 't'][0] != seq!['n', 'e', 'g', '?'][0]);
    assert(seq!['l', 'a', 's', 't'][0] != seq!['c', 'e', 'i', 'l'][0]);
    assert(seq!['l', 'a', 's', 't'][0] != seq!['s', 'q', 'r', 't'][0]);
    assert(seq!['l', 'a', 's', 't'][0] != seq!['e', 'x', 'p', '2'][0]);
    assert(seq!['l', 'a', 's', 't'][1] != seq!['l', 'o', 'g', '2'][1]);
    assert(seq!['l', 'a', 's', 't'][0] != seq!['q', 'u', 'o', 't'][0]);
    assert(seq!['l', 'a', 's', 't'][0] != seq!['r', 'a', 'n', 'd'][0]);
    assert(seq!['l', 'a', 's', 't'][0] != seq!['n', 'o', 't', '='][0]);
    assert(seq!['l', 'a', 's', 't'][0] != seq!['p', 'u', 's', 'h'][0]);
    assert(seq!['l', 'a', 's', 't'][0] != seq!['s', 'o', 'r', 't'][0]);
    assert(seq!['l', 'a', 's', 't'][1] != seq!['l', 'i', 's', 't'][1]);
}

proof fn lemma_round_trip_rest()
    ensures
        spec_from_name(CoreFnId::Rest.spec_name()) == Some(CoreFnId::Rest),
{
    assert(seq!['r', 'e', 's', 't'][0] != seq!['w', 'h', 'e', 'n'][0]);
    assert(seq!['r', 'e', 's', 't'][0] != seq!['s', 'o', 'm', 'e'][0]);
    assert(seq!['r', 'e', 's', 't'][0] != seq!['n', 'a', 'n', '?'][0]);
    assert(seq!['r', 'e', 's', 't'][0] != seq!['i', 'n', 'f', '?'][0]);
    assert(seq!['r', 'e', 's', 't'][0] != seq!['o', 'd', 'd', '?'][0]);
    assert(seq!['r', 'e', 's', 't'][0] != seq!['p', 'o', 's', '?'][0]);
    assert(seq!['r', 'e', 's', 't'][0] != seq!['n', 'e', 'g', '?'][0]);
    assert(seq!['r', 'e', 's', 't'][0] != seq!['c', 'e', 'i', 'l'][0]);
    assert(seq!['r', 'e', 's', 't'][0] != seq!['s', 'q', 'r', 't'][0]);
    assert(seq!['r', 'e', 's', 't'][0] != seq!['e', 'x', 'p', '2'][0]);
    assert(seq!['r', 'e', 's', 't'][0] != seq!['l', 'o', 'g', '2'][0]);
    assert(seq!['r', 'e', 's', 't'][0] != seq!['q', 'u', 'o', 't'][0]);
    assert(seq!['r', 'e', 's', 't'][1] != seq!['r', 'a', 'n', 'd'][1]);
    assert(seq!['r', 'e', 's', 't'][0] != seq!['n', 'o', 't', '='][0]);
    assert(seq!['r', 'e', 's', 't'][0] != seq!['p', 'u', 's', 'h'][0]);
    assert(seq!['r', 'e', 's', 't'][0] != seq!['s', 'o', 'r', 't'][0]);
    assert(seq!['r', 'e', 's', 't'][0] != seq!['l', 'i', 's', 't'][0]);
    assert(seq!['r', 'e', 's', 't'][0] != seq!['l', 'a', 's', 't'][0]);
}

proof fn lemma_round_trip_cons()
    ensures
        spec_from_name(CoreFnId::Cons.spec_name()) == Some(CoreFnId::Cons),
{
    assert(seq!['c', 'o', 'n', 's'][0] != seq!['w', 'h', 'e', 'n'][0]);
    assert(seq!['c', 'o', 'n', 's'][0] != seq!['s', 'o', 'm', 'e'][0]);
    assert(seq!['c', 'o', 'n', 's'][0] != seq!['n', 'a', 'n', '?'][0]);
    assert(seq!['c', 'o', 'n', 's'][0] != seq!['i', 'n', 'f', '?'][0]);
    assert(seq!['c', 'o', 'n', 's'][0] != seq!['o', 'd', 'd', '?'][0]);
    assert(seq!['c', 'o', 'n', 's'][0] != seq!['p', 'o', 's', '?'][0]);
    assert(seq!['c', 'o', 'n', 's'][0] != seq!['n', 'e', 'g', '?'][0]);
    assert(seq!['c', 'o', 'n', 's'][1] != seq!['c', 'e', 'i', 'l'][1]);
    assert(seq!['c', 'o', 'n', 's'][0] != seq!['s', 'q', 'r', 't'][0]);
    assert(seq!['c', 'o', 'n', 's'][0] != seq!['e', 'x', 'p', '2'][0]);
    assert(seq!['c', 'o', 'n', 's'][0] != seq!['l', 'o', 'g', '2'][0]);
    assert(seq!['c', 'o', 'n', 's'][0] != seq!['q', 'u', 'o', 't'][0]);
    assert(seq!['c', 'o', 'n', 's'][0] != seq!['r', 'a', 'n', 'd'][0]);
    assert(seq!['c', 'o', 'n', 's'][0] != seq!['n', 'o', 't', '='][0]);
    assert(seq!['c', 'o', 'n', 's'][0] != seq!['p', 'u', 's', 'h'][0]);
    assert(seq!['c', 'o', 'n', 's'][0] != seq!['s', 'o', 'r', 't'][0]);
    assert(seq!['c', 'o', 'n', 's'][0] != seq!['l', 'i', 's', 't'][0]);
    assert(seq!['c', 'o', 'n', 's'][0] != seq!['l', 'a', 's', 't'][0]);
    assert(seq!['c', 'o', 'n', 's'][0] != seq!['r', 'e', 's', 't'][0]);
}

proof fn lemma_round_trip_take()
    ensures
        spec_from_name(CoreFnId::Take.spec_name()) == Some(CoreFnId::Take),
{
    assert(seq!['t', 'a', 'k', 'e'][0] != seq!['w', 'h', 'e', 'n'][0]);
    assert(seq!['t', 'a', 'k', 'e'][0] != seq!['s', 'o', 'm', 'e'][0]);
    assert(seq!['t', 'a', 'k', 'e'][0] != seq!['n', 'a', 'n', '?'][0]);
    assert(seq!['t', 'a', 'k', 'e'][0] != seq!['i', 'n', 'f', '?'][0]);
    assert(seq!['t', 'a', 'k', 'e'][0] != seq!['o', 'd', 'd', '?'][0]);
    assert(seq!['t', 'a', 'k', 'e'][0] != seq!['p', 'o', 's', '?'][0]);
    assert(seq!['t', 'a', 'k', 'e'][0] != seq!['n', 'e', 'g', '?'][0]);
    assert(seq!['t', 'a', 'k', 'e'][0] != seq!['c', 'e', 'i', 'l'][0]);
    assert(seq!['t', 'a', 'k', 'e'][0] != seq!['s', 'q', 'r', 't'][0]);
    assert(seq!['t', 'a', 'k', 'e'][0] != seq!['e', 'x', 'p', '2'][0]);
    assert(seq!['t', 'a', 'k', 'e'][0] != seq!['l', 'o', 'g', '2'][0]);
    assert(seq!['t', 'a', 'k', 'e'][0] != seq!['q', 'u', 'o', 't'][0]);
    assert(seq!['t', 'a', 'k', 'e'][0] != seq!['r', 'a', 'n', 'd'][0]);
    assert(seq!['t', 'a', 'k', 'e'][0] != seq!['n', 'o', 't', '='][0]);
    assert(seq!['t', 'a', 'k', 'e'][0] != seq!['p', 'u', 's', 'h'][0]);
    assert(seq!['t', 'a', 'k', 'e'][0] != seq!['s', 'o', 'r', 't'][0]);
    assert(seq!['t', 'a', 'k', 'e'][0] != seq!['l', 'i', 's', 't'][0]);
    assert(seq!['t', 'a', 'k', 'e'][0] != seq!['l', 'a', 's', 't'][0]);
    assert(seq!['t', 'a', 'k', 'e'][0] != seq!['r', 'e', 's', 't'][0]);
    assert(seq!['t', 'a', 'k', 'e'][0] != seq!['c', 'o', 'n', 's'][0]);
}

proof fn lemma_round_trip_drop()
    ensures
        spec_from_name(CoreFnId::Drop.spec_name()) == Some(CoreFnId::Drop),
{
    assert(seq!['d', 'r', 'o', 'p'][0] != seq!['w', 'h', 'e', 'n'][0]);
    assert(seq!['d', 'r', 'o', 'p'][0] != seq!['s', 'o', 'm', 'e'][0]);
    assert(seq!['d', 'r', 'o', 'p'][0] != seq!['n', 'a', 'n', '?'][0]);
    assert(seq!['d', 'r', 'o', 'p'][0] != seq!['i', 'n', 'f', '?'][0]);
    assert(seq!['d', 'r', 'o', 'p'][0] != seq!['o', 'd', 'd', '?'][0]);
    assert(seq!['d', 'r', 'o', 'p'][0] != seq!['p', 'o', 's', '?'][0]);
    assert(seq!['d', 'r', 'o', 'p'][0] != seq!['n', 'e', 'g', '?'][0]);
    assert(seq!['d', 'r', 'o', 'p'][0] != seq!['c', 'e', 'i', 'l'][0]);
    assert(seq!['d', 'r', 'o', 'p'][0] != seq!['s', 'q', 'r', 't'][0]);
    assert(seq!['d', 'r', 'o', 'p'][0] != seq!['e', 'x', 'p', '2'][0]);
    assert(seq!['d', 'r', 'o', 'p'][0] != seq!['l', 'o', 'g', '2'][0]);
    assert(seq!['d', 'r', 'o', 'p'][0] != seq!['q', 'u', 'o', 't'][0]);
    assert(seq!['d', 'r', 'o', 'p'][0] != seq!['r', 'a', 'n', 'd'][0]);
    assert(seq!['d', 'r', 'o', 'p'][0] != seq!['n', 'o', 't', '='][0]);
    assert(seq!['d', 'r', 'o', 'p'][0] != seq!['p', 'u', 's', 'h'][0]);
    assert(seq!['d', 'r', 'o', 'p'][0] != seq!['s', 'o', 'r', 't'][0]);
    assert(seq!['d', 'r', 'o', 'p'][0] != seq!['l', 'i', 's', 't'][0]);
    assert(seq!['d', 'r', 'o', 'p'][0] != seq!['l', 'a', 's', 't'][0]);
    assert(seq!['d', 'r', 'o', 'p'][0] != seq!['r', 'e', 's', 't'][0]);
    assert(seq!['d', 'r', 'o', 'p'][0] != seq!['c', 'o', 'n', 's'][0]);
    assert(seq!['d', 'r', 'o', 'p'][0] != seq!['t', 'a', 'k', 'e'][0]);
}

proof fn lemma_round_trip_keys()
    ensures
        spec_from_name(CoreFnId::Keys.spec_name()) == Some(CoreFnId::Keys),
{
    assert(seq!['k', 'e', 'y', 's'][0] != seq!['w', 'h', 'e', 'n'][0]);
    assert(seq!['k', 'e', 'y', 's'][0] != seq!['s', 'o', 'm', 'e'][0]);
    assert(seq!['k', 'e', 'y', 's'][0] != seq!['n', 'a', 'n', '?'][0]);
    assert(seq!['k', 'e', 'y', 's'][0] != seq!['i', 'n', 'f', '?'][0]);
    assert(seq!['k', 'e', 'y', 's'][0] != seq!['o', 'd', 'd', '?'][0]);
    assert(seq!['k', 'e', 'y', 's'][0] != seq!['p', 'o', 's', '?'][0]);
    assert(seq!['k', 'e', 'y', 's'][0] != seq!['n', 'e', 'g', '?'][0]);
    assert(seq!['k', 'e', 'y', 's'][0] != seq!['c', 'e', 'i', 'l'][0]);
    assert(seq!['k', 'e', 'y', 's'][0] != seq!['s', 'q', 'r', 't'][0]);
    assert(seq!['k', 'e', 'y', 's'][0] != seq!['e', 'x', 'p', '2'][0]);
    assert(seq!['k', 'e', 'y', 's'][0] != seq!['l', 'o', 'g', '2'][0]);
    assert(seq!['k', 'e', 'y', 's'][0] != seq!['q', 'u', 'o', 't'][0]);
    assert(seq!['k', 'e', 'y', 's'][0] != seq!['r', 'a', 'n', 'd'][0]);
    assert(seq!['k', 'e', 'y', 's'][0] != seq!['n', 'o', 't', '='][0]);
    assert(seq!['k', 'e', 'y', 's'][0] != seq!['p', 'u', 's', 'h'][0]);
    assert(seq!['k', 'e', 'y', 's'][0] != seq!['s', 'o', 'r', 't'][0]);
    assert(seq!['k', 'e', 'y', 's'][0] != seq!['l', 'i', 's', 't'][0]);
    assert(seq!['k', 'e', 'y', 's'][0] != seq!['l', 'a', 's', 't'][0]);
    assert(seq!['k', 'e', 'y', 's'][0] != seq!['r', 'e', 's', 't'][0]);
    assert(seq!['k', 'e', 'y', 's'][0] != seq!['c', 'o', 'n', 's'][0]);
    assert(seq!['k', 'e', 'y', 's'][0] != seq!['t', 'a', 'k', 'e'][0]);
    assert(seq!['k', 'e', 'y', 's'][0] != seq!['d', 'r', 'o', 'p'][0]);
}

proof fn lemma_round_trip_values()
    ensures
        spec_from_name(CoreFnId::Values.spec_name()) == Some(CoreFnId::Values),
{
    assert(seq!['v', 'a', 'l', 's'][0] != seq!['w', 'h', 'e', 'n'][0]);
    assert(seq!['v', 'a', 'l', 's'][0] != seq!['s', 'o', 'm', 'e'][0]);
    assert(seq!['v', 'a', 'l', 's'][0] != seq!['n', 'a', 'n', '?'][0]);
    assert(seq!['v', 'a', 'l', 's'][0] != seq!['i', 'n', 'f', '?'][0]);
    assert(seq!['v', 'a', 'l', 's'][0] != seq!['o', 'd', 'd', '?'][0]);
    assert(seq!['v', 'a', 'l', 's'][0] != seq!['p', 'o', 's', '?'][0]);
    assert(seq!['v', 'a', 'l', 's'][0] != seq!['n', 'e', 'g', '?'][0]);
    assert(seq!['v', 'a', 'l', 's'][0] != seq!['c', 'e', 'i', 'l'][0]);
    assert(seq!['v', 'a', 'l', 's'][0] != seq!['s', 'q', 'r', 't'][0]);
    assert(seq!['v', 'a', 'l', 's'][0] != seq!['e', 'x', 'p', '2'][0]);
    assert(seq!['v', 'a', 'l', 's'][0] != seq!['l', 'o', 'g', '2'][0]);
    assert(seq!['v', 'a', 'l', 's'][0] != seq!['q', 'u', 'o', 't'][0]);
    assert(seq!['v', 'a', 'l', 's'][0] != seq!['r', 'a', 'n', 'd'][0]);
    assert(seq!['v', 'a', 'l', 's'][0] != seq!['n', 'o', 't', '='][0]);
    assert(seq!['v', 'a', 'l', 's'][0] != seq!['p', 'u', 's', 'h'][0]);
    assert(seq!['v', 'a', 'l', 's'][0] != seq!['s', 'o', 'r', 't'][0]);
    assert(seq!['v', 'a', 'l', 's'][0] != seq!['l', 'i', 's', 't'][0]);
    assert(seq!['v', 'a', 'l', 's'][0] != seq!['l', 'a', 's', 't'][0]);
    assert(seq!['v', 'a', 'l', 's'][0] != seq!['r', 'e', 's', 't'][0]);
    assert(seq!['v', 'a', 'l', 's'][0] != seq!['c', 'o', 'n', 's'][0]);
    assert(seq!['v', 'a', 'l', 's'][0] != seq!['t', 'a', 'k', 'e'][0]);
    assert(seq!['v', 'a', 'l', 's'][0] != seq!['d', 'r', 'o', 'p'][0]);
    assert(seq!['v', 'a', 'l', 's'][0] != seq!['k', 'e', 'y', 's'][0]);
}

proof fn lemma_round_trip_is_nil()
    ensures
        spec_from_name(CoreFnId::IsNil.spec_name()) == Some(CoreFnId::IsNil),
{
    assert(seq!['n', 'i', 'l', '?'][0] != seq!['w', 'h', 'e', 'n'][0]);
    assert(seq!['n', 'i', 'l', '?'][0] != seq!['s', 'o', 'm', 'e'][0]);
    assert(seq!['n', 'i', 'l', '?'][1] != seq!['n', 'a', 'n', '?'][1]);
    assert(seq!['n', 'i', 'l', '?'][0] != seq!['i', 'n', 'f', '?'][0]);
    assert(seq!['n', 'i', 'l', '?'][0] != seq!['o', 'd', 'd', '?'][0]);
    assert(seq!['n', 'i', 'l', '?'][0] != seq!['p', 'o', 's', '?'][0]);
    assert(seq!['n', 'i', 'l', '?'][1] != seq!['n', 'e', 'g', '?'][1]);
    assert(seq!['n', 'i', 'l', '?'][0] != seq!['c', 'e', 'i', 'l'][0]);
    assert(seq!['n', 'i', 'l', '?'][0] != seq!['s', 'q', 'r', 't'][0]);
    assert(seq!['n', 'i', 'l', '?'][0] != seq!['e', 'x', 'p', '2'][0]);
    assert(seq!['n', 'i', 'l', '?'][0] != seq!['l', 'o', 'g', '2'][0]);
    assert(seq!['n', 'i', 'l', '?'][0] != seq!['q', 'u', 'o', 't'][0]);
    assert(seq!['n', 'i', 'l', '?'][0] != seq!['r', 'a', 'n', 'd'][0]);
    assert(seq!['n', 'i', 'l', '?'][1] != seq!['n', 'o', 't', '='][1]);
    assert(seq!['n', 'i', 'l', '?'][0] != seq!['p', 'u', 's', 'h'][0]);
    assert(seq!['n', 'i', 'l', '?'][0] != seq!['s', 'o', 'r', 't'][0]);
    assert(seq!['n', 'i', 'l', '?'][0] != seq!['l', 'i', 's', 't'][0]);
    assert(seq!['n', 'i', 'l', '?'][0] != seq!['l', 'a', 's', 't'][0]);
    assert(seq!['n', 'i', 'l', '?'][0] != seq!['r', 'e', 's', 't'][0]);
    assert(seq!['n', 'i', 'l', '?'][0] != seq!['c', 'o', 'n', 's'][0]);
    assert(seq!['n', 'i', 'l', '?'][0] != seq!['t', 'a', 'k', 'e'][0]);
    assert(seq!['n', 'i', 'l', '?'][0] != seq!['d', 'r', 'o', 'p'][0]);
    assert(seq!['n', 'i', 'l', '?'][0] != seq!['k', 'e', 'y', 's'][0]);
    assert(seq!['n', 'i', 'l', '?'][0] != seq!['v', 'a', 'l', 's'][0]);
}

proof fn lemma_round_trip_is_num()
    ensures
        spec_from_name(CoreFnId::IsNum.spec_name()) == Some(CoreFnId::IsNum),
{
    assert(seq!['n', 'u', 'm', '?'][0] != seq!['w', 'h', 'e', 'n'][0]);
    assert(seq!['n', 'u', 'm', '?'][0] != seq!['s', 'o', 'm', 'e'][0]);
    assert(seq!['n', 'u', 'm', '?'][1] != seq!['n', 'a', 'n', '?'][1]);
    assert(seq!['n', 'u', 'm', '?'][0] != seq!['i', 'n', 'f', '?'][0]);
    assert(seq!['n', 'u', 'm', '?'][0] != seq!['o', 'd', 'd', '?'][0]);
    assert(seq!['n', 'u', 'm', '?'][0] != seq!['p', 'o', 's', '?'][0]);
    assert(seq!['n', 'u', 'm', '?'][1] != seq!['n', 'e', 'g', '?'][1]);
    assert(seq!['n', 'u', 'm', '?'][0] != seq!['c', 'e', 'i', 'l'][0]);
    assert(seq!['n', 'u', 'm', '?'][0] != seq!['s', 'q', 'r', 't'][0]);
    assert(seq!['n', 'u', 'm', '?'][0] != seq!['e', 'x', 'p', '2'][0]);
    assert(seq!['n', 'u', 'm', '?'][0] != seq!['l', 'o', 'g', '2'][0]);
    assert(seq!['n', 'u', 'm', '?'][0] != seq!['q', 'u', 'o', 't'][0]);
    assert(seq!['n', 'u', 'm', '?'][0] != seq!['r', 'a', 'n', 'd'][0]);
    assert(seq!['n', 'u', 'm', '?'][1] != seq!['n', 'o', 't', '='][1]);
    assert(seq!['n', 'u', 'm', '?'][0] != seq!['p', 'u', 's', 'h'][0]);
    assert(seq!['n', 'u', 'm', '?'][0] != seq!['s', 'o', 'r', 't'][0]);
    assert(seq!['n', 'u', 'm', '?'][0] != seq!['l', 'i', 's', 't'][0]);
    assert(seq!['n', 'u', 'm', '?'][0] != seq!['l', 'a', 's', 't'][0]);
    assert(seq!['n', 'u', 'm', '?'][0] != seq!['r', 'e', 's', 't'][0]);
    assert(seq!['n', 'u', 'm', '?'][0] != seq!['c', 'o', 'n', 's'][0]);
    assert(seq!['n', 'u', 'm', '?'][0] != seq!['t', 'a', 'k', 'e'][0]);
    assert(seq!['n', 'u', 'm', '?'][0] != seq!['d', 'r', 'o', 'p'][0]);
    assert(seq!['n', 'u', 'm', '?'][0] != seq!['k', 'e', 'y', 's'][0]);
    assert(seq!['n', 'u', 'm', '?'][0] != seq!['v', 'a', 'l', 's'][0]);
    assert(seq!['n', 'u', 'm', '?'][1] != seq!['n', 'i', 'l', '?'][1]);
}

proof fn lemma_round_trip_is_int()
    ensures
        spec_from_name(CoreFnId::IsInt.spec_name()) == Some(CoreFnId::IsInt),
{
    assert(seq!['i', 'n', 't', '?'][0] != seq!['w', 'h', 'e', 'n'][0]);
    assert(seq!['i', 'n', 't', '?'][0] != seq!['s', 'o', 'm', 'e'][0]);
    assert(seq!['i', 'n', 't', '?'][0] != seq!['n', 'a', 'n', '?'][0]);
    assert(seq!['i', 'n', 't', '?'][2] != seq!['i', 'n', 'f', '?'][2]);
    assert(seq!['i', 'n', 't', '?'][0] != seq!['o', 'd', 'd', '?'][0]);
    assert(seq!['i', 'n', 't', '?'][0] != seq!['p', 'o', 's', '?'][0]);
    assert(seq!['i', 'n', 't', '?'][0] != seq!['n', 'e', 'g', '?'][0]);
    assert(seq!['i', 'n', 't', '?'][0] != seq!['c', 'e', 'i', 'l'][0]);
    assert(seq!['i', 'n', 't', '?'][0] != seq!['s', 'q', 'r', 't'][0]);
    assert(seq!['i', 'n', 't', '?'][0] != seq!['e', 'x', 'p', '2'][0]);
    assert(seq!['i', 'n', 't', '?'][0] != seq!['l', 'o', 'g', '2'][0]);
    assert(seq!['i', 'n', 't', '?'][0] != seq!['q', 'u', 'o', 't'][0]);
    assert(seq!['i', 'n', 't', '?'][0] != seq!['r', 'a', 'n', 'd'][0]);
    assert(seq!['i', 'n', 't', '?'][0] != seq!['n', 'o', 't', '='][0]);
    assert(seq!['i', 'n', 't', '?'][0] != seq!['p', 'u', 's', 'h'][0]);
    assert(seq!['i', 'n', 't', '?'][0] != seq!['s', 'o', 'r', 't'][0]);
    assert(seq!['i', 'n', 't', '?'][0] != seq!['l', 'i', 's', 't'][0]);
    assert(seq!['i', 'n', 't', '?'][0] != seq!['l', 'a', 's', 't'][0]);
    assert(seq!['i', 'n', 't', '?'][0] != seq!['r', 'e', 's', 't'][0]);
    assert(seq!['i', 'n', 't', '?'][0] != seq!['c', 'o', 'n', 's'][0]);
    assert(seq!['i', 'n', 't', '?'][0] != seq!['t', 'a', 'k', 'e'][0]);
    assert(seq!['i', 'n', 't', '?'][0] != seq!['d', 'r', 'o', 'p'][0]);
    assert(seq!['i', 'n', 't', '?'][0] != seq!['k', 'e', 'y', 's'][0]);
    assert(seq!['i', 'n', 't', '?'][0] != seq!['v', 'a', 'l', 's'][0]);
    assert(seq!['i', 'n', 't', '?'][0] != seq!['n', 'i', 'l', '?'][0]);
    assert(seq!['i', 'n', 't', '?'][0] != seq!['n', 'u', 'm', '?'][0]);
}

proof fn lemma_round_trip_is_string()
    ensures
        spec_from_name(CoreFnId::IsString.spec_name()) == Some(CoreFnId::IsString),
{
    assert(seq!['s', 't', 'r', '?'][0] != seq!['w', 'h', 'e', 'n'][0]);
    assert(seq!['s', 't', 'r', '?'][1] != seq!['s', 'o', 'm', 'e'][1]);
    assert(seq!['s', 't', 'r', '?'][0] != seq!['n', 'a', 'n', '?'][0]);
    assert(seq!['s', 't', 'r', '?'][0] != seq!['i', 'n', 'f', '?'][0]);
    assert(seq!['s', 't', 'r', '?'][0] != seq!['o', 'd', 'd', '?'][0]);
    assert(seq!['s', 't', 'r', '?'][0] != seq!['p', 'o', 's', '?'][0]);
    assert(seq!['s', 't', 'r', '?'][0] != seq!['n', 'e', 'g', '?'][0]);
    assert(seq!['s', 't', 'r', '?'][0] != seq!['c', 'e', 'i', 'l'][0]);
    assert(seq!['s', 't', 'r', '?'][1] != seq!['s', 'q', 'r', 't'][1]);
    assert(seq!['s', 't', 'r', '?'][0] != seq!['e', 'x', 'p', '2'][0]);
    assert(seq!['s', 't', 'r', '?'][0] != seq!['l', 'o', 'g', '2'][0]);
    assert(seq!['s', 't', 'r', '?'][0] != seq!['q', 'u', 'o', 't'][0]);
    assert(seq!['s', 't', 'r', '?'][0] != seq!['r', 'a', 'n', 'd'][0]);
    assert(seq!['s', 't', 'r', '?'][0] != seq!['n', 'o', 't', '='][0]);
    assert(seq!['s', 't', 'r', '?'][0] != seq!['p', 'u', 's', 'h'][0]);
    assert(seq!['s', 't', 'r', '?'][1] != seq!['s', 'o', 'r', 't'][1]);
    assert(seq!['s', 't', 'r', '?'][0] != seq!['l', 'i', 's', 't'][0]);
    assert(seq!['s', 't', 'r', '?'][0] != seq!['l', 'a', 's', 't'][0]);
    assert(seq!['s', 't', 'r', '?'][0] != seq!['r', 'e', 's', 't'][0]);
    assert(seq!['s', 't', 'r', '?'][0] != seq!['c', 'o', 'n', 's'][0]);
    assert(seq!['s', 't', 'r', '?'][0] != seq!['t', 'a', 'k', 'e'][0]);
    assert(seq!['s', 't', 'r', '?'][0] != seq!['d', 'r', 'o', 'p'][0]);
    assert(seq!['s', 't', 'r', '?'][0] != seq!['k', 'e', 'y', 's'][0]);
    assert(seq!['s', 't', 'r', '?'][0] != seq!['v', 'a', 'l', 's'][0]);
    assert(seq!['s', 't', 'r', '?'][0] != seq!['n', 'i', 'l', '?'][0]);
    assert(seq!['s', 't', 'r', '?'][0] != seq!['n', 'u', 'm', '?'][0]);
    assert(seq!['s', 't', 'r', '?'][0] != seq!['i', 'n', 't', '?'][0]);
}

proof fn lemma_round_trip_to_bool()
    ensures
        spec_from_name(CoreFnId::ToBool.spec_name()) == Some(CoreFnId::ToBool),
{
    assert(seq!['b', 'o', 'o', 'l'][0] != seq!['w', 'h', 'e', 'n'][0]);
    assert(seq!['b', 'o', 'o', 'l'][0] != seq!['s', 'o', 'm', 'e'][0]);
    assert(seq!['b', 'o', 'o', 'l'][0] != seq!['n', 'a', 'n', '?'][0]);
    assert(seq!['b', 'o', 'o', 'l'][0] != seq!['i', 'n', 'f', '?'][0]);
    assert(seq!['b', 'o', 'o', 'l'][0] != seq!['o', 'd', 'd', '?'][0]);
    assert(seq!['b', 'o', 'o', 'l'][0] != seq!['p', 'o', 's', '?'][0]);
    assert(seq!['b', 'o', 'o', 'l'][0] != seq!['n', 'e', 'g', '?'][0]);
    assert(seq!['b', 'o', 'o', 'l'][0] != seq!['c', 'e', 'i', 'l'][0]);
    assert(seq!['b', 'o', 'o', 'l'][0] != seq!['s', 'q', 'r', 't'][0]);
    assert(seq!['b', 'o', 'o', 'l'][0] != seq!['e', 'x', 'p', '2'][0]);
    assert(seq!['b', 'o', 'o', 'l'][0] != seq!['l', 'o', 'g', '2'][0]);
    assert(seq!['b', 'o', 'o', 'l'][0] != seq!['q', 'u', 'o', 't'][0]);
    assert(seq!['b', 'o', 'o', 'l'][0] != seq!['r', 'a', 'n', 'd'][0]);
    assert(seq!['b', 'o', 'o', 'l'][0] != seq!['n', 'o', 't', '='][0]);
    assert(seq!['b', 'o', 'o', 'l'][0] != seq!['p', 'u', 's', 'h'][0]);
    assert(seq!['b', 'o', 'o', 'l'][0] != seq!['s', 'o', 'r', 't'][0]);
    assert(seq!['b', 'o', 'o', 'l'][0] != seq!['l', 'i', 's', 't'][0]);
    assert(seq!['b', 'o', 'o', 'l'][0] != seq!['l', 'a', 's', 't'][0]);
    assert(seq!['b', 'o', 'o', 'l'][0] != seq!['r', 'e', 's', 't'][0]);
    assert(seq!['b', 'o', 'o', 'l'][0] != seq!['c', 'o', 'n', 's'][0]);
    assert(seq!['b', 'o', 'o', 'l'][0] != seq!['t', 'a', 'k', 'e'][0]);
    assert(seq!['b', 'o', 'o', 'l'][0] != seq!['d', 'r', 'o', 'p'][0]);
    assert(seq!['b', 'o', 'o', 'l'][0] != seq!['k', 'e', 'y', 's'][0]);
    assert(seq!['b', 'o', 'o', 'l'][0] != seq!['v', 'a', 'l', 's'][0]);
    assert(seq!['b', 'o', 'o', 'l'][0] != seq!['n', 'i', 'l', '?'][0]);
    assert(seq!['b', 'o', 'o', 'l'][0] != seq!['n', 'u', 'm', '?'][0]);
    assert(seq!['b', 'o', 'o', 'l'][0] != seq!['i', 'n', 't', '?'][0]);
    assert(seq!['b', 'o', 'o', 'l'][0] != seq!['s', 't', 'r', '?'][0]);
}

proof fn lemma_round_trip_to_char()
    ensures
        spec_from_name(CoreFnId::ToChar.spec_name()) == Some(CoreFnId::ToChar),
{
    assert(seq!['c', 'h', 'a', 'r'][0] != seq!['w', 'h', 'e', 'n'][0]);
    assert(seq!['c', 'h', 'a', 'r'][0] != seq!['s', 'o', 'm', 'e'][0]);
    assert(seq!['c', 'h', 'a', 'r'][0] != seq!['n', 'a', 'n', '?'][0]);
    assert(seq!['c', 'h', 'a', 'r'][0] != seq!['i', 'n', 'f', '?'][0]);
    assert(seq!['c', 'h', 'a', 'r'][0] != seq!['o', 'd', 'd', '?'][0]);
    assert(seq!['c', 'h', 'a', 'r'][0] != seq!['p', 'o', 's', '?'][0]);
    assert(seq!['c', 'h', 'a', 'r'][0] != seq!['n', 'e', 'g', '?'][0]);
    assert(seq!['c', 'h', 'a', 'r'][1] != seq!['c', 'e', 'i', 'l'][1]);
    assert(seq!['c', 'h', 'a', 'r'][0] != seq!['s', 'q', 'r', 't'][0]);
    assert(seq!['c', 'h', 'a', 'r'][0] != seq!['e', 'x', 'p', '2'][0]);
    assert(seq!['c', 'h', 'a', 'r'][0] != seq!['l', 'o', 'g', '2'][0]);
    assert(seq!['c', 'h', 'a', 'r'][0] != seq!['q', 'u', 'o', 't'][0]);
    assert(seq!['c', 'h', 'a', 'r'][0] != seq!['r', 'a', 'n', 'd'][0]);
    assert(seq!['c', 'h', 'a', 'r'][0] != seq!['n', 'o', 't', '='][0]);
    assert(seq!['c', 'h', 'a', 'r'][0] != seq!['p', 'u', 's', 'h'][0]);
    assert(seq!['c', 'h', 'a', 'r'][0] != seq!['s', 'o', 'r', 't'][0]);
    assert(seq!['c', 'h', 'a', 'r'][0] != seq!['l', 'i', 's', 't'][0]);
    assert(seq!['c', 'h', 'a', 'r'][0] != seq!['l', 'a', 's', 't'][0]);
    assert(seq!['c', 'h', 'a', 'r'][0] != seq!['r', 'e', 's', 't'][0]);
    assert(seq!['c', 'h', 'a', 'r'][1] != seq!['c', 'o', 'n', 's'][1]);
    assert(seq!['c', 'h', 'a', 'r'][0] != seq!['t', 'a', 'k', 'e'][0]);
    assert(seq!['c', 'h', 'a', 'r'][0] != seq!['d', 'r', 'o', 'p'][0]);
    assert(seq!['c', 'h', 'a', 'r'][0] != seq!['k', 'e', 'y', 's'][0]);
    assert(seq!['c', 'h', 'a', 'r'][0] != seq!['v', 'a', 'l', 's'][0]);
    assert(seq!['c', 'h', 'a', 'r'][0] != seq!['n', 'i', 'l', '?'][0]);
    assert(seq!['c', 'h', 'a', 'r'][0] != seq!['n', 'u', 'm', '?'][0]);
    assert(seq!['c', 'h', 'a', 'r'][0] != seq!['i', 'n', 't', '?'][0]);
    assert(seq!['c', 'h', 'a', 'r'][0] != seq!['s', 't', 'r', '?'][0]);
    assert(seq!['c', 'h', 'a', 'r'][0] != seq!['b', 'o', 'o', 'l'][0]);
}

proof fn lemma_round_trip_print()
    ensures
        spec_from_name(CoreFnId::Print.spec_name()) == Some(CoreFnId::Print),
{
}

proof fn lemma_round_trip_apply()
    ensures
        spec_from_name(CoreFnId::Apply.spec_name()) == Some(CoreFnId::Apply),
{
    assert(seq!['a', 'p', 'p', 'l', 'y'][0] != seq!['p', 'r', 'i', 'n', 't'][0]);
}

proof fn lemma_round_trip_is_zero()
    ensures
        spec_from_name(CoreFnId::IsZero.spec_name()) == Some(CoreFnId::IsZero),
{
    assert(seq!['z', 'e', 'r', 'o', '?'][0] != seq!['p', 'r', 'i', 'n', 't'][0]);
    assert(seq!['z', 'e', 'r', 'o', '?'][0] != seq!['a', 'p', 'p', 'l', 'y'][0]);
}

proof fn lemma_round_trip_is_even()
    ensures
        spec_from_name(CoreFnId::IsEven.spec_name()) == Some(CoreFnId::IsEven),
{
    assert(seq!['e', 'v', 'e', 'n', '?'][0] != seq!['p', 'r', 'i', 'n', 't'][0]);
    assert(seq!['e', 'v', 'e', 'n', '?'][0] != seq!['a', 'p', 'p', 'l', 'y'][0]);
    assert(seq!['e', 'v', 'e', 'n', '?'][0] != seq!['z', 'e', 'r', 'o', '?'][0]);
}

proof fn lemma_round_trip_floor()
    ensures
        spec_from_name(CoreFnId::Floor.spec_name()) == Some(CoreFnId::Floor),
{
    assert(seq!['f', 'l', 'o', 'o', 'r'][0] != seq!['p', 'r', 'i', 'n', 't'][0]);
    assert(seq!['f', 'l', 'o', 'o', 'r'][0] != seq!['a', 'p', 'p', 'l', 'y'][0]);
    assert(seq!['f', 'l', 'o', 'o', 'r'][0] != seq!['z', 'e', 'r', 'o', '?'][0]);
    assert(seq!['f', 'l', 'o', 'o', 'r'][0] != seq!['e', 'v', 'e', 'n', '?'][0]);
}

proof fn lemma_round_trip_first()
    ensures
        spec_from_name(CoreFnId::First.spec_name()) == Some(CoreFnId::First),
{
    assert(seq!['f', 'i', 'r', 's', 't'][0] != seq!['p', 'r', 'i', 'n', 't'][0]);
    assert(seq!['f', 'i', 'r', 's', 't'][0] != seq!['a', 'p', 'p', 'l', 'y'][0]);
    assert(seq!['f', 'i', 'r', 's', 't'][0] != seq!['z', 'e', 'r', 'o', '?'][0]);
    assert(seq!['f', 'i', 'r', 's', 't'][0] != seq!['e', 'v', 'e', 'n', '?'][0]);
    assert(seq!['f', 'i', 'r', 's', 't'][1] != seq!['f', 'l', 'o', 'o', 'r'][1]);
}

proof fn lemma_round_trip_count()
    ensures
        spec_from_name(CoreFnId::Count.spec_name()) == Some(CoreFnId::Count),
{
    assert(seq!['c', 'o', 'u', 'n', 't'][0] != seq!['p', 'r', 'i', 'n', 't'][0]);
    assert(seq!['c', 'o', 'u', 'n', 't'][0] != seq!['a', 'p', 'p', 'l', 'y'][0]);
    assert(seq!['c', 'o', 'u', 'n', 't'][0] != seq!['z', 'e', 'r', 'o', '?'][0]);
    assert(seq!['c', 'o', 'u', 'n', 't'][0] != seq!['e', 'v', 'e', 'n', '?'][0]);
    assert(seq!['c', 'o', 'u', 'n', 't'][0] != seq!['f', 'l', 'o', 'o', 'r'][0]);
    assert(seq!['c', 'o', 'u', 'n', 't'][0] != seq!['f', 'i', 'r', 's', 't'][0]);
}

proof fn lemma_round_trip_merge()
    ensures
        spec_from_name(CoreFnId::Merge.spec_name()) == Some(CoreFnId::Merge),
{
    assert(seq!['m', 'e', 'r', 'g', 'e'][0] != seq!['p', 'r', 'i', 'n', 't'][0]);
    assert(seq!['m', 'e', 'r', 'g', 'e'][0] != seq!['a', 'p', 'p', 'l', 'y'][0]);
    assert(seq!['m', 'e', 'r', 'g', 'e'][0] != seq!['z', 'e', 'r', 'o', '?'][0]);
    assert(seq!['m', 'e', 'r', 'g', 'e'][0] != seq!['e', 'v', 'e', 'n', '?'][0]);
    assert(seq!['m', 'e', 'r', 'g', 'e'][0] != seq!['f', 'l', 'o', 'o', 'r'][0]);
    assert(seq!['m', 'e', 'r', 'g', 'e'][0] != seq!['f', 'i', 'r', 's', 't'][0]);
    assert(seq!['m', 'e', 'r', 'g', 'e'][0] != seq!['c', 'o', 'u', 'n', 't'][0]);
}

proof fn lemma_round_trip_union()
    ensures
        spec_from_name(CoreFnId::Union.spec_name()) == Some(CoreFnId::Union),
{
    assert(seq!['u', 'n', 'i', 'o', 'n'][0] != seq!['p', 'r', 'i', 'n', 't'][0]);
    assert(seq!['u', 'n', 'i', 'o', 'n'][0] != seq!['a', 'p', 'p', 'l', 'y'][0]);
    assert(seq!['u', 'n', 'i', 'o', 'n'][0] != seq!['z', 'e', 'r', 'o', '?'][0]);
    assert(seq!['u', 'n', 'i', 'o', 'n'][0] != seq!['e', 'v', 'e', 'n', '?'][0]);
    assert(seq!['u', 'n', 'i', 'o', 'n'][0] != seq!['f', 'l', 'o', 'o', 'r'][0]);
    assert(seq!['u', 'n', 'i', 'o', 'n'][0] != seq!['f', 'i', 'r', 's', 't'][0]);
    assert(seq!['u', 'n', 'i', 'o', 'n'][0] != seq!['c', 'o', 'u', 'n', 't'][0]);
    assert(seq!['u', 'n', 'i', 'o', 'n'][0] != seq!['m', 'e', 'r', 'g', 'e'][0]);
}

proof fn lemma_round_trip_range()
    ensures
        spec_from_name(CoreFnId::Range.spec_name()) == Some(CoreFnId::Range),
{
    assert(seq!['r', 'a', 'n', 'g', 'e'][0] != seq!['p', 'r', 'i', 'n', 't'][0]);
    assert(seq!['r', 'a', 'n', 'g', 'e'][0] != seq!['a', 'p', 'p', 'l', 'y'][0]);
    assert(seq!['r', 'a', 'n', 'g', 'e'][0] != seq!['z', 'e', 'r', 'o', '?'][0]);
    assert(seq!['r', 'a', 'n', 'g', 'e'][0] != seq!['e', 'v', 'e', 'n', '?'][0]);
    assert(seq!['r', 'a', 'n', 'g', 'e'][0] != seq!['f', 'l', 'o', 'o', 'r'][0]);
    assert(seq!['r', 'a', 'n', 'g', 'e'][0] != seq!['f', 'i', 'r', 's', 't'][0]);
    assert(seq!['r', 'a', 'n', 'g', 'e'][0] != seq!['c', 'o', 'u', 'n', 't'][0]);
    assert(seq!['r', 'a', 'n', 'g', 'e'][0] != seq!['m', 'e', 'r', 'g', 'e'][0]);
    assert(seq!['r', 'a', 'n', 'g', 'e'][0] != seq!['u', 'n', 'i', 'o', 'n'][0]);
}

proof fn lemma_round_trip_is_bool()
    ensures
        spec_from_name(CoreFnId::IsBool.spec_name()) == Some(CoreFnId::IsBool),
{
    assert(seq!['b', 'o', 'o', 'l', '?'][0] != seq!['p', 'r', 'i', 'n', 't'][0]);
    assert(seq!['b', 'o', 'o', 'l', '?'][0] != seq!['a', 'p', 'p', 'l', 'y'][0]);
    assert(seq!['b', 'o', 'o', 'l', '?'][0] != seq!['z', 'e', 'r', 'o', '?'][0]);
    assert(seq!['b', 'o', 'o', 'l', '?'][0] != seq!['e', 'v', 'e', 'n', '?'][0]);
    assert(seq!['b', 'o', 'o', 'l', '?'][0] != seq!['f', 'l', 'o', 'o', 'r'][0]);
    assert(seq!['b', 'o', 'o', 'l', '?'][0] != seq!['f', 'i', 'r', 's', 't'][0]);
    assert(seq!['b', 'o', 'o', 'l', '?'][0] != seq!['c', 'o', 'u', 'n', 't'][0]);
    assert(seq!['b', 'o', 'o', 'l', '?'][0] != seq!['m', 'e', 'r', 'g', 'e'][0]);
    assert(seq!['b', 'o', 'o', 'l', '?'][0] != seq!['u', 'n', 'i', 'o', 'n'][0]);
    assert(seq!['b', 'o', 'o', 'l', '?'][0] != seq!['r', 'a', 'n', 'g', 'e'][0]);
}

proof fn lemma_round_trip_is_char()
    ensures
        spec_from_name(CoreFnId::IsChar.spec_name()) == Some(CoreFnId::IsChar),
{
    assert(seq!['c', 'h', 'a', 'r', '?'][0] != seq!['p', 'r', 'i', 'n', 't'][0]);
    assert(seq!['c', 'h', 'a', 'r', '?'][0] != seq!['a', 'p', 'p', 'l', 'y'][0]);
    assert(seq!['c', 'h', 'a', 'r', '?'][0] != seq!['z', 'e', 'r', 'o', '?'][0]);
    assert(seq!['c', 'h', 'a', 'r', '?'][0] != seq!['e', 'v', 'e', 'n', '?'][0]);
    assert(seq!['c', 'h', 'a', 'r', '?'][0] != seq!['f', 'l', 'o', 'o', 'r'][0]);
    assert(seq!['c', 'h', 'a', 'r', '?'][0] != seq!['f', 'i', 'r', 's', 't'][0]);
    assert(seq!['c', 'h', 'a', 'r', '?'][1] != seq!['c', 'o', 'u', 'n', 't'][1]);
    assert(seq!['c', 'h', 'a', 'r', '?'][0] != seq!['m', 'e', 'r', 'g', 'e'][0]);
    assert(seq!['c', 'h', 'a', 'r', '?'][0] != seq!['u', 'n', 'i', 'o', 'n'][0]);
    assert(seq!['c', 'h', 'a', 'r', '?'][0] != seq!['r', 'a', 'n', 'g', 'e'][0]);
    assert(seq!['c', 'h', 'a', 'r', '?'][0] != seq!['b', 'o', 'o', 'l', '?'][0]);
}

proof fn lemma_round_trip_is_list()
    ensures
        spec_from_name(CoreFnId::IsList.spec_name()) == Some(CoreFnId::IsList),
{
    assert(seq!['l', 'i', 's', 't', '?'][0] != seq!['p', 'r', 'i', 'n', 't'][0]);
    assert(seq!['l', 'i', 's', 't', '?'][0] != seq!['a', 'p', 'p', 'l', 'y'][0]);
    assert(seq!['l', 'i', 's', 't', '?'][0] != seq!['z', 'e', 'r', 'o', '?'][0]);
    assert(seq!['l', 'i', 's', 't', '?'][0] != seq!['e', 'v', 'e', 'n', '?'][0]);
    assert(seq!['l', 'i', 's', 't', '?'][0] != seq!['f', 'l', 'o', 'o', 'r'][0]);
    assert(seq!['l', 'i', 's', 't', '?'][0] != seq!['f', 'i', 'r', 's', 't'][0]);
    assert(seq!['l', 'i', 's', 't', '?'][0] != seq!['c', 'o', 'u', 'n', 't'][0]);
    assert(seq!['l', 'i', 's', 't', '?'][0] != seq!['m', 'e', 'r', 'g', 'e'][0]);
    assert(seq!['l', 'i', 's', 't', '?'][0] != seq!['u', 'n', 'i', 'o', 'n'][0]);
    assert(seq!['l', 'i', 's', 't', '?'][0] != seq!['r', 'a', 'n', 'g', 'e'][0]);
    assert(seq!['l', 'i', 's', 't', '?'][0] != seq!['b', 'o', 'o', 'l', '?'][0]);
    assert(seq!['l', 'i', 's', 't', '?'][0] != seq!['c', 'h', 'a', 'r', '?'][0]);
}

proof fn lemma_round_trip_to_float()
    ensures
        spec_from_name(CoreFnId::ToFloat.spec_name()) == Some(CoreFnId::ToFloat),
{
    assert(seq!['f', 'l', 'o', 'a', 't'][0] != seq!['p', 'r', 'i', 'n', 't'][0]);
    assert(seq!['f', 'l', 'o', 'a', 't'][0] != seq!['a', 'p', 'p', 'l', 'y'][0]);
    assert(seq!['f', 'l', 'o', 'a', 't'][0] != seq!['z', 'e', 'r', 'o', '?'][0]);
    assert(seq!['f', 'l', 'o', 'a', 't'][0] != seq!['e', 'v', 'e', 'n', '?'][0]);
    assert(seq!['f', 'l', 'o', 'a', 't'][3] != seq!['f', 'l', 'o', 'o', 'r'][3]);
    assert(seq!['f', 'l', 'o', 'a', 't'][1] != seq!['f', 'i', 'r', 's', 't'][1]);
    assert(seq!['f', 'l', 'o', 'a', 't'][0] != seq!['c', 'o', 'u', 'n', 't'][0]);
    assert(seq!['f', 'l', 'o', 'a', 't'][0] != seq!['m', 'e', 'r', 'g', 'e'][0]);
    assert(seq!['f', 'l', 'o', 'a', 't'][0] != seq!['u', 'n', 'i', 'o', 'n'][0]);
    assert(seq!['f', 'l', 'o', 'a', 't'][0] != seq!['r', 'a', 'n', 'g', 'e'][0]);
    assert(seq!['f', 'l', 'o', 'a', 't'][0] != seq!['b', 'o', 'o', 'l', '?'][0]);
    assert(seq!['f', 'l', 'o', 'a', 't'][0] != seq!['c', 'h', 'a', 'r', '?'][0]);
    assert(seq!['f', 'l', 'o', 'a', 't'][0] != seq!['l', 'i', 's', 't', '?'][0]);
}

proof fn lemma_round_trip_reduce()
    ensures
        spec_from_name(CoreFnId::Reduce.spec_name()) == Some(CoreFnId::Reduce),
{
}

proof fn lemma_round_trip_is_empty()
    ensures
        spec_from_name(CoreFnId::IsEmpty.spec_name()) == Some(CoreFnId::IsEmpty),
{
    assert(seq!['e', 'm', 'p', 't', 'y', '?'][0] != seq!['r', 'e', 'd', 'u', 'c', 'e'][0]);
}

proof fn lemma_round_trip_remove()
    ensures
        spec_from_name(CoreFnId::Remove.spec_name()) == Some(CoreFnId::Remove),
{
    assert(seq!['r', 'e', 'm', 'o', 'v', 'e'][2] != seq!['r', 'e', 'd', 'u', 'c', 'e'][2]);
    assert(seq!['r', 'e', 'm', 'o', 'v', 'e'][0] != seq!['e', 'm', 'p', 't', 'y', '?'][0]);
}

proof fn lemma_round_trip_filter()
    ensures
        spec_from_name(CoreFnId::Filter.spec_name()) == Some(CoreFnId::Filter),
{
    assert(seq!['f', 'i', 'l', 't', 'e', 'r'][0] != seq!['r', 'e', 'd', 'u', 'c', 'e'][0]);
    assert(seq!['f', 'i', 'l', 't', 'e', 'r'][0] != seq!['e', 'm', 'p', 't', 'y', '?'][0]);
    assert(seq!['f', 'i', 'l', 't', 'e', 'r'][0] != seq!['r', 'e', 'm', 'o', 'v', 'e'][0]);
}

proof fn lemma_round_trip_set_in()
    ensures
        spec_from_name(CoreFnId::SetIn.spec_name()) == Some(CoreFnId::SetIn),
{
    assert(seq!['s', 'e', 't', '-', 'i', 'n'][0] != seq!['r', 'e', 'd', 'u', 'c', 'e'][0]);
    assert(seq!['s', 'e', 't', '-', 'i', 'n'][0] != seq!['e', 'm', 'p', 't', 'y', '?'][0]);
    assert(seq!['s', 'e', 't', '-', 'i', 'n'][0] != seq!['r', 'e', 'm', 'o', 'v', 'e'][0]);
    assert(seq!['s', 'e', 't', '-', 'i', 'n'][0] != seq!['f', 'i', 'l', 't', 'e', 'r'][0]);
}

proof fn lemma_round_trip_get_in()
    ensures
        spec_from_name(CoreFnId::GetIn.spec_name()) == Some(CoreFnId::GetIn),
{
    assert(seq!['g', 'e', 't', '-', 'i', 'n'][0] != seq!['r', 'e', 'd', 'u', 'c', 'e'][0]);
    assert(seq!['g', 'e', 't', '-', 'i', 'n'][0] != seq!['e', 'm', 'p', 't', 'y', '?'][0]);
    assert(seq!['g', 'e', 't', '-', 'i', 'n'][0] != seq!['r', 'e', 'm', 'o', 'v', 'e'][0]);
    assert(seq!['g', 'e', 't', '-', 'i', 'n'][0] != seq!['f', 'i', 'l', 't', 'e', 'r'][0]);
    assert(seq!['g', 'e', 't', '-', 'i', 'n'][0] != seq!['s', 'e', 't', '-', 'i', 'n'][0]);
}

proof fn lemma_round_trip_update()
    ensures
        spec_from_name(CoreFnId::Update.spec_name()) == Some(CoreFnId::Update),
{
    assert(seq!['u', 'p', 'd', 'a', 't', 'e'][0] != seq!['r', 'e', 'd', 'u', 'c', 'e'][0]);
    assert(seq!['u', 'p', 'd', 'a', 't', 'e'][0] != seq!['e', 'm', 'p', 't', 'y', '?'][0]);
    assert(seq!['u', 'p', 'd', 'a', 't', 'e'][0] != seq!['r', 'e', 'm', 'o', 'v', 'e'][0]);
    assert(seq!['u', 'p', 'd', 'a', 't', 'e'][0] != seq!['f', 'i', 'l', 't', 'e', 'r'][0]);
    assert(seq!['u', 'p', 'd', 'a', 't', 'e'][0] != seq!['s', 'e', 't', '-', 'i', 'n'][0]);
    assert(seq!['u', 'p', 'd', 'a', 't', 'e'][0] != seq!['g', 'e', 't', '-', 'i', 'n'][0]);
}

proof fn lemma_round_trip_concat()
    ensures
        spec_from_name(CoreFnId::Concat.spec_name()) == Some(CoreFnId::Concat),
{
    assert(seq!['c', 'o', 'n', 'c', 'a', 't'][0] != seq!['r', 'e', 'd', 'u', 'c', 'e'][0]);
    assert(seq!['c', 'o', 'n', 'c', 'a', 't'][0] != seq!['e', 'm', 'p', 't', 'y', '?'][0]);
    assert(seq!['c', 'o', 'n', 'c', 'a', 't'][0] != seq!['r', 'e', 'm', 'o', 'v', 'e'][0]);
    assert(seq!['c', 'o', 'n', 'c', 'a', 't'][0] != seq!['f', 'i', 'l', 't', 'e', 'r'][0]);
    assert(seq!['c', 'o', 'n', 'c', 'a', 't'][0] != seq!['s', 'e', 't', '-', 'i', 'n'][0]);
    assert(seq!['c', 'o', 'n', 'c', 'a', 't'][0] != seq!['g', 'e', 't', '-', 'i', 'n'][0]);
    assert(seq!['c', 'o', 'n', 'c', 'a', 't'][0] != seq!['u', 'p', 'd', 'a', 't', 'e'][0]);
}

proof fn lemma_round_trip_invert()
    ensures
        spec_from_name(CoreFnId::Invert.spec_name()) == Some(CoreFnId::Invert),
{
    assert(seq!['i', 'n', 'v', 'e', 'r', 't'][0] != seq!['r', 'e', 'd', 'u', 'c', 'e'][0]);
    assert(seq!['i', 'n', 'v', 'e', 'r', 't'][0] != seq!['e', 'm', 'p', 't', 'y', '?'][0]);
    assert(seq!['i', 'n', 'v', 'e', 'r', 't'][0] != seq!['r', 'e', 'm', 'o', 'v', 'e'][0]);
    assert(seq!['i', 'n', 'v', 'e', 'r', 't'][0] != seq!['f', 'i', 'l', 't', 'e', 'r'][0]);
    assert(seq!['i', 'n', 'v', 'e', 'r', 't'][0] != seq!['s', 'e', 't', '-', 'i', 'n'][0]);
    assert(seq!['i', 'n', 'v', 'e', 'r', 't'][0] != seq!['g', 'e', 't', '-', 'i', 'n'][0]);
    assert(seq!['i', 'n', 'v', 'e', 'r', 't'][0] != seq!['u', 'p', 'd', 'a', 't', 'e'][0]);
    assert(seq!['i', 'n', 'v', 'e', 'r', 't'][0] != seq!['c', 'o', 'n', 'c', 'a', 't'][0]);
}

proof fn lemma_round_trip_repeat()
    ensures
        spec_from_name(CoreFnId::Repeat.spec_name()) == Some(CoreFnId::Repeat),
{
    assert(seq!['r', 'e', 'p', 'e', 'a', 't'][2] != seq!['r', 'e', 'd', 'u', 'c', 'e'][2]);
    assert(seq!['r', 'e', 'p', 'e', 'a', 't'][0] != seq!['e', 'm', 'p', 't', 'y', '?'][0]);
    assert(seq!['r', 'e', 'p', 'e', 'a', 't'][2] != seq!['r', 'e', 'm', 'o', 'v', 'e'][2]);
    assert(seq!['r', 'e', 'p', 'e', 'a', 't'][0] != seq!['f', 'i', 'l', 't', 'e', 'r'][0]);
    assert(seq!['r', 'e', 'p', 'e', 'a', 't'][0] != seq!['s', 'e', 't', '-', 'i', 'n'][0]);
    assert(seq!['r', 'e', 'p', 'e', 'a', 't'][0] != seq!['g', 'e', 't', '-', 'i', 'n'][0]);
    assert(seq!['r', 'e', 'p', 'e', 'a', 't'][0] != seq!['u', 'p', 'd', 'a', 't', 'e'][0]);
    assert(seq!['r', 'e', 'p', 'e', 'a', 't'][0] != seq!['c', 'o', 'n', 'c', 'a', 't'][0]);
    assert(seq!['r', 'e', 'p', 'e', 'a', 't'][0] != seq!['i', 'n', 'v', 'e', 'r', 't'][0]);
}

proof fn lemma_round_trip_is_float()
    ensures
        spec_from_name(CoreFnId::IsFloat.spec_name()) == Some(CoreFnId::IsFloat),
{
    assert(seq!['f', 'l', 'o', 'a', 't', '?'][0] != seq!['r', 'e', 'd', 'u', 'c', 'e'][0]);
    assert(seq!['f', 'l', 'o', 'a', 't', '?'][0] != seq!['e', 'm', 'p', 't', 'y', '?'][0]);
    assert(seq!['f', 'l', 'o', 'a', 't', '?'][0] != seq!['r', 'e', 'm', 'o', 'v', 'e'][0]);
    assert(seq!['f', 'l', 'o', 'a', 't', '?'][1] != seq!['f', 'i', 'l', 't', 'e', 'r'][1]);
    assert(seq!['f', 'l', 'o', 'a', 't', '?'][0] != seq!['s', 'e', 't', '-', 'i', 'n'][0]);
    assert(seq!['f', 'l', 'o', 'a', 't', '?'][0] != seq!['g', 'e', 't', '-', 'i', 'n'][0]);
    assert(seq!['f', 'l', 'o', 'a', 't', '?'][0] != seq!['u', 'p', 'd', 'a', 't', 'e'][0]);
    assert(seq!['f', 'l', 'o', 'a', 't', '?'][0] != seq!['c', 'o', 'n', 'c', 'a', 't'][0]);
    assert(seq!['f', 'l', 'o', 'a', 't', '?'][0] != seq!['i', 'n', 'v', 'e', 'r', 't'][0]);
    assert(seq!['f', 'l', 'o', 'a', 't', '?'][0] != seq!['r', 'e', 'p', 'e', 'a', 't'][0]);
}

proof fn lemma_round_trip_to_symbol()
    ensures
        spec_from_name(CoreFnId::ToSymbol.spec_name()) == Some(CoreFnId::ToSymbol),
{
    assert(seq!['s', 'y', 'm', 'b', 'o', 'l'][0] != seq!['r', 'e', 'd', 'u', 'c', 'e'][0]);
    assert(seq!['s', 'y', 'm', 'b', 'o', 'l'][0] != seq!['e', 'm', 'p', 't', 'y', '?'][0]);
    assert(seq!['s', 'y', 'm', 'b', 'o', 'l'][0] != seq!['r', 'e', 'm', 'o', 'v', 'e'][0]);
    assert(seq!['s', 'y', 'm', 'b', 'o', 'l'][0] != seq!['f', 'i', 'l', 't', 'e', 'r'][0]);
    assert(seq!['s', 'y', 'm', 'b', 'o', 'l'][1] != seq!['s', 'e', 't', '-', 'i', 'n'][1]);
    assert(seq!['s', 'y', 'm', 'b', 'o', 'l'][0] != seq!['g', 'e', 't', '-', 'i', 'n'][0]);
    assert(seq!['s', 'y', 'm', 'b', 'o', 'l'][0] != seq!['u', 'p', 'd', 'a', 't', 'e'][0]);
    assert(seq!['s', 'y', 'm', 'b', 'o', 'l'][0] != seq!['c', 'o', 'n', 'c', 'a', 't'][0]);
    assert(seq!['s', 'y', 'm', 'b', 'o', 'l'][0] != seq!['i', 'n', 'v', 'e', 'r', 't'][0]);
    assert(seq!['s', 'y', 'm', 'b', 'o', 'l'][0] != seq!['r', 'e', 'p', 'e', 'a', 't'][0]);
    assert(seq!['s', 'y', 'm', 'b', 'o', 'l'][0] != seq!['f', 'l', 'o', 'a', 't', '?'][0]);
}

proof fn lemma_round_trip_partial()
    ensures
        spec_from_name(CoreFnId::Partial.spec_name()) == Some(CoreFnId::Partial),
{
}

proof fn lemma_round_trip_compose()
    ensures
        spec_from_name(CoreFnId::Compose.spec_name()) == Some(CoreFnId::Compose),
{
    assert(seq!['c', 'o', 'm', 'p', 'o', 's', 'e'][0] != seq!['p', 'a', 'r', 't', 'i', 'a', 'l'][0]);
}

proof fn lemma_round_trip_memoize()
    ensures
        spec_from_name(CoreFnId::Memoize.spec_name()) == Some(CoreFnId::Memoize),
{
    assert(seq!['m', 'e', 'm', 'o', 'i', 'z', 'e'][0] != seq!['p', 'a', 'r', 't', 'i', 'a', 'l'][0]);
    assert(seq!['m', 'e', 'm', 'o', 'i', 'z', 'e'][0] != seq!['c', 'o', 'm', 'p', 'o', 's', 'e'][0]);
}

proof fn lemma_round_trip_flatten()
    ensures
        spec_from_name(CoreFnId::Flatten.spec_name()) == Some(CoreFnId::Flatten),
{
    assert(seq!['f', 'l', 'a', 't', 't', 'e', 'n'][0] != seq!['p', 'a', 'r', 't', 'i', 'a', 'l'][0]);
    assert(seq!['f', 'l', 'a', 't', 't', 'e', 'n'][0] != seq!['c', 'o', 'm', 'p', 'o', 's', 'e'][0]);
    assert(seq!['f', 'l', 'a', 't', 't', 'e', 'n'][0] != seq!['m', 'e', 'm', 'o', 'i', 'z', 'e'][0]);
}

proof fn lemma_round_trip_min_key()
    ensures
        spec_from_name(CoreFnId::MinKey.spec_name()) == Some(CoreFnId::MinKey),
{
    assert(seq!['m', 'i', 'n', '-', 'k', 'e', 'y'][0] != seq!['p', 'a', 'r', 't', 'i', 'a', 'l'][0]);
    assert(seq!['m', 'i', 'n', '-', 'k', 'e', 'y'][0] != seq!['c', 'o', 'm', 'p', 'o', 's', 'e'][0]);
    assert(seq!['m', 'i', 'n', '-', 'k', 'e', 'y'][1] != seq!['m', 'e', 'm', 'o', 'i', 'z', 'e'][1]);
    assert(seq!['m', 'i', 'n', '-', 'k', 'e', 'y'][0] != seq!['f', 'l', 'a', 't', 't', 'e', 'n'][0]);
}

proof fn lemma_round_trip_max_key()
    ensures
        spec_from_name(CoreFnId::MaxKey.spec_name()) == Some(CoreFnId::MaxKey),
{
    assert(seq!['m', 'a', 'x', '-', 'k', 'e', 'y'][0] != seq!['p', 'a', 'r', 't', 'i', 'a', 'l'][0]);
    assert(seq!['m', 'a', 'x', '-', 'k', 'e', 'y'][0] != seq!['c', 'o', 'm', 'p', 'o', 's', 'e'][0]);
    assert(seq!['m', 'a', 'x', '-', 'k', 'e', 'y'][1] != seq!['m', 'e', 'm', 'o', 'i', 'z', 'e'][1]);
    assert(seq!['m', 'a', 'x', '-', 'k', 'e', 'y'][0] != seq!['f', 'l', 'a', 't', 't', 'e', 'n'][0]);
    assert(seq!['m', 'a', 'x', '-', 'k', 'e', 'y'][1] != seq!['m', 'i', 'n', '-', 'k', 'e', 'y'][1]);
}

proof fn lemma_round_trip_sort_by()
    ensures
        spec_from_name(CoreFnId::SortBy.spec_name()) == Some(CoreFnId::SortBy),
{
    assert(seq!['s', 'o', 'r', 't', '-', 'b', 'y'][0] != seq!['p', 'a', 'r', 't', 'i', 'a', 'l'][0]);
    assert(seq!['s', 'o', 'r', 't', '-', 'b', 'y'][0] != seq!['c', 'o', 'm', 'p', 'o', 's', 'e'][0]);
    assert(seq!['s', 'o', 'r', 't', '-', 'b', 'y'][0] != seq!['m', 'e', 'm', 'o', 'i', 'z', 'e'][0]);
    assert(seq!['s', 'o', 'r', 't', '-', 'b', 'y'][0] != seq!['f', 'l', 'a', 't', 't', 'e', 'n'][0]);
    assert(seq!['s', 'o', 'r', 't', '-', 'b', 'y'][0] != seq!['m', 'i', 'n', '-', 'k', 'e', 'y'][0]);
    assert(seq!['s', 'o', 'r', 't', '-', 'b', 'y'][0] != seq!['m', 'a', 'x', '-', 'k', 'e', 'y'][0]);
}

proof fn lemma_round_trip_but_last()
    ensures
        spec_from_name(CoreFnId::ButLast.spec_name()) == Some(CoreFnId::ButLast),
{
    assert(seq!['b', 'u', 't', 'l', 'a', 's', 't'][0] != seq!['p', 'a', 'r', 't', 'i', 'a', 'l'][0]);
    assert(seq!['b', 'u', 't', 'l', 'a', 's', 't'][0] != seq!['c', 'o', 'm', 'p', 'o', 's', 'e'][0]);
    assert(seq!['b', 'u', 't', 'l', 'a', 's', 't'][0] != seq!['m', 'e', 'm', 'o', 'i', 'z', 'e'][0]);
    assert(seq!['b', 'u', 't', 'l', 'a', 's', 't'][0] != seq!['f', 'l', 'a', 't', 't', 'e', 'n'][0]);
    assert(seq!['b', 'u', 't', 'l', 'a', 's', 't'][0] != seq!['m', 'i', 'n', '-', 'k', 'e', 'y'][0]);
    assert(seq!['b', 'u', 't', 'l', 'a', 's', 't'][0] != seq!['m', 'a', 'x', '-', 'k', 'e', 'y'][0]);
    assert(seq!['b', 'u', 't', 'l', 'a', 's', 't'][0] != seq!['s', 'o', 'r', 't', '-', 'b', 'y'][0]);
}

proof fn lemma_round_trip_reverse()
    ensures
        spec_from_name(CoreFnId::Reverse.spec_name()) == Some(CoreFnId::Reverse),
{
    assert(seq!['r', 'e', 'v', 'e', 'r', 's', 'e'][0] != seq!['p', 'a', 'r', 't', 'i', 'a', 'l'][0]);
    assert(seq!['r', 'e', 'v', 'e', 'r', 's', 'e'][0] != seq!['c', 'o', 'm', 'p', 'o', 's', 'e'][0]);
    assert(seq!['r', 'e', 'v', 'e', 'r', 's', 'e'][0] != seq!['m', 'e', 'm', 'o', 'i', 'z', 'e'][0]);
    assert(seq!['r', 'e', 'v', 'e', 'r', 's', 'e'][0] != seq!['f', 'l', 'a', 't', 't', 'e', 'n'][0]);
    assert(seq!['r', 'e', 'v', 'e', 'r', 's', 'e'][0] != seq!['m', 'i', 'n', '-', 'k', 'e', 'y'][0]);
    assert(seq!['r', 'e', 'v', 'e', 'r', 's', 'e'][0] != seq!['m', 'a', 'x', '-', 'k', 'e', 'y'][0]);
    assert(seq!['r', 'e', 'v', 'e', 'r', 's', 'e'][0] != seq!['s', 'o', 'r', 't', '-', 'b', 'y'][0]);
    assert(seq!['r', 'e', 'v', 'e', 'r', 's', 'e'][0] != seq!['b', 'u', 't', 'l', 'a', 's', 't'][0]);
}

proof fn lemma_round_trip_create_map()
    ensures
        spec_from_name(CoreFnId::CreateMap.spec_name()) == Some(CoreFnId::CreateMap),
{
    assert(seq!['h', 'a', 's', 'h', 'm', 'a', 'p'][0] != seq!['p', 'a', 'r', 't', 'i', 'a', 'l'][0]);
    assert(seq!['h', 'a', 's', 'h', 'm', 'a', 'p'][0] != seq!['c', 'o', 'm', 'p', 'o', 's', 'e'][0]);
    assert(seq!['h', 'a', 's', 'h', 'm', 'a', 'p'][0] != seq!['m', 'e', 'm', 'o', 'i', 'z', 'e'][0]);
    assert(seq!['h', 'a', 's', 'h', 'm', 'a', 'p'][0] != seq!['f', 'l', 'a', 't', 't', 'e', 'n'][0]);
    assert(seq!['h', 'a', 's', 'h', 'm', 'a', 'p'][0] != seq!['m', 'i', 'n', '-', 'k', 'e', 'y'][0]);
    assert(seq!['h', 'a', 's', 'h', 'm', 'a', 'p'][0] != seq!['m', 'a', 'x', '-', 'k', 'e', 'y'][0]);
    assert(seq!['h', 'a', 's', 'h', 'm', 'a', 'p'][0] != seq!['s', 'o', 'r', 't', '-', 'b', 'y'][0]);
    assert(seq!['h', 'a', 's', 'h', 'm', 'a', 'p'][0] != seq!['b', 'u', 't', 'l', 'a', 's', 't'][0]);
    assert(seq!['h', 'a', 's', 'h', 'm', 'a', 'p'][0] != seq!['r', 'e', 'v', 'e', 'r', 's', 'e'][0]);
}

proof fn lemma_round_trip_create_set()
    ensures
        spec_from_name(CoreFnId::CreateSet.spec_name()) == Some(CoreFnId::CreateSet),
{
    assert(seq!['h', 'a', 's', 'h', 's', 'e', 't'][0] != seq!['p', 'a', 'r', 't', 'i', 'a', 'l'][0]);
    assert(seq!['h', 'a', 's', 'h', 's', 'e', 't'][0] != seq!['c', 'o', 'm', 'p', 'o', 's', 'e'][0]);
    assert(seq!['h', 'a', 's', 'h', 's', 'e', 't'][0] != seq!['m', 'e', 'm', 'o', 'i', 'z', 'e'][0]);
    assert(seq!['h', 'a', 's', 'h', 's', 'e', 't'][0] != seq!['f', 'l', 'a', 't', 't', 'e', 'n'][0]);
    assert(seq!['h', 'a', 's', 'h', 's', 'e', 't'][0] != seq!['m', 'i', 'n', '-', 'k', 'e', 'y'][0]);
    assert(seq!['h', 'a', 's', 'h', 's', 'e', 't'][0] != seq!['m', 'a', 'x', '-', 'k', 'e', 'y'][0]);
    assert(seq!['h', 'a', 's', 'h', 's', 'e', 't'][0] != seq!['s', 'o', 'r', 't', '-', 'b', 'y'][0]);
    assert(seq!['h', 'a', 's', 'h', 's', 'e', 't'][0] != seq!['b', 'u', 't', 'l', 'a', 's', 't'][0]);
    assert(seq!['h', 'a', 's', 'h', 's', 'e', 't'][0] != seq!['r', 'e', 'v', 'e', 'r', 's', 'e'][0]);
    assert(seq!['h', 'a', 's', 'h', 's', 'e', 't'][4] != seq!['h', 'a', 's', 'h', 'm', 'a', 'p'][4]);
}

proof fn lemma_round_trip_iterate()
    ensures
        spec_from_name(CoreFnId::Iterate.spec_name()) == Some(CoreFnId::Iterate),
{
    assert(seq!['i', 't', 'e', 'r', 'a', 't', 'e'][0] != seq!['p', 'a', 'r', 't', 'i', 'a', 'l'][0]);
    assert(seq!['i', 't', 'e', 'r', 'a', 't', 'e'][0] != seq!['c', 'o', 'm', 'p', 'o', 's', 'e'][0]);
    assert(seq!['i', 't', 'e', 'r', 'a', 't', 'e'][0] != seq!['m', 'e', 'm', 'o', 'i', 'z', 'e'][0]);
    assert(seq!['i', 't', 'e', 'r', 'a', 't', 'e'][0] != seq!['f', 'l', 'a', 't', 't', 'e', 'n'][0]);
    assert(seq!['i', 't', 'e', 'r', 'a', 't', 'e'][0] != seq!['m', 'i', 'n', '-', 'k', 'e', 'y'][0]);
    assert(seq!['i', 't', 'e', 'r', 'a', 't', 'e'][0] != seq!['m', 'a', 'x', '-', 'k', 'e', 'y'][0]);
    assert(seq!['i', 't', 'e', 'r', 'a', 't', 'e'][0] != seq!['s', 'o', 'r', 't', '-', 'b', 'y'][0]);
    assert(seq!['i', 't', 'e', 'r', 'a', 't', 'e'][0] != seq!['b', 'u', 't', 'l', 'a', 's', 't'][0]);
    assert(seq!['i', 't', 'e', 'r', 'a', 't', 'e'][0] != seq!['r', 'e', 'v', 'e', 'r', 's', 'e'][0]);
    assert(seq!['i', 't', 'e', 'r', 'a', 't', 'e'][0] != seq!['h', 'a', 's', 'h', 'm', 'a', 'p'][0]);
    assert(seq!['i', 't', 'e', 'r', 'a', 't', 'e'][0] != seq!['h', 'a', 's', 'h', 's', 'e', 't'][0]);
}

proof fn lemma_round_trip_is_symbol()
    ensures
        spec_from_name(CoreFnId::IsSymbol.spec_name()) == Some(CoreFnId::IsSymbol),
{
    assert(seq!['s', 'y', 'm', 'b', 'o', 'l', '?'][0] != seq!['p', 'a', 'r', 't', 'i', 'a', 'l'][0]);
    assert(seq!['s', 'y', 'm', 'b', 'o', 'l', '?'][0] != seq!['c', 'o', 'm', 'p', 'o', 's', 'e'][0]);
    assert(seq!['s', 'y', 'm', 'b', 'o', 'l', '?'][0] != seq!['m', 'e', 'm', 'o', 'i', 'z', 'e'][0]);
    assert(seq!['s', 'y', 'm', 'b', 'o', 'l', '?'][0] != seq!['f', 'l', 'a', 't', 't', 'e', 'n'][0]);
    assert(seq!['s', 'y', 'm', 'b', 'o', 'l', '?'][0] != seq!['m', 'i', 'n', '-', 'k', 'e', 'y'][0]);
    assert(seq!['s', 'y', 'm', 'b', 'o', 'l', '?'][0] != seq!['m', 'a', 'x', '-', 'k', 'e', 'y'][0]);
    assert(seq!['s', 'y', 'm', 'b', 'o', 'l', '?'][1] != seq!['s', 'o', 'r', 't', '-', 'b', 'y'][1]);
    assert(seq!['s', 'y', 'm', 'b', 'o', 'l', '?'][0] != seq!['b', 'u', 't', 'l', 'a', 's', 't'][0]);
    assert(seq!['s', 'y', 'm', 'b', 'o', 'l', '?'][0] != seq!['r', 'e', 'v', 'e', 'r', 's', 'e'][0]);
    assert(seq!['s', 'y', 'm', 'b', 'o', 'l', '?'][0] != seq!['h', 'a', 's', 'h', 'm', 'a', 'p'][0]);
    assert(seq!['s', 'y', 'm', 'b', 'o', 'l', '?'][0] != seq!['h', 'a', 's', 'h', 's', 'e', 't'][0]);
    assert(seq!['s', 'y', 'm', 'b', 'o', 'l', '?'][0] != seq!['i', 't', 'e', 'r', 'a', 't', 'e'][0]);
}

proof fn lemma_round_trip_to_list()
    ensures
        spec_from_name(CoreFnId::ToList.spec_name()) == Some(CoreFnId::ToList),
{
    assert(seq!['t', 'o', '-', 'l', 'i', 's', 't'][0] != seq!['p', 'a', 'r', 't', 'i', 'a', 'l'][0]);
    assert(seq!['t', 'o', '-', 'l', 'i', 's', 't'][0] != seq!['c', 'o', 'm', 'p', 'o', 's', 'e'][0]);
    assert(seq!['t', 'o', '-', 'l', 'i', 's', 't'][0] != seq!['m', 'e', 'm', 'o', 'i', 'z', 'e'][0]);
    assert(seq!['t', 'o', '-', 'l', 'i', 's', 't'][0] != seq!['f', 'l', 'a', 't', 't', 'e', 'n'][0]);
    assert(seq!['t', 'o', '-', 'l', 'i', 's', 't'][0] != seq!['m', 'i', 'n', '-', 'k', 'e', 'y'][0]);
    assert(seq!['t', 'o', '-', 'l', 'i', 's', 't'][0] != seq!['m', 'a', 'x', '-', 'k', 'e', 'y'][0]);
    assert(seq!['t', 'o', '-', 'l', 'i', 's', 't'][0] != seq!['s', 'o', 'r', 't', '-', 'b', 'y'][0]);
    assert(seq!['t', 'o', '-', 'l', 'i', 's', 't'][0] != seq!['b', 'u', 't', 'l', 'a', 's', 't'][0]);
    assert(seq!['t', 'o', '-', 'l', 'i', 's', 't'][0] != seq!['r', 'e', 'v', 'e', 'r', 's', 'e'][0]);
    assert(seq!['t', 'o', '-', 'l', 'i', 's', 't'][0] != seq!['h', 'a', 's', 'h', 'm', 'a', 'p'][0]);
    assert(seq!['t', 'o', '-', 'l', 'i', 's', 't'][0] != seq!['h', 'a', 's', 'h', 's', 'e', 't'][0]);
    assert(seq!['t', 'o', '-', 'l', 'i', 's', 't'][0] != seq!['i', 't', 'e', 'r', 'a', 't', 'e'][0]);
    assert(seq!['t', 'o', '-', 'l', 'i', 's', 't'][0] != seq!['s', 'y', 'm', 'b', 'o', 'l', '?'][0]);
}

proof fn lemma_round_trip_rand_int()
    ensures
        spec_from_name(CoreFnId::RandInt.spec_name()) == Some(CoreFnId::RandInt),
{
}

proof fn lemma_round_trip_distinct()
    ensures
        spec_from_name(CoreFnId::Distinct.spec_name()) == Some(CoreFnId::Distinct),
{
    assert(seq!['d', 'i', 's', 't', 'i', 'n', 'c', 't'][0] != seq!['r', 'a', 'n', 'd', '-', 'i', 'n', 't'][0]);
}

proof fn lemma_round_trip_map_keys()
    ensures
        spec_from_name(CoreFnId::MapKeys.spec_name()) == Some(CoreFnId::MapKeys),
{
    assert(seq!['m', 'a', 'p', '-', 'k', 'e', 'y', 's'][0] != seq!['r', 'a', 'n', 'd', '-', 'i', 'n', 't'][0]);
    assert(seq!['m', 'a', 'p', '-', 'k', 'e', 'y', 's'][0] != seq!['d', 'i', 's', 't', 'i', 'n', 'c', 't'][0]);
}

proof fn lemma_round_trip_map_values()
    ensures
        spec_from_name(CoreFnId::MapValues.spec_name()) == Some(CoreFnId::MapValues),
{
    assert(seq!['m', 'a', 'p', '-', 'v', 'a', 'l', 's'][0] != seq!['r', 'a', 'n', 'd', '-', 'i', 'n', 't'][0]);
    assert(seq!['m', 'a', 'p', '-', 'v', 'a', 'l', 's'][0] != seq!['d', 'i', 's', 't', 'i', 'n', 'c', 't'][0]);
    assert(seq!['m', 'a', 'p', '-', 'v', 'a', 'l', 's'][4] != seq!['m', 'a', 'p', '-', 'k', 'e', 'y', 's'][4]);
}

proof fn lemma_round_trip_is_map()
    ensures
        spec_from_name(CoreFnId::IsMap.spec_name()) == Some(CoreFnId::IsMap),
{
    assert(seq!['h', 'a', 's', 'h', 'm', 'a', 'p', '?'][0] != seq!['r', 'a', 'n', 'd', '-', 'i', 'n', 't'][0]);
    assert(seq!['h', 'a', 's', 'h', 'm', 'a', 'p', '?'][0] != seq!['d', 'i', 's', 't', 'i', 'n', 'c', 't'][0]);
    assert(seq!['h', 'a', 's', 'h', 'm', 'a', 'p', '?'][0] != seq!['m', 'a', 'p', '-', 'k', 'e', 'y', 's'][0]);
    assert(seq!['h', 'a', 's', 'h', 'm', 'a', 'p', '?'][0] != seq!['m', 'a', 'p', '-', 'v', 'a', 'l', 's'][0]);
}

proof fn lemma_round_trip_is_set()
    ensures
        spec_from_name(CoreFnId::IsSet.spec_name()) == Some(CoreFnId::IsSet),
{
    assert(seq!['h', 'a', 's', 'h', 's', 'e', 't', '?'][0] != seq!['r', 'a', 'n', 'd', '-', 'i', 'n', 't'][0]);
    assert(seq!['h', 'a', 's', 'h', 's', 'e', 't', '?'][0] != seq!['d', 'i', 's', 't', 'i', 'n', 'c', 't'][0]);
    assert(seq!['h', 'a', 's', 'h', 's', 'e', 't', '?'][0] != seq!['m', 'a', 'p', '-', 'k', 'e', 'y', 's'][0]);
    assert(seq!['h', 'a', 's', 'h', 's', 'e', 't', '?'][0] != seq!['m', 'a', 'p', '-', 'v', 'a', 'l', 's'][0]);
    assert(seq!['h', 'a', 's', 'h', 's', 'e', 't', '?'][4] != seq!['h', 'a', 's', 'h', 'm', 'a', 'p', '?'][4]);
}

proof fn lemma_round_trip_update_in()
    ensures
        spec_from_name(CoreFnId::UpdateIn.spec_name()) == Some(CoreFnId::UpdateIn),
{
}

proof fn lemma_round_trip_partition()
    ensures
        spec_from_name(CoreFnId::Partition.spec_name()) == Some(CoreFnId::Partition),
{
    assert(seq!['p', 'a', 'r', 't', 'i', 't', 'i', 'o', 'n'][0] != seq!['u', 'p', 'd', 'a', 't', 'e', '-', 'i', 'n'][0]);
}

proof fn lemma_round_trip_constantly()
    ensures
        spec_from_name(CoreFnId::Constantly.spec_name()) == Some(CoreFnId::Constantly),
{
}

proof fn lemma_round_trip_merge_with()
    ensures
        spec_from_name(CoreFnId::MergeWith.spec_name()) == Some(CoreFnId::MergeWith),
{
    assert(seq!['m', 'e', 'r', 'g', 'e', '-', 'w', 'i', 't', 'h'][0] != seq!['c', 'o', 'n', 's', 't', 'a', 'n', 't', 'l', 'y'][0]);
}

proof fn lemma_round_trip_difference()
    ensures
        spec_from_name(CoreFnId::Difference.spec_name()) == Some(CoreFnId::Difference),
{
    assert(seq!['d', 'i', 'f', 'f', 'e', 'r', 'e', 'n', 'c', 'e'][0] != seq!['c', 'o', 'n', 's', 't', 'a', 'n', 't', 'l', 'y'][0]);
    assert(seq!['d', 'i', 'f', 'f', 'e', 'r', 'e', 'n', 'c', 'e'][0] != seq!['m', 'e', 'r', 'g', 'e', '-', 'w', 'i', 't', 'h'][0]);
}

proof fn lemma_round_trip_repeatedly()
    ensures
        spec_from_name(CoreFnId::Repeatedly.spec_name()) == Some(CoreFnId::Repeatedly),
{
    assert(seq!['r', 'e', 'p', 'e', 'a', 't', 'e', 'd', 'l', 'y'][0] != seq!['c', 'o', 'n', 's', 't', 'a', 'n', 't', 'l', 'y'][0]);
    assert(seq!['r', 'e', 'p', 'e', 'a', 't', 'e', 'd', 'l', 'y'][0] != seq!['m', 'e', 'r', 'g', 'e', '-', 'w', 'i', 't', 'h'][0]);
    assert(seq!['r', 'e', 'p', 'e', 'a', 't', 'e', 'd', 'l', 'y'][0] != seq!['d', 'i', 'f', 'f', 'e', 'r', 'e', 'n', 'c', 'e'][0]);
}

proof fn lemma_round_trip_to_map()
    ensures
        spec_from_name(CoreFnId::ToMap.spec_name()) == Some(CoreFnId::ToMap),
{
    assert(seq!['t', 'o', '-', 'h', 'a', 's', 'h', 'm', 'a', 'p'][0] != seq!['c', 'o', 'n', 's', 't', 'a', 'n', 't', 'l', 'y'][0]);
    assert(seq!['t', 'o', '-', 'h', 'a', 's', 'h', 'm', 'a', 'p'][0] != seq!['m', 'e', 'r', 'g', 'e', '-', 'w', 'i', 't', 'h'][0]);
    assert(seq!['t', 'o', '-', 'h', 'a', 's', 'h', 'm', 'a', 'p'][0] != seq!['d', 'i', 'f', 'f', 'e', 'r', 'e', 'n', 'c', 'e'][0]);
    assert(seq!['t', 'o', '-', 'h', 'a', 's', 'h', 'm', 'a', 'p'][0] != seq!['r', 'e', 'p', 'e', 'a', 't', 'e', 'd', 'l', 'y'][0]);
}

proof fn lemma_round_trip_select_keys()
    ensures
        spec_from_name(CoreFnId::SelectKeys.spec_name()) == Some(CoreFnId::SelectKeys),
{
}

proof fn lemma_round_trip_is_collection()
    ensures
        spec_from_name(CoreFnId::IsCollection.spec_name()) == Some(CoreFnId::IsCollection),
{
    assert(seq!['c', 'o', 'l', 'l', 'e', 'c', 't', 'i', 'o', 'n', '?'][0] != seq!['s', 'e', 'l', 'e', 'c', 't', '-', 'k', 'e', 'y', 's'][0]);
}

proof fn lemma_round_trip_intersection()
    ensures
        spec_from_name(CoreFnId::Intersection.spec_name()) == Some(CoreFnId::Intersection),
{
}

proof fn lemma_round_trip_nth_from_last()
    ensures
        spec_from_name(CoreFnId::NthFromLast.spec_name()) == Some(CoreFnId::NthFromLast),
{
}

proof fn lemma_round_trip_symmetric_difference()
    ensures
        spec_from_name(CoreFnId::SymmetricDifference.spec_name()) == Some(CoreFnId::SymmetricDifference),
{
}

/// Every named function is found again by its name.
pub proof fn law_name_round_trip(id: CoreFnId)
    requires
        id.is_named(),
    ensures
        spec_from_name(id.spec_name()) == Some(id),
{
    match id {
        CoreFnId::Add => lemma_round_trip_add(),
        CoreFnId::Subtract => lemma_round_trip_subtract(),
        CoreFnId::Multiply => lemma_round_trip_multiply(),
        CoreFnId::Divide => lemma_round_trip_divide(),
        CoreFnId::GreaterThan => lemma_round_trip_greater_than(),
        CoreFnId::LessThan => lemma_round_trip_less_than(),
        CoreFnId::Equal => lemma_round_trip_equal(),
        CoreFnId::If => lemma_round_trip_if(),
        CoreFnId::NumericalEqual => lemma_round_trip_numerical_equal(),
        CoreFnId::Ln => lemma_round_trip_ln(),
        CoreFnId::GreaterThanOrEqual => lemma_round_trip_greater_than_or_equal(),
        CoreFnId::LessThanOrEqual => lemma_round_trip_less_than_or_equal(),
        CoreFnId::Or => lemma_round_trip_or(),
        CoreFnId::Inc => lemma_round_trip_inc(),
        CoreFnId::Dec => lemma_round_trip_dec(),
        CoreFnId::Abs => lemma_round_trip_abs(),
        CoreFnId::Exp => lemma_round_trip_exp(),
        CoreFnId::Pow => lemma_round_trip_pow(),
        CoreFnId::Mod => lemma_round_trip_mod(),
        CoreFnId::Min => lemma_round_trip_min(),
        CoreFnId::Max => lemma_round_trip_max(),
        CoreFnId::Not => lemma_round_trip_not(),
        CoreFnId::And => lemma_round_trip_and(),
        CoreFnId::Xor => lemma_round_trip_xor(),
        CoreFnId::CollectionMap => lemma_round_trip_collection_map(),
        CoreFnId::CollectionSet => lemma_round_trip_collection_set(),
        CoreFnId::Get => lemma_round_trip_get(),
        CoreFnId::Nth => lemma_round_trip_nth(),
        CoreFnId::Sub => lemma_round_trip_sub(),
        CoreFnId::Pad => lemma_round_trip_pad(),
        CoreFnId::Zip => lemma_round_trip_zip(),
        CoreFnId::IsFn => lemma_round_trip_is_fn(),
        CoreFnId::ToNum => lemma_round_trip_to_num(),
        CoreFnId::ToInt => lemma_round_trip_to_int(),
        CoreFnId::ToString => lemma_round_trip_to_string(),
        CoreFnId::When => lemma_round_trip_when(),
        CoreFnId::FindSome => lemma_round_trip_find_some(),
        CoreFnId::IsNan => lemma_round_trip_is_nan(),
        CoreFnId::IsInf => lemma_round_trip_is_inf(),
        CoreFnId::IsOdd => lemma_round_trip_is_odd(),
        CoreFnId::IsPos => lemma_round_trip_is_pos(),
        CoreFnId::IsNeg => lemma_round_trip_is_neg(),
        CoreFnId::Ceil => lemma_round_trip_ceil(),
        CoreFnId::Sqrt => lemma_round_trip_sqrt(),
        CoreFnId::Exp2 => lemma_round_trip_exp2(),
        CoreFnId::Log2 => lemma_round_trip_log2(),
        CoreFnId::Quot => lemma_round_trip_quot(),
        CoreFnId::Rand => lemma_round_trip_rand(),
        CoreFnId::NotEqual => lemma_round_trip_not_equal(),
        CoreFnId::Push => lemma_round_trip_push(),
        CoreFnId::Sort => lemma_round_trip_sort(),
        CoreFnId::CreateList => lemma_round_trip_create_list(),
        CoreFnId::Last => lemma_round_trip_last(),
        CoreFnId::Rest => lemma_round_trip_rest(),
        CoreFnId::Cons => lemma_round_trip_cons(),
        CoreFnId::Take => lemma_round_trip_take(),
        CoreFnId::Drop => lemma_round_trip_drop(),
        CoreFnId::Keys => lemma_round_trip_keys(),
        CoreFnId::Values => lemma_round_trip_values(),
        CoreFnId::IsNil => lemma_round_trip_is_nil(),
        CoreFnId::IsNum => lemma_round_trip_is_num(),
        CoreFnId::IsInt => lemma_round_trip_is_int(),
        CoreFnId::IsString => lemma_round_trip_is_string(),
        CoreFnId::ToBool => lemma_round_trip_to_bool(),
        CoreFnId::ToChar => lemma_round_trip_to_char(),
        CoreFnId::Print => lemma_round_trip_print(),
        CoreFnId::Apply => lemma_round_trip_apply(),
        CoreFnId::IsZero => lemma_round_trip_is_zero(),
        CoreFnId::IsEven => lemma_round_trip_is_even(),
        CoreFnId::Floor => lemma_round_trip_floor(),
        CoreFnId::First => lemma_round_trip_first(),
        CoreFnId::Count => lemma_round_trip_count(),
        CoreFnId::Merge => lemma_round_trip_merge(),
        CoreFnId::Union => lemma_round_trip_union(),
        CoreFnId::Range => lemma_round_trip_range(),
        CoreFnId::IsBool => lemma_round_trip_is_bool(),
        CoreFnId::IsChar => lemma_round_trip_is_char(),
        CoreFnId::IsList => lemma_round_trip_is_list(),
        CoreFnId::ToFloat => lemma_round_trip_to_float(),
        CoreFnId::Reduce => lemma_round_trip_reduce(),
        CoreFnId::IsEmpty => lemma_round_trip_is_empty(),
        CoreFnId::Remove => lemma_round_trip_remove(),
        CoreFnId::Filter => lemma_round_trip_filter(),
        CoreFnId::SetIn => lemma_round_trip_set_in(),
        CoreFnId::GetIn => lemma_round_trip_get_in(),
        CoreFnId::Update => lemma_round_trip_update(),
        CoreFnId::Concat => lemma_round_trip_concat(),
        CoreFnId::Invert => lemma_round_trip_invert(),
        CoreFnId::Repeat => lemma_round_trip_repeat(),
        CoreFnId::IsFloat => lemma_round_trip_is_float(),
        CoreFnId::ToSymbol => lemma_round_trip_to_symbol(),
        CoreFnId::Partial => lemma_round_trip_partial(),
        CoreFnId::Compose => lemma_round_trip_compose(),
        CoreFnId::Memoize => lemma_round_trip_memoize(),
        CoreFnId::Flatten => lemma_round_trip_flatten(),
        CoreFnId::MinKey => lemma_round_trip_min_key(),
        CoreFnId::MaxKey => lemma_round_trip_max_key(),
        CoreFnId::SortBy => lemma_round_trip_sort_by(),
        CoreFnId::ButLast => lemma_round_trip_but_last(),
        CoreFnId::Reverse => lemma_round_trip_reverse(),
        CoreFnId::CreateMap => lemma_round_trip_create_map(),
        CoreFnId::CreateSet => lemma_round_trip_create_set(),
        CoreFnId::Iterate => lemma_round_trip_iterate(),
        CoreFnId::IsSymbol => lemma_round_trip_is_symbol(),
        CoreFnId::ToList => lemma_round_trip_to_list(),
        CoreFnId::RandInt => lemma_round_trip_rand_int(),
        CoreFnId::Distinct => lemma_round_trip_distinct(),
        CoreFnId::MapKeys => lemma_round_trip_map_keys(),
        CoreFnId::MapValues => lemma_round_trip_map_values(),
        CoreFnId::IsMap => lemma_round_trip_is_map(),
        CoreFnId::IsSet => lemma_round_trip_is_set(),
        CoreFnId::UpdateIn => lemma_round_trip_update_in(),
        CoreFnId::Partition => lemma_round_trip_partition(),
        CoreFnId::Constantly => lemma_round_trip_constantly(),
        CoreFnId::MergeWith => lemma_round_trip_merge_with(),
        CoreFnId::Difference => lemma_round_trip_difference(),
        CoreFnId::Repeatedly => lemma_round_trip_repeatedly(),
        CoreFnId::ToMap => lemma_round_trip_to_map(),
        CoreFnId::SelectKeys => lemma_round_trip_select_keys(),
        CoreFnId::IsCollection => lemma_round_trip_is_collection(),
        CoreFnId::Intersection => lemma_round_trip_intersection(),
        CoreFnId::NthFromLast => lemma_round_trip_nth_from_last(),
        CoreFnId::SymmetricDifference => lemma_round_trip_symmetric_difference(),
        _ => {},
    }
}

/// The name of each core function, as programs write it: `print`, `+`, `zero?`, `inc` and
/// so on, one table for all the functions that programs can name.
pub proof fn law_core_fn_names()
    ensures
        CoreFnId::Print.spec_name() == seq!['p', 'r', 'i', 'n', 't'],
        CoreFnId::Apply.spec_name() == seq!['a', 'p', 'p', 'l', 'y'],
        CoreFnId::When.spec_name() == seq!['w', 'h', 'e', 'n'],
        CoreFnId::If.spec_name() == seq!['i', 'f'],
        CoreFnId::Partial.spec_name() == seq!['p', 'a', 'r', 't', 'i', 'a', 'l'],
        CoreFnId::Compose.spec_name() == seq!['c', 'o', 'm', 'p', 'o', 's', 'e'],
        CoreFnId::FindSome.spec_name() == seq!['s', 'o', 'm', 'e'],
        CoreFnId::Reduce.spec_name() == seq!['r', 'e', 'd', 'u', 'c', 'e'],
        CoreFnId::Memoize.spec_name() == seq!['m', 'e', 'm', 'o', 'i', 'z', 'e'],
        CoreFnId::Constantly.spec_name() == seq!['c', 'o', 'n', 's', 't', 'a', 'n', 't', 'l', 'y'],
        CoreFnId::NumericalEqual.spec_name() == seq!['=', '='],
        CoreFnId::IsZero.spec_name() == seq!['z', 'e', 'r', 'o', '?'],
        CoreFnId::IsNan.spec_name() == seq!['n', 'a', 'n', '?'],
        CoreFnId::IsInf.spec_name() == seq!['i', 'n', 'f', '?'],
        CoreFnId::IsEven.spec_name() == seq!['e', 'v', 'e', 'n', '?'],
        CoreFnId::IsOdd.spec_name() == seq!['o', 'd', 'd', '?'],
        CoreFnId::IsPos.spec_name() == seq!['p', 'o', 's', '?'],
        CoreFnId::IsNeg.spec_name() == seq!['n', 'e', 'g', '?'],
        CoreFnId::Inc.spec_name() == seq!['i', 'n', 'c'],
        CoreFnId::Dec.spec_name() == seq!['d', 'e', 'c'],
        CoreFnId::Abs.spec_name() == seq!['a', 'b', 's'],
        CoreFnId::Floor.spec_name() == seq!['f', 'l', 'o', 'o', 'r'],
        CoreFnId::Ceil.spec_name() == seq!['c', 'e', 'i', 'l'],
        CoreFnId::Sqrt.spec_name() == seq!['s', 'q', 'r', 't'],
        CoreFnId::Exp.spec_name() == seq!['e', 'x', 'p'],
        CoreFnId::Exp2.spec_name() == seq!['e', 'x', 'p', '2'],
        CoreFnId::Ln.spec_name() == seq!['l', 'n'],
        CoreFnId::Log2.spec_name() == seq!['l', 'o', 'g', '2'],
        CoreFnId::Add.spec_name() == seq!['+'],
        CoreFnId::Subtract.spec_name() == seq!['-'],
        CoreFnId::Multiply.spec_name() == seq!['*'],
        CoreFnId::Divide.spec_name() == seq!['/'],
        CoreFnId::Pow.spec_name() == seq!['p', 'o', 'w'],
        CoreFnId::Mod.spec_name() == seq!['m', 'o', 'd'],
        CoreFnId::Quot.spec_name() == seq!['q', 'u', 'o', 't'],
        CoreFnId::Min.spec_name() == seq!['m', 'i', 'n'],
        CoreFnId::Max.spec_name() == seq!['m', 'a', 'x'],
        CoreFnId::GreaterThan.spec_name() == seq!['>'],
        CoreFnId::GreaterThanOrEqual.spec_name() == seq!['>', '='],
        CoreFnId::LessThan.spec_name() == seq!['<'],
        CoreFnId::LessThanOrEqual.spec_name() == seq!['<', '='],
        CoreFnId::Rand.spec_name() == seq!['r', 'a', 'n', 'd'],
        CoreFnId::RandInt.spec_name() == seq!['r', 'a', 'n', 'd', '-', 'i', 'n', 't'],
        CoreFnId::Equal.spec_name() == seq!['='],
        CoreFnId::NotEqual.spec_name() == seq!['n', 'o', 't', '='],
        CoreFnId::Not.spec_name() == seq!['n', 'o', 't'],
        CoreFnId::And.spec_name() == seq!['a', 'n', 'd'],
        CoreFnId::Or.spec_name() == seq!['o', 'r'],
        CoreFnId::Xor.spec_name() == seq!['x', 'o', 'r'],
        CoreFnId::IsEmpty.spec_name() == seq!['e', 'm', 'p', 't', 'y', '?'],
        CoreFnId::First.spec_name() == seq!['f', 'i', 'r', 's', 't'],
        CoreFnId::Count.spec_name() == seq!['c', 'o', 'u', 'n', 't'],
        CoreFnId::Flatten.spec_name() == seq!['f', 'l', 'a', 't', 't', 'e', 'n'],
        CoreFnId::Remove.spec_name() == seq!['r', 'e', 'm', 'o', 'v', 'e'],
        CoreFnId::Filter.spec_name() == seq!['f', 'i', 'l', 't', 'e', 'r'],
        CoreFnId::CollectionMap.spec_name() == seq!['m', 'a', 'p'],
        CoreFnId::CollectionSet.spec_name() == seq!['s', 'e', 't'],
        CoreFnId::SetIn.spec_name() == seq!['s', 'e', 't', '-', 'i', 'n'],
        CoreFnId::Get.spec_name() == seq!['g', 'e', 't'],
        CoreFnId::GetIn.spec_name() == seq!['g', 'e', 't', '-', 'i', 'n'],
        CoreFnId::Update.spec_name() == seq!['u', 'p', 'd', 'a', 't', 'e'],
        CoreFnId::UpdateIn.spec_name() == seq!['u', 'p', 'd', 'a', 't', 'e', '-', 'i', 'n'],
        CoreFnId::MinKey.spec_name() == seq!['m', 'i', 'n', '-', 'k', 'e', 'y'],
        CoreFnId::MaxKey.spec_name() == seq!['m', 'a', 'x', '-', 'k', 'e', 'y'],
        CoreFnId::Push.spec_name() == seq!['p', 'u', 's', 'h'],
        CoreFnId::Sort.spec_name() == seq!['s', 'o', 'r', 't'],
        CoreFnId::SortBy.spec_name() == seq!['s', 'o', 'r', 't', '-', 'b', 'y'],
        CoreFnId::CreateList.spec_name() == seq!['l', 'i', 's', 't'],
        CoreFnId::Last.spec_name() == seq!['l', 'a', 's', 't'],
        CoreFnId::Rest.spec_name() == seq!['r', 'e', 's', 't'],
        CoreFnId::ButLast.spec_name() == seq!['b', 'u', 't', 'l', 'a', 's', 't'],
        CoreFnId::Nth.spec_name() == seq!['n', 't', 'h'],
        CoreFnId::NthFromLast.spec_name() == seq!['n', 't', 'h', '-', 'f', 'r', 'o', 'm', '-', 'l', 'a', 's', 't'],
        CoreFnId::Cons.spec_name() == seq!['c', 'o', 'n', 's'],
        CoreFnId::Concat.spec_name() == seq!['c', 'o', 'n', 'c', 'a', 't'],
        CoreFnId::Take.spec_name() == seq!['t', 'a', 'k', 'e'],
        CoreFnId::Drop.spec_name() == seq!['d', 'r', 'o', 'p'],
        CoreFnId::Reverse.spec_name() == seq!['r', 'e', 'v', 'e', 'r', 's', 'e'],
        CoreFnId::Distinct.spec_name() == seq!['d', 'i', 's', 't', 'i', 'n', 'c', 't'],
        CoreFnId::Sub.spec_name() == seq!['s', 'u', 'b'],
        CoreFnId::Partition.spec_name() == seq!['p', 'a', 'r', 't', 'i', 't', 'i', 'o', 'n'],
        CoreFnId::Pad.spec_name() == seq!['p', 'a', 'd'],
        CoreFnId::CreateMap.spec_name() == seq!['h', 'a', 's', 'h', 'm', 'a', 'p'],
        CoreFnId::Keys.spec_name() == seq!['k', 'e', 'y', 's'],
        CoreFnId::Values.spec_name() == seq!['v', 'a', 'l', 's'],
        CoreFnId::Zip.spec_name() == seq!['z', 'i', 'p'],
        CoreFnId::Invert.spec_name() == seq!['i', 'n', 'v', 'e', 'r', 't'],
        CoreFnId::Merge.spec_name() == seq!['m', 'e', 'r', 'g', 'e'],
        CoreFnId::MergeWith.spec_name() == seq!['m', 'e', 'r', 'g', 'e', '-', 'w', 'i', 't', 'h'],
        CoreFnId::MapKeys.spec_name() == seq!['m', 'a', 'p', '-', 'k', 'e', 'y', 's'],
        CoreFnId::MapValues.spec_name() == seq!['m', 'a', 'p', '-', 'v', 'a', 'l', 's'],
        CoreFnId::SelectKeys.spec_name() == seq!['s', 'e', 'l', 'e', 'c', 't', '-', 'k', 'e', 'y', 's'],
        CoreFnId::CreateSet.spec_name() == seq!['h', 'a', 's', 'h', 's', 'e', 't'],
        CoreFnId::Union.spec_name() == seq!['u', 'n', 'i', 'o', 'n'],
        CoreFnId::Intersection.spec_name() == seq!['i', 'n', 't', 'e', 'r', 's', 'e', 'c', 't', 'i', 'o', 'n'],
        CoreFnId::Difference.spec_name() == seq!['d', 'i', 'f', 'f', 'e', 'r', 'e', 'n', 'c', 'e'],
        CoreFnId::SymmetricDifference.spec_name() == seq!['s', 'y', 'm', '-', 'd', 'i', 'f', 'f', 'e', 'r', 'e', 'n', 'c', 'e'],
        CoreFnId::Range.spec_name() == seq!['r', 'a', 'n', 'g', 'e'],
        CoreFnId::Repeat.spec_name() == seq!['r', 'e', 'p', 'e', 'a', 't'],
        CoreFnId::Repeatedly.spec_name() == seq!['r', 'e', 'p', 'e', 'a', 't', 'e', 'd', 'l', 'y'],
        CoreFnId::Iterate.spec_name() == seq!['i', 't', 'e', 'r', 'a', 't', 'e'],
        CoreFnId::IsNil.spec_name() == seq!['n', 'i', 'l', '?'],
        CoreFnId::IsBool.spec_name() == seq!['b', 'o', 'o', 'l', '?'],
        CoreFnId::IsChar.spec_name() == seq!['c', 'h', 'a', 'r', '?'],
        CoreFnId::IsNum.spec_name() == seq!['n', 'u', 'm', '?'],
        CoreFnId::IsInt.spec_name() == seq!['i', 'n', 't', '?'],
        CoreFnId::IsFloat.spec_name() == seq!['f', 'l', 'o', 'a', 't', '?'],
        CoreFnId::IsSymbol.spec_name() == seq!['s', 'y', 'm', 'b', 'o', 'l', '?'],
        CoreFnId::IsString.spec_name() == seq!['s', 't', 'r', '?'],
        CoreFnId::IsList.spec_name() == seq!['l', 'i', 's', 't', '?'],
        CoreFnId::IsMap.spec_name() == seq!['h', 'a', 's', 'h', 'm', 'a', 'p', '?'],
        CoreFnId::IsSet.spec_name() == seq!['h', 'a', 's', 'h', 's', 'e', 't', '?'],
        CoreFnId::IsCollection.spec_name() == seq!['c', 'o', 'l', 'l', 'e', 'c', 't', 'i', 'o', 'n', '?'],
        CoreFnId::IsFn.spec_name() == seq!['f', 'n', '?'],
        CoreFnId::ToBool.spec_name() == seq!['b', 'o', 'o', 'l'],
        CoreFnId::ToChar.spec_name() == seq!['c', 'h', 'a', 'r'],
        CoreFnId::ToNum.spec_name() == seq!['n', 'u', 'm'],
        CoreFnId::ToInt.spec_name() == seq!['i', 'n', 't'],
        CoreFnId::ToFloat.spec_name() == seq!['f', 'l', 'o', 'a', 't'],
        CoreFnId::ToSymbol.spec_name() == seq!['s', 'y', 'm', 'b', 'o', 'l'],
        CoreFnId::ToString.spec_name() == seq!['s', 't', 'r'],
        CoreFnId::ToList.spec_name() == seq!['t', 'o', '-', 'l', 'i', 's', 't'],
        CoreFnId::ToMap.spec_name() == seq!['t', 'o', '-', 'h', 'a', 's', 'h', 'm', 'a', 'p'],
{
}

/// Looking a name up finds the core function of that name, for every name of the
/// table of `law_core_fn_names` (part 1 of 13): `inc` finds `Inc`, `dec` finds `Dec`, and
/// so on.
pub proof fn law_core_fn_lookup_1()
    ensures
        spec_from_name(seq!['p', 'r', 'i', 'n', 't']) == Some(CoreFnId::Print),
        spec_from_name(seq!['a', 'p', 'p', 'l', 'y']) == Some(CoreFnId::Apply),
        spec_from_name(seq!['w', 'h', 'e', 'n']) == Some(CoreFnId::When),
        spec_from_name(seq!['i', 'f']) == Some(CoreFnId::If),
        spec_from_name(seq!['p', 'a', 'r', 't', 'i', 'a', 'l']) == Some(CoreFnId::Partial),
        spec_from_name(seq!['c', 'o', 'm', 'p', 'o', 's', 'e']) == Some(CoreFnId::Compose),
        spec_from_name(seq!['s', 'o', 'm', 'e']) == Some(CoreFnId::FindSome),
        spec_from_name(seq!['r', 'e', 'd', 'u', 'c', 'e']) == Some(CoreFnId::Reduce),
        spec_from_name(seq!['m', 'e', 'm', 'o', 'i', 'z', 'e']) == Some(CoreFnId::Memoize),
        spec_from_name(seq!['c', 'o', 'n', 's', 't', 'a', 'n', 't', 'l', 'y']) == Some(CoreFnId::Constantly),
{
    lemma_round_trip_print();
    assert(CoreFnId::Print.spec_name() == seq!['p', 'r', 'i', 'n', 't']);
    lemma_round_trip_apply();
    assert(CoreFnId::Apply.spec_name() == seq!['a', 'p', 'p', 'l', 'y']);
    lemma_round_trip_when();
    assert(CoreFnId::When.spec_name() == seq!['w', 'h', 'e', 'n']);
    lemma_round_trip_if();
    assert(CoreFnId::If.spec_name() == seq!['i', 'f']);
    lemma_round_trip_partial();
    assert(CoreFnId::Partial.spec_name() == seq!['p', 'a', 'r', 't', 'i', 'a', 'l']);
    lemma_round_trip_compose();
    assert(CoreFnId::Compose.spec_name() == seq!['c', 'o', 'm', 'p', 'o', 's', 'e']);
    lemma_round_trip_find_some();
    assert(CoreFnId::FindSome.spec_name() == seq!['s', 'o', 'm', 'e']);
    lemma_round_trip_reduce();
    assert(CoreFnId::Reduce.spec_name() == seq!['r', 'e', 'd', 'u', 'c', 'e']);
    lemma_round_trip_memoize();
    assert(CoreFnId::Memoize.spec_name() == seq!['m', 'e', 'm', 'o', 'i', 'z', 'e']);
    lemma_round_trip_constantly();
    assert(CoreFnId::Constantly.spec_name() == seq!['c', 'o', 'n', 's', 't', 'a', 'n', 't', 'l', 'y']);
}

/// Looking a name up finds the core function of that name, for every name of the
/// table of `law_core_fn_names` (part 2 of 13): `inc` finds `Inc`, `dec` finds `Dec`, and
/// so on.
pub proof fn law_core_fn_lookup_2()
    ensures
        spec_from_name(seq!['=', '=']) == Some(CoreFnId::NumericalEqual),
        spec_from_name(seq!['z', 'e', 'r', 'o', '?']) == Some(CoreFnId::IsZero),
        spec_from_name(seq!['n', 'a', 'n', '?']) == Some(CoreFnId::IsNan),
        spec_from_name(seq!['i', 'n', 'f', '?']) == Some(CoreFnId::IsInf),
        spec_from_name(seq!['e', 'v', 'e', 'n', '?']) == Some(CoreFnId::IsEven),
        spec_from_name(seq!['o', 'd', 'd', '?']) == Some(CoreFnId::IsOdd),
        spec_from_name(seq!['p', 'o', 's', '?']) == Some(CoreFnId::IsPos),
        spec_from_name(seq!['n', 'e', 'g', '?']) == Some(CoreFnId::IsNeg),
        spec_from_name(seq!['i', 'n', 'c']) == Some(CoreFnId::Inc),
        spec_from_name(seq!['d', 'e', 'c']) == Some(CoreFnId::Dec),
{
    lemma_round_trip_numerical_equal();
    assert(CoreFnId::NumericalEqual.spec_name() == seq!['=', '=']);
    lemma_round_trip_is_zero();
    assert(CoreFnId::IsZero.spec_name() == seq!['z', 'e', 'r', 'o', '?']);
    lemma_round_trip_is_nan();
    assert(CoreFnId::IsNan.spec_name() == seq!['n', 'a', 'n', '?']);
    lemma_round_trip_is_inf();
    assert(CoreFnId::IsInf.spec_name() == seq!['i', 'n', 'f', '?']);
    lemma_round_trip_is_even();
    assert(CoreFnId::IsEven.spec_name() == seq!['e', 'v', 'e', 'n', '?']);
    lemma_round_trip_is_odd();
    assert(CoreFnId::IsOdd.spec_name() == seq!['o', 'd', 'd', '?']);
    lemma_round_trip_is_pos();
    assert(CoreFnId::IsPos.spec_name() == seq!['p', 'o', 's', '?']);
    lemma_round_trip_is_neg();
    assert(CoreFnId::IsNeg.spec_name() == seq!['n', 'e', 'g', '?']);
    lemma_round_trip_inc();
    assert(CoreFnId::Inc.spec_name() == seq!['i', 'n', 'c']);
    lemma_round_trip_dec();
    assert(CoreFnId::Dec.spec_name() == seq!['d', 'e', 'c']);
}

/// Looking a name up finds the core function of that name, for every name of the
/// table of `law_core_fn_names` (part 3 of 13): `inc` finds `Inc`, `dec` finds `Dec`, and
/// so on.
pub proof fn law_core_fn_lookup_3()
    ensures
        spec_from_name(seq!['a', 'b', 's']) == Some(CoreFnId::Abs),
        spec_from_name(seq!['f', 'l', 'o', 'o', 'r']) == Some(CoreFnId::Floor),
        spec_from_name(seq!['c', 'e', 'i', 'l']) == Some(CoreFnId::Ceil),
        spec_from_name(seq!['s', 'q', 'r', 't']) == Some(CoreFnId::Sqrt),
        spec_from_name(seq!['e', 'x', 'p']) == Some(CoreFnId::Exp),
        spec_from_name(seq!['e', 'x', 'p', '2']) == Some(CoreFnId::Exp2),
        spec_from_name(seq!['l', 'n']) == Some(CoreFnId::Ln),
        spec_from_name(seq!['l', 'o', 'g', '2']) == Some(CoreFnId::Log2),
        spec_from_name(seq!['+']) == Some(CoreFnId::Add),
        spec_from_name(seq!['-']) == Some(CoreFnId::Subtract),
{
    lemma_round_trip_abs();
    assert(CoreFnId::Abs.spec_name() == seq!['a', 'b', 's']);
    lemma_round_trip_floor();
    assert(CoreFnId::Floor.spec_name() == seq!['f', 'l', 'o', 'o', 'r']);
    lemma_round_trip_ceil();
    assert(CoreFnId::Ceil.spec_name() == seq!['c', 'e', 'i', 'l']);
    lemma_round_trip_sqrt();
    assert(CoreFnId::Sqrt.spec_name() == seq!['s', 'q', 'r', 't']);
    lemma_round_trip_exp();
    assert(CoreFnId::Exp.spec_name() == seq!['e', 'x', 'p']);
    lemma_round_trip_exp2();
    assert(CoreFnId::Exp2.spec_name() == seq!['e', 'x', 'p', '2']);
    lemma_round_trip_ln();
    assert(CoreFnId::Ln.spec_name() == seq!['l', 'n']);
    lemma_round_trip_log2();
    assert(CoreFnId::Log2.spec_name() == seq!['l', 'o', 'g', '2']);
    lemma_round_trip_add();
    assert(CoreFnId::Add.spec_name() == seq!['+']);
    lemma_round_trip_subtract();
    assert(CoreFnId::Subtract.spec_name() == seq!['-']);
}

/// Looking a name up finds the core function of that name, for every name of the
/// table of `law_core_fn_names` (part 4 of 13): `inc` finds `Inc`, `dec` finds `Dec`, and
/// so on.
pub proof fn law_core_fn_lookup_4()
    ensures
        spec_from_name(seq!['*']) == Some(CoreFnId::Multiply),
        spec_from_name(seq!['/']) == Some(CoreFnId::Divide),
        spec_from_name(seq!['p', 'o', 'w']) == Some(CoreFnId::Pow),
        spec_from_name(seq!['m', 'o', 'd']) == Some(CoreFnId::Mod),
        spec_from_name(seq!['q', 'u', 'o', 't']) == Some(CoreFnId::Quot),
        spec_from_name(seq!['m', 'i', 'n']) == Some(CoreFnId::Min),
        spec_from_name(seq!['m', 'a', 'x']) == Some(CoreFnId::Max),
        spec_from_name(seq!['>']) == Some(CoreFnId::GreaterThan),
        spec_from_name(seq!['>', '=']) == Some(CoreFnId::GreaterThanOrEqual),
        spec_from_name(seq!['<']) == Some(CoreFnId::LessThan),
{
    lemma_round_trip_multiply();
    assert(CoreFnId::Multiply.spec_name() == seq!['*']);
    lemma_round_trip_divide();
    assert(CoreFnId::Divide.spec_name() == seq!['/']);
    lemma_round_trip_pow();
    assert(CoreFnId::Pow.spec_name() == seq!['p', 'o', 'w']);
    lemma_round_trip_mod();
    assert(CoreFnId::Mod.spec_name() == seq!['m', 'o', 'd']);
    lemma_round_trip_quot();
    assert(CoreFnId::Quot.spec_name() == seq!['q', 'u', 'o', 't']);
    lemma_round_trip_min();
    assert(CoreFnId::Min.spec_name() == seq!['m', 'i', 'n']);
    lemma_round_trip_max();
    assert(CoreFnId::Max.spec_name() == seq!['m', 'a', 'x']);
    lemma_round_trip_greater_than();
    assert(CoreFnId::GreaterThan.spec_name() == seq!['>']);
    lemma_round_trip_greater_than_or_equal();
    assert(CoreFnId::GreaterThanOrEqual.spec_name() == seq!['>', '=']);
    lemma_round_trip_less_than();
    assert(CoreFnId::LessThan.spec_name() == seq!['<']);
}

/// Looking a name up finds the core function of that name, for every name of the
/// table of `law_core_fn_names` (part 5 of 13): `inc` finds `Inc`, `dec` finds `Dec`, and
/// so on.
pub proof fn law_core_fn_lookup_5()
    ensures
        spec_from_name(seq!['<', '=']) == Some(CoreFnId::LessThanOrEqual),
        spec_from_name(seq!['r', 'a', 'n', 'd']) == Some(CoreFnId::Rand),
        spec_from_name(seq!['r', 'a', 'n', 'd', '-', 'i', 'n', 't']) == Some(CoreFnId::RandInt),
        spec_from_name(seq!['=']) == Some(CoreFnId::Equal),
        spec_from_name(seq!['n', 'o', 't', '=']) == Some(CoreFnId::NotEqual),
        spec_from_name(seq!['n', 'o', 't']) == Some(CoreFnId::Not),
        spec_from_name(seq!['a', 'n', 'd']) == Some(CoreFnId::And),
        spec_from_name(seq!['o', 'r']) == Some(CoreFnId::Or),
        spec_from_name(seq!['x', 'o', 'r']) == Some(CoreFnId::Xor),
        spec_from_name(seq!['e', 'm', 'p', 't', 'y', '?']) == Some(CoreFnId::IsEmpty),
{
    lemma_round_trip_less_than_or_equal();
    assert(CoreFnId::LessThanOrEqual.spec_name() == seq!['<', '=']);
    lemma_round_trip_rand();
    assert(CoreFnId::Rand.spec_name() == seq!['r', 'a', 'n', 'd']);
    lemma_round_trip_rand_int();
    assert(CoreFnId::RandInt.spec_name() == seq!['r', 'a', 'n', 'd', '-', 'i', 'n', 't']);
    lemma_round_trip_equal();
    assert(CoreFnId::Equal.spec_name() == seq!['=']);
    lemma_round_trip_not_equal();
    assert(CoreFnId::NotEqual.spec_name() == seq!['n', 'o', 't', '=']);
    lemma_round_trip_not();
    assert(CoreFnId::Not.spec_name() == seq!['n', 'o', 't']);
    lemma_round_trip_and();
    assert(CoreFnId::And.spec_name() == seq!['a', 'n', 'd']);
    lemma_round_trip_or();
    assert(CoreFnId::Or.spec_name() == seq!['o', 'r']);
    lemma_round_trip_xor();
    assert(CoreFnId::Xor.spec_name() == seq!['x', 'o', 'r']);
    lemma_round_trip_is_empty();
    assert(CoreFnId::IsEmpty.spec_name() == seq!['e', 'm', 'p', 't', 'y', '?']);
}

/// Looking a name up finds the core function of that name, for every name of the
/// table of `law_core_fn_names` (part 6 of 13): `inc` finds `Inc`, `dec` finds `Dec`, and
/// so on.
pub proof fn law_core_fn_lookup_6()
    ensures
        spec_from_name(seq!['f', 'i', 'r', 's', 't']) == Some(CoreFnId::First),
        spec_from_name(seq!['c', 'o', 'u', 'n', 't']) == Some(CoreFnId::Count),
        spec_from_name(seq!['f', 'l', 'a', 't', 't', 'e', 'n']) == Some(CoreFnId::Flatten),
        spec_from_name(seq!['r', 'e', 'm', 'o', 'v', 'e']) == Some(CoreFnId::Remove),
        spec_from_name(seq!['f', 'i', 'l', 't', 'e', 'r']) == Some(CoreFnId::Filter),
        spec_from_name(seq!['m', 'a', 'p']) == Some(CoreFnId::CollectionMap),
        spec_from_name(seq!['s', 'e', 't']) == Some(CoreFnId::CollectionSet),
        spec_from_name(seq!['s', 'e', 't', '-', 'i', 'n']) == Some(CoreFnId::SetIn),
        spec_from_name(seq!['g', 'e', 't']) == Some(CoreFnId::Get),
        spec_from_name(seq!['g', 'e', 't', '-', 'i', 'n']) == Some(CoreFnId::GetIn),
{
    lemma_round_trip_first();
    assert(CoreFnId::First.spec_name() == seq!['f', 'i', 'r', 's', 't']);
    lemma_round_trip_count();
    assert(CoreFnId::Count.spec_name() == seq!['c', 'o', 'u', 'n', 't']);
    lemma_round_trip_flatten();
    assert(CoreFnId::Flatten.spec_name() == seq!['f', 'l', 'a', 't', 't', 'e', 'n']);
    lemma_round_trip_remove();
    assert(CoreFnId::Remove.spec_name() == seq!['r', 'e', 'm', 'o', 'v', 'e']);
    lemma_round_trip_filter();
    assert(CoreFnId::Filter.spec_name() == seq!['f', 'i', 'l', 't', 'e', 'r']);
    lemma_round_trip_collection_map();
    assert(CoreFnId::CollectionMap.spec_name() == seq!['m', 'a', 'p']);
    lemma_round_trip_collection_set();
    assert(CoreFnId::CollectionSet.spec_name() == seq!['s', 'e', 't']);
    lemma_round_trip_set_in();
    assert(CoreFnId::SetIn.spec_name() == seq!['s', 'e', 't', '-', 'i', 'n']);
    lemma_round_trip_get();
    assert(CoreFnId::Get.spec_name() == seq!['g', 'e', 't']);
    lemma_round_trip_get_in();
    assert(CoreFnId::GetIn.spec_name() == seq!['g', 'e', 't', '-', 'i', 'n']);
}

/// Looking a name up finds the core function of that name, for every name of the
/// table of `law_core_fn_names` (part 7 of 13): `inc` finds `Inc`, `dec` finds `Dec`, and
/// so on.
pub proof fn law_core_fn_lookup_7()
    ensures
        spec_from_name(seq!['u', 'p', 'd', 'a', 't', 'e']) == Some(CoreFnId::Update),
        spec_from_name(seq!['u', 'p', 'd', 'a', 't', 'e', '-', 'i', 'n']) == Some(CoreFnId::UpdateIn),
        spec_from_name(seq!['m', 'i', 'n', '-', 'k', 'e', 'y']) == Some(CoreFnId::MinKey),
        spec_from_name(seq!['m', 'a', 'x', '-', 'k', 'e', 'y']) == Some(CoreFnId::MaxKey),
        spec_from_name(seq!['p', 'u', 's', 'h']) == Some(CoreFnId::Push),
        spec_from_name(seq!['s', 'o', 'r', 't']) == Some(CoreFnId::Sort),
        spec_from_name(seq!['s', 'o', 'r', 't', '-', 'b', 'y']) == Some(CoreFnId::SortBy),
        spec_from_name(seq!['l', 'i', 's', 't']) == Some(CoreFnId::CreateList),
        spec_from_name(seq!['l', 'a', 's', 't']) == Some(CoreFnId::Last),
        spec_from_name(seq!['r', 'e', 's', 't']) == Some(CoreFnId::Rest),
{
    lemma_round_trip_update();
    assert(CoreFnId::Update.spec_name() == seq!['u', 'p', 'd', 'a', 't', 'e']);
    lemma_round_trip_update_in();
    assert(CoreFnId::UpdateIn.spec_name() == seq!['u', 'p', 'd', 'a', 't', 'e', '-', 'i', 'n']);
    lemma_round_trip_min_key();
    assert(CoreFnId::MinKey.spec_name() == seq!['m', 'i', 'n', '-', 'k', 'e', 'y']);
    lemma_round_trip_max_key();
    assert(CoreFnId::MaxKey.spec_name() == seq!['m', 'a', 'x', '-', 'k', 'e', 'y']);
    lemma_round_trip_push();
    assert(CoreFnId::Push.spec_name() == seq!['p', 'u', 's', 'h']);
    lemma_round_trip_sort();
    assert(CoreFnId::Sort.spec_name() == seq!['s', 'o', 'r', 't']);
    lemma_round_trip_sort_by();
    assert(CoreFnId::SortBy.spec_name() == seq!['s', 'o', 'r', 't', '-', 'b', 'y']);
    lemma_round_trip_create_list();
    assert(CoreFnId::CreateList.spec_name() == seq!['l', 'i', 's', 't']);
    lemma_round_trip_last();
    assert(CoreFnId::Last.spec_name() == seq!['l', 'a', 's', 't']);
    lemma_round_trip_rest();
    assert(CoreFnId::Rest.spec_name() == seq!['r', 'e', 's', 't']);
}

/// Looking a name up finds the core function of that name, for every name of the
/// table of `law_core_fn_names` (part 8 of 13): `inc` finds `Inc`, `dec` finds `Dec`, and
/// so on.
pub proof fn law_core_fn_lookup_8()
    ensures
        spec_from_name(seq!['b', 'u', 't', 'l', 'a', 's', 't']) == Some(CoreFnId::ButLast),
        spec_from_name(seq!['n', 't', 'h']) == Some(CoreFnId::Nth),
        spec_from_name(seq!['n', 't', 'h', '-', 'f', 'r', 'o', 'm', '-', 'l', 'a', 's', 't']) == Some(CoreFnId::NthFromLast),
        spec_from_name(seq!['c', 'o', 'n', 's']) == Some(CoreFnId::Cons),
        spec_from_name(seq!['c', 'o', 'n', 'c', 'a', 't']) == Some(CoreFnId::Concat),
        spec_from_name(seq!['t', 'a', 'k', 'e']) == Some(CoreFnId::Take),
        spec_from_name(seq!['d', 'r', 'o', 'p']) == Some(CoreFnId::Drop),
        spec_from_name(seq!['r', 'e', 'v', 'e', 'r', 's', 'e']) == Some(CoreFnId::Reverse),
        spec_from_name(seq!['d', 'i', 's', 't', 'i', 'n', 'c', 't']) == Some(CoreFnId::Distinct),
        spec_from_name(seq!['s', 'u', 'b']) == Some(CoreFnId::Sub),
{
    lemma_round_trip_but_last();
    assert(CoreFnId::ButLast.spec_name() == seq!['b', 'u', 't', 'l', 'a', 's', 't']);
    lemma_round_trip_nth();
    assert(CoreFnId::Nth.spec_name() == seq!['n', 't', 'h']);
    lemma_round_trip_nth_from_last();
    assert(CoreFnId::NthFromLast.spec_name() == seq!['n', 't', 'h', '-', 'f', 'r', 'o', 'm', '-', 'l', 'a', 's', 't']);
    lemma_round_trip_cons();
    assert(CoreFnId::Cons.spec_name() == seq!['c', 'o', 'n', 's']);
    lemma_round_trip_concat();
    assert(CoreFnId::Concat.spec_name() == seq!['c', 'o', 'n', 'c', 'a', 't']);
    lemma_round_trip_take();
    assert(CoreFnId::Take.spec_name() == seq!['t', 'a', 'k', 'e']);
    lemma_round_trip_drop();
    assert(CoreFnId::Drop.spec_name() == seq!['d', 'r', 'o', 'p']);
    lemma_round_trip_reverse();
    assert(CoreFnId::Reverse.spec_name() == seq!['r', 'e', 'v', 'e', 'r', 's', 'e']);
    lemma_round_trip_distinct();
    assert(CoreFnId::Distinct.spec_name() == seq!['d', 'i', 's', 't', 'i', 'n', 'c', 't']);
    lemma_round_trip_sub();
    assert(CoreFnId::Sub.spec_name() == seq!['s', 'u', 'b']);
}

/// Looking a name up finds the core function of that name, for every name of the
/// table of `law_core_fn_names` (part 9 of 13): `inc` finds `Inc`, `dec` finds `Dec`, and
/// so on.
pub proof fn law_core_fn_lookup_9()
    ensures
        spec_from_name(seq!['p', 'a', 'r', 't', 'i', 't', 'i', 'o', 'n']) == Some(CoreFnId::Partition),
        spec_from_name(seq!['p', 'a', 'd']) == Some(CoreFnId::Pad),
        spec_from_name(seq!['h', 'a', 's', 'h', 'm', 'a', 'p']) == Some(CoreFnId::CreateMap),
        spec_from_name(seq!['k', 'e', 'y', 's']) == Some(CoreFnId::Keys),
        spec_from_name(seq!['v', 'a', 'l', 's']) == Some(CoreFnId::Values),
        spec_from_name(seq!['z', 'i', 'p']) == Some(CoreFnId::Zip),
        spec_from_name(seq!['i', 'n', 'v', 'e', 'r', 't']) == Some(CoreFnId::Invert),
        spec_from_name(seq!['m', 'e', 'r', 'g', 'e']) == Some(CoreFnId::Merge),
        spec_from_name(seq!['m', 'e', 'r', 'g', 'e', '-', 'w', 'i', 't', 'h']) == Some(CoreFnId::MergeWith),
        spec_from_name(seq!['m', 'a', 'p', '-', 'k', 'e', 'y', 's']) == Some(CoreFnId::MapKeys),
{
    lemma_round_trip_partition();
    assert(CoreFnId::Partition.spec_name() == seq!['p', 'a', 'r', 't', 'i', 't', 'i', 'o', 'n']);
    lemma_round_trip_pad();
    assert(CoreFnId::Pad.spec_name() == seq!['p', 'a', 'd']);
    lemma_round_trip_create_map();
    assert(CoreFnId::CreateMap.spec_name() == seq!['h', 'a', 's', 'h', 'm', 'a', 'p']);
    lemma_round_trip_keys();
    assert(CoreFnId::Keys.spec_name() == seq!['k', 'e', 'y', 's']);
    lemma_round_trip_values();
    assert(CoreFnId::Values.spec_name() == seq!['v', 'a', 'l', 's']);
    lemma_round_trip_zip();
    assert(CoreFnId::Zip.spec_name() == seq!['z', 'i', 'p']);
    lemma_round_trip_invert();
    assert(CoreFnId::Invert.spec_name() == seq!['i', 'n', 'v', 'e', 'r', 't']);
    lemma_round_trip_merge();
    assert(CoreFnId::Merge.spec_name() == seq!['m', 'e', 'r', 'g', 'e']);
    lemma_round_trip_merge_with();
    assert(CoreFnId::MergeWith.spec_name() == seq!['m', 'e', 'r', 'g', 'e', '-', 'w', 'i', 't', 'h']);
    lemma_round_trip_map_keys();
    assert(CoreFnId::MapKeys.spec_name() == seq!['m', 'a', 'p', '-', 'k', 'e', 'y', 's']);
}

/// Looking a name up finds the core function of that name, for every name of the
/// table of `law_core_fn_names` (part 10 of 13): `inc` finds `Inc`, `dec` finds `Dec`, and
/// so on.
pub proof fn law_core_fn_lookup_10()
    ensures
        spec_from_name(seq!['m', 'a', 'p', '-', 'v', 'a', 'l', 's']) == Some(CoreFnId::MapValues),
        spec_from_name(seq!['s', 'e', 'l', 'e', 'c', 't', '-', 'k', 'e', 'y', 's']) == Some(CoreFnId::SelectKeys),
        spec_from_name(seq!['h', 'a', 's', 'h', 's', 'e', 't']) == Some(CoreFnId::CreateSet),
        spec_from_name(seq!['u', 'n', 'i', 'o', 'n']) == Some(CoreFnId::Union),
        spec_from_name(seq!['i', 'n', 't', 'e', 'r', 's', 'e', 'c', 't', 'i', 'o', 'n']) == Some(CoreFnId::Intersection),
        spec_from_name(seq!['d', 'i', 'f', 'f', 'e', 'r', 'e', 'n', 'c', 'e']) == Some(CoreFnId::Difference),
        spec_from_name(seq!['s', 'y', 'm', '-', 'd', 'i', 'f', 'f', 'e', 'r', 'e', 'n', 'c', 'e']) == Some(CoreFnId::SymmetricDifference),
        spec_from_name(seq!['r', 'a', 'n', 'g', 'e']) == Some(CoreFnId::Range),
        spec_from_name(seq!['r', 'e', 'p', 'e', 'a', 't']) == Some(CoreFnId::Repeat),
        spec_from_name(seq!['r', 'e', 'p', 'e', 'a', 't', 'e', 'd', 'l', 'y']) == Some(CoreFnId::Repeatedly),
{
    lemma_round_trip_map_values();
    assert(CoreFnId::MapValues.spec_name() == seq!['m', 'a', 'p', '-', 'v', 'a', 'l', 's']);
    lemma_round_trip_select_keys();
    assert(CoreFnId::SelectKeys.spec_name() == seq!['s', 'e', 'l', 'e', 'c', 't', '-', 'k', 'e', 'y', 's']);
    lemma_round_trip_create_set();
    assert(CoreFnId::CreateSet.spec_name() == seq!['h', 'a', 's', 'h', 's', 'e', 't']);
    lemma_round_trip_union();
    assert(CoreFnId::Union.spec_name() == seq!['u', 'n', 'i', 'o', 'n']);
    lemma_round_trip_intersection();
    assert(CoreFnId::Intersection.spec_name() == seq!['i', 'n', 't', 'e', 'r', 's', 'e', 'c', 't', 'i', 'o', 'n']);
    lemma_round_trip_difference();
    assert(CoreFnId::Difference.spec_name() == seq!['d', 'i', 'f', 'f', 'e', 'r', 'e', 'n', 'c', 'e']);
    lemma_round_trip_symmetric_difference();
    assert(CoreFnId::SymmetricDifference.spec_name() == seq!['s', 'y', 'm', '-', 'd', 'i', 'f', 'f', 'e', 'r', 'e', 'n', 'c', 'e']);
    lemma_round_trip_range();
    assert(CoreFnId::Range.spec_name() == seq!['r', 'a', 'n', 'g', 'e']);
    lemma_round_trip_repeat();
    assert(CoreFnId::Repeat.spec_name() == seq!['r', 'e', 'p', 'e', 'a', 't']);
    lemma_round_trip_repeatedly();
    assert(CoreFnId::Repeatedly.spec_name() == seq!['r', 'e', 'p', 'e', 'a', 't', 'e', 'd', 'l', 'y']);
}

/// Looking a name up finds the core function of that name, for every name of the
/// table of `law_core_fn_names` (part 11 of 13): `inc` finds `Inc`, `dec` finds `Dec`, and
/// so on.
pub proof fn law_core_fn_lookup_11()
    ensures
        spec_from_name(seq!['i', 't', 'e', 'r', 'a', 't', 'e']) == Some(CoreFnId::Iterate),
        spec_from_name(seq!['n', 'i', 'l', '?']) == Some(CoreFnId::IsNil),
        spec_from_name(seq!['b', 'o', 'o', 'l', '?']) == Some(CoreFnId::IsBool),
        spec_from_name(seq!['c', 'h', 'a', 'r', '?']) == Some(CoreFnId::IsChar),
        spec_from_name(seq!['n', 'u', 'm', '?']) == Some(CoreFnId::IsNum),
        spec_from_name(seq!['i', 'n', 't', '?']) == Some(CoreFnId::IsInt),
        spec_from_name(seq!['f', 'l', 'o', 'a', 't', '?']) == Some(CoreFnId::IsFloat),
        spec_from_name(seq!['s', 'y', 'm', 'b', 'o', 'l', '?']) == Some(CoreFnId::IsSymbol),
        spec_from_name(seq!['s', 't', 'r', '?']) == Some(CoreFnId::IsString),
        spec_from_name(seq!['l', 'i', 's', 't', '?']) == Some(CoreFnId::IsList),
{
    lemma_round_trip_iterate();
    assert(CoreFnId::Iterate.spec_name() == seq!['i', 't', 'e', 'r', 'a', 't', 'e']);
    lemma_round_trip_is_nil();
    assert(CoreFnId::IsNil.spec_name() == seq!['n', 'i', 'l', '?']);
    lemma_round_trip_is_bool();
    assert(CoreFnId::IsBool.spec_name() == seq!['b', 'o', 'o', 'l', '?']);
    lemma_round_trip_is_char();
    assert(CoreFnId::IsChar.spec_name() == seq!['c', 'h', 'a', 'r', '?']);
    lemma_round_trip_is_num();
    assert(CoreFnId::IsNum.spec_name() == seq!['n', 'u', 'm', '?']);
    lemma_round_trip_is_int();
    assert(CoreFnId::IsInt.spec_name() == seq!['i', 'n', 't', '?']);
    lemma_round_trip_is_float();
    assert(CoreFnId::IsFloat.spec_name() == seq!['f', 'l', 'o', 'a', 't', '?']);
    lemma_round_trip_is_symbol();
    assert(CoreFnId::IsSymbol.spec_name() == seq!['s', 'y', 'm', 'b', 'o', 'l', '?']);
    lemma_round_trip_is_string();
    assert(CoreFnId::IsString.spec_name() == seq!['s', 't', 'r', '?']);
    lemma_round_trip_is_list();
    assert(CoreFnId::IsList.spec_name() == seq!['l', 'i', 's', 't', '?']);
}

/// Looking a name up finds the core function of that name, for every name of the
/// table of `law_core_fn_names` (part 12 of 13): `inc` finds `Inc`, `dec` finds `Dec`, and
/// so on.
pub proof fn law_core_fn_lookup_12()
    ensures
        spec_from_name(seq!['h', 'a', 's', 'h', 'm', 'a', 'p', '?']) == Some(CoreFnId::IsMap),
        spec_from_name(seq!['h', 'a', 's', 'h', 's', 'e', 't', '?']) == Some(CoreFnId::IsSet),
        spec_from_name(seq!['c', 'o', 'l', 'l', 'e', 'c', 't', 'i', 'o', 'n', '?']) == Some(CoreFnId::IsCollection),
        spec_from_name(seq!['f', 'n', '?']) == Some(CoreFnId::IsFn),
        spec_from_name(seq!['b', 'o', 'o', 'l']) == Some(CoreFnId::ToBool),
        spec_from_name(seq!['c', 'h', 'a', 'r']) == Some(CoreFnId::ToChar),
        spec_from_name(seq!['n', 'u', 'm']) == Some(CoreFnId::ToNum),
        spec_from_name(seq!['i', 'n', 't']) == Some(CoreFnId::ToInt),
        spec_from_name(seq!['f', 'l', 'o', 'a', 't']) == Some(CoreFnId::ToFloat),
        spec_from_name(seq!['s', 'y', 'm', 'b', 'o', 'l']) == Some(CoreFnId::ToSymbol),
{
    lemma_round_trip_is_map();
    assert(CoreFnId::IsMap.spec_name() == seq!['h', 'a', 's', 'h', 'm', 'a', 'p', '?']);
    lemma_round_trip_is_set();
    assert(CoreFnId::IsSet.spec_name() == seq!['h', 'a', 's', 'h', 's', 'e', 't', '?']);
    lemma_round_trip_is_collection();
    assert(CoreFnId::IsCollection.spec_name() == seq!['c', 'o', 'l', 'l', 'e', 'c', 't', 'i', 'o', 'n', '?']);
    lemma_round_trip_is_fn();
    assert(CoreFnId::IsFn.spec_name() == seq!['f', 'n', '?']);
    lemma_round_trip_to_bool();
    assert(CoreFnId::ToBool.spec_name() == seq!['b', 'o', 'o', 'l']);
    lemma_round_trip_to_char();
    assert(CoreFnId::ToChar.spec_name() == seq!['c', 'h', 'a', 'r']);
    lemma_round_trip_to_num();
    assert(CoreFnId::ToNum.spec_name() == seq!['n', 'u', 'm']);
    lemma_round_trip_to_int();
    assert(CoreFnId::ToInt.spec_name() == seq!['i', 'n', 't']);
    lemma_round_trip_to_float();
    assert(CoreFnId::ToFloat.spec_name() == seq!['f', 'l', 'o', 'a', 't']);
    lemma_round_trip_to_symbol();
    assert(CoreFnId::ToSymbol.spec_name() == seq!['s', 'y', 'm', 'b', 'o', 'l']);
}

/// Looking a name up finds the core function of that name, for every name of the
/// table of `law_core_fn_names` (part 13 of 13): `inc` finds `Inc`, `dec` finds `Dec`, and
/// so on.
pub proof fn law_core_fn_lookup_13()
    ensures
        spec_from_name(seq!['s', 't', 'r']) == Some(CoreFnId::ToString),
        spec_from_name(seq!['t', 'o', '-', 'l', 'i', 's', 't']) == Some(CoreFnId::ToList),
        spec_from_name(seq!['t', 'o', '-', 'h', 'a', 's', 'h', 'm', 'a', 'p']) == Some(CoreFnId::ToMap),
{
    lemma_round_trip_to_string();
    assert(CoreFnId::ToString.spec_name() == seq!['s', 't', 'r']);
    lemma_round_trip_to_list();
    assert(CoreFnId::ToList.spec_name() == seq!['t', 'o', '-', 'l', 'i', 's', 't']);
    lemma_round_trip_to_map();
    assert(CoreFnId::ToMap.spec_name() == seq!['t', 'o', '-', 'h', 'a', 's', 'h', 'm', 'a', 'p']);
}

} // verus!
