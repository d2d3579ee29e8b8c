use vstd::prelude::*;
use crate::runtime::control::{PausedCoroutine, StackFrame};
use crate::runtime::core_functions::CoreFnId;
use crate::runtime::data::{GenericValue, Num, Value};
use crate::runtime::error::RuntimeError;
use crate::runtime::evaluation::EvaluationState;
use crate::runtime::host::Host;
use crate::text::{chars_of, decimal, int_text, push_decimal, push_int_text, string_from_chars};

verus! {

/// Appends the characters of `s`.
pub(crate) fn push_str(out: &mut Vec<char>, s: &str)
    ensures
        final(out)@ == old(out)@ + s@,
{
    let mut chars = chars_of(s);
    out.append(&mut chars);
}

/// Appends the decimal digits of `n`.
pub(crate) fn push_usize(out: &mut Vec<char>, n: usize)
    ensures
        final(out)@ == old(out)@ + decimal(n as nat),
{
    push_decimal(out, n as u64);
}

/// How many bytes `c` takes in UTF-8.
pub open spec fn char_utf8_len(c: char) -> nat {
    if (c as u32) < 0x80 {
        1
    } else if (c as u32) < 0x800 {
        2
    } else if (c as u32) < 0x10000 {
        3
    } else {
        4
    }
}

/// How many bytes `s` takes in UTF-8.
pub open spec fn utf8_len(s: Seq<char>) -> nat
    decreases s.len(),
{
    if s.len() == 0 {
        0
    } else {
        utf8_len(s.drop_last()) + char_utf8_len(s.last())
    }
}

/// How many characters of `width` bytes must follow `have` bytes to reach `length`
/// bytes.
pub open spec fn padding_count(have: int, length: int, width: nat) -> nat
    decreases if have < length {
        length - have
    } else {
        0
    },
{
    if have >= length || width == 0 {
        0
    } else {
        1 + padding_count(have + width, length, width)
    }
}

/// `s` with `c` appended until its UTF-8 encoding has at least `length` bytes.
pub open spec fn padded(length: nat, c: char, s: Seq<char>) -> Seq<char> {
    s + Seq::new(padding_count(utf8_len(s) as int, length as int, char_utf8_len(c)), |i: int| c)
}

proof fn lemma_utf8_len_prefix(s: Seq<char>, i: int)
    requires
        0 <= i <= s.len(),
    ensures
        utf8_len(s.take(i)) <= utf8_len(s),
    decreases s.len(),
{
    if i < s.len() {
        assert(s.drop_last().take(i) =~= s.take(i));
        lemma_utf8_len_prefix(s.drop_last(), i);
    } else {
        assert(s.take(i) =~= s);
    }
}

proof fn lemma_padding_none(have: int, length: int, width: nat)
    requires
        have >= length,
    ensures
        padding_count(have, length, width) == 0,
{
}

/// How many bytes `c` takes in UTF-8.
fn utf8_width(c: char) -> (w: usize)
    ensures
        w == char_utf8_len(c),
{
    let code = c as u32;
    if code < 0x80 {
        1
    } else if code < 0x800 {
        2
    } else if code < 0x10000 {
        3
    } else {
        4
    }
}

/// `s` with `c` appended until its UTF-8 encoding has at least `length` bytes.
pub fn pad(length: usize, c: char, s: String) -> (result: String)
    ensures
        result@ == padded(length as nat, c, s@),
{
    let mut chars = chars_of(s.as_str());
    let ghost unpadded = chars@;
    let width = utf8_width(c);
    let mut have: usize = 0;
    let mut i: usize = 0;
    while i < chars.len() && have < length
        invariant
            chars@ == unpadded,
            0 <= i <= unpadded.len(),
            utf8_len(unpadded.take(i as int)) >= length ==> have >= length,
            utf8_len(unpadded.take(i as int)) < length ==> have == utf8_len(unpadded.take(i as int)),
        decreases unpadded.len() - i,
    {
        let w = utf8_width(chars[i]);
        proof {
            let next = unpadded.take(i + 1);
            assert(next.drop_last() =~= unpadded.take(i as int));
            assert(next.last() == unpadded[i as int]);
        }
        have = have.saturating_add(w);
        i = i + 1;
    }
    proof {
        if i == unpadded.len() {
            assert(unpadded.take(i as int) =~= unpadded);
        } else {
            lemma_utf8_len_prefix(unpadded, i as int);
        }
        if have >= length {
            lemma_padding_none(have as int, length as int, width as nat);
            lemma_padding_none(utf8_len(unpadded) as int, length as int, width as nat);
        }
        assert(unpadded + Seq::new(padding_count(utf8_len(unpadded) as int, length as int, width as nat), |j: int| c)
            =~= chars@ + Seq::new(padding_count(have as int, length as int, width as nat), |j: int| c));
    }
    let ghost target = padded(length as nat, c, unpadded);
    while have < length
        invariant
            width == char_utf8_len(c),
            target == chars@ + Seq::new(padding_count(have as int, length as int, width as nat), |j: int| c),
        decreases padding_count(have as int, length as int, width as nat),
    {
        let ghost before = chars@;
        let ghost rest = padding_count(have as int, length as int, width as nat);
        let next = have.saturating_add(width);
        proof {
            assert(rest == 1 + padding_count(have + width, length as int, width as nat));
            if have + width > usize::MAX {
                lemma_padding_none(have + width, length as int, width as nat);
                lemma_padding_none(next as int, length as int, width as nat);
            }
        }
        chars.push(c);
        have = next;
        proof {
            assert(before + Seq::new(rest, |j: int| c) =~= chars@ + Seq::new(
                padding_count(have as int, length as int, width as nat),
                |j: int| c,
            ));
        }
    }
    proof {
        lemma_padding_none(have as int, length as int, width as nat);
        assert(chars@ =~= chars@ + Seq::new(0, |j: int| c));
    }
    string_from_chars(chars.as_slice())
}

/// The lines of `s`, each with `spaces` spaces in front.
pub fn indent_lines(spaces: usize, s: String) -> (indented: String)
    ensures
        indented@ == indented_text(spaces as nat, s@),
{
    let chars = chars_of(s.as_str());
    let mut out: Vec<char> = Vec::new();
    let mut k: usize = 0;
    while k < spaces
        invariant
            k <= spaces,
            out@ == Seq::new(k as nat, |j: int| ' '),
        decreases spaces - k,
    {
        out.push(' ');
        proof {
            assert(out@ =~= Seq::new((k + 1) as nat, |j: int| ' '));
        }
        k = k + 1;
    }
    let mut i: usize = 0;
    proof {
        assert(chars@.take(0) =~= Seq::<char>::empty());
        assert(out@ =~= indented_text(spaces as nat, chars@.take(0)));
    }
    while i < chars.len()
        invariant
            0 <= i <= chars@.len(),
            out@ == indented_text(spaces as nat, chars@.take(i as int)),
        decreases chars@.len() - i,
    {
        let c = chars[i];
        proof {
            assert(chars@.take(i + 1) =~= chars@.take(i as int).push(c));
            lemma_indented_push(spaces as nat, chars@.take(i as int), c);
        }
        out.push(c);
        if c == '\n' {
            let mut k: usize = 0;
            let ghost line = out@;
            while k < spaces
                invariant
                    k <= spaces,
                    out@ == line + Seq::new(k as nat, |j: int| ' '),
                decreases spaces - k,
            {
                out.push(' ');
                proof {
                    assert(out@ =~= line + Seq::new((k + 1) as nat, |j: int| ' '));
                }
                k = k + 1;
            }
        }
        i = i + 1;
    }
    proof {
        assert(chars@.take(chars@.len() as int) =~= chars@);
    }
    string_from_chars(out.as_slice())
}

/// `s` with `spaces` spaces before its first character and after each newline.
pub open spec fn indented_text(spaces: nat, s: Seq<char>) -> Seq<char>
    decreases s.len(),
{
    if s.len() == 0 {
        Seq::new(spaces, |j: int| ' ')
    } else {
        let before = indented_text(spaces, s.drop_last());
        if s.last() == '\n' {
            before.push('\n') + Seq::new(spaces, |j: int| ' ')
        } else {
            before.push(s.last())
        }
    }
}

proof fn lemma_indented_push(spaces: nat, s: Seq<char>, c: char)
    ensures
        indented_text(spaces, s.push(c)) == if c == '\n' {
            indented_text(spaces, s).push('\n') + Seq::new(spaces, |j: int| ' ')
        } else {
            indented_text(spaces, s).push(c)
        },
{
    assert(s.push(c).drop_last() =~= s);
}

/// The description of a value that holds no float, collection or function: `nil`,
/// `true`, `false`, an integer in decimal, a character in single quotes, a string in
/// double quotes, a symbol as `<symbol k>`; empty for any other value.
pub open spec fn plain_description(value: Value) -> Seq<char> {
    match value {
        GenericValue::Nil => seq!['n', 'i', 'l'],
        GenericValue::Bool(true) => seq!['t', 'r', 'u', 'e'],
        GenericValue::Bool(false) => seq!['f', 'a', 'l', 's', 'e'],
        GenericValue::Number(Num::Int(i)) => int_text(i as int),
        GenericValue::Char(c) => seq!['\'', c, '\''],
        GenericValue::Str(s) => seq!['"'] + s@ + seq!['"'],
        GenericValue::Symbol(k) => "<symbol "@ + decimal(k as nat) + seq!['>'],
        _ => Seq::empty(),
    }
}

/// The text of a runtime error that carries no value or text of its own; empty for the
/// others.
pub open spec fn plain_error_message(error: RuntimeError) -> Seq<char> {
    match error {
        RuntimeError::ArgumentNotNum => "argument is not a number"@,
        RuntimeError::ArgumentNotInt => "argument is not an integer"@,
        RuntimeError::ArgumentNotList => "argument is not a list"@,
        RuntimeError::NotYetImplemented => "not yet implemented"@,
        RuntimeError::InvalidArity => "invalid arity"@,
        RuntimeError::CoroutineAlreadyRunning => "attempt to run coroutine that is already running"@,
        RuntimeError::IsntCoroutine => "argument is not a coroutine"@,
        RuntimeError::DeadCoroutine => "attempt to run dead coroutine"@,
        RuntimeError::StackOverflow => "stack overflow"@,
        RuntimeError::MalformedProgram => "malformed program"@,
        RuntimeError::StepLimitReached => "step limit reached"@,
        RuntimeError::ExternalError(handle) => "external error: \""@ + decimal(handle as nat)
            + "\""@,
        _ => Seq::empty(),
    }
}

/// Appends the text of a runtime error: a fixed message, which for an error that
/// carries a value describes the value, and for a failed coroutine creation is the
/// message it carries.
pub fn describe_error_into<H: Host>(
    error: &RuntimeError,
    coroutines: &Vec<Option<PausedCoroutine>>,
    host: &H,
    out: &mut Vec<char>,
)
    ensures
        !(plain_error_message(*error) =~= Seq::<char>::empty()) ==> final(out)@ == old(out)@
            + plain_error_message(*error),
        error matches RuntimeError::CantCreateCoroutine(message) ==> final(out)@ == old(out)@
            + message@,
        error_description(*error, coroutines@) matches Some(t) ==> final(out)@ == old(out)@ + t,
    decreases error, 1nat,
{
    match error {
        RuntimeError::ArgumentNotNum => push_str(out, "argument is not a number"),
        RuntimeError::ArgumentNotInt => push_str(out, "argument is not an integer"),
        RuntimeError::ArgumentNotList => push_str(out, "argument is not a list"),
        RuntimeError::NotYetImplemented => push_str(out, "not yet implemented"),
        RuntimeError::CantCastToNum(v) => {
            push_str(out, "can't cast value ");
            describe_into(v, coroutines, host, out);
            push_str(out, " to number");
        },
        RuntimeError::CantApply(v) => {
            push_str(out, "can't apply value ");
            describe_into(v, coroutines, host, out);
        },
        RuntimeError::InvalidArity => push_str(out, "invalid arity"),
        RuntimeError::CantCreateCoroutine(s) => push_str(out, s.as_str()),
        RuntimeError::CoroutineAlreadyRunning => push_str(
            out,
            "attempt to run coroutine that is already running",
        ),
        RuntimeError::IsntCoroutine => push_str(out, "argument is not a coroutine"),
        RuntimeError::DeadCoroutine => push_str(out, "attempt to run dead coroutine"),
        RuntimeError::ExternalError(handle) => {
            push_str(out, "external error: \"");
            push_decimal(out, *handle);
            push_str(out, "\"");
            proof {
                assert(final(out)@ =~= old(out)@ + plain_error_message(*error));
            }
        },
        RuntimeError::StackOverflow => push_str(out, "stack overflow"),
        RuntimeError::MalformedProgram => push_str(out, "malformed program"),
        RuntimeError::StepLimitReached => push_str(out, "step limit reached"),
    }
}

/// A float's text as the language shows it: the text `text` that the host gives for it,
/// with a point added where it has none.
pub open spec fn with_point(text: Seq<char>) -> Seq<char> {
    if text.contains('.') {
        text
    } else {
        text.push('.')
    }
}

/// The name shown for a core function: its name, or `<unnamed>` for the cell functions,
/// which programs cannot name.
pub open spec fn core_fn_label(id: CoreFnId) -> Seq<char> {
    if id.is_named() {
        id.spec_name()
    } else {
        "<unnamed>"@
    }
}

/// The state shown for a coroutine, with the table of coroutines `coroutines`: `dead`
/// once it has finished; `paused` or `unstarted` with the number of arguments it awaits
/// while it waits in the table; `active` while it runs.
pub open spec fn coroutine_text(c: Option<usize>, coroutines: Seq<Option<PausedCoroutine>>) -> Seq<char> {
    match c {
        None => "dead"@,
        Some(id) => if id < coroutines.len() {
            match coroutines[id as int] {
                Some(paused) => (if paused.started {
                    "paused"@
                } else {
                    "unstarted"@
                }) + ", awaiting "@ + decimal(paused.args.count as nat) + " arguments"@,
                None => "active"@,
            }
        } else {
            "active"@
        },
    }
}

/// The description of a value that holds no float, with the table of coroutines
/// `coroutines`: the plain description of `nil`, booleans, integers, characters, strings
/// and symbols; a list as its items in brackets, a set in `#{` and `}`, a map as its
/// entries in braces, each a key and its value separated by a space, items and entries
/// separated by `", "`; a function of the language as `fn( ` with its number of arguments
/// and of instructions; core and external functions by name; partial applications and
/// compositions with their parts; a coroutine with its state; an error with its message.
/// None where the value holds a float, whose text the host gives.
pub open spec fn full_description(value: Value, coroutines: Seq<Option<PausedCoroutine>>) -> Option<
    Seq<char>,
>
    decreases value, 1nat,
{
    if plain_description(value).len() > 0 {
        Some(plain_description(value))
    } else {
        match value {
            GenericValue::List(values) => match joined_descriptions(*values, values@.len(), coroutines) {
                Some(t) => Some(seq!['['] + t + seq![']']),
                None => None,
            },
            GenericValue::Hashset(values) => match joined_descriptions(
                *values,
                values@.len(),
                coroutines,
            ) {
                Some(t) => Some(seq!['#', '{'] + t + seq!['}']),
                None => None,
            },
            GenericValue::Hashmap(entries) => match joined_entry_descriptions(
                *entries,
                entries@.len(),
                coroutines,
            ) {
                Some(t) => Some(seq!['{'] + t + seq!['}']),
                None => None,
            },
            GenericValue::CompositeFn(f) => Some(
                "fn( "@ + decimal(f.args.count as nat) + " args, "@ + decimal(
                    f.block.instructions@.len(),
                ) + " instructions )\n"@,
            ),
            GenericValue::CoreFn(id) => Some("core_fn( "@ + core_fn_label(id) + " )"@),
            GenericValue::ExternalFn(f) => Some(
                "external_fn( "@ + match f.name {
                    Some(name) => name@,
                    None => "<unnamed>"@,
                } + " )"@,
            ),
            GenericValue::PartialApplication(p) => {
                proof {
                    assert(decreases_to!(value => p.0));
                    assert(decreases_to!(value => p.1));
                }
                match (full_description(p.0, coroutines), joined_descriptions(p.1, p.1@.len(), coroutines)) {
                    (Some(head), Some(args)) => Some(
                        "partial application: f = "@ + head + ", args = ["@ + args + seq![']'],
                    ),
                    _ => None,
                }
            },
            GenericValue::Composition(fs) => match joined_descriptions(*fs, fs@.len(), coroutines) {
                Some(t) => Some("composition: ["@ + t + seq![']']),
                None => None,
            },
            GenericValue::Coroutine(c) => Some("coroutine ("@ + coroutine_text(c, coroutines) + seq![')']),
            GenericValue::ExternalObject(_) => Some("external_object"@),
            GenericValue::Error(e) => match error_description(*e, coroutines) {
                Some(t) => Some("error: "@ + t),
                None => None,
            },
            _ => None,
        }
    }
}

/// The text of a runtime error (see `full_description`): a fixed message, which for an
/// error that carries a value describes the value, and for a failed coroutine creation
/// is the message it carries. None where the value it carries holds a float.
pub open spec fn error_description(error: RuntimeError, coroutines: Seq<Option<PausedCoroutine>>) -> Option<
    Seq<char>,
>
    decreases error, 2nat,
{
    match error {
        RuntimeError::CantCastToNum(v) => match full_description(v, coroutines) {
            Some(t) => Some("can't cast value "@ + t + " to number"@),
            None => None,
        },
        RuntimeError::CantApply(v) => match full_description(v, coroutines) {
            Some(t) => Some("can't apply value "@ + t),
            None => None,
        },
        RuntimeError::CantCreateCoroutine(message) => Some(message@),
        _ => Some(plain_error_message(error)),
    }
}

/// The descriptions of the first `n` of `values`, separated by `", "`, where each has
/// one (see `full_description`).
pub open spec fn joined_descriptions(
    values: Vec<Value>,
    n: nat,
    coroutines: Seq<Option<PausedCoroutine>>,
) -> Option<Seq<char>>
    decreases values, n,
{
    if n == 0 || n > values@.len() {
        if n == 0 {
            Some(Seq::empty())
        } else {
            None
        }
    } else {
        proof {
            assert(decreases_to!(values => values@[n - 1]));
        }
        match (
            joined_descriptions(values, (n - 1) as nat, coroutines),
            full_description(values@[n - 1], coroutines),
        ) {
            (Some(init), Some(last)) => Some(
                if n == 1 {
                    last
                } else {
                    init + seq![',', ' '] + last
                },
            ),
            _ => None,
        }
    }
}

/// The descriptions of the first `n` entries of a map, each key and its value
/// separated by a space, the entries separated by `", "`, where each key and value has
/// one (see `full_description`).
pub open spec fn joined_entry_descriptions(
    entries: Vec<(Value, Value)>,
    n: nat,
    coroutines: Seq<Option<PausedCoroutine>>,
) -> Option<Seq<char>>
    decreases entries, n,
{
    if n == 0 || n > entries@.len() {
        if n == 0 {
            Some(Seq::empty())
        } else {
            None
        }
    } else {
        proof {
            let pair = entries@[n - 1];
            assert(decreases_to!(entries => pair));
            assert(decreases_to!(pair => pair.0));
            assert(decreases_to!(pair => pair.1));
        }
        match (
            joined_entry_descriptions(entries, (n - 1) as nat, coroutines),
            full_description(entries@[n - 1].0, coroutines),
            full_description(entries@[n - 1].1, coroutines),
        ) {
            (Some(init), Some(key), Some(item)) => {
                let entry = key + seq![' '] + item;
                Some(
                    if n == 1 {
                        entry
                    } else {
                        init + seq![',', ' '] + entry
                    },
                )
            },
            _ => None,
        }
    }
}

proof fn lemma_joined_prefix(values: Vec<Value>, n: nat, k: nat, coroutines: Seq<Option<PausedCoroutine>>)
    requires
        k <= n,
        joined_descriptions(values, n, coroutines) is Some,
    ensures
        joined_descriptions(values, k, coroutines) is Some,
    decreases n,
{
    if k < n {
        lemma_joined_prefix(values, (n - 1) as nat, k, coroutines);
    }
}

proof fn lemma_joined_entries_prefix(
    entries: Vec<(Value, Value)>,
    n: nat,
    k: nat,
    coroutines: Seq<Option<PausedCoroutine>>,
)
    requires
        k <= n,
        joined_entry_descriptions(entries, n, coroutines) is Some,
    ensures
        joined_entry_descriptions(entries, k, coroutines) is Some,
    decreases n,
{
    if k < n {
        lemma_joined_entries_prefix(entries, (n - 1) as nat, k, coroutines);
    }
}

/// Appends the descriptions of `values`, separated by `", "`.
fn describe_all_into<H: Host>(
    values: &Vec<Value>,
    coroutines: &Vec<Option<PausedCoroutine>>,
    host: &H,
    out: &mut Vec<char>,
)
    ensures
        joined_descriptions(*values, values@.len(), coroutines@) matches Some(t) ==> final(out)@ == old(out)@ + t,
    decreases values, 0nat,
{
    let mut i: usize = 0;
    proof {
        assert(old(out)@ + Seq::<char>::empty() =~= old(out)@);
    }
    while i < values.len()
        invariant
            0 <= i <= values@.len(),
            joined_descriptions(*values, values@.len(), coroutines@) is Some ==> (joined_descriptions(
                *values,
                i as nat,
                coroutines@,
            ) matches Some(t) && out@ == old(out)@ + t),
        decreases values@.len() - i,
    {
        if i > 0 {
            push_str(out, ", ");
        }
        proof {
            assert(decreases_to!(values => values@[i as int]));
        }
        describe_into(&values[i], coroutines, host, out);
        proof {
            if joined_descriptions(*values, values@.len(), coroutines@) is Some {
                lemma_joined_prefix(*values, values@.len(), (i + 1) as nat, coroutines@);
                reveal_strlit(", ");
                let t = joined_descriptions(*values, (i + 1) as nat, coroutines@)->Some_0;
                assert(out@ =~= old(out)@ + t);
            }
        }
        i = i + 1;
    }
}

/// Appends the descriptions of the entries of a map, each a key and its value separated
/// by a space, the entries separated by `", "`.
fn describe_entries_into<H: Host>(
    entries: &Vec<(Value, Value)>,
    coroutines: &Vec<Option<PausedCoroutine>>,
    host: &H,
    out: &mut Vec<char>,
)
    ensures
        joined_entry_descriptions(*entries, entries@.len(), coroutines@) matches Some(t) ==> final(out)@ == old(
            out,
        )@ + t,
    decreases entries, 0nat,
{
    let mut i: usize = 0;
    proof {
        assert(old(out)@ + Seq::<char>::empty() =~= old(out)@);
    }
    while i < entries.len()
        invariant
            0 <= i <= entries@.len(),
            joined_entry_descriptions(*entries, entries@.len(), coroutines@) is Some
                ==> (joined_entry_descriptions(*entries, i as nat, coroutines@) matches Some(t) && out@ == old(
                out,
            )@ + t),
        decreases entries@.len() - i,
    {
        if i > 0 {
            push_str(out, ", ");
        }
        proof {
            let pair = entries@[i as int];
            assert(decreases_to!(entries => pair));
            assert(decreases_to!(pair => pair.0));
            assert(decreases_to!(pair => pair.1));
        }
        describe_into(&entries[i].0, coroutines, host, out);
        out.push(' ');
        describe_into(&entries[i].1, coroutines, host, out);
        proof {
            if joined_entry_descriptions(*entries, entries@.len(), coroutines@) is Some {
                lemma_joined_entries_prefix(*entries, entries@.len(), (i + 1) as nat, coroutines@);
                reveal_strlit(", ");
                let t = joined_entry_descriptions(*entries, (i + 1) as nat, coroutines@)->Some_0;
                assert(out@ =~= old(out)@ + t);
            }
        }
        i = i + 1;
    }
}

/// Appends the state shown for a coroutine (see `coroutine_text`).
fn push_coroutine_text(out: &mut Vec<char>, c: Option<usize>, coroutines: &Vec<Option<PausedCoroutine>>)
    ensures
        final(out)@ == old(out)@ + coroutine_text(c, coroutines@),
{
    match c {
        None => push_str(out, "dead"),
        Some(id) => {
            if id < coroutines.len() {
                match &coroutines[id] {
                    Some(paused) => {
                        if paused.started {
                            push_str(out, "paused");
                        } else {
                            push_str(out, "unstarted");
                        }
                        push_str(out, ", awaiting ");
                        push_usize(out, paused.args.count as usize);
                        push_str(out, " arguments");
                        proof {
                            assert(out@ =~= old(out)@ + coroutine_text(c, coroutines@));
                        }
                    },
                    None => push_str(out, "active"),
                }
            } else {
                push_str(out, "active");
            }
        },
    }
}

/// Appends a float's text: `text`, which the host gave for it, with a point added where
/// it has none.
pub fn push_float_text(out: &mut Vec<char>, text: &str)
    ensures
        final(out)@ == old(out)@ + with_point(text@),
{
    let chars = chars_of(text);
    let mut has_point = false;
    let mut i: usize = 0;
    while i < chars.len()
        invariant
            0 <= i <= chars@.len(),
            has_point == chars@.take(i as int).contains('.'),
        decreases chars@.len() - i,
    {
        proof {
            let next = chars@.take(i + 1);
            assert(next =~= chars@.take(i as int).push(chars@[i as int]));
            if chars@.take(i as int).contains('.') {
                let k = choose|k: int| 0 <= k < i && chars@.take(i as int)[k] == '.';
                assert(next[k] == '.');
            }
            if chars@[i as int] == '.' {
                assert(next[i as int] == '.');
            }
            if next.contains('.') && !chars@.take(i as int).contains('.') {
                let k = choose|k: int| 0 <= k < next.len() && next[k] == '.';
                if k < i {
                    assert(chars@.take(i as int)[k] == '.');
                }
            }
        }
        if chars[i] == '.' {
            has_point = true;
        }
        i = i + 1;
    }
    proof {
        assert(chars@.take(chars@.len() as int) =~= chars@);
    }
    push_str(out, text);
    if !has_point {
        out.push('.');
    }
}

/// Appends the description of a value, as the language prints it (see
/// `full_description`): `nil`, `true`, numbers in decimal (a float always with a point),
/// characters in single quotes, strings in double quotes, lists in brackets, maps and sets
/// in braces, and a short account of anything else.
#[verifier::rlimit(40)]
#[verifier::spinoff_prover]
pub fn describe_into<H: Host>(
    value: &Value,
    coroutines: &Vec<Option<PausedCoroutine>>,
    host: &H,
    out: &mut Vec<char>,
)
    ensures
        plain_description(*value).len() > 0 ==> final(out)@ == old(out)@ + plain_description(*value),
        full_description(*value, coroutines@) matches Some(t) ==> final(out)@ == old(out)@ + t,
        *value is Number && value->Number_0 is Float ==> exists|text: Seq<char>|
            final(out)@ == old(out)@ + #[trigger] with_point(text),
    decreases value, 0nat,
{
    match value {
        GenericValue::Nil => {
            proof {
                reveal_strlit("nil");
            }
            push_str(out, "nil");
        },
        GenericValue::Bool(b) => if *b {
            proof {
                reveal_strlit("true");
            }
            push_str(out, "true");
        } else {
            proof {
                reveal_strlit("false");
            }
            push_str(out, "false");
        },
        GenericValue::Char(c) => {
            out.push('\'');
            out.push(*c);
            out.push('\'');
            proof {
                assert(out@ =~= old(out)@ + plain_description(*value));
            }
        },
        GenericValue::Number(Num::Int(i)) => push_int_text(out, *i),
        GenericValue::Number(Num::Float(f)) => {
            let text = host.format_float(*f);
            push_float_text(out, text.as_str());
        },
        GenericValue::List(values) => {
            out.push('[');
            describe_all_into(values, coroutines, host, out);
            out.push(']');
            proof {
                if full_description(*value, coroutines@) is Some {
                    let t = full_description(*value, coroutines@)->Some_0;
                    assert(out@ =~= old(out)@ + t);
                }
            }
        },
        GenericValue::Hashmap(entries) => {
            out.push('{');
            describe_entries_into(entries, coroutines, host, out);
            out.push('}');
            proof {
                if full_description(*value, coroutines@) is Some {
                    let t = full_description(*value, coroutines@)->Some_0;
                    assert(out@ =~= old(out)@ + t);
                }
            }
        },
        GenericValue::Hashset(values) => {
            push_str(out, "#{");
            describe_all_into(values, coroutines, host, out);
            out.push('}');
            proof {
                reveal_strlit("#{");
                if full_description(*value, coroutines@) is Some {
                    let t = full_description(*value, coroutines@)->Some_0;
                    assert(out@ =~= old(out)@ + t);
                }
            }
        },
        GenericValue::Symbol(index) => {
            push_str(out, "<symbol ");
            push_usize(out, *index as usize);
            out.push('>');
            proof {
                assert(final(out)@ =~= old(out)@ + plain_description(*value));
            }
        },
        GenericValue::Str(s) => {
            out.push('"');
            push_str(out, s.as_str());
            out.push('"');
            proof {
                assert(out@ =~= old(out)@ + plain_description(*value));
            }
        },
        GenericValue::CompositeFn(f) => {
            push_str(out, "fn( ");
            push_usize(out, f.args.count as usize);
            push_str(out, " args, ");
            push_usize(out, f.block.instructions.len());
            push_str(out, " instructions )\n");
            proof {
                assert(out@ =~= old(out)@ + full_description(*value, coroutines@)->Some_0);
            }
        },
        GenericValue::CoreFn(id) => {
            push_str(out, "core_fn( ");
            match id {
                CoreFnId::CreateCell | CoreFnId::GetCellValue | CoreFnId::SetCellValue
                | CoreFnId::UpdateCell => push_str(out, "<unnamed>"),
                _ => push_str(out, id.name()),
            }
            push_str(out, " )");
            proof {
                assert(out@ =~= old(out)@ + full_description(*value, coroutines@)->Some_0);
            }
        },
        GenericValue::ExternalFn(f) => {
            push_str(out, "external_fn( ");
            match &f.name {
                Some(name) => push_str(out, name.as_str()),
                None => push_str(out, "<unnamed>"),
            }
            push_str(out, " )");
            proof {
                assert(out@ =~= old(out)@ + full_description(*value, coroutines@)->Some_0);
            }
        },
        GenericValue::PartialApplication(partial) => {
            push_str(out, "partial application: f = ");
            proof {
                assert(decreases_to!(value => partial.0));
            }
            describe_into(&partial.0, coroutines, host, out);
            push_str(out, ", args = [");
            describe_all_into(&partial.1, coroutines, host, out);
            out.push(']');
            proof {
                if full_description(*value, coroutines@) is Some {
                    let t = full_description(*value, coroutines@)->Some_0;
                    assert(out@ =~= old(out)@ + t);
                }
            }
        },
        GenericValue::Composition(fs) => {
            push_str(out, "composition: [");
            describe_all_into(fs, coroutines, host, out);
            out.push(']');
            proof {
                if full_description(*value, coroutines@) is Some {
                    let t = full_description(*value, coroutines@)->Some_0;
                    assert(out@ =~= old(out)@ + t);
                }
            }
        },
        GenericValue::Coroutine(c) => {
            push_str(out, "coroutine (");
            push_coroutine_text(out, *c, coroutines);
            out.push(')');
            proof {
                assert(out@ =~= old(out)@ + full_description(*value, coroutines@)->Some_0);
            }
        },
        GenericValue::ExternalObject(_) => push_str(out, "external_object"),
        GenericValue::Error(e) => {
            push_str(out, "error: ");
            describe_error_into(e, coroutines, host, out);
            proof {
                if full_description(*value, coroutines@) is Some {
                    let t = full_description(*value, coroutines@)->Some_0;
                    assert(out@ =~= old(out)@ + t);
                }
            }
        },
    }
}

/// The description of a value (see `describe_into`).
pub fn describe<H: Host>(value: &Value, coroutines: &Vec<Option<PausedCoroutine>>, host: &H) -> (text:
    String)
    ensures
        plain_description(*value).len() > 0 ==> text@ == plain_description(*value),
        full_description(*value, coroutines@) matches Some(t) ==> text@ == t,
        *value is Number && value->Number_0 is Float ==> exists|h: Seq<char>|
            text@ == #[trigger] with_point(h),
{
    let mut out: Vec<char> = Vec::new();
    describe_into(value, coroutines, host, &mut out);
    proof {
        if *value is Number && value->Number_0 is Float {
            let h = choose|h: Seq<char>| out@ == Seq::<char>::empty() + #[trigger] with_point(h);
            assert(Seq::<char>::empty() + with_point(h) =~= with_point(h));
        }
        assert(Seq::<char>::empty() + plain_description(*value) =~= plain_description(*value));
        if full_description(*value, coroutines@) is Some {
            let t = full_description(*value, coroutines@)->Some_0;
            assert(Seq::<char>::empty() + t =~= t);
        }
    }
    string_from_chars(out.as_slice())
}

/// The message of the error that a coroutine cannot be made of `value`.
pub fn cant_create_coroutine_message<H: Host>(
    value: &Value,
    coroutines: &Vec<Option<PausedCoroutine>>,
    host: &H,
) -> (text: String)
    ensures
        plain_description(*value).len() > 0 ==> text@ == "can't create a coroutine from "@
            + plain_description(*value),
        full_description(*value, coroutines@) matches Some(t) ==> text@ == "can't create a coroutine from "@ + t,
{
    let mut out: Vec<char> = Vec::new();
    push_str(&mut out, "can't create a coroutine from ");
    describe_into(value, coroutines, host, &mut out);
    string_from_chars(out.as_slice())
}

/// The text of a whole string.
fn push_string(out: &mut Vec<char>, s: String)
    ensures
        final(out)@ == old(out)@ + s@,
{
    push_str(out, s.as_str());
}

/// The frame after frame `index` of `frames`: the next one, or the running frame after
/// the last.
pub open spec fn frame_after(state: EvaluationState, frames: Seq<&StackFrame>, index: int) -> StackFrame {
    if index < frames.len() - 1 {
        *frames[index + 1]
    } else {
        state.current_frame
    }
}

/// The last stack position that the report on frame `index` of `frames` names: the
/// frame's beginning plus how far the frame after it reaches, saturated at the largest
/// `usize`.
pub open spec fn frame_report_end(state: EvaluationState, frames: Seq<&StackFrame>, index: int) -> int {
    let sum = frames[index].beginning + frame_after(state, frames, index).block.metadata;
    if sum > usize::MAX {
        usize::MAX as int
    } else {
        sum
    }
}

/// Where the lines of the report on frame `index` of `frames` stop: after its last
/// position, or at the end of the stack.
pub open spec fn frame_report_stop(state: EvaluationState, frames: Seq<&StackFrame>, index: int) -> int {
    let end = frame_report_end(state, frames, index);
    if end < state.current_coroutine.stack@.len() {
        end + 1
    } else {
        state.current_coroutine.stack@.len() as int
    }
}

/// The header line of the report on frame `index` of `frames`: its number, the first and
/// last positions it names, and the position its result goes to, padded with dashes to
/// thirty characters.
pub open spec fn frame_report_header(state: EvaluationState, frames: Seq<&StackFrame>, index: int) -> Seq<char> {
    padded(
        30,
        '-',
        "------ "@ + decimal(index as nat) + ": ("@ + decimal(frames[index].beginning as nat)
            + " - "@ + decimal(frame_report_end(state, frames, index) as nat) + ") -> "@
            + decimal(frames[index].return_stack_index as nat) + seq![' '],
    ) + seq!['\n']
}

/// The lines on stack positions `start` up to `stop`, each its position, `": "` and the
/// plain description of its value, separated by newlines.
pub open spec fn stack_lines(stack: Seq<Value>, start: int, stop: int) -> Seq<char>
    decreases stop - start,
{
    if stop <= start {
        Seq::empty()
    } else {
        let before = stack_lines(stack, start, stop - 1);
        let line = decimal((stop - 1) as nat) + ": "@ + plain_description(stack[stop - 1]);
        if stop - 1 > start {
            before.push('\n') + line
        } else {
            before + line
        }
    }
}

/// Whether the values at stack positions `start` up to `stop` have plain descriptions.
pub open spec fn plain_between(stack: Seq<Value>, start: int, stop: int) -> bool {
    forall|k: int| start <= k < stop ==> #[trigger] plain_description(stack[k]).len() > 0
}

/// Appends the report on the positions of the stack that the frame `index` of `frames`
/// uses: a header line, then a line for each position with the description of its
/// value, indented.
fn describe_frame<H: Host>(
    state: &EvaluationState,
    frames: &Vec<&StackFrame>,
    index: usize,
    host: &H,
    out: &mut Vec<char>,
)
    requires
        index < frames@.len(),
    ensures
        (old(out)@ + frame_report_header(*state, frames@, index as int)).is_prefix_of(final(out)@),
        plain_between(
            state.current_coroutine.stack@,
            frames@[index as int].beginning as int,
            frame_report_stop(*state, frames@, index as int),
        ) ==> final(out)@ == old(out)@ + frame_report_header(*state, frames@, index as int)
            + indented_text(
            7,
            stack_lines(
                state.current_coroutine.stack@,
                frames@[index as int].beginning as int,
                frame_report_stop(*state, frames@, index as int),
            ),
        ),
{
    let frame = frames[index];
    let next = if index < frames.len() - 1 {
        frames[index + 1]
    } else {
        &state.current_frame
    };
    let start = frame.beginning;
    let end = start.saturating_add(next.stack_consumption());
    let mut header: Vec<char> = Vec::new();
    push_str(&mut header, "------ ");
    push_usize(&mut header, index);
    push_str(&mut header, ": (");
    push_usize(&mut header, start);
    push_str(&mut header, " - ");
    push_usize(&mut header, end);
    push_str(&mut header, ") -> ");
    push_usize(&mut header, frame.return_stack_index);
    header.push(' ');
    proof {
        assert(end == frame_report_end(*state, frames@, index as int));
        assert(header@ =~= "------ "@ + decimal(index as nat) + ": ("@ + decimal(frames@[index as int].beginning as nat)
            + " - "@ + decimal(frame_report_end(*state, frames@, index as int) as nat) + ") -> "@
            + decimal(frames@[index as int].return_stack_index as nat) + seq![' ']);
    }
    push_string(out, pad(30, '-', string_from_chars(header.as_slice())));
    out.push('\n');
    let ghost with_header = out@;
    proof {
        assert(with_header =~= old(out)@ + frame_report_header(*state, frames@, index as int));
    }
    let mut lines: Vec<char> = Vec::new();
    let mut i: usize = start;
    let last = if end < state.current_coroutine.stack.len() {
        end
    } else {
        state.current_coroutine.stack.len()
    };
    let ghost stack = state.current_coroutine.stack@;
    let ghost stop = frame_report_stop(*state, frames@, index as int);
    while i <= last && i < state.current_coroutine.stack.len()
        invariant
            start <= i,
            i <= stop || i == start,
            stack == state.current_coroutine.stack@,
            stop == frame_report_stop(*state, frames@, index as int),
            last == if end < stack.len() { end as int } else { stack.len() as int },
            end == frame_report_end(*state, frames@, index as int),
            plain_between(stack, start as int, stop) ==> lines@ == stack_lines(stack, start as int, i as int),
        decreases state.current_coroutine.stack@.len() - i,
    {
        if i > start {
            lines.push('\n');
        }
        push_usize(&mut lines, i);
        push_str(&mut lines, ": ");
        describe_into(&state.current_coroutine.stack[i], &state.coroutines, host, &mut lines);
        proof {
            if plain_between(stack, start as int, stop) {
                assert(plain_description(stack[i as int]).len() > 0);
                assert(lines@ =~= stack_lines(stack, start as int, i + 1));
            }
        }
        i = i + 1;
    }
    proof {
        if plain_between(stack, start as int, stop) && i != stop {
            assert(stop <= start);
            assert(stack_lines(stack, start as int, stop) =~= stack_lines(stack, start as int, i as int));
        }
    }
    push_string(out, indent_lines(7, string_from_chars(lines.as_slice())));
    proof {
        assert(with_header.is_prefix_of(out@));
    }
}

/// The lines that open the report of a `DebugPrint` instruction: the id in a title padded
/// with dashes, and how many coroutines wait.
pub open spec fn debug_report_head(id: u8, waiting: nat) -> Seq<char> {
    padded(40, '-', "DEBUG "@ + decimal(id as nat) + seq![' ']) + "\npaused coroutinees: "@
        + decimal(waiting) + "\nstack:\n"@
}

/// The lines that close the report of a `DebugPrint` instruction.
pub open spec fn debug_report_tail() -> Seq<char> {
    "\n\n\n----------------------------------------\n\n\n"@
}

/// The report of a `DebugPrint` instruction: its id, how many coroutines wait, and the
/// stack of each frame of the running coroutine, each position with the description of
/// its value.
pub fn debug_report<H: Host>(state: &EvaluationState, id: u8, host: &H) -> (text: String)
    ensures
        debug_report_head(id, state.parent_coroutine_stack@.len()).is_prefix_of(text@),
        text@.len() >= debug_report_tail().len(),
        text@.subrange(text@.len() - debug_report_tail().len(), text@.len() as int)
            == debug_report_tail(),
{
    let mut frames: Vec<&StackFrame> = Vec::new();
    let mut k: usize = 0;
    while k < state.current_coroutine.paused_frames.len()
        invariant
            0 <= k <= state.current_coroutine.paused_frames@.len(),
        decreases state.current_coroutine.paused_frames@.len() - k,
    {
        frames.push(&state.current_coroutine.paused_frames[k]);
        k = k + 1;
    }
    frames.push(&state.current_frame);
    let mut title: Vec<char> = Vec::new();
    push_str(&mut title, "DEBUG ");
    push_usize(&mut title, id as usize);
    title.push(' ');
    proof {
        assert(title@ =~= "DEBUG "@ + decimal(id as nat) + seq![' ']);
    }
    let mut out: Vec<char> = Vec::new();
    push_string(&mut out, pad(40, '-', string_from_chars(title.as_slice())));
    push_str(&mut out, "\npaused coroutinees: ");
    push_usize(&mut out, state.parent_coroutine_stack.len());
    push_str(&mut out, "\nstack:\n");
    let ghost head = out@;
    proof {
        assert(head =~= debug_report_head(id, state.parent_coroutine_stack@.len()));
    }
    let mut index: usize = 0;
    while index < frames.len()
        invariant
            0 <= index <= frames@.len(),
            head.is_prefix_of(out@),
        decreases frames@.len() - index,
    {
        let ghost before = out@;
        if index > 0 {
            out.push('\n');
        }
        describe_frame(state, &frames, index, host, &mut out);
        proof {
            assert(out@.subrange(0, head.len() as int) =~= before.subrange(0, head.len() as int));
        }
        index = index + 1;
    }
    let ghost body = out@;
    push_str(&mut out, "\n\n\n----------------------------------------\n\n\n");
    proof {
        assert(out@.subrange(0, head.len() as int) =~= body.subrange(0, head.len() as int));
        assert(out@.subrange(out@.len() - debug_report_tail().len(), out@.len() as int)
            =~= debug_report_tail());
    }
    string_from_chars(out.as_slice())
}
/// How the description of a map grows entry by entry: where the first `n` entries are
/// described as `prefix`, the first `n + 1` are `prefix`, then `", "` unless the entry
/// is the first, then the key's description, a space, and the value's description.
pub proof fn law_map_entries_described(
    entries: Vec<(Value, Value)>,
    n: nat,
    coroutines: Seq<Option<PausedCoroutine>>,
    prefix: Seq<char>,
    key: Seq<char>,
    item: Seq<char>,
)
    requires
        n < entries@.len(),
        joined_entry_descriptions(entries, n, coroutines) == Some(prefix),
        full_description(entries@[n as int].0, coroutines) == Some(key),
        full_description(entries@[n as int].1, coroutines) == Some(item),
    ensures
        joined_entry_descriptions(entries, n + 1, coroutines) == Some(
            if n == 0 {
                key + seq![' '] + item
            } else {
                prefix + seq![',', ' '] + key + seq![' '] + item
            },
        ),
{
    assert(joined_entry_descriptions(entries, (n + 1 - 1) as nat, coroutines) == Some(prefix));
}

/// How the description of a list or a set grows item by item: where the first `n` items
/// are described as `prefix`, the first `n + 1` are `prefix`, then `", "` unless the item
/// is the first, then the item's description.
pub proof fn law_items_described(
    values: Vec<Value>,
    n: nat,
    coroutines: Seq<Option<PausedCoroutine>>,
    prefix: Seq<char>,
    item: Seq<char>,
)
    requires
        n < values@.len(),
        joined_descriptions(values, n, coroutines) == Some(prefix),
        full_description(values@[n as int], coroutines) == Some(item),
    ensures
        joined_descriptions(values, n + 1, coroutines) == Some(
            if n == 0 {
                item
            } else {
                prefix + seq![',', ' '] + item
            },
        ),
{
    assert(joined_descriptions(values, (n + 1 - 1) as nat, coroutines) == Some(prefix));
}

/// The descriptions of values: `nil`, `true` and `false`; an integer in decimal, with a
/// minus sign where it is negative; a character in single quotes; a string in double
/// quotes; a list in brackets, a set in `#{` and `}`, a map in braces, each around the
/// descriptions of what it holds (see `law_items_described` and
/// `law_map_entries_described`); a function of the language by its numbers of arguments
/// and instructions; a core function by its name.
pub proof fn law_descriptions(value: Value, coroutines: Seq<Option<PausedCoroutine>>)
    ensures
        value is Nil ==> full_description(value, coroutines) == Some(seq!['n', 'i', 'l']),
        value == GenericValue::<u8, u8, u8, u8>::Bool(true) ==> full_description(value, coroutines)
            == Some(seq!['t', 'r', 'u', 'e']),
        value == GenericValue::<u8, u8, u8, u8>::Bool(false) ==> full_description(value, coroutines)
            == Some(seq!['f', 'a', 'l', 's', 'e']),
        value matches GenericValue::Number(Num::Int(i)) ==> full_description(value, coroutines)
            == Some(
            if i < 0 {
                seq!['-'] + decimal((-i) as nat)
            } else {
                decimal(i as nat)
            },
        ),
        value matches GenericValue::Char(c) ==> full_description(value, coroutines) == Some(
            seq!['\'', c, '\''],
        ),
        value matches GenericValue::Str(text) ==> full_description(value, coroutines) == Some(
            seq!['"'] + text@ + seq!['"'],
        ),
        value matches GenericValue::List(l) ==> (joined_descriptions(*l, l@.len(), coroutines) matches Some(
            t,
        ) ==> full_description(value, coroutines) == Some(seq!['['] + t + seq![']'])),
        value matches GenericValue::Hashset(l) ==> (joined_descriptions(*l, l@.len(), coroutines) matches Some(
            t,
        ) ==> full_description(value, coroutines) == Some(seq!['#', '{'] + t + seq!['}'])),
        value matches GenericValue::Hashmap(m) ==> (joined_entry_descriptions(*m, m@.len(), coroutines) matches Some(
            t,
        ) ==> full_description(value, coroutines) == Some(seq!['{'] + t + seq!['}'])),
        value matches GenericValue::CompositeFn(f) ==> full_description(value, coroutines) == Some(
            seq!['f', 'n', '(', ' '] + decimal(f.args.count as nat) + seq![' ', 'a', 'r', 'g', 's', ',', ' ']
                + decimal(f.block.instructions@.len()) + seq![
                ' ',
                'i',
                'n',
                's',
                't',
                'r',
                'u',
                'c',
                't',
                'i',
                'o',
                'n',
                's',
                ' ',
                ')',
                '\n',
            ],
        ),
        value matches GenericValue::CoreFn(id) ==> (id.is_named() ==> full_description(
            value,
            coroutines,
        ) == Some(seq!['c', 'o', 'r', 'e', '_', 'f', 'n', '(', ' '] + id.spec_name() + seq![' ', ')'])),
{
    reveal_strlit("fn( ");
    reveal_strlit(" args, ");
    reveal_strlit(" instructions )\n");
    reveal_strlit("core_fn( ");
    reveal_strlit(" )");
    if value is CompositeFn {
        let f = value->CompositeFn_0;
        assert(full_description(value, coroutines)->Some_0 =~= seq!['f', 'n', '(', ' '] + decimal(
            f.args.count as nat,
        ) + seq![' ', 'a', 'r', 'g', 's', ',', ' '] + decimal(f.block.instructions@.len()) + seq![
            ' ',
            'i',
            'n',
            's',
            't',
            'r',
            'u',
            'c',
            't',
            'i',
            'o',
            'n',
            's',
            ' ',
            ')',
            '\n',
        ]);
    }
    if value is CoreFn {
        let id = value->CoreFn_0;
        if id.is_named() {
            assert(full_description(value, coroutines)->Some_0 =~= seq![
                'c',
                'o',
                'r',
                'e',
                '_',
                'f',
                'n',
                '(',
                ' ',
            ] + id.spec_name() + seq![' ', ')']);
        }
    }
}

} // verus!
