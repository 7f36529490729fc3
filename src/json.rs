use rustc_serialize::json::Json;
use vstd::prelude::*;
use vstd::string::StrSliceExecFns;

verus! {

/// A parsed JSON document. Numbers keep their integer value; a number that
/// only has a floating-point form keeps none.
#[derive(Debug)]
pub enum JsonValue {
    Null,
    Bool(bool),
    Int(i64),
    UInt(u64),
    Float,
    Str(String),
    Array(Vec<JsonValue>),
    Object(Vec<(String, JsonValue)>),
}

#[verifier::external_type_specification]
#[verifier::external_body]
pub struct ExJson(Json);

/// The document that `rustc_serialize` builds from a text, if it accepts
/// the text; it depends on the text alone.
pub uninterp spec fn parsed_json(text: Seq<char>) -> Option<JsonValue>;

/// The longest text handed to the parser, in characters.
pub const MAX_TEXT_CHARS: usize = 4096;

/// The most `[` and `{` a text handed to the parser may hold; this bounds
/// how deeply the parser and the conversion recurse.
pub const MAX_OPENERS: usize = 64;

/// The longest run of decimal digits a text handed to the parser may hold;
/// the parser gathers an exponent's digits in a `usize` without a check,
/// and nine digits fit even where `usize` has 32 bits.
pub const MAX_DIGIT_RUN: usize = 9;

pub open spec fn is_opener(c: char) -> bool {
    c == '[' || c == '{'
}

pub open spec fn is_digit(c: char) -> bool {
    '0' <= c && c <= '9'
}

/// The characters the parser skips between tokens.
pub open spec fn is_json_space(c: char) -> bool {
    c == ' ' || c == '\n' || c == '\t' || c == '\r'
}

/// The text ends with a comma followed by nothing but spaces.
pub open spec fn ends_in_comma(s: Seq<char>) -> bool
    decreases s.len(),
{
    if s.len() == 0 {
        false
    } else if s.last() == ',' {
        true
    } else if is_json_space(s.last()) {
        ends_in_comma(s.drop_last())
    } else {
        false
    }
}

/// Somewhere in the text a comma is followed, past spaces only, by `}`.
/// The parser mistracks its key stack on such a trailing comma and can
/// panic.
pub open spec fn has_comma_brace(s: Seq<char>) -> bool
    decreases s.len(),
{
    if s.len() == 0 {
        false
    } else {
        has_comma_brace(s.drop_last()) || (s.last() == '}' && ends_in_comma(s.drop_last()))
    }
}

/// How many `[` and `{` the text holds.
pub open spec fn openers(s: Seq<char>) -> int
    decreases s.len(),
{
    if s.len() == 0 {
        0
    } else {
        openers(s.drop_last()) + if is_opener(s.last()) {
            1int
        } else {
            0int
        }
    }
}

/// The length of the run of digits that ends the text.
pub open spec fn trailing_digits(s: Seq<char>) -> int
    decreases s.len(),
{
    if s.len() == 0 || !is_digit(s.last()) {
        0
    } else {
        trailing_digits(s.drop_last()) + 1
    }
}

/// The length of the longest run of digits in the text.
pub open spec fn longest_digit_run(s: Seq<char>) -> int
    decreases s.len(),
{
    if s.len() == 0 {
        0
    } else if longest_digit_run(s.drop_last()) >= trailing_digits(s) {
        longest_digit_run(s.drop_last())
    } else {
        trailing_digits(s)
    }
}

/// A text the parser handles without a panic and without exhausting a
/// counter or the stack: at most `MAX_TEXT_CHARS` characters, `MAX_OPENERS`
/// brackets and braces, no run of more than `MAX_DIGIT_RUN` digits, and no
/// comma followed, past spaces, by `}` (even inside a string).
pub open spec fn within_parse_limits(s: Seq<char>) -> bool {
    &&& s.len() <= MAX_TEXT_CHARS
    &&& openers(s) <= MAX_OPENERS
    &&& longest_digit_run(s) <= MAX_DIGIT_RUN
    &&& !has_comma_brace(s)
}

/// Whether `text` is within the parser's limits.
pub fn parse_limits_hold(text: &str) -> (r: bool)
    ensures
        r == within_parse_limits(text@),
{
    let n = text.unicode_len();
    if n > MAX_TEXT_CHARS {
        return false;
    }
    let mut i: usize = 0;
    let mut opens: usize = 0;
    let mut run: usize = 0;
    let mut longest: usize = 0;
    let mut after_comma = false;
    let mut comma_brace = false;
    assert(text@.take(0) =~= Seq::<char>::empty());
    while i < n
        invariant
            n == text@.len(),
            n <= MAX_TEXT_CHARS,
            i <= n,
            opens <= i,
            run <= i,
            longest <= i,
            opens == openers(text@.take(i as int)),
            run == trailing_digits(text@.take(i as int)),
            longest == longest_digit_run(text@.take(i as int)),
            after_comma == ends_in_comma(text@.take(i as int)),
            comma_brace == has_comma_brace(text@.take(i as int)),
        decreases n - i,
    {
        let c = text.get_char(i);
        let ghost next = text@.take(i + 1);
        assert(next.drop_last() =~= text@.take(i as int));
        assert(next.last() == c);
        if c == '[' || c == '{' {
            opens += 1;
        }
        if c == '}' && after_comma {
            comma_brace = true;
        }
        after_comma = c == ',' || (after_comma && (c == ' ' || c == '\n' || c == '\t' || c == '\r'));
        if c >= '0' && c <= '9' {
            run += 1;
        } else {
            run = 0;
        }
        if run > longest {
            longest = run;
        }
        i += 1;
    }
    assert(text@.take(n as int) =~= text@);
    opens <= MAX_OPENERS && longest <= MAX_DIGIT_RUN && !comma_brace
}

/// Relies on `rustc_serialize::json::Json::from_str`: the tree it builds,
/// or its refusal, depends on the text alone. Within the limits the parser
/// does not overflow its exponent counter or its `u16` key offsets, does
/// not recurse deeply, and does not meet the trailing comma before `}` that
/// upsets its key stack.
#[verifier::external_body]
pub(crate) fn parse_json(text: &str) -> (r: Option<JsonValue>)
    requires
        within_parse_limits(text@),
    ensures
        r == parsed_json(text@),
{
    match Json::from_str(text) {
        Ok(j) => Some(json_value(j)),
        Err(_) => None,
    }
}

/// Turns a `rustc_serialize::json::Json` tree into a `JsonValue` tree, node
/// for node (object entries in the map's key order).
#[verifier::external_body]
fn json_value(j: Json) -> JsonValue {
    match j {
        Json::I64(n) => JsonValue::Int(n),
        Json::U64(n) => JsonValue::UInt(n),
        Json::F64(_) => JsonValue::Float,
        Json::String(s) => JsonValue::Str(s),
        Json::Boolean(b) => JsonValue::Bool(b),
        Json::Array(a) => JsonValue::Array(a.into_iter().map(json_value).collect()),
        Json::Object(o) => JsonValue::Object(o.into_iter().map(|(k, v)| (k, json_value(v))).collect()),
        Json::Null => JsonValue::Null,
    }
}

/// The value of the first entry named `key`.
pub open spec fn lookup(entries: Seq<(String, JsonValue)>, key: Seq<char>) -> Option<JsonValue>
    decreases entries.len(),
{
    if entries.len() == 0 {
        None
    } else if entries[0].0@ == key {
        Some(entries[0].1)
    } else {
        lookup(entries.drop_first(), key)
    }
}

/// The integer a number holds.
pub open spec fn as_int(v: JsonValue) -> Option<int> {
    match v {
        JsonValue::Int(n) => Some(n as int),
        JsonValue::UInt(n) => Some(n as int),
        _ => None,
    }
}

/// Finds the value of the first entry named `key`.
pub fn find<'a>(entries: &'a Vec<(String, JsonValue)>, key: &String) -> (r: Option<&'a JsonValue>)
    ensures
        match r {
            Some(v) => lookup(entries@, key@) == Some(*v),
            None => lookup(entries@, key@) is None,
        },
{
    let n = entries.len();
    let mut i: usize = 0;
    assert(entries@.subrange(0, n as int) =~= entries@);
    while i < n
        invariant
            n == entries@.len(),
            0 <= i <= n,
            lookup(entries@, key@) == lookup(entries@.subrange(i as int, n as int), key@),
        decreases n - i,
    {
        let ghost rest = entries@.subrange(i as int, n as int);
        assert(rest.drop_first() =~= entries@.subrange(i + 1, n as int));
        if entries[i].0 == *key {
            return Some(&entries[i].1);
        }
        i += 1;
    }
    None
}

/// The value of `v` as a board coordinate (an integer from 0 to 2).
pub fn as_coord(v: &JsonValue) -> (r: Option<usize>)
    ensures
        r == (match as_int(*v) {
            Some(n) => if 0 <= n < 3 { Some(n as usize) } else { None },
            None => None,
        }),
{
    match v {
        JsonValue::Int(n) => if 0 <= *n && *n < 3 { Some(*n as usize) } else { None },
        JsonValue::UInt(n) => if *n < 3 { Some(*n as usize) } else { None },
        _ => None,
    }
}

/// Whether `v` is the number -1.
pub fn is_minus_one(v: &JsonValue) -> (r: bool)
    ensures
        r == (as_int(*v) == Some(-1int)),
{
    match v {
        JsonValue::Int(n) => *n == -1,
        _ => false,
    }
}

} // verus!
