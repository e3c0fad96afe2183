//! Reading values out of a JSON text by their path of object keys.
use vstd::prelude::*;

use crate::text::strs_view;
use vstd::utf8::encode_utf8;
use rustc_serialize::json::Json;

verus! {

/// One node of a JSON document without what lies below it: an object gives
/// its keys (in the order of the parser's sorted map), an array nothing.
/// `Real` holds a number with a fraction or an exponent as the parser read it
/// into an `f64`, written back by Rust's `Display` (so `1e2` becomes `100`,
/// and a number too large for an `f64` becomes `inf` or `-inf`).
#[derive(PartialEq, Debug, Clone)]
pub enum JsonNode {
    Null,
    Bool(bool),
    Int(i64),
    UInt(u64),
    Real(String),
    Str(String),
    Array,
    Object(Vec<String>),
}

/// Whether the text parses as one JSON value.
pub uninterp spec fn json_well_formed(text: Seq<char>) -> bool;

/// The node that the object keys of `path` lead to from the root of the
/// parsed text; `None` if the text does not parse or a key is not found.
pub uninterp spec fn json_node(text: Seq<char>, path: Seq<Seq<char>>) -> Option<JsonNode>;

/// The largest text, in UTF-8 bytes, that is handed to the parser: it keeps
/// the key positions of its key stack, which it stores as `u16`, in range.
pub const MAX_JSON_BYTES: usize = 65535;

/// The most `[` and `{` that a text handed to the parser may hold: it builds
/// nested values by recursion, so this bounds the depth of its stack. The
/// bound is kept well below what the recursion could take, so that parsing
/// also fits on small thread stacks; an API response nests three deep.
pub const MAX_JSON_BRACKETS: usize = 128;

/// The most digits an exponent handed to the parser may have: it adds up the
/// exponent in a `usize` without a check.
pub const MAX_EXPONENT_DIGITS: usize = 19;

pub open spec fn is_digit_byte(b: u8) -> bool {
    0x30u8 <= b && b <= 0x39u8
}

/// `n` digit bytes start at `start`.
pub open spec fn digit_run(b: Seq<u8>, start: int, n: int) -> bool {
    0 <= start && start + n <= b.len() && forall|k: int| start <= k < start + n ==> is_digit_byte(#[trigger] b[k])
}

/// At `i` stands an `e` or `E`, then an optional sign, then more digits than
/// an exponent may have.
pub open spec fn long_exponent_at(b: Seq<u8>, i: int) -> bool {
    (b[i] == 0x65u8 || b[i] == 0x45u8) && (digit_run(b, i + 1, MAX_EXPONENT_DIGITS + 1)
        || ((i + 1 < b.len() && (b[i + 1] == 0x2Bu8 || b[i + 1] == 0x2Du8)) && digit_run(
        b,
        i + 2,
        MAX_EXPONENT_DIGITS + 1,
    )))
}

pub open spec fn no_long_exponent(b: Seq<u8>) -> bool {
    forall|i: int| 0 <= i < b.len() ==> !#[trigger] long_exponent_at(b, i)
}

/// Whether `n` digit bytes start at `start`.
fn has_digit_run(b: &[u8], start: usize, n: usize) -> (r: bool)
    requires
        start <= b.len(),
        n <= MAX_EXPONENT_DIGITS + 1,
    ensures
        r == digit_run(b@, start as int, n as int),
{
    if n > b.len() - start {
        return false;
    }
    let mut k: usize = 0;
    while k < n
        invariant
            start + n <= b.len(),
            0 <= k <= n,
            forall|j: int| start <= j < start + k ==> is_digit_byte(#[trigger] b@[j]),
        decreases n - k,
    {
        if !(0x30 <= b[start + k] && b[start + k] <= 0x39) {
            return false;
        }
        k += 1;
    }
    true
}

/// Whether an exponent in the bytes has more digits than the parser takes.
fn has_long_exponent(b: &[u8]) -> (r: bool)
    ensures
        r == !no_long_exponent(b@),
{
    let run: usize = MAX_EXPONENT_DIGITS + 1;
    let mut i: usize = 0;
    while i < b.len()
        invariant
            0 <= i <= b.len(),
            run == MAX_EXPONENT_DIGITS + 1,
            forall|j: int| 0 <= j < i ==> !#[trigger] long_exponent_at(b@, j),
        decreases b.len() - i,
    {
        if b[i] == 0x65 || b[i] == 0x45 {
            if has_digit_run(b, i + 1, run) {
                assert(long_exponent_at(b@, i as int));
                return true;
            }
            if i + 1 < b.len() && (b[i + 1] == 0x2B || b[i + 1] == 0x2D) && has_digit_run(b, i + 2, run) {
                assert(long_exponent_at(b@, i as int));
                return true;
            }
        }
        i += 1;
    }
    false
}

/// The number of `[` and `{` bytes.
pub open spec fn bracket_count(b: Seq<u8>) -> nat
    decreases b.len(),
{
    if b.len() == 0 {
        0
    } else {
        bracket_count(b.drop_last()) + if b.last() == 0x5Bu8 || b.last() == 0x7Bu8 { 1nat } else { 0nat }
    }
}

/// The text is small and shallow enough to be parsed, and none of its
/// exponents is too long.
pub open spec fn json_within_limits(text: Seq<char>) -> bool {
    &&& encode_utf8(text).len() <= MAX_JSON_BYTES
    &&& bracket_count(encode_utf8(text)) <= MAX_JSON_BRACKETS
    &&& no_long_exponent(encode_utf8(text))
}

/// Whether the text is within the parser's limits.
pub fn within_json_limits(text: &str) -> (r: bool)
    ensures
        r == json_within_limits(text@),
{
    let bytes = text.as_bytes();
    if bytes.len() > MAX_JSON_BYTES {
        return false;
    }
    let mut count: usize = 0;
    let mut i: usize = 0;
    while i < bytes.len()
        invariant
            bytes@ == encode_utf8(text@),
            bytes.len() <= MAX_JSON_BYTES,
            0 <= i <= bytes.len(),
            count == bracket_count(bytes@.take(i as int)),
            count <= i,
        decreases bytes.len() - i,
    {
        assert(bytes@.take(i + 1).drop_last() =~= bytes@.take(i as int));
        if bytes[i] == 0x5B || bytes[i] == 0x7B {
            count += 1;
        }
        i += 1;
    }
    assert(bytes@.take(bytes.len() as int) =~= bytes@);
    count <= MAX_JSON_BRACKETS && !has_long_exponent(bytes)
}

/// Relies on `rustc_serialize::json::Json::from_str`: `Ok` when the text
/// parses, else the parser's diagnostic. Longer or more deeply nested texts,
/// or longer exponents, can make the parser panic or exhaust the stack.
#[verifier::external_body]
pub(crate) fn parse_check(text: &str) -> (r: Result<(), String>)
    requires
        json_within_limits(text@),
    ensures
        r is Ok == json_well_formed(text@),
{
    Json::from_str(text).map(|_| ()).map_err(|e| e.to_string())
}

/// Relies on `rustc_serialize::json::Json::from_str` and `Json::find_path`:
/// the node that the keys lead to, converted variant for variant; within the
/// same limits as `parse_check`. An object's keys come from a `BTreeMap`, so
/// they are distinct.
#[verifier::external_body]
pub(crate) fn find_node(text: &str, keys: &[&str]) -> (r: Option<JsonNode>)
    requires
        json_within_limits(text@),
    ensures
        r == json_node(text@, strs_view(keys@)),
        r matches Some(JsonNode::Object(ks)) ==> ks@.map_values(|k: String| k@).no_duplicates(),
{
    let json = Json::from_str(text).ok()?;
    let node = json.find_path(keys)?;
    Some(match node {
        Json::Null => JsonNode::Null,
        Json::Boolean(b) => JsonNode::Bool(*b),
        Json::I64(n) => JsonNode::Int(*n),
        Json::U64(n) => JsonNode::UInt(*n),
        Json::F64(x) => JsonNode::Real(x.to_string()),
        Json::String(s) => JsonNode::Str(s.clone()),
        Json::Array(_) => JsonNode::Array,
        Json::Object(map) => JsonNode::Object(map.keys().cloned().collect()),
    })
}

/// A JSON number as the library holds it.
#[derive(PartialEq, Debug, Clone)]
pub enum Number {
    Int(i64),
    UInt(u64),
    Real(String),
}

pub open spec fn str_of(n: Option<JsonNode>) -> Option<Seq<char>> {
    match n {
        Some(JsonNode::Str(s)) => Some(s@),
        _ => None,
    }
}

pub open spec fn i32_of(n: Option<JsonNode>) -> Option<i32> {
    match n {
        Some(JsonNode::Int(i)) => if i32::MIN <= i <= i32::MAX { Some(i as i32) } else { None },
        Some(JsonNode::UInt(u)) => if u <= i32::MAX { Some(u as i32) } else { None },
        _ => None,
    }
}

pub open spec fn number_of(n: Option<JsonNode>) -> Option<Number> {
    match n {
        Some(JsonNode::Int(i)) => Some(Number::Int(i)),
        Some(JsonNode::UInt(u)) => Some(Number::UInt(u)),
        Some(JsonNode::Real(s)) => Some(Number::Real(s)),
        _ => None,
    }
}

/// An optional string field: absent or `null` is `Some(None)`, a string is
/// `Some(Some(..))`, anything else does not decode.
pub open spec fn opt_str_of(n: Option<JsonNode>) -> Option<Option<Seq<char>>> {
    match n {
        None => Some(None),
        Some(JsonNode::Null) => Some(None),
        Some(JsonNode::Str(s)) => Some(Some(s@)),
        _ => None,
    }
}

pub open spec fn opt_number_of(n: Option<JsonNode>) -> Option<Option<Number>> {
    match n {
        None => Some(None),
        Some(JsonNode::Null) => Some(None),
        _ => match number_of(n) {
            Some(x) => Some(Some(x)),
            None => None,
        },
    }
}

/// The node under key `key` of the object under key `parent` of the root.
pub open spec fn field(text: Seq<char>, parent: Seq<char>, key: Seq<char>) -> Option<JsonNode> {
    json_node(text, seq![parent, key])
}

/// The node under key `key` of the root.
pub open spec fn top_field(text: Seq<char>, key: Seq<char>) -> Option<JsonNode> {
    json_node(text, seq![key])
}

/// The root node.
pub open spec fn root(text: Seq<char>) -> Option<JsonNode> {
    json_node(text, Seq::empty())
}

/// Looks up `parent`, then `key`, from the root.
pub fn find_field(text: &str, parent: &str, key: &str) -> (r: Option<JsonNode>)
    requires
        json_within_limits(text@),
    ensures
        r == field(text@, parent@, key@),
        r matches Some(JsonNode::Object(ks)) ==> ks@.map_values(|k: String| k@).no_duplicates(),
{
    let keys: [&str; 2] = [parent, key];
    assert(strs_view(keys@) =~= seq![parent@, key@]);
    find_node(text, &keys)
}

/// The node under the keys `a`, `b`, `c`, from the root.
pub open spec fn nested_field(text: Seq<char>, a: Seq<char>, b: Seq<char>, c: Seq<char>) -> Option<JsonNode> {
    json_node(text, seq![a, b, c])
}

/// Looks up `a`, then `b`, then `c`, from the root.
pub fn find_nested_field(text: &str, a: &str, b: &str, c: &str) -> (r: Option<JsonNode>)
    requires
        json_within_limits(text@),
    ensures
        r == nested_field(text@, a@, b@, c@),
{
    let keys: [&str; 3] = [a, b, c];
    assert(strs_view(keys@) =~= seq![a@, b@, c@]);
    find_node(text, &keys)
}

/// Looks up `key` in the root.
pub fn find_top_field(text: &str, key: &str) -> (r: Option<JsonNode>)
    requires
        json_within_limits(text@),
    ensures
        r == top_field(text@, key@),
{
    let keys: [&str; 1] = [key];
    assert(strs_view(keys@) =~= seq![key@]);
    find_node(text, &keys)
}

/// The root node of the text.
pub fn find_root(text: &str) -> (r: Option<JsonNode>)
    requires
        json_within_limits(text@),
    ensures
        r == root(text@),
{
    let keys: [&str; 0] = [];
    assert(strs_view(keys@) =~= Seq::<Seq<char>>::empty());
    find_node(text, &keys)
}

fn expected(what: &str, key: &str) -> (r: String) {
    "expected ".to_owned().concat(what).concat(" at ").concat(key)
}

/// The string that the node holds, or a diagnostic naming `key`.
pub fn str_from(node: Option<JsonNode>, key: &str) -> (r: Result<String, String>)
    ensures
        match str_of(node) {
            Some(s) => r is Ok && r.unwrap()@ == s,
            None => r is Err,
        },
{
    match node {
        Some(JsonNode::Str(s)) => Ok(s),
        _ => Err(expected("a string", key)),
    }
}

/// The value under `parent`, then `key`, from the root, as `str_from` reads it.
pub fn read_str(text: &str, parent: &str, key: &str) -> (r: Result<String, String>)
    requires
        json_within_limits(text@),
    ensures
        match str_of(field(text@, parent@, key@)) {
            Some(s) => r is Ok && r.unwrap()@ == s,
            None => r is Err,
        },
{
    str_from(find_field(text, parent, key), key)
}

/// The 32-bit integer that the node holds, or a diagnostic naming `key`.
pub fn i32_from(node: Option<JsonNode>, key: &str) -> (r: Result<i32, String>)
    ensures
        match i32_of(node) {
            Some(n) => r == Ok::<i32, String>(n),
            None => r is Err,
        },
{
    match node {
        Some(JsonNode::Int(i)) => {
            if i32::MIN as i64 <= i && i <= i32::MAX as i64 {
                Ok(i as i32)
            } else {
                Err(expected("a 32-bit integer", key))
            }
        },
        Some(JsonNode::UInt(u)) => {
            if u <= i32::MAX as u64 {
                Ok(u as i32)
            } else {
                Err(expected("a 32-bit integer", key))
            }
        },
        _ => Err(expected("a 32-bit integer", key)),
    }
}

/// The value under `parent`, then `key`, from the root, as `i32_from` reads it.
pub fn read_i32(text: &str, parent: &str, key: &str) -> (r: Result<i32, String>)
    requires
        json_within_limits(text@),
    ensures
        match i32_of(field(text@, parent@, key@)) {
            Some(n) => r == Ok::<i32, String>(n),
            None => r is Err,
        },
{
    i32_from(find_field(text, parent, key), key)
}

/// The number that the node holds, or a diagnostic naming `key`.
pub fn number_from(node: Option<JsonNode>, key: &str) -> (r: Result<Number, String>)
    ensures
        match number_of(node) {
            Some(n) => r == Ok::<Number, String>(n),
            None => r is Err,
        },
{
    match node {
        Some(JsonNode::Int(i)) => Ok(Number::Int(i)),
        Some(JsonNode::UInt(u)) => Ok(Number::UInt(u)),
        Some(JsonNode::Real(s)) => Ok(Number::Real(s)),
        _ => Err(expected("a number", key)),
    }
}

/// The value under `parent`, then `key`, from the root, as `number_from` reads it.
pub fn read_number(text: &str, parent: &str, key: &str) -> (r: Result<Number, String>)
    requires
        json_within_limits(text@),
    ensures
        match number_of(field(text@, parent@, key@)) {
            Some(n) => r == Ok::<Number, String>(n),
            None => r is Err,
        },
{
    number_from(find_field(text, parent, key), key)
}

/// The optional string that the node holds (absent or `null` is `None`), or a diagnostic naming `key`.
pub fn opt_str_from(node: Option<JsonNode>, key: &str) -> (r: Result<Option<String>, String>)
    ensures
        match opt_str_of(node) {
            Some(None) => r == Ok::<Option<String>, String>(None),
            Some(Some(s)) => r is Ok && r.unwrap() is Some && r.unwrap().unwrap()@ == s,
            None => r is Err,
        },
{
    match node {
        None => Ok(None),
        Some(JsonNode::Null) => Ok(None),
        Some(JsonNode::Str(s)) => Ok(Some(s)),
        _ => Err(expected("a string", key)),
    }
}

/// The value under `parent`, then `key`, from the root, as `opt_str_from` reads it.
pub fn read_opt_str(text: &str, parent: &str, key: &str) -> (r: Result<Option<String>, String>)
    requires
        json_within_limits(text@),
    ensures
        match opt_str_of(field(text@, parent@, key@)) {
            Some(None) => r == Ok::<Option<String>, String>(None),
            Some(Some(s)) => r is Ok && r.unwrap() is Some && r.unwrap().unwrap()@ == s,
            None => r is Err,
        },
{
    opt_str_from(find_field(text, parent, key), key)
}

/// The optional number that the node holds (absent or `null` is `None`), or a diagnostic naming `key`.
pub fn opt_number_from(node: Option<JsonNode>, key: &str) -> (r: Result<Option<Number>, String>)
    ensures
        match opt_number_of(node) {
            Some(x) => r == Ok::<Option<Number>, String>(x),
            None => r is Err,
        },
{
    match node {
        None => Ok(None),
        Some(JsonNode::Null) => Ok(None),
        Some(JsonNode::Int(i)) => Ok(Some(Number::Int(i))),
        Some(JsonNode::UInt(u)) => Ok(Some(Number::UInt(u))),
        Some(JsonNode::Real(s)) => Ok(Some(Number::Real(s))),
        _ => Err(expected("a number", key)),
    }
}

/// The value under `parent`, then `key`, from the root, as `opt_number_from` reads it.
pub fn read_opt_number(text: &str, parent: &str, key: &str) -> (r: Result<Option<Number>, String>)
    requires
        json_within_limits(text@),
    ensures
        match opt_number_of(field(text@, parent@, key@)) {
            Some(x) => r == Ok::<Option<Number>, String>(x),
            None => r is Err,
        },
{
    opt_number_from(find_field(text, parent, key), key)
}

} // verus!
