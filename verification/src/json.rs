//! JSON values as plain data.
//!
//! Protocol payloads are JSON objects.  The library holds a decoded
//! payload in its own [`JsonValue`] type so that every extraction step
//! can be specified and verified; the text-to-tree step itself is done
//! by the `miniserde` crate behind a trusted wrapper.  A floating-point
//! number is carried as its IEEE bit pattern and never computed with.

use vstd::prelude::*;

verus! {

/// A JSON number, preserving the source's native representation.
///
/// `Float` holds the bit pattern of the double value that the decoder
/// produced; the library moves such numbers around but never does
/// arithmetic on them.
#[derive(Debug, Clone, Copy, PartialEq, Eq, Structural)]
pub enum JsonNumber {
    Uint(u64),
    Int(i64),
    Float(u64),
}

/// The bit pattern of one IEEE double-precision value.
///
/// The library carries such values through and compares them bit for
/// bit; it never does floating-point arithmetic.
#[derive(Debug, Clone, Copy, PartialEq, Eq, Structural)]
pub struct FloatBits {
    pub bits: u64,
}

/// A decoded JSON value.
///
/// Object entries keep the decoder's order (sorted by key) and, coming
/// from a JSON object, have pairwise distinct keys; the lookup helpers
/// take the first entry with a matching key either way.
#[derive(Debug, PartialEq)]
pub enum JsonValue {
    Null,
    Bool(bool),
    Num(JsonNumber),
    Text(String),
    Arr(Vec<JsonValue>),
    Obj(Vec<(String, JsonValue)>),
}

/// The mathematical shape of a [`JsonValue`].
pub enum JsonVal {
    Null,
    Bool(bool),
    Num(JsonNumber),
    Text(Seq<char>),
    Arr(Seq<JsonVal>),
    Obj(Seq<(Seq<char>, JsonVal)>),
}

/// The view of a [`JsonValue`].
pub open spec fn jval_of(v: JsonValue) -> JsonVal
    decreases v,
    via jval_of_decreases
{
    match v {
        JsonValue::Null => JsonVal::Null,
        JsonValue::Bool(b) => JsonVal::Bool(b),
        JsonValue::Num(n) => JsonVal::Num(n),
        JsonValue::Text(s) => JsonVal::Text(s@),
        JsonValue::Arr(items) => JsonVal::Arr(jseq_of(items@)),
        JsonValue::Obj(entries) => JsonVal::Obj(jobj_of(entries@)),
    }
}

/// The views of a sequence of values.
pub open spec fn jseq_of(items: Seq<JsonValue>) -> Seq<JsonVal>
    decreases items,
    via jseq_of_decreases
{
    if items.len() == 0 {
        Seq::empty()
    } else {
        seq![jval_of(items[0])] + jseq_of(items.drop_first())
    }
}

/// The views of a sequence of object entries.
pub open spec fn jobj_of(entries: Seq<(String, JsonValue)>) -> Seq<(Seq<char>, JsonVal)>
    decreases entries,
    via jobj_of_decreases
{
    if entries.len() == 0 {
        Seq::empty()
    } else {
        seq![(entries[0].0@, jval_of(entries[0].1))] + jobj_of(entries.drop_first())
    }
}

#[via_fn]
proof fn jval_of_decreases(v: JsonValue) {
    match v {
        JsonValue::Arr(items) => {
            assert(decreases_to!(v => items));
            assert(decreases_to!(items => items@));
        }
        JsonValue::Obj(entries) => {
            assert(decreases_to!(v => entries));
            assert(decreases_to!(entries => entries@));
        }
        _ => {}
    }
}

#[via_fn]
proof fn jseq_of_decreases(items: Seq<JsonValue>) {
    if items.len() > 0 {
        assert(decreases_to!(items => items[0]));
        vstd::seq::axiom_seq_subrange_decreases::<JsonValue>(items, 1, items.len() as int);
        assert(items.drop_first() =~= items.subrange(1, items.len() as int));
    }
}

#[via_fn]
proof fn jobj_of_decreases(entries: Seq<(String, JsonValue)>) {
    if entries.len() > 0 {
        assert(decreases_to!(entries => entries[0]));
        assert(decreases_to!(entries[0] => entries[0].1));
        vstd::seq::axiom_seq_subrange_decreases::<(String, JsonValue)>(
            entries,
            1,
            entries.len() as int,
        );
        assert(entries.drop_first() =~= entries.subrange(1, entries.len() as int));
    }
}

impl View for JsonValue {
    type V = JsonVal;

    open spec fn view(&self) -> JsonVal {
        jval_of(*self)
    }
}

/// The element views of `jseq_of`, one per element.
pub proof fn lemma_jseq_of_index(items: Seq<JsonValue>)
    ensures
        jseq_of(items).len() == items.len(),
        forall|i: int| 0 <= i < items.len() ==> jseq_of(items)[i] == jval_of(#[trigger] items[i]),
    decreases items.len(),
{
    if items.len() > 0 {
        lemma_jseq_of_index(items.drop_first());
        assert forall|i: int| 0 <= i < items.len() implies jseq_of(items)[i] == jval_of(
            #[trigger] items[i],
        ) by {
            if i > 0 {
                assert(jseq_of(items)[i] == jseq_of(items.drop_first())[i - 1]);
                assert(items.drop_first()[i - 1] == items[i]);
            }
        }
    }
}

/// The entry views of `jobj_of`, one per entry.
pub proof fn lemma_jobj_of_index(entries: Seq<(String, JsonValue)>)
    ensures
        jobj_of(entries).len() == entries.len(),
        forall|i: int|
            0 <= i < entries.len() ==> jobj_of(entries)[i] == (
            #[trigger] entries[i].0@,
            jval_of(entries[i].1),
            ),
    decreases entries.len(),
{
    if entries.len() > 0 {
        lemma_jobj_of_index(entries.drop_first());
        assert forall|i: int| 0 <= i < entries.len() implies jobj_of(entries)[i] == (
            #[trigger] entries[i].0@,
            jval_of(entries[i].1),
        ) by {
            if i > 0 {
                assert(jobj_of(entries)[i] == jobj_of(entries.drop_first())[i - 1]);
                assert(entries.drop_first()[i - 1] == entries[i]);
            }
        }
    }
}

/// The first value under `key`, if any.
pub open spec fn obj_get(entries: Seq<(Seq<char>, JsonVal)>, key: Seq<char>) -> Option<JsonVal>
    decreases entries.len(),
{
    if entries.len() == 0 {
        None
    } else if entries[0].0 == key {
        Some(entries[0].1)
    } else {
        obj_get(entries.drop_first(), key)
    }
}

/// Whether some entry has key `key`.
pub open spec fn obj_contains(entries: Seq<(Seq<char>, JsonVal)>, key: Seq<char>) -> bool {
    obj_get(entries, key) is Some
}

/// `obj_get` returns the first entry whose key matches.
pub proof fn lemma_obj_get_at(entries: Seq<(Seq<char>, JsonVal)>, key: Seq<char>, i: int)
    requires
        0 <= i < entries.len(),
        entries[i].0 == key,
        forall|j: int| 0 <= j < i ==> #[trigger] entries[j].0 != key,
    ensures
        obj_get(entries, key) == Some(entries[i].1),
    decreases i,
{
    if i > 0 {
        lemma_obj_get_at(entries.drop_first(), key, i - 1);
    }
}

/// `obj_get` finds nothing when no entry's key matches.
pub proof fn lemma_obj_get_none(entries: Seq<(Seq<char>, JsonVal)>, key: Seq<char>)
    requires
        forall|j: int| 0 <= j < entries.len() ==> #[trigger] entries[j].0 != key,
    ensures
        obj_get(entries, key) == None::<JsonVal>,
    decreases entries.len(),
{
    if entries.len() > 0 {
        lemma_obj_get_none(entries.drop_first(), key);
    }
}

/// The error of a failed payload decode or field extraction.
///
/// The context names the field or shape that was missing or mistyped,
/// for diagnosis only; contracts constrain when an error is returned,
/// not its wording.
#[derive(Debug, Clone, PartialEq)]
pub struct ParseError {
    pub context: String,
}

impl ParseError {
    /// An error whose context is the given text.
    pub fn new(context: &str) -> (r: ParseError) {
        ParseError { context: String::from_str(context) }
    }
}

/// The text value of `jv`, when it is one.
pub open spec fn s_as_text(jv: JsonVal) -> Option<Seq<char>> {
    match jv {
        JsonVal::Text(t) => Some(t),
        _ => None,
    }
}

/// The number value of `jv`, when it is one.
pub open spec fn s_as_num(jv: JsonVal) -> Option<JsonNumber> {
    match jv {
        JsonVal::Num(n) => Some(n),
        _ => None,
    }
}

/// The element views of `jv`, when it is an array.
pub open spec fn s_as_arr(jv: JsonVal) -> Option<Seq<JsonVal>> {
    match jv {
        JsonVal::Arr(items) => Some(items),
        _ => None,
    }
}

/// The entry views of `jv`, when it is an object.
pub open spec fn s_as_obj(jv: JsonVal) -> Option<Seq<(Seq<char>, JsonVal)>> {
    match jv {
        JsonVal::Obj(entries) => Some(entries),
        _ => None,
    }
}

/// Clones the text out of a text value; any other shape is an error.
pub fn value_to_string(input: &JsonValue) -> (r: Result<String, ParseError>)
    ensures
        match r {
            Ok(s) => s_as_text(input@) == Some(s@),
            Err(_) => s_as_text(input@) is None,
        },
{
    match input {
        JsonValue::Text(s) => Ok(s.clone()),
        _ => Err(ParseError::new("expected a string value")),
    }
}

/// Borrows the elements of an array value; any other shape is an error.
pub fn value_to_array<'a>(input: &'a JsonValue) -> (r: Result<&'a Vec<JsonValue>, ParseError>)
    ensures
        match r {
            Ok(items) => s_as_arr(input@) == Some(jseq_of(items@)),
            Err(_) => s_as_arr(input@) is None,
        },
{
    match input {
        JsonValue::Arr(items) => Ok(items),
        _ => Err(ParseError::new("expected an array value")),
    }
}

/// Borrows the entries of an object value; any other shape is an error.
pub fn value_to_object<'a>(input: &'a JsonValue) -> (r: Result<
    &'a Vec<(String, JsonValue)>,
    ParseError,
>)
    ensures
        match r {
            Ok(entries) => s_as_obj(input@) == Some(jobj_of(entries@)),
            Err(_) => s_as_obj(input@) is None,
        },
{
    match input {
        JsonValue::Obj(entries) => Ok(entries),
        _ => Err(ParseError::new("expected an object value")),
    }
}

/// Copies a number value out; any other shape is an error.
pub fn value_to_number(input: &JsonValue) -> (r: Result<JsonNumber, ParseError>)
    ensures
        match r {
            Ok(n) => s_as_num(input@) == Some(n),
            Err(_) => s_as_num(input@) is None,
        },
{
    match input {
        JsonValue::Num(n) => Ok(*n),
        _ => Err(ParseError::new("expected a number value")),
    }
}

/// The unsigned value of a number, when it is carried as one.
pub open spec fn s_as_uint(jv: JsonVal) -> Option<u64> {
    match jv {
        JsonVal::Num(JsonNumber::Uint(u)) => Some(u),
        _ => None,
    }
}

/// Copies an unsigned number out; any other shape or representation is
/// an error.
pub fn value_to_u64(input: &JsonValue) -> (r: Result<u64, ParseError>)
    ensures
        match r {
            Ok(u) => s_as_uint(input@) == Some(u),
            Err(_) => s_as_uint(input@) is None,
        },
{
    match input {
        JsonValue::Num(JsonNumber::Uint(u)) => Ok(*u),
        _ => Err(ParseError::new("expected an unsigned number value")),
    }
}

/// The unsigned reading of an integer number: an unsigned value as is,
/// a signed value reinterpreted two's-complement.  A float has no
/// unsigned reading here.
pub open spec fn s_as_uint_cast(jv: JsonVal) -> Option<u64> {
    match jv {
        JsonVal::Num(JsonNumber::Uint(u)) => Some(u),
        JsonVal::Num(JsonNumber::Int(i)) => Some(i as u64),
        _ => None,
    }
}

/// Copies an integer number out as unsigned, reinterpreting a signed
/// value; any other shape is an error.
pub fn value_to_u64_cast(input: &JsonValue) -> (r: Result<u64, ParseError>)
    ensures
        match r {
            Ok(u) => s_as_uint_cast(input@) == Some(u),
            Err(_) => s_as_uint_cast(input@) is None,
        },
{
    match input {
        JsonValue::Num(JsonNumber::Uint(u)) => Ok(*u),
        JsonValue::Num(JsonNumber::Int(i)) => Ok(*i as u64),
        _ => Err(ParseError::new("expected an integer number value")),
    }
}

/// The bit pattern of a floating-point number value.
pub open spec fn s_as_float_bits(jv: JsonVal) -> Option<u64> {
    match jv {
        JsonVal::Num(JsonNumber::Float(bits)) => Some(bits),
        _ => None,
    }
}

/// Copies the bit pattern of a floating-point number out; any other
/// shape or representation is an error.
pub fn value_to_float_bits(input: &JsonValue) -> (r: Result<u64, ParseError>)
    ensures
        match r {
            Ok(bits) => s_as_float_bits(input@) == Some(bits),
            Err(_) => s_as_float_bits(input@) is None,
        },
{
    match input {
        JsonValue::Num(JsonNumber::Float(bits)) => Ok(*bits),
        _ => Err(ParseError::new("expected a floating-point number value")),
    }
}

/// Copies a boolean value out; any other shape is an error.
pub fn value_to_bool(input: &JsonValue) -> (r: Result<bool, ParseError>)
    ensures
        match r {
            Ok(b) => input@ == JsonVal::Bool(b),
            Err(_) => !(input@ is Bool),
        },
{
    match input {
        JsonValue::Bool(b) => Ok(*b),
        _ => Err(ParseError::new("expected a boolean value")),
    }
}

/// Borrows the first value under `key`, if any.
pub fn object_get<'a>(entries: &'a Vec<(String, JsonValue)>, key: &str) -> (r: Option<
    &'a JsonValue,
>)
    ensures
        match r {
            Some(v) => obj_get(jobj_of(entries@), key@) == Some(v@),
            None => obj_get(jobj_of(entries@), key@) is None,
        },
{
    proof {
        lemma_jobj_of_index(entries@);
    }
    let key_string = String::from_str(key);
    let n = entries.len();
    let mut i: usize = 0;
    while i < n
        invariant
            i <= n,
            n == entries@.len(),
            key_string@ == key@,
            forall|j: int| 0 <= j < i ==> #[trigger] entries@[j].0@ != key@,
            jobj_of(entries@).len() == entries@.len(),
            forall|j: int|
                0 <= j < entries@.len() ==> jobj_of(entries@)[j] == (
                #[trigger] entries@[j].0@,
                jval_of(entries@[j].1),
                ),
        decreases n - i,
    {
        if entries[i].0 == key_string {
            proof {
                assert forall|j: int| 0 <= j < i implies #[trigger] jobj_of(entries@)[j].0
                    != key@ by {
                    assert(jobj_of(entries@)[j].0 == entries@[j].0@);
                }
                lemma_obj_get_at(jobj_of(entries@), key@, i as int);
            }
            return Some(&entries[i].1);
        }
        i = i + 1;
    }
    proof {
        assert forall|j: int| 0 <= j < entries@.len() implies #[trigger] jobj_of(entries@)[j].0
            != key@ by {
            assert(jobj_of(entries@)[j].0 == entries@[j].0@);
        }
        lemma_obj_get_none(jobj_of(entries@), key@);
    }
    None
}

/// Whether some entry has key `key`.
pub fn object_contains_key(entries: &Vec<(String, JsonValue)>, key: &str) -> (r: bool)
    ensures
        r == obj_contains(jobj_of(entries@), key@),
{
    object_get(entries, key).is_some()
}

/// Whether the value under `key` is JSON null; a missing key is an
/// error.
pub fn is_null(input: &Vec<(String, JsonValue)>, key: &str) -> (r: Result<bool, ParseError>)
    ensures
        match r {
            Ok(b) => obj_get(jobj_of(input@), key@) matches Some(jv) && b == (jv
                == JsonVal::Null),
            Err(_) => obj_get(jobj_of(input@), key@) is None,
        },
{
    match object_get(input, key) {
        Some(v) => match v {
            JsonValue::Null => Ok(true),
            _ => Ok(false),
        },
        None => Err(ParseError::new("failed to get key")),
    }
}

/// What `miniserde::json::from_str::<Value>` decodes a payload to,
/// carried over to this library's value shape (objects in the decoder's
/// key order, floats as their bit patterns), or `None` when the text is
/// not valid JSON.  The decoder's result depends on the text alone.
pub uninterp spec fn json_parse(s: Seq<char>) -> Option<JsonVal>;

#[verifier::external_type_specification]
#[verifier::external_body]
pub struct ExMiniserdeValue(miniserde::json::Value);

#[verifier::external_type_specification]
#[verifier::external_body]
pub struct ExMiniserdeNumber(miniserde::json::Number);

/// Relies on `miniserde::json::Number`'s three variants; moves each
/// into [`JsonNumber`], taking a double's bit pattern.  Used only by
/// [`parse_json`]'s body.
#[verifier::external_body]
fn convert_number(n: &miniserde::json::Number) -> JsonNumber {
    match n {
        miniserde::json::Number::U64(u) => JsonNumber::Uint(*u),
        miniserde::json::Number::I64(i) => JsonNumber::Int(*i),
        miniserde::json::Number::F64(x) => JsonNumber::Float(x.to_bits()),
    }
}

/// Relies on `miniserde::json::Value`'s six variants; moves each into
/// [`JsonValue`], arrays and objects element by element (objects
/// iterate in key order).  Used only by [`parse_json`]'s body.  It
/// recurses once per nesting level, so the stack bounds the nesting
/// depth it can convert, where the decoder itself is depth-unbounded;
/// the payloads this protocol sends nest only a few levels deep.
#[verifier::external_body]
fn convert_value(v: &miniserde::json::Value) -> JsonValue {
    match v {
        miniserde::json::Value::Null => JsonValue::Null,
        miniserde::json::Value::Bool(b) => JsonValue::Bool(*b),
        miniserde::json::Value::Number(n) => JsonValue::Num(convert_number(n)),
        miniserde::json::Value::String(s) => JsonValue::Text(s.clone()),
        miniserde::json::Value::Array(a) => JsonValue::Arr(a.iter().map(convert_value).collect()),
        miniserde::json::Value::Object(o) => JsonValue::Obj(
            o.iter().map(|(k, w)| (k.clone(), convert_value(w))).collect(),
        ),
    }
}

/// Relies on `miniserde::json::from_str::<miniserde::json::Value>`: it
/// decodes valid JSON text to a value tree and rejects everything else;
/// the result is a function of the text alone.  [`json_parse`] names
/// that result after conversion to the library's shape.
#[verifier::external_body]
pub(crate) fn parse_json(s: &str) -> (r: Option<JsonValue>)
    ensures
        match r {
            Some(v) => json_parse(s@) == Some(v@),
            None => json_parse(s@) == None::<JsonVal>,
        },
{
    match miniserde::json::from_str::<miniserde::json::Value>(s) {
        Ok(v) => Some(convert_value(&v)),
        Err(_) => None,
    }
}

} // verus!
