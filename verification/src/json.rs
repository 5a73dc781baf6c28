//! JSON values and the key-value map that plugins share while a request is processed.
//!
//! Values are kept as [`serde_json::Value`], which the verifier cannot look into. What a value
//! holds is named by its compact JSON text, so that every statement about parameters is a
//! statement about bytes.
use vstd::prelude::*;

verus! {

#[verifier::external_type_specification]
#[verifier::external_body]
pub struct ExJsonValue(serde_json::Value);

#[verifier::external_type_specification]
#[verifier::external_body]
pub struct ExJsonError(serde_json::Error);

#[verifier::external_type_specification]
#[verifier::external_body]
#[verifier::reject_recursive_types(K)]
#[verifier::reject_recursive_types(V)]
pub struct ExJsonMap<K, V>(serde_json::Map<K, V>);

/// The compact JSON text of a value: the bytes that `serde_json::to_vec` writes for it.
pub uninterp spec fn json_text(value: serde_json::Value) -> Seq<u8>;

/// What `serde_json::from_slice` reads from `bytes`: the compact JSON text of the value, or
/// `None` where the bytes are not the text of one JSON value.
pub uninterp spec fn json_parse(bytes: Seq<u8>) -> Option<Seq<u8>>;

/// What a JSON object holds: each of its keys with the compact JSON text of the value there.
pub uninterp spec fn json_map_contents(
    map: serde_json::Map<String, serde_json::Value>,
) -> Map<Seq<char>, Seq<u8>>;

/// The JSON text `null`.
pub open spec fn null_text() -> Seq<u8> {
    seq![0x6eu8, 0x75u8, 0x6cu8, 0x6cu8]
}

/// A map without entries.
pub open spec fn no_entries() -> Map<Seq<char>, Seq<u8>> {
    Map::empty()
}

/// Whether the byte at `i` is escaped: it follows an odd number of backslashes.
pub open spec fn is_escaped(text: Seq<u8>, i: int) -> bool
    decreases i,
{
    i > 0 && text[i - 1] == 0x5c && !is_escaped(text, i - 1)
}

/// Whether a JSON text is inside a string before its byte at `i`: a quote opens a string, and the
/// next quote that is not escaped closes it.
pub open spec fn in_string(text: Seq<u8>, i: int) -> bool
    decreases i,
{
    if i <= 0 {
        false
    } else if in_string(text, i - 1) {
        text[i - 1] != 0x22 || is_escaped(text, i - 1)
    } else {
        text[i - 1] == 0x22
    }
}

/// Whether a number can be written with this byte: a digit, a sign, a decimal point or an `e`.
pub open spec fn is_number_byte(b: u8) -> bool {
    0x30 <= b <= 0x39 || b == 0x2d || b == 0x2b || b == 0x2e || b == 0x65
}

/// Whether the bytes of a JSON text from `i` up to `j` are one floating-point number: a number
/// outside of strings that has a decimal point or an exponent.
pub open spec fn is_float_at(text: Seq<u8>, i: int, j: int) -> bool {
    &&& 0 <= i < j <= text.len()
    &&& !in_string(text, i)
    &&& 0x30 <= text[i] <= 0x39 || text[i] == 0x2d
    &&& forall|k: int| i <= k < j ==> is_number_byte(#[trigger] text[k])
    &&& i > 0 ==> !is_number_byte(text[i - 1])
    &&& j < text.len() ==> !is_number_byte(text[j])
    &&& exists|k: int| i <= k < j && (#[trigger] text[k] == 0x2e || text[k] == 0x65)
}

/// Whether a floating-point number is written without an exponent and with at most fifteen digits.
/// Such a number is read to the nearest double.
pub open spec fn is_short_float(number: Seq<u8>) -> bool {
    number.len() <= 16 && !number.contains(0x65)
}

/// Whether every floating-point number in a JSON text is short or is read back as it is written.
/// This holds where there are none.
pub open spec fn floats_read_back(text: Seq<u8>) -> bool {
    forall|i: int, j: int| #[trigger]
        is_float_at(text, i, j) ==> is_short_float(text.subrange(i, j)) || json_parse(
            text.subrange(i, j),
        ) == Some(text.subrange(i, j))
}

/// Calls `serde_json::from_slice` for a `serde_json::Value`. Whether the bytes parse, and the
/// text of the value that comes back, depend on the bytes alone.
///
/// The text of a value that was parsed parses again, to a value with the same text, where its
/// floating-point numbers do. Whole numbers, strings and nesting are read back exactly, and so is
/// a floating-point number of up to fifteen digits: its digits and the power of ten that they are
/// divided by are exact doubles. Of a longer one it is not claimed, as it is not always read to
/// the nearest double.
#[verifier::external_body]
fn from_slice(bytes: &[u8]) -> (r: Result<serde_json::Value, serde_json::Error>)
    ensures
        match r {
            Ok(value) => json_parse(bytes@) == Some(json_text(value)) && (floats_read_back(
                json_text(value),
            ) ==> json_parse(json_text(value)) == Some(json_text(value))),
            Err(_) => json_parse(bytes@) is None,
        },
{
    serde_json::from_slice(bytes)
}

/// Calls `serde_json::to_vec` on a `serde_json::Value`. The serializer of a value never refuses
/// (object keys are strings) and neither does the byte vector that it writes to, so the call
/// always succeeds. It recurses once per level of nesting; values that were parsed are nested
/// at most 128 deep.
#[verifier::external_body]
pub(crate) fn to_vec(value: &serde_json::Value) -> (r: Result<Vec<u8>, serde_json::Error>)
    ensures
        r is Ok,
        r->Ok_0@ == json_text(*value),
{
    serde_json::to_vec(value)
}

/// The constructor `serde_json::Value::Null`, whose text is `null`.
#[verifier::external_body]
fn null_value() -> (value: serde_json::Value)
    ensures
        json_text(value) == null_text(),
{
    serde_json::Value::Null
}

/// Calls `serde_json::Value::clone`, which copies the whole value, so that its text is the same.
#[verifier::external_body]
pub(crate) fn clone_value(value: &serde_json::Value) -> (copy: serde_json::Value)
    ensures
        json_text(copy) == json_text(*value),
{
    value.clone()
}

/// Calls `serde_json::Map::new`, which makes an object without entries.
#[verifier::external_body]
fn new_map() -> (made: serde_json::Map<String, serde_json::Value>)
    ensures
        json_map_contents(made) == no_entries(),
{
    serde_json::Map::new()
}

/// Calls `serde_json::Map::get`, which finds the value at a key, if there is one.
#[verifier::external_body]
fn map_get<'a>(
    map: &'a serde_json::Map<String, serde_json::Value>,
    key: &str,
) -> (r: Option<&'a serde_json::Value>)
    ensures
        match r {
            Some(value) => json_map_contents(*map).contains_key(key@)
                && json_map_contents(*map)[key@] == json_text(*value),
            None => !json_map_contents(*map).contains_key(key@),
        },
{
    map.get(key)
}

/// Calls `serde_json::Map::insert`, which puts the value at the key and hands back the value
/// that was there before, if any.
#[verifier::external_body]
fn map_insert(
    map: &mut serde_json::Map<String, serde_json::Value>,
    key: String,
    value: serde_json::Value,
) -> (previous: Option<serde_json::Value>)
    ensures
        json_map_contents(*final(map)) == json_map_contents(*old(map)).insert(
            key@,
            json_text(value),
        ),
        match previous {
            Some(before) => json_map_contents(*old(map)).contains_key(key@)
                && json_map_contents(*old(map))[key@] == json_text(before),
            None => !json_map_contents(*old(map)).contains_key(key@),
        },
{
    map.insert(key, value)
}

/// Why a parameter could not be read or written.
pub enum ParamError {
    Json(serde_json::Error),
}

/// The key-value map shared between all plugin instances for a single request.
pub struct Params {
    pub map: serde_json::Map<String, serde_json::Value>,
}

impl View for Params {
    type V = Map<Seq<char>, Seq<u8>>;

    open spec fn view(&self) -> Map<Seq<char>, Seq<u8>> {
        json_map_contents(self.map)
    }
}

/// The JSON text that a plugin reads at `key`: `null` where nothing was recorded.
pub open spec fn param_text(params: Map<Seq<char>, Seq<u8>>, key: Seq<char>) -> Seq<u8> {
    if params.contains_key(key) {
        params[key]
    } else {
        null_text()
    }
}

/// The map after a plugin wrote `bytes` at `key`. Bytes that are not JSON leave it as it was.
pub open spec fn param_written(
    params: Map<Seq<char>, Seq<u8>>,
    key: Seq<char>,
    bytes: Seq<u8>,
) -> Map<Seq<char>, Seq<u8>> {
    match json_parse(bytes) {
        Some(text) => params.insert(key, text),
        None => params,
    }
}

impl Params {
    /// Makes an empty map.
    pub fn new() -> (params: Params)
        ensures
            params@ == no_entries(),
    {
        Params { map: new_map() }
    }

    /// Returns a named value from the request context's params, as serialized JSON. A value that
    /// was never recorded is `null`.
    ///
    /// # Arguments
    ///
    /// * `key` - The key name corresponding to the param value.
    pub fn get_param_value(&self, key: &str) -> (r: Result<Vec<u8>, ParamError>)
        ensures
            r is Ok,
            r->Ok_0@ == param_text(self@, key@),
    {
        let text = match map_get(&self.map, key) {
            Some(value) => to_vec(value),
            None => to_vec(&null_value()),
        };
        match text {
            Ok(text) => Ok(text),
            Err(error) => Err(ParamError::Json(error)),
        }
    }

    /// Set a named value in the request context's params.
    ///
    /// # Arguments
    ///
    /// * `key` - The key name corresponding to the param value.
    /// * `value` - The value to record. Values are serialized JSON.
    ///
    /// What is read back at the key parses to the same value. The one exception are values with
    /// floating-point numbers that are not read back as they are written.
    pub fn set_param_value(&mut self, key: String, value: Vec<u8>) -> (r: Result<(), ParamError>)
        ensures
            r is Ok <==> json_parse(value@) is Some,
            final(self)@ == param_written(old(self)@, key@, value@),
            r is Ok && floats_read_back(param_text(final(self)@, key@)) ==> json_parse(
                param_text(final(self)@, key@),
            ) == json_parse(value@),
    {
        let parsed = from_slice(value.as_slice());
        self.record(key, parsed)
    }

    /// Records a value that was parsed; where the parser failed, says so and records nothing.
    pub fn record(
        &mut self,
        key: String,
        parsed: Result<serde_json::Value, serde_json::Error>,
    ) -> (r: Result<(), ParamError>)
        ensures
            match parsed {
                Ok(value) => {
                    &&& r is Ok
                    &&& final(self)@ == old(self)@.insert(key@, json_text(value))
                },
                Err(error) => {
                    &&& r == Err::<(), ParamError>(ParamError::Json(error))
                    &&& final(self)@ == old(self)@
                },
            },
    {
        match parsed {
            Ok(value) => {
                let _ = map_insert(&mut self.map, key, value);
                Ok(())
            },
            Err(error) => Err(ParamError::Json(error)),
        }
    }
}

} // verus!
