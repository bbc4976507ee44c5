//! A model of JSON documents, read and written by `serde_json`.

use serde_json::Value;
use vstd::prelude::*;

verus! {

/// A JSON number.
#[derive(Debug, Clone, PartialEq, Eq)]
pub enum JsonNumber {
    /// An integer from 0 on. This is how an integer of a text that was read
    /// is held where it is not negative.
    PosInt(u64),
    /// An integer that fits 64 bits with a sign. This is how an integer of
    /// a text that was read is held where it is negative.
    NegInt(i64),
    /// A number that is no such integer, as its JSON text.
    Real(String),
}

/// What a [`JsonNumber`] holds.
pub enum NumberValue {
    PosInt(u64),
    NegInt(i64),
    Real(Seq<char>),
}

impl View for JsonNumber {
    type V = NumberValue;

    open spec fn view(&self) -> NumberValue {
        match self {
            JsonNumber::PosInt(u) => NumberValue::PosInt(*u),
            JsonNumber::NegInt(i) => NumberValue::NegInt(*i),
            JsonNumber::Real(text) => NumberValue::Real(text@),
        }
    }
}

/// A JSON document. The entries of an object stand in the order of the text.
#[derive(Debug, PartialEq, Eq)]
pub enum Json {
    Null,
    Bool(bool),
    Number(JsonNumber),
    String(String),
    Array(Vec<Json>),
    Object(Vec<(String, Json)>),
}

/// What a [`Json`] holds.
pub enum JsonValue {
    Null,
    Bool(bool),
    Number(NumberValue),
    String(Seq<char>),
    Array(Seq<JsonValue>),
    Object(Seq<(Seq<char>, JsonValue)>),
}

/// What `doc` holds.
pub open spec fn json_value(doc: Json) -> JsonValue
    decreases doc,
{
    match doc {
        Json::Null => JsonValue::Null,
        Json::Bool(b) => JsonValue::Bool(b),
        Json::Number(n) => JsonValue::Number(n@),
        Json::String(s) => JsonValue::String(s@),
        Json::Array(items) => JsonValue::Array(
            Seq::new(
                items@.len(),
                |i: int|
                    if 0 <= i < items@.len() {
                        json_value(items@[i])
                    } else {
                        JsonValue::Null
                    },
            ),
        ),
        Json::Object(entries) => JsonValue::Object(
            Seq::new(
                entries@.len(),
                |i: int|
                    if 0 <= i < entries@.len() {
                        (entries@[i].0@, json_value(entries@[i].1))
                    } else {
                        (Seq::empty(), JsonValue::Null)
                    },
            ),
        ),
    }
}

impl View for Json {
    type V = JsonValue;

    open spec fn view(&self) -> JsonValue {
        json_value(*self)
    }
}

/// What the entries of an object hold, one by one.
pub open spec fn entries_value(entries: Seq<(String, Json)>) -> Seq<(Seq<char>, JsonValue)> {
    Seq::new(entries.len(), |i: int| (entries[i].0@, json_value(entries[i].1)))
}

/// The value of the first entry of `entries` whose key is `key`.
pub open spec fn lookup(entries: Seq<(Seq<char>, JsonValue)>, key: Seq<char>) -> Option<JsonValue>
    decreases entries.len(),
{
    if entries.len() == 0 {
        None
    } else if entries[0].0 == key {
        Some(entries[0].1)
    } else {
        lookup(entries.drop_first(), key)
    }
}

impl JsonValue {
    /// The member `key` of an object; `None` for a missing member and for
    /// anything that is not an object.
    pub open spec fn member(self, key: Seq<char>) -> Option<JsonValue> {
        match self {
            JsonValue::Object(entries) => lookup(entries, key),
            _ => None,
        }
    }
}

/// Where entry `k` has the key and no earlier entry has it, the lookup
/// gives the value of entry `k`.
pub proof fn lemma_lookup_at(entries: Seq<(Seq<char>, JsonValue)>, key: Seq<char>, k: int)
    requires
        0 <= k < entries.len(),
        entries[k].0 == key,
        forall|i: int| 0 <= i < k ==> entries[i].0 != key,
    ensures
        lookup(entries, key) == Some(entries[k].1),
{
    lemma_lookup_skip(entries, key, k);
}

/// No entry before `n` has the key: the lookup may start at `n`.
proof fn lemma_lookup_skip(entries: Seq<(Seq<char>, JsonValue)>, key: Seq<char>, n: int)
    requires
        0 <= n <= entries.len(),
        forall|i: int| 0 <= i < n ==> entries[i].0 != key,
    ensures
        lookup(entries, key) == lookup(entries.skip(n), key),
    decreases n,
{
    if n == 0 {
        assert(entries.skip(0) =~= entries);
    } else {
        lemma_lookup_skip(entries.drop_first(), key, n - 1);
        assert(entries.drop_first().skip(n - 1) =~= entries.skip(n));
    }
}

impl Json {
    /// The object of `entries`.
    pub fn object(entries: Vec<(String, Json)>) -> (r: Json)
        ensures
            r@ == JsonValue::Object(entries_value(entries@)),
    {
        let r = Json::Object(entries);
        assert(r@->Object_0 =~= entries_value(r->Object_0@));
        r
    }

    /// The member `key` of an object.
    pub fn get(&self, key: &str) -> (r: Option<&Json>)
        ensures
            match r {
                Some(found) => self@.member(key@) == Some(found@),
                None => self@.member(key@) is None,
            },
    {
        match self {
            Json::Object(entries) => {
                let wanted = key.to_owned();
                let mut i: usize = 0;
                while i < entries.len()
                    invariant
                        i <= entries.len(),
                        wanted@ == key@,
                        self@ == JsonValue::Object(self@->Object_0),
                        self@->Object_0.len() == entries@.len(),
                        forall|k: int|
                            0 <= k < entries@.len() ==> (#[trigger] self@->Object_0[k]) == (
                                entries@[k].0@,
                                entries@[k].1@,
                            ),
                        forall|k: int| 0 <= k < i ==> (#[trigger] self@->Object_0[k]).0 != key@,
                    decreases entries.len() - i,
                {
                    if entries[i].0 == wanted {
                        proof {
                            lemma_lookup_skip(self@->Object_0, key@, i as int);
                        }
                        return Some(&entries[i].1);
                    }
                    i += 1;
                }
                proof {
                    lemma_lookup_skip(self@->Object_0, key@, i as int);
                }
                None
            },
            _ => None,
        }
    }
}

// What follows is believed of `serde_json`, not proved.

/// `serde_json::Value`. Nothing is known of what one holds; it is only
/// handed from one call to the next.
#[verifier::external_type_specification]
#[verifier::external_body]
pub struct ExValue(Value);

/// `serde_json::Error`. Nothing is read from it.
#[verifier::external_type_specification]
#[verifier::external_body]
pub struct ExJsonError(serde_json::Error);

/// The document that `serde_json::from_slice` reads from `bytes` as a
/// `serde_json::Value`, held as [`json_from_value`] holds it; `None` where
/// the bytes are rejected.
pub uninterp spec fn json_document(bytes: Seq<u8>) -> Option<JsonValue>;

/// The text that `serde_json::to_vec` writes for the `serde_json::Value`
/// that [`value_from_json`] builds of `doc`; `None` where none is built or
/// written.
pub uninterp spec fn json_text(doc: JsonValue) -> Option<Seq<u8>>;

/// Moves a `serde_json::Value` into a [`Json`], variant by variant. A number
/// that `Number::as_u64` or `Number::as_i64` gives stays that integer; any
/// other number is kept as the text that `serde_json` prints for it. Nothing
/// is claimed of the result here: [`parse_value`] names it.
#[verifier::external_body]
fn json_from_value(value: Value) -> Json {
    match value {
        Value::Null => Json::Null,
        Value::Bool(b) => Json::Bool(b),
        Value::Number(n) => Json::Number(match (n.as_u64(), n.as_i64()) {
            (Some(u), _) => JsonNumber::PosInt(u),
            (_, Some(i)) => JsonNumber::NegInt(i),
            _ => JsonNumber::Real(n.to_string()),
        }),
        Value::String(s) => Json::String(s),
        Value::Array(a) => Json::Array(a.into_iter().map(json_from_value).collect()),
        Value::Object(m) => Json::Object(m.into_iter().map(|(k, v)| (k, json_from_value(v))).collect()),
    }
}

/// `serde_json::from_slice`, read as a `serde_json::Value`. The result is a
/// function of the bytes alone: an error exactly where `serde_json` rejects
/// them, else the document it read.
#[verifier::external_body]
fn parse_value(bytes: &[u8]) -> (r: Result<Json, serde_json::Error>)
    ensures
        match r {
            Ok(doc) => json_document(bytes@) == Some(doc@),
            Err(_) => json_document(bytes@) is None,
        },
{
    match serde_json::from_slice::<Value>(bytes) {
        Ok(value) => Ok(json_from_value(value)),
        Err(e) => Err(e),
    }
}

/// Builds the `serde_json::Value` for a [`Json`], variant by variant. A
/// number kept as text is read back by `serde_json::from_str`, whose error is
/// handed on. Nothing is claimed of the result here: [`write_value`] names
/// what is written for it.
#[verifier::external_body]
fn value_from_json(doc: &Json) -> Result<Value, serde_json::Error> {
    match doc {
        Json::Null => Ok(Value::Null),
        Json::Bool(b) => Ok(Value::Bool(*b)),
        Json::Number(JsonNumber::PosInt(u)) => Ok(Value::from(*u)),
        Json::Number(JsonNumber::NegInt(i)) => Ok(Value::from(*i)),
        Json::Number(JsonNumber::Real(text)) => serde_json::from_str(text).map(Value::Number),
        Json::String(s) => Ok(Value::String(s.clone())),
        Json::Array(a) => a.iter().map(value_from_json).collect(),
        Json::Object(m) => m.iter().map(|(k, v)| Ok((k.clone(), value_from_json(v)?))).collect(),
    }
}

/// `serde_json::to_vec`, on the `serde_json::Value` built for `doc`. The
/// result is a function of what `doc` holds alone: an error exactly where
/// the value cannot be built or written, else the text written.
#[verifier::external_body]
fn write_value(doc: &Json) -> (r: Result<Vec<u8>, serde_json::Error>)
    ensures
        match r {
            Ok(text) => json_text(doc@) == Some(text@),
            Err(_) => json_text(doc@) is None,
        },
{
    serde_json::to_vec(&value_from_json(doc)?)
}

// From here on everything is proved again.

impl Json {
    /// Writes the document as JSON text.
    pub fn to_vec(&self) -> (r: Option<Vec<u8>>)
        ensures
            match r {
                Some(text) => json_text(self@) == Some(text@),
                None => json_text(self@) is None,
            },
    {
        match write_value(self) {
            Ok(text) => Some(text),
            Err(_) => None,
        }
    }

    /// Reads a JSON text.
    pub fn from_slice(bytes: &[u8]) -> (r: Option<Json>)
        ensures
            match r {
                Some(doc) => json_document(bytes@) == Some(doc@),
                None => json_document(bytes@) is None,
            },
    {
        match parse_value(bytes) {
            Ok(doc) => Some(doc),
            Err(_) => None,
        }
    }
}

} // verus!
