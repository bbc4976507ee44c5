//! Typed decoding of JSON documents: shapes, the decode policy for their
//! fields, and the errors a mismatch gives.

use crate::json::{Json, JsonNumber, JsonValue, NumberValue};
use vstd::prelude::*;

verus! {

/// Why a document could not be decoded.
#[derive(Debug, Clone, PartialEq, Eq)]
pub enum DecodeError {
    /// The bytes are not a JSON text.
    Malformed,
    /// An object lacks the named member.
    MissingField(String),
    /// A value is not of the JSON type that its place asks for.
    UnexpectedType,
    /// An integer does not fit the field.
    OutOfRange,
    /// The tag of a record names no variant.
    UnknownVariant(String),
    /// A flag is an integer other than 0 and 1.
    InvalidBooleanEncoding,
}

/// What a [`DecodeError`] holds.
pub enum DecodeErrorView {
    Malformed,
    MissingField(Seq<char>),
    UnexpectedType,
    OutOfRange,
    UnknownVariant(Seq<char>),
    InvalidBooleanEncoding,
}

impl View for DecodeError {
    type V = DecodeErrorView;

    open spec fn view(&self) -> DecodeErrorView {
        match self {
            DecodeError::Malformed => DecodeErrorView::Malformed,
            DecodeError::MissingField(name) => DecodeErrorView::MissingField(name@),
            DecodeError::UnexpectedType => DecodeErrorView::UnexpectedType,
            DecodeError::OutOfRange => DecodeErrorView::OutOfRange,
            DecodeError::UnknownVariant(tag) => DecodeErrorView::UnknownVariant(tag@),
            DecodeError::InvalidBooleanEncoding => DecodeErrorView::InvalidBooleanEncoding,
        }
    }
}

/// The outcome of a decoding, value and error by what they hold.
pub open spec fn outcome<T: DeepView>(r: Result<T, DecodeError>) -> Result<T::V, DecodeErrorView> {
    match r {
        Ok(value) => Ok(value.deep_view()),
        Err(e) => Err(e@),
    }
}

/// The member `key` that an object must have.
pub open spec fn required(doc: JsonValue, key: Seq<char>) -> Result<JsonValue, DecodeErrorView> {
    match doc {
        JsonValue::Object(_) => match doc.member(key) {
            Some(found) => Ok(found),
            None => Err(DecodeErrorView::MissingField(key)),
        },
        _ => Err(DecodeErrorView::UnexpectedType),
    }
}

/// A JSON string.
pub open spec fn decoded_string(doc: JsonValue) -> Result<Seq<char>, DecodeErrorView> {
    match doc {
        JsonValue::String(text) => Ok(text),
        _ => Err(DecodeErrorView::UnexpectedType),
    }
}

/// The integer that a JSON number is, where it is one.
pub open spec fn integer_of(number: NumberValue) -> Option<int> {
    match number {
        NumberValue::PosInt(n) => Some(n as int),
        NumberValue::NegInt(n) => Some(n as int),
        NumberValue::Real(_) => None,
    }
}

/// A JSON integer from 0 to 65535.
pub open spec fn decoded_u16(doc: JsonValue) -> Result<u16, DecodeErrorView> {
    match doc {
        JsonValue::Number(number) => match integer_of(number) {
            Some(n) => if 0 <= n <= u16::MAX {
                Ok(n as u16)
            } else {
                Err(DecodeErrorView::OutOfRange)
            },
            None => Err(DecodeErrorView::UnexpectedType),
        },
        _ => Err(DecodeErrorView::UnexpectedType),
    }
}

/// A flag sent as an integer: 0 is `false`, 1 is `true`, and no other
/// integer is a flag.
pub open spec fn decoded_flag(doc: JsonValue) -> Result<bool, DecodeErrorView> {
    match doc {
        JsonValue::Number(number) => match integer_of(number) {
            Some(n) => if n == 0 {
                Ok(false)
            } else if n == 1 {
                Ok(true)
            } else {
                Err(DecodeErrorView::InvalidBooleanEncoding)
            },
            None => Err(DecodeErrorView::UnexpectedType),
        },
        _ => Err(DecodeErrorView::UnexpectedType),
    }
}

/// The string member `key` of an object.
pub open spec fn string_field(doc: JsonValue, key: Seq<char>) -> Result<Seq<char>, DecodeErrorView> {
    match required(doc, key) {
        Ok(found) => decoded_string(found),
        Err(e) => Err(e),
    }
}

/// The 16-bit member `key` of an object.
pub open spec fn u16_field(doc: JsonValue, key: Seq<char>) -> Result<u16, DecodeErrorView> {
    match required(doc, key) {
        Ok(found) => decoded_u16(found),
        Err(e) => Err(e),
    }
}

/// The flag member `key` of an object.
pub open spec fn flag_field(doc: JsonValue, key: Seq<char>) -> Result<bool, DecodeErrorView> {
    match required(doc, key) {
        Ok(found) => decoded_flag(found),
        Err(e) => Err(e),
    }
}

/// The member `key` that an object must have.
pub fn field<'a>(doc: &'a Json, key: &str) -> (r: Result<&'a Json, DecodeError>)
    ensures
        match r {
            Ok(found) => required(doc@, key@) == Ok::<JsonValue, DecodeErrorView>(found@),
            Err(e) => required(doc@, key@) == Err::<JsonValue, DecodeErrorView>(e@),
        },
{
    match doc {
        Json::Object(_) => match doc.get(key) {
            Some(found) => Ok(found),
            None => Err(DecodeError::MissingField(key.to_owned())),
        },
        _ => Err(DecodeError::UnexpectedType),
    }
}

/// Decodes a JSON string.
pub fn decode_string(doc: &Json) -> (r: Result<String, DecodeError>)
    ensures
        outcome(r) == decoded_string(doc@),
{
    match doc {
        Json::String(text) => Ok(text.clone()),
        _ => Err(DecodeError::UnexpectedType),
    }
}

/// Decodes a JSON integer from 0 to 65535.
pub fn decode_u16(doc: &Json) -> (r: Result<u16, DecodeError>)
    ensures
        outcome(r) == decoded_u16(doc@),
{
    match doc {
        Json::Number(JsonNumber::PosInt(n)) => {
            if *n <= 65535 {
                Ok(*n as u16)
            } else {
                Err(DecodeError::OutOfRange)
            }
        },
        Json::Number(JsonNumber::NegInt(n)) => {
            if 0 <= *n && *n <= 65535 {
                Ok(*n as u16)
            } else {
                Err(DecodeError::OutOfRange)
            }
        },
        _ => Err(DecodeError::UnexpectedType),
    }
}

/// Decodes a flag sent as the integer 0 or 1.
pub fn decode_flag(doc: &Json) -> (r: Result<bool, DecodeError>)
    ensures
        outcome(r) == decoded_flag(doc@),
{
    match doc {
        Json::Number(JsonNumber::PosInt(n)) => {
            if *n == 0 {
                Ok(false)
            } else if *n == 1 {
                Ok(true)
            } else {
                Err(DecodeError::InvalidBooleanEncoding)
            }
        },
        Json::Number(JsonNumber::NegInt(n)) => {
            if *n == 0 {
                Ok(false)
            } else if *n == 1 {
                Ok(true)
            } else {
                Err(DecodeError::InvalidBooleanEncoding)
            }
        },
        _ => Err(DecodeError::UnexpectedType),
    }
}

/// A type that a JSON document decodes to.
pub trait FromJson: Sized + DeepView {
    /// What `doc` decodes to: the value, or why there is none.
    spec fn decoded(doc: JsonValue) -> Result<Self::V, DecodeErrorView>;

    /// Decodes `doc`.
    fn from_json(doc: &Json) -> (r: Result<Self, DecodeError>)
        ensures
            outcome(r) == Self::decoded(doc@),
    ;
}

/// The items of an array, decoded one by one from the first on: all of
/// them in their order, or the error of the first that fails.
pub open spec fn decoded_items<T: FromJson>(items: Seq<JsonValue>) -> Result<
    Seq<T::V>,
    DecodeErrorView,
>
    decreases items.len(),
{
    if items.len() == 0 {
        Ok(Seq::empty())
    } else {
        match decoded_items::<T>(items.drop_last()) {
            Err(e) => Err(e),
            Ok(front) => match T::decoded(items.last()) {
                Err(e) => Err(e),
                Ok(value) => Ok(front.push(value)),
            },
        }
    }
}

impl<T: FromJson> FromJson for Vec<T> {
    open spec fn decoded(doc: JsonValue) -> Result<Seq<T::V>, DecodeErrorView> {
        match doc {
            JsonValue::Array(items) => decoded_items::<T>(items),
            _ => Err(DecodeErrorView::UnexpectedType),
        }
    }

    fn from_json(doc: &Json) -> (r: Result<Vec<T>, DecodeError>) {
        match doc {
            Json::Array(items) => {
                let mut out: Vec<T> = Vec::new();
                let mut i: usize = 0;
                proof {
                    assert(out.deep_view() =~= Seq::<T::V>::empty());
                    assert(doc@->Array_0.take(0).len() == 0);
                }
                while i < items.len()
                    invariant
                        i <= items.len(),
                        doc@ is Array,
                        doc@->Array_0.len() == items@.len(),
                        forall|k: int|
                            0 <= k < items@.len() ==> (#[trigger] doc@->Array_0[k]) == items@[k]@,
                        decoded_items::<T>(doc@->Array_0.take(i as int)) == Ok::<
                            Seq<T::V>,
                            DecodeErrorView,
                        >(out.deep_view()),
                    decreases items.len() - i,
                {
                    let ghost all = doc@->Array_0;
                    proof {
                        assert(all.take(i + 1).drop_last() =~= all.take(i as int));
                        assert(all.take(i + 1).last() == all[i as int]);
                    }
                    match T::from_json(&items[i]) {
                        Ok(value) => {
                            let ghost before = out.deep_view();
                            out.push(value);
                            proof {
                                assert(out.deep_view() =~= before.push(value.deep_view()));
                            }
                        },
                        Err(e) => {
                            proof {
                                lemma_items_fail::<T>(all, i + 1);
                            }
                            return Err(e);
                        },
                    }
                    i += 1;
                }
                proof {
                    assert(doc@->Array_0.take(i as int) =~= doc@->Array_0);
                }
                Ok(out)
            },
            _ => Err(DecodeError::UnexpectedType),
        }
    }
}

/// An array that decodes gives one value for each item, in the order of the
/// items: nothing is left out and nothing changes place. An array with an
/// item that does not decode does not decode.
pub proof fn lemma_items_in_order<T: FromJson>(items: Seq<JsonValue>)
    ensures
        decoded_items::<T>(items) matches Ok(values) ==> {
            &&& values.len() == items.len()
            &&& forall|i: int|
                0 <= i < items.len() ==> T::decoded(#[trigger] items[i]) == Ok::<
                    T::V,
                    DecodeErrorView,
                >(values[i])
        },
        decoded_items::<T>(items) is Err ==> exists|i: int|
            0 <= i < items.len() && T::decoded(#[trigger] items[i]) is Err,
    decreases items.len(),
{
    if items.len() > 0 {
        let front = items.drop_last();
        lemma_items_in_order::<T>(front);
        match decoded_items::<T>(front) {
            Ok(values) => {
                assert forall|i: int| 0 <= i < front.len() implies T::decoded(
                    #[trigger] items[i],
                ) == Ok::<T::V, DecodeErrorView>(values[i]) by {
                    assert(front[i] == items[i]);
                }
                if T::decoded(items.last()) is Err {
                    assert(T::decoded(items[items.len() - 1]) is Err);
                }
            },
            Err(_) => {
                let i = choose|i: int| 0 <= i < front.len() && T::decoded(#[trigger] front[i]) is Err;
                assert(front[i] == items[i]);
            },
        }
    }
}

/// Once a prefix of the items has failed, the whole array fails with the
/// same error.
proof fn lemma_items_fail<T: FromJson>(items: Seq<JsonValue>, n: int)
    requires
        0 <= n <= items.len(),
        decoded_items::<T>(items.take(n)) is Err,
    ensures
        decoded_items::<T>(items) == decoded_items::<T>(items.take(n)),
    decreases items.len() - n,
{
    if n == items.len() {
        assert(items.take(n) =~= items);
    } else {
        assert(items.take(n + 1).drop_last() =~= items.take(n));
        lemma_items_fail::<T>(items, n + 1);
    }
}

} // verus!
