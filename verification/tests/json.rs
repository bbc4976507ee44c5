use proxmox_client::decode::{decode_flag, decode_string, decode_u16, field, DecodeError};
use proxmox_client::json::{Json, JsonNumber};

fn parse(text: &str) -> Option<Json> {
    Json::from_slice(text.as_bytes())
}

fn number(n: JsonNumber) -> Json {
    Json::Number(n)
}

#[test]
fn scalars_are_read() {
    assert_eq!(parse("null"), Some(Json::Null));
    assert_eq!(parse("true"), Some(Json::Bool(true)));
    assert_eq!(parse(" false "), Some(Json::Bool(false)));
    assert_eq!(parse("\"a\\n\\u00e9\""), Some(Json::String("a\n\u{e9}".to_owned())));
}

#[test]
fn integers_are_read_as_integers() {
    assert_eq!(parse("0"), Some(number(JsonNumber::PosInt(0))));
    assert_eq!(parse("18446744073709551615"), Some(number(JsonNumber::PosInt(u64::MAX))));
    assert_eq!(parse("-1"), Some(number(JsonNumber::NegInt(-1))));
    assert_eq!(parse("-9223372036854775808"), Some(number(JsonNumber::NegInt(i64::MIN))));
}

#[test]
fn other_numbers_are_kept_as_text() {
    assert_eq!(parse("0.25"), Some(number(JsonNumber::Real("0.25".to_owned()))));
    assert_eq!(parse("-2.5e0"), Some(number(JsonNumber::Real("-2.5".to_owned()))));
    assert_eq!(parse("1.0"), Some(number(JsonNumber::Real("1.0".to_owned()))));
}

#[test]
fn arrays_and_objects_keep_their_order() {
    assert_eq!(
        parse(r#"{"b":[1,"x",[]],"a":{},"c":null}"#),
        Some(Json::Object(vec![
            (
                "b".to_owned(),
                Json::Array(vec![
                    number(JsonNumber::PosInt(1)),
                    Json::String("x".to_owned()),
                    Json::Array(vec![]),
                ])
            ),
            ("a".to_owned(), Json::Object(vec![])),
            ("c".to_owned(), Json::Null),
        ]))
    );
}

#[test]
fn what_is_no_json_is_not_read() {
    for text in ["", "nul", "{", "[1,]", "{\"a\":1,}", "1 2", "'a'", "{a:1}", "\"\n\""] {
        assert_eq!(parse(text), None);
    }
    assert_eq!(Json::from_slice(b"\"\xff\""), None);
}

#[test]
fn documents_are_written() {
    let doc = Json::Object(vec![
        ("z".to_owned(), Json::Array(vec![Json::Null, Json::Bool(false)])),
        ("a".to_owned(), number(JsonNumber::NegInt(-7))),
        ("s".to_owned(), Json::String("q\"\\\n".to_owned())),
        ("r".to_owned(), number(JsonNumber::Real("1.5e300".to_owned()))),
        ("o".to_owned(), Json::Object(vec![])),
    ]);
    assert_eq!(
        doc.to_vec(),
        Some(br#"{"z":[null,false],"a":-7,"s":"q\"\\\n","r":1.5e+300,"o":{}}"#.to_vec())
    );
}

#[test]
fn written_documents_are_read_back() {
    let doc = Json::Array(vec![
        number(JsonNumber::PosInt(u64::MAX)),
        number(JsonNumber::NegInt(i64::MIN)),
        number(JsonNumber::Real("0.1".to_owned())),
        Json::String("\u{1f600}".to_owned()),
        Json::Object(vec![("k".to_owned(), Json::Bool(true))]),
    ]);
    assert_eq!(Json::from_slice(&doc.to_vec().unwrap()), Some(doc));
}

#[test]
fn number_whose_text_is_no_number_is_not_written() {
    assert_eq!(number(JsonNumber::Real("".to_owned())).to_vec(), None);
    assert_eq!(number(JsonNumber::Real("one".to_owned())).to_vec(), None);
    assert_eq!(number(JsonNumber::Real("[1]".to_owned())).to_vec(), None);
    let nested = Json::Object(vec![(
        "a".to_owned(),
        Json::Array(vec![number(JsonNumber::Real("1,2".to_owned()))]),
    )]);
    assert_eq!(nested.to_vec(), None);
}

#[test]
fn object_is_what_it_is_made_of() {
    assert_eq!(
        Json::object(vec![("a".to_owned(), Json::Null), ("a".to_owned(), Json::Bool(true))]),
        Json::Object(vec![("a".to_owned(), Json::Null), ("a".to_owned(), Json::Bool(true))])
    );
}

#[test]
fn get_finds_the_first_member_of_a_name() {
    let doc = parse(r#"{"a":1,"b":2,"":3}"#).unwrap();
    assert_eq!(doc.get("a"), Some(&number(JsonNumber::PosInt(1))));
    assert_eq!(doc.get("b"), Some(&number(JsonNumber::PosInt(2))));
    assert_eq!(doc.get(""), Some(&number(JsonNumber::PosInt(3))));
    assert_eq!(doc.get("c"), None);
    assert_eq!(doc.get("A"), None);
    let twice = Json::Object(vec![
        ("a".to_owned(), Json::Bool(true)),
        ("a".to_owned(), Json::Bool(false)),
    ]);
    assert_eq!(twice.get("a"), Some(&Json::Bool(true)));
}

#[test]
fn get_finds_nothing_in_what_is_no_object() {
    assert_eq!(Json::Null.get("a"), None);
    assert_eq!(Json::Array(vec![Json::Null]).get("0"), None);
    assert_eq!(Json::String("a".to_owned()).get("a"), None);
}

#[test]
fn field_says_what_is_missing() {
    let doc = parse(r#"{"a":1}"#).unwrap();
    assert_eq!(field(&doc, "a"), Ok(&number(JsonNumber::PosInt(1))));
    assert_eq!(field(&doc, "b"), Err(DecodeError::MissingField("b".to_owned())));
    assert_eq!(field(&Json::Null, "a"), Err(DecodeError::UnexpectedType));
}

#[test]
fn strings_are_decoded() {
    assert_eq!(decode_string(&Json::String("x".to_owned())), Ok("x".to_owned()));
    assert_eq!(decode_string(&Json::Null), Err(DecodeError::UnexpectedType));
    assert_eq!(decode_string(&number(JsonNumber::PosInt(1))), Err(DecodeError::UnexpectedType));
}

#[test]
fn sixteen_bit_integers_are_decoded() {
    assert_eq!(decode_u16(&number(JsonNumber::PosInt(0))), Ok(0));
    assert_eq!(decode_u16(&number(JsonNumber::PosInt(65535))), Ok(65535));
    assert_eq!(decode_u16(&number(JsonNumber::PosInt(65536))), Err(DecodeError::OutOfRange));
    assert_eq!(decode_u16(&number(JsonNumber::NegInt(-1))), Err(DecodeError::OutOfRange));
    assert_eq!(decode_u16(&number(JsonNumber::NegInt(7))), Ok(7));
    assert_eq!(decode_u16(&number(JsonNumber::NegInt(65536))), Err(DecodeError::OutOfRange));
    assert_eq!(decode_u16(&number(JsonNumber::PosInt(u64::MAX))), Err(DecodeError::OutOfRange));
    assert_eq!(
        decode_u16(&number(JsonNumber::Real("1.0".to_owned()))),
        Err(DecodeError::UnexpectedType)
    );
    assert_eq!(decode_u16(&Json::String("1".to_owned())), Err(DecodeError::UnexpectedType));
}

#[test]
fn flags_are_decoded_from_zero_and_one() {
    assert_eq!(decode_flag(&number(JsonNumber::PosInt(0))), Ok(false));
    assert_eq!(decode_flag(&number(JsonNumber::PosInt(1))), Ok(true));
    assert_eq!(
        decode_flag(&number(JsonNumber::PosInt(2))),
        Err(DecodeError::InvalidBooleanEncoding)
    );
    assert_eq!(
        decode_flag(&number(JsonNumber::PosInt(u64::MAX))),
        Err(DecodeError::InvalidBooleanEncoding)
    );
    assert_eq!(
        decode_flag(&number(JsonNumber::NegInt(-1))),
        Err(DecodeError::InvalidBooleanEncoding)
    );
    assert_eq!(decode_flag(&number(JsonNumber::NegInt(0))), Ok(false));
    assert_eq!(decode_flag(&number(JsonNumber::NegInt(1))), Ok(true));
    assert_eq!(
        decode_flag(&number(JsonNumber::NegInt(i64::MIN))),
        Err(DecodeError::InvalidBooleanEncoding)
    );
    assert_eq!(decode_flag(&Json::Bool(true)), Err(DecodeError::UnexpectedType));
    assert_eq!(
        decode_flag(&number(JsonNumber::Real("1.0".to_owned()))),
        Err(DecodeError::UnexpectedType)
    );
}
