use monero_rpc::error::DecodeError;
use monero_rpc::json::{Json, ObjectBuilder};
use monero_rpc::text::{from_value, parse, render, to_value};

fn object(members: Vec<(&str, Json)>) -> Json {
    Json::Object(members.into_iter().map(|(k, v)| (k.to_string(), v)).collect())
}

#[test]
fn get_finds_a_member_by_name() {
    let j = object(vec![("a", Json::Unsigned(1)), ("b", Json::Bool(true))]);
    assert_eq!(j.get("a"), Some(&Json::Unsigned(1)));
    assert_eq!(j.get("b"), Some(&Json::Bool(true)));
    assert_eq!(j.get("c"), None);
    assert_eq!(Json::Null.get("a"), None);
    assert_eq!(Json::Array(vec![]).get("a"), None);
}

#[test]
fn get_takes_the_last_of_two_members_with_one_name() {
    let j = object(vec![("a", Json::Unsigned(1)), ("b", Json::Null), ("a", Json::Unsigned(2))]);
    assert_eq!(j.get("a"), Some(&Json::Unsigned(2)));
}

#[test]
fn field_tells_a_missing_member_from_a_value_that_is_no_object() {
    let j = object(vec![("a", Json::Unsigned(1))]);
    assert_eq!(j.field("a"), Ok(&Json::Unsigned(1)));
    assert_eq!(j.field("b"), Err(DecodeError::MissingField));
    assert_eq!(Json::Unsigned(3).field("a"), Err(DecodeError::NotAnObject));
}

#[test]
fn integers_are_read_within_their_range() {
    assert_eq!(Json::Unsigned(7).as_u64(), Ok(7));
    assert_eq!(Json::Unsigned(u64::MAX).as_u64(), Ok(u64::MAX));
    assert_eq!(Json::Signed(7).as_u64(), Ok(7));
    assert_eq!(Json::Signed(-1).as_u64(), Err(DecodeError::WrongType));
    assert_eq!(Json::Signed(-32601).as_i64(), Ok(-32601));
    assert_eq!(Json::Unsigned(5).as_i64(), Ok(5));
    assert_eq!(Json::Unsigned(i64::MAX as u64).as_i64(), Ok(i64::MAX));
    assert_eq!(Json::Unsigned(i64::MAX as u64 + 1).as_i64(), Err(DecodeError::WrongType));
    assert_eq!(Json::Float(0).as_u64(), Err(DecodeError::WrongType));
    assert_eq!(Json::Text("7".to_string()).as_u64(), Err(DecodeError::WrongType));
}

#[test]
fn other_kinds_are_read_as_themselves_only() {
    assert_eq!(Json::Bool(true).as_bool(), Ok(true));
    assert_eq!(Json::Null.as_bool(), Err(DecodeError::WrongType));
    assert_eq!(Json::Text("x".to_string()).as_text(), Ok("x"));
    assert_eq!(Json::Unsigned(1).as_text(), Err(DecodeError::WrongType));
    assert_eq!(Json::Array(vec![Json::Null]).as_array(), Ok(&vec![Json::Null]));
    assert_eq!(Json::Null.as_array(), Err(DecodeError::WrongType));
    assert!(Json::Text("OK".to_string()).is_text("OK"));
    assert!(!Json::Text("ok".to_string()).is_text("OK"));
    assert!(!Json::Unsigned(0).is_text("OK"));
}

#[test]
fn typed_fields_name_their_fault() {
    let j = object(vec![
        ("n", Json::Unsigned(9)),
        ("b", Json::Bool(false)),
        ("s", Json::Text("t".to_string())),
        ("l", Json::Array(vec![])),
    ]);
    assert_eq!(j.u64_field("n"), Ok(9));
    assert_eq!(j.u64_field("s"), Err(DecodeError::WrongType));
    assert_eq!(j.u64_field("x"), Err(DecodeError::MissingField));
    assert_eq!(j.bool_field("b"), Ok(false));
    assert_eq!(j.text_field("s"), Ok("t".to_string()));
    assert_eq!(j.array_field("l"), Ok(&vec![]));
    assert_eq!(Json::Null.u64_field("n"), Err(DecodeError::NotAnObject));
}

#[test]
fn builder_replaces_a_member_that_is_set_again() {
    let mut b = ObjectBuilder::new();
    b.insert("a", Json::Unsigned(1));
    b.insert("b", Json::Unsigned(2));
    b.insert("a", Json::Unsigned(3));
    let j = b.finish();
    assert_eq!(j.get("a"), Some(&Json::Unsigned(3)));
    assert_eq!(j.get("b"), Some(&Json::Unsigned(2)));
    assert_eq!(render(&j), Some(r#"{"a":3,"b":2}"#.to_string()));
}

#[test]
fn unsigned_array_keeps_the_order() {
    assert_eq!(
        Json::unsigned_array(&vec![3, 1, 2]),
        Json::Array(vec![Json::Unsigned(3), Json::Unsigned(1), Json::Unsigned(2)])
    );
    assert_eq!(Json::unsigned_array(&vec![]), Json::Array(vec![]));
    assert_eq!(Json::text("abc"), Json::Text("abc".to_string()));
}

#[test]
fn render_writes_compact_json() {
    assert_eq!(render(&Json::Null), Some("null".to_string()));
    assert_eq!(render(&Json::Bool(true)), Some("true".to_string()));
    assert_eq!(render(&Json::Unsigned(u64::MAX)), Some("18446744073709551615".to_string()));
    assert_eq!(render(&Json::Signed(-32601)), Some("-32601".to_string()));
    assert_eq!(render(&Json::Signed(5)), Some("5".to_string()));
    assert_eq!(render(&Json::Text("a\"b".to_string())), Some(r#""a\"b""#.to_string()));
    assert_eq!(
        render(&Json::Array(vec![Json::Unsigned(7), Json::Array(vec![Json::Unsigned(0), Json::Unsigned(1)])])),
        Some("[7,[0,1]]".to_string())
    );
    assert_eq!(
        render(&object(vec![("k", Json::Null), ("a", object(vec![]))])),
        Some(r#"{"a":{},"k":null}"#.to_string())
    );
}

#[test]
fn render_writes_no_number_with_a_fraction() {
    assert_eq!(render(&Json::Float(0x3ff8000000000000)), None);
    assert_eq!(render(&Json::Array(vec![Json::Unsigned(1), Json::Float(0)])), None);
    assert_eq!(render(&object(vec![("a", Json::Float(0))])), None);
    // a shadowed member counts too
    assert_eq!(render(&object(vec![("a", Json::Float(0)), ("a", Json::Null)])), None);
    assert!(to_value(&Json::Float(1)).is_none());
}

#[test]
fn parse_reads_every_kind_of_value() {
    assert_eq!(parse("null"), Some(Json::Null));
    assert_eq!(parse(" true "), Some(Json::Bool(true)));
    assert_eq!(parse("7"), Some(Json::Unsigned(7)));
    assert_eq!(parse("18446744073709551615"), Some(Json::Unsigned(u64::MAX)));
    assert_eq!(parse("-32601"), Some(Json::Signed(-32601)));
    assert_eq!(parse("1.5"), Some(Json::Float(0x3ff8000000000000)));
    assert_eq!(parse(r#""aA""#), Some(Json::Text("aA".to_string())));
    assert_eq!(
        parse("[7,[0,1]]"),
        Some(Json::Array(vec![
            Json::Unsigned(7),
            Json::Array(vec![Json::Unsigned(0), Json::Unsigned(1)])
        ]))
    );
    let j = parse(r#"{"b":{"c":[null]},"a":1}"#).unwrap();
    assert_eq!(j.get("a"), Some(&Json::Unsigned(1)));
    assert_eq!(
        j.get("b").unwrap().get("c"),
        Some(&Json::Array(vec![Json::Null]))
    );
    assert_eq!(j.get("c"), None);
}

#[test]
fn parse_keeps_the_last_of_two_members_with_one_name() {
    let j = parse(r#"{"a":1,"a":2}"#).unwrap();
    assert_eq!(j.get("a"), Some(&Json::Unsigned(2)));
    assert_eq!(j, object(vec![("a", Json::Unsigned(2))]));
}

#[test]
fn parse_refuses_what_is_not_json() {
    assert_eq!(parse(""), None);
    assert_eq!(parse("{"), None);
    assert_eq!(parse("[1,]"), None);
    assert_eq!(parse("nul"), None);
    assert_eq!(parse("1 2"), None);
}

#[test]
fn text_survives_the_way_through_serde_json() {
    let j = object(vec![
        ("list", Json::Array(vec![Json::Unsigned(1), Json::Signed(-2), Json::Null])),
        ("name", Json::Text("x y".to_string())),
        ("nested", object(vec![("flag", Json::Bool(false))])),
    ]);
    let text = render(&j).unwrap();
    assert_eq!(text, r#"{"list":[1,-2,null],"name":"x y","nested":{"flag":false}}"#);
    assert_eq!(parse(&text).as_ref(), Some(&j));
    let value = to_value(&j).unwrap();
    assert_eq!(from_value(&value), j);
}
