use charming::json::{write_escaped_char, write_string, Json};
use charming::number::Number;

fn string(s: &str) -> Json {
    Json::String(s.to_string())
}

#[test]
fn scalars_are_written_by_name_or_value() {
    assert_eq!(Json::Null.to_text(), "null");
    assert_eq!(Json::Bool(true).to_text(), "true");
    assert_eq!(Json::Bool(false).to_text(), "false");
    assert_eq!(Json::Number(Number::integer(-7)).to_text(), "-7");
    assert_eq!(string("line").to_text(), "\"line\"");
}

#[test]
fn empty_containers_are_written_as_their_brackets() {
    assert_eq!(Json::Array(vec![]).to_text(), "[]");
    assert_eq!(Json::Object(vec![]).to_text(), "{}");
    assert_eq!(string("").to_text(), "\"\"");
}

#[test]
fn lists_are_written_in_order_with_commas() {
    let one = Json::Array(vec![Json::Null]);
    assert_eq!(one.to_text(), "[null]");
    let three = Json::Array(vec![
        Json::Number(Number::integer(3)),
        Json::Number(Number::integer(1)),
        Json::Number(Number::integer(2)),
    ]);
    assert_eq!(three.to_text(), "[3,1,2]");
}

#[test]
fn objects_are_written_in_the_order_of_their_members() {
    let object = Json::Object(vec![
        ("b".to_string(), Json::Bool(true)),
        ("a".to_string(), Json::Null),
        ("c".to_string(), string("x")),
    ]);
    assert_eq!(object.to_text(), "{\"b\":true,\"a\":null,\"c\":\"x\"}");
}

#[test]
fn containers_nest() {
    let inner = Json::Object(vec![(
        "list".to_string(),
        Json::Array(vec![Json::Array(vec![]), Json::Object(vec![])]),
    )]);
    let outer = Json::Array(vec![inner, Json::Number(Number::decimal(5, -1))]);
    assert_eq!(outer.to_text(), "[{\"list\":[[],{}]},0.5]");
}

#[test]
fn quotes_and_backslashes_are_escaped() {
    assert_eq!(string("a\"b").to_text(), "\"a\\\"b\"");
    assert_eq!(string("a\\b").to_text(), "\"a\\\\b\"");
    assert_eq!(string("\\\"").to_text(), "\"\\\\\\\"\"");
}

#[test]
fn control_characters_are_escaped() {
    assert_eq!(string("\n").to_text(), "\"\\n\"");
    assert_eq!(string("\r").to_text(), "\"\\r\"");
    assert_eq!(string("\t").to_text(), "\"\\t\"");
    assert_eq!(string("\u{8}").to_text(), "\"\\b\"");
    assert_eq!(string("\u{c}").to_text(), "\"\\f\"");
    assert_eq!(string("\u{0}").to_text(), "\"\\u0000\"");
    assert_eq!(string("\u{1}").to_text(), "\"\\u0001\"");
    assert_eq!(string("\u{b}").to_text(), "\"\\u000b\"");
    assert_eq!(string("\u{1f}").to_text(), "\"\\u001f\"");
}

#[test]
fn other_characters_stand_for_themselves() {
    assert_eq!(string(" ").to_text(), "\" \"");
    assert_eq!(string("/").to_text(), "\"/\"");
    assert_eq!(string("\u{7f}").to_text(), "\"\u{7f}\"");
    assert_eq!(string("é 電力 😀").to_text(), "\"é 電力 😀\"");
    assert_eq!(string("{value} W").to_text(), "\"{value} W\"");
}

#[test]
fn keys_are_escaped_like_strings() {
    let object = Json::Object(vec![("a\"b".to_string(), Json::Null)]);
    assert_eq!(object.to_text(), "{\"a\\\"b\":null}");
}

#[test]
fn write_string_and_write_escaped_char_append() {
    let mut out = String::from("k:");
    write_string("a\nb", &mut out);
    assert_eq!(out, "k:\"a\\nb\"");
    let mut out = String::from(">");
    write_escaped_char('"', &mut out);
    write_escaped_char('x', &mut out);
    write_escaped_char('\u{2}', &mut out);
    assert_eq!(out, ">\\\"x\\u0002");
}

#[test]
fn json_write_appends_to_what_is_there() {
    let mut out = String::from("data=");
    Json::Array(vec![Json::Bool(false)]).write(&mut out);
    assert_eq!(out, "data=[false]");
}

#[test]
fn every_string_is_read_back_unchanged() {
    let mut all = String::new();
    for code in 0u32..0x250 {
        all.push(char::from_u32(code).unwrap());
    }
    all.push_str("\u{2028}\u{2029}\u{feff}\u{10ffff}");
    let written = string(&all).to_text();
    let read: String = serde_json::from_str(&written).unwrap();
    assert_eq!(read, all);
}

#[test]
fn the_text_is_read_back_as_the_same_tree() {
    let tree = Json::Object(vec![
        ("type".to_string(), string("line")),
        ("smooth".to_string(), Json::Number(Number::decimal(5, -1))),
        ("flag".to_string(), Json::Bool(true)),
        ("none".to_string(), Json::Null),
        (
            "data".to_string(),
            Json::Array(vec![
                Json::Number(Number::integer(300)),
                Json::Array(vec![string("Mon"), Json::Number(Number::integer(-1))]),
            ]),
        ),
    ]);
    let read: serde_json::Value = serde_json::from_str(&tree.to_text()).unwrap();
    let mut expected = serde_json::Map::new();
    expected.insert("type".to_string(), serde_json::Value::from("line"));
    expected.insert("smooth".to_string(), serde_json::Value::from(0.5));
    expected.insert("flag".to_string(), serde_json::Value::from(true));
    expected.insert("none".to_string(), serde_json::Value::Null);
    expected.insert(
        "data".to_string(),
        serde_json::Value::from(vec![
            serde_json::Value::from(300),
            serde_json::Value::from(vec![serde_json::Value::from("Mon"), serde_json::Value::from(-1)]),
        ]),
    );
    assert_eq!(read, serde_json::Value::Object(expected));
}
