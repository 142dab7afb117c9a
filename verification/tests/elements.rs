use charming::element::{BorderType, Color, ColorBy, CoordinateSystem};
use charming::json::Json;
use charming::number::Number;
use charming::record::RecordWriter;

#[test]
fn a_colour_is_written_as_a_string() {
    let color = Color::Value("rgba(255, 173, 177, 0.4)".to_string());
    assert_eq!(color.to_json(), Json::String("rgba(255, 173, 177, 0.4)".to_string()));
    assert_eq!(Color::from("red"), Color::Value("red".to_string()));
    assert_eq!(Color::from(String::from("red")), Color::Value("red".to_string()));
}

#[test]
fn names_are_written_as_the_renderer_knows_them() {
    assert_eq!(BorderType::Solid.to_json().to_text(), "\"solid\"");
    assert_eq!(BorderType::Dashed.to_json().to_text(), "\"dashed\"");
    assert_eq!(BorderType::Dotted.to_json().to_text(), "\"dotted\"");
    assert_eq!(ColorBy::Series.to_json().to_text(), "\"series\"");
    assert_eq!(ColorBy::Data.to_json().to_text(), "\"data\"");
    assert_eq!(CoordinateSystem::Cartesian2d.to_json().to_text(), "\"cartesian2d\"");
    assert_eq!(CoordinateSystem::Polar.to_json().to_text(), "\"polar\"");
}

#[test]
fn a_writer_keeps_what_is_set_in_the_order_of_the_puts() {
    let written = RecordWriter::new()
        .put("b", Some(Json::Number(Number::integer(1))))
        .put("skipped", None)
        .put("a", Some(Json::Null))
        .put("also skipped", None)
        .put("c", Some(Json::Array(vec![])))
        .finish();
    assert_eq!(written.to_text(), "{\"b\":1,\"a\":null,\"c\":[]}");
    assert_eq!(
        written,
        Json::Object(vec![
            ("b".to_string(), Json::Number(Number::integer(1))),
            ("a".to_string(), Json::Null),
            ("c".to_string(), Json::Array(vec![])),
        ])
    );
}

#[test]
fn a_writer_with_nothing_set_gives_an_empty_object() {
    assert_eq!(RecordWriter::new().finish(), Json::Object(vec![]));
    assert_eq!(RecordWriter::new().put("a", None).finish().to_text(), "{}");
}
