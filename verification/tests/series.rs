use charming::chart::Chart;
use charming::component::Title;
use charming::datatype::{frame_json, into_frame, DataFrame, DataPoint, DataPointItem, Value};
use charming::element::{ColorBy, CoordinateSystem, ItemStyle};
use charming::json::Json;
use charming::number::Number;
use charming::series::candlestick::Candlestick;
use charming::series::line::Line;
use charming::series::Series;

fn number(n: i64) -> DataPoint {
    DataPoint::Value(Value::Number(Number::integer(n)))
}

#[test]
fn line_named_electricity_with_three_points() {
    let line = Line::new().name("Electricity").data(vec![300, 280, 250]);
    let text = line.to_json().to_text();
    assert_eq!(text, "{\"type\":\"line\",\"name\":\"Electricity\",\"data\":[300,280,250]}");
    let read: serde_json::Value = serde_json::from_str(&text).unwrap();
    let object = read.as_object().unwrap();
    assert_eq!(object.len(), 3);
    assert!(object.get("id").is_none());
    assert!(object.get("colorBy").is_none());
    assert!(object.get("itemStyle").is_none());
    assert_eq!(object.get("type").unwrap(), "line");
    assert_eq!(object.get("name").unwrap(), "Electricity");
    assert_eq!(
        object.get("data").unwrap(),
        &serde_json::Value::from(vec![300, 280, 250])
    );
}

#[test]
fn a_line_with_no_field_set_names_its_kind_only() {
    assert_eq!(Line::new().to_json().to_text(), "{\"type\":\"line\"}");
    assert_eq!(Line::default(), Line::new());
}

#[test]
fn a_full_line_is_written_in_the_order_of_the_schema() {
    let line = Line::new()
        .data(vec!["a", "b"])
        .item_style(ItemStyle::new().color("red"))
        .smooth(Number::decimal(5, -1))
        .color_by(ColorBy::Series)
        .coordinate_system(CoordinateSystem::Polar)
        .name("n")
        .id("i");
    assert_eq!(
        line.to_json().to_text(),
        "{\"type\":\"line\",\"id\":\"i\",\"name\":\"n\",\"coordinateSystem\":\"polar\",\
         \"colorBy\":\"series\",\"smooth\":0.5,\"itemStyle\":{\"color\":\"red\"},\
         \"data\":[\"a\",\"b\"]}"
    );
}

#[test]
fn whole_numbers_convert_to_number_points() {
    assert_eq!(DataPoint::from(300i32), number(300));
    assert_eq!(DataPoint::from(-5i64), number(-5));
    assert_eq!(DataPoint::from(Number::integer(7)), number(7));
    assert_eq!(Value::from(3i32), Value::Number(Number::integer(3)));
    assert_eq!(Value::from(3i64), Value::Number(Number::integer(3)));
    assert_eq!(
        Value::from(Number::decimal(5, -1)),
        Value::Number(Number { mantissa: 5, exponent: -1 })
    );
}

#[test]
fn text_converts_to_text_points() {
    let expected = DataPoint::Value(Value::String("Mon".to_string()));
    assert_eq!(DataPoint::from("Mon"), expected);
    assert_eq!(DataPoint::from(String::from("Mon")), expected);
    assert_eq!(Value::from("Mon"), Value::String("Mon".to_string()));
    assert_eq!(Value::from(String::from("Mon")), Value::String("Mon".to_string()));
}

#[test]
fn pairs_convert_to_pair_points() {
    let expected = DataPoint::Value(Value::Pair(
        Box::new(Value::String("Mon".to_string())),
        Box::new(Value::Number(Number::integer(820))),
    ));
    assert_eq!(DataPoint::from(("Mon", 820)), expected);
    assert_eq!(DataPoint::from(Value::pair("Mon", 820i64)), expected);
    assert_eq!(expected.to_json().to_text(), "[\"Mon\",820]");
    let nested: Value = ((1, 2), "x").into();
    assert_eq!(nested.to_json().to_text(), "[[1,2],\"x\"]");
}

#[test]
fn four_numbers_convert_to_a_candle() {
    let expected = DataPoint::Candle(
        Number::integer(20),
        Number::integer(34),
        Number::integer(10),
        Number::integer(38),
    );
    assert_eq!(DataPoint::from((20, 34, 10, 38)), expected);
    assert_eq!(DataPoint::candle(20i64, 34i64, 10i64, 38i64), expected);
    assert_eq!(expected.to_json().to_text(), "[20,34,10,38]");
    let decimal = DataPoint::candle(
        Number::decimal(205, -1),
        Number::decimal(341, -1),
        Number::decimal(10, 0),
        Number::decimal(38, 0),
    );
    assert_eq!(decimal.to_json().to_text(), "[20.5,34.1,10,38]");
}

#[test]
fn values_and_items_convert_to_points_that_hold_them() {
    assert_eq!(DataPoint::from(Value::Null), DataPoint::Value(Value::Null));
    let item = DataPointItem::new(5).name("five");
    assert_eq!(DataPoint::from(item.clone()), DataPoint::Item(item));
}

#[test]
fn a_missing_value_is_written_as_null() {
    assert_eq!(Value::Null.to_json().to_text(), "null");
    let line = Line::new().data(vec![number(1), DataPoint::Value(Value::Null), number(3)]);
    assert_eq!(line.to_json().to_text(), "{\"type\":\"line\",\"data\":[1,null,3]}");
}

#[test]
fn an_item_is_written_as_an_object_with_its_value_first() {
    let bare = DataPointItem::new(5);
    assert_eq!(bare.to_json().to_text(), "{\"value\":5}");
    let named = DataPointItem::new(("Mon", 5)).name("first");
    assert_eq!(named.to_json().to_text(), "{\"value\":[\"Mon\",5],\"name\":\"first\"}");
    let styled = DataPointItem::new(5).item_style(ItemStyle::new().color("red")).name("x");
    assert_eq!(
        styled.to_json().to_text(),
        "{\"value\":5,\"name\":\"x\",\"itemStyle\":{\"color\":\"red\"}}"
    );
}

#[test]
fn numbers_and_text_mix_in_one_frame() {
    let frame: DataFrame = vec![number(1), DataPoint::from("two"), number(3)];
    let line = Line::new().data(frame);
    assert_eq!(line.to_json().to_text(), "{\"type\":\"line\",\"data\":[1,\"two\",3]}");
}

#[test]
fn a_frame_keeps_the_order_of_its_input() {
    let input: Vec<i64> = vec![5, 3, 9, 3, 1, 7, 0, -2];
    let frame = into_frame(input.clone());
    assert_eq!(frame.len(), input.len());
    for i in 0..input.len() {
        assert_eq!(frame[i], number(input[i]));
    }
    let written = frame_json(&frame).unwrap();
    assert_eq!(written.to_text(), "[5,3,9,3,1,7,0,-2]");
    match written {
        Json::Array(items) => {
            for i in 0..input.len() {
                assert_eq!(items[i], Json::Number(Number::integer(input[i])));
            }
        }
        _ => panic!("a frame is written as a list"),
    }
}

#[test]
fn an_empty_frame_is_not_written() {
    let none: Vec<i64> = vec![];
    let frame = into_frame(none);
    assert!(frame.is_empty());
    assert_eq!(frame_json(&frame), None);
    let empty: Vec<&str> = vec![];
    assert_eq!(Line::new().data(empty).to_json().to_text(), "{\"type\":\"line\"}");
}

#[test]
fn a_series_is_written_as_the_record_of_its_kind() {
    let line = Line::new().name("a");
    let candlestick = Candlestick::new().name("b");
    assert_eq!(Series::Line(line.clone()).to_json(), line.to_json());
    assert_eq!(Series::Candlestick(candlestick.clone()).to_json(), candlestick.to_json());
    assert_eq!(Series::from(line.clone()), Series::Line(line));
    assert_eq!(Series::from(candlestick.clone()), Series::Candlestick(candlestick));
}

#[test]
fn a_chart_with_nothing_set_is_an_empty_object() {
    assert_eq!(Chart::new().to_text(), "{}");
    assert_eq!(Chart::default(), Chart::new());
    assert_eq!(Chart::new().title(Title::new()).to_text(), "{\"title\":{}}");
}

#[test]
fn a_chart_keeps_the_order_of_its_series() {
    let a = Line::new().name("A");
    let b = Candlestick::new().name("B");
    let c = Line::new().name("C");
    let chart = Chart::new().series(Series::Line(a)).series(b).series(c);
    assert_eq!(
        chart.to_text(),
        "{\"series\":[{\"type\":\"line\",\"name\":\"A\"},\
         {\"type\":\"candlestick\",\"name\":\"B\"},{\"type\":\"line\",\"name\":\"C\"}]}"
    );
    let read: serde_json::Value = serde_json::from_str(&chart.to_text()).unwrap();
    let series = read.get("series").unwrap().as_array().unwrap();
    let names: Vec<&str> = series.iter().map(|s| s.get("name").unwrap().as_str().unwrap()).collect();
    assert_eq!(names, vec!["A", "B", "C"]);
}

#[test]
fn the_title_comes_before_the_series() {
    let chart = Chart::new()
        .series(Line::new().data(vec![820, 932, 901]))
        .title(Title::new().subtext("Fake Data").text("Distribution of Electricity"));
    assert_eq!(
        chart.to_text(),
        "{\"title\":{\"text\":\"Distribution of Electricity\",\"subtext\":\"Fake Data\"},\
         \"series\":[{\"type\":\"line\",\"data\":[820,932,901]}]}"
    );
    assert_eq!(chart.to_json().to_text(), chart.to_text());
}

#[test]
fn equal_charts_are_written_alike() {
    let build = || {
        Chart::new()
            .title(Title::new().text("t"))
            .series(Line::new().name("a").data(vec![("x", 1), ("y", 2)]))
            .series(Candlestick::new().data(vec![(1, 2, 3, 4)]))
    };
    assert_eq!(build(), build());
    assert_eq!(build().to_text(), build().to_text());
    assert_eq!(build().to_text(), build().clone().to_text());
}
