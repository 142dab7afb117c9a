use charming::element::{BorderType, Color, ColorBy, CoordinateSystem, ItemStyle};
use charming::number::Number;
use charming::series::candlestick::{Candlestick, CandlestickItemStyle};

fn style_text(style: CandlestickItemStyle) -> String {
    style.to_json().to_text()
}

#[test]
fn a_style_with_no_field_set_is_an_empty_object() {
    assert_eq!(style_text(CandlestickItemStyle::new()), "{}");
    assert_eq!(ItemStyle::new().to_json().to_text(), "{}");
}

#[test]
fn default_is_new() {
    assert_eq!(CandlestickItemStyle::default(), CandlestickItemStyle::new());
    assert_eq!(Candlestick::default(), Candlestick::new());
    assert_eq!(ItemStyle::default(), ItemStyle::new());
}

#[test]
fn each_colour_field_is_written_under_its_key_alone() {
    assert_eq!(style_text(CandlestickItemStyle::new().color("red")), "{\"color\":\"red\"}");
    assert_eq!(style_text(CandlestickItemStyle::new().color0("green")), "{\"color0\":\"green\"}");
    assert_eq!(
        style_text(CandlestickItemStyle::new().border_color("#111")),
        "{\"borderColor\":\"#111\"}"
    );
    assert_eq!(
        style_text(CandlestickItemStyle::new().border_color0("#222")),
        "{\"borderColor0\":\"#222\"}"
    );
    assert_eq!(
        style_text(CandlestickItemStyle::new().border_color_doji("#333")),
        "{\"borderColorDoji\":\"#333\"}"
    );
    assert_eq!(
        style_text(CandlestickItemStyle::new().shadow_color("rgba(0, 0, 0, 0.5)")),
        "{\"shadowColor\":\"rgba(0, 0, 0, 0.5)\"}"
    );
}

#[test]
fn each_number_field_is_written_under_its_key_alone() {
    assert_eq!(style_text(CandlestickItemStyle::new().border_width(2)), "{\"borderWidth\":2}");
    assert_eq!(style_text(CandlestickItemStyle::new().border_radius(4u8)), "{\"borderRadius\":4}");
    assert_eq!(
        style_text(CandlestickItemStyle::new().opacity(Number::decimal(5, -1))),
        "{\"opacity\":0.5}"
    );
    assert_eq!(style_text(CandlestickItemStyle::new().shadow_blur(10i64)), "{\"shadowBlur\":10}");
    assert_eq!(
        style_text(CandlestickItemStyle::new().shadow_offset_x(-3)),
        "{\"shadowOffsetX\":-3}"
    );
    assert_eq!(
        style_text(CandlestickItemStyle::new().shadow_offset_y(Number::decimal(25, -1))),
        "{\"shadowOffsetY\":2.5}"
    );
}

#[test]
fn the_border_type_is_written_by_name() {
    assert_eq!(
        style_text(CandlestickItemStyle::new().border_type(BorderType::Solid)),
        "{\"borderType\":\"solid\"}"
    );
    assert_eq!(
        style_text(CandlestickItemStyle::new().border_type(BorderType::Dashed)),
        "{\"borderType\":\"dashed\"}"
    );
    assert_eq!(
        style_text(CandlestickItemStyle::new().border_type(BorderType::Dotted)),
        "{\"borderType\":\"dotted\"}"
    );
}

#[test]
fn a_full_style_is_written_in_the_order_of_the_schema() {
    let style = CandlestickItemStyle::new()
        .shadow_offset_y(2)
        .shadow_offset_x(1)
        .shadow_blur(3)
        .shadow_color("black")
        .opacity(1)
        .border_type(BorderType::Dotted)
        .border_radius(5)
        .border_width(6)
        .border_color_doji("grey")
        .border_color0("blue")
        .border_color("navy")
        .color0("green")
        .color("red");
    assert_eq!(
        style_text(style),
        "{\"color\":\"red\",\"color0\":\"green\",\"borderColor\":\"navy\",\
         \"borderColor0\":\"blue\",\"borderColorDoji\":\"grey\",\"borderWidth\":6,\
         \"borderRadius\":5,\"borderType\":\"dotted\",\"opacity\":1,\
         \"shadowColor\":\"black\",\"shadowBlur\":3,\"shadowOffsetX\":1,\"shadowOffsetY\":2}"
    );
}

#[test]
fn the_order_of_the_setters_does_not_show() {
    let one = CandlestickItemStyle::new().color("red").opacity(1).border_width(2);
    let other = CandlestickItemStyle::new().border_width(2).color("red").opacity(1);
    assert_eq!(one, other);
    assert_eq!(style_text(one), style_text(other));
}

#[test]
fn a_setter_called_again_replaces_the_value() {
    let style = CandlestickItemStyle::new().color("red").color("blue");
    assert_eq!(style, CandlestickItemStyle::new().color("blue"));
    assert_eq!(style_text(style), "{\"color\":\"blue\"}");
}

#[test]
fn a_setter_leaves_the_other_fields_alone() {
    let style = CandlestickItemStyle::new().color("red").border_width(2);
    let more = style.clone().opacity(1);
    assert_eq!(style_text(style), "{\"color\":\"red\",\"borderWidth\":2}");
    assert_eq!(style_text(more), "{\"color\":\"red\",\"borderWidth\":2,\"opacity\":1}");
}

#[test]
fn combinations_that_mean_nothing_are_passed_on() {
    let style = CandlestickItemStyle::new().border_color0("#222");
    assert_eq!(style_text(style), "{\"borderColor0\":\"#222\"}");
}

#[test]
fn a_colour_is_taken_from_text_and_from_a_colour() {
    let from_slice = CandlestickItemStyle::new().color("red");
    let from_string = CandlestickItemStyle::new().color(String::from("red"));
    let from_color = CandlestickItemStyle::new().color(Color::Value("red".to_string()));
    assert_eq!(from_slice, from_string);
    assert_eq!(from_slice, from_color);
}

#[test]
fn shorthand_equals_new_then_color() {
    let color = Color::Value("red".to_string());
    let direct = CandlestickItemStyle::from(color.clone());
    let built = CandlestickItemStyle::new().color(color.clone());
    assert_eq!(direct, built);
    assert_eq!(style_text(direct), "{\"color\":\"red\"}");
    let converted: CandlestickItemStyle = color.clone().into();
    assert_eq!(converted, built);
    assert_eq!(ItemStyle::from(color.clone()), ItemStyle::new().color(color));
}

#[test]
fn item_style_fields_are_written_in_the_order_of_the_schema() {
    let style = ItemStyle::new()
        .opacity(Number::decimal(4, -1))
        .border_type(BorderType::Dashed)
        .border_width(1)
        .border_color("black")
        .color("rgba(255, 173, 177, 0.4)");
    assert_eq!(
        style.to_json().to_text(),
        "{\"color\":\"rgba(255, 173, 177, 0.4)\",\"borderColor\":\"black\",\
         \"borderWidth\":1,\"borderType\":\"dashed\",\"opacity\":0.4}"
    );
}

#[test]
fn a_candlestick_with_no_field_set_names_its_kind_only() {
    assert_eq!(Candlestick::new().to_json().to_text(), "{\"type\":\"candlestick\"}");
}

#[test]
fn each_candlestick_field_is_written_under_its_key_alone() {
    let text = |series: Candlestick| series.to_json().to_text();
    assert_eq!(text(Candlestick::new().id("k1")), "{\"type\":\"candlestick\",\"id\":\"k1\"}");
    assert_eq!(
        text(Candlestick::new().name(String::from("Dow"))),
        "{\"type\":\"candlestick\",\"name\":\"Dow\"}"
    );
    assert_eq!(
        text(Candlestick::new().coordiate_system(CoordinateSystem::Cartesian2d)),
        "{\"type\":\"candlestick\",\"coordiateSystem\":\"cartesian2d\"}"
    );
    assert_eq!(
        text(Candlestick::new().coordiate_system(CoordinateSystem::Polar)),
        "{\"type\":\"candlestick\",\"coordiateSystem\":\"polar\"}"
    );
    assert_eq!(
        text(Candlestick::new().color_by(ColorBy::Series)),
        "{\"type\":\"candlestick\",\"colorBy\":\"series\"}"
    );
    assert_eq!(
        text(Candlestick::new().color_by(ColorBy::Data)),
        "{\"type\":\"candlestick\",\"colorBy\":\"data\"}"
    );
    assert_eq!(
        text(Candlestick::new().item_style(CandlestickItemStyle::new())),
        "{\"type\":\"candlestick\",\"itemStyle\":{}}"
    );
    assert_eq!(
        text(Candlestick::new().legend_hover_link(false)),
        "{\"type\":\"candlestick\",\"legendHoverLink\":false}"
    );
    assert_eq!(
        text(Candlestick::new().data(vec![(20, 34, 10, 38)])),
        "{\"type\":\"candlestick\",\"data\":[[20,34,10,38]]}"
    );
}

#[test]
fn a_full_candlestick_is_written_in_the_order_of_the_schema() {
    let series = Candlestick::new()
        .data(vec![(20, 34, 10, 38), (40, 35, 30, 50)])
        .legend_hover_link(true)
        .item_style(CandlestickItemStyle::new().color0("green").color("red"))
        .color_by(ColorBy::Data)
        .coordiate_system(CoordinateSystem::Cartesian2d)
        .name("Dow \"Jones\"")
        .id("k");
    assert_eq!(
        series.to_json().to_text(),
        "{\"type\":\"candlestick\",\"id\":\"k\",\"name\":\"Dow \\\"Jones\\\"\",\
         \"coordiateSystem\":\"cartesian2d\",\"colorBy\":\"data\",\
         \"itemStyle\":{\"color\":\"red\",\"color0\":\"green\"},\
         \"legendHoverLink\":true,\"data\":[[20,34,10,38],[40,35,30,50]]}"
    );
}

#[test]
fn data_set_again_replaces_the_data() {
    let series = Candlestick::new().data(vec![1, 2, 3]).data(vec![9]);
    assert_eq!(series.to_json().to_text(), "{\"type\":\"candlestick\",\"data\":[9]}");
}

#[test]
fn data_set_to_nothing_leaves_no_key() {
    let none: Vec<i64> = vec![];
    let series = Candlestick::new().data(vec![1, 2, 3]).data(none);
    assert_eq!(series, Candlestick::new());
    assert_eq!(series.to_json().to_text(), "{\"type\":\"candlestick\"}");
}

#[test]
fn candlestick_without_data_and_with_a_coloured_style() {
    let series = Candlestick::new().item_style(CandlestickItemStyle::new().color("#c23531"));
    let text = series.to_json().to_text();
    assert_eq!(text, "{\"type\":\"candlestick\",\"itemStyle\":{\"color\":\"#c23531\"}}");
    let read: serde_json::Value = serde_json::from_str(&text).unwrap();
    assert!(read.get("data").is_none());
    let style = read.get("itemStyle").unwrap().as_object().unwrap();
    assert_eq!(style.len(), 1);
    assert_eq!(style.get("color").unwrap(), "#c23531");
}
