//! The candlestick series and the style of its candles.

use vstd::prelude::*;
use vstd::string::StringExecFns;
use crate::datatype::{
    frame_json, frame_view, frame_wire, into_frame, DataFrame, DataPoint, DataPointView,
};
use crate::element::{
    bool_json, bool_wire, border_type_json, border_type_wire, color_by_json, color_by_wire,
    color_json, color_view, color_wire, converts, coordinate_system_json, coordinate_system_wire,
    number_json, number_wire, text_json, text_view, text_wire, BorderType, Color, ColorBy,
    ColorView, CoordinateSystem,
};
use crate::json::{Json, JsonView};
use crate::number::Number;
use crate::record::{
    distinct_keys, lemma_present_unset, lemma_record_get, optional_view, present, record,
    RecordWriter,
};

verus! {

/// The style of the candles of a candlestick series. Every field is optional;
/// one that is not set is left to the renderer.
///
/// No combination of fields is refused: a style with `border_color0` and
/// without `color0` is written as it stands.
#[derive(Debug, Clone, PartialEq)]
pub struct CandlestickItemStyle {
    color: Option<Color>,
    color0: Option<Color>,
    border_color: Option<Color>,
    border_color0: Option<Color>,
    border_color_doji: Option<Color>,
    border_width: Option<Number>,
    border_radius: Option<Number>,
    border_type: Option<BorderType>,
    opacity: Option<Number>,
    shadow_color: Option<Color>,
    shadow_blur: Option<Number>,
    shadow_offset_x: Option<Number>,
    shadow_offset_y: Option<Number>,
}

/// What a `CandlestickItemStyle` holds.
pub struct CandlestickItemStyleView {
    pub color: Option<ColorView>,
    pub color0: Option<ColorView>,
    pub border_color: Option<ColorView>,
    pub border_color0: Option<ColorView>,
    pub border_color_doji: Option<ColorView>,
    pub border_width: Option<Number>,
    pub border_radius: Option<Number>,
    pub border_type: Option<BorderType>,
    pub opacity: Option<Number>,
    pub shadow_color: Option<ColorView>,
    pub shadow_blur: Option<Number>,
    pub shadow_offset_x: Option<Number>,
    pub shadow_offset_y: Option<Number>,
}

impl View for CandlestickItemStyle {
    type V = CandlestickItemStyleView;

    closed spec fn view(&self) -> CandlestickItemStyleView {
        CandlestickItemStyleView {
            color: color_view(self.color),
            color0: color_view(self.color0),
            border_color: color_view(self.border_color),
            border_color0: color_view(self.border_color0),
            border_color_doji: color_view(self.border_color_doji),
            border_width: self.border_width,
            border_radius: self.border_radius,
            border_type: self.border_type,
            opacity: self.opacity,
            shadow_color: color_view(self.shadow_color),
            shadow_blur: self.shadow_blur,
            shadow_offset_x: self.shadow_offset_x,
            shadow_offset_y: self.shadow_offset_y,
        }
    }
}

impl CandlestickItemStyleView {
    /// The style with no field set.
    pub open spec fn empty() -> CandlestickItemStyleView {
        CandlestickItemStyleView {
            color: None,
            color0: None,
            border_color: None,
            border_color0: None,
            border_color_doji: None,
            border_width: None,
            border_radius: None,
            border_type: None,
            opacity: None,
            shadow_color: None,
            shadow_blur: None,
            shadow_offset_x: None,
            shadow_offset_y: None,
        }
    }

    /// The schema: each key of the document with the field that it is for.
    pub open spec fn slots(self) -> Seq<(Seq<char>, Option<JsonView>)> {
        seq![
            ("color"@, color_wire(self.color)),
            ("color0"@, color_wire(self.color0)),
            ("borderColor"@, color_wire(self.border_color)),
            ("borderColor0"@, color_wire(self.border_color0)),
            ("borderColorDoji"@, color_wire(self.border_color_doji)),
            ("borderWidth"@, number_wire(self.border_width)),
            ("borderRadius"@, number_wire(self.border_radius)),
            ("borderType"@, border_type_wire(self.border_type)),
            ("opacity"@, number_wire(self.opacity)),
            ("shadowColor"@, color_wire(self.shadow_color)),
            ("shadowBlur"@, number_wire(self.shadow_blur)),
            ("shadowOffsetX"@, number_wire(self.shadow_offset_x)),
            ("shadowOffsetY"@, number_wire(self.shadow_offset_y)),
        ]
    }

    /// The object that the style is written as.
    pub open spec fn wire(self) -> JsonView {
        record(self.slots())
    }

    /// The keys of the schema differ from one another.
    pub proof fn lemma_distinct_keys(self)
        ensures
            distinct_keys(self.slots()),
    {
        reveal_strlit("color");
        reveal_strlit("color0");
        reveal_strlit("borderColor");
        reveal_strlit("borderColor0");
        reveal_strlit("borderColorDoji");
        reveal_strlit("borderWidth");
        reveal_strlit("borderRadius");
        reveal_strlit("borderType");
        reveal_strlit("opacity");
        reveal_strlit("shadowColor");
        reveal_strlit("shadowBlur");
        reveal_strlit("shadowOffsetX");
        reveal_strlit("shadowOffsetY");
        let slots = self.slots();
        assert(slots[2].0[6] != slots[5].0[6]);
        assert(slots[2].0[0] != slots[9].0[0]);
        assert(slots[3].0[6] != slots[6].0[6]);
        assert(slots[5].0[0] != slots[9].0[0]);
        assert(slots[7].0[0] != slots[10].0[0]);
        assert(slots[11].0[12] != slots[12].0[12]);
        assert forall|i: int, j: int| 0 <= i < j < slots.len() implies (#[trigger] slots[i]).0
            != (#[trigger] slots[j]).0 by {
            assert(slots[i].0.len() != slots[j].0.len()
                || (i == 2 && j == 5)
                || (i == 2 && j == 9)
                || (i == 3 && j == 6)
                || (i == 5 && j == 9)
                || (i == 7 && j == 10)
                || (i == 11 && j == 12));
        }
    }

    /// The written style holds under each key what the field holds: the
    /// value where the field is set, and no member where it is not.
    pub proof fn lemma_wire_fields(self)
        ensures
            self.wire().get("color"@) == color_wire(self.color),
            self.wire().get("color0"@) == color_wire(self.color0),
            self.wire().get("borderColor"@) == color_wire(self.border_color),
            self.wire().get("borderColor0"@) == color_wire(self.border_color0),
            self.wire().get("borderColorDoji"@) == color_wire(self.border_color_doji),
            self.wire().get("borderWidth"@) == number_wire(self.border_width),
            self.wire().get("borderRadius"@) == number_wire(self.border_radius),
            self.wire().get("borderType"@) == border_type_wire(self.border_type),
            self.wire().get("opacity"@) == number_wire(self.opacity),
            self.wire().get("shadowColor"@) == color_wire(self.shadow_color),
            self.wire().get("shadowBlur"@) == number_wire(self.shadow_blur),
            self.wire().get("shadowOffsetX"@) == number_wire(self.shadow_offset_x),
            self.wire().get("shadowOffsetY"@) == number_wire(self.shadow_offset_y),
            self.wire().has("color"@) <==> self.color is Some,
            self.wire().has("color0"@) <==> self.color0 is Some,
            self.wire().has("borderColor"@) <==> self.border_color is Some,
            self.wire().has("borderColor0"@) <==> self.border_color0 is Some,
            self.wire().has("borderColorDoji"@) <==> self.border_color_doji is Some,
            self.wire().has("borderWidth"@) <==> self.border_width is Some,
            self.wire().has("borderRadius"@) <==> self.border_radius is Some,
            self.wire().has("borderType"@) <==> self.border_type is Some,
            self.wire().has("opacity"@) <==> self.opacity is Some,
            self.wire().has("shadowColor"@) <==> self.shadow_color is Some,
            self.wire().has("shadowBlur"@) <==> self.shadow_blur is Some,
            self.wire().has("shadowOffsetX"@) <==> self.shadow_offset_x is Some,
            self.wire().has("shadowOffsetY"@) <==> self.shadow_offset_y is Some,
    {
        self.lemma_distinct_keys();
        let slots = self.slots();
        lemma_record_get(slots, 0);
        lemma_record_get(slots, 1);
        lemma_record_get(slots, 2);
        lemma_record_get(slots, 3);
        lemma_record_get(slots, 4);
        lemma_record_get(slots, 5);
        lemma_record_get(slots, 6);
        lemma_record_get(slots, 7);
        lemma_record_get(slots, 8);
        lemma_record_get(slots, 9);
        lemma_record_get(slots, 10);
        lemma_record_get(slots, 11);
        lemma_record_get(slots, 12);
    }

    /// The style with no field set is written with no member at all.
    pub proof fn lemma_empty_wire()
        ensures
            Self::empty().wire() == JsonView::Object(Seq::empty()),
    {
        let slots = Self::empty().slots();
        lemma_present_unset(slots, 0);
        assert(present(slots.take(0)) == Seq::<(Seq<char>, JsonView)>::empty());
    }
}

impl CandlestickItemStyle {
    /// The style with no field set.
    pub fn new() -> (r: Self)
        ensures
            r@ == CandlestickItemStyleView::empty(),
    {
        CandlestickItemStyle {
            color: None,
            color0: None,
            border_color: None,
            border_color0: None,
            border_color_doji: None,
            border_width: None,
            border_radius: None,
            border_type: None,
            opacity: None,
            shadow_color: None,
            shadow_blur: None,
            shadow_offset_x: None,
            shadow_offset_y: None,
        }
    }

    /// Sets the fill colour of a candle that closed above its opening.
    pub fn color<C: Into<Color>>(self, color: C) -> (r: Self)
        ensures
            exists|c: Color| #[trigger]
                converts(color, c) && r@ == (CandlestickItemStyleView { color: Some(c@), ..self@ }),
    {
        let value: Color = color.into();
        assert(converts(color, value));
        let mut r = self;
        r.color = Some(value);
        r
    }

    /// Sets the fill colour of a candle that closed below its opening.
    pub fn color0<C: Into<Color>>(self, color0: C) -> (r: Self)
        ensures
            exists|c: Color| #[trigger]
                converts(color0, c) && r@ == (CandlestickItemStyleView { color0: Some(c@), ..self@ }),
    {
        let value: Color = color0.into();
        assert(converts(color0, value));
        let mut r = self;
        r.color0 = Some(value);
        r
    }

    /// Sets the border colour of a candle that closed above its opening.
    pub fn border_color<C: Into<Color>>(self, border_color: C) -> (r: Self)
        ensures
            exists|c: Color| #[trigger]
                converts(border_color, c) && r@ == (CandlestickItemStyleView { border_color: Some(c@), ..self@ }),
    {
        let value: Color = border_color.into();
        assert(converts(border_color, value));
        let mut r = self;
        r.border_color = Some(value);
        r
    }

    /// Sets the border colour of a candle that closed below its opening.
    pub fn border_color0<C: Into<Color>>(self, border_color0: C) -> (r: Self)
        ensures
            exists|c: Color| #[trigger]
                converts(border_color0, c) && r@ == (CandlestickItemStyleView { border_color0: Some(c@), ..self@ }),
    {
        let value: Color = border_color0.into();
        assert(converts(border_color0, value));
        let mut r = self;
        r.border_color0 = Some(value);
        r
    }

    /// Sets the border colour of a candle that closed where it opened.
    pub fn border_color_doji<C: Into<Color>>(self, border_color_doji: C) -> (r: Self)
        ensures
            exists|c: Color| #[trigger]
                converts(border_color_doji, c) && r@ == (CandlestickItemStyleView { border_color_doji: Some(c@), ..self@ }),
    {
        let value: Color = border_color_doji.into();
        assert(converts(border_color_doji, value));
        let mut r = self;
        r.border_color_doji = Some(value);
        r
    }

    /// Sets the width of the border.
    pub fn border_width<N: Into<Number>>(self, border_width: N) -> (r: Self)
        ensures
            exists|n: Number| #[trigger]
                converts(border_width, n) && r@ == (CandlestickItemStyleView { border_width: Some(n), ..self@ }),
    {
        let value: Number = border_width.into();
        assert(converts(border_width, value));
        let mut r = self;
        r.border_width = Some(value);
        r
    }

    /// Sets the radius of the corners.
    pub fn border_radius<N: Into<Number>>(self, border_radius: N) -> (r: Self)
        ensures
            exists|n: Number| #[trigger]
                converts(border_radius, n) && r@ == (CandlestickItemStyleView { border_radius: Some(n), ..self@ }),
    {
        let value: Number = border_radius.into();
        assert(converts(border_radius, value));
        let mut r = self;
        r.border_radius = Some(value);
        r
    }

    /// Sets how the border is drawn.
    pub fn border_type(self, border_type: BorderType) -> (r: Self)
        ensures
            r@ == (CandlestickItemStyleView { border_type: Some(border_type), ..self@ }),
    {
        let mut r = self;
        r.border_type = Some(border_type);
        r
    }

    /// Sets the opacity.
    pub fn opacity<N: Into<Number>>(self, opacity: N) -> (r: Self)
        ensures
            exists|n: Number| #[trigger]
                converts(opacity, n) && r@ == (CandlestickItemStyleView { opacity: Some(n), ..self@ }),
    {
        let value: Number = opacity.into();
        assert(converts(opacity, value));
        let mut r = self;
        r.opacity = Some(value);
        r
    }

    /// Sets the colour of the shadow.
    pub fn shadow_color<C: Into<Color>>(self, shadow_color: C) -> (r: Self)
        ensures
            exists|c: Color| #[trigger]
                converts(shadow_color, c) && r@ == (CandlestickItemStyleView { shadow_color: Some(c@), ..self@ }),
    {
        let value: Color = shadow_color.into();
        assert(converts(shadow_color, value));
        let mut r = self;
        r.shadow_color = Some(value);
        r
    }

    /// Sets how far the shadow is blurred.
    pub fn shadow_blur<N: Into<Number>>(self, shadow_blur: N) -> (r: Self)
        ensures
            exists|n: Number| #[trigger]
                converts(shadow_blur, n) && r@ == (CandlestickItemStyleView { shadow_blur: Some(n), ..self@ }),
    {
        let value: Number = shadow_blur.into();
        assert(converts(shadow_blur, value));
        let mut r = self;
        r.shadow_blur = Some(value);
        r
    }

    /// Sets how far the shadow lies to the right.
    pub fn shadow_offset_x<N: Into<Number>>(self, shadow_offset_x: N) -> (r: Self)
        ensures
            exists|n: Number| #[trigger]
                converts(shadow_offset_x, n) && r@ == (CandlestickItemStyleView { shadow_offset_x: Some(n), ..self@ }),
    {
        let value: Number = shadow_offset_x.into();
        assert(converts(shadow_offset_x, value));
        let mut r = self;
        r.shadow_offset_x = Some(value);
        r
    }

    /// Sets how far the shadow lies below.
    pub fn shadow_offset_y<N: Into<Number>>(self, shadow_offset_y: N) -> (r: Self)
        ensures
            exists|n: Number| #[trigger]
                converts(shadow_offset_y, n) && r@ == (CandlestickItemStyleView { shadow_offset_y: Some(n), ..self@ }),
    {
        let value: Number = shadow_offset_y.into();
        assert(converts(shadow_offset_y, value));
        let mut r = self;
        r.shadow_offset_y = Some(value);
        r
    }

    /// The style as a value of the document.
    pub fn to_json(&self) -> (j: Json)
        ensures
            j@ == self@.wire(),
    {
        let w = RecordWriter::new();
        let w = w.put("color", color_json(&self.color));
        let w = w.put("color0", color_json(&self.color0));
        let w = w.put("borderColor", color_json(&self.border_color));
        let w = w.put("borderColor0", color_json(&self.border_color0));
        let w = w.put("borderColorDoji", color_json(&self.border_color_doji));
        let w = w.put("borderWidth", number_json(&self.border_width));
        let w = w.put("borderRadius", number_json(&self.border_radius));
        let w = w.put("borderType", border_type_json(&self.border_type));
        let w = w.put("opacity", number_json(&self.opacity));
        let w = w.put("shadowColor", color_json(&self.shadow_color));
        let w = w.put("shadowBlur", number_json(&self.shadow_blur));
        let w = w.put("shadowOffsetX", number_json(&self.shadow_offset_x));
        let w = w.put("shadowOffsetY", number_json(&self.shadow_offset_y));
        assert(w.slots() == self@.slots());
        w.finish()
    }
}

impl Default for CandlestickItemStyle {
    fn default() -> (r: Self)
        ensures
            r@ == CandlestickItemStyleView::empty(),
    {
        CandlestickItemStyle::new()
    }
}
impl From<Color> for CandlestickItemStyle {
    /// The style with only the fill colour set.
    fn from(color: Color) -> (r: Self)
        ensures
            r@ == (CandlestickItemStyleView { color: Some(color@), ..CandlestickItemStyleView::empty() }),
    {
        CandlestickItemStyle::new().color(color)
    }
}

/// No equation is given for this conversion: the contract of `from` states
/// what it returns.
impl vstd::std_specs::convert::FromSpecImpl<Color> for CandlestickItemStyle {
    open spec fn obeys_from_spec() -> bool {
        false
    }

    open spec fn from_spec(color: Color) -> CandlestickItemStyle {
        arbitrary()
    }
}

/// A style made from a bare colour is, field for field, the one that `new`
/// and then `color` make from it.
pub proof fn lemma_candlestick_item_style_shorthand(
    color: Color,
    direct: CandlestickItemStyle,
    fresh: CandlestickItemStyle,
    built: CandlestickItemStyle,
)
    requires
        call_ensures(<CandlestickItemStyle as From<Color>>::from, (color,), direct),
        call_ensures(CandlestickItemStyle::new, (), fresh),
        call_ensures(CandlestickItemStyle::color::<Color>, (fresh, color), built),
    ensures
        direct@ == built@,
{
}

/// The view of an optional candle style.
pub open spec fn candlestick_item_style_view(s: Option<CandlestickItemStyle>) -> Option<CandlestickItemStyleView> {
    match s {
        Some(s) => Some(s@),
        None => None,
    }
}

/// What an optional candle style is written as, where it is set.
pub open spec fn candlestick_item_style_wire(s: Option<CandlestickItemStyleView>) -> Option<JsonView> {
    match s {
        Some(s) => Some(s.wire()),
        None => None,
    }
}

/// An optional candle style as a value of the document.
pub(crate) fn candlestick_item_style_json(s: &Option<CandlestickItemStyle>) -> (j: Option<Json>)
    ensures
        optional_view(j) == candlestick_item_style_wire(candlestick_item_style_view(*s)),
{
    match s {
        Some(s) => Some(s.to_json()),
        None => None,
    }
}

/// A candlestick series: its options and its data. The document names its
/// kind `candlestick`.
#[derive(Debug, Clone, PartialEq)]
pub struct Candlestick {
    id: Option<String>,
    name: Option<String>,
    coordiate_system: Option<CoordinateSystem>,
    color_by: Option<ColorBy>,
    item_style: Option<CandlestickItemStyle>,
    legend_hover_link: Option<bool>,
    data: DataFrame,
}

/// What a `Candlestick` holds.
pub struct CandlestickView {
    pub id: Option<Seq<char>>,
    pub name: Option<Seq<char>>,
    pub coordiate_system: Option<CoordinateSystem>,
    pub color_by: Option<ColorBy>,
    pub item_style: Option<CandlestickItemStyleView>,
    pub legend_hover_link: Option<bool>,
    pub data: Seq<DataPointView>,
}

impl View for Candlestick {
    type V = CandlestickView;

    closed spec fn view(&self) -> CandlestickView {
        CandlestickView {
            id: text_view(self.id),
            name: text_view(self.name),
            coordiate_system: self.coordiate_system,
            color_by: self.color_by,
            item_style: candlestick_item_style_view(self.item_style),
            legend_hover_link: self.legend_hover_link,
            data: frame_view(self.data@),
        }
    }
}

impl CandlestickView {
    /// The series with no field set.
    pub open spec fn empty() -> CandlestickView {
        CandlestickView {
            id: None,
            name: None,
            coordiate_system: None,
            color_by: None,
            item_style: None,
            legend_hover_link: None,
            data: Seq::empty(),
        }
    }

    /// The schema: each key of the document with the field that it is for.
    /// The kind of the series comes first and is always there.
    pub open spec fn slots(self) -> Seq<(Seq<char>, Option<JsonView>)> {
        seq![
            ("type"@, Some(JsonView::String("candlestick"@))),
            ("id"@, text_wire(self.id)),
            ("name"@, text_wire(self.name)),
            ("coordiateSystem"@, coordinate_system_wire(self.coordiate_system)),
            ("colorBy"@, color_by_wire(self.color_by)),
            ("itemStyle"@, candlestick_item_style_wire(self.item_style)),
            ("legendHoverLink"@, bool_wire(self.legend_hover_link)),
            ("data"@, frame_wire(self.data)),
        ]
    }

    /// The object that the series is written as.
    pub open spec fn wire(self) -> JsonView {
        record(self.slots())
    }

    /// The keys of the schema differ from one another.
    pub proof fn lemma_distinct_keys(self)
        ensures
            distinct_keys(self.slots()),
    {
        reveal_strlit("type");
        reveal_strlit("id");
        reveal_strlit("name");
        reveal_strlit("coordiateSystem");
        reveal_strlit("colorBy");
        reveal_strlit("itemStyle");
        reveal_strlit("legendHoverLink");
        reveal_strlit("data");
        let slots = self.slots();
        assert(slots[0].0[0] != slots[2].0[0]);
        assert(slots[0].0[0] != slots[7].0[0]);
        assert(slots[2].0[0] != slots[7].0[0]);
        assert(slots[3].0[0] != slots[6].0[0]);
        assert forall|i: int, j: int| 0 <= i < j < slots.len() implies (#[trigger] slots[i]).0
            != (#[trigger] slots[j]).0 by {
            assert(slots[i].0.len() != slots[j].0.len()
                || (i == 0 && j == 2)
                || (i == 0 && j == 7)
                || (i == 2 && j == 7)
                || (i == 3 && j == 6));
        }
    }

    /// The written series holds under each key what the field holds: the
    /// value where the field is set, and no member where it is not.
    pub proof fn lemma_wire_fields(self)
        ensures
            self.wire().get("type"@) == Some(JsonView::String("candlestick"@)),
            self.wire().get("id"@) == text_wire(self.id),
            self.wire().get("name"@) == text_wire(self.name),
            self.wire().get("coordiateSystem"@) == coordinate_system_wire(self.coordiate_system),
            self.wire().get("colorBy"@) == color_by_wire(self.color_by),
            self.wire().get("itemStyle"@) == candlestick_item_style_wire(self.item_style),
            self.wire().get("legendHoverLink"@) == bool_wire(self.legend_hover_link),
            self.wire().get("data"@) == frame_wire(self.data),
            self.wire().has("id"@) <==> self.id is Some,
            self.wire().has("name"@) <==> self.name is Some,
            self.wire().has("coordiateSystem"@) <==> self.coordiate_system is Some,
            self.wire().has("colorBy"@) <==> self.color_by is Some,
            self.wire().has("itemStyle"@) <==> self.item_style is Some,
            self.wire().has("legendHoverLink"@) <==> self.legend_hover_link is Some,
            self.wire().has("data"@) <==> self.data.len() > 0,
    {
        self.lemma_distinct_keys();
        let slots = self.slots();
        lemma_record_get(slots, 0);
        lemma_record_get(slots, 1);
        lemma_record_get(slots, 2);
        lemma_record_get(slots, 3);
        lemma_record_get(slots, 4);
        lemma_record_get(slots, 5);
        lemma_record_get(slots, 6);
        lemma_record_get(slots, 7);
    }

    /// The series with no field set is written with its kind and nothing else.
    pub proof fn lemma_empty_wire()
        ensures
            Self::empty().wire() == JsonView::Object(
                seq![("type"@, JsonView::String("candlestick"@))],
            ),
    {
        let slots = Self::empty().slots();
        lemma_present_unset(slots, 1);
        let first = slots.take(1);
        assert(first.drop_last() == Seq::<(Seq<char>, Option<JsonView>)>::empty());
        assert(present(first.drop_last()) == Seq::<(Seq<char>, JsonView)>::empty());
        assert(first.last() == slots[0]);
        assert(present(slots.take(1)) == seq![("type"@, JsonView::String("candlestick"@))]);
    }
}

impl Candlestick {
    /// The series with no field set.
    pub fn new() -> (r: Self)
        ensures
            r@ == CandlestickView::empty(),
    {
        let data: DataFrame = Vec::new();
        assert(frame_view(data@) == Seq::<DataPointView>::empty());
        Candlestick {
            id: None,
            name: None,
            coordiate_system: None,
            color_by: None,
            item_style: None,
            legend_hover_link: None,
            data,
        }
    }

    /// Sets the id of the series.
    pub fn id<S: Into<String>>(self, id: S) -> (r: Self)
        ensures
            exists|s: String| #[trigger]
                converts(id, s) && r@ == (CandlestickView { id: Some(s@), ..self@ }),
    {
        let value: String = id.into();
        assert(converts(id, value));
        let mut r = self;
        r.id = Some(value);
        r
    }

    /// Sets the name of the series, as the legend and the tooltip show it.
    pub fn name<S: Into<String>>(self, name: S) -> (r: Self)
        ensures
            exists|s: String| #[trigger]
                converts(name, s) && r@ == (CandlestickView { name: Some(s@), ..self@ }),
    {
        let value: String = name.into();
        assert(converts(name, value));
        let mut r = self;
        r.name = Some(value);
        r
    }

    /// Sets the coordinate system that the series is drawn in. The document has it
    /// under the key `coordiateSystem`, spelled as this method is.
    pub fn coordiate_system<C: Into<CoordinateSystem>>(self, coordiate_system: C) -> (r: Self)
        ensures
            exists|c: CoordinateSystem| #[trigger]
                converts(coordiate_system, c) && r@ == (CandlestickView { coordiate_system: Some(c), ..self@ }),
    {
        let value: CoordinateSystem = coordiate_system.into();
        assert(converts(coordiate_system, value));
        let mut r = self;
        r.coordiate_system = Some(value);
        r
    }

    /// Sets where the series takes its colours from.
    pub fn color_by(self, color_by: ColorBy) -> (r: Self)
        ensures
            r@ == (CandlestickView { color_by: Some(color_by), ..self@ }),
    {
        let mut r = self;
        r.color_by = Some(color_by);
        r
    }

    /// Sets the style of the candles.
    pub fn item_style(self, item_style: CandlestickItemStyle) -> (r: Self)
        ensures
            r@ == (CandlestickView { item_style: Some(item_style@), ..self@ }),
    {
        let mut r = self;
        r.item_style = Some(item_style);
        r
    }

    /// Sets whether the series is highlighted while the pointer is on its legend entry.
    pub fn legend_hover_link(self, legend_hover_link: bool) -> (r: Self)
        ensures
            r@ == (CandlestickView { legend_hover_link: Some(legend_hover_link), ..self@ }),
    {
        let mut r = self;
        r.legend_hover_link = Some(legend_hover_link);
        r
    }

    /// Sets the data of the series: the points that the entries of `data` convert
    /// into, in their order. It replaces the data that was there.
    pub fn data<D: Into<DataPoint>>(self, data: Vec<D>) -> (r: Self)
        ensures
            exists|frame: Seq<DataPoint>|
                {
                    &&& #[trigger] frame.len() == data.len()
                    &&& forall|i: int| 0 <= i < data.len() ==> converts(data@[i], #[trigger] frame[i])
                    &&& r@ == (CandlestickView { data: frame_view(frame), ..self@ })
                },
    {
        let frame = into_frame(data);
        assert(frame@.len() == data.len());
        let mut r = self;
        r.data = frame;
        r
    }

    /// The series as a value of the document.
    pub fn to_json(&self) -> (j: Json)
        ensures
            j@ == self@.wire(),
    {
        let w = RecordWriter::new();
        let w = w.put("type", Some(Json::String(String::from_str("candlestick"))));
        let w = w.put("id", text_json(&self.id));
        let w = w.put("name", text_json(&self.name));
        let w = w.put("coordiateSystem", coordinate_system_json(&self.coordiate_system));
        let w = w.put("colorBy", color_by_json(&self.color_by));
        let w = w.put("itemStyle", candlestick_item_style_json(&self.item_style));
        let w = w.put("legendHoverLink", bool_json(&self.legend_hover_link));
        let w = w.put("data", frame_json(&self.data));
        assert(w.slots() == self@.slots());
        w.finish()
    }
}

impl Default for Candlestick {
    fn default() -> (r: Self)
        ensures
            r@ == CandlestickView::empty(),
    {
        Candlestick::new()
    }
}
} // verus!
