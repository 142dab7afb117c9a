//! The line series.

use vstd::prelude::*;
use vstd::string::StringExecFns;
use crate::datatype::{
    frame_json, frame_view, frame_wire, into_frame, DataFrame, DataPoint, DataPointView,
};
use crate::element::{
    color_by_json, color_by_wire, converts, coordinate_system_json, coordinate_system_wire,
    item_style_json, item_style_view, item_style_wire, number_json, number_wire, text_json,
    text_view, text_wire, ColorBy, CoordinateSystem, ItemStyle, ItemStyleView,
};
use crate::json::{Json, JsonView};
use crate::number::Number;
use crate::record::{
    distinct_keys, lemma_present_unset, lemma_record_get, present, record, RecordWriter,
};

verus! {

/// A line series: its options and its data. The document names its kind
/// `line`.
#[derive(Debug, Clone, PartialEq)]
pub struct Line {
    id: Option<String>,
    name: Option<String>,
    coordinate_system: Option<CoordinateSystem>,
    color_by: Option<ColorBy>,
    smooth: Option<Number>,
    item_style: Option<ItemStyle>,
    data: DataFrame,
}

/// What a `Line` holds.
pub struct LineView {
    pub id: Option<Seq<char>>,
    pub name: Option<Seq<char>>,
    pub coordinate_system: Option<CoordinateSystem>,
    pub color_by: Option<ColorBy>,
    pub smooth: Option<Number>,
    pub item_style: Option<ItemStyleView>,
    pub data: Seq<DataPointView>,
}

impl View for Line {
    type V = LineView;

    closed spec fn view(&self) -> LineView {
        LineView {
            id: text_view(self.id),
            name: text_view(self.name),
            coordinate_system: self.coordinate_system,
            color_by: self.color_by,
            smooth: self.smooth,
            item_style: item_style_view(self.item_style),
            data: frame_view(self.data@),
        }
    }
}

impl LineView {
    /// The series with no field set.
    pub open spec fn empty() -> LineView {
        LineView {
            id: None,
            name: None,
            coordinate_system: None,
            color_by: None,
            smooth: None,
            item_style: None,
            data: Seq::empty(),
        }
    }

    /// The schema: each key of the document with the field that it is for.
    /// The kind of the series comes first and is always there.
    pub open spec fn slots(self) -> Seq<(Seq<char>, Option<JsonView>)> {
        seq![
            ("type"@, Some(JsonView::String("line"@))),
            ("id"@, text_wire(self.id)),
            ("name"@, text_wire(self.name)),
            ("coordinateSystem"@, coordinate_system_wire(self.coordinate_system)),
            ("colorBy"@, color_by_wire(self.color_by)),
            ("smooth"@, number_wire(self.smooth)),
            ("itemStyle"@, item_style_wire(self.item_style)),
            ("data"@, frame_wire(self.data)),
        ]
    }

    /// The object that the series is written as.
    pub open spec fn wire(self) -> JsonView {
        record(self.slots())
    }

    /// The keys of the schema differ from one another.
    pub proof fn lemma_distinct_keys(self)
        ensures
            distinct_keys(self.slots()),
    {
        reveal_strlit("type");
        reveal_strlit("id");
        reveal_strlit("name");
        reveal_strlit("coordinateSystem");
        reveal_strlit("colorBy");
        reveal_strlit("smooth");
        reveal_strlit("itemStyle");
        reveal_strlit("data");
        let slots = self.slots();
        assert(slots[0].0[0] != slots[2].0[0]);
        assert(slots[0].0[0] != slots[7].0[0]);
        assert(slots[2].0[0] != slots[7].0[0]);
        assert forall|i: int, j: int| 0 <= i < j < slots.len() implies (#[trigger] slots[i]).0
            != (#[trigger] slots[j]).0 by {
            assert(slots[i].0.len() != slots[j].0.len()
                || (i == 0 && j == 2)
                || (i == 0 && j == 7)
                || (i == 2 && j == 7));
        }
    }

    /// The written series holds under each key what the field holds: the
    /// value where the field is set, and no member where it is not.
    pub proof fn lemma_wire_fields(self)
        ensures
            self.wire().get("type"@) == Some(JsonView::String("line"@)),
            self.wire().get("id"@) == text_wire(self.id),
            self.wire().get("name"@) == text_wire(self.name),
            self.wire().get("coordinateSystem"@) == coordinate_system_wire(self.coordinate_system),
            self.wire().get("colorBy"@) == color_by_wire(self.color_by),
            self.wire().get("smooth"@) == number_wire(self.smooth),
            self.wire().get("itemStyle"@) == item_style_wire(self.item_style),
            self.wire().get("data"@) == frame_wire(self.data),
            self.wire().has("id"@) <==> self.id is Some,
            self.wire().has("name"@) <==> self.name is Some,
            self.wire().has("coordinateSystem"@) <==> self.coordinate_system is Some,
            self.wire().has("colorBy"@) <==> self.color_by is Some,
            self.wire().has("smooth"@) <==> self.smooth is Some,
            self.wire().has("itemStyle"@) <==> self.item_style is Some,
            self.wire().has("data"@) <==> self.data.len() > 0,
    {
        self.lemma_distinct_keys();
        let slots = self.slots();
        lemma_record_get(slots, 0);
        lemma_record_get(slots, 1);
        lemma_record_get(slots, 2);
        lemma_record_get(slots, 3);
        lemma_record_get(slots, 4);
        lemma_record_get(slots, 5);
        lemma_record_get(slots, 6);
        lemma_record_get(slots, 7);
    }

    /// The series with no field set is written with its kind and nothing else.
    pub proof fn lemma_empty_wire()
        ensures
            Self::empty().wire() == JsonView::Object(
                seq![("type"@, JsonView::String("line"@))],
            ),
    {
        let slots = Self::empty().slots();
        lemma_present_unset(slots, 1);
        let first = slots.take(1);
        assert(first.drop_last() == Seq::<(Seq<char>, Option<JsonView>)>::empty());
        assert(present(first.drop_last()) == Seq::<(Seq<char>, JsonView)>::empty());
        assert(first.last() == slots[0]);
        assert(present(slots.take(1)) == seq![("type"@, JsonView::String("line"@))]);
    }
}

impl Line {
    /// The series with no field set.
    pub fn new() -> (r: Self)
        ensures
            r@ == LineView::empty(),
    {
        let data: DataFrame = Vec::new();
        assert(frame_view(data@) == Seq::<DataPointView>::empty());
        Line {
            id: None,
            name: None,
            coordinate_system: None,
            color_by: None,
            smooth: None,
            item_style: None,
            data,
        }
    }

    /// Sets the id of the series.
    pub fn id<S: Into<String>>(self, id: S) -> (r: Self)
        ensures
            exists|s: String| #[trigger]
                converts(id, s) && r@ == (LineView { id: Some(s@), ..self@ }),
    {
        let value: String = id.into();
        assert(converts(id, value));
        let mut r = self;
        r.id = Some(value);
        r
    }

    /// Sets the name of the series, as the legend and the tooltip show it.
    pub fn name<S: Into<String>>(self, name: S) -> (r: Self)
        ensures
            exists|s: String| #[trigger]
                converts(name, s) && r@ == (LineView { name: Some(s@), ..self@ }),
    {
        let value: String = name.into();
        assert(converts(name, value));
        let mut r = self;
        r.name = Some(value);
        r
    }

    /// Sets the coordinate system that the series is drawn in.
    pub fn coordinate_system<C: Into<CoordinateSystem>>(self, coordinate_system: C) -> (r: Self)
        ensures
            exists|c: CoordinateSystem| #[trigger]
                converts(coordinate_system, c) && r@ == (LineView { coordinate_system: Some(c), ..self@ }),
    {
        let value: CoordinateSystem = coordinate_system.into();
        assert(converts(coordinate_system, value));
        let mut r = self;
        r.coordinate_system = Some(value);
        r
    }

    /// Sets where the series takes its colours from.
    pub fn color_by(self, color_by: ColorBy) -> (r: Self)
        ensures
            r@ == (LineView { color_by: Some(color_by), ..self@ }),
    {
        let mut r = self;
        r.color_by = Some(color_by);
        r
    }

    /// Sets how far the line is smoothed, from 0 for straight segments to 1.
    pub fn smooth<N: Into<Number>>(self, smooth: N) -> (r: Self)
        ensures
            exists|n: Number| #[trigger]
                converts(smooth, n) && r@ == (LineView { smooth: Some(n), ..self@ }),
    {
        let value: Number = smooth.into();
        assert(converts(smooth, value));
        let mut r = self;
        r.smooth = Some(value);
        r
    }

    /// Sets the style of the points.
    pub fn item_style(self, item_style: ItemStyle) -> (r: Self)
        ensures
            r@ == (LineView { item_style: Some(item_style@), ..self@ }),
    {
        let mut r = self;
        r.item_style = Some(item_style);
        r
    }

    /// Sets the data of the series: the points that the entries of `data` convert
    /// into, in their order. It replaces the data that was there.
    pub fn data<D: Into<DataPoint>>(self, data: Vec<D>) -> (r: Self)
        ensures
            exists|frame: Seq<DataPoint>|
                {
                    &&& #[trigger] frame.len() == data.len()
                    &&& forall|i: int| 0 <= i < data.len() ==> converts(data@[i], #[trigger] frame[i])
                    &&& r@ == (LineView { data: frame_view(frame), ..self@ })
                },
    {
        let frame = into_frame(data);
        assert(frame@.len() == data.len());
        let mut r = self;
        r.data = frame;
        r
    }

    /// The series as a value of the document.
    pub fn to_json(&self) -> (j: Json)
        ensures
            j@ == self@.wire(),
    {
        let w = RecordWriter::new();
        let w = w.put("type", Some(Json::String(String::from_str("line"))));
        let w = w.put("id", text_json(&self.id));
        let w = w.put("name", text_json(&self.name));
        let w = w.put("coordinateSystem", coordinate_system_json(&self.coordinate_system));
        let w = w.put("colorBy", color_by_json(&self.color_by));
        let w = w.put("smooth", number_json(&self.smooth));
        let w = w.put("itemStyle", item_style_json(&self.item_style));
        let w = w.put("data", frame_json(&self.data));
        assert(w.slots() == self@.slots());
        w.finish()
    }
}

impl Default for Line {
    fn default() -> (r: Self)
        ensures
            r@ == LineView::empty(),
    {
        Line::new()
    }
}
} // verus!
