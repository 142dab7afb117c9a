//! The data of a series: values, data points, and frames of them.

use vstd::prelude::*;
use vstd::string::StringExecFns;
use crate::element::{
    converts, item_style_json, item_style_view, item_style_wire, text_json, text_view, text_wire,
    ItemStyle, ItemStyleView,
};
use crate::json::{items_view, Json, JsonView};
use crate::number::Number;
use crate::record::{distinct_keys, lemma_record_get, optional_view, record, RecordWriter};

verus! {

/// One value of a series: a number, a text, a marker for a missing value, or
/// an ordered pair of values such as `x` and `y`.
#[derive(Debug, PartialEq)]
pub enum Value {
    Number(Number),
    String(String),
    Null,
    Pair(Box<Value>, Box<Value>),
}

/// What a `Value` holds.
pub enum ValueView {
    Number(Number),
    String(Seq<char>),
    Null,
    Pair(Box<ValueView>, Box<ValueView>),
}

/// The view of a value.
pub open spec fn value_view(v: Value) -> ValueView
    decreases v,
{
    match v {
        Value::Number(n) => ValueView::Number(n),
        Value::String(s) => ValueView::String(s@),
        Value::Null => ValueView::Null,
        Value::Pair(a, b) => ValueView::Pair(Box::new(value_view(*a)), Box::new(value_view(*b))),
    }
}

impl View for Value {
    type V = ValueView;

    open spec fn view(&self) -> ValueView {
        value_view(*self)
    }
}

impl ValueView {
    /// What the value is written as: a number, a string, `null`, or for a
    /// pair the list of its two parts, first part first.
    pub open spec fn wire(self) -> JsonView
        decreases self,
    {
        match self {
            ValueView::Number(n) => JsonView::Number(n),
            ValueView::String(s) => JsonView::String(s),
            ValueView::Null => JsonView::Null,
            ValueView::Pair(a, b) => JsonView::Array(seq![(*a).wire(), (*b).wire()]),
        }
    }
}

impl Clone for Value {
    fn clone(&self) -> (r: Self)
        ensures
            r@ == self@,
        decreases self,
    {
        match self {
            Value::Number(n) => Value::Number(*n),
            Value::String(s) => Value::String(s.clone()),
            Value::Null => Value::Null,
            Value::Pair(a, b) => Value::Pair(Box::new((&**a).clone()), Box::new((&**b).clone())),
        }
    }
}

impl Value {
    /// The ordered pair of `first` and `second`.
    pub fn pair<A: Into<Value>, B: Into<Value>>(first: A, second: B) -> (r: Value)
        ensures
            exists|a: Value, b: Value|
                #![trigger converts(first, a), converts(second, b)]
                converts(first, a) && converts(second, b) && r == Value::Pair(
                    Box::new(a),
                    Box::new(b),
                ),
    {
        let a: Value = first.into();
        let b: Value = second.into();
        assert(converts(first, a) && converts(second, b));
        Value::Pair(Box::new(a), Box::new(b))
    }

    /// The value as a value of the document.
    pub fn to_json(&self) -> (j: Json)
        ensures
            j@ == self@.wire(),
        decreases self,
    {
        match self {
            Value::Number(n) => Json::Number(*n),
            Value::String(s) => Json::String(s.clone()),
            Value::Null => Json::Null,
            Value::Pair(a, b) => {
                let mut items: Vec<Json> = Vec::new();
                items.push(a.to_json());
                items.push(b.to_json());
                assert(items_view(items@) == seq![a@.wire(), b@.wire()]);
                Json::Array(items)
            },
        }
    }
}

impl From<Number> for Value {
    fn from(n: Number) -> (r: Value)
        ensures
            r == Value::Number(n),
    {
        Value::Number(n)
    }
}

impl vstd::std_specs::convert::FromSpecImpl<Number> for Value {
    open spec fn obeys_from_spec() -> bool {
        true
    }

    open spec fn from_spec(n: Number) -> Value {
        Value::Number(n)
    }
}

impl From<i32> for Value {
    fn from(n: i32) -> (r: Value)
        ensures
            r == Value::Number(Number { mantissa: n as i64, exponent: 0 }),
    {
        Value::Number(Number { mantissa: n as i64, exponent: 0 })
    }
}

impl vstd::std_specs::convert::FromSpecImpl<i32> for Value {
    open spec fn obeys_from_spec() -> bool {
        true
    }

    open spec fn from_spec(n: i32) -> Value {
        Value::Number(Number { mantissa: n as i64, exponent: 0 })
    }
}

impl From<i64> for Value {
    fn from(n: i64) -> (r: Value)
        ensures
            r == Value::Number(Number { mantissa: n, exponent: 0 }),
    {
        Value::Number(Number { mantissa: n, exponent: 0 })
    }
}

impl vstd::std_specs::convert::FromSpecImpl<i64> for Value {
    open spec fn obeys_from_spec() -> bool {
        true
    }

    open spec fn from_spec(n: i64) -> Value {
        Value::Number(Number { mantissa: n, exponent: 0 })
    }
}

impl From<&str> for Value {
    fn from(s: &str) -> (r: Value)
        ensures
            r@ == ValueView::String(s@),
    {
        Value::String(String::from_str(s))
    }
}

/// No equation is given for this conversion: the contract of `from` states
/// what it returns.
impl vstd::std_specs::convert::FromSpecImpl<&str> for Value {
    open spec fn obeys_from_spec() -> bool {
        false
    }

    open spec fn from_spec(s: &str) -> Value {
        arbitrary()
    }
}

impl From<String> for Value {
    fn from(s: String) -> (r: Value)
        ensures
            r == Value::String(s),
    {
        Value::String(s)
    }
}

impl vstd::std_specs::convert::FromSpecImpl<String> for Value {
    open spec fn obeys_from_spec() -> bool {
        true
    }

    open spec fn from_spec(s: String) -> Value {
        Value::String(s)
    }
}

impl<A: Into<Value>, B: Into<Value>> From<(A, B)> for Value {
    fn from(pair: (A, B)) -> (r: Value)
        ensures
            exists|a: Value, b: Value|
                #![trigger converts(pair.0, a), converts(pair.1, b)]
                converts(pair.0, a) && converts(pair.1, b) && r == Value::Pair(
                    Box::new(a),
                    Box::new(b),
                ),
    {
        Value::pair(pair.0, pair.1)
    }
}

/// No equation is given for this conversion: the contract of `from` states
/// what it returns.
impl<A: Into<Value>, B: Into<Value>> vstd::std_specs::convert::FromSpecImpl<(A, B)> for Value {
    open spec fn obeys_from_spec() -> bool {
        false
    }

    open spec fn from_spec(pair: (A, B)) -> Value {
        arbitrary()
    }
}

/// A data point with a name or a style of its own.
#[derive(Debug, Clone, PartialEq)]
pub struct DataPointItem {
    value: Value,
    name: Option<String>,
    item_style: Option<ItemStyle>,
}

/// What a `DataPointItem` holds.
pub struct DataPointItemView {
    pub value: ValueView,
    pub name: Option<Seq<char>>,
    pub item_style: Option<ItemStyleView>,
}

impl View for DataPointItem {
    type V = DataPointItemView;

    closed spec fn view(&self) -> DataPointItemView {
        DataPointItemView {
            value: self.value@,
            name: text_view(self.name),
            item_style: item_style_view(self.item_style),
        }
    }
}

impl DataPointItemView {
    /// The schema: each key of the document with the field that it is for.
    /// The value is always there.
    pub open spec fn slots(self) -> Seq<(Seq<char>, Option<JsonView>)> {
        seq![
            ("value"@, Some(self.value.wire())),
            ("name"@, text_wire(self.name)),
            ("itemStyle"@, item_style_wire(self.item_style)),
        ]
    }

    /// The object that the item is written as.
    pub open spec fn wire(self) -> JsonView {
        record(self.slots())
    }

    /// The keys of the schema differ from one another.
    pub proof fn lemma_distinct_keys(self)
        ensures
            distinct_keys(self.slots()),
    {
        reveal_strlit("value");
        reveal_strlit("name");
        reveal_strlit("itemStyle");
        let slots = self.slots();
        assert forall|i: int, j: int| 0 <= i < j < slots.len() implies (#[trigger] slots[i]).0
            != (#[trigger] slots[j]).0 by {
            assert(slots[i].0.len() != slots[j].0.len());
        }
    }

    /// The written item holds under each key what the field holds: the value
    /// where it is set, and no member where it is not.
    pub proof fn lemma_wire_fields(self)
        ensures
            self.wire().get("value"@) == Some(self.value.wire()),
            self.wire().get("name"@) == text_wire(self.name),
            self.wire().get("itemStyle"@) == item_style_wire(self.item_style),
            self.wire().has("value"@),
            self.wire().has("name"@) <==> self.name is Some,
            self.wire().has("itemStyle"@) <==> self.item_style is Some,
    {
        self.lemma_distinct_keys();
        let slots = self.slots();
        lemma_record_get(slots, 0);
        lemma_record_get(slots, 1);
        lemma_record_get(slots, 2);
    }
}

impl DataPointItem {
    /// An item that holds `value`, with no name and no style.
    pub fn new<V: Into<Value>>(value: V) -> (r: Self)
        ensures
            exists|v: Value| #[trigger]
                converts(value, v) && r@ == (DataPointItemView {
                    value: v@,
                    name: None,
                    item_style: None,
                }),
    {
        let v: Value = value.into();
        assert(converts(value, v));
        DataPointItem { value: v, name: None, item_style: None }
    }

    /// Sets the name of the point.
    pub fn name<S: Into<String>>(self, name: S) -> (r: Self)
        ensures
            exists|s: String| #[trigger]
                converts(name, s) && r@ == (DataPointItemView { name: Some(s@), ..self@ }),
    {
        let value: String = name.into();
        assert(converts(name, value));
        let mut r = self;
        r.name = Some(value);
        r
    }

    /// Sets the style of the point.
    pub fn item_style(self, item_style: ItemStyle) -> (r: Self)
        ensures
            r@ == (DataPointItemView { item_style: Some(item_style@), ..self@ }),
    {
        let mut r = self;
        r.item_style = Some(item_style);
        r
    }

    /// The item as a value of the document.
    pub fn to_json(&self) -> (j: Json)
        ensures
            j@ == self@.wire(),
    {
        let w = RecordWriter::new();
        let w = w.put("value", Some(self.value.to_json()));
        let w = w.put("name", text_json(&self.name));
        let w = w.put("itemStyle", item_style_json(&self.item_style));
        assert(w.slots() == self@.slots());
        w.finish()
    }
}

/// One entry of a series' data: a value, an item, or a candle of four numbers
/// in the order open, close, lowest, highest.
#[derive(Debug, Clone, PartialEq)]
pub enum DataPoint {
    Value(Value),
    Item(DataPointItem),
    Candle(Number, Number, Number, Number),
}

/// What a `DataPoint` holds.
pub enum DataPointView {
    Value(ValueView),
    Item(DataPointItemView),
    Candle(Number, Number, Number, Number),
}

impl View for DataPoint {
    type V = DataPointView;

    open spec fn view(&self) -> DataPointView {
        match self {
            DataPoint::Value(v) => DataPointView::Value(v@),
            DataPoint::Item(i) => DataPointView::Item(i@),
            DataPoint::Candle(open, close, low, high) => DataPointView::Candle(
                *open,
                *close,
                *low,
                *high,
            ),
        }
    }
}

impl DataPointView {
    /// What the point is written as: a value as itself, an item as its
    /// object, a candle as the list of its four numbers in their order.
    pub open spec fn wire(self) -> JsonView {
        match self {
            DataPointView::Value(v) => v.wire(),
            DataPointView::Item(i) => i.wire(),
            DataPointView::Candle(open, close, low, high) => JsonView::Array(
                seq![
                    JsonView::Number(open),
                    JsonView::Number(close),
                    JsonView::Number(low),
                    JsonView::Number(high),
                ],
            ),
        }
    }
}

impl DataPoint {
    /// The candle of four numbers, in the order open, close, lowest, highest.
    pub fn candle<N: Into<Number>>(open: N, close: N, low: N, high: N) -> (r: DataPoint)
        ensures
            exists|o: Number, c: Number, l: Number, h: Number|
                #![trigger converts(open, o), converts(close, c), converts(low, l), converts(high, h)]
                converts(open, o) && converts(close, c) && converts(low, l) && converts(high, h)
                    && r == DataPoint::Candle(o, c, l, h),
    {
        let o: Number = open.into();
        let c: Number = close.into();
        let l: Number = low.into();
        let h: Number = high.into();
        assert(converts(open, o) && converts(close, c) && converts(low, l) && converts(high, h));
        DataPoint::Candle(o, c, l, h)
    }

    /// The point as a value of the document.
    pub fn to_json(&self) -> (j: Json)
        ensures
            j@ == self@.wire(),
    {
        match self {
            DataPoint::Value(v) => v.to_json(),
            DataPoint::Item(i) => i.to_json(),
            DataPoint::Candle(open, close, low, high) => {
                let mut items: Vec<Json> = Vec::new();
                items.push(Json::Number(*open));
                items.push(Json::Number(*close));
                items.push(Json::Number(*low));
                items.push(Json::Number(*high));
                assert(items_view(items@) == seq![
                    JsonView::Number(*open),
                    JsonView::Number(*close),
                    JsonView::Number(*low),
                    JsonView::Number(*high),
                ]);
                Json::Array(items)
            },
        }
    }
}

impl From<Value> for DataPoint {
    fn from(v: Value) -> (r: DataPoint)
        ensures
            r == DataPoint::Value(v),
    {
        DataPoint::Value(v)
    }
}

impl vstd::std_specs::convert::FromSpecImpl<Value> for DataPoint {
    open spec fn obeys_from_spec() -> bool {
        true
    }

    open spec fn from_spec(v: Value) -> DataPoint {
        DataPoint::Value(v)
    }
}

impl From<DataPointItem> for DataPoint {
    fn from(item: DataPointItem) -> (r: DataPoint)
        ensures
            r == DataPoint::Item(item),
    {
        DataPoint::Item(item)
    }
}

impl vstd::std_specs::convert::FromSpecImpl<DataPointItem> for DataPoint {
    open spec fn obeys_from_spec() -> bool {
        true
    }

    open spec fn from_spec(item: DataPointItem) -> DataPoint {
        DataPoint::Item(item)
    }
}

impl From<Number> for DataPoint {
    fn from(n: Number) -> (r: DataPoint)
        ensures
            r == DataPoint::Value(Value::Number(n)),
    {
        DataPoint::Value(Value::Number(n))
    }
}

impl vstd::std_specs::convert::FromSpecImpl<Number> for DataPoint {
    open spec fn obeys_from_spec() -> bool {
        true
    }

    open spec fn from_spec(n: Number) -> DataPoint {
        DataPoint::Value(Value::Number(n))
    }
}

impl From<i32> for DataPoint {
    fn from(n: i32) -> (r: DataPoint)
        ensures
            r == DataPoint::Value(Value::Number(Number { mantissa: n as i64, exponent: 0 })),
    {
        DataPoint::Value(Value::Number(Number { mantissa: n as i64, exponent: 0 }))
    }
}

impl vstd::std_specs::convert::FromSpecImpl<i32> for DataPoint {
    open spec fn obeys_from_spec() -> bool {
        true
    }

    open spec fn from_spec(n: i32) -> DataPoint {
        DataPoint::Value(Value::Number(Number { mantissa: n as i64, exponent: 0 }))
    }
}

impl From<i64> for DataPoint {
    fn from(n: i64) -> (r: DataPoint)
        ensures
            r == DataPoint::Value(Value::Number(Number { mantissa: n, exponent: 0 })),
    {
        DataPoint::Value(Value::Number(Number { mantissa: n, exponent: 0 }))
    }
}

impl vstd::std_specs::convert::FromSpecImpl<i64> for DataPoint {
    open spec fn obeys_from_spec() -> bool {
        true
    }

    open spec fn from_spec(n: i64) -> DataPoint {
        DataPoint::Value(Value::Number(Number { mantissa: n, exponent: 0 }))
    }
}

impl From<&str> for DataPoint {
    fn from(s: &str) -> (r: DataPoint)
        ensures
            r@ == DataPointView::Value(ValueView::String(s@)),
    {
        DataPoint::Value(Value::String(String::from_str(s)))
    }
}

/// No equation is given for this conversion: the contract of `from` states
/// what it returns.
impl vstd::std_specs::convert::FromSpecImpl<&str> for DataPoint {
    open spec fn obeys_from_spec() -> bool {
        false
    }

    open spec fn from_spec(s: &str) -> DataPoint {
        arbitrary()
    }
}

impl From<String> for DataPoint {
    fn from(s: String) -> (r: DataPoint)
        ensures
            r == DataPoint::Value(Value::String(s)),
    {
        DataPoint::Value(Value::String(s))
    }
}

impl vstd::std_specs::convert::FromSpecImpl<String> for DataPoint {
    open spec fn obeys_from_spec() -> bool {
        true
    }

    open spec fn from_spec(s: String) -> DataPoint {
        DataPoint::Value(Value::String(s))
    }
}

impl<A: Into<Value>, B: Into<Value>> From<(A, B)> for DataPoint {
    fn from(pair: (A, B)) -> (r: DataPoint)
        ensures
            exists|a: Value, b: Value|
                #![trigger converts(pair.0, a), converts(pair.1, b)]
                converts(pair.0, a) && converts(pair.1, b) && r == DataPoint::Value(
                    Value::Pair(Box::new(a), Box::new(b)),
                ),
    {
        DataPoint::Value(Value::pair(pair.0, pair.1))
    }
}

/// No equation is given for this conversion: the contract of `from` states
/// what it returns.
impl<A: Into<Value>, B: Into<Value>> vstd::std_specs::convert::FromSpecImpl<(A, B)> for DataPoint {
    open spec fn obeys_from_spec() -> bool {
        false
    }

    open spec fn from_spec(pair: (A, B)) -> DataPoint {
        arbitrary()
    }
}

impl<N: Into<Number>> From<(N, N, N, N)> for DataPoint {
    fn from(candle: (N, N, N, N)) -> (r: DataPoint)
        ensures
            exists|o: Number, c: Number, l: Number, h: Number|
                #![trigger converts(candle.0, o), converts(candle.1, c), converts(candle.2, l), converts(candle.3, h)]
                converts(candle.0, o) && converts(candle.1, c) && converts(candle.2, l)
                    && converts(candle.3, h) && r == DataPoint::Candle(o, c, l, h),
    {
        DataPoint::candle(candle.0, candle.1, candle.2, candle.3)
    }
}

/// No equation is given for this conversion: the contract of `from` states
/// what it returns.
impl<N: Into<Number>> vstd::std_specs::convert::FromSpecImpl<(N, N, N, N)> for DataPoint {
    open spec fn obeys_from_spec() -> bool {
        false
    }

    open spec fn from_spec(candle: (N, N, N, N)) -> DataPoint {
        arbitrary()
    }
}

/// The data of one series: its points in order. The order is the order along
/// the axis for a series that gives no coordinates.
pub type DataFrame = Vec<DataPoint>;

/// The views of the points of a frame, in order.
pub open spec fn frame_view(points: Seq<DataPoint>) -> Seq<DataPointView> {
    points.map_values(|p: DataPoint| p@)
}

/// What the points of a frame are written as, in order.
pub open spec fn frame_items(points: Seq<DataPointView>) -> Seq<JsonView> {
    points.map_values(|p: DataPointView| p.wire())
}

/// What a frame is written as where it stands in a record: the list of its
/// points, and nothing at all where it has no point.
pub open spec fn frame_wire(points: Seq<DataPointView>) -> Option<JsonView> {
    if points.len() == 0 {
        None
    } else {
        Some(JsonView::Array(frame_items(points)))
    }
}

/// A written frame has as many entries as the frame has points, and the
/// entry at each place is the point at that place.
pub proof fn lemma_frame_order(points: Seq<DataPointView>)
    ensures
        frame_items(points).len() == points.len(),
        forall|i: int| 0 <= i < points.len() ==> #[trigger] frame_items(points)[i] == points[i].wire(),
        frame_wire(points) is None <==> points.len() == 0,
{
}

/// A frame as a value of the document, where it has a point.
pub fn frame_json(frame: &Vec<DataPoint>) -> (j: Option<Json>)
    ensures
        optional_view(j) == frame_wire(frame_view(frame@)),
{
    if frame.len() == 0 {
        return None;
    }
    let mut items: Vec<Json> = Vec::new();
    let mut i: usize = 0;
    while i < frame.len()
        invariant
            i <= frame.len(),
            items.len() == i,
            forall|k: int| 0 <= k < i ==> (#[trigger] items@[k])@ == frame@[k]@.wire(),
        decreases frame.len() - i,
    {
        items.push(frame[i].to_json());
        i = i + 1;
    }
    assert(items_view(items@) == frame_items(frame_view(frame@)));
    Some(Json::Array(items))
}

/// The frame of the points that the entries of `data` convert into, in the
/// order of `data`.
pub fn into_frame<D: Into<DataPoint>>(data: Vec<D>) -> (frame: Vec<DataPoint>)
    ensures
        frame.len() == data.len(),
        forall|i: int| 0 <= i < data.len() ==> converts(data@[i], #[trigger] frame@[i]),
{
    let ghost entries = data@;
    let mut frame: Vec<DataPoint> = Vec::new();
    for d in it: data
        invariant
            it.seq() == entries,
            frame.len() == it.index(),
            forall|i: int| 0 <= i < frame.len() ==> converts(entries[i], #[trigger] frame@[i]),
    {
        let point: DataPoint = d.into();
        assert(converts(d, point));
        frame.push(point);
    }
    frame
}

} // verus!
