//! The small values that style and series records are made of.

use vstd::prelude::*;
use vstd::string::StringExecFns;
use crate::json::{Json, JsonView};
use crate::number::Number;
use crate::record::{
    distinct_keys, lemma_present_unset, lemma_record_get, optional_view, present, record,
    RecordWriter,
};

verus! {

/// A colour, as the renderer reads it: `"red"`, `"#c23531"`,
/// `"rgba(255, 173, 177, 0.4)"`.
#[derive(Debug, Clone, PartialEq)]
pub enum Color {
    Value(String),
}

/// What a `Color` holds.
pub enum ColorView {
    Value(Seq<char>),
}

impl View for Color {
    type V = ColorView;

    open spec fn view(&self) -> ColorView {
        match self {
            Color::Value(s) => ColorView::Value(s@),
        }
    }
}

impl ColorView {
    /// A colour is written as a string.
    pub open spec fn wire(self) -> JsonView {
        match self {
            ColorView::Value(s) => JsonView::String(s),
        }
    }
}

impl Color {
    /// The colour as a value of the document.
    pub fn to_json(&self) -> (j: Json)
        ensures
            j@ == self@.wire(),
    {
        match self {
            Color::Value(s) => Json::String(s.clone()),
        }
    }
}

impl From<&str> for Color {
    /// A colour from its text.
    fn from(s: &str) -> (c: Color)
        ensures
            c@ == ColorView::Value(s@),
    {
        Color::Value(String::from_str(s))
    }
}

/// No equation is given for this conversion: the contract of `from` states
/// what it returns.
impl vstd::std_specs::convert::FromSpecImpl<&str> for Color {
    open spec fn obeys_from_spec() -> bool {
        false
    }

    open spec fn from_spec(s: &str) -> Color {
        arbitrary()
    }
}

impl From<String> for Color {
    /// A colour from its text.
    fn from(s: String) -> (c: Color)
        ensures
            c == Color::Value(s),
    {
        Color::Value(s)
    }
}

impl vstd::std_specs::convert::FromSpecImpl<String> for Color {
    open spec fn obeys_from_spec() -> bool {
        true
    }

    open spec fn from_spec(s: String) -> Color {
        Color::Value(s)
    }
}

/// How a border is drawn.
#[derive(Debug, Clone, Copy, PartialEq, Eq, Structural)]
pub enum BorderType {
    Solid,
    Dashed,
    Dotted,
}

impl BorderType {
    /// The name that the renderer knows the border type by.
    pub open spec fn name(self) -> Seq<char> {
        match self {
            BorderType::Solid => "solid"@,
            BorderType::Dashed => "dashed"@,
            BorderType::Dotted => "dotted"@,
        }
    }

    /// A border type is written as its name.
    pub open spec fn wire(self) -> JsonView {
        JsonView::String(self.name())
    }

    /// The border type as a value of the document.
    pub fn to_json(&self) -> (j: Json)
        ensures
            j@ == self.wire(),
    {
        match self {
            BorderType::Solid => Json::String(String::from_str("solid")),
            BorderType::Dashed => Json::String(String::from_str("dashed")),
            BorderType::Dotted => Json::String(String::from_str("dotted")),
        }
    }
}

/// Where a series takes its colours from: one for the series, or one for each
/// of its data points.
#[derive(Debug, Clone, Copy, PartialEq, Eq, Structural)]
pub enum ColorBy {
    Series,
    Data,
}

impl ColorBy {
    /// The name that the renderer knows the policy by.
    pub open spec fn name(self) -> Seq<char> {
        match self {
            ColorBy::Series => "series"@,
            ColorBy::Data => "data"@,
        }
    }

    /// A colour policy is written as its name.
    pub open spec fn wire(self) -> JsonView {
        JsonView::String(self.name())
    }

    /// The colour policy as a value of the document.
    pub fn to_json(&self) -> (j: Json)
        ensures
            j@ == self.wire(),
    {
        match self {
            ColorBy::Series => Json::String(String::from_str("series")),
            ColorBy::Data => Json::String(String::from_str("data")),
        }
    }
}

/// The coordinate system that a series is drawn in.
#[derive(Debug, Clone, Copy, PartialEq, Eq, Structural)]
pub enum CoordinateSystem {
    Cartesian2d,
    Polar,
}

impl CoordinateSystem {
    /// The name that the renderer knows the coordinate system by.
    pub open spec fn name(self) -> Seq<char> {
        match self {
            CoordinateSystem::Cartesian2d => "cartesian2d"@,
            CoordinateSystem::Polar => "polar"@,
        }
    }

    /// A coordinate system is written as its name.
    pub open spec fn wire(self) -> JsonView {
        JsonView::String(self.name())
    }

    /// The coordinate system as a value of the document.
    pub fn to_json(&self) -> (j: Json)
        ensures
            j@ == self.wire(),
    {
        match self {
            CoordinateSystem::Cartesian2d => Json::String(String::from_str("cartesian2d")),
            CoordinateSystem::Polar => Json::String(String::from_str("polar")),
        }
    }
}

/// `u` is what the conversion of `t` into the type of `u` gives.
pub open spec fn converts<T: Into<U>, U>(t: T, u: U) -> bool {
    call_ensures(<T as Into<U>>::into, (t,), u)
}

/// The view of an optional colour.
pub open spec fn color_view(c: Option<Color>) -> Option<ColorView> {
    match c {
        Some(c) => Some(c@),
        None => None,
    }
}

/// The view of an optional text.
pub open spec fn text_view(s: Option<String>) -> Option<Seq<char>> {
    match s {
        Some(s) => Some(s@),
        None => None,
    }
}

/// What an optional colour is written as, where it is set.
pub open spec fn color_wire(c: Option<ColorView>) -> Option<JsonView> {
    match c {
        Some(c) => Some(c.wire()),
        None => None,
    }
}

/// What an optional number is written as, where it is set.
pub open spec fn number_wire(n: Option<Number>) -> Option<JsonView> {
    match n {
        Some(n) => Some(JsonView::Number(n)),
        None => None,
    }
}

/// What an optional text is written as, where it is set.
pub open spec fn text_wire(s: Option<Seq<char>>) -> Option<JsonView> {
    match s {
        Some(s) => Some(JsonView::String(s)),
        None => None,
    }
}

/// What an optional flag is written as, where it is set.
pub open spec fn bool_wire(b: Option<bool>) -> Option<JsonView> {
    match b {
        Some(b) => Some(JsonView::Bool(b)),
        None => None,
    }
}

/// What an optional border type is written as, where it is set.
pub open spec fn border_type_wire(b: Option<BorderType>) -> Option<JsonView> {
    match b {
        Some(b) => Some(b.wire()),
        None => None,
    }
}

/// What an optional colour policy is written as, where it is set.
pub open spec fn color_by_wire(c: Option<ColorBy>) -> Option<JsonView> {
    match c {
        Some(c) => Some(c.wire()),
        None => None,
    }
}

/// What an optional coordinate system is written as, where it is set.
pub open spec fn coordinate_system_wire(c: Option<CoordinateSystem>) -> Option<JsonView> {
    match c {
        Some(c) => Some(c.wire()),
        None => None,
    }
}

/// An optional colour as a value of the document.
pub(crate) fn color_json(c: &Option<Color>) -> (j: Option<Json>)
    ensures
        optional_view(j) == color_wire(color_view(*c)),
{
    match c {
        Some(c) => Some(c.to_json()),
        None => None,
    }
}

/// An optional number as a value of the document.
pub(crate) fn number_json(n: &Option<Number>) -> (j: Option<Json>)
    ensures
        optional_view(j) == number_wire(*n),
{
    match n {
        Some(n) => Some(Json::Number(*n)),
        None => None,
    }
}

/// An optional text as a value of the document.
pub(crate) fn text_json(s: &Option<String>) -> (j: Option<Json>)
    ensures
        optional_view(j) == text_wire(text_view(*s)),
{
    match s {
        Some(s) => Some(Json::String(s.clone())),
        None => None,
    }
}

/// An optional flag as a value of the document.
pub(crate) fn bool_json(b: &Option<bool>) -> (j: Option<Json>)
    ensures
        optional_view(j) == bool_wire(*b),
{
    match b {
        Some(b) => Some(Json::Bool(*b)),
        None => None,
    }
}

/// An optional border type as a value of the document.
pub(crate) fn border_type_json(b: &Option<BorderType>) -> (j: Option<Json>)
    ensures
        optional_view(j) == border_type_wire(*b),
{
    match b {
        Some(b) => Some(b.to_json()),
        None => None,
    }
}

/// An optional colour policy as a value of the document.
pub(crate) fn color_by_json(c: &Option<ColorBy>) -> (j: Option<Json>)
    ensures
        optional_view(j) == color_by_wire(*c),
{
    match c {
        Some(c) => Some(c.to_json()),
        None => None,
    }
}

/// An optional coordinate system as a value of the document.
pub(crate) fn coordinate_system_json(c: &Option<CoordinateSystem>) -> (j: Option<Json>)
    ensures
        optional_view(j) == coordinate_system_wire(*c),
{
    match c {
        Some(c) => Some(c.to_json()),
        None => None,
    }
}

/// The style of a data point or of the points of a series. Every field is
/// optional; one that is not set is left to the renderer.
#[derive(Debug, Clone, PartialEq)]
pub struct ItemStyle {
    color: Option<Color>,
    border_color: Option<Color>,
    border_width: Option<Number>,
    border_type: Option<BorderType>,
    opacity: Option<Number>,
}

/// What an `ItemStyle` holds.
pub struct ItemStyleView {
    pub color: Option<ColorView>,
    pub border_color: Option<ColorView>,
    pub border_width: Option<Number>,
    pub border_type: Option<BorderType>,
    pub opacity: Option<Number>,
}

impl View for ItemStyle {
    type V = ItemStyleView;

    closed spec fn view(&self) -> ItemStyleView {
        ItemStyleView {
            color: color_view(self.color),
            border_color: color_view(self.border_color),
            border_width: self.border_width,
            border_type: self.border_type,
            opacity: self.opacity,
        }
    }
}

impl ItemStyleView {
    /// The record with no field set.
    pub open spec fn empty() -> ItemStyleView {
        ItemStyleView {
            color: None,
            border_color: None,
            border_width: None,
            border_type: None,
            opacity: None,
        }
    }

    /// The schema: each key of the document with the field that it is for.
    pub open spec fn slots(self) -> Seq<(Seq<char>, Option<JsonView>)> {
        seq![
            ("color"@, color_wire(self.color)),
            ("borderColor"@, color_wire(self.border_color)),
            ("borderWidth"@, number_wire(self.border_width)),
            ("borderType"@, border_type_wire(self.border_type)),
            ("opacity"@, number_wire(self.opacity)),
        ]
    }

    /// The object that the style is written as.
    pub open spec fn wire(self) -> JsonView {
        record(self.slots())
    }

    /// The keys of the schema differ from one another.
    pub proof fn lemma_distinct_keys(self)
        ensures
            distinct_keys(self.slots()),
    {
        reveal_strlit("color");
        reveal_strlit("borderColor");
        reveal_strlit("borderWidth");
        reveal_strlit("borderType");
        reveal_strlit("opacity");
        let slots = self.slots();
        assert(slots[1].0[6] != slots[2].0[6]);
        assert forall|i: int, j: int| 0 <= i < j < slots.len() implies (#[trigger] slots[i]).0
            != (#[trigger] slots[j]).0 by {
            assert(slots[i].0.len() != slots[j].0.len() || (i == 1 && j == 2));
        }
    }

    /// The written style holds under each key what the field holds: the
    /// value where it is set, and no member where it is not.
    pub proof fn lemma_wire_fields(self)
        ensures
            self.wire().get("color"@) == color_wire(self.color),
            self.wire().get("borderColor"@) == color_wire(self.border_color),
            self.wire().get("borderWidth"@) == number_wire(self.border_width),
            self.wire().get("borderType"@) == border_type_wire(self.border_type),
            self.wire().get("opacity"@) == number_wire(self.opacity),
            self.wire().has("color"@) <==> self.color is Some,
            self.wire().has("borderColor"@) <==> self.border_color is Some,
            self.wire().has("borderWidth"@) <==> self.border_width is Some,
            self.wire().has("borderType"@) <==> self.border_type is Some,
            self.wire().has("opacity"@) <==> self.opacity is Some,
    {
        self.lemma_distinct_keys();
        let slots = self.slots();
        lemma_record_get(slots, 0);
        lemma_record_get(slots, 1);
        lemma_record_get(slots, 2);
        lemma_record_get(slots, 3);
        lemma_record_get(slots, 4);
    }

    /// The style with no field set is written with no member at all.
    pub proof fn lemma_empty_wire()
        ensures
            Self::empty().wire() == JsonView::Object(Seq::empty()),
    {
        let slots = Self::empty().slots();
        lemma_present_unset(slots, 0);
        assert(present(slots.take(0)) == Seq::<(Seq<char>, JsonView)>::empty());
    }
}

impl ItemStyle {
    /// The style with no field set.
    pub fn new() -> (r: Self)
        ensures
            r@ == ItemStyleView::empty(),
    {
        ItemStyle {
            color: None,
            border_color: None,
            border_width: None,
            border_type: None,
            opacity: None,
        }
    }

    /// Sets the fill colour.
    pub fn color<C: Into<Color>>(self, color: C) -> (r: Self)
        ensures
            exists|c: Color| #[trigger]
                converts(color, c) && r@ == (ItemStyleView { color: Some(c@), ..self@ }),
    {
        let value = color.into();
        assert(converts(color, value));
        let mut r = self;
        r.color = Some(value);
        r
    }

    /// Sets the colour of the border.
    pub fn border_color<C: Into<Color>>(self, border_color: C) -> (r: Self)
        ensures
            exists|c: Color| #[trigger]
                converts(border_color, c) && r@ == (ItemStyleView {
                    border_color: Some(c@),
                    ..self@
                }),
    {
        let value = border_color.into();
        assert(converts(border_color, value));
        let mut r = self;
        r.border_color = Some(value);
        r
    }

    /// Sets the width of the border.
    pub fn border_width<N: Into<Number>>(self, border_width: N) -> (r: Self)
        ensures
            exists|n: Number| #[trigger]
                converts(border_width, n) && r@ == (ItemStyleView {
                    border_width: Some(n),
                    ..self@
                }),
    {
        let value = border_width.into();
        assert(converts(border_width, value));
        let mut r = self;
        r.border_width = Some(value);
        r
    }

    /// Sets how the border is drawn.
    pub fn border_type(self, border_type: BorderType) -> (r: Self)
        ensures
            r@ == (ItemStyleView { border_type: Some(border_type), ..self@ }),
    {
        let mut r = self;
        r.border_type = Some(border_type);
        r
    }

    /// Sets the opacity.
    pub fn opacity<N: Into<Number>>(self, opacity: N) -> (r: Self)
        ensures
            exists|n: Number| #[trigger]
                converts(opacity, n) && r@ == (ItemStyleView { opacity: Some(n), ..self@ }),
    {
        let value = opacity.into();
        assert(converts(opacity, value));
        let mut r = self;
        r.opacity = Some(value);
        r
    }

    /// The style as a value of the document.
    pub fn to_json(&self) -> (j: Json)
        ensures
            j@ == self@.wire(),
    {
        let w = RecordWriter::new();
        let w = w.put("color", color_json(&self.color));
        let w = w.put("borderColor", color_json(&self.border_color));
        let w = w.put("borderWidth", number_json(&self.border_width));
        let w = w.put("borderType", border_type_json(&self.border_type));
        let w = w.put("opacity", number_json(&self.opacity));
        assert(w.slots() == self@.slots());
        w.finish()
    }
}

impl Default for ItemStyle {
    fn default() -> (r: Self)
        ensures
            r@ == ItemStyleView::empty(),
    {
        ItemStyle::new()
    }
}

impl From<Color> for ItemStyle {
    /// The style with only the fill colour set.
    fn from(color: Color) -> (r: Self)
        ensures
            r@ == (ItemStyleView { color: Some(color@), ..ItemStyleView::empty() }),
    {
        ItemStyle::new().color(color)
    }
}

/// No equation is given for this conversion: the contract of `from` states
/// what it returns.
impl vstd::std_specs::convert::FromSpecImpl<Color> for ItemStyle {
    open spec fn obeys_from_spec() -> bool {
        false
    }

    open spec fn from_spec(color: Color) -> ItemStyle {
        arbitrary()
    }
}

/// The view of an optional style.
pub open spec fn item_style_view(s: Option<ItemStyle>) -> Option<ItemStyleView> {
    match s {
        Some(s) => Some(s@),
        None => None,
    }
}

/// What an optional style is written as, where it is set.
pub open spec fn item_style_wire(s: Option<ItemStyleView>) -> Option<JsonView> {
    match s {
        Some(s) => Some(s.wire()),
        None => None,
    }
}

/// An optional style as a value of the document.
pub(crate) fn item_style_json(s: &Option<ItemStyle>) -> (j: Option<Json>)
    ensures
        optional_view(j) == item_style_wire(item_style_view(*s)),
{
    match s {
        Some(s) => Some(s.to_json()),
        None => None,
    }
}

} // verus!
