//! The chart: the root of the document.

use vstd::prelude::*;
use crate::component::{title_json, title_view, title_wire, Title, TitleView};
use crate::element::converts;
use crate::json::{items_view, text, Json, JsonView};
use crate::record::{distinct_keys, lemma_record_get, optional_view, record, RecordWriter};
use crate::series::{Series, SeriesView};

verus! {

/// A chart: the parts that its series share, and its series in the order in
/// which they were added. That order is the order in which they are drawn and
/// listed in the legend.
#[derive(Debug, Clone, PartialEq)]
pub struct Chart {
    title: Option<Title>,
    series: Vec<Series>,
}

/// What a `Chart` holds.
pub struct ChartView {
    pub title: Option<TitleView>,
    pub series: Seq<SeriesView>,
}

/// The views of the series of a chart, in order.
pub open spec fn series_view(series: Seq<Series>) -> Seq<SeriesView> {
    series.map_values(|s: Series| s@)
}

/// What the series of a chart are written as, in order.
pub open spec fn series_items(series: Seq<SeriesView>) -> Seq<JsonView> {
    series.map_values(|s: SeriesView| s.wire())
}

/// What the series are written as where they stand in the chart: their list,
/// and nothing at all where the chart has no series.
pub open spec fn series_wire(series: Seq<SeriesView>) -> Option<JsonView> {
    if series.len() == 0 {
        None
    } else {
        Some(JsonView::Array(series_items(series)))
    }
}

impl View for Chart {
    type V = ChartView;

    closed spec fn view(&self) -> ChartView {
        ChartView { title: title_view(self.title), series: series_view(self.series@) }
    }
}

impl ChartView {
    /// The chart with no title and no series.
    pub open spec fn empty() -> ChartView {
        ChartView { title: None, series: Seq::empty() }
    }

    /// The schema: each key of the document with the part that it is for.
    pub open spec fn slots(self) -> Seq<(Seq<char>, Option<JsonView>)> {
        seq![("title"@, title_wire(self.title)), ("series"@, series_wire(self.series))]
    }

    /// The object that the chart is written as.
    pub open spec fn wire(self) -> JsonView {
        record(self.slots())
    }

    /// The text of the document that the chart is written as.
    pub open spec fn text(self) -> Seq<char> {
        text(self.wire())
    }

    /// The keys of the schema differ from one another.
    pub proof fn lemma_distinct_keys(self)
        ensures
            distinct_keys(self.slots()),
    {
        reveal_strlit("title");
        reveal_strlit("series");
        let slots = self.slots();
        assert(slots[0].0.len() != slots[1].0.len());
    }

    /// The written chart holds under each key what the part holds: the value
    /// where it is set, and no member where it is not.
    pub proof fn lemma_wire_fields(self)
        ensures
            self.wire().get("title"@) == title_wire(self.title),
            self.wire().get("series"@) == series_wire(self.series),
            self.wire().has("title"@) <==> self.title is Some,
            self.wire().has("series"@) <==> self.series.len() > 0,
    {
        self.lemma_distinct_keys();
        let slots = self.slots();
        lemma_record_get(slots, 0);
        lemma_record_get(slots, 1);
    }

    /// The written chart lists its series in the order in which the chart
    /// holds them: as many entries as series, and at each place the series of
    /// that place.
    pub proof fn lemma_series_order(self)
        requires
            self.series.len() > 0,
        ensures
            self.wire().get("series"@) == Some(JsonView::Array(series_items(self.series))),
            series_items(self.series).len() == self.series.len(),
            forall|i: int|
                0 <= i < self.series.len() ==> #[trigger] series_items(self.series)[i]
                    == self.series[i].wire(),
    {
        self.lemma_wire_fields();
    }
}

/// A series added behind the others is written behind the others, and they
/// are written as before.
pub proof fn lemma_series_appends(series: Seq<SeriesView>, added: SeriesView)
    ensures
        series_items(series.push(added)) == series_items(series).push(added.wire()),
        series_wire(series.push(added)) == Some(
            JsonView::Array(series_items(series).push(added.wire())),
        ),
{
    assert(series_items(series.push(added)) == series_items(series).push(added.wire()));
}

impl Chart {
    /// The chart with no title and no series.
    pub fn new() -> (r: Self)
        ensures
            r@ == ChartView::empty(),
    {
        let series: Vec<Series> = Vec::new();
        assert(series_view(series@) == Seq::<SeriesView>::empty());
        Chart { title: None, series }
    }

    /// Sets the title.
    pub fn title(self, title: Title) -> (r: Self)
        ensures
            r@ == (ChartView { title: Some(title@), ..self@ }),
    {
        let mut r = self;
        r.title = Some(title);
        r
    }

    /// Adds a series behind those that the chart holds.
    pub fn series<S: Into<Series>>(self, series: S) -> (r: Self)
        ensures
            exists|s: Series| #[trigger]
                converts(series, s) && r@ == (ChartView {
                    series: self@.series.push(s@),
                    ..self@
                }),
    {
        let value: Series = series.into();
        assert(converts(series, value));
        let mut r = self;
        let ghost before = r.series@;
        r.series.push(value);
        assert(series_view(r.series@) == series_view(before).push(value@));
        r
    }

    /// The chart as a value of the document.
    pub fn to_json(&self) -> (j: Json)
        ensures
            j@ == self@.wire(),
    {
        let w = RecordWriter::new();
        let w = w.put("title", title_json(&self.title));
        let w = w.put("series", self.series_json());
        assert(w.slots() == self@.slots());
        w.finish()
    }

    /// The text of the document that the chart is written as.
    pub fn to_text(&self) -> (r: String)
        ensures
            r@ == self@.text(),
    {
        self.to_json().to_text()
    }

    fn series_json(&self) -> (j: Option<Json>)
        ensures
            optional_view(j) == series_wire(self@.series),
    {
        if self.series.len() == 0 {
            return None;
        }
        let mut items: Vec<Json> = Vec::new();
        let mut i: usize = 0;
        while i < self.series.len()
            invariant
                i <= self.series.len(),
                items.len() == i,
                forall|k: int| 0 <= k < i ==> (#[trigger] items@[k])@ == self.series@[k]@.wire(),
            decreases self.series.len() - i,
        {
            items.push(self.series[i].to_json());
            i = i + 1;
        }
        assert(items_view(items@) == series_items(series_view(self.series@)));
        Some(Json::Array(items))
    }
}

impl Default for Chart {
    fn default() -> (r: Self)
        ensures
            r@ == ChartView::empty(),
    {
        Chart::new()
    }
}

} // verus!
