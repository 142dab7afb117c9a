//! The kinds of series that a chart can hold.

use vstd::prelude::*;
use crate::json::{Json, JsonView};
use crate::series::candlestick::{Candlestick, CandlestickView};
use crate::series::line::{Line, LineView};

pub mod candlestick;
pub mod line;

verus! {

/// One series of a chart, of one of the kinds that the library knows.
#[derive(Debug, Clone, PartialEq)]
pub enum Series {
    Line(Line),
    Candlestick(Candlestick),
}

/// What a `Series` holds.
pub enum SeriesView {
    Line(LineView),
    Candlestick(CandlestickView),
}

impl View for Series {
    type V = SeriesView;

    open spec fn view(&self) -> SeriesView {
        match self {
            Series::Line(line) => SeriesView::Line(line@),
            Series::Candlestick(candlestick) => SeriesView::Candlestick(candlestick@),
        }
    }
}

impl SeriesView {
    /// The name that the document gives the kind of the series.
    pub open spec fn kind(self) -> Seq<char> {
        match self {
            SeriesView::Line(_) => "line"@,
            SeriesView::Candlestick(_) => "candlestick"@,
        }
    }

    /// A series is written as the record of its kind.
    pub open spec fn wire(self) -> JsonView {
        match self {
            SeriesView::Line(line) => line.wire(),
            SeriesView::Candlestick(candlestick) => candlestick.wire(),
        }
    }

    /// Every written series names its kind under the key `type`.
    pub proof fn lemma_wire_kind(self)
        ensures
            self.wire().get("type"@) == Some(JsonView::String(self.kind())),
    {
        match self {
            SeriesView::Line(line) => line.lemma_wire_fields(),
            SeriesView::Candlestick(candlestick) => candlestick.lemma_wire_fields(),
        }
    }
}

impl Series {
    /// The series as a value of the document.
    pub fn to_json(&self) -> (j: Json)
        ensures
            j@ == self@.wire(),
    {
        match self {
            Series::Line(line) => line.to_json(),
            Series::Candlestick(candlestick) => candlestick.to_json(),
        }
    }
}

impl From<Line> for Series {
    fn from(line: Line) -> (r: Series)
        ensures
            r == Series::Line(line),
    {
        Series::Line(line)
    }
}

impl vstd::std_specs::convert::FromSpecImpl<Line> for Series {
    open spec fn obeys_from_spec() -> bool {
        true
    }

    open spec fn from_spec(line: Line) -> Series {
        Series::Line(line)
    }
}

impl From<Candlestick> for Series {
    fn from(candlestick: Candlestick) -> (r: Series)
        ensures
            r == Series::Candlestick(candlestick),
    {
        Series::Candlestick(candlestick)
    }
}

impl vstd::std_specs::convert::FromSpecImpl<Candlestick> for Series {
    open spec fn obeys_from_spec() -> bool {
        true
    }

    open spec fn from_spec(candlestick: Candlestick) -> Series {
        Series::Candlestick(candlestick)
    }
}

} // verus!
