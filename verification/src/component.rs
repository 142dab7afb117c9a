//! The parts of a chart that its series share.

use vstd::prelude::*;
use crate::element::{converts, text_json, text_view, text_wire};
use crate::json::{Json, JsonView};
use crate::record::{
    distinct_keys, lemma_present_unset, lemma_record_get, optional_view, present, record,
    RecordWriter,
};

verus! {

/// The title of a chart.
#[derive(Debug, Clone, PartialEq)]
pub struct Title {
    text: Option<String>,
    subtext: Option<String>,
}

/// What a `Title` holds.
pub struct TitleView {
    pub text: Option<Seq<char>>,
    pub subtext: Option<Seq<char>>,
}

impl View for Title {
    type V = TitleView;

    closed spec fn view(&self) -> TitleView {
        TitleView {
            text: text_view(self.text),
            subtext: text_view(self.subtext),
        }
    }
}

impl TitleView {
    /// The title with no field set.
    pub open spec fn empty() -> TitleView {
        TitleView {
            text: None,
            subtext: None,
        }
    }

    /// The schema: each key of the document with the field that it is for.
    pub open spec fn slots(self) -> Seq<(Seq<char>, Option<JsonView>)> {
        seq![
            ("text"@, text_wire(self.text)),
            ("subtext"@, text_wire(self.subtext)),
        ]
    }

    /// The object that the title is written as.
    pub open spec fn wire(self) -> JsonView {
        record(self.slots())
    }

    /// The keys of the schema differ from one another.
    pub proof fn lemma_distinct_keys(self)
        ensures
            distinct_keys(self.slots()),
    {
        reveal_strlit("text");
        reveal_strlit("subtext");
        let slots = self.slots();
        assert forall|i: int, j: int| 0 <= i < j < slots.len() implies (#[trigger] slots[i]).0
            != (#[trigger] slots[j]).0 by {
            assert(slots[i].0.len() != slots[j].0.len());
        }
    }

    /// The written title holds under each key what the field holds: the
    /// value where the field is set, and no member where it is not.
    pub proof fn lemma_wire_fields(self)
        ensures
            self.wire().get("text"@) == text_wire(self.text),
            self.wire().get("subtext"@) == text_wire(self.subtext),
            self.wire().has("text"@) <==> self.text is Some,
            self.wire().has("subtext"@) <==> self.subtext is Some,
    {
        self.lemma_distinct_keys();
        let slots = self.slots();
        lemma_record_get(slots, 0);
        lemma_record_get(slots, 1);
    }

    /// The title with no field set is written with no member at all.
    pub proof fn lemma_empty_wire()
        ensures
            Self::empty().wire() == JsonView::Object(Seq::empty()),
    {
        let slots = Self::empty().slots();
        lemma_present_unset(slots, 0);
        assert(present(slots.take(0)) == Seq::<(Seq<char>, JsonView)>::empty());
    }
}

impl Title {
    /// The title with no field set.
    pub fn new() -> (r: Self)
        ensures
            r@ == TitleView::empty(),
    {
        Title {
            text: None,
            subtext: None,
        }
    }

    /// Sets the main title.
    pub fn text<S: Into<String>>(self, text: S) -> (r: Self)
        ensures
            exists|s: String| #[trigger]
                converts(text, s) && r@ == (TitleView { text: Some(s@), ..self@ }),
    {
        let value: String = text.into();
        assert(converts(text, value));
        let mut r = self;
        r.text = Some(value);
        r
    }

    /// Sets the line below the main title.
    pub fn subtext<S: Into<String>>(self, subtext: S) -> (r: Self)
        ensures
            exists|s: String| #[trigger]
                converts(subtext, s) && r@ == (TitleView { subtext: Some(s@), ..self@ }),
    {
        let value: String = subtext.into();
        assert(converts(subtext, value));
        let mut r = self;
        r.subtext = Some(value);
        r
    }

    /// The title as a value of the document.
    pub fn to_json(&self) -> (j: Json)
        ensures
            j@ == self@.wire(),
    {
        let w = RecordWriter::new();
        let w = w.put("text", text_json(&self.text));
        let w = w.put("subtext", text_json(&self.subtext));
        assert(w.slots() == self@.slots());
        w.finish()
    }
}

impl Default for Title {
    fn default() -> (r: Self)
        ensures
            r@ == TitleView::empty(),
    {
        Title::new()
    }
}
/// The view of an optional title.
pub open spec fn title_view(s: Option<Title>) -> Option<TitleView> {
    match s {
        Some(s) => Some(s@),
        None => None,
    }
}

/// What an optional title is written as, where it is set.
pub open spec fn title_wire(s: Option<TitleView>) -> Option<JsonView> {
    match s {
        Some(s) => Some(s.wire()),
        None => None,
    }
}

/// An optional title as a value of the document.
pub(crate) fn title_json(s: &Option<Title>) -> (j: Option<Json>)
    ensures
        optional_view(j) == title_wire(title_view(*s)),
{
    match s {
        Some(s) => Some(s.to_json()),
        None => None,
    }
}

} // verus!
