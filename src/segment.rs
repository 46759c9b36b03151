//! Styled runs of prompt text.

use crate::style::Style;
use vstd::prelude::*;

verus! {

/// A run of text drawn in one style.
#[derive(Clone, Debug)]
pub struct TextSegment {
    pub value: String,
    pub style: Option<Style>,
}

/// A run of text repeated to fill the remaining width of a line.
#[derive(Clone, Debug)]
pub struct FillSegment {
    pub value: String,
    pub style: Option<Style>,
}

/// Which variant a segment is.
#[derive(Clone, Copy, Debug, PartialEq, Eq, Structural)]
pub enum SegmentKind {
    Text,
    Fill,
    LineTerm,
}

/// One styled fragment of a rendered prompt.
#[derive(Clone, Debug)]
pub enum Segment {
    Text(TextSegment),
    Fill(FillSegment),
    /// The end of a line; its text is a single newline.
    LineTerm,
}

/// What a segment is: its kind, its text and its style.
pub type SegmentView = (SegmentKind, Seq<char>, Option<Style>);

impl View for Segment {
    type V = SegmentView;

    open spec fn view(&self) -> SegmentView {
        match self {
            Segment::Text(t) => (SegmentKind::Text, t.value@, t.style),
            Segment::Fill(f) => (SegmentKind::Fill, f.value@, f.style),
            Segment::LineTerm => (SegmentKind::LineTerm, seq!['\n'], None),
        }
    }
}

/// The views of a sequence of segments.
pub open spec fn segment_views(s: Seq<Segment>) -> Seq<SegmentView> {
    s.map_values(|x: Segment| x@)
}

impl Segment {
    /// A text segment.
    pub fn text(value: String, style: Option<Style>) -> (r: Segment)
        ensures
            r@ == (SegmentKind::Text, value@, style),
    {
        Segment::Text(TextSegment { value, style })
    }

    /// A fill segment.
    pub fn fill(value: String, style: Option<Style>) -> (r: Segment)
        ensures
            r@ == (SegmentKind::Fill, value@, style),
    {
        Segment::Fill(FillSegment { value, style })
    }

    /// The segment's text.
    pub fn value(&self) -> (r: &str)
        ensures
            r@ == self@.1,
    {
        match self {
            Segment::Text(t) => t.value.as_str(),
            Segment::Fill(f) => f.value.as_str(),
            Segment::LineTerm => {
                let nl = "\n";
                proof {
                    reveal_strlit("\n");
                }
                assert(nl@ =~= seq!['\n']);
                nl
            },
        }
    }

    /// The segment's style, if it has one.
    pub fn style(&self) -> (r: Option<Style>)
        ensures
            r == self@.2,
    {
        match self {
            Segment::Text(t) => t.style,
            Segment::Fill(f) => f.style,
            Segment::LineTerm => None,
        }
    }

    /// Which variant the segment is.
    pub fn kind(&self) -> (r: SegmentKind)
        ensures
            r == self@.0,
    {
        match self {
            Segment::Text(_) => SegmentKind::Text,
            Segment::Fill(_) => SegmentKind::Fill,
            Segment::LineTerm => SegmentKind::LineTerm,
        }
    }
}

} // verus!
