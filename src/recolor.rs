//! Recoloring a stream of segments with a gradient, one grapheme cluster at a time.

use crate::gradient::{gradient_colors, Curve, Rgb};
use crate::graphemes::{graphemes_of, split_graphemes, string_views};
use crate::segment::{segment_views, Segment, SegmentKind, SegmentView};
use crate::style::{plain_style, same_but_foreground, Color, Style};
use vstd::prelude::*;

verus! {

/// The kind a recolored piece of a segment of kind `k` has: fills stay fills, the rest
/// become text.
pub open spec fn piece_kind(k: SegmentKind) -> SegmentKind {
    if k == SegmentKind::Fill {
        SegmentKind::Fill
    } else {
        SegmentKind::Text
    }
}

/// The style a segment is recolored from: its own, or the plain style if it has none.
pub open spec fn base_style(s: SegmentView) -> Style {
    match s.2 {
        Some(st) => st,
        None => plain_style(),
    }
}

/// The color at position `j` of the samples, if there is one.
pub open spec fn color_at(cs: Seq<Rgb>, j: int) -> Option<Rgb> {
    if 0 <= j < cs.len() {
        Some(cs[j])
    } else {
        None
    }
}

/// The piece of segment `s` that holds the grapheme `g`: drawn in color `c` with the rest
/// of the segment's style, or in the segment's own style where no color is left.
pub open spec fn piece(s: SegmentView, g: Seq<char>, c: Option<Rgb>) -> SegmentView {
    match c {
        Some(rgb) => (
            piece_kind(s.0),
            g,
            Some(base_style(s).with_foreground_spec(Color::Rgb(rgb.0, rgb.1, rgb.2))),
        ),
        None => (piece_kind(s.0), g, s.2),
    }
}

/// The pieces of segment `s` split into the graphemes `gs`, the first of them colored by
/// the sample at `k`.
pub open spec fn recolored(s: SegmentView, gs: Seq<Seq<char>>, cs: Seq<Rgb>, k: int) -> Seq<
    SegmentView,
> {
    Seq::new(gs.len(), |i: int| piece(s, gs[i], color_at(cs, k + i)))
}

/// The pieces of segment `s`, the first colored by the sample at `k`.
pub open spec fn recolored_segment(s: SegmentView, cs: Seq<Rgb>, k: int) -> Seq<SegmentView> {
    recolored(s, graphemes_of(s.1), cs, k)
}

/// The pieces of a whole stream of segments, each segment's first one colored by the
/// sample after those the segments before it took.
pub open spec fn recolored_stream(segs: Seq<SegmentView>, cs: Seq<Rgb>) -> Seq<SegmentView>
    decreases segs.len(),
{
    if segs.len() == 0 {
        Seq::empty()
    } else {
        let pre = recolored_stream(segs.drop_last(), cs);
        pre + recolored_segment(segs.last(), cs, pre.len() as int)
    }
}

/// The number of grapheme clusters in a stream of segments.
pub open spec fn grapheme_total(segs: Seq<SegmentView>) -> nat
    decreases segs.len(),
{
    if segs.len() == 0 {
        0
    } else {
        grapheme_total(segs.drop_last()) + graphemes_of(segs.last().1).len()
    }
}

/// Splits `segment`'s text into the given graphemes and colors the `i`th of them with
/// sample `offset + i`; graphemes past the last sample keep the segment's own style.
pub fn recolor_graphemes(
    segment: &Segment,
    graphemes: &Vec<String>,
    colors: &Vec<Rgb>,
    offset: usize,
) -> (r: Vec<Segment>)
    ensures
        segment_views(r@) == recolored(segment@, string_views(graphemes@), colors@, offset as int),
{
    let kind = segment.kind();
    let own = segment.style();
    let base = match own {
        Some(st) => st,
        None => Style::default(),
    };
    let mut out: Vec<Segment> = Vec::new();
    let mut i: usize = 0;
    while i < graphemes.len()
        invariant
            i <= graphemes@.len(),
            kind == segment@.0,
            own == segment@.2,
            base == base_style(segment@),
            segment_views(out@) =~= recolored(
                segment@,
                string_views(graphemes@),
                colors@,
                offset as int,
            ).take(i as int),
        decreases graphemes@.len() - i,
    {
        let g = graphemes[i].clone();
        let style = if offset < colors.len() && i < colors.len() - offset {
            let (r, gr, b) = colors[offset + i];
            Some(base.with_foreground(Color::Rgb(r, gr, b)))
        } else {
            own
        };
        let p = if kind == SegmentKind::Fill {
            Segment::fill(g, style)
        } else {
            Segment::text(g, style)
        };
        let ghost before = out@;
        out.push(p);
        proof {
            let want = recolored(segment@, string_views(graphemes@), colors@, offset as int);
            assert(out@ == before.push(p));
            assert(p@ == want[i as int]);
            assert(segment_views(out@) =~= segment_views(before).push(p@));
            assert(want.take(i as int + 1) =~= want.take(i as int).push(want[i as int]));
        }
        i = i + 1;
    }
    out
}

/// The pieces of one segment, colored from the curve's `n` samples starting at sample
/// `offset`: one piece per grapheme cluster of its text.
pub fn gradientify(segment: &Segment, curve: &Curve, n: usize, offset: usize) -> (r: Vec<Segment>)
    ensures
        segment_views(r@) == recolored_segment(segment@, gradient_colors(curve@, n as nat), offset as int),
        r@.len() == graphemes_of(segment@.1).len(),
{
    let colors = curve.sample(n);
    let graphemes = split_graphemes(segment.value());
    let r = recolor_graphemes(segment, &graphemes, &colors, offset);
    assert(segment_views(r@).len() == r@.len());
    r
}

/// The pieces of a stream of segments, colored from the curve's `n` samples as one
/// continuous run: each segment starts where the one before it stopped.
pub fn gradientify_all(segments: &Vec<Segment>, curve: &Curve, n: usize) -> (r: Vec<Segment>)
    ensures
        segment_views(r@) == recolored_stream(segment_views(segments@), gradient_colors(curve@, n as nat)),
        r@.len() == grapheme_total(segment_views(segments@)),
{
    let ghost cs = gradient_colors(curve@, n as nat);
    let mut out: Vec<Segment> = Vec::new();
    let mut i: usize = 0;
    while i < segments.len()
        invariant
            i <= segments@.len(),
            cs == gradient_colors(curve@, n as nat),
            segment_views(out@) == recolored_stream(segment_views(segments@).take(i as int), cs),
        decreases segments@.len() - i,
    {
        let start = out.len();
        let seg = &segments[i];
        let mut pieces = gradientify(seg, curve, n, start);
        let ghost before = out@;
        let ghost added = pieces@;
        out.append(&mut pieces);
        proof {
            let s = segment_views(segments@);
            let pre = recolored_stream(s.take(i as int), cs);
            assert(segment_views(before).len() == before.len());
            assert(s.take(i as int + 1).drop_last() =~= s.take(i as int));
            assert(s.take(i as int + 1).last() == segments@[i as int]@);
            assert(recolored_stream(s.take(i as int + 1), cs) == pre + recolored_segment(
                segments@[i as int]@,
                cs,
                pre.len() as int,
            ));
            assert(segment_views(out@) =~= segment_views(before) + segment_views(added));
        }
        i = i + 1;
    }
    assert(segment_views(segments@).take(segments@.len() as int) =~= segment_views(segments@));
    proof {
        lemma_fragment_count(segment_views(segments@), cs);
        assert(segment_views(out@).len() == out@.len());
    }
    out
}

/// Recoloring a stream gives exactly one piece per grapheme cluster of its segments.
pub proof fn lemma_fragment_count(segs: Seq<SegmentView>, cs: Seq<Rgb>)
    ensures
        recolored_stream(segs, cs).len() == grapheme_total(segs),
    decreases segs.len(),
{
    if segs.len() > 0 {
        lemma_fragment_count(segs.drop_last(), cs);
    }
}

/// Each piece of a recolored segment has the segment's kind (fills stay fills, the rest
/// become text) and its style differs from the segment's only in the foreground color.
pub proof fn lemma_only_foreground_changes(s: SegmentView, cs: Seq<Rgb>, k: int)
    ensures
        forall|i: int|
            0 <= i < recolored_segment(s, cs, k).len() ==> {
                let p = #[trigger] recolored_segment(s, cs, k)[i];
                &&& p.0 == piece_kind(s.0)
                &&& same_but_foreground(base_style(p), base_style(s))
            },
{
}

/// The running offset: segment `i` of a stream is colored from the sample whose position
/// is the number of grapheme clusters of the segments before it.
pub proof fn lemma_running_offset(segs: Seq<SegmentView>, cs: Seq<Rgb>, i: int)
    requires
        0 <= i < segs.len(),
    ensures
        recolored_stream(segs.take(i + 1), cs) == recolored_stream(segs.take(i), cs)
            + recolored_segment(segs[i], cs, grapheme_total(segs.take(i)) as int),
{
    assert(segs.take(i + 1).drop_last() =~= segs.take(i));
    lemma_fragment_count(segs.take(i), cs);
}

} // verus!
