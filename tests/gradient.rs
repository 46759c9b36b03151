use gradient_username::config::GradientConfig;
use gradient_username::gradient::{is_non_decreasing, Curve};
use gradient_username::recolor::{gradientify, gradientify_all, recolor_graphemes};
use gradient_username::segment::{Segment, SegmentKind};
use gradient_username::style::{Color, Style};
use gradient_username::username::{sunset_curve, TOTAL_SAMPLES};

fn strings(v: &[&str]) -> Vec<String> {
    v.iter().map(|s| s.to_string()).collect()
}

fn fg(seg: &Segment) -> Option<Color> {
    seg.style().and_then(|s| s.foreground)
}

fn rgb(c: (u8, u8, u8)) -> Option<Color> {
    Some(Color::Rgb(c.0, c.1, c.2))
}

#[test]
fn gradient_config_default() {
    let c = GradientConfig::default();
    assert_eq!(c.format, "$module");
    assert_eq!(c.gradient, "");
    assert!(!c.show_always);
    assert!(!c.disabled);
}

#[test]
fn first_fragment_takes_first_samples() {
    let curve = Curve::build(&strings(&["#C7D2FE", "#FECACA", "#FEF9C3"]), &vec![0, 50, 100]);
    let colors = curve.sample(144);
    let out = gradientify_all(&vec![Segment::text("hello".to_string(), None)], &curve, 144);
    assert_eq!(out.len(), 5);
    for i in 0..5 {
        assert_eq!(fg(&out[i]), rgb(colors[i]));
    }
}

#[test]
fn sampling_is_deterministic() {
    let curve = sunset_curve();
    let a = curve.sample(TOTAL_SAMPLES);
    let b = curve.sample(TOTAL_SAMPLES);
    assert_eq!(a, b);
    assert_eq!(a.len(), 144);
    assert_eq!(a, sunset_curve().sample(144));
    assert_ne!(a[0], a[143]);
}

#[test]
fn mismatched_counts_fall_back() {
    let bad = Curve::build(&strings(&["#C7D2FE", "#FECACA", "#FEF9C3"]), &vec![0, 100]);
    assert_eq!(bad.sample(20), Curve::fallback().sample(20));
    let good = Curve::build(&strings(&["#C7D2FE", "#FECACA", "#FEF9C3"]), &vec![0, 50, 100]);
    assert_ne!(good.sample(20), Curve::fallback().sample(20));
}

#[test]
fn decreasing_domain_falls_back() {
    let bad = Curve::build(&strings(&["#C7D2FE", "#FECACA", "#FEF9C3"]), &vec![0, 60, 50]);
    assert_eq!(bad.sample(7), Curve::fallback().sample(7));
}

#[test]
fn unparsable_color_falls_back() {
    let bad = Curve::build(&strings(&["#C7D2FE", "not a color"]), &vec![0, 100]);
    assert_eq!(bad.sample(7), Curve::fallback().sample(7));
}

#[test]
fn non_decreasing_check() {
    assert!(is_non_decreasing(&vec![]));
    assert!(is_non_decreasing(&vec![5]));
    assert!(is_non_decreasing(&vec![0, 50, 50, 100]));
    assert!(!is_non_decreasing(&vec![0, 50, 40]));
}

#[test]
fn one_fragment_per_grapheme() {
    let curve = sunset_curve();
    let segs = vec![
        Segment::text("ab".to_string(), None),
        Segment::text("e\u{301}\r\n".to_string(), None),
        Segment::fill("🇷🇺x".to_string(), None),
    ];
    let out = gradientify_all(&segs, &curve, 144);
    let texts: Vec<&str> = out.iter().map(|s| s.value()).collect();
    assert_eq!(texts, vec!["a", "b", "e\u{301}", "\r\n", "🇷🇺", "x"]);
}

#[test]
fn running_offset_continues_across_fragments() {
    let curve = sunset_curve();
    let colors = curve.sample(144);
    let segs = vec![
        Segment::text("abc".to_string(), None),
        Segment::text("".to_string(), None),
        Segment::text("de".to_string(), None),
    ];
    let out = gradientify_all(&segs, &curve, 144);
    assert_eq!(out.len(), 5);
    for i in 0..5 {
        assert_eq!(fg(&out[i]), rgb(colors[i]));
    }
    let tail = gradientify(&segs[2], &curve, 144, 3);
    assert_eq!(fg(&tail[0]), rgb(colors[3]));
    assert_eq!(fg(&tail[1]), rgb(colors[4]));
}

#[test]
fn only_foreground_changes() {
    let style = Style {
        foreground: Some(Color::Red),
        background: Some(Color::Blue),
        is_bold: true,
        is_italic: true,
        ..Style::default()
    };
    let curve = sunset_curve();
    let colors = curve.sample(144);
    let out = gradientify(&Segment::text("xy".to_string(), Some(style)), &curve, 144, 10);
    assert_eq!(out.len(), 2);
    for (i, seg) in out.iter().enumerate() {
        let s = seg.style().unwrap();
        assert_eq!(s.foreground, rgb(colors[10 + i]));
        assert_eq!(Style { foreground: style.foreground, ..s }, style);
    }
}

#[test]
fn unstyled_fragment_uses_plain_style() {
    let out = recolor_graphemes(
        &Segment::text("q".to_string(), None),
        &strings(&["q"]),
        &vec![(1, 2, 3)],
        0,
    );
    assert_eq!(out[0].style(), Some(Style { foreground: Some(Color::Rgb(1, 2, 3)), ..Style::default() }));
}

#[test]
fn empty_fragment_yields_nothing() {
    let out = gradientify(&Segment::text(String::new(), None), &sunset_curve(), 144, 7);
    assert!(out.is_empty());
}

#[test]
fn graphemes_past_the_samples_keep_their_style() {
    let style = Style { is_bold: true, ..Style::default() };
    let out = recolor_graphemes(
        &Segment::text("abcd".to_string(), Some(style)),
        &strings(&["a", "b", "c", "d"]),
        &vec![(9, 9, 9), (8, 8, 8), (7, 7, 7)],
        1,
    );
    assert_eq!(out.len(), 4);
    assert_eq!(fg(&out[0]), Some(Color::Rgb(8, 8, 8)));
    assert_eq!(fg(&out[1]), Some(Color::Rgb(7, 7, 7)));
    assert_eq!(out[2].style(), Some(style));
    assert_eq!(out[3].style(), Some(style));
    let none = recolor_graphemes(&Segment::text("a".to_string(), None), &strings(&["a"]), &vec![], 0);
    assert_eq!(none[0].style(), None);
}

#[test]
fn kinds_are_kept_or_become_text() {
    let curve = sunset_curve();
    let out = gradientify_all(
        &vec![Segment::fill("-".to_string(), None), Segment::LineTerm, Segment::text("t".to_string(), None)],
        &curve,
        144,
    );
    assert_eq!(out.len(), 3);
    assert_eq!(out[0].kind(), SegmentKind::Fill);
    assert_eq!(out[1].kind(), SegmentKind::Text);
    assert_eq!(out[1].value(), "\n");
    assert_eq!(out[2].kind(), SegmentKind::Text);
    assert!(fg(&out[0]).is_some());
}
