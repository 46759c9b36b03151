//! Color curves built from color stops over a numeric domain, and their sampling.

use crate::graphemes::string_views;
use vstd::prelude::*;

verus! {

/// The opaque gradient of the colorgrad crate.
#[verifier::external_type_specification]
#[verifier::external_body]
pub struct ExGradient(colorgrad::Gradient);

/// The error of colorgrad's gradient builder.
#[verifier::external_type_specification]
#[verifier::external_body]
pub struct ExCustomGradientError(colorgrad::CustomGradientError);

/// What fixes a curve: the color stops and domain breakpoints it was built from, or
/// `None` for the built-in fallback curve.
pub type CurveView = Option<(Seq<Seq<char>>, Seq<u32>)>;

/// An RGB color sampled from a curve.
pub type Rgb = (u8, u8, u8);

/// Whether colorgrad builds a gradient from these color stops and breakpoints.
pub uninterp spec fn custom_gradient_builds(stops: Seq<Seq<char>>, domain: Seq<u32>) -> bool;

/// The colors that colorgrad samples from the curve `c` at `n` evenly spaced positions.
pub uninterp spec fn gradient_colors(c: CurveView, n: nat) -> Seq<Rgb>;

/// The breakpoints never decrease.
pub open spec fn non_decreasing(d: Seq<u32>) -> bool {
    forall|i: int, j: int| 0 <= i <= j < d.len() ==> d[i] <= d[j]
}

/// The color stops and breakpoints are of equal number and the breakpoints never decrease.
pub open spec fn well_formed_stops(stops: Seq<Seq<char>>, domain: Seq<u32>) -> bool {
    stops.len() == domain.len() && non_decreasing(domain)
}

/// What `Curve::build` makes of these stops and breakpoints.
pub open spec fn built_curve(stops: Seq<Seq<char>>, domain: Seq<u32>) -> CurveView {
    if well_formed_stops(stops, domain) && custom_gradient_builds(stops, domain) {
        Some((stops, domain))
    } else {
        None
    }
}

/// A color curve over a bounded domain. Only `Curve::build` and `Curve::fallback` make
/// one, so the gradient it holds is fixed by its view.
pub struct Curve {
    gradient: colorgrad::Gradient,
    model: Ghost<CurveView>,
}

impl View for Curve {
    type V = CurveView;

    closed spec fn view(&self) -> CurveView {
        self.model@
    }
}

/// Relies on colorgrad's `CustomGradient` builder: `html_colors`, then `domain` with the
/// breakpoints as floats, then `build`, which succeeds or fails by these inputs alone.
#[verifier::external_body]
fn build_custom(stops: &Vec<String>, domain: &Vec<u32>) -> (r: Result<
    colorgrad::Gradient,
    colorgrad::CustomGradientError,
>)
    ensures
        r is Ok == custom_gradient_builds(string_views(stops@), domain@),
{
    let colors: Vec<&str> = stops.iter().map(|s| s.as_str()).collect();
    let pos: Vec<_> = domain.iter().map(|d| (*d).into()).collect();
    colorgrad::CustomGradient::new().html_colors(&colors).domain(&pos[..]).build()
}

/// Relies on colorgrad's `magma` preset gradient.
#[verifier::external_body]
fn magma() -> colorgrad::Gradient {
    colorgrad::magma()
}

/// Relies on colorgrad's `Gradient::colors(n)`: `n` colors at evenly spaced positions over
/// the domain, each read through `to_linear_rgba_u8` without its alpha byte. The gradient
/// is fixed by the curve's view, so the colors are too.
#[verifier::external_body]
fn gradient_colors_of(c: &Curve, n: usize) -> (r: Vec<Rgb>)
    ensures
        r@ == gradient_colors(c@, n as nat),
        r@.len() == n,
{
    c.gradient.colors(n).iter().map(|x| {
        let (r, g, b, _) = x.to_linear_rgba_u8();
        (r, g, b)
    }).collect()
}

/// Whether the breakpoints never decrease.
pub fn is_non_decreasing(domain: &Vec<u32>) -> (r: bool)
    ensures
        r == non_decreasing(domain@),
{
    let mut i: usize = 1;
    while i < domain.len()
        invariant
            1 <= i,
            domain@.len() == 0 || i <= domain@.len(),
            forall|a: int, b: int| 0 <= a <= b < i && b < domain@.len() ==> domain@[a] <= domain@[b],
        decreases domain@.len() - i,
    {
        if domain[i - 1] > domain[i] {
            return false;
        }
        assert forall|a: int, b: int| 0 <= a <= b < i + 1 && b < domain@.len() implies domain@[a]
            <= domain@[b] by {
            if b == i && a < i {
                assert(domain@[a] <= domain@[i - 1]);
            }
        }
        i = i + 1;
    }
    true
}

impl Curve {
    /// The built-in curve used when the configured one cannot be built.
    pub fn fallback() -> (r: Curve)
        ensures
            r@ == None::<(Seq<Seq<char>>, Seq<u32>)>,
    {
        Curve { gradient: magma(), model: Ghost(None) }
    }

    /// The curve through `stops` (HTML color strings) at the breakpoints `domain`. Where
    /// their numbers differ, the breakpoints decrease somewhere, or colorgrad cannot build
    /// the gradient, the fallback curve stands in.
    pub fn build(stops: &Vec<String>, domain: &Vec<u32>) -> (r: Curve)
        ensures
            r@ == built_curve(string_views(stops@), domain@),
            stops@.len() != domain@.len() ==> r@ is None,
    {
        if stops.len() != domain.len() || !is_non_decreasing(domain) {
            return Curve::fallback();
        }
        match build_custom(stops, domain) {
            Ok(g) => Curve { gradient: g, model: Ghost(Some((string_views(stops@), domain@))) },
            Err(_) => Curve::fallback(),
        }
    }

    /// The curve's colors at `n` evenly spaced positions over its domain.
    pub fn sample(&self, n: usize) -> (r: Vec<Rgb>)
        ensures
            r@ == gradient_colors(self@, n as nat),
            r@.len() == n,
    {
        gradient_colors_of(self, n)
    }
}

/// Sampling is a function of the curve and the number of samples: two samplings of
/// curves with the same view, at the same number of positions, give the same colors.
pub proof fn lemma_sampling_deterministic(a: Curve, b: Curve, n: nat, x: Seq<Rgb>, y: Seq<Rgb>)
    requires
        a@ == b@,
        x == gradient_colors(a@, n),
        y == gradient_colors(b@, n),
    ensures
        x == y,
{
}

} // verus!
