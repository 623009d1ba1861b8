//! The two plots of the exponential: `e^x` on the real line, and `e^(ix)`
//! along the imaginary axis as its real and its imaginary part.
//!
//! The library walks the grid and assembles the curves; the caller brings the
//! exponential itself, evaluated in the number type that it draws with.

use vstd::prelude::*;
use crate::config::{resolved_max_x, SamplingConfig, DELTAS_PER_POINT};
use crate::curve::{Color, Complex, Curve, LineStyle};
use crate::sampler::{
    is_complex_sampling,
    is_real_sampling,
    sample_complex,
    sample_real,
    spec_imaginary_axis_point,
};

verus! {

pub const REAL_LABEL: &'static str = "e^x (real exponential)";

pub const COMPLEX_REAL_PART_LABEL: &'static str = "e^ix (real part = cos(x))";

pub const COMPLEX_IMAGINARY_PART_LABEL: &'static str = "e^ix (imaginary part = sin(x))";

/// Stroke width of all three curves, in tenths of a point.
pub const STROKE_WIDTH_TENTHS: u16 = 25;

pub open spec fn spec_red() -> Color {
    Color { r: 255, g: 100, b: 100 }
}

pub open spec fn spec_blue() -> Color {
    Color { r: 100, g: 100, b: 255 }
}

pub open spec fn spec_green() -> Color {
    Color { r: 100, g: 255, b: 100 }
}

/// The style of a plotted curve: the given colour, the common stroke width,
/// highlighted under the pointer.
pub open spec fn spec_plot_style(color: Color) -> LineStyle {
    LineStyle { color: Some(color), width_tenths: Some(STROKE_WIDTH_TENTHS), highlight: true }
}

/// The curve of `e^x` from zero up to `max_x` units, or up to the default
/// when none is given: one sample per delta, labelled and drawn in red.
///
/// `exp` evaluates the exponential at an x coordinate given in deltas.
pub fn real_plot<Y, F: Fn(i64) -> Y>(max_x: Option<usize>, exp: F) -> (curve: Curve<Y>)
    requires
        resolved_max_x(max_x) * DELTAS_PER_POINT <= i64::MAX,
        forall|x: i64| 0 <= x < resolved_max_x(max_x) * DELTAS_PER_POINT ==> exp.requires((x,)),
    ensures
        is_real_sampling(exp, SamplingConfig::spec_from_max_x(max_x), curve@.samples),
        curve@.samples.len() == resolved_max_x(max_x) * DELTAS_PER_POINT,
        curve@.samples.len() == 0 <==> max_x == Some(0usize),
        forall|i: int| 0 <= i < curve@.samples.len() ==> (#[trigger] curve@.samples[i]).x == i,
        curve@.label == REAL_LABEL@,
        curve@.style == spec_plot_style(spec_red()),
{
    let config = SamplingConfig::from_max_x(max_x);
    assert forall|i: int| 0 <= i < config.spec_sample_count() implies exp.requires(
        (#[trigger] config.spec_x_at(i) as i64,),
    ) by {}
    sample_real(exp, config).name(REAL_LABEL).width(STROKE_WIDTH_TENTHS).color(
        Color { r: 255, g: 100, b: 100 },
    ).highlight(true)
}

/// The curves of the real and of the imaginary part of `e^(ix)` from zero up
/// to `max_x` units, or up to the default when none is given: one sample per
/// delta in each, labelled and drawn in blue and in green.
///
/// `exp` evaluates the exponential at a point of the imaginary axis given in
/// deltas.
pub fn complex_plot<Y, F: Fn(Complex<i64>) -> Complex<Y>>(max_x: Option<usize>, exp: F) -> (curves: (
    Curve<Y>,
    Curve<Y>,
))
    requires
        resolved_max_x(max_x) * DELTAS_PER_POINT <= i64::MAX,
        forall|x: i64|
            0 <= x < resolved_max_x(max_x) * DELTAS_PER_POINT ==> exp.requires(
                (#[trigger] spec_imaginary_axis_point(x),),
            ),
    ensures
        is_complex_sampling(
            exp,
            SamplingConfig::spec_from_max_x(max_x),
            curves.0@.samples,
            curves.1@.samples,
        ),
        curves.0@.samples.len() == resolved_max_x(max_x) * DELTAS_PER_POINT,
        curves.1@.samples.len() == resolved_max_x(max_x) * DELTAS_PER_POINT,
        curves.0@.samples.len() == 0 <==> max_x == Some(0usize),
        forall|i: int| 0 <= i < curves.0@.samples.len() ==> (#[trigger] curves.0@.samples[i]).x == i,
        forall|i: int| 0 <= i < curves.1@.samples.len() ==> (#[trigger] curves.1@.samples[i]).x == i,
        curves.0@.label == COMPLEX_REAL_PART_LABEL@,
        curves.1@.label == COMPLEX_IMAGINARY_PART_LABEL@,
        curves.0@.style == spec_plot_style(spec_blue()),
        curves.1@.style == spec_plot_style(spec_green()),
{
    let config = SamplingConfig::from_max_x(max_x);
    assert forall|i: int| 0 <= i < config.spec_sample_count() implies exp.requires(
        (spec_imaginary_axis_point(#[trigger] config.spec_x_at(i) as i64),),
    ) by {}
    let (re_part, im_part) = sample_complex(exp, config);
    let re_part = re_part.name(COMPLEX_REAL_PART_LABEL).width(STROKE_WIDTH_TENTHS).color(
        Color { r: 100, g: 100, b: 255 },
    ).highlight(true);
    let im_part = im_part.name(COMPLEX_IMAGINARY_PART_LABEL).width(STROKE_WIDTH_TENTHS).color(
        Color { r: 100, g: 255, b: 100 },
    ).highlight(true);
    (re_part, im_part)
}

} // verus!
