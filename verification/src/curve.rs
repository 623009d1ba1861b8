//! Samples, curves and the way a curve is to be drawn.

use vstd::prelude::*;

verus! {

/// One point of a curve: the x coordinate in deltas and the value there.
#[derive(Clone, Copy, Debug, PartialEq)]
pub struct Sample<Y> {
    pub x: i64,
    pub y: Y,
}

/// A value with a real and an imaginary component.
#[derive(Clone, Copy, Debug, PartialEq)]
pub struct Complex<T> {
    pub re: T,
    pub im: T,
}

/// An opaque colour, one byte per channel.
#[derive(Clone, Copy, Debug, PartialEq, Eq)]
pub struct Color {
    pub r: u8,
    pub g: u8,
    pub b: u8,
}

/// How the renderer should draw a curve. The sampler never reads it.
///
/// `None` leaves the choice to the renderer. The stroke width is in tenths
/// of a point.
#[derive(Clone, Copy, Debug, PartialEq, Eq)]
pub struct LineStyle {
    pub color: Option<Color>,
    pub width_tenths: Option<u16>,
    pub highlight: bool,
}

/// The x coordinates of `samples` grow strictly from each sample to the next.
pub open spec fn is_strictly_increasing<Y>(samples: Seq<Sample<Y>>) -> bool {
    forall|i: int, j: int|
        0 <= i < j < samples.len() ==> (#[trigger] samples[i]).x < (#[trigger] samples[j]).x
}

/// The mathematical content of a [`Curve`].
pub struct CurveView<Y> {
    pub samples: Seq<Sample<Y>>,
    pub label: Seq<char>,
    pub style: LineStyle,
}

/// An ordered sequence of samples with a label and a style.
///
/// A curve comes from the sampler and its samples never change afterwards;
/// they are strictly increasing in x.
#[derive(Debug)]
pub struct Curve<Y> {
    samples: Vec<Sample<Y>>,
    label: String,
    style: LineStyle,
}

impl<Y> View for Curve<Y> {
    type V = CurveView<Y>;

    closed spec fn view(&self) -> CurveView<Y> {
        CurveView { samples: self.samples@, label: self.label@, style: self.style }
    }
}

impl LineStyle {
    /// The style that leaves everything to the renderer.
    pub open spec fn spec_plain() -> LineStyle {
        LineStyle { color: None, width_tenths: None, highlight: false }
    }

    /// The style that leaves everything to the renderer.
    pub fn plain() -> (style: LineStyle)
        ensures
            style == Self::spec_plain(),
    {
        LineStyle { color: None, width_tenths: None, highlight: false }
    }
}

impl<Y> Curve<Y> {
    #[verifier::type_invariant]
    spec fn well_formed(&self) -> bool {
        is_strictly_increasing(self.samples@)
    }

    /// An unlabelled curve through `samples`, in the plain style.
    pub(crate) fn new(samples: Vec<Sample<Y>>) -> (curve: Self)
        requires
            is_strictly_increasing(samples@),
        ensures
            curve@.samples == samples@,
            curve@.label == Seq::<char>::empty(),
            curve@.style == LineStyle::spec_plain(),
    {
        Curve { samples, label: String::new(), style: LineStyle::plain() }
    }

    /// The same curve under the label `label`.
    pub fn name(self, label: &str) -> (curve: Self)
        ensures
            curve@.samples == self@.samples,
            curve@.label == label@,
            curve@.style == self@.style,
    {
        proof {
            use_type_invariant(&self);
        }
        Curve { samples: self.samples, label: label.to_owned(), style: self.style }
    }

    /// The same curve with a stroke of `tenths` tenths of a point.
    pub fn width(self, tenths: u16) -> (curve: Self)
        ensures
            curve@.samples == self@.samples,
            curve@.label == self@.label,
            curve@.style == (LineStyle { width_tenths: Some(tenths), ..self@.style }),
    {
        proof {
            use_type_invariant(&self);
        }
        let style = LineStyle {
            color: self.style.color,
            width_tenths: Some(tenths),
            highlight: self.style.highlight,
        };
        Curve { samples: self.samples, label: self.label, style }
    }

    /// The same curve in the colour `color`.
    pub fn color(self, color: Color) -> (curve: Self)
        ensures
            curve@.samples == self@.samples,
            curve@.label == self@.label,
            curve@.style == (LineStyle { color: Some(color), ..self@.style }),
    {
        proof {
            use_type_invariant(&self);
        }
        let style = LineStyle {
            color: Some(color),
            width_tenths: self.style.width_tenths,
            highlight: self.style.highlight,
        };
        Curve { samples: self.samples, label: self.label, style }
    }

    /// The same curve, highlighted under the pointer or not.
    pub fn highlight(self, highlight: bool) -> (curve: Self)
        ensures
            curve@.samples == self@.samples,
            curve@.label == self@.label,
            curve@.style == (LineStyle { highlight, ..self@.style }),
    {
        proof {
            use_type_invariant(&self);
        }
        let style = LineStyle {
            color: self.style.color,
            width_tenths: self.style.width_tenths,
            highlight,
        };
        Curve { samples: self.samples, label: self.label, style }
    }

    /// The samples, in order.
    pub fn samples(&self) -> (samples: &Vec<Sample<Y>>)
        ensures
            samples@ == self@.samples,
            is_strictly_increasing(samples@),
    {
        proof {
            use_type_invariant(self);
        }
        &self.samples
    }

    /// The label under which the curve is shown; empty when it has none.
    pub fn label(&self) -> (label: &str)
        ensures
            label@ == self@.label,
    {
        self.label.as_str()
    }

    /// How the curve is to be drawn.
    pub fn style(&self) -> (style: LineStyle)
        ensures
            style == self@.style,
    {
        self.style
    }

    /// Number of samples.
    pub fn len(&self) -> (len: usize)
        ensures
            len == self@.samples.len(),
    {
        self.samples.len()
    }

    /// Whether the curve has no sample.
    pub fn is_empty(&self) -> (empty: bool)
        ensures
            empty == (self@.samples.len() == 0),
    {
        self.samples.len() == 0
    }

    /// Gives up the curve for its samples, in order.
    pub fn into_samples(self) -> (samples: Vec<Sample<Y>>)
        ensures
            samples@ == self@.samples,
            is_strictly_increasing(samples@),
    {
        proof {
            use_type_invariant(&self);
        }
        self.samples
    }
}

} // verus!
