//! The curve sampler: walks the grid of a configuration and evaluates a
//! function at every point of it.

use vstd::prelude::*;
use crate::config::{lemma_count_positive_iff_valid, lemma_x_strictly_increasing, SamplingConfig};
use crate::curve::{is_strictly_increasing, Complex, Curve, CurveView, LineStyle, Sample};

verus! {

/// `samples` lies on the grid of `config`: one sample per grid point, in
/// order. This fixes the length and every x coordinate from `config` alone.
pub open spec fn is_on_grid<Y>(config: SamplingConfig, samples: Seq<Sample<Y>>) -> bool {
    &&& samples.len() == config.spec_sample_count()
    &&& forall|i: int| 0 <= i < samples.len() ==> (#[trigger] samples[i]).x == config.spec_x_at(i)
}

/// `samples` is a sampling of `f` over `config`: it lies on the grid, and each
/// sample holds a value that `f` returns for its x coordinate.
pub open spec fn is_real_sampling<Y, F: Fn(i64) -> Y>(
    f: F,
    config: SamplingConfig,
    samples: Seq<Sample<Y>>,
) -> bool {
    &&& is_on_grid(config, samples)
    &&& forall|i: int|
        0 <= i < samples.len() ==> f.ensures(((#[trigger] samples[i]).x,), samples[i].y)
}

/// `f` is a function in the mathematical sense: it returns one value for
/// each argument.
pub open spec fn is_deterministic<A, Y, F: Fn(A) -> Y>(f: F) -> bool {
    forall|a: A, y1: Y, y2: Y|
        #![trigger f.ensures((a,), y1), f.ensures((a,), y2)]
        f.ensures((a,), y1) && f.ensures((a,), y2) ==> y1 == y2
}

/// `curve` is a curve of `f` over `config`: unlabelled, in the plain style,
/// and through a sampling of `f` over `config`.
pub open spec fn is_real_curve<Y, F: Fn(i64) -> Y>(
    f: F,
    config: SamplingConfig,
    curve: CurveView<Y>,
) -> bool {
    &&& is_real_sampling(f, config, curve.samples)
    &&& curve.label == Seq::<char>::empty()
    &&& curve.style == LineStyle::spec_plain()
}

/// Samples `f` over the grid of `config`: sample `i` lies at
/// `domain_start + i * step` and holds what `f` returns there. A configuration
/// that is not valid gives the empty curve.
pub fn sample_real<Y, F: Fn(i64) -> Y>(f: F, config: SamplingConfig) -> (curve: Curve<Y>)
    requires
        forall|i: int|
            0 <= i < config.spec_sample_count() ==> f.requires(
                (#[trigger] config.spec_x_at(i) as i64,),
            ),
    ensures
        is_real_curve(f, config, curve@),
        is_strictly_increasing(curve@.samples),
        curve@.samples.len() == 0 <==> !config.spec_is_valid(),
{
    let count: u64 = config.sample_count();
    let mut samples: Vec<Sample<Y>> = Vec::new();
    let mut i: u64 = 0;
    while i < count
        invariant
            count == config.spec_sample_count(),
            i <= count,
            samples@.len() == i,
            forall|k: int|
                0 <= k < config.spec_sample_count() ==> f.requires(
                    (#[trigger] config.spec_x_at(k) as i64,),
                ),
            forall|k: int| 0 <= k < i ==> (#[trigger] samples@[k]).x == config.spec_x_at(k),
            forall|k: int| 0 <= k < i ==> f.ensures(((#[trigger] samples@[k]).x,), samples@[k].y),
        decreases count - i,
    {
        let x: i64 = config.x_at(i);
        let y: Y = f(x);
        samples.push(Sample { x, y });
        i = i + 1;
    }
    proof {
        lemma_grid_strictly_increasing(config, samples@);
        lemma_count_positive_iff_valid(config);
    }
    Curve::new(samples)
}

/// The point `x` on the imaginary axis.
pub open spec fn spec_imaginary_axis_point(x: i64) -> Complex<i64> {
    Complex { re: 0, im: x }
}

/// `re_part` and `im_part` are a sampling of `f` along the imaginary axis over
/// `config`: both hold one sample per grid point, in order and with the grid's
/// x coordinates, and their values at a point are the two components of one
/// value that `f` returns for that point of the axis.
pub open spec fn is_complex_sampling<Y, F: Fn(Complex<i64>) -> Complex<Y>>(
    f: F,
    config: SamplingConfig,
    re_part: Seq<Sample<Y>>,
    im_part: Seq<Sample<Y>>,
) -> bool {
    &&& is_on_grid(config, re_part)
    &&& is_on_grid(config, im_part)
    &&& forall|i: int|
        #![trigger re_part[i]]
        #![trigger im_part[i]]
        0 <= i < config.spec_sample_count() ==> f.ensures(
            (spec_imaginary_axis_point(re_part[i].x),),
            Complex { re: re_part[i].y, im: im_part[i].y },
        )
}

/// `re_curve` and `im_curve` are the curves of `f` along the imaginary axis
/// over `config`: both unlabelled and in the plain style, and through a
/// sampling of `f` along the axis.
pub open spec fn is_complex_curve_pair<Y, F: Fn(Complex<i64>) -> Complex<Y>>(
    f: F,
    config: SamplingConfig,
    re_curve: CurveView<Y>,
    im_curve: CurveView<Y>,
) -> bool {
    &&& is_complex_sampling(f, config, re_curve.samples, im_curve.samples)
    &&& re_curve.label == Seq::<char>::empty()
    &&& im_curve.label == Seq::<char>::empty()
    &&& re_curve.style == LineStyle::spec_plain()
    &&& im_curve.style == LineStyle::spec_plain()
}

/// Samples `f` along the imaginary axis over the grid of `config`: for
/// sample `i`, `f` is evaluated once, at the point with real part zero and
/// imaginary part `domain_start + i * step`. Returns the curve of the real
/// components and the curve of the imaginary components, in this order. A
/// configuration that is not valid gives two empty curves.
pub fn sample_complex<Y, F: Fn(Complex<i64>) -> Complex<Y>>(
    f: F,
    config: SamplingConfig,
) -> (curves: (Curve<Y>, Curve<Y>))
    requires
        forall|i: int|
            0 <= i < config.spec_sample_count() ==> f.requires(
                (spec_imaginary_axis_point(#[trigger] config.spec_x_at(i) as i64),),
            ),
    ensures
        is_complex_curve_pair(f, config, curves.0@, curves.1@),
        is_strictly_increasing(curves.0@.samples),
        is_strictly_increasing(curves.1@.samples),
        curves.0@.samples.len() == 0 <==> !config.spec_is_valid(),
        curves.1@.samples.len() == 0 <==> !config.spec_is_valid(),
{
    let count: u64 = config.sample_count();
    let mut re_part: Vec<Sample<Y>> = Vec::new();
    let mut im_part: Vec<Sample<Y>> = Vec::new();
    let mut i: u64 = 0;
    while i < count
        invariant
            count == config.spec_sample_count(),
            i <= count,
            re_part@.len() == i,
            im_part@.len() == i,
            forall|k: int|
                0 <= k < config.spec_sample_count() ==> f.requires(
                    (spec_imaginary_axis_point(#[trigger] config.spec_x_at(k) as i64),),
                ),
            forall|k: int| 0 <= k < i ==> (#[trigger] re_part@[k]).x == config.spec_x_at(k),
            forall|k: int| 0 <= k < i ==> (#[trigger] im_part@[k]).x == config.spec_x_at(k),
            forall|k: int|
                #![trigger re_part@[k]]
                #![trigger im_part@[k]]
                0 <= k < i ==> f.ensures(
                    (spec_imaginary_axis_point(re_part@[k].x),),
                    Complex { re: re_part@[k].y, im: im_part@[k].y },
                ),
        decreases count - i,
    {
        let x: i64 = config.x_at(i);
        let Complex { re, im } = f(Complex { re: 0, im: x });
        re_part.push(Sample { x, y: re });
        im_part.push(Sample { x, y: im });
        i = i + 1;
    }
    proof {
        lemma_grid_strictly_increasing(config, re_part@);
        lemma_grid_strictly_increasing(config, im_part@);
        lemma_count_positive_iff_valid(config);
    }
    (Curve::new(re_part), Curve::new(im_part))
}

/// Samples on the grid of a configuration are strictly increasing in x.
pub proof fn lemma_grid_strictly_increasing<Y>(config: SamplingConfig, samples: Seq<Sample<Y>>)
    requires
        is_on_grid(config, samples),
    ensures
        is_strictly_increasing(samples),
{
    assert forall|i: int, j: int| 0 <= i < j < samples.len() implies (#[trigger] samples[i]).x
        < (#[trigger] samples[j]).x by {
        lemma_x_strictly_increasing(config, i, j);
    }
}

/// The length and the x coordinates of a sampling depend on the
/// configuration alone: two sequences on the grid of one configuration agree
/// in both, whatever was sampled.
pub proof fn lemma_grid_depends_on_config_only<Y, Z>(
    config: SamplingConfig,
    a: Seq<Sample<Y>>,
    b: Seq<Sample<Z>>,
)
    requires
        is_on_grid(config, a),
        is_on_grid(config, b),
    ensures
        a.len() == b.len(),
        forall|i: int| 0 <= i < a.len() ==> (#[trigger] a[i]).x == b[i].x,
{
}

/// Two samplings of one deterministic function over one configuration are
/// the same sequence.
pub proof fn lemma_real_sampling_is_unique<Y, F: Fn(i64) -> Y>(
    f: F,
    config: SamplingConfig,
    a: Seq<Sample<Y>>,
    b: Seq<Sample<Y>>,
)
    requires
        is_deterministic(f),
        is_real_sampling(f, config, a),
        is_real_sampling(f, config, b),
    ensures
        a == b,
{
    assert forall|i: int| 0 <= i < a.len() implies a[i] == b[i] by {
        assert(f.ensures((a[i].x,), a[i].y) && f.ensures((b[i].x,), b[i].y));
    }
    assert(a =~= b);
}

/// Two samplings of one deterministic function along the imaginary axis
/// over one configuration are the same two sequences.
pub proof fn lemma_complex_sampling_is_unique<Y, F: Fn(Complex<i64>) -> Complex<Y>>(
    f: F,
    config: SamplingConfig,
    re_a: Seq<Sample<Y>>,
    im_a: Seq<Sample<Y>>,
    re_b: Seq<Sample<Y>>,
    im_b: Seq<Sample<Y>>,
)
    requires
        is_deterministic(f),
        is_complex_sampling(f, config, re_a, im_a),
        is_complex_sampling(f, config, re_b, im_b),
    ensures
        re_a == re_b,
        im_a == im_b,
{
    assert forall|i: int| 0 <= i < re_a.len() implies re_a[i] == re_b[i] && im_a[i] == im_b[i] by {
        let z = spec_imaginary_axis_point(re_a[i].x);
        assert(f.ensures((z,), Complex { re: re_a[i].y, im: im_a[i].y }));
        assert(f.ensures((z,), Complex { re: re_b[i].y, im: im_b[i].y }));
    }
    assert(re_a =~= re_b);
    assert(im_a =~= im_b);
}

/// Sampling is repeatable: whatever `sample_real` returns for a
/// deterministic function and a configuration, it returns the same curve for
/// them every time.
pub proof fn lemma_sample_real_is_repeatable<Y, F: Fn(i64) -> Y>(
    f: F,
    config: SamplingConfig,
    first: CurveView<Y>,
    second: CurveView<Y>,
)
    requires
        is_deterministic(f),
        is_real_curve(f, config, first),
        is_real_curve(f, config, second),
    ensures
        first == second,
{
    lemma_real_sampling_is_unique(f, config, first.samples, second.samples);
}

/// Sampling along the imaginary axis is repeatable: whatever
/// `sample_complex` returns for a deterministic function and a
/// configuration, it returns the same two curves for them every time.
pub proof fn lemma_sample_complex_is_repeatable<Y, F: Fn(Complex<i64>) -> Complex<Y>>(
    f: F,
    config: SamplingConfig,
    first: (CurveView<Y>, CurveView<Y>),
    second: (CurveView<Y>, CurveView<Y>),
)
    requires
        is_deterministic(f),
        is_complex_curve_pair(f, config, first.0, first.1),
        is_complex_curve_pair(f, config, second.0, second.1),
    ensures
        first == second,
{
    lemma_complex_sampling_is_unique(
        f,
        config,
        first.0.samples,
        first.1.samples,
        second.0.samples,
        second.1.samples,
    );
}

} // verus!
