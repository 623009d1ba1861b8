//! The sampling configuration and the arithmetic of its grid.
//!
//! Coordinates are fixed-point: every x value is a whole number of *deltas*,
//! a delta being one thousandth of a unit of the x axis. A front end that
//! draws in floating point scales a coordinate by the size of one delta.

use vstd::prelude::*;

verus! {

/// Deltas per unit of the x axis.
pub const DELTAS_PER_POINT: usize = 1000;

/// Upper end of the domain, in whole units, taken when the caller names none.
pub const DEFAULT_MAX_X: usize = 100;

/// Least upper end, in whole units, that the controls of a front end offer.
pub const MAX_X_LOWER_BOUND: usize = 1;

/// Greatest upper end, in whole units, that the controls of a front end offer.
pub const MAX_X_UPPER_BOUND: usize = 100;

/// The least integer `n` with `n * b >= a`, for positive `b`.
pub open spec fn ceil_div(a: int, b: int) -> int
    recommends
        b > 0,
{
    (a + b - 1) / b
}

/// The upper end of the domain in whole units: the given one, or the default.
pub open spec fn resolved_max_x(max_x: Option<usize>) -> int {
    match max_x {
        Some(units) => units as int,
        None => DEFAULT_MAX_X as int,
    }
}

/// The half-open domain `[domain_start, domain_end)` and the distance between
/// neighbouring samples, all three in deltas.
#[derive(Clone, Copy, Debug, PartialEq, Eq, Structural)]
pub struct SamplingConfig {
    pub domain_start: i64,
    pub domain_end: i64,
    pub step: i64,
}

impl SamplingConfig {
    /// A configuration is valid when the step is positive and the domain is
    /// not empty or inverted.
    pub open spec fn spec_is_valid(&self) -> bool {
        self.step > 0 && self.domain_start < self.domain_end
    }

    /// Number of samples: the ceiling of the domain's length over the step
    /// for a valid configuration, and none otherwise.
    pub open spec fn spec_sample_count(&self) -> nat {
        if self.spec_is_valid() {
            ceil_div(self.domain_end - self.domain_start, self.step as int) as nat
        } else {
            0
        }
    }

    /// The x coordinate of sample `i`.
    pub open spec fn spec_x_at(&self, i: int) -> int {
        self.domain_start + i * self.step
    }

    /// The configuration of a plot from zero up to `max_x` whole units, or up
    /// to the default when none is given, with one sample per delta.
    pub open spec fn spec_from_max_x(max_x: Option<usize>) -> SamplingConfig
        recommends
            resolved_max_x(max_x) * DELTAS_PER_POINT <= i64::MAX,
    {
        SamplingConfig {
            domain_start: 0,
            domain_end: (resolved_max_x(max_x) * DELTAS_PER_POINT) as i64,
            step: 1,
        }
    }

    /// See [`SamplingConfig::spec_from_max_x`]. The plot then has
    /// `DELTAS_PER_POINT` samples per unit, and sample `i` lies at `i` deltas.
    pub fn from_max_x(max_x: Option<usize>) -> (config: Self)
        requires
            resolved_max_x(max_x) * DELTAS_PER_POINT <= i64::MAX,
        ensures
            config == Self::spec_from_max_x(max_x),
            config.spec_sample_count() == resolved_max_x(max_x) * DELTAS_PER_POINT,
            forall|i: int| #[trigger] config.spec_x_at(i) == i,
    {
        let units: usize = match max_x {
            Some(units) => units,
            None => DEFAULT_MAX_X,
        };
        SamplingConfig {
            domain_start: 0,
            domain_end: (units as i64) * (DELTAS_PER_POINT as i64),
            step: 1,
        }
    }

    /// Whether a plot up to `max_x` has its upper end within the range of the
    /// coordinates, which is what [`SamplingConfig::from_max_x`] asks for.
    pub fn is_plottable(max_x: Option<usize>) -> (plottable: bool)
        ensures
            plottable == (resolved_max_x(max_x) * DELTAS_PER_POINT <= i64::MAX),
    {
        let units: usize = match max_x {
            Some(units) => units,
            None => DEFAULT_MAX_X,
        };
        match (units as u64).checked_mul(DELTAS_PER_POINT as u64) {
            Some(deltas) => deltas <= i64::MAX as u64,
            None => false,
        }
    }

    /// Whether the step is positive and the domain holds a point.
    pub fn is_valid(&self) -> (valid: bool)
        ensures
            valid == self.spec_is_valid(),
    {
        self.step > 0 && self.domain_start < self.domain_end
    }

    /// Number of samples that the configuration yields: none unless it is
    /// valid.
    pub fn sample_count(&self) -> (count: u64)
        ensures
            count == self.spec_sample_count(),
    {
        if !self.is_valid() {
            return 0;
        }
        let span: i128 = self.domain_end as i128 - self.domain_start as i128;
        let step: i128 = self.step as i128;
        let count: i128 = (span + step - 1) / step;
        proof {
            lemma_ceil_div_bounds(span as int, step as int);
            assert(0 < count <= span) by (nonlinear_arith)
                requires
                    step >= 1,
                    span >= 1,
                    (count - 1) * step < span <= count * step,
            ;
        }
        count as u64
    }

    /// The x coordinate of sample `i`, which is `domain_start + i * step`.
    pub fn x_at(&self, i: u64) -> (x: i64)
        requires
            i < self.spec_sample_count(),
        ensures
            x == self.spec_x_at(i as int),
    {
        proof {
            lemma_sample_in_domain(*self, i as int);
        }
        let x: i128 = self.domain_start as i128 + (i as i128) * (self.step as i128);
        x as i64
    }
}

/// `ceil_div(a, b)` is the least number of steps of `b` that reaches `a`.
pub proof fn lemma_ceil_div_bounds(a: int, b: int)
    requires
        b > 0,
    ensures
        (ceil_div(a, b) - 1) * b < a <= ceil_div(a, b) * b,
{
    let q = ceil_div(a, b);
    assert((q - 1) * b < a <= q * b) by (nonlinear_arith)
        requires
            b > 0,
            q == (a + b - 1) / b,
    ;
}

/// No smaller number of steps of `b` reaches `a`.
pub proof fn lemma_ceil_div_is_least(a: int, b: int, n: int)
    requires
        b > 0,
        n * b >= a,
    ensures
        n >= ceil_div(a, b),
{
    let q = ceil_div(a, b);
    lemma_ceil_div_bounds(a, b);
    assert(n >= q) by (nonlinear_arith)
        requires
            b > 0,
            n * b >= a,
            (q - 1) * b < a,
    ;
}

/// The sample count of a valid configuration is the ceiling of the domain's
/// length over the step: it is the one integer `n` with
/// `(n - 1) * step < domain_end - domain_start <= n * step`.
pub proof fn lemma_sample_count_is_ceiling(config: SamplingConfig, n: int)
    requires
        config.spec_is_valid(),
    ensures
        n == config.spec_sample_count() <==> (n - 1) * config.step < config.domain_end
            - config.domain_start <= n * config.step,
{
    let span = config.domain_end - config.domain_start;
    let step = config.step as int;
    let count = ceil_div(span, step);
    lemma_ceil_div_bounds(span, step);
    lemma_count_positive_iff_valid(config);
    if (n - 1) * step < span <= n * step {
        assert(n == count) by (nonlinear_arith)
            requires
                step > 0,
                (n - 1) * step < span <= n * step,
                (count - 1) * step < span <= count * step,
        ;
    }
}

/// A configuration yields samples exactly when it is valid.
pub proof fn lemma_count_positive_iff_valid(config: SamplingConfig)
    ensures
        config.spec_sample_count() > 0 <==> config.spec_is_valid(),
{
    if config.spec_is_valid() {
        let span = config.domain_end - config.domain_start;
        let step = config.step as int;
        let count = ceil_div(span, step);
        lemma_ceil_div_bounds(span, step);
        assert(count > 0) by (nonlinear_arith)
            requires
                step > 0,
                span > 0,
                span <= count * step,
        ;
    }
}

/// With a positive step, a later sample has a greater x coordinate.
pub proof fn lemma_x_strictly_increasing(config: SamplingConfig, i: int, j: int)
    requires
        config.step > 0,
        i < j,
    ensures
        config.spec_x_at(i) < config.spec_x_at(j),
{
    let step = config.step as int;
    assert(i * step < j * step) by (nonlinear_arith)
        requires
            step > 0,
            i < j,
    ;
}

/// The walk stops only where the domain ends: the grid point that would
/// follow the last sample of a valid configuration lies at or beyond
/// `domain_end`.
pub proof fn lemma_walk_covers_domain(config: SamplingConfig)
    requires
        config.spec_is_valid(),
    ensures
        config.spec_x_at(config.spec_sample_count() as int) >= config.domain_end,
{
    lemma_ceil_div_bounds(config.domain_end - config.domain_start, config.step as int);
}

/// Every upper end that the controls offer, and the default, can be plotted:
/// the plot is not empty and has at most `MAX_X_UPPER_BOUND` times
/// `DELTAS_PER_POINT` samples.
pub proof fn lemma_offered_max_x_is_plottable(max_x: Option<usize>)
    requires
        max_x matches Some(units) ==> MAX_X_LOWER_BOUND <= units <= MAX_X_UPPER_BOUND,
    ensures
        resolved_max_x(max_x) * DELTAS_PER_POINT <= i64::MAX,
        0 < SamplingConfig::spec_from_max_x(max_x).spec_sample_count() <= MAX_X_UPPER_BOUND
            * DELTAS_PER_POINT,
{
}

/// Every sample of a configuration lies in its half-open domain.
pub proof fn lemma_sample_in_domain(config: SamplingConfig, i: int)
    requires
        0 <= i < config.spec_sample_count(),
    ensures
        config.domain_start <= config.spec_x_at(i) < config.domain_end,
{
    let span = config.domain_end - config.domain_start;
    let step = config.step as int;
    let count = ceil_div(span, step);
    lemma_ceil_div_bounds(span, step);
    assert(0 <= i * step < span) by (nonlinear_arith)
        requires
            step > 0,
            0 <= i <= count - 1,
            (count - 1) * step < span,
    ;
}

} // verus!
