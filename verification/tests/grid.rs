use curve_sampler::config::{MAX_X_LOWER_BOUND, MAX_X_UPPER_BOUND};
use curve_sampler::{SamplingConfig, DEFAULT_MAX_X, DELTAS_PER_POINT};

fn config(domain_start: i64, domain_end: i64, step: i64) -> SamplingConfig {
    SamplingConfig { domain_start, domain_end, step }
}

#[test]
fn constants_have_their_values() {
    assert_eq!(DELTAS_PER_POINT, 1000);
    assert_eq!(DEFAULT_MAX_X, 100);
    assert_eq!(MAX_X_LOWER_BOUND, 1);
    assert_eq!(MAX_X_UPPER_BOUND, 100);
}

#[test]
fn count_is_span_over_step_when_it_divides() {
    assert_eq!(config(0, 1000, 10).sample_count(), 100);
    assert_eq!(config(0, 1000, 1).sample_count(), 1000);
    assert_eq!(config(-500, 500, 250).sample_count(), 4);
}

#[test]
fn count_rounds_up_when_step_does_not_divide() {
    assert_eq!(config(0, 1001, 10).sample_count(), 101);
    assert_eq!(config(0, 999, 10).sample_count(), 100);
    assert_eq!(config(-5, 5, 3).sample_count(), 4);
    assert_eq!(config(0, 5, 10).sample_count(), 1);
    assert_eq!(config(0, 1, i64::MAX).sample_count(), 1);
}

#[test]
fn count_is_zero_for_non_positive_step() {
    assert_eq!(config(0, 1000, 0).sample_count(), 0);
    assert_eq!(config(0, 1000, -1).sample_count(), 0);
    assert_eq!(config(0, 1000, i64::MIN).sample_count(), 0);
    assert!(!config(0, 1000, 0).is_valid());
    assert!(!config(0, 1000, -10).is_valid());
}

#[test]
fn count_is_zero_for_empty_or_inverted_domain() {
    assert_eq!(config(7, 7, 1).sample_count(), 0);
    assert_eq!(config(1000, 0, 10).sample_count(), 0);
    assert_eq!(config(i64::MAX, i64::MIN, 1).sample_count(), 0);
    assert!(!config(7, 7, 1).is_valid());
    assert!(!config(1000, 0, 10).is_valid());
}

#[test]
fn valid_config_is_recognised() {
    assert!(config(0, 1, 1).is_valid());
    assert!(config(-3, -2, i64::MAX).is_valid());
    assert!(config(i64::MIN, i64::MAX, 1).is_valid());
}

#[test]
fn count_at_the_limits_of_the_coordinates() {
    assert_eq!(config(i64::MIN, i64::MAX, 1).sample_count(), u64::MAX);
    assert_eq!(config(i64::MIN, i64::MAX, i64::MAX).sample_count(), 3);
    assert_eq!(config(i64::MIN, i64::MAX, 2).sample_count(), 1u64 << 63);
}

#[test]
fn count_is_the_ceiling_of_span_over_step() {
    for (start, end, step) in [
        (0i64, 1000i64, 10i64),
        (0, 1001, 10),
        (-13, 29, 5),
        (3, 4, 100),
        (i64::MIN, i64::MAX, 1 << 40),
        (-1, i64::MAX, i64::MAX),
    ] {
        let n = config(start, end, step).sample_count() as i128;
        let span = end as i128 - start as i128;
        let step = step as i128;
        assert!((n - 1) * step < span && span <= n * step);
    }
    assert_eq!(config(-1, i64::MAX, i64::MAX).sample_count(), 2);
    assert_eq!(config(i64::MIN, i64::MAX, 1 << 40).sample_count(), 1 << 24);
}

#[test]
fn x_at_walks_from_start_in_steps() {
    let c = config(-5, 5, 3);
    assert_eq!(c.x_at(0), -5);
    assert_eq!(c.x_at(1), -2);
    assert_eq!(c.x_at(2), 1);
    assert_eq!(c.x_at(3), 4);
    let c = config(0, 1000, 10);
    assert_eq!(c.x_at(0), 0);
    assert_eq!(c.x_at(99), 990);
}

#[test]
fn x_at_at_the_limits_of_the_coordinates() {
    let c = config(i64::MIN, i64::MAX, i64::MAX);
    assert_eq!(c.x_at(0), i64::MIN);
    assert_eq!(c.x_at(1), -1);
    assert_eq!(c.x_at(2), i64::MAX - 1);
    let c = config(i64::MIN, i64::MAX, 1);
    assert_eq!(c.x_at(u64::MAX - 1), i64::MAX - 1);
}

#[test]
fn every_sample_lies_in_the_domain_and_the_next_point_does_not() {
    for (start, end, step) in [(0i64, 1000i64, 7i64), (-13, 29, 5), (3, 4, 100), (-100, -1, 1)] {
        let c = config(start, end, step);
        let n = c.sample_count();
        assert!(n > 0);
        for i in 0..n {
            let x = c.x_at(i);
            assert!(start <= x && x < end);
        }
        assert!(start as i128 + n as i128 * step as i128 >= end as i128);
        assert!(c.x_at(n - 1) < end);
    }
}

#[test]
fn from_max_x_spans_zero_to_max_x_units() {
    assert_eq!(SamplingConfig::from_max_x(Some(5)), config(0, 5000, 1));
    assert_eq!(SamplingConfig::from_max_x(Some(1)), config(0, 1000, 1));
    assert_eq!(SamplingConfig::from_max_x(Some(100)), config(0, 100_000, 1));
    assert_eq!(SamplingConfig::from_max_x(Some(5)).sample_count(), 5000);
}

#[test]
fn from_max_x_falls_back_to_the_default() {
    assert_eq!(SamplingConfig::from_max_x(None), config(0, 100_000, 1));
    assert_eq!(SamplingConfig::from_max_x(None), SamplingConfig::from_max_x(Some(DEFAULT_MAX_X)));
}

#[test]
fn from_max_x_zero_is_an_empty_domain() {
    let c = SamplingConfig::from_max_x(Some(0));
    assert_eq!(c, config(0, 0, 1));
    assert!(!c.is_valid());
    assert_eq!(c.sample_count(), 0);
}

#[test]
fn plottable_up_to_the_range_of_the_coordinates() {
    assert!(SamplingConfig::is_plottable(None));
    assert!(SamplingConfig::is_plottable(Some(0)));
    assert!(SamplingConfig::is_plottable(Some(100)));
    if usize::BITS >= 64 {
        let greatest = (i64::MAX / 1000) as usize;
        assert!(SamplingConfig::is_plottable(Some(greatest)));
        assert!(!SamplingConfig::is_plottable(Some(greatest + 1)));
        assert!(!SamplingConfig::is_plottable(Some(usize::MAX)));
        assert_eq!(
            SamplingConfig::from_max_x(Some(greatest)),
            config(0, 9_223_372_036_854_775_000, 1)
        );
    }
}

#[test]
fn every_offered_max_x_is_plottable_and_not_empty() {
    for units in MAX_X_LOWER_BOUND..=MAX_X_UPPER_BOUND {
        assert!(SamplingConfig::is_plottable(Some(units)));
        let n = SamplingConfig::from_max_x(Some(units)).sample_count();
        assert_eq!(n, (units * DELTAS_PER_POINT) as u64);
        assert!(0 < n && n <= 100_000);
    }
}
