//! Sampling of real- and complex-valued functions on a fixed-point grid,
//! producing the point sequences that a plotting front end draws as polylines.
//!
//! The sampler walks the domain of a [`SamplingConfig`] in equal steps and
//! evaluates the caller's function at every grid point. Coordinates are whole
//! numbers of deltas, so the walk is exact; the values are of whatever type
//! the function returns. A front end turns both into the numbers it draws.

pub mod config;
pub mod curve;
pub mod plots;
pub mod sampler;

pub use config::{SamplingConfig, DEFAULT_MAX_X, DELTAS_PER_POINT};
pub use curve::{Color, Complex, Curve, LineStyle, Sample};
pub use plots::{complex_plot, real_plot};
pub use sampler::{sample_complex, sample_real};
