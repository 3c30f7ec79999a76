//! Named benchmarks that measure elapsed time and describe it in a unit chosen
//! from the size of the duration.

pub mod units;

pub mod text;
pub mod clock;
pub mod timer;
