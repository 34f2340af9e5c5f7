//! A subtractive limiter ("colimiter") for audio samples held as the bit
//! patterns of single-precision floats.
use vstd::prelude::*;

pub mod params;
pub mod peak;
pub mod processor;
pub mod rule;
pub mod sample;

pub use params::ThresholdDescriptor;
pub use peak::PeakHold;
pub use processor::{colimit_block, ColimiterCore};
pub use rule::{attenuation, Attenuation};

verus! {

} // verus!
