//! The one control of the effect, described apart from its runtime value:
//! the threshold's range and default in decibels, its ramp time and how many
//! decimals it is shown with.
use vstd::prelude::*;

verus! {

/// The lowest threshold, in decibels.
pub const MIN_THRESHOLD_DB: i32 = -90;

/// The highest threshold, in decibels.
pub const MAX_THRESHOLD_DB: i32 = 20;

/// The threshold a new instance starts with, in decibels.
pub const DEFAULT_THRESHOLD_DB: i32 = -45;

/// How long a change of the threshold takes to ramp, in milliseconds.
pub const THRESHOLD_RAMP_MS: u32 = 25;

/// How many decimals the threshold is shown with.
pub const THRESHOLD_DISPLAY_DECIMALS: u32 = 2;

/// The immutable description of the threshold control.
#[derive(Clone, Copy, Debug, PartialEq, Eq, Structural)]
pub struct ThresholdDescriptor {
    pub min_db: i32,
    pub max_db: i32,
    pub default_db: i32,
    pub ramp_ms: u32,
    pub display_decimals: u32,
}

impl ThresholdDescriptor {
    /// The range is not empty and holds the default.
    pub open spec fn wf(&self) -> bool {
        self.min_db <= self.default_db <= self.max_db
    }

    /// The threshold control: -90 to 20 dB, default -45 dB, a 25 ms linear
    /// ramp, shown with 2 decimals.
    pub fn threshold() -> (r: ThresholdDescriptor)
        ensures
            r.wf(),
            r.min_db == -90,
            r.max_db == 20,
            r.default_db == -45,
            r.ramp_ms == 25,
            r.display_decimals == 2,
    {
        ThresholdDescriptor {
            min_db: MIN_THRESHOLD_DB,
            max_db: MAX_THRESHOLD_DB,
            default_db: DEFAULT_THRESHOLD_DB,
            ramp_ms: THRESHOLD_RAMP_MS,
            display_decimals: THRESHOLD_DISPLAY_DECIMALS,
        }
    }
}

} // verus!
