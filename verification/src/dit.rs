//! Capability flags for hardware timing-control features.
//!
//! Some processors offer a data-independent-timing mode and a speculation
//! barrier instruction. Whether they are implemented is detected once per
//! process and cached; the comparison entry points then wrap the actual work
//! in that mode when it is available. Detection, the cache itself and the mode
//! register accesses live outside this crate, next to the hardware: what is
//! verified here is the mapping from the detected flags to the recorded
//! capability value, which every detector must compute identically so that
//! concurrent first-use is idempotent.

use vstd::prelude::*;

verus! {

/// Which hardware timing-control features are known to be implemented.
///
/// The data-independent-timing mode is only ever used together with some
/// barrier, so a speculation barrier without that mode counts for nothing:
/// such a processor is recorded as `Neither`.
#[derive(Clone, Copy, PartialEq, Eq, Structural, Debug)]
pub enum Features {
    /// No timing-control feature is known to be implemented.
    Neither,
    /// The data-independent-timing mode is implemented, but the lightweight
    /// speculation barrier is not: a heavier generic barrier must be used.
    DitOnly,
    /// Both the data-independent-timing mode and the speculation barrier are
    /// implemented.
    DitSb,
}

/// The capability value recorded for a pair of detected feature flags.
pub open spec fn spec_features_from_flags(dit: bool, sb: bool) -> Features {
    if dit && sb {
        Features::DitSb
    } else if dit {
        Features::DitOnly
    } else {
        Features::Neither
    }
}

/// Maps the detected feature flags to the capability value to record.
///
/// Every detector — the runtime query, the build-time fallback and the manual
/// override — must record the value computed here, so that redundant
/// concurrent detections converge.
pub fn features_from_flags(dit: bool, sb: bool) -> (f: Features)
    ensures
        f == spec_features_from_flags(dit, sb),
{
    match (dit, sb) {
        (true, true) => Features::DitSb,
        (true, false) => Features::DitOnly,
        _ => Features::Neither,
    }
}

impl Features {
    /// Whether the data-independent-timing mode may be enabled.
    pub fn has_dit(&self) -> (r: bool)
        ensures
            r == (*self != Features::Neither),
    {
        match self {
            Features::Neither => false,
            Features::DitOnly => true,
            Features::DitSb => true,
        }
    }

    /// Whether the lightweight speculation barrier may be used.
    pub fn has_sb(&self) -> (r: bool)
        ensures
            r == (*self == Features::DitSb),
    {
        match self {
            Features::Neither => false,
            Features::DitOnly => false,
            Features::DitSb => true,
        }
    }
}

} // verus!
