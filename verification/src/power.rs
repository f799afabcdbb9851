//! Choosing a power preference for GPU adapter selection.
//!
//! The embedder reads its configuration (an explicit request, or the
//! presence of the high-performance and low-power environment switches) and
//! hands the findings here; the precedence rule itself is pure.

use vstd::prelude::*;

verus! {

/// A preference between discrete (high-performance) and integrated
/// (low-power) GPU adapters.
#[derive(Debug, Clone, Copy, PartialEq, Eq, Structural)]
pub enum PowerPreference {
    /// No preference: leave the choice to the GPU interface's default.
    Unspecified,
    /// Prefer an integrated, low-power adapter.
    LowPower,
    /// Prefer a discrete, high-performance adapter.
    HighPerformance,
}

/// The power preference that adapter selection must use, by precedence:
/// an explicit request first, then the high-performance switch, then the
/// low-power switch, then no preference.
pub fn choose_power_preference(
    explicit: Option<PowerPreference>,
    high_performance_set: bool,
    low_power_set: bool,
) -> (preference: PowerPreference)
    ensures
        preference == (match explicit {
            Some(p) => p,
            None => {
                if high_performance_set {
                    PowerPreference::HighPerformance
                } else if low_power_set {
                    PowerPreference::LowPower
                } else {
                    PowerPreference::Unspecified
                }
            },
        }),
{
    match explicit {
        Some(p) => p,
        None => {
            if high_performance_set {
                PowerPreference::HighPerformance
            } else if low_power_set {
                PowerPreference::LowPower
            } else {
                PowerPreference::Unspecified
            }
        },
    }
}

} // verus!
