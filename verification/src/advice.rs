//! The signal log that capture threads poll.

use std::time::Instant;
use vstd::prelude::*;

verus! {

/// Read-only view of a per-frequency signal log, polled by capture threads to
/// drive adaptive dwell.
///
/// Implementations look up the most recent signal observation for a frequency
/// key in whole kHz; capture extends the dwell when that observation falls
/// inside the current hop. `None` means that no signal has ever been observed
/// on that frequency.
pub trait DwellAdvice: Send + Sync {
    /// The time of the most recent observation on the frequency, if any.
    fn latest_signal_at(&self, freq_key_khz: u64) -> Option<Instant>;
}

} // verus!
