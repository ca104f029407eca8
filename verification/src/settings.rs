//! Settings with which an executor brings the engine up.

use std::time::Duration;
use vstd::prelude::*;

verus! {

/// The duration that [`Duration::from_secs`] makes of a number of seconds.
pub uninterp spec fn duration_from_secs(secs: u64) -> Duration;

/// The duration that [`Duration::from_millis`] makes of a number of
/// milliseconds.
pub uninterp spec fn duration_from_millis(millis: u64) -> Duration;

/// `Duration::from_secs` of the standard library: a duration of `secs` whole
/// seconds. It is a function of its argument alone and cannot fail; what it
/// hands back goes by the name [`duration_from_secs`]. Nothing else is
/// assumed of it.
pub assume_specification[ Duration::from_secs ](secs: u64) -> (duration: Duration)
    ensures
        duration == duration_from_secs(secs),
;

/// `Duration::from_millis` of the standard library: a duration of `millis`
/// milliseconds. It is a function of its argument alone and cannot fail;
/// what it hands back goes by the name [`duration_from_millis`]. Nothing
/// else is assumed of it.
pub assume_specification[ Duration::from_millis ](millis: u64) -> (duration: Duration)
    ensures
        duration == duration_from_millis(millis),
;

/// Initialization settings for the MPSSE.
///
/// An executor's [`init`](crate::MpsseCmdExecutor::init) writes them to the
/// device.
#[derive(Debug, Copy, Clone, Eq, PartialEq)]
pub struct MpsseSettings {
    /// Reset the MPSSE on initialization.
    pub reset: bool,
    /// USB in transfer size in bytes.
    pub in_transfer_size: u32,
    /// Read timeout.
    pub read_timeout: Duration,
    /// Write timeout.
    pub write_timeout: Duration,
    /// Latency timer.
    pub latency_timer: Duration,
    /// Bitmode mask: a bit set makes the pin an output, a bit clear makes
    /// it an input.
    pub mask: u8,
    /// Clock frequency. With `None` the frequency is left as it is.
    pub clock_frequency: Option<u32>,
}

impl Default for MpsseSettings {
    /// Reset on initialization, 4096 bytes per in transfer, one second for
    /// each timeout, a latency timer of 16 milliseconds, all pins inputs,
    /// and the clock frequency left as it is.
    fn default() -> (settings: Self)
        ensures
            settings.reset,
            settings.in_transfer_size == 4096,
            settings.read_timeout == duration_from_secs(1),
            settings.write_timeout == duration_from_secs(1),
            settings.latency_timer == duration_from_millis(16),
            settings.mask == 0x00,
            settings.clock_frequency is None,
    {
        MpsseSettings {
            reset: true,
            in_transfer_size: 4096,
            read_timeout: Duration::from_secs(1),
            write_timeout: Duration::from_secs(1),
            latency_timer: Duration::from_millis(16),
            mask: 0x00,
            clock_frequency: None,
        }
    }
}

} // verus!
