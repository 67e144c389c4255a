//! The monitor an application asks to register: its scanning
//! configuration. The four optional asynchronous handler slots that
//! accompany it live with the runner, which answers each incoming
//! request through [`crate::dispatch`].

use vstd::prelude::*;

verus! {

/// The scanning configuration of an advertisement monitor.
#[derive(Clone, Debug)]
pub struct Monitor {
    /// Monitor type.
    pub monitor_type: String,
    /// Lower RSSI threshold.
    pub rssi_low_threshold: i16,
    /// Upper RSSI threshold.
    pub rssi_high_threshold: i16,
    /// Timeout for the lower RSSI threshold.
    pub rssi_low_timeout: i16,
    /// Timeout for the upper RSSI threshold.
    pub rssi_high_timeout: i16,
    /// RSSI sampling period.
    pub rssi_sampling_period: i16,
    /// Advertisement patterns to match.
    pub patterns: Option<Vec<u8>>,
}

impl Default for Monitor {
    /// The stock configuration: an unnamed monitor type, moderate
    /// thresholds, and no patterns.
    fn default() -> (r: Monitor)
        ensures
            r.monitor_type@ == Seq::<char>::empty(),
            r.rssi_low_threshold == -90,
            r.rssi_high_threshold == 20,
            r.rssi_low_timeout == 1,
            r.rssi_high_timeout == 2,
            r.rssi_sampling_period == 1,
            r.patterns is None,
    {
        Monitor {
            monitor_type: String::new(),
            rssi_low_threshold: -90,
            rssi_high_threshold: 20,
            rssi_low_timeout: 1,
            rssi_high_timeout: 2,
            rssi_sampling_period: 1,
            patterns: Option::None,
        }
    }
}

} // verus!
