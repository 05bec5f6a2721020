use vstd::prelude::*;

verus! {

/// Settings for the external performance monitor.
#[derive(Debug, Clone, Copy, PartialEq, Eq, Structural)]
pub struct MonitorConfig {
    /// How often a summary is reported, in milliseconds.
    pub reporting_interval_ms: u64,
    /// Whether monitoring is enabled at all.
    pub enabled: bool,
    /// Whether each report carries the detailed breakdown.
    pub detailed_logging: bool,
}

impl Default for MonitorConfig {
    /// Report every thirty seconds, enabled, without the detailed
    /// breakdown.
    fn default() -> (r: Self)
        ensures
            r == (MonitorConfig {
                reporting_interval_ms: 30_000u64,
                enabled: true,
                detailed_logging: false,
            }),
    {
        MonitorConfig { reporting_interval_ms: 30_000, enabled: true, detailed_logging: false }
    }
}

} // verus!
