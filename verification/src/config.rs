//! The scheduling parameters the actors and the aggregator consume, and the
//! sample configuration written on first start.
use vstd::prelude::*;

verus! {

/// Per-unit scheduling: how often the unit asks to be polled, in ms.
#[derive(Debug, Clone, Copy, PartialEq, Eq, Structural)]
pub struct SchedulingCfg {
    pub poll_interval_ms: u64,
}

impl Default for SchedulingCfg {
    /// One third of a second, the default polling cadence.
    fn default() -> (c: SchedulingCfg)
        ensures
            c.poll_interval_ms == 333,
    {
        SchedulingCfg { poll_interval_ms: 333 }
    }
}

/// Global scheduling: the floor under every poll interval (also the render
/// and output cadence), and the spaces padded around every chunk.
#[derive(Debug, Clone, Copy, PartialEq, Eq, Structural)]
pub struct GlobalConfig {
    pub min_polling_interval_ms: u64,
    pub padding: i32,
}

impl Default for GlobalConfig {
    /// A quarter-second floor and one space of padding.
    fn default() -> (c: GlobalConfig)
        ensures
            c.min_polling_interval_ms == 250,
            c.padding == 1,
    {
        GlobalConfig { min_polling_interval_ms: 250, padding: 1 }
    }
}

/// The configuration file written on first start.
pub fn sample_config() -> &'static str {
    "# each unit defines its own polling interval. to save resources you can define a global floor here\nmin_polling_interval = 0.15\npadding = 1\n\n# units will appear on the bar in the same order as they are defined here\n# topmost is rightmost\n[[units]]\ntype = \"Time\"\nformat = \"%a %b %d %Y - %H:%M\"\n"
}

} // verus!
