use vstd::prelude::*;

verus! {

/// Initial ignore period used when none is configured, in seconds.
pub const DEFAULT_INITIAL_IGNORE_SECS: u64 = 0;

/// Exhaust runtime used when none is configured, in seconds.
pub const DEFAULT_EXHAUST_RUNTIME_SECS: u64 = 20;

/// Milliseconds in a second.
pub const MS_PER_SEC: u64 = 1000;

/// The two build-time tunables, in milliseconds.
#[derive(Clone, Copy, Debug, PartialEq, Eq, Structural)]
pub struct Config {
    /// How long to ignore the trigger line after power-up.
    pub initial_ignore_period_ms: u32,
    /// How long the exhaust keeps running after each use.
    pub exhaust_runtime_ms: u32,
}

/// Whether a number of seconds, in milliseconds, fits the 32-bit counters.
pub open spec fn fits_ms(secs: u64) -> bool {
    secs * MS_PER_SEC <= u32::MAX
}

impl Config {
    /// Converts the two tunables from whole seconds to milliseconds. Gives
    /// `None` exactly when one of them does not fit in 32 bits of milliseconds.
    pub fn from_secs(initial_ignore_secs: u64, exhaust_runtime_secs: u64) -> (r: Option<Config>)
        ensures
            r is Some <==> fits_ms(initial_ignore_secs) && fits_ms(exhaust_runtime_secs),
            r is Some ==> r->0.initial_ignore_period_ms == initial_ignore_secs * MS_PER_SEC,
            r is Some ==> r->0.exhaust_runtime_ms == exhaust_runtime_secs * MS_PER_SEC,
    {
        let max_secs: u64 = u32::MAX as u64 / MS_PER_SEC;
        if initial_ignore_secs > max_secs || exhaust_runtime_secs > max_secs {
            return None;
        }
        Some(
            Config {
                initial_ignore_period_ms: (initial_ignore_secs * MS_PER_SEC) as u32,
                exhaust_runtime_ms: (exhaust_runtime_secs * MS_PER_SEC) as u32,
            },
        )
    }

    /// The configuration when nothing is set: no ignore period and a
    /// twenty-second exhaust run.
    pub fn default_settings() -> (r: Config)
        ensures
            r.initial_ignore_period_ms == DEFAULT_INITIAL_IGNORE_SECS * MS_PER_SEC,
            r.exhaust_runtime_ms == DEFAULT_EXHAUST_RUNTIME_SECS * MS_PER_SEC,
    {
        Config {
            initial_ignore_period_ms: (DEFAULT_INITIAL_IGNORE_SECS * MS_PER_SEC) as u32,
            exhaust_runtime_ms: (DEFAULT_EXHAUST_RUNTIME_SECS * MS_PER_SEC) as u32,
        }
    }
}

} // verus!
