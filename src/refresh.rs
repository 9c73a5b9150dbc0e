//! The refresh engine: whether a fetch is in flight, and the back-off after a failure.
use vstd::prelude::*;

verus! {

/// Seconds between two ticks of the periodic refresh timer.
pub const TIMER_INTERVAL_SECS: u64 = 30;

/// Seconds during which no fetch starts after a failed one.
pub const BACKOFF_SECS: u64 = 60;

/// Where the engine stands.
#[derive(Clone, Copy, Debug, PartialEq, Eq, Structural)]
pub enum EngineState {
    /// No fetch in flight; a trigger may start one.
    Idle,
    /// A fetch for the location with this id is in flight.
    Fetching { location_id: i64 },
    /// The last fetch failed; nothing starts before `until` (seconds).
    Cooldown { until: u64 },
}

/// Why the weather provider gave no snapshot.
#[derive(Clone, Copy, Debug, PartialEq, Eq, Structural)]
pub enum ProviderError {
    /// The request did not get an answer.
    Transport,
    /// The answer was not a complete forecast.
    Malformed,
}

/// The refresh status of the application.
#[derive(Clone, Copy, Debug, PartialEq, Eq, Structural)]
pub struct RefreshStatus {
    pub auto_refresh_enabled: bool,
    pub engine: EngineState,
    /// When the last fetch started, in seconds.
    pub last_attempt: Option<u64>,
    pub last_error: Option<ProviderError>,
}

/// The end of the back-off that starts at `now`, held at the largest time.
pub open spec fn cooldown_end(now: u64) -> u64 {
    if now <= u64::MAX - BACKOFF_SECS {
        (now + BACKOFF_SECS) as u64
    } else {
        u64::MAX
    }
}

pub fn cooldown_until(now: u64) -> (r: u64)
    ensures
        r == cooldown_end(now),
        r >= now,
{
    if now <= u64::MAX - BACKOFF_SECS {
        now + BACKOFF_SECS
    } else {
        u64::MAX
    }
}

impl RefreshStatus {
    pub open spec fn spec_initial() -> RefreshStatus {
        RefreshStatus {
            auto_refresh_enabled: true,
            engine: EngineState::Idle,
            last_attempt: None,
            last_error: None,
        }
    }

    /// Automatic refresh on, nothing in flight, nothing attempted yet.
    pub fn new() -> (r: RefreshStatus)
        ensures
            r == Self::spec_initial(),
    {
        RefreshStatus {
            auto_refresh_enabled: true,
            engine: EngineState::Idle,
            last_attempt: None,
            last_error: None,
        }
    }

    pub fn is_fetching(&self) -> (r: bool)
        ensures
            r == (self.engine is Fetching),
    {
        match self.engine {
            EngineState::Fetching { .. } => true,
            _ => false,
        }
    }
}

} // verus!
