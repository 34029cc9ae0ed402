//! Token usage as the daemon rolls it up.

use vstd::prelude::*;

use crate::time::Timestamp;

verus! {

/// Token counts by kind.
#[derive(Debug, Clone, Copy, Default)]
pub struct Tokens {
    pub input: i64,
    pub output: i64,
    pub cache_read: i64,
    pub cache_creation: i64,
}

impl Tokens {
    /// The sum over all kinds.
    pub open spec fn sum(&self) -> int {
        self.input + self.output + self.cache_read + self.cache_creation
    }

    /// The sum over all kinds.
    pub fn total(&self) -> (r: i128)
        ensures
            r == self.sum(),
    {
        self.input as i128 + self.output as i128 + self.cache_read as i128
            + self.cache_creation as i128
    }
}

/// Usage within one stretch of time.
#[derive(Debug, Clone, Copy, Default)]
pub struct UsageBucket {
    pub totals: Tokens,
    pub turns: i64,
}

/// Usage of one agent.
#[derive(Debug, Clone, Default)]
pub struct AgentTrend {
    pub latest_model: String,
    pub buckets: Vec<UsageBucket>,
}

/// Usage of one workspace.
#[derive(Debug, Clone, Default)]
pub struct WorkspaceTrend {
    pub workspace: String,
    pub available: bool,
    pub total: Tokens,
    pub latest_model: String,
    pub last_activity: Option<Timestamp>,
    pub bucket_minutes: i64,
    pub buckets: Vec<UsageBucket>,
    pub agents: Vec<AgentTrend>,
}

} // verus!
