use std::time::Duration;
use vstd::prelude::*;

verus! {

/// Settings loaded once at startup and only read afterwards.
pub struct Config {
    /// How long to wait between two polls.
    pub frequency: Duration,
    /// What the summarizer is asked and with which model.
    pub agent: AgentConfig,
    /// The identity of the presence session.
    pub discord: DiscordConfig,
}

/// The identity of the presence session.
pub struct DiscordConfig {
    /// The numeric client id of the application.
    pub client: u64,
}

/// The summarizer's parameters.
pub struct AgentConfig {
    /// The model identifier.
    pub model: String,
    /// The system preamble.
    pub preamble: String,
    /// The prompt that asks for the summary.
    pub prompt: String,
}

} // verus!
