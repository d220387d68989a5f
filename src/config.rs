use vstd::prelude::*;

use crate::github::client::Config as GithubConfig;

verus! {

/// The merge bot's settings: how often it polls, and how it reaches the API.
pub struct MergeBotConfig {
    pub interval: std::time::Duration,
    pub github: GithubConfig,
}

impl MergeBotConfig {
    /// The time between two ticks.
    pub fn interval(&self) -> (r: std::time::Duration)
        ensures
            r == self.interval,
    {
        self.interval
    }

    /// How the bot reaches the API.
    pub fn github(&self) -> (r: &GithubConfig)
        ensures
            *r == self.github,
    {
        &self.github
    }
}

} // verus!
