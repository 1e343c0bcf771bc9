//! The settings the monitor is started with.

use vstd::prelude::*;
use vstd::string::StringExecFns;

verus! {

/// The settings of one run.
#[derive(Debug)]
pub struct Args {
    /// Where the list of targets is read from; no targets without it.
    pub targets: Option<String>,
    /// Where the observations are kept.
    pub database: String,
    /// The port the query surface listens on.
    pub port: Option<u16>,
    /// The address the query surface listens on.
    pub address: Option<String>,
    /// For how many days an observation is kept.
    pub observation_retention_duration: u32,
    /// How many seconds lie between two sweeps of old observations.
    pub observation_retention_check_interval: u64,
}

impl Args {
    /// Whether two optional texts are both absent or hold the same text.
    pub open spec fn same_text(a: Option<String>, b: Option<String>) -> bool {
        match (a, b) {
            (Some(x), Some(y)) => x@ == y@,
            (None, None) => true,
            _ => false,
        }
    }
}

impl Clone for Args {
    fn clone(&self) -> (copy: Args)
        ensures
            Args::same_text(copy.targets, self.targets),
            copy.database@ == self.database@,
            copy.port == self.port,
            Args::same_text(copy.address, self.address),
            copy.observation_retention_duration == self.observation_retention_duration,
            copy.observation_retention_check_interval == self.observation_retention_check_interval,
    {
        Args {
            targets: match &self.targets {
                Some(path) => Some(path.clone()),
                None => None,
            },
            database: self.database.clone(),
            port: self.port,
            address: match &self.address {
                Some(address) => Some(address.clone()),
                None => None,
            },
            observation_retention_duration: self.observation_retention_duration,
            observation_retention_check_interval: self.observation_retention_check_interval,
        }
    }
}

impl Default for Args {
    /// The settings of a run that was told nothing: observations are kept in
    /// `monitoring.db` for 30 days and swept every 60 seconds.
    fn default() -> (args: Args)
        ensures
            args.targets is None,
            args.database@ == "monitoring.db"@,
            args.port is None,
            args.address is None,
            args.observation_retention_duration == 30,
            args.observation_retention_check_interval == 60,
    {
        Args {
            targets: None,
            database: String::from_str("monitoring.db"),
            port: None,
            address: None,
            observation_retention_duration: 30,
            observation_retention_check_interval: 60,
        }
    }
}

} // verus!
