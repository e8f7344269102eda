//! The configuration as a whole.

use crate::contract::WatchedContract;
use crate::error::{ConfigError, ConfigErrorView};
use vstd::prelude::*;

verus! {

/// Maximum number of watched contracts allowed in a single configuration.
/// Exceeding this limit would create too many concurrent Horizon polling tasks,
/// potentially exhausting memory or file descriptors.
pub const MAX_CONTRACTS: usize = 100;

/// What to watch, and how often.
#[derive(Debug)]
pub struct AppConfig {
    pub poll_interval_seconds: u64,
    pub contracts: Vec<WatchedContract>,
}

/// Why a file did not yield a configuration.
#[derive(Debug, Clone, Copy, PartialEq, Eq, Structural)]
pub enum LoadFailure {
    /// The file could not be read.
    Unreadable,
    /// The file was read, and its contents are not a configuration.
    Malformed,
}

impl AppConfig {
    /// The complaint of each contract, in order.
    pub open spec fn contract_complaints(self) -> Seq<Option<ConfigErrorView>> {
        Seq::new(self.contracts@.len(), |i: int| self.contracts@[i].complaint())
    }

    /// The first complaint about the configuration, if any: the interval comes
    /// first, then the number of contracts and the contracts in order.
    pub open spec fn complaint(self) -> Option<ConfigErrorView> {
        if self.poll_interval_seconds == 0 {
            Some(ConfigErrorView::ZeroPollInterval)
        } else if self.poll_interval_seconds > 3600 {
            Some(ConfigErrorView::PollIntervalTooLong)
        } else if self.contracts@.len() == 0 {
            Some(ConfigErrorView::NoContracts)
        } else if self.contracts@.len() > MAX_CONTRACTS {
            Some(ConfigErrorView::TooManyContracts { configured: self.contracts@.len() })
        } else {
            crate::error::first_complaint(self.contract_complaints())
        }
    }

    /// Takes a configuration out of a file: `loaded` is what reading and parsing
    /// the file at `path` gave. Only a valid configuration is handed on.
    pub fn from_file(path: &str, loaded: Result<AppConfig, LoadFailure>) -> (outcome: Result<
        AppConfig,
        ConfigError,
    >)
        ensures
            match loaded {
                Err(LoadFailure::Unreadable) => outcome matches Err(error) && error@
                    == (ConfigErrorView::UnreadableFile { path: path@ }),
                Err(LoadFailure::Malformed) => outcome matches Err(error) && error@
                    == (ConfigErrorView::MalformedFile { path: path@ }),
                Ok(config) => match config.complaint() {
                    Some(complaint) => outcome matches Err(error) && error@ == complaint,
                    None => outcome == Ok::<AppConfig, ConfigError>(config),
                },
            },
    {
        match loaded {
            Err(LoadFailure::Unreadable) => Err(
                ConfigError::UnreadableFile { path: path.to_owned() },
            ),
            Err(LoadFailure::Malformed) => Err(
                ConfigError::MalformedFile { path: path.to_owned() },
            ),
            Ok(config) => match config.validate() {
                Ok(()) => Ok(config),
                Err(error) => Err(error),
            },
        }
    }

    /// Refuses a configuration that cannot be run.
    pub fn validate(&self) -> (outcome: Result<(), ConfigError>)
        ensures
            match self.complaint() {
                Some(complaint) => outcome matches Err(error) && error@ == complaint,
                None => outcome is Ok,
            },
    {
        if self.poll_interval_seconds == 0 {
            return Err(ConfigError::ZeroPollInterval);
        }
        if self.poll_interval_seconds > 3600 {
            return Err(ConfigError::PollIntervalTooLong);
        }
        if self.contracts.is_empty() {
            return Err(ConfigError::NoContracts);
        }
        if self.contracts.len() > MAX_CONTRACTS {
            return Err(ConfigError::TooManyContracts { configured: self.contracts.len() });
        }
        let mut i: usize = 0;
        #[verifier::loop_isolation(false)]
        while i < self.contracts.len()
            invariant
                i <= self.contracts.len(),
                forall|j: int| 0 <= j < i ==> #[trigger] self.contract_complaints()[j] is None,
            decreases self.contracts.len() - i,
        {
            match self.contracts[i].validate() {
                Ok(()) => {
                    assert(self.contract_complaints()[i as int] is None);
                },
                Err(error) => {
                    proof {
                        crate::error::lemma_first_complaint(self.contract_complaints(), i as int);
                    }
                    return Err(error);
                },
            }
            i += 1;
        }
        proof {
            crate::error::lemma_first_complaint(self.contract_complaints(), i as int);
        }
        Ok(())
    }
}

} // verus!
