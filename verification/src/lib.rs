//! TxWatch: the verified core of a Stellar Soroban contract monitor and
//! webhook alert engine.
//!
//! A configuration names the contracts to watch (`config`, `contract`, `network`,
//! `rule`); what is wrong with one is an `error`. A watch takes the contracts in
//! turn (`watch`), polls each from its cursor on (`poll`, `cursor`) and reads what
//! Horizon answers (`horizon`). `report` holds what the command line prints, and
//! `laws` what holds of it all.

pub mod config;
pub mod contract;
pub mod cursor;
pub mod error;
pub mod horizon;
pub mod laws;
pub mod network;
pub mod poll;
pub mod report;
pub mod rule;
pub mod text;
pub mod watch;
pub mod webhook;

pub use config::{AppConfig, LoadFailure, MAX_CONTRACTS};
pub use contract::WatchedContract;
pub use cursor::Cursors;
pub use error::{ConfigError, RuleFault};
pub use horizon::{Details, FetchFailure, Operation, PollError, Record};
pub use network::Network;
pub use poll::{AlertStep, EvaluationStep, OperationsStep, PageStep, PollStep};
pub use rule::AlertRule;
pub use watch::{Turn, Watcher};
pub use webhook::UrlParts;
