//! Decision core of a two-venue arbitrage monitor.
//!
//! Each cycle turns two raw venue quotes into an exact profit estimate, compares the
//! estimate with a configured threshold and, when the threshold is exceeded, drafts the
//! record that the caller persists. All amounts are integers in the base units of their
//! token; every ratio is kept as an exact fraction, so no decision depends on rounding.

pub mod config;
pub mod driver;
pub mod estimator;
pub mod policy;
pub mod quote;
pub mod recorder;
pub mod units;
pub mod wide;
