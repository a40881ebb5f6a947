//! Threshold-crossing alerts on a sampled premium.
//!
//! A premium is the fractional spread between a venue's price and a reference
//! rate. The library decides, per source, when a sustained breach of the
//! threshold becomes one alert and when a recovery past the reset band clears
//! it, and it sequences one polling round over the reference rate and every
//! registered source.

pub mod machine;
pub mod orchestrator;
pub mod quotes;
pub mod retry;
pub mod round;
pub mod sample;
pub mod settings;
pub mod strategy;
pub mod trace;
