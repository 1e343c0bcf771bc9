//! The verified core of a small service monitor.
//!
//! The monitor probes a declared set of targets on a fixed cadence, records
//! one observation per cycle and streams the observations to whoever
//! listens. This crate holds the rules of that work, each with a contract
//! that is proved: what a probe's reading means ([`checks`]), how attempts,
//! retries and timeouts make one finalized outcome per cycle ([`schedule`]),
//! what the observation store keeps and answers ([`db`]), what a subscriber's
//! stream hands on ([`paths`]), and the bus that carries the messages
//! ([`bus`]). Running probes, waiting for ticks and keeping the store on disk
//! is left to the program around it.

pub mod args;
pub mod bus;
pub mod checks;
pub mod db;
pub mod model;
pub mod paths;
pub mod schedule;
