//! A status-bar data source for a locally running proxy-routing daemon.
//!
//! The library holds the verified core of the tool: the aggregator that keeps
//! running traffic maxima and rate-limits emissions, the resolver that turns a
//! topology snapshot into the active profile name, the formatter that renders
//! byte counts and the single-line JSON output records, the configuration
//! extractor, and the outer loop as an explicit state machine. The binary
//! around it performs the outside work — reading the configuration file,
//! talking to the daemon's control API, printing, sleeping — and feeds plain
//! values in and out of the library.

pub mod aggregate;
pub mod config;
pub mod driver;
pub mod emit;
pub mod format;
pub mod numfmt;
pub mod pattern;
pub mod strutil;
pub mod topology;
