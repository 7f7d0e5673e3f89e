//! Core of a small daemon that watches the operating system's light/dark
//! appearance preference and runs user-provided scripts on every transition.
//!
//! The library holds the parts with real correctness requirements, each with a
//! verified contract: classifying the entries of the scripts directory
//! ([`discovery`]), deciding which scripts run and how their outcomes are
//! reported under the sequential and parallel policies ([`execution`]), and
//! deduplicating the raw stream of mode-change notifications ([`dispatch`]).
//! The platform plumbing that feeds these functions (filesystem walks, process
//! spawning, OS notification channels) lives outside the library and hands in
//! plain values.

/// The command-line surface and the listing command's decisions.
pub mod cli;

/// Configuration values and their defaults.
pub mod config;

/// Classification of the entries found in the scripts directory.
pub mod discovery;

/// Deduplication of raw mode-change notifications.
pub mod dispatch;

/// Which scripts run, and how their outcomes are reported.
pub mod execution;

/// The color mode value and its textual forms.
pub mod mode;

/// The detector abstraction over platform backends.
pub mod platform;
