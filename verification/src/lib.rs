//! Verified core of a command-line client for a scheduler-loader daemon.
//!
//! The daemon owns the schedulers; this library holds everything the client
//! computes on its own: scheduler-name normalization, validation of a
//! requested scheduler against the daemon-reported list, the decision rules
//! of each subcommand, and the exact text of every status and error line.
//! The process boundary (bus connection, remote calls, printing) lives
//! outside the library and hands it plain values.

pub mod command;
pub mod prefix;
pub mod report;
pub mod sched;
pub mod text;
