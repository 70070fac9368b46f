//! Lifecycle management for a detached `sing-box` process and the
//! batch pipeline that compiles geosite rule-set categories.
//!
//! The crate holds the decision logic: how the quoted command line for a
//! detached launch is built, which subprocess invocation the compilation
//! pipeline issues next and how it reacts to each outcome, how command-line
//! and persisted configuration values are resolved, and the exact text of
//! every user-visible message. Performing the resulting process creations,
//! file reads and deletions is left to the surrounding binary.

pub mod cmdline;
pub mod options;
pub mod pipeline;
pub mod supervise;
