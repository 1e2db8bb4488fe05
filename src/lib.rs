//! Authorization engine and privileged-execution state machine of a
//! `sudo`/`su`-style elevation tool.

pub mod config;
pub mod identity;
pub mod launch;
mod pattern;
pub mod policy;
pub mod selector;
pub mod session;
