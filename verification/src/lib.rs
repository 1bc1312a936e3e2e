//! Core of a livestream capture service: configuration snapshots, a typed
//! publish/subscribe bus, a task registry, per-source feed scanning, and the
//! capture supervisor's lifecycle state machine.

pub mod config;
pub mod control;
pub mod msgbus;
pub mod notifier;
pub mod pattern;
pub mod registry;
pub mod scanner;
pub mod supervisor;
pub mod task;
