//! Scheduling core of a bridge that polls a power-distribution unit and
//! republishes what changed on a message bus.
//!
//! The crate holds the decisions only: which task runs next, what a fresh
//! snapshot adds to the last one, how a device record is flattened into
//! messages, how an inbound control message is decoded, how often a failing
//! device command is tried again and what a configuration document says.
//! Reading the clock, talking to the device and to the broker are left to the
//! caller, who hands their results in as plain values.

pub mod cache;
pub mod command;
pub mod config;
pub mod event;
pub mod inifile;
pub mod message;
pub mod mqttify;
pub mod mqttify_laws;
pub mod pattern;
pub mod poll;
pub mod registry;
pub mod registry_laws;
pub mod retry;
pub mod scheduler;
pub mod scheduler_laws;
pub mod task;
pub mod text;
