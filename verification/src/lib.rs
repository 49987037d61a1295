//! Core of a fleet telemetry system: lightweight agents ("cattle") report
//! host metrics to a collector ("herder") under one of three topologies.
//!
//! The crate holds the parts worth reasoning about precisely: the operating
//! mode configuration, the device identity store, the snapshot report
//! builders, the wire codec for the four message variants, and the
//! connection-mode state machines that sequence a session.  Network and file
//! transport, host sampling, and argument handling live outside and feed
//! these functions plain values.

pub mod codec;
pub mod config;
pub mod controller;
pub mod identity;
pub mod message;
pub mod snapshot;
