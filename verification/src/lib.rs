//! A minimal telemetry relay: a collector samples host metrics, formats them
//! as a three-line text payload, and pushes each sample over a fresh TCP
//! connection to a sink, which reads one bounded buffer per connection, logs
//! the lossily decoded text, and answers with a fixed acknowledgment line.
//!
//! This crate holds the verified logic of both sides: the shared endpoint and
//! buffer constants, decimal rendering of metric values, payload formatting,
//! the sink's per-connection handling, and the step decisions of both loops.
//! The sockets, the clock and the host-metric sampling live outside it.

pub mod collector;
pub mod config;
pub mod decimal;
pub mod sample;
pub mod sink;
