//! A debounced button monitor: a polled digital input drives a toggling
//! digital output, and every transition is rendered as a timestamped log line.
//!
//! The crate holds the decisions only. Sleeping, the clock, file access and
//! hardware pins belong to the program that drives a [`monitor::Monitor`].

pub mod level;
pub mod log;
pub mod monitor;
pub mod pin;
pub mod startup;
pub mod trace;
