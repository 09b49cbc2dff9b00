//! Simulation core for an 8-position DIP switch bank that configures the
//! video outputs of a broadcast signal generator.
//!
//! The crate is split into four parts:
//! - [`dipswitch`]: the authoritative state of the 8 switches, with the
//!   derived output configuration and the masked bitmask;
//! - [`format_calculator`]: the pure truth table that turns six switch
//!   readings into a named video format;
//! - [`animation`]: a per-switch linear tween over integer microseconds,
//!   driving the visual position of a switch between its two extremes;
//! - [`panel`]: the orchestrator owning one switch bank and eight
//!   animations, keeping every animation target in step with its switch.

pub mod animation;
pub mod dipswitch;
pub mod format_calculator;
pub mod panel;
