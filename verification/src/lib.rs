//! A system monitor's core: samples, session statistics, graph layout,
//! text and log formatting, and GPU back-end selection.

pub mod metrics;
pub mod display;
pub mod session;
pub mod text;
pub mod logging;
pub mod menu;
pub mod gpu;
