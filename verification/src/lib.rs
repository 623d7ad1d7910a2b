//! Control logic of an interactive terminal panel for a 24-channel LED driver.
//!
//! Everything here is a pure function of plain values: key codes come in,
//! drawing instructions and device requests go out. Terminal and network
//! access belong to whoever drives these functions.

pub mod channel;
pub mod config;
pub mod decoder;
pub mod keys;
pub mod messages;
pub mod panel;
pub mod screen;
pub mod text;
