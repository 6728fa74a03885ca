//! Port abstraction and connection fabric between a CHIP-8 simulation core
//! and its peripherals: key mapping, display frames, bounded channels, ports,
//! connectors and the display forwarding worker.

pub mod channel;
pub mod display;
pub mod keyboard;
pub mod peripheral;
pub mod port;
pub mod worker;
