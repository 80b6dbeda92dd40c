//! Decision logic of the emonHP firmware: what the M-Bus supply, its indicators,
//! the serial console, the display and the watchdog do, with no hardware in it.

pub mod board;
pub mod config;
pub mod display;
pub mod mbus;
pub mod outputs;
pub mod uart_rx;
pub mod uart_tx;
pub mod watchdog;
