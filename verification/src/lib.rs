//! Port-mapped I/O for a legacy PC platform: typed port handles, the
//! dual 8259 interrupt-controller driver and a 16550 UART line driver.
//!
//! The drivers never touch hardware themselves. Every operation yields the
//! exact transfers (`PortOp`) to perform, and decides its next step from the
//! values those transfers read back, so each register protocol is stated and
//! proved independently of the machine that carries it out.

pub mod pic;
pub mod pic_model;
pub mod ports;
pub mod serial;
pub mod uart_model;
