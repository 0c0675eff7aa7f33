//! A verified byte-protocol engine for a host-controlled blinking output.
//!
//! The engine assembles four-byte command frames from a serial byte stream,
//! dispatches the commands onto a periodic toggle scheduler driven by a
//! wrapping cycle counter, and decides each iteration of the cooperative
//! control loop. The host side of the link gets its frame encoding and its
//! rate-input validation from here as well; all hardware and serial-port
//! access stays outside the library.

pub mod device;
pub mod host;
pub mod parser;
pub mod scheduler;
