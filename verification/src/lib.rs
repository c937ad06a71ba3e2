//! Verified core of a bit-banged two-wire ("raw-wire") serial adapter.
//!
//! The device sits behind a serial link and obeys a byte-oriented command
//! protocol: an idle handshake that answers twenty `0x00` bytes with the
//! banner `BBIO1`, a mode-entry byte `0x05` that answers `RAW1`, and a
//! raw-wire command set that clocks bits onto a data line and samples bits
//! back, one acknowledgment byte per command.
//!
//! The library is the decision core of that firmware: a pure state machine
//! ([`device::Device`]) that consumes one input event at a time (a byte from
//! the host, or the levels sampled from the data line) and returns the exact
//! sequence of hardware actions the firmware must perform — serial bytes to
//! emit, clock and data edges to drive, microsecond holds, and sample points.
//! An unverified shell owns the pins and the UART and merely performs those
//! actions in order.

pub mod action;
pub mod bitbang;
pub mod device;
pub mod laws;
