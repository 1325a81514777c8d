//! Command and response protocol layer for a discrete secure-element chip.
//!
//! The chip holds keys, counters and a random-number generator in
//! addressable memory zones and is driven by fixed-format, checksummed
//! binary command frames. This crate assembles those frames (opcode, mode,
//! parameters, payload, CRC) and decodes the chip's raw response buffers
//! into typed fixed-width values. It performs no I/O: a transport layer
//! sends the finished frame bytes and hands back the raw reply.

pub mod checksum;
pub mod command;
pub mod error;
pub mod memory;
pub mod packet;

pub use error::Error;
