//! A point-to-point link to a positioning device over a reliable byte
//! stream: framing, checksumming and interpretation of the BLN protocol, and
//! the decisions of the workers that run the link.
//!
//! - [`utils`]: the XOR checksum and what it detects.
//! - [`types`], [`traits`]: the generic command that connects the framing
//!   engine to a concrete protocol, and the interfaces of a codec.
//! - [`bln`]: the BLN frame layout, its decoder and encoder, the mapping
//!   between commands and typed events, and the theorems about them.
//! - [`link`], [`stream`]: one step of each worker of the link, and the shape
//!   of the transport underneath.
//! - [`log_lines`]: the bounded store of lines behind the log view.
//! - [`buffer`]: what is assumed of the `bytes` crate.

pub mod bln;
pub mod buffer;
pub mod link;
pub mod log_lines;
pub mod stream;
pub mod traits;
pub mod types;
pub mod utils;
