//! The BLN protocol: its typed events, its frame layout and the codec
//! between them.

pub mod codec;
pub mod conversions;
pub mod frame;
pub mod protocol;
pub mod theorems;
pub mod types;
