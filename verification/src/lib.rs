//! Zero-copy decoding of raw network frames into typed protocol headers.
//!
//! `byte_slice` holds the shrinkable window over a byte buffer and the
//! big-endian field codec; `packet` holds the layered decoders built on it.

pub mod byte_slice;
pub mod packet;
