//! The windowed buffer, the field codec and the packed address values.

pub mod address;
pub mod codec;
pub mod hex;
pub mod window;

pub use address::Ipv4addr;
pub use address::Ipv6addr;
pub use address::MacAddress;
pub use codec::SliceToUnsigned;
pub use hex::Hex;
pub use window::Bytes;
pub use window::DecodeError;
pub use window::Shift;
