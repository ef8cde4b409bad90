//! Encoding of M-Bus link-layer frames into their exact wire bytes.
//!
//! Four frame kinds are supported: the single-byte acknowledgment and
//! negative acknowledgment, the fixed five-byte short frame, and the long
//! frame that carries a variable payload. Short and long frames carry a
//! checksum, the sum of their control, address and payload bytes modulo 256.
pub mod ack;
pub mod checksum;
pub mod long;
pub mod nack;
pub mod short;

pub use ack::AckFrame;
pub use long::LongFrame;
pub use nack::NackFrame;
pub use short::ShortFrame;
