//! Open Pixel Control: the wire codec for commanding strands of addressable
//! LEDs over a byte stream.
//!
//! The crate never touches a socket. A [`Client`] turns messages into the
//! bytes to send; a [`Server`] is fed the bytes that arrived and hands each
//! complete frame to a [`Device`]. Every function carries a contract over the
//! wire format that [`wire`] defines, and [`laws`] proves what ties encoding
//! to decoding. The only code taken on trust is the pair of big-endian
//! conversions in [`endian`].

pub mod client;
pub mod decode;
pub mod endian;
pub mod laws;
pub mod message;
pub mod server;
pub mod wire;

pub use client::{Client, EncodeError};
pub use decode::{decode, decode_pixels, frame_len, Frame, Payload};
pub use message::{Command, Message, DEFAULT_OPC_PORT};
pub use server::{Device, ReceiveError, Server};
pub use wire::DecodeError;
