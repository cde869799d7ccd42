//! The wire format, as functions on sequences of bytes.
//!
//! A frame is four header bytes and a payload:
//!
//! ```text
//! byte 0       channel
//! byte 1       command tag
//! bytes 2-3    payload length, big-endian
//! bytes 4..    payload
//! ```

use crate::endian::{big_endian, big_endian_bytes};
use crate::message::{CommandView, MessageView, MAX_MESSAGE_SIZE, SET_PIXEL_COLORS, SYS_EXCLUSIVE};
use vstd::prelude::*;

verus! {

/// Bytes of a frame before its payload.
pub const HEADER_SIZE: usize = 4;

/// Most bytes a single frame can occupy: the header and the largest payload.
pub const MAX_FRAME_SIZE: usize = HEADER_SIZE + MAX_MESSAGE_SIZE;

/// Why the bytes at the front of a buffer did not yield a message.
#[derive(Clone, Copy, Debug, PartialEq, Eq)]
pub enum DecodeError {
    /// The header or the payload it announces has not arrived in full. Not a
    /// failure: the same bytes followed by more may yet decode.
    Incomplete,
    /// The payload is shorter than its command needs.
    Malformed,
    /// The frame is complete but its command tag is not one this codec knows.
    UnknownCommand {
        /// The tag found in the header.
        tag: u8,
    },
}

/// A message read off the wire, with the number of bytes it occupied.
pub struct Parsed {
    pub message: MessageView,
    pub span: nat,
}

/// The tag that announces a command.
pub open spec fn tag_of(command: CommandView) -> u8 {
    match command {
        CommandView::SetPixelColors { .. } => SET_PIXEL_COLORS,
        CommandView::SystemExclusive { .. } => SYS_EXCLUSIVE,
    }
}

/// The colour components of `pixels`, one pixel after the other.
pub open spec fn pixel_bytes(pixels: Seq<[u8; 3]>) -> Seq<u8> {
    Seq::new(3 * pixels.len(), |i: int| pixels[i / 3][i % 3])
}

/// The payload of a command.
pub open spec fn payload_bytes(command: CommandView) -> Seq<u8> {
    match command {
        CommandView::SetPixelColors { pixels } => pixel_bytes(pixels),
        CommandView::SystemExclusive { id, data } => id@ + data,
    }
}

/// The frame of a message: channel, tag, payload length, payload.
pub open spec fn frame_bytes(message: MessageView) -> Seq<u8>
    recommends
        message.is_valid(),
{
    seq![message.channel, tag_of(message.command)] + big_endian_bytes(message.payload_len())
        + payload_bytes(message.command)
}

/// The payload length that the header at the front of `buf` announces.
pub open spec fn announced_len(buf: Seq<u8>) -> nat
    recommends
        buf.len() >= HEADER_SIZE,
{
    big_endian(buf[2], buf[3])
}

/// The number of bytes that the frame at the front of `buf` occupies, once
/// its header and all of its payload are there.
pub open spec fn frame_span(buf: Seq<u8>) -> Option<nat> {
    if buf.len() >= HEADER_SIZE && buf.len() >= HEADER_SIZE + announced_len(buf) {
        Some(HEADER_SIZE as nat + announced_len(buf))
    } else {
        None
    }
}

/// The pixel that starts at byte `3 * k` of a payload.
pub open spec fn pixel_at(payload: Seq<u8>, k: int) -> [u8; 3] {
    [payload[3 * k], payload[3 * k + 1], payload[3 * k + 2]]
}

/// The whole pixels of a payload; one or two bytes left over are dropped.
pub open spec fn pixels_of(payload: Seq<u8>) -> Seq<[u8; 3]> {
    Seq::new(payload.len() / 3, |k: int| pixel_at(payload, k))
}

/// The command that a payload holds under a tag.
pub open spec fn command_of(tag: u8, payload: Seq<u8>) -> Result<CommandView, DecodeError> {
    if tag == SET_PIXEL_COLORS {
        Ok(CommandView::SetPixelColors { pixels: pixels_of(payload) })
    } else if tag == SYS_EXCLUSIVE {
        if payload.len() < 2 {
            Err(DecodeError::Malformed)
        } else {
            Ok(
                CommandView::SystemExclusive {
                    id: [payload[0], payload[1]],
                    data: payload.skip(2),
                },
            )
        }
    } else {
        Err(DecodeError::UnknownCommand { tag })
    }
}

/// What the front of `buf` decodes to.
pub open spec fn parse_frame(buf: Seq<u8>) -> Result<Parsed, DecodeError> {
    match frame_span(buf) {
        None => Err(DecodeError::Incomplete),
        Some(span) => match command_of(buf[1], buf.subrange(HEADER_SIZE as int, span as int)) {
            Ok(command) => Ok(Parsed { message: MessageView { channel: buf[0], command }, span }),
            Err(e) => Err(e),
        },
    }
}

} // verus!
