//! Cutting frames from a buffer and reading what they hold.

use crate::endian::read_u16_be;
use crate::message::{
    Command, CommandView, Message, MessageView, SET_PIXEL_COLORS, SYS_EXCLUSIVE,
};
use crate::wire::{
    frame_span, parse_frame, pixel_at, pixels_of, DecodeError, Parsed, HEADER_SIZE,
};
use vstd::prelude::*;
use vstd::slice::slice_subrange;

verus! {

/// The payload of a frame, interpreted by its command tag.
#[derive(Debug, PartialEq)]
pub enum Payload<'a> {
    /// Colour triples, copied out of the buffer.
    Pixels(Vec<[u8; 3]>),
    /// A system id and the data after it, which still lies in the buffer.
    SystemExclusive { id: [u8; 2], data: &'a [u8] },
}

/// A frame cut from the front of a buffer.
#[derive(Debug, PartialEq)]
pub struct Frame<'a> {
    /// The channel byte of the header.
    pub channel: u8,
    /// What the payload holds.
    pub payload: Payload<'a>,
    /// Bytes the frame occupies in the buffer, header included.
    pub wire_len: usize,
}

impl<'a> View for Frame<'a> {
    type V = MessageView;

    /// The message that the frame carries.
    open spec fn view(&self) -> MessageView {
        MessageView {
            channel: self.channel,
            command: match self.payload {
                Payload::Pixels(pixels) => CommandView::SetPixelColors { pixels: pixels@ },
                Payload::SystemExclusive { id, data } => CommandView::SystemExclusive {
                    id,
                    data: data@,
                },
            },
        }
    }
}

impl<'a> Frame<'a> {
    /// The message that the frame carries, borrowed from the frame.
    pub fn message(&self) -> (msg: Message<'_>)
        ensures
            msg@ == self@,
    {
        match &self.payload {
            Payload::Pixels(pixels) => Message {
                channel: self.channel,
                command: Command::SetPixelColors { pixels: pixels.as_slice() },
            },
            Payload::SystemExclusive { id, data } => Message {
                channel: self.channel,
                command: Command::SystemExclusive { id: *id, data: *data },
            },
        }
    }
}

/// Groups a payload into colour triples. One or two bytes that are left over
/// at the end belong to no pixel and are dropped.
pub fn decode_pixels(payload: &[u8]) -> (pixels: Vec<[u8; 3]>)
    ensures
        pixels@ == pixels_of(payload@),
{
    let count: usize = payload.len() / 3;
    let mut pixels: Vec<[u8; 3]> = Vec::with_capacity(count);
    let mut k: usize = 0;
    while k < count
        invariant
            count == payload@.len() / 3,
            payload@.len() <= usize::MAX,
            k <= count,
            pixels@.len() == k,
            forall|j: int| 0 <= j < k ==> pixels@[j] == pixel_at(payload@, j),
        decreases count - k,
    {
        let pixel: [u8; 3] = [payload[3 * k], payload[3 * k + 1], payload[3 * k + 2]];
        pixels.push(pixel);
        k = k + 1;
    }
    pixels
}

/// Finds where the frame at the front of `buf` ends: the number of bytes it
/// occupies, header included, or `None` while fewer than four bytes or fewer
/// than the header announces are there. The length field alone decides; the
/// command tag is not looked at.
pub fn frame_len(buf: &[u8]) -> (span: Option<usize>)
    ensures
        match span {
            Some(n) => frame_span(buf@) == Some(n as nat),
            None => frame_span(buf@) is None,
        },
{
    if buf.len() < HEADER_SIZE {
        return None;
    }
    let length: usize = read_u16_be(slice_subrange(buf, 2, 4)) as usize;
    if buf.len() - HEADER_SIZE < length {
        None
    } else {
        Some(HEADER_SIZE + length)
    }
}

/// Decodes the frame at the front of `buf`.
///
/// Fewer than four bytes, or fewer than the header announces, are
/// [`DecodeError::Incomplete`]. Only a complete frame is looked into: its tag
/// decides how the payload is read, and an unknown tag or a payload too short
/// for its command is reported with the frame still whole in the buffer.
pub fn decode<'a>(buf: &'a [u8]) -> (r: Result<Frame<'a>, DecodeError>)
    ensures
        match r {
            Ok(frame) => parse_frame(buf@) == Ok::<Parsed, DecodeError>(
                Parsed { message: frame@, span: frame.wire_len as nat },
            ),
            Err(e) => parse_frame(buf@) == Err::<Parsed, DecodeError>(e),
        },
{
    let wire_len: usize = match frame_len(buf) {
        None => {
            return Err(DecodeError::Incomplete);
        },
        Some(span) => span,
    };
    let channel: u8 = buf[0];
    let tag: u8 = buf[1];
    let payload: &[u8] = slice_subrange(buf, HEADER_SIZE, wire_len);
    if tag == SET_PIXEL_COLORS {
        let pixels: Vec<[u8; 3]> = decode_pixels(payload);
        Ok(Frame { channel, payload: Payload::Pixels(pixels), wire_len })
    } else if tag == SYS_EXCLUSIVE {
        if payload.len() < 2 {
            return Err(DecodeError::Malformed);
        }
        let id: [u8; 2] = [payload[0], payload[1]];
        let data: &[u8] = slice_subrange(payload, 2, payload.len());
        Ok(Frame { channel, payload: Payload::SystemExclusive { id, data }, wire_len })
    } else {
        Err(DecodeError::UnknownCommand { tag })
    }
}

} // verus!
