//! The sending side: turning messages into frames.

use crate::message::{Command, Message, SET_PIXEL_COLORS, SYS_EXCLUSIVE};
use crate::endian::write_u16_be;
use crate::wire::{frame_bytes, pixel_bytes};
use vstd::prelude::*;

verus! {

/// Why a message was not encoded.
#[derive(Clone, Copy, Debug, PartialEq, Eq)]
pub enum EncodeError {
    /// The payload is longer than the 16-bit length field can announce.
    Oversized,
}

/// Appends the colour components of `pixels` to `out`, pixel by pixel.
fn write_pixels(out: &mut Vec<u8>, pixels: &[[u8; 3]])
    ensures
        final(out)@ == old(out)@ + pixel_bytes(pixels@),
{
    let count: usize = pixels.len();
    let mut k: usize = 0;
    while k < count
        invariant
            count == pixels@.len(),
            k <= count,
            out@ == old(out)@ + pixel_bytes(pixels@.take(k as int)),
        decreases count - k,
    {
        let pixel: &[u8; 3] = &pixels[k];
        out.push(pixel[0]);
        out.push(pixel[1]);
        out.push(pixel[2]);
        k = k + 1;
        assert(out@ =~= old(out)@ + pixel_bytes(pixels@.take(k as int)));
    }
    assert(pixels@.take(k as int) =~= pixels@);
}

/// An encoder that collects the frames of the messages it is given, for a
/// transport to write out.
pub struct Client {
    written: Vec<u8>,
}

impl View for Client {
    type V = Seq<u8>;

    /// The bytes encoded and not yet taken, in the order to send them.
    closed spec fn view(&self) -> Seq<u8> {
        self.written@
    }
}

impl Client {
    /// A client that has encoded nothing yet.
    pub fn new() -> (client: Client)
        ensures
            client@ == Seq::<u8>::empty(),
    {
        Client { written: Vec::new() }
    }

    /// Encodes `msg` as one frame and appends it to the bytes to send.
    ///
    /// A message whose payload does not fit the length field is refused and
    /// leaves no byte behind.
    pub fn send(&mut self, msg: Message) -> (r: Result<(), EncodeError>)
        ensures
            msg@.is_valid() ==> r is Ok && final(self)@ == old(self)@ + frame_bytes(msg@),
            !msg@.is_valid() ==> final(self)@ == old(self)@ && r == Err::<(), EncodeError>(
                EncodeError::Oversized,
            ),
    {
        if !msg.is_valid() {
            return Err(EncodeError::Oversized);
        }
        let ser_len: usize = msg.len();
        let length: [u8; 2] = write_u16_be(ser_len as u16);
        match msg.command {
            Command::SetPixelColors { pixels } => {
                self.written.push(msg.channel);
                self.written.push(SET_PIXEL_COLORS);
                self.written.push(length[0]);
                self.written.push(length[1]);
                write_pixels(&mut self.written, pixels);
            },
            Command::SystemExclusive { id, data } => {
                self.written.push(msg.channel);
                self.written.push(SYS_EXCLUSIVE);
                self.written.push(length[0]);
                self.written.push(length[1]);
                self.written.push(id[0]);
                self.written.push(id[1]);
                self.written.extend_from_slice(data);
            },
        }
        assert(self@ =~= old(self)@ + frame_bytes(msg@));
        Ok(())
    }

    /// The bytes encoded and not yet taken.
    pub fn written(&self) -> (bytes: &[u8])
        ensures
            bytes@ == self@,
    {
        self.written.as_slice()
    }

    /// Hands over the bytes encoded so far and starts afresh.
    pub fn take(&mut self) -> (bytes: Vec<u8>)
        ensures
            bytes@ == old(self)@,
            final(self)@ == Seq::<u8>::empty(),
    {
        let mut bytes: Vec<u8> = Vec::new();
        core::mem::swap(&mut self.written, &mut bytes);
        bytes
    }
}

} // verus!
