//! The receiving side: buffering a byte stream and handing each frame's
//! message to a device.

use crate::decode::{decode, frame_len};
use crate::message::{Message, MessageView};
use crate::wire::{frame_span, parse_frame, DecodeError, MAX_FRAME_SIZE};
use vstd::prelude::*;
use vstd::slice::slice_subrange;

verus! {

/// The consumer of decoded messages: one strand of pixels, or whatever stands
/// for it.
pub trait Device {
    /// What the device reports when it cannot take a message.
    type Fault;

    /// What one call of [`Device::read_msg`] may do: this device was handed
    /// `msg`, became `after` and gave `answer`. A device may say more of
    /// itself; as it stands here nothing is promised.
    open spec fn takes(
        &self,
        msg: MessageView,
        after: &Self,
        answer: Result<(), Self::Fault>,
    ) -> bool {
        true
    }

    /// Takes one message. The message borrows from the server's buffer and is
    /// gone when the call returns: a device copies what it wants to keep.
    fn read_msg(&mut self, msg: &Message) -> (answer: Result<(), Self::Fault>)
        ensures
            old(self).takes(msg@, final(self), answer),
    ;

    /// The channel that the device listens on, for whoever routes messages.
    fn channel(&self) -> u8;
}

/// Why a call of [`Server::receive`] delivered nothing, or what came of the
/// delivery.
#[derive(Debug, PartialEq)]
pub enum ReceiveError<E> {
    /// The front of the buffer did not decode. The buffer is as it was.
    Frame(DecodeError),
    /// The frame was decoded, handed over and dropped from the buffer, and the
    /// device refused it.
    Device(E),
}

/// What [`Server::receive`] answers once the device has answered.
pub open spec fn delivery_result<E>(answer: Result<(), E>) -> Result<(), ReceiveError<E>> {
    match answer {
        Ok(()) => Ok(()),
        Err(fault) => Err(ReceiveError::Device(fault)),
    }
}

/// The buffer after `bytes` were offered to a server that held `buffered`:
/// as many of them are appended as the capacity leaves room for.
pub open spec fn fed(buffered: Seq<u8>, bytes: Seq<u8>) -> Seq<u8> {
    if buffered.len() + bytes.len() <= MAX_FRAME_SIZE {
        buffered + bytes
    } else {
        buffered + bytes.take(MAX_FRAME_SIZE - buffered.len())
    }
}

/// A frame decoder over the bytes that a transport has received.
///
/// It holds at most [`MAX_FRAME_SIZE`] bytes, which is room for any one
/// frame, so a full buffer always has a frame to give.
pub struct Server {
    buffer: Vec<u8>,
}

impl View for Server {
    type V = Seq<u8>;

    /// The bytes received and not yet consumed, oldest first.
    closed spec fn view(&self) -> Seq<u8> {
        self.buffer@
    }
}

impl Server {
    #[verifier::type_invariant]
    spec fn within_capacity(&self) -> bool {
        self.buffer@.len() <= MAX_FRAME_SIZE
    }

    /// A server that has received nothing yet.
    pub fn new() -> (server: Server)
        ensures
            server@ == Seq::<u8>::empty(),
    {
        Server { buffer: Vec::new() }
    }

    /// The bytes received and not yet consumed.
    pub fn buffered(&self) -> (bytes: &[u8])
        ensures
            bytes@ == self@,
            bytes@.len() <= MAX_FRAME_SIZE,
    {
        proof {
            use_type_invariant(self);
        }
        self.buffer.as_slice()
    }

    /// How many more bytes the buffer has room for.
    pub fn room(&self) -> (free: usize)
        ensures
            free == MAX_FRAME_SIZE - self@.len(),
    {
        proof {
            use_type_invariant(self);
        }
        MAX_FRAME_SIZE - self.buffer.len()
    }

    /// Takes in bytes from the transport, as many as there is room for, and
    /// says how many that was. What did not fit is to be offered again once
    /// [`Server::receive`] or [`Server::skip_frame`] has made room.
    pub fn feed(&mut self, bytes: &[u8]) -> (taken: usize)
        ensures
            final(self)@ == fed(old(self)@, bytes@),
            taken == final(self)@.len() - old(self)@.len(),
    {
        let room: usize = self.room();
        let taken: usize = if bytes.len() <= room {
            bytes.len()
        } else {
            room
        };
        let mut buffer: Vec<u8> = self.take_buffer();
        buffer.extend_from_slice(slice_subrange(bytes, 0, taken));
        assert(buffer@ =~= fed(old(self)@, bytes@));
        self.buffer = buffer;
        taken
    }

    /// Moves the buffer out and leaves an empty one, so that the buffer can
    /// change without the server ever being seen over capacity.
    fn take_buffer(&mut self) -> (buffer: Vec<u8>)
        ensures
            buffer@ == old(self)@,
            buffer@.len() <= MAX_FRAME_SIZE,
            final(self)@ == Seq::<u8>::empty(),
    {
        proof {
            use_type_invariant(&*self);
        }
        let mut buffer: Vec<u8> = Vec::new();
        core::mem::swap(&mut self.buffer, &mut buffer);
        buffer
    }

    /// Drops the first `span` bytes of the buffer.
    fn advance(&mut self, span: usize)
        requires
            span <= old(self)@.len(),
        ensures
            final(self)@ == old(self)@.skip(span as int),
    {
        let mut buffer: Vec<u8> = self.take_buffer();
        let rest: Vec<u8> = buffer.split_off(span);
        self.buffer = rest;
    }

    /// Ends a delivery: drops the frame's `span` bytes and passes on what the
    /// device answered.
    fn complete<E>(&mut self, span: usize, answer: Result<(), E>) -> (r: Result<
        (),
        ReceiveError<E>,
    >)
        requires
            span <= old(self)@.len(),
        ensures
            final(self)@ == old(self)@.skip(span as int),
            r == delivery_result(answer),
    {
        self.advance(span);
        match answer {
            Ok(()) => Ok(()),
            Err(fault) => Err(ReceiveError::Device(fault)),
        }
    }

    /// Decodes the frame at the front of the buffer, hands its message to
    /// `output` and drops the frame from the buffer.
    ///
    /// Where the front of the buffer does not decode, nothing is consumed and
    /// the device is not called. After [`DecodeError::Incomplete`] the caller
    /// feeds more bytes; after the other two the frame is whole and
    /// [`Server::skip_frame`] steps over it. A decoded frame is consumed
    /// whatever the device answers, and a fault of the device is passed on.
    pub fn receive<D: Device>(&mut self, output: &mut D) -> (r: Result<(), ReceiveError<D::Fault>>)
        ensures
            match parse_frame(old(self)@) {
                Ok(parsed) => {
                    &&& final(self)@ == old(self)@.skip(parsed.span as int)
                    &&& match r {
                        Ok(()) => old(output).takes(parsed.message, final(output), Ok(())),
                        Err(ReceiveError::Device(fault)) => old(output).takes(
                            parsed.message,
                            final(output),
                            Err(fault),
                        ),
                        Err(ReceiveError::Frame(_)) => false,
                    }
                },
                Err(e) => {
                    &&& r == Err::<(), ReceiveError<D::Fault>>(ReceiveError::Frame(e))
                    &&& final(self)@ == old(self)@
                    &&& *final(output) == *old(output)
                },
            },
    {
        let (span, answer) = match decode(self.buffer.as_slice()) {
            Err(e) => {
                return Err(ReceiveError::Frame(e));
            },
            Ok(frame) => (frame.wire_len, output.read_msg(&frame.message())),
        };
        assert(answer is Ok ==> answer->Ok_0 == ());
        self.complete(span, answer)
    }

    /// Steps over the frame at the front of the buffer without looking at
    /// its tag or payload, and says how many bytes that was. Nothing happens,
    /// and 0 is returned, while the frame is incomplete.
    pub fn skip_frame(&mut self) -> (skipped: usize)
        ensures
            match frame_span(old(self)@) {
                Some(span) => skipped == span && final(self)@ == old(self)@.skip(span as int),
                None => skipped == 0 && final(self)@ == old(self)@,
            },
    {
        match frame_len(self.buffer.as_slice()) {
            None => 0,
            Some(span) => {
                self.advance(span);
                span
            },
        }
    }
}

} // verus!
