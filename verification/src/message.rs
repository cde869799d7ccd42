//! The message model: a channel and one of two commands.

use vstd::prelude::*;

verus! {

/// Default TCP port of an Open Pixel Control server.
pub const DEFAULT_OPC_PORT: usize = 7890;

/// Largest payload, in bytes, that the 16-bit length field can announce.
pub const MAX_MESSAGE_SIZE: usize = 0xffff;

/// Command tag of [`Command::SetPixelColors`].
pub const SET_PIXEL_COLORS: u8 = 0x00;

/// Command tag of [`Command::SystemExclusive`].
pub const SYS_EXCLUSIVE: u8 = 0xff;

/// The channel that addresses every strand at once.
pub const BROADCAST_CHANNEL: u8 = 0;

/// What a message asks of the strand it addresses.
#[derive(Clone, Copy, Debug, PartialEq)]
pub enum Command<'data> {
    /// Sets the first `pixels.len()` pixels of the strand, in order from index
    /// 0. Pixels beyond that keep their colour, and data for more pixels than
    /// the strand has is ignored by the receiver.
    SetPixelColors {
        /// One red, green, blue triple per pixel.
        pixels: &'data [[u8; 3]],
    },
    /// A message for one particular kind of device or software system.
    SystemExclusive {
        /// Identifies the system that defines the format of `data`.
        id: [u8; 2],
        /// Opaque to the codec.
        data: &'data [u8],
    },
}

/// One Open Pixel Control message.
#[derive(Clone, Copy, Debug, PartialEq)]
pub struct Message<'data> {
    /// 0 addresses every strand; 1 to 255 address one strand each.
    pub channel: u8,
    /// The command and its data.
    pub command: Command<'data>,
}

/// The mathematical value of a [`Command`].
pub enum CommandView {
    SetPixelColors { pixels: Seq<[u8; 3]> },
    SystemExclusive { id: [u8; 2], data: Seq<u8> },
}

/// The mathematical value of a [`Message`].
pub struct MessageView {
    pub channel: u8,
    pub command: CommandView,
}

impl CommandView {
    /// Number of payload bytes the command occupies on the wire: three per
    /// pixel, or the two id bytes and the data.
    pub open spec fn payload_len(self) -> nat {
        match self {
            CommandView::SetPixelColors { pixels } => 3 * pixels.len(),
            CommandView::SystemExclusive { id, data } => 2 + data.len(),
        }
    }
}

impl MessageView {
    /// Number of payload bytes the message occupies on the wire.
    pub open spec fn payload_len(self) -> nat {
        self.command.payload_len()
    }

    /// The payload fits the 16-bit length field.
    pub open spec fn is_valid(self) -> bool {
        self.payload_len() <= MAX_MESSAGE_SIZE
    }

    /// The message addresses every strand.
    pub open spec fn is_broadcast(self) -> bool {
        self.channel == BROADCAST_CHANNEL
    }
}

impl<'data> View for Command<'data> {
    type V = CommandView;

    open spec fn view(&self) -> CommandView {
        match *self {
            Command::SetPixelColors { pixels } => CommandView::SetPixelColors { pixels: pixels@ },
            Command::SystemExclusive { id, data } => CommandView::SystemExclusive {
                id,
                data: data@,
            },
        }
    }
}

impl<'data> View for Message<'data> {
    type V = MessageView;

    open spec fn view(&self) -> MessageView {
        MessageView { channel: self.channel, command: self.command@ }
    }
}

impl<'data> Message<'data> {
    /// Builds a message. Nothing is validated here: see [`Message::is_valid`].
    pub fn new(ch: u8, cmd: Command<'data>) -> (msg: Message<'data>)
        ensures
            msg.channel == ch,
            msg.command == cmd,
    {
        Message { channel: ch, command: cmd }
    }

    /// Size of the payload in bytes. A count that `usize` cannot hold is
    /// reported as `usize::MAX`; no slice in memory is that long.
    pub fn len(&self) -> (n: usize)
        ensures
            self@.payload_len() <= usize::MAX ==> n == self@.payload_len(),
            self@.payload_len() > usize::MAX ==> n == usize::MAX,
    {
        match self.command {
            Command::SetPixelColors { pixels } => {
                let count: usize = pixels.len();
                if count <= usize::MAX / 3 {
                    count * 3
                } else {
                    usize::MAX
                }
            },
            Command::SystemExclusive { id: _, data } => {
                let count: usize = data.len();
                if count <= usize::MAX - 2 {
                    count + 2
                } else {
                    usize::MAX
                }
            },
        }
    }

    /// Whether the payload fits the 16-bit length field of a frame.
    pub fn is_valid(&self) -> (ok: bool)
        ensures
            ok == self@.is_valid(),
    {
        self.len() <= MAX_MESSAGE_SIZE
    }

    /// Whether the message addresses every strand.
    pub fn is_broadcast(&self) -> (all: bool)
        ensures
            all == self@.is_broadcast(),
            all == (self.channel == 0),
    {
        self.channel == BROADCAST_CHANNEL
    }
}

} // verus!
