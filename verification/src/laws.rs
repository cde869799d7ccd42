//! What holds of the codec as a whole: the laws that tie the encoder, the
//! decoder and the message model together, each proved from the definitions
//! in [`crate::wire`].

use crate::endian::{big_endian, big_endian_bytes};
use crate::message::{CommandView, MessageView, MAX_MESSAGE_SIZE, SET_PIXEL_COLORS};
use crate::server::fed;
use crate::wire::{
    announced_len, command_of, frame_bytes, frame_span, parse_frame, payload_bytes, pixel_at,
    pixel_bytes, pixels_of, DecodeError, Parsed, HEADER_SIZE, MAX_FRAME_SIZE,
};
use vstd::prelude::*;

verus! {

/// The length field spells the length: reading back the two bytes written
/// for `n` gives `n`, for every `n` that the field can hold.
pub proof fn lemma_big_endian_round_trip(n: nat)
    requires
        n <= MAX_MESSAGE_SIZE,
    ensures
        big_endian_bytes(n).len() == 2,
        big_endian(big_endian_bytes(n)[0], big_endian_bytes(n)[1]) == n,
{
}

/// Grouping the bytes of a run of pixels gives the pixels back.
pub proof fn lemma_pixels_round_trip(pixels: Seq<[u8; 3]>)
    ensures
        pixels_of(pixel_bytes(pixels)) == pixels,
{
    let bytes = pixel_bytes(pixels);
    assert forall|k: int| 0 <= k < pixels.len() implies pixel_at(bytes, k) == pixels[k] by {
        assert(pixel_at(bytes, k) =~= pixels[k]);
    }
    assert(pixels_of(bytes) =~= pixels);
}

/// Length accuracy: the payload that the encoder writes for a message has
/// exactly the number of bytes that the message reports as its length, the
/// frame has four more, and the frame's length field announces that number.
pub proof fn lemma_length_accuracy(message: MessageView)
    ensures
        payload_bytes(message.command).len() == message.payload_len(),
        frame_bytes(message).len() == HEADER_SIZE + message.payload_len(),
        message.is_valid() ==> announced_len(frame_bytes(message)) == message.payload_len(),
        message.is_valid() ==> frame_span(frame_bytes(message)) == Some(
            frame_bytes(message).len(),
        ),
{
    if message.is_valid() {
        lemma_big_endian_round_trip(message.payload_len());
    }
}

/// Round trip: the frame of a valid message, whatever follows it in the
/// buffer, decodes to that message and spans exactly the frame.
pub proof fn lemma_round_trip(message: MessageView, rest: Seq<u8>)
    requires
        message.is_valid(),
    ensures
        parse_frame(frame_bytes(message) + rest) == Ok::<Parsed, DecodeError>(
            Parsed { message, span: frame_bytes(message).len() },
        ),
{
    let frame = frame_bytes(message);
    let buf = frame + rest;
    lemma_length_accuracy(message);
    assert(buf[2] == frame[2] && buf[3] == frame[3]);
    let payload = buf.subrange(HEADER_SIZE as int, frame.len() as int);
    assert(payload =~= payload_bytes(message.command));
    match message.command {
        CommandView::SetPixelColors { pixels } => {
            lemma_pixels_round_trip(pixels);
        },
        CommandView::SystemExclusive { id, data } => {
            assert(payload.skip(2) =~= data);
            let read: [u8; 2] = [payload[0], payload[1]];
            assert(read =~= id);
        },
    }
}

/// Truncation: a pixel payload of `3 * k + 1` or `3 * k + 2` bytes decodes
/// to exactly `k` pixels, the same ones as its first `3 * k` bytes alone.
pub proof fn lemma_truncation(payload: Seq<u8>, k: nat)
    requires
        payload.len() == 3 * k + 1 || payload.len() == 3 * k + 2,
    ensures
        pixels_of(payload).len() == k,
        pixels_of(payload) == pixels_of(payload.take(3 * k as int)),
        command_of(SET_PIXEL_COLORS, payload) == Ok::<CommandView, DecodeError>(
            CommandView::SetPixelColors { pixels: pixels_of(payload.take(3 * k as int)) },
        ),
{
    let whole = payload.take(3 * k as int);
    assert forall|j: int| 0 <= j < k implies pixel_at(payload, j) == pixel_at(whole, j) by {
        assert(pixel_at(payload, j) =~= pixel_at(whole, j));
    }
    assert(pixels_of(payload) =~= pixels_of(whole));
}

/// Partial-buffer stability: every proper prefix of a frame is incomplete.
/// Fewer than four bytes are, and so are fewer than the header announces.
pub proof fn lemma_prefix_is_incomplete(buf: Seq<u8>, k: nat)
    requires
        k <= buf.len(),
        k < HEADER_SIZE || k < HEADER_SIZE + announced_len(buf),
    ensures
        frame_span(buf.take(k as int)) is None,
        parse_frame(buf.take(k as int)) == Err::<Parsed, DecodeError>(DecodeError::Incomplete),
{
}

/// A frame is self-delimiting: once it is complete, the bytes that follow
/// change neither its span nor what it decodes to.
pub proof fn lemma_frame_ignores_what_follows(buf: Seq<u8>, more: Seq<u8>)
    requires
        frame_span(buf) is Some,
    ensures
        frame_span(buf + more) == frame_span(buf),
        parse_frame(buf + more) == parse_frame(buf),
{
    let span = frame_span(buf)->0;
    let longer = buf + more;
    assert(longer[2] == buf[2] && longer[3] == buf[3]);
    assert(longer.subrange(HEADER_SIZE as int, span as int) =~= buf.subrange(
        HEADER_SIZE as int,
        span as int,
    ));
}

/// Chunking does not matter: feeding two chunks one after the other leaves
/// the buffer as feeding them as one chunk does.
pub proof fn lemma_feed_in_chunks(buffered: Seq<u8>, first: Seq<u8>, second: Seq<u8>)
    requires
        buffered.len() <= MAX_FRAME_SIZE,
    ensures
        fed(fed(buffered, first), second) == fed(buffered, first + second),
{
    assert(fed(fed(buffered, first), second) =~= fed(buffered, first + second));
}

/// A full buffer has a frame to give: no frame is longer than the buffer's
/// capacity, so a server that cannot take more bytes is never waiting for
/// more.
pub proof fn lemma_full_buffer_has_frame(buf: Seq<u8>)
    requires
        buf.len() >= MAX_FRAME_SIZE,
    ensures
        frame_span(buf) is Some,
        parse_frame(buf) != Err::<Parsed, DecodeError>(DecodeError::Incomplete),
{
}

/// Resynchronisation: stepping over a complete frame, whatever its tag,
/// lands on the frame behind it.
pub proof fn lemma_skip_lands_on_next_frame(skipped: Seq<u8>, next: MessageView, rest: Seq<u8>)
    requires
        frame_span(skipped) == Some(skipped.len()),
        next.is_valid(),
    ensures
        frame_span(skipped + frame_bytes(next) + rest) == Some(skipped.len()),
        parse_frame((skipped + frame_bytes(next) + rest).skip(skipped.len() as int)) == Ok::<
            Parsed,
            DecodeError,
        >(Parsed { message: next, span: frame_bytes(next).len() }),
{
    let stream = skipped + frame_bytes(next) + rest;
    assert(stream =~= skipped + (frame_bytes(next) + rest));
    lemma_frame_ignores_what_follows(skipped, frame_bytes(next) + rest);
    assert(stream.skip(skipped.len() as int) =~= frame_bytes(next) + rest);
    lemma_round_trip(next, rest);
}

/// Whatever decodes is valid: a decoded message fits the length field, and
/// its frame spans the header and the announced payload.
pub proof fn lemma_decoded_is_valid(buf: Seq<u8>)
    requires
        parse_frame(buf) is Ok,
    ensures
        parse_frame(buf)->Ok_0.message.is_valid(),
        parse_frame(buf)->Ok_0.span == HEADER_SIZE + announced_len(buf),
        parse_frame(buf)->Ok_0.span <= buf.len(),
        parse_frame(buf)->Ok_0.message.payload_len() <= announced_len(buf),
{
}

} // verus!
