//! Frames: how one message travels on the byte channel.
//!
//! A frame is the length of a payload, written as 8 bytes with the least
//! significant byte first, followed by the payload itself. The payload is
//! one serialized message; this module does not look inside it.

use vstd::prelude::*;
use vstd::slice::{slice_subrange, slice_to_vec};
use crate::messages::TransportError;

verus! {

/// Number of bytes of the length prefix.
pub const PREFIX_LEN: usize = 8;

/// The number that `bytes` denote, least significant byte first.
pub open spec fn le_value(bytes: Seq<u8>) -> nat
    decreases bytes.len(),
{
    if bytes.len() == 0 {
        0
    } else {
        bytes[0] as nat + 256 * le_value(bytes.drop_first())
    }
}

/// The `width` least significant bytes of `value`, least significant first.
pub open spec fn le_bytes(value: nat, width: nat) -> Seq<u8>
    decreases width,
{
    if width == 0 {
        Seq::empty()
    } else {
        seq![(value % 256) as u8] + le_bytes(value / 256, (width - 1) as nat)
    }
}

/// The number of values that `width` bytes can denote: 256 to the power of
/// `width`.
pub open spec fn capacity(width: nat) -> nat
    decreases width,
{
    if width == 0 {
        1
    } else {
        256 * capacity((width - 1) as nat)
    }
}

/// The frame that carries `payload`.
pub open spec fn frame(payload: Seq<u8>) -> Seq<u8> {
    le_bytes(payload.len(), PREFIX_LEN as nat) + payload
}

/// The payload length that the head of `stream` declares. It is meaningful
/// where the stream holds a whole prefix.
pub open spec fn declared_len(stream: Seq<u8>) -> nat {
    le_value(stream.subrange(0, PREFIX_LEN as int))
}

/// What a receiver finds at the head of `stream` once the channel delivers
/// no more: the payload of the first frame, or the reason why there is none.
/// An empty stream is a closed channel; a stream that ends inside the prefix
/// or before the declared number of payload bytes is truncated.
pub open spec fn parse(stream: Seq<u8>) -> Result<Seq<u8>, TransportError> {
    if stream.len() == 0 {
        Err(TransportError::Closed)
    } else if stream.len() < PREFIX_LEN {
        Err(TransportError::Truncated)
    } else if stream.len() - PREFIX_LEN < declared_len(stream) {
        Err(TransportError::Truncated)
    } else {
        Ok(stream.subrange(PREFIX_LEN as int, PREFIX_LEN + declared_len(stream)))
    }
}

/// How many bytes a receiver that holds `stream` must still read before the
/// first frame is whole: the rest of the prefix or, with the prefix read,
/// the rest of the declared payload.
pub open spec fn missing(stream: Seq<u8>) -> nat {
    if stream.len() < PREFIX_LEN {
        (PREFIX_LEN - stream.len()) as nat
    } else if stream.len() - PREFIX_LEN < declared_len(stream) {
        (declared_len(stream) - (stream.len() - PREFIX_LEN)) as nat
    } else {
        0
    }
}

/// `le_bytes` gives as many bytes as it is asked for.
pub proof fn lemma_le_bytes_len(value: nat, width: nat)
    ensures
        le_bytes(value, width).len() == width,
    decreases width,
{
    if width > 0 {
        lemma_le_bytes_len(value / 256, (width - 1) as nat);
    }
}

/// A sequence of bytes denotes a number below the capacity of its length.
pub proof fn lemma_le_value_bound(bytes: Seq<u8>)
    ensures
        le_value(bytes) < capacity(bytes.len()),
    decreases bytes.len(),
{
    if bytes.len() > 0 {
        lemma_le_value_bound(bytes.drop_first());
    }
}

/// Reading back the bytes of a value that fits gives the value.
pub proof fn lemma_le_value_of_bytes(value: nat, width: nat)
    requires
        value < capacity(width),
    ensures
        le_value(le_bytes(value, width)) == value,
    decreases width,
{
    if width > 0 {
        let rest = le_bytes(value / 256, (width - 1) as nat);
        lemma_le_value_of_bytes(value / 256, (width - 1) as nat);
        assert(le_bytes(value, width).drop_first() =~= rest);
    }
}

/// A wider sequence of bytes has no smaller capacity.
pub proof fn lemma_capacity_grows(narrow: nat, wide: nat)
    requires
        narrow <= wide,
    ensures
        capacity(narrow) <= capacity(wide),
    decreases wide,
{
    if narrow < wide {
        lemma_capacity_grows(narrow, (wide - 1) as nat);
    }
}

/// Eight bytes denote exactly the numbers of 64 bits.
pub proof fn lemma_prefix_capacity()
    ensures
        capacity(PREFIX_LEN as nat) == 0x1_0000_0000_0000_0000,
{
    reveal_with_fuel(capacity, 9);
}

/// The length prefix for a payload of `length` bytes.
pub fn length_prefix(length: u64) -> (prefix: Vec<u8>)
    ensures
        prefix@ == le_bytes(length as nat, PREFIX_LEN as nat),
{
    let mut prefix: Vec<u8> = Vec::new();
    let mut rest: u64 = length;
    let mut written: usize = 0;
    while written < PREFIX_LEN
        invariant
            written <= PREFIX_LEN,
            prefix@.len() == written,
            prefix@ + le_bytes(rest as nat, (PREFIX_LEN - written) as nat) == le_bytes(
                length as nat,
                PREFIX_LEN as nat,
            ),
        decreases PREFIX_LEN - written,
    {
        let digit: u8 = (rest % 256) as u8;
        proof {
            let tail = le_bytes((rest / 256) as nat, (PREFIX_LEN - written - 1) as nat);
            assert(prefix@.push(digit) + tail =~= prefix@ + (seq![digit] + tail));
        }
        prefix.push(digit);
        rest = rest / 256;
        written = written + 1;
    }
    prefix
}

/// The frame that carries `payload`.
pub fn encode_frame(payload: &[u8]) -> (bytes: Vec<u8>)
    ensures
        bytes@ == frame(payload@),
{
    let mut bytes = length_prefix(payload.len() as u64);
    let mut body = slice_to_vec(payload);
    bytes.append(&mut body);
    bytes
}

/// The payload length that the first eight bytes of `stream` declare.
fn read_prefix(stream: &[u8]) -> (length: u64)
    requires
        stream@.len() >= PREFIX_LEN,
    ensures
        length == declared_len(stream@),
{
    let ghost prefix = stream@.subrange(0, PREFIX_LEN as int);
    let mut length: u64 = 0;
    let mut left: usize = PREFIX_LEN;
    while left > 0
        invariant
            left <= PREFIX_LEN,
            stream@.len() >= PREFIX_LEN,
            prefix == stream@.subrange(0, PREFIX_LEN as int),
            length == le_value(prefix.subrange(left as int, PREFIX_LEN as int)),
        decreases left,
    {
        proof {
            let read = prefix.subrange(left as int, PREFIX_LEN as int);
            let next = prefix.subrange(left - 1, PREFIX_LEN as int);
            lemma_le_value_bound(read);
            lemma_capacity_grows((PREFIX_LEN - left) as nat, (PREFIX_LEN - 1) as nat);
            lemma_prefix_capacity();
            assert(next.drop_first() =~= read);
        }
        left = left - 1;
        length = length * 256 + stream[left] as u64;
    }
    assert(prefix.subrange(0, PREFIX_LEN as int) =~= prefix);
    length
}

/// How many bytes the receiver that holds `stream` must still read before
/// the first frame is whole, 0 when it is. `None` where the frame that the
/// prefix declares is longer than any buffer of this machine: such a frame
/// cannot be read in full.
pub fn bytes_needed(stream: &[u8]) -> (needed: Option<usize>)
    ensures
        needed is Some <==> stream@.len() < PREFIX_LEN || PREFIX_LEN + declared_len(stream@)
            <= usize::MAX,
        needed matches Some(count) ==> count == missing(stream@),
{
    let held = stream.len();
    if held < PREFIX_LEN {
        return Some(PREFIX_LEN - held);
    }
    let declared = read_prefix(stream);
    if declared > (usize::MAX - PREFIX_LEN) as u64 {
        return None;
    }
    let declared = declared as usize;
    if held - PREFIX_LEN < declared {
        Some(declared - (held - PREFIX_LEN))
    } else {
        Some(0)
    }
}

/// The payload of the frame at the head of `stream`, once the channel
/// delivers no more. Bytes behind the frame are left alone.
pub fn decode_frame(stream: &[u8]) -> (payload: Result<Vec<u8>, TransportError>)
    ensures
        payload_model(payload) == parse(stream@),
{
    let held = stream.len();
    if held == 0 {
        return Err(TransportError::Closed);
    }
    if held < PREFIX_LEN {
        return Err(TransportError::Truncated);
    }
    let declared = read_prefix(stream);
    if ((held - PREFIX_LEN) as u64) < declared {
        return Err(TransportError::Truncated);
    }
    let end = PREFIX_LEN + declared as usize;
    Ok(slice_to_vec(slice_subrange(stream, PREFIX_LEN, end)))
}

/// A frame, whatever follows it on the stream, gives back its payload.
pub proof fn lemma_frame_round_trip(payload: Seq<u8>, rest: Seq<u8>)
    requires
        payload.len() <= u64::MAX,
    ensures
        parse(frame(payload) + rest) == Ok::<Seq<u8>, TransportError>(payload),
        missing(frame(payload) + rest) == 0,
{
    let prefix = le_bytes(payload.len(), PREFIX_LEN as nat);
    let stream = frame(payload) + rest;
    lemma_le_bytes_len(payload.len(), PREFIX_LEN as nat);
    lemma_prefix_capacity();
    lemma_le_value_of_bytes(payload.len(), PREFIX_LEN as nat);
    assert(stream.subrange(0, PREFIX_LEN as int) =~= prefix);
    assert(stream.subrange(PREFIX_LEN as int, PREFIX_LEN + payload.len()) =~= payload);
}

/// A frame that was cut short gives no payload: nothing at all is a closed
/// channel, and every other proper prefix of a frame is truncated.
pub proof fn lemma_cut_frame_fails(payload: Seq<u8>, kept: int)
    requires
        payload.len() <= u64::MAX,
        0 <= kept < frame(payload).len(),
    ensures
        parse(frame(payload).take(kept)) == Err::<Seq<u8>, TransportError>(
            if kept == 0 {
                TransportError::Closed
            } else {
                TransportError::Truncated
            },
        ),
        missing(frame(payload).take(kept)) > 0,
        kept >= PREFIX_LEN ==> missing(frame(payload).take(kept)) == frame(payload).len() - kept,
{
    let prefix = le_bytes(payload.len(), PREFIX_LEN as nat);
    let stream = frame(payload).take(kept);
    lemma_le_bytes_len(payload.len(), PREFIX_LEN as nat);
    lemma_prefix_capacity();
    lemma_le_value_of_bytes(payload.len(), PREFIX_LEN as nat);
    if kept >= PREFIX_LEN {
        assert(stream.subrange(0, PREFIX_LEN as int) =~= prefix);
    }
}

/// A receiver that holds a whole prefix has a whole frame exactly when it
/// has read as many payload bytes as the prefix declares: with fewer the
/// stream is truncated, and the payload is never longer.
pub proof fn lemma_reads_declared_length(stream: Seq<u8>)
    requires
        stream.len() >= PREFIX_LEN,
    ensures
        parse(stream) is Ok <==> stream.len() - PREFIX_LEN >= declared_len(stream),
        parse(stream) is Ok <==> missing(stream) == 0,
        parse(stream) matches Ok(payload) ==> payload.len() == declared_len(stream),
        parse(stream) is Err ==> parse(stream) == Err::<Seq<u8>, TransportError>(
            TransportError::Truncated,
        ) && stream.len() + missing(stream) == PREFIX_LEN + declared_len(stream),
{
}

/// Model of what [`decode_frame`] returns.
pub open spec fn payload_model(payload: Result<Vec<u8>, TransportError>) -> Result<
    Seq<u8>,
    TransportError,
> {
    match payload {
        Ok(bytes) => Ok(bytes@),
        Err(error) => Err(error),
    }
}

} // verus!
