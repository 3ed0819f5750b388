//! Frames of the wire protocol: a payload followed by one checksum byte.
use vstd::prelude::*;
use vstd::arithmetic::div_mod::lemma_add_mod_noop_right;

use crate::output::{ProtocolError, State};

verus! {

/// Number of bytes in the device's status reply.
pub const QUERY_RESPONSE_LEN: usize = 14;

/// Status byte value (at index 2 of the reply) that reports the device off.
pub const STATUS_OFF: u8 = 0x24;

/// Unbounded sum of the bytes of `s`.
pub open spec fn byte_sum(s: Seq<u8>) -> int
    decreases s.len(),
{
    if s.len() == 0 {
        0
    } else {
        byte_sum(s.drop_last()) + s.last()
    }
}

/// The checksum byte of a payload: the low 8 bits of the sum of its bytes.
pub open spec fn checksum_of(s: Seq<u8>) -> u8 {
    (byte_sum(s) % 256) as u8
}

/// The frame sent for a payload.
pub open spec fn frame_of(payload: Seq<u8>) -> Seq<u8> {
    payload.push(checksum_of(payload))
}

/// The checksum byte carried by a frame: its last byte.
pub open spec fn frame_checksum(frame: Seq<u8>) -> Option<u8> {
    if frame.len() == 0 {
        None
    } else {
        Some(frame.last())
    }
}

/// The power state reported by a status reply of the full length.
pub open spec fn reported_state(reply: Seq<u8>) -> State {
    if reply[2] == STATUS_OFF {
        State::OFF
    } else {
        State::ON
    }
}

/// What decoding a status reply gives.
pub open spec fn decoded_reply(reply: Seq<u8>) -> Result<State, ProtocolError> {
    if reply.len() < QUERY_RESPONSE_LEN {
        Err(ProtocolError::ShortResponse)
    } else {
        Ok(reported_state(reply))
    }
}

/// Payload of the status query.
pub open spec fn query_payload_of() -> Seq<u8> {
    seq![0x81u8, 0x8Au8, 0x8Bu8]
}

/// Payload of the command that switches the device to `target`.
pub open spec fn power_payload_of(target: State) -> Seq<u8> {
    match target {
        State::ON => seq![0x71u8, 0x23u8, 0x0Fu8],
        State::OFF => seq![0x71u8, 0x24u8, 0x0Fu8],
    }
}

/// Checksum of a payload, with wrap-around addition.
pub fn checksum(payload: &[u8]) -> (r: u8)
    ensures
        r == checksum_of(payload@),
{
    let mut acc: u8 = 0;
    let mut i: usize = 0;
    while i < payload.len()
        invariant
            i <= payload.len(),
            acc == checksum_of(payload@.subrange(0, i as int)),
        decreases payload.len() - i,
    {
        let ghost prefix = payload@.subrange(0, i as int);
        let ghost next = payload@.subrange(0, i as int + 1);
        proof {
            assert(next.drop_last() =~= prefix);
            lemma_add_mod_noop_right(payload@[i as int] as int, byte_sum(prefix), 256);
        }
        acc = ((acc as u16 + payload[i] as u16) % 256) as u8;
        i += 1;
    }
    assert(payload@.subrange(0, i as int) =~= payload@);
    acc
}

/// The frame for `payload`: the payload followed by its checksum.
pub fn encode(payload: &[u8]) -> (r: Vec<u8>)
    ensures
        r@ == frame_of(payload@),
{
    let sum = checksum(payload);
    let mut frame: Vec<u8> = Vec::new();
    let mut i: usize = 0;
    while i < payload.len()
        invariant
            i <= payload.len(),
            frame@ == payload@.subrange(0, i as int),
        decreases payload.len() - i,
    {
        frame.push(payload[i]);
        i += 1;
    }
    assert(frame@ =~= payload@);
    frame.push(sum);
    frame
}

/// The checksum byte that a frame carries, `None` for an empty one.
pub fn decode_checksum(frame: &[u8]) -> (r: Option<u8>)
    ensures
        r == frame_checksum(frame@),
{
    if frame.len() == 0 {
        None
    } else {
        Some(frame[frame.len() - 1])
    }
}

/// Reads the power state out of the device's status reply.
pub fn decode_query_response(buf: &[u8]) -> (r: Result<State, ProtocolError>)
    ensures
        r == decoded_reply(buf@),
{
    if buf.len() < QUERY_RESPONSE_LEN {
        Err(ProtocolError::ShortResponse)
    } else if buf[2] == STATUS_OFF {
        Ok(State::OFF)
    } else {
        Ok(State::ON)
    }
}

/// Payload of the status query.
pub fn query_payload() -> (r: Vec<u8>)
    ensures
        r@ == query_payload_of(),
{
    let r = vec![0x81u8, 0x8Au8, 0x8Bu8];
    assert(r@ =~= query_payload_of());
    r
}

/// Payload of the command that switches the device to `target`.
pub fn power_payload(target: State) -> (r: Vec<u8>)
    ensures
        r@ == power_payload_of(target),
{
    let r = match target {
        State::ON => vec![0x71u8, 0x23u8, 0x0Fu8],
        State::OFF => vec![0x71u8, 0x24u8, 0x0Fu8],
    };
    assert(r@ =~= power_payload_of(target));
    r
}

/// The checksum that a frame carries is the checksum of its payload, and
/// that checksum is the payload's byte sum modulo 256.
pub proof fn frame_carries_checksum(payload: Seq<u8>)
    ensures
        frame_checksum(frame_of(payload)) == Some(checksum_of(payload)),
        checksum_of(payload) as int == byte_sum(payload) % 256,
{
}

} // verus!
