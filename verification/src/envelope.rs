//! Envelope framing: one flags byte, a big-endian `u32` payload length,
//! then the payload.

use vstd::prelude::*;
use crate::text::{decimal, push_decimal};

verus! {

/// Flag bit: the payload is compressed.
pub const FLAG_COMPRESSED: u8 = 0x01;

/// Flag bit: this frame ends the stream.
pub const FLAG_END_STREAM: u8 = 0x02;

/// The four big-endian bytes of `n`.
pub open spec fn be32(n: nat) -> Seq<u8>
    recommends
        n < 0x1_0000_0000,
{
    seq![(n / 0x100_0000) as u8, ((n / 0x1_0000) % 0x100) as u8, ((n / 0x100) % 0x100) as u8, (n % 0x100) as u8]
}

/// The number that four big-endian bytes `b[0..4]` stand for.
pub open spec fn be32_value(b: Seq<u8>) -> nat
    recommends
        b.len() >= 4,
{
    (b[0] as nat) * 0x100_0000 + (b[1] as nat) * 0x1_0000 + (b[2] as nat) * 0x100 + (b[3] as nat)
}

/// The frame that carries `payload` with `flags`. The length field holds the
/// payload length modulo 2^32, as the `u32` conversion of the length does.
pub open spec fn envelope_bytes(flags: u8, payload: Seq<u8>) -> Seq<u8> {
    seq![flags] + be32(payload.len() % 0x1_0000_0000) + payload
}

/// The payload length that the header of `frame` announces.
pub open spec fn announced_len(frame: Seq<u8>) -> nat
    recommends
        frame.len() >= 5,
{
    be32_value(frame.subrange(1, 5))
}

/// The error text for a frame shorter than its five header bytes.
pub open spec fn too_short_message(len: nat) -> Seq<char> {
    "envelope: frame too short ("@ + decimal(len) + " bytes)"@
}

/// The error text for a frame whose payload is shorter than announced.
pub open spec fn truncated_message(expected: nat, got: nat) -> Seq<char> {
    "envelope: expected "@ + decimal(expected) + " payload bytes, got "@ + decimal(got)
}

/// What decoding a frame gives: `Ok((flags, payload))`, or the error text.
pub open spec fn decoded_envelope(frame: Seq<u8>) -> Result<(u8, Seq<u8>), Seq<char>> {
    if frame.len() < 5 {
        Err(too_short_message(frame.len()))
    } else if frame.len() - 5 < announced_len(frame) {
        Err(truncated_message(announced_len(frame), (frame.len() - 5) as nat))
    } else {
        Ok((frame[0], frame.subrange(5, 5 + announced_len(frame) as int)))
    }
}

proof fn lemma_be32_roundtrip(n: nat)
    requires
        n < 0x1_0000_0000,
    ensures
        be32(n).len() == 4,
        be32_value(be32(n)) == n,
{
    let b = be32(n);
    assert(n / 0x100_0000 < 0x100) by (nonlinear_arith)
        requires
            n < 0x1_0000_0000,
    ;
    assert(b[0] as nat == n / 0x100_0000);
    assert(b[1] as nat == (n / 0x1_0000) % 0x100);
    assert(b[2] as nat == (n / 0x100) % 0x100);
    assert(b[3] as nat == n % 0x100);
    assert((n / 0x100_0000) * 0x100_0000 + ((n / 0x1_0000) % 0x100) * 0x1_0000 + ((n / 0x100)
        % 0x100) * 0x100 + n % 0x100 == n) by (nonlinear_arith);
}

/// Frames `payload` with `flags`: the flags byte, the payload length as a
/// big-endian `u32`, then the payload.
pub fn encode_envelope(flags: u8, payload: &[u8]) -> (buf: Vec<u8>)
    ensures
        buf@ == envelope_bytes(flags, payload@),
{
    let len32: u32 = ((payload.len() as u64) % 0x1_0000_0000u64) as u32;
    let mut buf: Vec<u8> = Vec::new();
    buf.push(flags);
    buf.push((len32 / 0x100_0000) as u8);
    buf.push(((len32 / 0x1_0000) % 0x100) as u8);
    buf.push(((len32 / 0x100) % 0x100) as u8);
    buf.push((len32 % 0x100) as u8);
    let ghost header = buf@;
    let mut i: usize = 0;
    while i < payload.len()
        invariant
            i <= payload@.len(),
            header.len() == 5,
            buf@ == header + payload@.subrange(0, i as int),
        decreases payload@.len() - i,
    {
        buf.push(payload[i]);
        i = i + 1;
        assert(buf@ =~= header + payload@.subrange(0, i as int));
    }
    assert(payload@.subrange(0, payload@.len() as int) =~= payload@);
    assert(header =~= seq![flags] + be32(payload@.len() % 0x1_0000_0000));
    buf
}

/// Reads one frame from the start of `frame`: its flags byte and the payload
/// that its header announces. Fails when `frame` is shorter than the five
/// header bytes, or than the header plus the announced payload; bytes after
/// the payload are left unread.
pub fn decode_envelope(frame: &[u8]) -> (res: Result<(u8, &[u8]), String>)
    ensures
        match (res, decoded_envelope(frame@)) {
            (Ok((flags, payload)), Ok((f, p))) => flags == f && payload@ == p,
            (Err(msg), Err(m)) => msg@ == m,
            _ => false,
        },
{
    if frame.len() < 5 {
        let mut msg = "envelope: frame too short (".to_owned();
        push_decimal(&mut msg, frame.len() as u64);
        msg.append(" bytes)");
        return Err(msg);
    }
    let flags = frame[0];
    let length: u64 = (frame[1] as u64) * 0x100_0000 + (frame[2] as u64) * 0x1_0000 + (frame[3] as u64)
        * 0x100 + (frame[4] as u64);
    assert(length == announced_len(frame@));
    if ((frame.len() - 5) as u64) < length {
        let mut msg = "envelope: expected ".to_owned();
        push_decimal(&mut msg, length);
        msg.append(" payload bytes, got ");
        push_decimal(&mut msg, (frame.len() - 5) as u64);
        return Err(msg);
    }
    let end: usize = 5 + (length as usize);
    Ok((flags, &frame[5..end]))
}

/// A frame that `encode_envelope` builds, followed by any bytes: its header
/// announces the payload's length, and the payload and the bytes after it
/// come back apart.
pub proof fn lemma_envelope_prefix(flags: u8, payload: Seq<u8>, rest: Seq<u8>)
    requires
        payload.len() < 0x1_0000_0000,
    ensures
        ({
            let frame = envelope_bytes(flags, payload) + rest;
            &&& frame.len() == 5 + payload.len() + rest.len()
            &&& frame[0] == flags
            &&& announced_len(frame) == payload.len()
            &&& frame.subrange(5, 5 + payload.len() as int) == payload
            &&& frame.subrange(5 + payload.len() as int, frame.len() as int) == rest
        }),
{
    let frame = envelope_bytes(flags, payload) + rest;
    lemma_be32_roundtrip(payload.len());
    assert(payload.len() % 0x1_0000_0000 == payload.len());
    assert(frame.subrange(1, 5) =~= be32(payload.len()));
    assert(frame.subrange(5, 5 + payload.len() as int) =~= payload);
    assert(frame.subrange(5 + payload.len() as int, frame.len() as int) =~= rest);
}

/// Decoding the frame that `encode_envelope` builds gives back its flags and
/// payload, and nothing is left over, whenever the payload's length fits in
/// the `u32` length field.
pub proof fn lemma_envelope_roundtrip(flags: u8, payload: Seq<u8>)
    requires
        payload.len() < 0x1_0000_0000,
    ensures
        decoded_envelope(envelope_bytes(flags, payload)) == Ok::<(u8, Seq<u8>), Seq<char>>(
            (flags, payload),
        ),
        envelope_bytes(flags, payload).len() == 5 + payload.len(),
{
    let frame = envelope_bytes(flags, payload);
    lemma_be32_roundtrip(payload.len());
    assert(payload.len() % 0x1_0000_0000 == payload.len());
    assert(frame.subrange(1, 5) =~= be32(payload.len()));
    assert(frame.subrange(5, 5 + payload.len() as int) =~= payload);
}

} // verus!
