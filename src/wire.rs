//! Length-prefixed framing of the client protocol.
//!
//! A frame is a four-byte big-endian length followed by exactly that many
//! payload bytes.
use vstd::prelude::*;

use crate::error::Error;

verus! {

/// Size of the receive buffer: a declared length must stay below it.
pub const MAX_FRAME: usize = 512 * 512;

/// Number of bytes in a frame header.
pub const HEADER_LEN: usize = 4;

/// The four big-endian bytes of `n`.
pub open spec fn be_bytes(n: u32) -> Seq<u8> {
    seq![
        (n / 0x100_0000) as u8,
        ((n / 0x1_0000) % 0x100) as u8,
        ((n / 0x100) % 0x100) as u8,
        (n % 0x100) as u8,
    ]
}

/// The number that four bytes denote, most significant first.
pub open spec fn be_value(b: Seq<u8>) -> int
    recommends
        b.len() >= 4,
{
    b[0] * 0x100_0000 + b[1] * 0x1_0000 + b[2] * 0x100 + b[3]
}

/// The frame that carries `payload`.
pub open spec fn frame_of(payload: Seq<u8>) -> Seq<u8>
    recommends
        payload.len() < 0x1_0000_0000,
{
    be_bytes(payload.len() as u32) + payload
}

/// What a receiver makes of the bytes `b` at the start of a stream: the
/// payload of the first frame, or why there is none.
pub open spec fn decoded(b: Seq<u8>) -> Result<Seq<u8>, Error> {
    if b.len() < HEADER_LEN {
        Err(Error::ConnectionClosed)
    } else if be_value(b) >= MAX_FRAME {
        Err(Error::Oversized(be_value(b) as u32))
    } else if b.len() < HEADER_LEN + be_value(b) {
        Err(Error::ConnectionClosed)
    } else {
        Ok(b.subrange(HEADER_LEN as int, HEADER_LEN + be_value(b)))
    }
}

proof fn lemma_be_round_trip(n: u32)
    ensures
        be_value(be_bytes(n)) == n,
{
    let b = be_bytes(n);
    assert(b[0] == n / 0x100_0000);
    assert(b[1] == (n / 0x1_0000) % 0x100);
    assert(b[2] == (n / 0x100) % 0x100);
    assert(b[3] == n % 0x100);
}

proof fn lemma_be_value_bound(b: Seq<u8>)
    requires
        b.len() >= 4,
    ensures
        0 <= be_value(b) < 0x1_0000_0000,
{
}

/// The header of a frame whose payload has `len` bytes.
pub fn encode_header(len: u32) -> (r: Vec<u8>)
    ensures
        r@ == be_bytes(len),
{
    let mut r: Vec<u8> = Vec::new();
    r.push((len / 0x100_0000) as u8);
    r.push(((len / 0x1_0000) % 0x100) as u8);
    r.push(((len / 0x100) % 0x100) as u8);
    r.push((len % 0x100) as u8);
    assert(r@ =~= be_bytes(len));
    r
}

/// The length that a frame header declares.
pub fn decode_header(header: &[u8]) -> (r: u32)
    requires
        header@.len() == HEADER_LEN,
    ensures
        r == be_value(header@),
{
    proof {
        lemma_be_value_bound(header@);
    }
    (header[0] as u32) * 0x100_0000 + (header[1] as u32) * 0x1_0000 + (header[2] as u32) * 0x100
        + (header[3] as u32)
}

/// The payload length that a header declares, when a receiver can take it.
///
/// A length of `MAX_FRAME` or more is refused before any payload is read.
pub fn payload_len(header: &[u8]) -> (r: Result<usize, Error>)
    requires
        header@.len() == HEADER_LEN,
    ensures
        be_value(header@) < MAX_FRAME ==> r == Ok::<usize, Error>(be_value(header@) as usize),
        be_value(header@) >= MAX_FRAME ==> r == Err::<usize, Error>(
            Error::Oversized(be_value(header@) as u32),
        ),
{
    let n = decode_header(header);
    if n as usize >= MAX_FRAME {
        Err(Error::Oversized(n))
    } else {
        Ok(n as usize)
    }
}

/// The frame that carries `payload`, or `TooLong` when its length does not
/// fit in a header.
pub fn encode_frame(payload: &[u8]) -> (r: Result<Vec<u8>, Error>)
    ensures
        payload@.len() < 0x1_0000_0000 ==> (r matches Ok(f) && f@ == frame_of(payload@)),
        payload@.len() >= 0x1_0000_0000 ==> r == Err::<Vec<u8>, Error>(
            Error::TooLong(payload@.len() as usize),
        ),
{
    let len = payload.len();
    if len as u64 >= 0x1_0000_0000u64 {
        return Err(Error::TooLong(len));
    }
    let mut r = encode_header(len as u32);
    let mut i: usize = 0;
    while i < len
        invariant
            i <= len,
            len == payload@.len(),
            r@ == be_bytes(len as u32) + payload@.subrange(0, i as int),
        decreases len - i,
    {
        r.push(payload[i]);
        i = i + 1;
        assert(r@ =~= be_bytes(len as u32) + payload@.subrange(0, i as int));
    }
    assert(payload@.subrange(0, len as int) =~= payload@);
    Ok(r)
}

/// The payload of the frame at the start of `bytes`.
///
/// Fails with `Oversized` when the header declares `MAX_FRAME` bytes or more,
/// and with `ConnectionClosed` when the bytes end before the frame does.
/// The frame takes `HEADER_LEN` bytes more than the payload returned.
pub fn decode_frame(bytes: &[u8]) -> (r: Result<Vec<u8>, Error>)
    ensures
        r matches Ok(p) ==> decoded(bytes@) == Ok::<Seq<u8>, Error>(p@),
        r matches Err(e) ==> decoded(bytes@) == Err::<Seq<u8>, Error>(e),
{
    if bytes.len() < HEADER_LEN {
        return Err(Error::ConnectionClosed);
    }
    let header = slice_prefix(bytes, HEADER_LEN);
    assert(header@ =~= bytes@.subrange(0, 4));
    let len = match payload_len(header.as_slice()) {
        Ok(n) => n,
        Err(e) => return Err(e),
    };
    if bytes.len() - HEADER_LEN < len {
        return Err(Error::ConnectionClosed);
    }
    let mut p: Vec<u8> = Vec::new();
    let mut i: usize = 0;
    while i < len
        invariant
            i <= len,
            len < MAX_FRAME,
            HEADER_LEN + len <= bytes@.len(),
            p@ == bytes@.subrange(HEADER_LEN as int, HEADER_LEN + i),
        decreases len - i,
    {
        p.push(bytes[HEADER_LEN + i]);
        i = i + 1;
        assert(p@ =~= bytes@.subrange(HEADER_LEN as int, HEADER_LEN + i));
    }
    Ok(p)
}

fn slice_prefix(bytes: &[u8], n: usize) -> (r: Vec<u8>)
    requires
        n <= bytes@.len(),
    ensures
        r@ == bytes@.subrange(0, n as int),
{
    let mut r: Vec<u8> = Vec::new();
    let mut i: usize = 0;
    while i < n
        invariant
            i <= n,
            n <= bytes@.len(),
            r@ == bytes@.subrange(0, i as int),
        decreases n - i,
    {
        r.push(bytes[i]);
        i = i + 1;
        assert(r@ =~= bytes@.subrange(0, i as int));
    }
    r
}

/// A receiver gets back exactly the payload that was framed, for every
/// payload shorter than the receive buffer.
pub proof fn lemma_frame_round_trip(payload: Seq<u8>)
    requires
        payload.len() < MAX_FRAME,
    ensures
        decoded(frame_of(payload)) == Ok::<Seq<u8>, Error>(payload),
{
    let f = frame_of(payload);
    lemma_be_round_trip(payload.len() as u32);
    assert(f.subrange(0, 4) =~= be_bytes(payload.len() as u32));
    assert(be_value(f) == be_value(f.subrange(0, 4)));
    assert(f.subrange(HEADER_LEN as int, HEADER_LEN + payload.len()) =~= payload);
}

/// A header that declares `MAX_FRAME` bytes or more is refused whatever
/// follows it, so nothing of that size is ever read or held.
pub proof fn lemma_oversized_rejected(bytes: Seq<u8>)
    requires
        bytes.len() >= HEADER_LEN,
        be_value(bytes) >= MAX_FRAME,
    ensures
        decoded(bytes) == Err::<Seq<u8>, Error>(Error::Oversized(be_value(bytes) as u32)),
        forall|rest: Seq<u8>|
            #![trigger (bytes.subrange(0, 4) + rest)]
            decoded(bytes.subrange(0, 4) + rest) == decoded(bytes),
{
    assert forall|rest: Seq<u8>| #![trigger (bytes.subrange(0, 4) + rest)]
        decoded(bytes.subrange(0, 4) + rest) == decoded(bytes) by {
        let c = bytes.subrange(0, 4) + rest;
        assert(c[0] == bytes[0] && c[1] == bytes[1] && c[2] == bytes[2] && c[3] == bytes[3]);
    }
}

} // verus!
