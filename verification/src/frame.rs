//! Frames on the wire: a length of four bytes, little-endian, then that many
//! bytes of payload.

use bytes::{ByteOrder, LittleEndian};
use vstd::arithmetic::div_mod::lemma_fundamental_div_mod_converse;
use vstd::prelude::*;
use vstd::slice::{slice_subrange, slice_to_vec};

verus! {

/// The bytes of a frame's header.
pub const HEADER_LEN: usize = 4;

/// The longest payload that a header can announce.
pub const MAX_PAYLOAD_LEN: usize = 0xffff_ffff;

/// The number that the first four bytes of `b` spell, lowest byte first.
pub open spec fn le_value(b: Seq<u8>) -> nat
    recommends
        b.len() >= 4,
{
    (b[0] as nat) + 256 * (b[1] as nat) + 65536 * (b[2] as nat) + 16777216 * (b[3] as nat)
}

/// The four bytes that spell `n`, lowest byte first.
pub open spec fn le_bytes(n: nat) -> Seq<u8>
    recommends
        n <= 0xffff_ffff,
{
    seq![
        (n % 256) as u8,
        (n / 256 % 256) as u8,
        (n / 65536 % 256) as u8,
        (n / 16777216 % 256) as u8,
    ]
}

/// The frame that carries `payload`: its length, then its bytes.
pub open spec fn frame(payload: Seq<u8>) -> Seq<u8>
    recommends
        payload.len() <= 0xffff_ffff,
{
    le_bytes(payload.len()) + payload
}

/// Why no frame could be read or written.
#[derive(Clone, Copy, Debug, PartialEq, Eq, Structural)]
pub enum FrameError {
    /// The stream ended within the header: the peer has closed the input.
    StreamClosed,
    /// The stream ended within the payload that the header announced.
    Truncated,
    /// The payload is longer than a header can announce.
    TooLong,
}

/// What reading one frame from the head of `stream` gives: the payload and
/// the rest of the stream behind it.
pub open spec fn parse(stream: Seq<u8>) -> Result<(Seq<u8>, Seq<u8>), FrameError> {
    if stream.len() < 4 {
        Err(FrameError::StreamClosed)
    } else {
        let announced = le_value(stream) as int;
        if stream.len() - 4 < announced {
            Err(FrameError::Truncated)
        } else {
            Ok(
                (
                    stream.subrange(4, 4 + announced),
                    stream.subrange(4 + announced, stream.len() as int),
                ),
            )
        }
    }
}

/// `bytes::LittleEndian::read_u32`: the first four bytes of `buf` read as a
/// little-endian number. It panics on fewer than four bytes.
#[verifier::external_body]
fn read_u32_le(buf: &[u8]) -> (n: u32)
    requires
        buf@.len() >= 4,
    ensures
        n as nat == le_value(buf@),
{
    LittleEndian::read_u32(buf)
}

/// `bytes::LittleEndian::write_u32`: the first four bytes of `buf` become the
/// little-endian bytes of `n`, the others stay. It panics on fewer than four
/// bytes.
#[verifier::external_body]
fn write_u32_le(buf: &mut Vec<u8>, n: u32)
    requires
        old(buf)@.len() >= 4,
    ensures
        final(buf)@ == le_bytes(n as nat) + old(buf)@.subrange(4, old(buf)@.len() as int),
{
    LittleEndian::write_u32(buf, n)
}

/// Reading the bytes of a number gives the number back.
pub proof fn lemma_le_value_of_bytes(n: nat)
    requires
        n <= 0xffff_ffff,
    ensures
        le_bytes(n).len() == 4,
        le_value(le_bytes(n)) == n,
{
}

/// Writing the number that four bytes spell gives the four bytes back.
pub proof fn lemma_le_bytes_of_value(b: Seq<u8>)
    requires
        b.len() == 4,
    ensures
        le_value(b) <= 0xffff_ffff,
        le_bytes(le_value(b)) == b,
{
    let v = le_value(b) as int;
    let (b0, b1, b2, b3) = (b[0] as int, b[1] as int, b[2] as int, b[3] as int);
    lemma_fundamental_div_mod_converse(v, 256, b1 + 256 * b2 + 65536 * b3, b0);
    lemma_fundamental_div_mod_converse(v / 256, 256, b2 + 256 * b3, b1);
    lemma_fundamental_div_mod_converse(v, 65536, b2 + 256 * b3, b0 + 256 * b1);
    lemma_fundamental_div_mod_converse(v / 65536, 256, b3, b2);
    lemma_fundamental_div_mod_converse(v, 16777216, b3, b0 + 256 * b1 + 65536 * b2);
    assert(le_bytes(le_value(b)) =~= b);
}

/// The payload length that a header announces; `None` unless `header` holds
/// exactly four bytes.
pub fn payload_len(header: &[u8]) -> (len: Option<u32>)
    ensures
        header@.len() != 4 ==> len is None,
        header@.len() == 4 ==> len == Some(le_value(header@) as u32) && le_value(header@)
            <= 0xffff_ffff,
{
    if header.len() != HEADER_LEN {
        return None;
    }
    proof {
        lemma_le_bytes_of_value(header@);
    }
    Some(read_u32_le(header))
}

/// The header that announces a payload of `len` bytes; none announces more
/// than four bytes can spell.
pub fn header(len: usize) -> (out: Result<Vec<u8>, FrameError>)
    ensures
        len <= 0xffff_ffff ==> out is Ok && out->Ok_0@ == le_bytes(len as nat),
        len > 0xffff_ffff ==> out == Err::<Vec<u8>, FrameError>(FrameError::TooLong),
{
    if len > MAX_PAYLOAD_LEN {
        return Err(FrameError::TooLong);
    }
    let mut out: Vec<u8> = vec![0u8; 4];
    write_u32_le(&mut out, len as u32);
    assert(out@ =~= le_bytes(len as nat));
    Ok(out)
}

/// Builds the frame for `payload`, or refuses a payload that no header can
/// announce.
pub fn write_frame(payload: &[u8]) -> (out: Result<Vec<u8>, FrameError>)
    ensures
        payload@.len() <= 0xffff_ffff ==> out is Ok && out->Ok_0@ == frame(payload@),
        payload@.len() > 0xffff_ffff ==> out == Err::<Vec<u8>, FrameError>(FrameError::TooLong),
{
    match header(payload.len()) {
        Ok(mut out) => {
            out.extend_from_slice(payload);
            Ok(out)
        },
        Err(e) => Err(e),
    }
}

/// Reads the frame at the head of `stream`: its payload, and how many bytes
/// of the stream the frame took.
pub fn read_frame(stream: &[u8]) -> (out: Result<(Vec<u8>, usize), FrameError>)
    ensures
        match parse(stream@) {
            Ok((payload, rest)) => out is Ok && out->Ok_0.0@ == payload && out->Ok_0.1 == 4
                + payload.len() && stream@.subrange(out->Ok_0.1 as int, stream@.len() as int)
                == rest,
            Err(e) => out == Err::<(Vec<u8>, usize), FrameError>(e),
        },
{
    if stream.len() < HEADER_LEN {
        return Err(FrameError::StreamClosed);
    }
    let announced: usize = read_u32_le(stream) as usize;
    if stream.len() - HEADER_LEN < announced {
        return Err(FrameError::Truncated);
    }
    let end: usize = HEADER_LEN + announced;
    let payload = slice_to_vec(slice_subrange(stream, HEADER_LEN, end));
    Ok((payload, end))
}

/// Framing round-trip: the frame written for a payload, with whatever
/// follows it on the stream, reads back as that payload and leaves what
/// follows.
pub proof fn lemma_frame_roundtrip(payload: Seq<u8>, rest: Seq<u8>)
    requires
        payload.len() <= 0xffff_ffff,
    ensures
        parse(frame(payload) + rest) == Ok::<(Seq<u8>, Seq<u8>), FrameError>((payload, rest)),
{
    let stream = frame(payload) + rest;
    lemma_le_value_of_bytes(payload.len());
    let end = 4 + payload.len() as int;
    assert(stream.subrange(4, end) =~= payload);
    assert(stream.subrange(end, stream.len() as int) =~= rest);
}

} // verus!
