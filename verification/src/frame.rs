//! Length-delimited framing of the tunnel wire protocol.
//!
//! Each IP packet travels as one frame: a four-byte big-endian length prefix
//! followed by exactly that many payload bytes, in capture order.  Frames
//! longer than [`MAX_FRAME_LEN`] are rejected on both the encoding and the
//! decoding side.  A peer that closes its write side between frames ends the
//! stream normally; a close in the middle of a frame is an error.

use vstd::prelude::*;

use crate::error::TransportError;

verus! {

/// Largest payload a frame may carry, in bytes.
pub const MAX_FRAME_LEN: usize = 8 * 1024 * 1024;

/// The unsigned value of four bytes read in big-endian order.
pub open spec fn spec_be_value(b0: u8, b1: u8, b2: u8, b3: u8) -> u32 {
    ((b0 as u32) << 24) | ((b1 as u32) << 16) | ((b2 as u32) << 8) | (b3 as u32)
}

/// The four-byte big-endian encoding of `n`.
pub open spec fn spec_len_prefix(n: u32) -> Seq<u8> {
    seq![(n >> 24) as u8, (n >> 16) as u8, (n >> 8) as u8, n as u8]
}

/// The frame that carries `payload`: length prefix, then the payload bytes.
pub open spec fn spec_encode_frame(payload: Seq<u8>) -> Seq<u8>
    recommends
        payload.len() <= MAX_FRAME_LEN,
{
    spec_len_prefix(payload.len() as u32) + payload
}

/// Reading the four prefix bytes back yields the encoded value.
pub proof fn lemma_be_round_trip(n: u32)
    ensures
        spec_be_value((n >> 24) as u8, (n >> 16) as u8, (n >> 8) as u8, n as u8) == n,
{
    assert((((n >> 24) as u8 as u32) << 24) | (((n >> 16) as u8 as u32) << 16) | (((n >> 8)
        as u8 as u32) << 8) | (n as u8 as u32) == n) by (bit_vector);
}

/// Outcome of one decoding attempt against a receive buffer.
#[verifier::ext_equal]
pub enum SpecDecoded {
    /// A whole frame is available: its payload, and how many bytes of the
    /// buffer it occupied.
    Frame { payload: Seq<u8>, consumed: int },
    /// The buffer does not yet hold a whole frame.
    NeedMore,
    /// The prefix announces a frame longer than the configured maximum.
    TooLong { len: int },
}

/// The length announced by the prefix at the front of `buf`.
pub open spec fn spec_frame_len(buf: Seq<u8>) -> u32
    recommends
        buf.len() >= 4,
{
    spec_be_value(buf[0], buf[1], buf[2], buf[3])
}

/// What decoding the front of `buf` yields.
pub open spec fn spec_decode(buf: Seq<u8>) -> SpecDecoded {
    if buf.len() < 4 {
        SpecDecoded::NeedMore
    } else {
        let n = spec_frame_len(buf) as int;
        if n > MAX_FRAME_LEN as int {
            SpecDecoded::TooLong { len: n }
        } else if buf.len() < 4 + n {
            SpecDecoded::NeedMore
        } else {
            SpecDecoded::Frame { payload: buf.subrange(4, 4 + n), consumed: 4 + n }
        }
    }
}

/// Executable counterpart of [`SpecDecoded`].
pub enum Decoded {
    Frame { payload: Vec<u8>, consumed: usize },
    NeedMore,
    TooLong { len: usize },
}

impl View for Decoded {
    type V = SpecDecoded;

    open spec fn view(&self) -> SpecDecoded {
        match self {
            Decoded::Frame { payload, consumed } => SpecDecoded::Frame {
                payload: payload@,
                consumed: *consumed as int,
            },
            Decoded::NeedMore => SpecDecoded::NeedMore,
            Decoded::TooLong { len } => SpecDecoded::TooLong { len: *len as int },
        }
    }
}

/// Serializes one packet as a frame.
///
/// Succeeds exactly on payloads no longer than [`MAX_FRAME_LEN`]; a longer
/// payload is refused without being sent.
pub fn encode_frame(payload: &[u8]) -> (r: Result<Vec<u8>, TransportError>)
    ensures
        payload@.len() <= MAX_FRAME_LEN ==> (r matches Ok(out) && out@ == spec_encode_frame(
            payload@,
        )),
        payload@.len() > MAX_FRAME_LEN ==> r == Err::<Vec<u8>, TransportError>(
            TransportError::FrameTooLong { len: payload@.len() as usize },
        ),
{
    if payload.len() > MAX_FRAME_LEN {
        return Err(TransportError::FrameTooLong { len: payload.len() });
    }
    let n: u32 = payload.len() as u32;
    let mut out: Vec<u8> = Vec::new();
    out.push((n >> 24) as u8);
    out.push((n >> 16) as u8);
    out.push((n >> 8) as u8);
    out.push(n as u8);
    assert(out@ =~= spec_len_prefix(n));
    let mut i: usize = 0;
    while i < payload.len()
        invariant
            i <= payload@.len(),
            payload@.len() <= MAX_FRAME_LEN,
            n == payload@.len() as u32,
            out@ == spec_len_prefix(n) + payload@.subrange(0, i as int),
        decreases payload@.len() - i,
    {
        out.push(payload[i]);
        i = i + 1;
        assert(out@ =~= spec_len_prefix(n) + payload@.subrange(0, i as int));
    }
    assert(payload@.subrange(0, payload@.len() as int) =~= payload@);
    Ok(out)
}

/// Decodes the frame at the front of `buf`, if a whole one has arrived.
///
/// Mirrors [`spec_decode`] exactly: an announced length above the maximum is
/// an error, a partial frame asks for more bytes, and a complete frame comes
/// back with the count of bytes it occupied.
pub fn decode_frame(buf: &[u8]) -> (r: Decoded)
    ensures
        r@ == spec_decode(buf@),
{
    if buf.len() < 4 {
        return Decoded::NeedMore;
    }
    let n32: u32 = ((buf[0] as u32) << 24) | ((buf[1] as u32) << 16) | ((buf[2] as u32) << 8) | (
    buf[3] as u32);
    assert(n32 < 0x1_0000_0000) by (bit_vector);
    let n: usize = n32 as usize;
    if n > MAX_FRAME_LEN {
        return Decoded::TooLong { len: n };
    }
    if buf.len() - 4 < n {
        return Decoded::NeedMore;
    }
    let mut payload: Vec<u8> = Vec::new();
    let mut i: usize = 0;
    while i < n
        invariant
            i <= n,
            n <= MAX_FRAME_LEN,
            4 + n <= buf@.len(),
            payload@ == buf@.subrange(4, 4 + i as int),
        decreases n - i,
    {
        payload.push(buf[4 + i]);
        i = i + 1;
        assert(payload@ =~= buf@.subrange(4, 4 + i as int));
    }
    Decoded::Frame { payload, consumed: 4 + n }
}

/// End-of-stream discipline: a peer close between frames is a normal end,
/// one with bytes still buffered cut a frame short.
pub fn end_of_stream(buffered: usize) -> (r: Result<(), TransportError>)
    ensures
        buffered == 0 ==> r == Ok::<(), TransportError>(()),
        buffered != 0 ==> r == Err::<(), TransportError>(
            TransportError::TruncatedFrame { buffered },
        ),
{
    if buffered == 0 {
        Ok(())
    } else {
        Err(TransportError::TruncatedFrame { buffered })
    }
}

/// Framing round-trip: decoding an encoded frame yields the payload back,
/// byte for byte, and consumes exactly the frame.
pub proof fn lemma_frame_round_trip(payload: Seq<u8>)
    requires
        payload.len() <= MAX_FRAME_LEN,
    ensures
        spec_decode(spec_encode_frame(payload)) == (SpecDecoded::Frame {
            payload,
            consumed: 4 + payload.len() as int,
        }),
{
    lemma_frame_prefix_decode(payload, Seq::<u8>::empty());
    assert(spec_encode_frame(payload) + Seq::<u8>::empty() =~= spec_encode_frame(payload));
}

/// Whether every packet of a sequence fits in one frame.
pub open spec fn spec_all_fit(packets: Seq<Seq<u8>>) -> bool {
    forall|i: int| 0 <= i < packets.len() ==> (#[trigger] packets[i]).len() <= MAX_FRAME_LEN
}

/// The byte stream that carries `packets`: their frames, in order.
pub open spec fn spec_encode_stream(packets: Seq<Seq<u8>>) -> Seq<u8>
    decreases packets.len(),
{
    if packets.len() == 0 {
        Seq::empty()
    } else {
        spec_encode_frame(packets[0]) + spec_encode_stream(packets.drop_first())
    }
}

/// The packets carried by a byte stream that holds whole frames only:
/// `None` where the stream is cut inside a frame or announces an overlong
/// one.
pub open spec fn spec_decode_stream(buf: Seq<u8>) -> Option<Seq<Seq<u8>>>
    decreases buf.len(),
{
    if buf.len() == 0 {
        Some(Seq::empty())
    } else {
        match spec_decode(buf) {
            SpecDecoded::Frame { payload, consumed } => if 0 < consumed <= buf.len() {
                match spec_decode_stream(buf.skip(consumed)) {
                    Some(rest) => Some(seq![payload] + rest),
                    None => None,
                }
            } else {
                None
            },
            SpecDecoded::NeedMore => None,
            SpecDecoded::TooLong { .. } => None,
        }
    }
}

/// Order preservation on the wire: the stream that frames packets P1..Pn,
/// each within the frame limit, decodes to exactly P1..Pn — same packets,
/// same order, byte for byte.
#[verifier::rlimit(50)]
pub proof fn lemma_stream_round_trip(packets: Seq<Seq<u8>>)
    requires
        spec_all_fit(packets),
    ensures
        spec_decode_stream(spec_encode_stream(packets)) == Some(packets),
    decreases packets.len(),
{
    if packets.len() == 0 {
        assert(packets =~= Seq::<Seq<u8>>::empty());
    } else {
        let head = packets[0];
        let rest = packets.drop_first();
        let enc_rest = spec_encode_stream(rest);
        let enc = spec_encode_frame(head) + enc_rest;
        assert(spec_encode_stream(packets) == enc);
        lemma_frame_prefix_decode(head, enc_rest);
        let consumed = 4 + head.len() as int;
        assert(spec_decode(enc) == (SpecDecoded::Frame { payload: head, consumed }));
        assert(enc.len() == consumed + enc_rest.len());
        assert(enc.skip(consumed) =~= enc_rest);
        assert forall|i: int| 0 <= i < rest.len() implies (#[trigger] rest[i]).len()
            <= MAX_FRAME_LEN by {
            assert(rest[i] == packets[i + 1]);
        }
        lemma_stream_round_trip(rest);
        assert(spec_decode_stream(enc) == Some(seq![head] + rest));
        assert(seq![head] + rest =~= packets);
    }
}

/// Self-delimitation: a frame followed by any further bytes still decodes to
/// exactly its own payload, consuming only its own bytes.  Decoding a stream
/// of frames therefore yields the payloads in the order they were encoded.
pub proof fn lemma_frame_prefix_decode(payload: Seq<u8>, rest: Seq<u8>)
    requires
        payload.len() <= MAX_FRAME_LEN,
    ensures
        spec_decode(spec_encode_frame(payload) + rest) == (SpecDecoded::Frame {
            payload,
            consumed: 4 + payload.len() as int,
        }),
{
    let n: u32 = payload.len() as u32;
    let enc = spec_encode_frame(payload) + rest;
    assert(enc.len() == 4 + payload.len() + rest.len());
    assert(enc[0] == (n >> 24) as u8);
    assert(enc[1] == (n >> 16) as u8);
    assert(enc[2] == (n >> 8) as u8);
    assert(enc[3] == n as u8);
    lemma_be_round_trip(n);
    assert(spec_frame_len(enc) == n);
    assert(n as int == payload.len() as int);
    assert(enc.subrange(4, 4 + n as int) =~= payload);
}

} // verus!
