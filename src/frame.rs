//! Length-delimited framing: each frame is a four-byte big-endian length
//! followed by that many payload bytes.

use vstd::prelude::*;

verus! {

/// The largest payload a frame may carry.
pub const MAX_FRAME_LENGTH: usize = 8388608;

/// Why a frame could not be produced or read.
#[derive(Clone, Copy, Debug, PartialEq, Eq, Structural)]
pub enum FrameError {
    /// The payload, or the length a header announces, exceeds `MAX_FRAME_LENGTH`.
    FrameTooLong,
}

/// The four header bytes that announce a payload of `n` bytes.
pub open spec fn length_header(n: nat) -> Seq<u8> {
    seq![
        ((n / 16777216) % 256) as u8,
        ((n / 65536) % 256) as u8,
        ((n / 256) % 256) as u8,
        (n % 256) as u8,
    ]
}

/// The length that the first four bytes of `buf` announce.
pub open spec fn header_value(buf: Seq<u8>) -> nat
    recommends
        buf.len() >= 4,
{
    (buf[0] as nat) * 16777216 + (buf[1] as nat) * 65536 + (buf[2] as nat) * 256 + (buf[3] as nat)
}

/// The bytes of one frame carrying `payload`.
pub open spec fn frame_bytes(payload: Seq<u8>) -> Seq<u8> {
    length_header(payload.len()) + payload
}

/// What reading the start of a buffer gives.
pub enum Decoded {
    /// More bytes are needed before a whole frame is there.
    Incomplete,
    /// A whole frame: its payload, and how many bytes of the buffer it took.
    Frame { payload: Vec<u8>, consumed: usize },
}

/// The abstract outcome of reading the start of a buffer.
pub enum DecodedView {
    Incomplete,
    Frame { payload: Seq<u8>, consumed: nat },
    TooLong,
}

impl Decoded {
    pub open spec fn view_of(r: Result<Decoded, FrameError>) -> DecodedView {
        match r {
            Ok(Decoded::Incomplete) => DecodedView::Incomplete,
            Ok(Decoded::Frame { payload, consumed }) => DecodedView::Frame {
                payload: payload@,
                consumed: consumed as nat,
            },
            Err(_) => DecodedView::TooLong,
        }
    }
}

/// Reading the start of `buf`: a frame is there when the header is there,
/// announces at most `MAX_FRAME_LENGTH` bytes, and that many bytes follow it.
pub open spec fn decode_spec(buf: Seq<u8>) -> DecodedView {
    if buf.len() < 4 {
        DecodedView::Incomplete
    } else if header_value(buf) > MAX_FRAME_LENGTH {
        DecodedView::TooLong
    } else if buf.len() < 4 + header_value(buf) {
        DecodedView::Incomplete
    } else {
        DecodedView::Frame {
            payload: buf.subrange(4, 4 + header_value(buf) as int),
            consumed: 4 + header_value(buf),
        }
    }
}

proof fn lemma_header_round_trip(n: nat)
    requires
        n <= MAX_FRAME_LENGTH,
    ensures
        header_value(length_header(n)) == n,
{
    let h = length_header(n);
    assert(h[0] as nat == (n / 16777216) % 256);
    assert(h[1] as nat == (n / 65536) % 256);
    assert(h[2] as nat == (n / 256) % 256);
    assert(h[3] as nat == n % 256);
    assert(((n / 16777216) % 256) * 16777216 + ((n / 65536) % 256) * 65536 + ((n / 256) % 256) * 256 + n
        % 256 == n) by (nonlinear_arith)
        requires
            n <= 8388608,
    ;
}

/// Produces the frame that carries `payload`.
pub fn encode_frame(payload: &Vec<u8>) -> (r: Result<Vec<u8>, FrameError>)
    ensures
        payload@.len() <= MAX_FRAME_LENGTH <==> r is Ok,
        r matches Ok(v) ==> v@ == frame_bytes(payload@),
{
    if payload.len() > MAX_FRAME_LENGTH {
        return Err(FrameError::FrameTooLong);
    }
    let n = payload.len();
    let mut out: Vec<u8> = Vec::new();
    out.push(((n / 16777216) % 256) as u8);
    out.push(((n / 65536) % 256) as u8);
    out.push(((n / 256) % 256) as u8);
    out.push((n % 256) as u8);
    let mut i: usize = 0;
    while i < payload.len()
        invariant
            n == payload@.len(),
            0 <= i <= n,
            out@ == length_header(n as nat) + payload@.take(i as int),
        decreases n - i,
    {
        assert(payload@.take(i + 1) =~= payload@.take(i as int).push(payload@[i as int]));
        out.push(payload[i]);
        i = i + 1;
        assert(out@ =~= length_header(n as nat) + payload@.take(i as int));
    }
    assert(payload@.take(n as int) =~= payload@);
    Ok(out)
}

/// Reads the frame at the start of `buf`, if a whole one is there.
pub fn decode_frame(buf: &Vec<u8>) -> (r: Result<Decoded, FrameError>)
    ensures
        Decoded::view_of(r) == decode_spec(buf@),
{
    if buf.len() < 4 {
        return Ok(Decoded::Incomplete);
    }
    let n: usize = (buf[0] as usize) * 16777216 + (buf[1] as usize) * 65536 + (buf[2] as usize) * 256
        + (buf[3] as usize);
    assert(n == header_value(buf@));
    if n > MAX_FRAME_LENGTH {
        return Err(FrameError::FrameTooLong);
    }
    if buf.len() - 4 < n {
        return Ok(Decoded::Incomplete);
    }
    let mut payload: Vec<u8> = Vec::new();
    let mut i: usize = 0;
    while i < n
        invariant
            n <= MAX_FRAME_LENGTH,
            4 + n <= buf@.len(),
            0 <= i <= n,
            payload@ == buf@.subrange(4, 4 + i),
        decreases n - i,
    {
        payload.push(buf[4 + i]);
        i = i + 1;
        assert(payload@ =~= buf@.subrange(4, 4 + i));
    }
    Ok(Decoded::Frame { payload, consumed: 4 + n })
}

/// A frame read back from the start of a buffer gives the payload it was made
/// from and takes exactly its own bytes, whatever follows it: frames arrive
/// whole and in the order they were written.
pub proof fn law_frame_round_trip(payload: Seq<u8>, rest: Seq<u8>)
    requires
        payload.len() <= MAX_FRAME_LENGTH,
    ensures
        decode_spec(frame_bytes(payload) + rest) == (DecodedView::Frame {
            payload,
            consumed: 4 + payload.len(),
        }),
{
    let buf = frame_bytes(payload) + rest;
    lemma_header_round_trip(payload.len());
    assert(buf.subrange(0, 4) =~= length_header(payload.len()));
    assert(header_value(buf) == header_value(length_header(payload.len())));
    assert(buf.subrange(4, 4 + payload.len() as int) =~= payload);
}

/// A buffer shorter than a whole frame never yields one.
pub proof fn law_partial_frame_incomplete(payload: Seq<u8>, k: int)
    requires
        payload.len() <= MAX_FRAME_LENGTH,
        0 <= k < 4 + payload.len(),
    ensures
        decode_spec(frame_bytes(payload).take(k)) == DecodedView::Incomplete,
{
    let buf = frame_bytes(payload).take(k);
    if k >= 4 {
        lemma_header_round_trip(payload.len());
        assert(buf.subrange(0, 4) =~= length_header(payload.len()));
        assert(header_value(buf) == header_value(length_header(payload.len())));
    }
}

} // verus!
