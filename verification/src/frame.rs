//! Wire framing between the window and the helper: each message travels as a
//! little-endian `u32` byte count followed by that many bytes.
use vstd::prelude::*;

verus! {

/// Bytes in a frame header.
pub const HEADER_LEN: usize = 4;

/// The four little-endian bytes of `n`.
pub open spec fn le_bytes(n: u32) -> Seq<u8> {
    seq![
        (n & 0xff) as u8,
        ((n >> 8u32) & 0xff) as u8,
        ((n >> 16u32) & 0xff) as u8,
        ((n >> 24u32) & 0xff) as u8,
    ]
}

/// The number whose little-endian bytes are `b0 b1 b2 b3`.
pub open spec fn le_value(b0: u8, b1: u8, b2: u8, b3: u8) -> u32 {
    (b0 as u32) | ((b1 as u32) << 8u32) | ((b2 as u32) << 16u32) | ((b3 as u32) << 24u32)
}

/// The length that a header starting `s` announces.
pub open spec fn announced_len(s: Seq<u8>) -> u32
    recommends
        s.len() >= 4,
{
    le_value(s[0], s[1], s[2], s[3])
}

/// The count written in the header of a frame carrying `payload`: its length,
/// kept to the low 32 bits as the wire field holds them.
pub open spec fn len_field(payload: Seq<u8>) -> u32 {
    payload.len() as u32
}

/// The bytes of one frame carrying `payload`.
pub open spec fn frame_of(payload: Seq<u8>) -> Seq<u8> {
    le_bytes(len_field(payload)) + payload
}

/// How a read of a frame header ended, by the number of header bytes that
/// arrived before the input ended (or the header was complete).
#[derive(Debug, Clone, Copy, PartialEq, Eq, Structural)]
pub enum HeaderRead {
    /// The input ended before a frame began: a clean end.
    Ended,
    /// The input ended inside the header: the frame is cut.
    Cut,
    /// The whole header arrived.
    Whole,
}

/// The outcome of reading a header when `got` of its bytes arrived.
pub open spec fn header_outcome(got: nat) -> HeaderRead {
    if got == 0 {
        HeaderRead::Ended
    } else if got < 4 {
        HeaderRead::Cut
    } else {
        HeaderRead::Whole
    }
}

/// What reading one frame from the front of `stream` gives: `None` when the
/// stream ends before a frame begins, `Some(Err(..))` when it ends inside the
/// header or the payload, and otherwise the payload with the count of bytes
/// it took.
pub open spec fn read_frame_from(stream: Seq<u8>) -> Option<Result<(Seq<u8>, int), ()>> {
    match header_outcome(if stream.len() < 4 { stream.len() } else { 4 }) {
        HeaderRead::Ended => None,
        HeaderRead::Cut => Some(Err(())),
        HeaderRead::Whole => {
            let n = announced_len(stream) as int;
            if stream.len() - 4 < n {
                Some(Err(()))
            } else {
                Some(Ok((stream.subrange(4, 4 + n), 4 + n)))
            }
        },
    }
}

/// Classifies a header read in which `got` bytes arrived: none is a clean end
/// of the input, fewer than four is a cut frame, four is a whole header.
pub fn header_status(got: usize) -> (r: HeaderRead)
    ensures
        r == header_outcome(got as nat),
{
    if got == 0 {
        HeaderRead::Ended
    } else if got < HEADER_LEN {
        HeaderRead::Cut
    } else {
        HeaderRead::Whole
    }
}

/// Why a frame could not be read.
#[derive(Debug, Clone, Copy, PartialEq, Eq, Structural)]
pub enum FrameError {
    /// The input ended inside the frame.
    Cut,
}

/// Reads one frame from the front of `stream`: `None` when the stream is
/// empty (a clean end before a frame begins), a `Cut` error when it ends
/// inside the header or the payload, and otherwise the payload with the
/// number of bytes the frame took.
pub fn parse_frame(stream: &[u8]) -> (r: Option<Result<(Vec<u8>, usize), FrameError>>)
    ensures
        match read_frame_from(stream@) {
            None => r is None,
            Some(Err(())) => r == Some(Err::<(Vec<u8>, usize), FrameError>(FrameError::Cut)),
            Some(Ok((payload, taken))) => r matches Some(Ok((v, k))) && v@ == payload && k == taken,
        },
{
    let total = stream.len();
    let got = if total < HEADER_LEN {
        total
    } else {
        HEADER_LEN
    };
    match header_status(got) {
        HeaderRead::Ended => {
            return None;
        },
        HeaderRead::Cut => {
            return Some(Err(FrameError::Cut));
        },
        HeaderRead::Whole => {},
    }
    let header: [u8; 4] = [stream[0], stream[1], stream[2], stream[3]];
    let n = header_len(header);
    assert(n == announced_len(stream@));
    let len = n as usize;
    if total - HEADER_LEN < len {
        return Some(Err(FrameError::Cut));
    }
    let mut payload: Vec<u8> = Vec::new();
    let mut i: usize = 0;
    while i < len
        invariant
            total == stream@.len(),
            HEADER_LEN + len <= total,
            i <= len,
            payload@ =~= stream@.subrange(4, 4 + i as int),
        decreases len - i,
    {
        payload.push(stream[HEADER_LEN + i]);
        i = i + 1;
    }
    Some(Ok((payload, HEADER_LEN + len)))
}

/// Decoding the bytes of `n` gives `n` back.
pub proof fn lemma_le_value_of_bytes(n: u32)
    ensures
        le_value(le_bytes(n)[0], le_bytes(n)[1], le_bytes(n)[2], le_bytes(n)[3]) == n,
{
    let b0 = (n & 0xff) as u8;
    let b1 = ((n >> 8u32) & 0xff) as u8;
    let b2 = ((n >> 16u32) & 0xff) as u8;
    let b3 = ((n >> 24u32) & 0xff) as u8;
    assert(le_value(b0, b1, b2, b3) == n) by (bit_vector)
        requires
            b0 == (n & 0xff) as u8,
            b1 == ((n >> 8u32) & 0xff) as u8,
            b2 == ((n >> 16u32) & 0xff) as u8,
            b3 == ((n >> 24u32) & 0xff) as u8,
    ;
}

/// The header is little-endian: the first byte counts ones, the second 256s,
/// the third 65536s and the last 16777216s.
pub proof fn lemma_header_is_little_endian(b0: u8, b1: u8, b2: u8, b3: u8)
    ensures
        le_value(b0, b1, b2, b3) == b0 + 256 * b1 + 65536 * b2 + 16777216 * b3,
{
    assert(le_value(b0, b1, b2, b3) == b0 + 256 * b1 + 65536 * b2 + 16777216 * b3) by (bit_vector);
}

/// Encoding the number that four bytes denote gives those bytes back.
pub proof fn lemma_le_bytes_of_value(b0: u8, b1: u8, b2: u8, b3: u8)
    ensures
        le_bytes(le_value(b0, b1, b2, b3)) == seq![b0, b1, b2, b3],
{
    let n = le_value(b0, b1, b2, b3);
    assert(b0 == (n & 0xff) as u8 && b1 == ((n >> 8u32) & 0xff) as u8 && b2 == ((n >> 16u32)
        & 0xff) as u8 && b3 == ((n >> 24u32) & 0xff) as u8) by (bit_vector)
        requires
            n == (b0 as u32) | ((b1 as u32) << 8u32) | ((b2 as u32) << 16u32) | ((b3 as u32)
                << 24u32),
    ;
    assert(le_bytes(n) =~= seq![b0, b1, b2, b3]);
}

/// The four header bytes that announce a payload of `len` bytes.
pub fn frame_header(len: u32) -> (h: [u8; 4])
    ensures
        h@ == le_bytes(len),
{
    let h: [u8; 4] = [
        (len & 0xff) as u8,
        ((len >> 8u32) & 0xff) as u8,
        ((len >> 16u32) & 0xff) as u8,
        ((len >> 24u32) & 0xff) as u8,
    ];
    assert(h@ =~= le_bytes(len));
    h
}

/// The payload length that a frame header announces.
pub fn header_len(header: [u8; 4]) -> (n: u32)
    ensures
        n == le_value(header@[0], header@[1], header@[2], header@[3]),
{
    (header[0] as u32) | ((header[1] as u32) << 8u32) | ((header[2] as u32) << 16u32) | ((
    header[3] as u32) << 24u32)
}

/// The bytes of one frame carrying `payload`. The header holds the payload's
/// length in 32 bits; a longer payload has its count cut to the low 32 bits.
pub fn encode_frame(payload: &[u8]) -> (out: Vec<u8>)
    ensures
        out@ == frame_of(payload@),
{
    let n = payload.len();
    let len: u32 = n as u32;
    let h = frame_header(len);
    let mut out: Vec<u8> = Vec::new();
    out.push(h[0]);
    out.push(h[1]);
    out.push(h[2]);
    out.push(h[3]);
    let mut i: usize = 0;
    while i < n
        invariant
            n == payload@.len(),
            i <= n,
            h@ == le_bytes(len),
            len == len_field(payload@),
            out@ =~= le_bytes(len) + payload@.subrange(0, i as int),
        decreases n - i,
    {
        out.push(payload[i]);
        i = i + 1;
    }
    assert(payload@.subrange(0, n as int) =~= payload@);
    out
}

/// Reading a frame from the front of a stream that begins with an encoded
/// frame gives back its payload and takes exactly its bytes, whatever follows.
pub proof fn lemma_read_after_write(payload: Seq<u8>, rest: Seq<u8>)
    requires
        payload.len() <= u32::MAX,
    ensures
        read_frame_from(frame_of(payload) + rest) == Some(
            Ok::<(Seq<u8>, int), ()>((payload, 4 + payload.len() as int)),
        ),
{
    let s = frame_of(payload) + rest;
    let n = len_field(payload);
    assert(n == payload.len());
    lemma_le_value_of_bytes(n);
    assert(announced_len(s) == n);
    assert(s.subrange(4, 4 + payload.len() as int) =~= payload);
}

} // verus!
