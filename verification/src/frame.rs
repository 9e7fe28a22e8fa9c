//! Length-prefixed framing.
//!
//! A frame is the length of its body as a big-endian 32-bit number, followed by
//! the body. A declared length beyond [`MAX_FRAME_LEN`] is refused before the
//! body is looked at. A stream that ends at a frame boundary was closed cleanly;
//! one that ends within a frame is at fault.

use crate::error::{Error, ErrorKind, ErrorModel};
use crate::text;
use vstd::prelude::*;

verus! {

/// The maximum accepted body size (16 MiB).
pub const MAX_FRAME_LEN: usize = 16_777_216;

/// The size of the length prefix.
pub const HEADER_LEN: usize = 4;

/// What can go wrong with a frame.
#[derive(Debug, PartialEq, Eq)]
#[non_exhaustive]
pub enum FrameError {
    /// The stream ended cleanly at a frame boundary.
    Closed,
    /// The body is larger than [`MAX_FRAME_LEN`].
    TooLarge {
        /// The declared length.
        len: usize,
        /// The maximum.
        max: usize,
    },
    /// The transport failed, or ended within a frame.
    Io(String),
    /// The body is not what it should be.
    Decode(String),
}

impl FrameError {
    /// Whether the stream ended cleanly, as opposed to a fault.
    #[must_use]
    pub fn is_closed(&self) -> (r: bool)
        ensures
            r == (*self is Closed),
    {
        matches!(self, FrameError::Closed)
    }

    /// The text shown to the user.
    pub open spec fn shown(self) -> Seq<char> {
        match self {
            FrameError::Closed => "connection closed"@,
            FrameError::TooLarge { len, max } => "frame too large: "@ + text::dec(len as nat)
                + " bytes (max "@ + text::dec(max as nat) + ")"@,
            FrameError::Io(m) => "io error: "@ + m@,
            FrameError::Decode(m) => "frame decode error: "@ + m@,
        }
    }

    /// The text shown to the user.
    #[must_use]
    pub fn text(&self) -> (r: String)
        ensures
            r@ == self.shown(),
    {
        match self {
            FrameError::Closed => "connection closed".to_owned(),
            FrameError::TooLarge { len, max } => {
                let l = text::decimal(*len as u64);
                let m = text::decimal(*max as u64);
                text::cat5("frame too large: ", l.as_str(), " bytes (max ", m.as_str(), ")")
            },
            FrameError::Io(m) => text::cat2("io error: ", m.as_str()),
            FrameError::Decode(m) => text::cat2("frame decode error: ", m.as_str()),
        }
    }

    /// The message of the error that a frame error becomes.
    pub open spec fn message(self) -> Seq<char> {
        match self {
            FrameError::Closed => "connection closed"@,
            FrameError::TooLarge { len, max } => "oversized frame: "@ + text::dec(len as nat)
                + " > "@ + text::dec(max as nat),
            FrameError::Io(m) => "io: "@ + m@,
            FrameError::Decode(m) => "decode: "@ + m@,
        }
    }

    /// The error of the library: framing sits below the security policy, so it
    /// is always a system error.
    #[must_use]
    pub fn into_error(self) -> (r: Error)
        ensures
            r@ == ErrorModel::of(ErrorKind::System, self.message()),
    {
        match self {
            FrameError::Closed => Error::System("connection closed".to_owned()),
            FrameError::TooLarge { len, max } => {
                let l = text::decimal(len as u64);
                let m = text::decimal(max as u64);
                Error::System(text::cat4("oversized frame: ", l.as_str(), " > ", m.as_str()))
            },
            FrameError::Io(m) => Error::System(text::cat2("io: ", m.as_str())),
            FrameError::Decode(m) => Error::System(text::cat2("decode: ", m.as_str())),
        }
    }
}

/// The big-endian notation of a 32-bit number.
pub open spec fn be_bytes(n: nat) -> Seq<u8> {
    seq![
        (n / 0x100_0000 % 0x100) as u8,
        (n / 0x1_0000 % 0x100) as u8,
        (n / 0x100 % 0x100) as u8,
        (n % 0x100) as u8,
    ]
}

/// The number that four bytes notate.
pub open spec fn be_value(b: Seq<u8>) -> nat {
    (b[0] as nat) * 0x100_0000 + (b[1] as nat) * 0x1_0000 + (b[2] as nat) * 0x100 + (b[3] as nat)
}

/// The frame of a body.
pub open spec fn framed(body: Seq<u8>) -> Seq<u8> {
    be_bytes(body.len()) + body
}

/// The header of a body of the given length.
pub fn header(len: u32) -> (r: [u8; 4])
    ensures
        r@ == be_bytes(len as nat),
{
    let r: [u8; 4] = [
        (len / 0x100_0000 % 0x100) as u8,
        (len / 0x1_0000 % 0x100) as u8,
        (len / 0x100 % 0x100) as u8,
        (len % 0x100) as u8,
    ];
    assert(r@ =~= be_bytes(len as nat));
    r
}

/// The length that a header declares. One beyond the maximum is refused.
pub fn body_len(header: &[u8; 4]) -> (r: Result<usize, FrameError>)
    ensures
        be_value(header@) <= MAX_FRAME_LEN ==> r == Ok::<usize, FrameError>(
            be_value(header@) as usize,
        ),
        be_value(header@) > MAX_FRAME_LEN ==> (r matches Err(FrameError::TooLarge { len, max })
            && len == be_value(header@) && max == MAX_FRAME_LEN),
{
    let n: u64 = (header[0] as u64) * 0x100_0000 + (header[1] as u64) * 0x1_0000 + (
    header[2] as u64) * 0x100 + (header[3] as u64);
    let len: usize = n as usize;
    if len > MAX_FRAME_LEN {
        return Err(FrameError::TooLarge { len, max: MAX_FRAME_LEN });
    }
    Ok(len)
}

/// The bytes that carry a body. A body beyond the maximum is refused.
pub fn write_frame(body: &Vec<u8>) -> (r: Result<Vec<u8>, FrameError>)
    ensures
        match r {
            Ok(bytes) => body@.len() <= MAX_FRAME_LEN && bytes@ == framed(body@),
            Err(e) => body@.len() > MAX_FRAME_LEN && (e matches FrameError::TooLarge { len, max }
                && len == body@.len() && max == MAX_FRAME_LEN),
        },
{
    let n: usize = body.len();
    if n > MAX_FRAME_LEN {
        return Err(FrameError::TooLarge { len: n, max: MAX_FRAME_LEN });
    }
    let head = header(n as u32);
    let mut out: Vec<u8> = Vec::new();
    out.push(head[0]);
    out.push(head[1]);
    out.push(head[2]);
    out.push(head[3]);
    assert(out@ =~= be_bytes(body@.len()));
    let mut i: usize = 0;
    while i < n
        invariant
            n == body@.len(),
            i <= n,
            out@ == be_bytes(body@.len()) + body@.take(i as int),
        decreases n - i,
    {
        out.push(body[i]);
        i += 1;
        assert(out@ =~= be_bytes(body@.len()) + body@.take(i as int));
    }
    assert(body@.take(n as int) =~= body@);
    Ok(out)
}

/// What reading one frame from the front of some bytes comes to.
pub enum Reading {
    /// The body.
    Body(Seq<u8>),
    /// There are no bytes: the stream was closed at a frame boundary.
    Closed,
    /// The header declares this length, beyond the maximum.
    TooLarge(nat),
    /// The stream ends within the header or within the body.
    Truncated,
}

/// What reading one frame from the front of some bytes comes to: the body, or
/// what is wrong.
pub open spec fn read_of(input: Seq<u8>) -> Reading {
    if input.len() == 0 {
        Reading::Closed
    } else if input.len() < HEADER_LEN {
        Reading::Truncated
    } else if be_value(input) > MAX_FRAME_LEN {
        Reading::TooLarge(be_value(input))
    } else if input.len() < 4 + be_value(input) {
        Reading::Truncated
    } else {
        Reading::Body(input.subrange(4, 4 + be_value(input) as int))
    }
}

/// The error of a frame that is cut off.
pub open spec fn cut_off(e: FrameError) -> bool {
    e matches FrameError::Io(m) && m@ == "early eof"@
}

/// The error where the stream ends after `got` bytes of a header: before the
/// first one it was closed, and after that it was cut off.
#[must_use]
pub fn short_header(got: usize) -> (r: FrameError)
    ensures
        if got == 0 {
            r is Closed
        } else {
            cut_off(r)
        },
{
    if got == 0 {
        FrameError::Closed
    } else {
        FrameError::Io("early eof".to_owned())
    }
}

/// Reads one frame from the front of the bytes that a stream holds until its
/// end.
pub fn read_frame(input: &Vec<u8>) -> (r: Result<Vec<u8>, FrameError>)
    ensures
        match read_of(input@) {
            Reading::Body(body) => r matches Ok(b) && b@ == body,
            Reading::Closed => r matches Err(e) && e is Closed,
            Reading::TooLarge(n) => r matches Err(FrameError::TooLarge { len, max }) && len == n
                && max == MAX_FRAME_LEN,
            Reading::Truncated => r matches Err(e) && cut_off(e),
        },
{
    if input.len() < HEADER_LEN {
        return Err(short_header(input.len()));
    }
    let head: [u8; 4] = [input[0], input[1], input[2], input[3]];
    assert(be_value(head@) == be_value(input@));
    let n: usize = match body_len(&head) {
        Ok(n) => n,
        Err(e) => {
            return Err(e);
        },
    };
    let total: usize = input.len();
    if total - HEADER_LEN < n {
        return Err(FrameError::Io("early eof".to_owned()));
    }
    let mut out: Vec<u8> = Vec::new();
    let mut i: usize = 0;
    while i < n
        invariant
            i <= n,
            total == input@.len(),
            4 + n <= total,
            out@ == input@.subrange(4, 4 + i),
        decreases n - i,
    {
        out.push(input[4 + i]);
        i += 1;
        assert(out@ =~= input@.subrange(4, 4 + i));
    }
    Ok(out)
}

/// A read gives back what a write wrote, whatever follows it on the stream; a
/// header declares the length of its body.
pub proof fn law_frames_round_trip(body: Seq<u8>, rest: Seq<u8>)
    requires
        body.len() <= MAX_FRAME_LEN,
    ensures
        be_value(be_bytes(body.len())) == body.len(),
        read_of(framed(body) + rest) == Reading::Body(body),
{
    let n = body.len();
    assert(be_value(be_bytes(n)) == n);
    let input = framed(body) + rest;
    assert(input[0] == be_bytes(n)[0]);
    assert(input[1] == be_bytes(n)[1]);
    assert(input[2] == be_bytes(n)[2]);
    assert(input[3] == be_bytes(n)[3]);
    assert(input.subrange(4, 4 + n as int) =~= body);
}

/// Only the end of a stream at a frame boundary reads as closed: a frame that is
/// cut off anywhere, in its header or in its body, does not, and gives no body.
pub proof fn law_cut_frames_are_faults(body: Seq<u8>, at: int)
    requires
        body.len() <= MAX_FRAME_LEN,
        0 <= at < framed(body).len(),
    ensures
        at == 0 ==> read_of(framed(body).take(at)) is Closed,
        at > 0 ==> read_of(framed(body).take(at)) is Truncated,
{
    let n = body.len();
    assert(be_value(be_bytes(n)) == n);
    let input = framed(body).take(at);
    if at >= 4 {
        assert(input[0] == be_bytes(n)[0]);
        assert(input[1] == be_bytes(n)[1]);
        assert(input[2] == be_bytes(n)[2]);
        assert(input[3] == be_bytes(n)[3]);
    }
}

/// A frame that declares more than the maximum is refused by its header alone:
/// what follows plays no part.
pub proof fn law_oversized_is_refused_by_its_header(header: Seq<u8>, a: Seq<u8>, b: Seq<u8>)
    requires
        header.len() == 4,
        be_value(header) > MAX_FRAME_LEN,
    ensures
        read_of(header + a) is TooLarge,
        read_of(header + a) == read_of(header + b),
{
    assert(be_value(header + a) == be_value(header));
    assert(be_value(header + b) == be_value(header));
}

/// The header is the length in network order: shifting the length by a byte shifts
/// the header by one, and the last byte is the length below one byte.
pub proof fn law_headers_are_in_network_order(n: nat)
    requires
        n < 0x100_0000,
    ensures
        be_bytes(n * 0x100) == be_bytes(n).skip(1).push(0u8),
        be_bytes(n)[0] == 0,
        n < 0x100 ==> be_bytes(n) == seq![0u8, 0u8, 0u8, n as u8],
        be_bytes(n).len() == 4,
{
    assert(be_bytes(n * 0x100) =~= be_bytes(n).skip(1).push(0u8));
}

/// Sixteen mebibytes are the most that a frame may hold: a header that declares as
/// much is waited for, and one that declares more is refused.
pub proof fn law_frames_hold_sixteen_mebibytes(input: Seq<u8>)
    requires
        input.len() >= 4,
    ensures
        read_of(input) is TooLarge <==> be_value(input) > 16 * 1024 * 1024,
{
}

} // verus!
