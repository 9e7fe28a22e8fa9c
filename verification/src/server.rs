//! The turns of a connection: requests are answered in lock-step, one reply for
//! each request, until the peer closes the stream or a frame is faulty.

use crate::frame::FrameError;
use crate::protocol::Request;
use vstd::prelude::*;

verus! {

/// What a connection does next.
#[derive(Debug)]
pub enum Turn {
    /// Answer the request, then read the next one.
    Answer(Request),
    /// End: the peer closed the stream.
    Close,
    /// End: a faulty frame leaves the stream in no known state.
    Fault(FrameError),
}

/// Decides what a connection does once a frame was read.
#[must_use]
pub fn next_turn(read: Result<Request, FrameError>) -> (r: Turn)
    ensures
        match read {
            Ok(req) => r == Turn::Answer(req),
            Err(FrameError::Closed) => r is Close,
            Err(e) => r == Turn::Fault(e),
        },
{
    match read {
        Ok(req) => Turn::Answer(req),
        Err(FrameError::Closed) => Turn::Close,
        Err(e) => Turn::Fault(e),
    }
}

} // verus!
