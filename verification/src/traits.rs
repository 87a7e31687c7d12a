//! Frame-level interfaces offered to codec adapters: one call sends or
//! receives one whole frame. The framing types implement them; adapters
//! build on them without naming the concrete writer or reader.

use vstd::prelude::*;

verus! {

/// A sink of whole frames.
pub trait FrameSink {
    type Error;

    fn send_frame(&mut self, bytes: &[u8]) -> Result<(), Self::Error>;
}

/// A source of whole frames: fills the front of `dst` and reports the
/// frame's length.
pub trait FrameSource {
    type Error;

    fn recv_frame(&mut self, dst: &mut [u8]) -> Result<usize, Self::Error>;
}

} // verus!
