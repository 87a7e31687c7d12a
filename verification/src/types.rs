//! Shared configuration and small result types.

use vstd::prelude::*;
use vstd::string::StringExecFns;
use crate::render::dec_str;
use crate::render::u64_to_dec;

verus! {

/// Returned by sources that need a larger destination buffer to receive a frame.
#[derive(Debug, Clone, Copy, PartialEq, Eq, Structural)]
pub struct BufferTooSmall {
    pub needed: usize,
}

impl BufferTooSmall {
    /// The display text: `buffer too small (need N bytes)`.
    pub open spec fn spec_render(self) -> Seq<char> {
        "buffer too small (need "@ + dec_str(self.needed as nat) + " bytes)"@
    }

    /// Renders the display text of this value.
    pub fn render(&self) -> (r: String)
        ensures
            r@ == self.spec_render(),
    {
        let mut s = String::from_str("buffer too small (need ");
        let d = u64_to_dec(self.needed as u64);
        s.append(d.as_str());
        s.append(" bytes)");
        proof {
            assert(s@ =~= self.spec_render());
        }
        s
    }
}

/// Per-reader policy for incoming frames. Immutable once a reader owns it.
#[derive(Debug, Clone, Copy)]
pub struct ReaderConfig {
    /// Upper bound on an acceptable incoming frame's declared length.
    pub max_frame_len: usize,
    /// Drain frame bytes if the destination buffer is too small
    /// (safe because the length is already known to be within
    /// `max_frame_len`).
    pub drain_on_small_buffer: bool,
    /// If the peer claims an oversize frame, only drain it if its length is
    /// at most `drain_oversize_up_to`. Zero means never drain an oversize
    /// frame.
    pub drain_oversize_up_to: usize,
}

impl Default for ReaderConfig {
    fn default() -> (r: Self)
        ensures
            r.max_frame_len == 65536,
            r.drain_on_small_buffer == true,
            r.drain_oversize_up_to == 0,
    {
        ReaderConfig {
            max_frame_len: 64 * 1024,
            drain_on_small_buffer: true,
            drain_oversize_up_to: 0,
        }
    }
}

} // verus!
