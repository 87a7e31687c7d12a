//! Length-prefixed framing for stream transports.
//!
//! Format: `<u32_le_len><frame_bytes...>`
//!
//! The spec functions here are the wire model: `encode_frame` says what a
//! writer puts on the stream, and `declared_len` / `frame_payload` /
//! `frame_rest` say how the head of a stream parses. The round-trip and
//! sequencing lemmas tie the two directions together.

use vstd::prelude::*;
use vstd::bytes::lemma_auto_spec_u32_to_from_le_bytes;
use vstd::bytes::spec_u32_from_le_bytes;
use vstd::bytes::spec_u32_to_le_bytes;
use vstd::bytes::u32_from_le_bytes;
use vstd::bytes::u32_to_le_bytes;
use crate::error::AbutCode;
use crate::error::AbutError;
use crate::error::spec_exceeds_ctx;
use crate::error::spec_need_ctx;
use crate::stream::ByteSink;
use crate::stream::ByteSource;
use crate::traits::FrameSink;
use crate::traits::FrameSource;
use crate::types::BufferTooSmall;
use crate::types::ReaderConfig;

verus! {

/// Number of bytes used for the length prefix.
pub const LEN_PREFIX: usize = 4;

/// What one frame with this payload looks like on the wire: the 4-byte
/// little-endian length, then the payload itself.
pub open spec fn encode_frame(payload: Seq<u8>) -> Seq<u8> {
    spec_u32_to_le_bytes(payload.len() as u32) + payload
}

/// Whether the stream holds at least a whole length prefix.
pub open spec fn has_prefix(s: Seq<u8>) -> bool {
    s.len() >= 4
}

/// The length the prefix at the head of the stream declares.
pub open spec fn declared_len(s: Seq<u8>) -> nat {
    spec_u32_from_le_bytes(s.take(4)) as nat
}

/// Whether the stream holds at least one whole frame.
pub open spec fn has_frame(s: Seq<u8>) -> bool {
    has_prefix(s) && s.len() >= 4 + declared_len(s)
}

/// The payload of the frame at the head of the stream.
pub open spec fn frame_payload(s: Seq<u8>) -> Seq<u8> {
    s.subrange(4, 4 + declared_len(s) as int)
}

/// The stream after the frame at its head: where the next length prefix
/// starts.
pub open spec fn frame_rest(s: Seq<u8>) -> Seq<u8> {
    s.skip(4 + declared_len(s) as int)
}

/// Everything an exact-fit frame read promises, relating the stream
/// before the call (`s`), the reader's policy (`c`), the destination
/// before and after (`dst0`, `dst1`), the stream after (`avail1`), and
/// the result. On success the destination holds exactly the head frame's
/// payload and the stream sits at the next length prefix; on failure the
/// destination is untouched, and the stream is realigned exactly when the
/// policy drained the rejected frame's body.
pub open spec fn recv_outcome(
    s: Seq<u8>,
    c: ReaderConfig,
    dst0: Seq<u8>,
    dst1: Seq<u8>,
    avail1: Seq<u8>,
    r: Result<(), AbutError>,
) -> bool {
    let l = declared_len(s);
    let drains = c.drain_oversize_up_to != 0 && l <= c.drain_oversize_up_to;
    &&& (r is Ok <==> has_frame(s) && l <= c.max_frame_len)
    &&& (r is Ok ==> dst1 == frame_payload(s) && avail1 == frame_rest(s))
    &&& (r is Err ==> dst1 == dst0)
    &&& (!has_prefix(s) ==> r is Err && r->Err_0.code == AbutCode::Io
            && r->Err_0.source is Some)
    &&& (has_prefix(s) && l > c.max_frame_len ==> r is Err && {
        &&& (drains && s.len() >= 4 + l ==> r->Err_0.code == AbutCode::FrameTooLarge && (
        r->Err_0.ctx matches Some(t) && t@ == spec_exceeds_ctx(l, c.max_frame_len as nat))
            && avail1 == frame_rest(s))
        &&& (drains && s.len() < 4 + l ==> r->Err_0.code == AbutCode::Io
                && r->Err_0.source is Some)
        &&& (!drains ==> r->Err_0.code == AbutCode::FrameTooLarge && (r->Err_0.ctx matches Some(
        t) && t@ == spec_exceeds_ctx(l, c.max_frame_len as nat)) && avail1 == s.skip(4))
    })
    &&& (has_prefix(s) && l <= c.max_frame_len && s.len() < 4 + l ==> r is Err
            && r->Err_0.code == AbutCode::Io && r->Err_0.source is Some)
}

/// A writer that frames byte payloads with a u32 length prefix.
pub struct FramedWriter<W: ByteSink> {
    inner: W,
}

impl<W: ByteSink> FramedWriter<W> {
    /// All bytes this writer's sink has accepted.
    pub closed spec fn sent(&self) -> Seq<u8> {
        self.inner.sent()
    }

    /// Whether this writer's sink can never fail.
    pub closed spec fn is_reliable(&self) -> bool {
        self.inner.is_reliable()
    }

    pub fn new(inner: W) -> (r: Self)
        ensures
            r.sent() == inner.sent(),
            r.is_reliable() == inner.is_reliable(),
    {
        Self { inner }
    }

    /// Writes one frame; a convenience alias for [`Self::write_frame`],
    /// also reachable through the [`FrameSink`] impl.
    pub fn send_bytes(&mut self, bytes: &[u8]) -> (r: Result<(), AbutError>)
        ensures
            r is Ok ==> bytes@.len() <= u32::MAX
                && final(self).sent() == old(self).sent() + encode_frame(bytes@)
                && final(self).is_reliable() == old(self).is_reliable(),
            old(self).is_reliable() && bytes@.len() <= u32::MAX ==> r is Ok,
            bytes@.len() > u32::MAX ==> r is Err && *final(self) == *old(self)
                && r->Err_0.code == AbutCode::FrameTooLarge,
            r is Err && bytes@.len() <= u32::MAX ==> r->Err_0.code == AbutCode::Io,
    {
        self.write_frame(bytes)
    }

    pub fn into_inner(self) -> (r: W)
        ensures
            r.sent() == self.sent(),
            r.is_reliable() == self.is_reliable(),
    {
        self.inner
    }

    pub fn inner_mut(&mut self) -> (r: &mut W)
        ensures
            (*r).sent() == old(self).sent(),
            (*r).is_reliable() == old(self).is_reliable(),
            final(self).sent() == final(r).sent(),
            final(self).is_reliable() == final(r).is_reliable(),
    {
        &mut self.inner
    }

    /// Writes one frame. Does NOT flush (caller controls flushing).
    ///
    /// Rejects a payload whose length does not fit the 4-byte prefix
    /// before writing anything; any sink failure may leave a torn,
    /// partially written frame behind.
    pub fn write_frame(&mut self, bytes: &[u8]) -> (r: Result<(), AbutError>)
        ensures
            r is Ok ==> bytes@.len() <= u32::MAX
                && final(self).sent() == old(self).sent() + encode_frame(bytes@)
                && final(self).is_reliable() == old(self).is_reliable(),
            old(self).is_reliable() && bytes@.len() <= u32::MAX ==> r is Ok,
            bytes@.len() > u32::MAX ==> r is Err && *final(self) == *old(self)
                && r->Err_0.code == AbutCode::FrameTooLarge
                && (r->Err_0.ctx matches Some(t)
                        && t@ == spec_exceeds_ctx(bytes@.len(), u32::MAX as nat)),
            r is Err && bytes@.len() <= u32::MAX ==> r->Err_0.code == AbutCode::Io
                && r->Err_0.source is Some,
    {
        let n = bytes.len();
        if n > (u32::MAX as usize) {
            return Err(AbutError::frame_too_large(n, u32::MAX as usize));
        }
        let len32: u32 = n as u32;
        let prefix = u32_to_le_bytes(len32);
        match self.inner.write_all(prefix.as_slice()) {
            Ok(_) => {},
            Err(e) => {
                return Err(AbutError::io(e));
            },
        }
        match self.inner.write_all(bytes) {
            Ok(_) => {},
            Err(e) => {
                return Err(AbutError::io(e));
            },
        }
        proof {
            assert(self.sent() =~= old(self).sent() + encode_frame(bytes@));
        }
        Ok(())
    }

    /// Forwards to the sink's flush; never called implicitly by writes.
    pub fn flush(&mut self) -> (r: Result<(), AbutError>)
        ensures
            r is Ok ==> final(self).sent() == old(self).sent()
                && final(self).is_reliable() == old(self).is_reliable(),
            old(self).is_reliable() ==> r is Ok,
            r is Err ==> r->Err_0.code == AbutCode::Io && r->Err_0.source is Some,
    {
        match self.inner.flush() {
            Ok(_) => Ok(()),
            Err(e) => Err(AbutError::io(e)),
        }
    }
}

impl<W: ByteSink> FrameSink for FramedWriter<W> {
    type Error = AbutError;

    fn send_frame(&mut self, bytes: &[u8]) -> (r: Result<(), AbutError>)
        ensures
            r is Ok ==> bytes@.len() <= u32::MAX
                && final(self).sent() == old(self).sent() + encode_frame(bytes@),
            old(self).is_reliable() && bytes@.len() <= u32::MAX ==> r is Ok,
    {
        self.write_frame(bytes)
    }
}

/// A reader that consumes length-prefixed frames.
pub struct FramedReader<R: ByteSource> {
    inner: R,
    cfg: ReaderConfig,
}

impl<R: ByteSource> FramedReader<R> {
    /// The bytes this reader's source still delivers.
    pub closed spec fn avail(&self) -> Seq<u8> {
        self.inner.avail()
    }

    /// The policy this reader was constructed with.
    pub closed spec fn config_spec(&self) -> ReaderConfig {
        self.cfg
    }

    pub fn max_frame_len(&self) -> (r: usize)
        ensures
            r == self.config_spec().max_frame_len,
    {
        self.cfg.max_frame_len
    }

    pub fn new(inner: R) -> (r: Self)
        ensures
            r.avail() == inner.avail(),
            r.config_spec().max_frame_len == 65536,
            r.config_spec().drain_on_small_buffer == true,
            r.config_spec().drain_oversize_up_to == 0,
    {
        Self::with_config(inner, ReaderConfig::default())
    }

    pub fn with_max(inner: R, max_frame_len: usize) -> (r: Self)
        ensures
            r.avail() == inner.avail(),
            r.config_spec().max_frame_len == max_frame_len,
            r.config_spec().drain_on_small_buffer == true,
            r.config_spec().drain_oversize_up_to == 0,
    {
        let base = ReaderConfig::default();
        Self::with_config(
            inner,
            ReaderConfig {
                max_frame_len,
                drain_on_small_buffer: base.drain_on_small_buffer,
                drain_oversize_up_to: base.drain_oversize_up_to,
            },
        )
    }

    pub fn with_config(inner: R, cfg: ReaderConfig) -> (r: Self)
        ensures
            r.avail() == inner.avail(),
            r.config_spec() == cfg,
    {
        Self { inner, cfg }
    }

    pub fn into_inner(self) -> (r: R)
        ensures
            r.avail() == self.avail(),
    {
        self.inner
    }

    pub fn inner_mut(&mut self) -> (r: &mut R)
        ensures
            (*r).avail() == old(self).avail(),
            final(self).avail() == final(r).avail(),
            final(self).config_spec() == old(self).config_spec(),
    {
        &mut self.inner
    }

    pub fn config(&self) -> (r: ReaderConfig)
        ensures
            r == self.config_spec(),
    {
        self.cfg
    }

    /// Consumes and discards exactly `len` bytes, to realign the stream
    /// after a rejected frame.
    fn drain_exact(&mut self, len: usize) -> (r: Result<(), AbutError>)
        ensures
            final(self).config_spec() == old(self).config_spec(),
            r is Ok <==> len <= old(self).avail().len(),
            r is Ok ==> final(self).avail() == old(self).avail().skip(len as int),
            r is Err ==> r->Err_0.code == AbutCode::Io && r->Err_0.source is Some,
    {
        match self.inner.read_exact(len) {
            Ok(_) => Ok(()),
            Err(e) => Err(AbutError::io(e)),
        }
    }

    /// Reads and decodes the 4-byte little-endian length prefix.
    fn read_len(&mut self) -> (r: Result<usize, AbutError>)
        ensures
            final(self).config_spec() == old(self).config_spec(),
            r is Ok <==> has_prefix(old(self).avail()),
            r is Ok ==> r->Ok_0 == declared_len(old(self).avail())
                && final(self).avail() == old(self).avail().skip(4),
            r is Err ==> r->Err_0.code == AbutCode::Io && r->Err_0.source is Some,
    {
        match self.inner.read_exact(LEN_PREFIX) {
            Ok(buf) => {
                let len32 = u32_from_le_bytes(buf.as_slice());
                Ok(len32 as usize)
            },
            Err(e) => Err(AbutError::io(e)),
        }
    }

    /// Reads the next frame into `dst`, resizing it exactly to the frame
    /// length. `dst` keeps its old contents on every failure.
    ///
    /// The destination is cleared and refilled rather than reallocated, so
    /// repeated reads into one container amortize allocation: its capacity
    /// never shrinks across calls.
    pub fn recv_into(&mut self, dst: &mut Vec<u8>) -> (r: Result<(), AbutError>)
        ensures
            final(self).config_spec() == old(self).config_spec(),
            recv_outcome(
                old(self).avail(),
                old(self).config_spec(),
                old(dst)@,
                final(dst)@,
                final(self).avail(),
                r,
            ),
    {
        let len = match self.read_len() {
            Ok(l) => l,
            Err(e) => {
                return Err(e);
            },
        };
        if len > self.cfg.max_frame_len {
            if self.cfg.drain_oversize_up_to != 0 && len <= self.cfg.drain_oversize_up_to {
                match self.drain_exact(len) {
                    Ok(_) => {
                        proof {
                            assert(self.avail() =~= frame_rest(old(self).avail()));
                        }
                    },
                    Err(e) => {
                        return Err(e);
                    },
                }
            }
            return Err(AbutError::frame_too_large(len, self.cfg.max_frame_len));
        }
        match self.inner.read_exact(len) {
            Ok(data) => {
                dst.clear();
                dst.extend_from_slice(data.as_slice());
                proof {
                    assert(dst@ =~= frame_payload(old(self).avail()));
                    assert(self.avail() =~= frame_rest(old(self).avail()));
                }
                Ok(())
            },
            Err(e) => Err(AbutError::io(e)),
        }
    }

    /// Reads the next frame into the front of a caller-provided slice and
    /// returns the frame's length; the remainder of `dst` is left
    /// untouched. `dst` is wholly untouched on every failure.
    pub fn read_frame(&mut self, dst: &mut [u8]) -> (r: Result<usize, AbutError>)
        ensures
            final(self).config_spec() == old(self).config_spec(),
            final(dst)@.len() == old(dst)@.len(),
            ({
                let s = old(self).avail();
                let c = old(self).config_spec();
                let l = declared_len(s);
                let drains = c.drain_oversize_up_to != 0 && l <= c.drain_oversize_up_to;
                &&& (r is Ok <==> has_frame(s) && l <= c.max_frame_len && l <= old(dst)@.len())
                &&& (r is Ok ==> r->Ok_0 == l
                        && final(dst)@ == frame_payload(s) + old(dst)@.skip(l as int)
                        && final(self).avail() == frame_rest(s))
                &&& (r is Err ==> final(dst)@ == old(dst)@)
                &&& (!has_prefix(s) ==> r is Err && r->Err_0.code == AbutCode::Io
                        && r->Err_0.source is Some)
                &&& (has_prefix(s) && l > c.max_frame_len ==> r is Err && {
                    &&& (drains && s.len() >= 4 + l ==> r->Err_0.code
                        == AbutCode::FrameTooLarge && (r->Err_0.ctx matches Some(t)
                            && t@ == spec_exceeds_ctx(l, c.max_frame_len as nat))
                        && final(self).avail() == frame_rest(s))
                    &&& (drains && s.len() < 4 + l ==> r->Err_0.code == AbutCode::Io
                            && r->Err_0.source is Some)
                    &&& (!drains ==> r->Err_0.code == AbutCode::FrameTooLarge
                        && (r->Err_0.ctx matches Some(t)
                            && t@ == spec_exceeds_ctx(l, c.max_frame_len as nat))
                        && final(self).avail() == s.skip(4))
                })
                &&& (has_prefix(s) && l <= c.max_frame_len && old(dst)@.len() < l ==> r is Err
                        && {
                    &&& (c.drain_on_small_buffer && s.len() >= 4 + l ==> r->Err_0.code
                        == AbutCode::BufferTooSmall && (r->Err_0.ctx matches Some(t)
                            && t@ == spec_need_ctx(l)) && final(self).avail() == frame_rest(s))
                    &&& (c.drain_on_small_buffer && s.len() < 4 + l ==> r->Err_0.code
                        == AbutCode::Io && r->Err_0.source is Some)
                    &&& (!c.drain_on_small_buffer ==> r->Err_0.code == AbutCode::BufferTooSmall
                        && (r->Err_0.ctx matches Some(t) && t@ == spec_need_ctx(l))
                        && final(self).avail() == s.skip(4))
                })
                &&& (has_prefix(s) && l <= c.max_frame_len && l <= old(dst)@.len() && s.len() < 4
                        + l ==> r is Err && r->Err_0.code == AbutCode::Io
                        && r->Err_0.source is Some)
            }),
    {
        let len = match self.read_len() {
            Ok(l) => l,
            Err(e) => {
                return Err(e);
            },
        };
        if len > self.cfg.max_frame_len {
            if self.cfg.drain_oversize_up_to != 0 && len <= self.cfg.drain_oversize_up_to {
                match self.drain_exact(len) {
                    Ok(_) => {
                        proof {
                            assert(self.avail() =~= frame_rest(old(self).avail()));
                        }
                    },
                    Err(e) => {
                        return Err(e);
                    },
                }
            }
            return Err(AbutError::frame_too_large(len, self.cfg.max_frame_len));
        }
        if dst.len() < len {
            if self.cfg.drain_on_small_buffer {
                match self.drain_exact(len) {
                    Ok(_) => {
                        proof {
                            assert(self.avail() =~= frame_rest(old(self).avail()));
                        }
                    },
                    Err(e) => {
                        return Err(e);
                    },
                }
            }
            return Err(AbutError::buffer_too_small(len));
        }
        match self.inner.read_exact(len) {
            Ok(data) => {
                let ghost dst0 = dst@;
                let mut i: usize = 0;
                while i < len
                    invariant
                        i <= len,
                        len <= dst0.len(),
                        dst@.len() == dst0.len(),
                        data@.len() == len,
                        dst@ == data@.take(i as int) + dst0.skip(i as int),
                    decreases len - i,
                {
                    dst[i] = data[i];
                    proof {
                        assert(dst@ =~= data@.take(i + 1) + dst0.skip(i + 1));
                    }
                    i = i + 1;
                }
                proof {
                    assert(dst@ =~= frame_payload(old(self).avail()) + dst0.skip(len as int));
                    assert(self.avail() =~= frame_rest(old(self).avail()));
                }
                Ok(len)
            },
            Err(e) => Err(AbutError::io(e)),
        }
    }
}

impl<R: ByteSource> FrameSource for FramedReader<R> {
    type Error = AbutError;

    fn recv_frame(&mut self, dst: &mut [u8]) -> (r: Result<usize, AbutError>)
        ensures
            final(self).config_spec() == old(self).config_spec(),
            final(dst)@.len() == old(dst)@.len(),
            ({
                let s = old(self).avail();
                let c = old(self).config_spec();
                let l = declared_len(s);
                &&& (r is Ok <==> has_frame(s) && l <= c.max_frame_len && l <= old(dst)@.len())
                &&& (r is Ok ==> r->Ok_0 == l
                        && final(dst)@ == frame_payload(s) + old(dst)@.skip(l as int)
                        && final(self).avail() == frame_rest(s))
                &&& (r is Err ==> final(dst)@ == old(dst)@)
            }),
    {
        self.read_frame(dst)
    }
}

impl From<BufferTooSmall> for AbutError {
    fn from(e: BufferTooSmall) -> Self {
        AbutError::buffer_too_small(e.needed)
    }
}

impl vstd::std_specs::convert::FromSpecImpl<BufferTooSmall> for AbutError {
    open spec fn obeys_from_spec() -> bool {
        false
    }

    open spec fn from_spec(e: BufferTooSmall) -> Self {
        arbitrary()
    }
}

/// Round trip: writing a payload and then parsing the stream gives back
/// exactly that payload, for every payload the length prefix can describe,
/// and leaves the rest of the stream where the next frame starts.
pub proof fn lemma_frame_round_trip(payload: Seq<u8>, rest: Seq<u8>)
    requires
        payload.len() <= u32::MAX,
    ensures
        ({
            let s = encode_frame(payload) + rest;
            &&& has_prefix(s)
            &&& declared_len(s) == payload.len()
            &&& has_frame(s)
            &&& frame_payload(s) == payload
            &&& frame_rest(s) == rest
        }),
{
    lemma_auto_spec_u32_to_from_le_bytes();
    let prefix = spec_u32_to_le_bytes(payload.len() as u32);
    let s = encode_frame(payload) + rest;
    assert(s.take(4) =~= prefix);
    assert(frame_payload(s) =~= payload);
    assert(frame_rest(s) =~= rest);
}

/// The stream holding this whole sequence of frames, in order.
pub open spec fn encode_frames(frames: Seq<Seq<u8>>) -> Seq<u8>
    decreases frames.len(),
{
    if frames.len() == 0 {
        Seq::empty()
    } else {
        encode_frame(frames[0]) + encode_frames(frames.skip(1))
    }
}

/// Multi-frame sequencing: after any number of frames of a written
/// sequence have been consumed, the stream's head frame is the next
/// payload of the sequence, unchanged and in order, and what follows it is
/// the encoding of the remaining payloads.
pub proof fn lemma_frame_sequence(frames: Seq<Seq<u8>>, k: int)
    requires
        0 <= k < frames.len(),
        forall|i: int| 0 <= i < frames.len() ==> #[trigger] frames[i].len() <= u32::MAX,
    ensures
        ({
            let s = encode_frames(frames.skip(k));
            &&& has_frame(s)
            &&& declared_len(s) == frames[k].len()
            &&& frame_payload(s) == frames[k]
            &&& frame_rest(s) == encode_frames(frames.skip(k + 1))
        }),
{
    let tail = frames.skip(k);
    assert(tail[0] == frames[k]);
    assert(tail.skip(1) =~= frames.skip(k + 1));
    lemma_frame_round_trip(frames[k], encode_frames(frames.skip(k + 1)));
}

} // verus!

pub mod cbor;

pub mod postcard;
