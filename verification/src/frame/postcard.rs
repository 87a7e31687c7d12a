//! Framing endpoints for postcard-encoded values.
//!
//! As with the CBOR endpoints, only the framing half lives here; a caller
//! encodes a value with postcard, hands the bytes to
//! [`FramedPostcardWriter::send_encoded`], and decodes what
//! [`FramedPostcardReader::payload`] exposes after a
//! [`FramedPostcardReader::recv_raw`].

use vstd::prelude::*;
use crate::error::AbutCode;
use crate::error::AbutError;
use crate::error::spec_exceeds_ctx;
use crate::frame::FramedReader;
use crate::frame::FramedWriter;
use crate::frame::encode_frame;
use crate::frame::recv_outcome;
use crate::stream::ByteSink;
use crate::stream::ByteSource;
use crate::types::ReaderConfig;

verus! {

/// Writes postcard payloads as length-prefixed frames.
pub struct FramedPostcardWriter<W: ByteSink> {
    inner: FramedWriter<W>,
}

impl<W: ByteSink> FramedPostcardWriter<W> {
    /// All bytes this writer's sink has accepted.
    pub closed spec fn sent(&self) -> Seq<u8> {
        self.inner.sent()
    }

    /// Whether this writer's sink can never fail.
    pub closed spec fn is_reliable(&self) -> bool {
        self.inner.is_reliable()
    }

    pub fn new(inner: W) -> (r: Self)
        ensures
            r.sent() == inner.sent(),
            r.is_reliable() == inner.is_reliable(),
    {
        Self { inner: FramedWriter::new(inner) }
    }

    /// Writes one already-encoded value as a frame.
    pub fn send_encoded(&mut self, bytes: &[u8]) -> (r: Result<(), AbutError>)
        ensures
            r is Ok ==> bytes@.len() <= u32::MAX
                && final(self).sent() == old(self).sent() + encode_frame(bytes@)
                && final(self).is_reliable() == old(self).is_reliable(),
            old(self).is_reliable() && bytes@.len() <= u32::MAX ==> r is Ok,
            bytes@.len() > u32::MAX ==> r is Err && *final(self) == *old(self)
                && r->Err_0.code == AbutCode::FrameTooLarge
                && (r->Err_0.ctx matches Some(t)
                        && t@ == spec_exceeds_ctx(bytes@.len(), u32::MAX as nat)),
            r is Err && bytes@.len() <= u32::MAX ==> r->Err_0.code == AbutCode::Io
                && r->Err_0.source is Some,
    {
        self.inner.write_frame(bytes)
    }

    /// Forwards to the sink's flush.
    pub fn flush(&mut self) -> (r: Result<(), AbutError>)
        ensures
            r is Ok ==> final(self).sent() == old(self).sent()
                && final(self).is_reliable() == old(self).is_reliable(),
            old(self).is_reliable() ==> r is Ok,
            r is Err ==> r->Err_0.code == AbutCode::Io && r->Err_0.source is Some,
    {
        self.inner.flush()
    }

    pub fn into_inner(self) -> (r: W)
        ensures
            r.sent() == self.sent(),
            r.is_reliable() == self.is_reliable(),
    {
        self.inner.into_inner()
    }
}

/// Reads length-prefixed frames holding postcard payloads, reusing one
/// internal buffer across calls.
pub struct FramedPostcardReader<R: ByteSource> {
    inner: FramedReader<R>,
    buf: Vec<u8>,
}

impl<R: ByteSource> FramedPostcardReader<R> {
    /// The bytes this reader's source still delivers.
    pub closed spec fn avail(&self) -> Seq<u8> {
        self.inner.avail()
    }

    /// The policy of the underlying frame reader.
    pub closed spec fn config_spec(&self) -> ReaderConfig {
        self.inner.config_spec()
    }

    /// The payload of the last frame received.
    pub closed spec fn payload_view(&self) -> Seq<u8> {
        self.buf@
    }

    pub fn new(inner: R) -> (r: Self)
        ensures
            r.avail() == inner.avail(),
            r.config_spec().max_frame_len == 65536,
            r.config_spec().drain_on_small_buffer == true,
            r.config_spec().drain_oversize_up_to == 0,
            r.payload_view() == Seq::<u8>::empty(),
    {
        Self { inner: FramedReader::new(inner), buf: Vec::new() }
    }

    pub fn with_inner(inner: FramedReader<R>) -> (r: Self)
        ensures
            r.avail() == inner.avail(),
            r.config_spec() == inner.config_spec(),
            r.payload_view() == Seq::<u8>::empty(),
    {
        Self { inner, buf: Vec::new() }
    }

    /// Reads the next frame into the internal buffer; the buffer keeps its
    /// old contents on every failure.
    pub fn recv_raw(&mut self) -> (r: Result<(), AbutError>)
        ensures
            final(self).config_spec() == old(self).config_spec(),
            recv_outcome(
                old(self).avail(),
                old(self).config_spec(),
                old(self).payload_view(),
                final(self).payload_view(),
                final(self).avail(),
                r,
            ),
    {
        self.inner.recv_into(&mut self.buf)
    }

    /// The payload of the last frame [`Self::recv_raw`] received: what a
    /// decoder consumes.
    pub fn payload(&self) -> (r: &Vec<u8>)
        ensures
            r@ == self.payload_view(),
    {
        &self.buf
    }

    pub fn inner_mut(&mut self) -> (r: &mut FramedReader<R>)
        ensures
            (*r).avail() == old(self).avail(),
            (*r).config_spec() == old(self).config_spec(),
            final(self).avail() == final(r).avail(),
            final(self).config_spec() == final(r).config_spec(),
            final(self).payload_view() == old(self).payload_view(),
    {
        &mut self.inner
    }
}

} // verus!
