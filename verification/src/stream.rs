//! The byte-stream boundary: sinks and sources of raw bytes, and a verified
//! in-memory stream that implements both.
//!
//! The framing layer never touches a device itself; it goes through these
//! traits, whose contracts model a stream as the sequence of bytes it has
//! accepted (`sent`) or still delivers (`avail`). Callers with a real
//! transport implement them around their own handle.

use vstd::prelude::*;

verus! {

/// Relies on std::io::Error::from to build the error value that stands for
/// an unexpected end of stream.
#[verifier::external_body]
fn unexpected_eof_error() -> std::io::Error {
    std::io::Error::from(std::io::ErrorKind::UnexpectedEof)
}

/// An output byte stream. `sent()` models every byte the sink has accepted
/// so far: a successful `write_all` appends exactly the given bytes, and a
/// sink with `is_reliable()` never fails. On failure the sink may have
/// accepted any prefix (a torn write); no rollback is promised.
pub trait ByteSink {
    /// All bytes the sink has accepted, in order.
    spec fn sent(&self) -> Seq<u8>;

    /// True of sinks that cannot fail, such as an in-memory buffer.
    spec fn is_reliable(&self) -> bool;

    /// Writes all of `buf`, or reports the underlying failure.
    fn write_all(&mut self, buf: &[u8]) -> (r: Result<(), std::io::Error>)
        ensures
            r is Ok ==> final(self).sent() == old(self).sent() + buf@,
            r is Ok ==> final(self).is_reliable() == old(self).is_reliable(),
            old(self).is_reliable() ==> r is Ok,
    ;

    /// Pushes buffered bytes down to the device; changes nothing the model
    /// sees.
    fn flush(&mut self) -> (r: Result<(), std::io::Error>)
        ensures
            r is Ok ==> final(self).sent() == old(self).sent(),
            r is Ok ==> final(self).is_reliable() == old(self).is_reliable(),
            old(self).is_reliable() ==> r is Ok,
    ;
}

/// An input byte stream. `avail()` models the bytes the source still
/// delivers, in order: `read_exact(n)` succeeds exactly when `n` of them
/// remain, hands them over, and consumes them. After a failure the source
/// makes no promise about its position (a torn read).
pub trait ByteSource {
    /// The bytes this source still delivers, in order.
    spec fn avail(&self) -> Seq<u8>;

    /// Reads exactly `n` bytes. A short read, including a clean end of
    /// stream, is an error.
    fn read_exact(&mut self, n: usize) -> (r: Result<Vec<u8>, std::io::Error>)
        ensures
            r is Ok <==> n <= old(self).avail().len(),
            r is Ok ==> r->Ok_0@ == old(self).avail().take(n as int),
            r is Ok ==> final(self).avail() == old(self).avail().skip(n as int),
    ;
}

/// An in-memory byte stream: writes append at the end, reads consume from a
/// cursor. It is both a [`ByteSink`] and a [`ByteSource`], so one value can
/// carry frames from a writer to a reader.
pub struct MemStream {
    data: Vec<u8>,
    pos: usize,
}

impl MemStream {
    /// Every byte ever written, read or not.
    pub closed spec fn contents(&self) -> Seq<u8> {
        self.data@
    }

    /// How many bytes reads have consumed. Never exceeds the length of
    /// `contents()`; the clamp in `avail()` only keeps that spec total.
    pub closed spec fn position(&self) -> nat {
        if self.pos <= self.data@.len() {
            self.pos as nat
        } else {
            self.data@.len()
        }
    }

    /// An empty stream.
    pub fn new() -> (r: MemStream)
        ensures
            r.contents() == Seq::<u8>::empty(),
            r.position() == 0,
    {
        MemStream { data: Vec::new(), pos: 0 }
    }

    /// A stream already holding `data`, with nothing consumed yet.
    pub fn from_vec(data: Vec<u8>) -> (r: MemStream)
        ensures
            r.contents() == data@,
            r.position() == 0,
    {
        MemStream { data, pos: 0 }
    }

    /// How many bytes remain to be read.
    pub fn remaining(&self) -> (n: usize)
        ensures
            n == self.avail().len(),
    {
        if self.pos >= self.data.len() {
            0
        } else {
            self.data.len() - self.pos
        }
    }

    /// Every byte the stream holds, read or not: what a writer has put on
    /// the wire.
    pub fn into_vec(self) -> (r: Vec<u8>)
        ensures
            r@ == self.contents(),
    {
        self.data
    }

    /// The unread tail, as a fresh vector.
    pub fn into_unread(self) -> (r: Vec<u8>)
        ensures
            r@ == self.avail(),
    {
        let start = if self.pos >= self.data.len() {
            self.data.len()
        } else {
            self.pos
        };
        let mut out: Vec<u8> = Vec::new();
        let mut i: usize = start;
        while i < self.data.len()
            invariant
                start <= i <= self.data@.len(),
                out@ == self.data@.subrange(start as int, i as int),
            decreases self.data@.len() - i,
        {
            out.push(self.data[i]);
            proof {
                assert(out@ =~= self.data@.subrange(start as int, i + 1 as int));
            }
            i = i + 1;
        }
        proof {
            assert(out@ =~= self.avail());
        }
        out
    }
}

impl ByteSink for MemStream {
    open spec fn sent(&self) -> Seq<u8> {
        self.contents()
    }

    open spec fn is_reliable(&self) -> bool {
        true
    }

    fn write_all(&mut self, buf: &[u8]) -> (r: Result<(), std::io::Error>) {
        self.data.extend_from_slice(buf);
        Ok(())
    }

    fn flush(&mut self) -> (r: Result<(), std::io::Error>) {
        Ok(())
    }
}

impl ByteSource for MemStream {
    open spec fn avail(&self) -> Seq<u8> {
        self.contents().skip(self.position() as int)
    }

    fn read_exact(&mut self, n: usize) -> (r: Result<Vec<u8>, std::io::Error>) {
        if n == 0 {
            let out: Vec<u8> = Vec::new();
            proof {
                assert(out@ =~= self.avail().take(0));
                assert(self.avail() =~= self.avail().skip(0));
            }
            return Ok(out);
        }
        if self.pos >= self.data.len() {
            return Err(unexpected_eof_error());
        }
        let rem = self.data.len() - self.pos;
        if n > rem {
            return Err(unexpected_eof_error());
        }
        let mut out: Vec<u8> = Vec::new();
        let mut i: usize = 0;
        while i < n
            invariant
                i <= n,
                self.pos + n <= self.data@.len(),
                self.data@.len() <= usize::MAX,
                out@ == self.data@.subrange(self.pos as int, self.pos + i),
            decreases n - i,
        {
            out.push(self.data[self.pos + i]);
            proof {
                assert(out@ =~= self.data@.subrange(self.pos as int, self.pos + i + 1));
            }
            i = i + 1;
        }
        let ghost pre = *self;
        self.pos = self.pos + n;
        proof {
            assert(out@ =~= pre.avail().take(n as int));
            assert(self.avail() =~= pre.avail().skip(n as int));
        }
        Ok(out)
    }
}

} // verus!
