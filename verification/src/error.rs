//! The crate's error type: a stable numeric code under a fixed prefix, an
//! optional context string, and an optional nested cause.
//!
//! Every error renders as `[FILE000N] message[: context]`, so each failure
//! carries a grep-able identifier whose meaning never shifts across
//! versions.

use vstd::prelude::*;
use vstd::string::StringExecFns;
use crate::render::dec_str;
use crate::render::pad4_str;
use crate::render::u64_to_dec;
use crate::render::u64_to_pad4;

verus! {

#[verifier::external_type_specification]
#[verifier::external_body]
pub struct ExIoError(std::io::Error);

#[verifier::external_type_specification]
#[verifier::external_body]
pub struct ExPostcardError(postcard::Error);

/// Relies on std::io::Error's Display impl for the human-readable text of
/// the underlying failure.
#[verifier::external_body]
fn io_error_message(err: &std::io::Error) -> String {
    err.to_string()
}

/// Relies on postcard::Error's Display impl for the human-readable text of
/// the encode or decode failure.
#[verifier::external_body]
fn postcard_error_message(err: &postcard::Error) -> String {
    err.to_string()
}

/// The stable numeric error codes. Each variant's number is fixed for good:
/// logs and callers match on it across versions.
#[derive(Debug, Copy, Clone, PartialEq, Eq, Structural)]
pub enum AbutCode {
    Io,
    BufferTooSmall,
    FrameTooLarge,
    PostcardEncode,
    PostcardDecode,
}

impl AbutCode {
    /// The version-stable number of this code.
    pub open spec fn spec_code_id(self) -> u16 {
        match self {
            AbutCode::Io => 1,
            AbutCode::BufferTooSmall => 2,
            AbutCode::FrameTooLarge => 3,
            AbutCode::PostcardEncode => 10,
            AbutCode::PostcardDecode => 11,
        }
    }

    pub fn code_id(self) -> (r: u16)
        ensures
            r == self.spec_code_id(),
    {
        match self {
            AbutCode::Io => 1,
            AbutCode::BufferTooSmall => 2,
            AbutCode::FrameTooLarge => 3,
            AbutCode::PostcardEncode => 10,
            AbutCode::PostcardDecode => 11,
        }
    }

    /// The fixed human-readable message of this code.
    pub open spec fn spec_message(self) -> Seq<char> {
        match self {
            AbutCode::Io => "I/O error"@,
            AbutCode::BufferTooSmall => "Buffer too small"@,
            AbutCode::FrameTooLarge => "Frame too large"@,
            AbutCode::PostcardEncode => "Postcard encode failed"@,
            AbutCode::PostcardDecode => "Postcard decode failed"@,
        }
    }

    pub fn message(self) -> (r: &'static str)
        ensures
            r@ == self.spec_message(),
    {
        match self {
            AbutCode::Io => "I/O error",
            AbutCode::BufferTooSmall => "Buffer too small",
            AbutCode::FrameTooLarge => "Frame too large",
            AbutCode::PostcardEncode => "Postcard encode failed",
            AbutCode::PostcardDecode => "Postcard decode failed",
        }
    }

    /// The rendered identifier and message: `[FILE000N] message`, the code
    /// zero-padded to four digits under the fixed prefix.
    pub open spec fn spec_render(self) -> Seq<char> {
        "[FILE"@ + pad4_str(self.spec_code_id() as nat) + "] "@ + self.spec_message()
    }

    pub fn render(self) -> (r: String)
        ensures
            r@ == self.spec_render(),
    {
        let mut s = String::from_str("[FILE");
        let pad = u64_to_pad4(self.code_id() as u64);
        s.append(pad.as_str());
        s.append("] ");
        s.append(self.message());
        proof {
            assert(s@ =~= self.spec_render());
        }
        s
    }
}

/// The underlying cause of an error, when one exists.
#[derive(Debug)]
pub enum AbutSource {
    Io(std::io::Error),
    Postcard(postcard::Error),
}

/// Concrete runtime error type for the crate: a stable code, an optional
/// context string, and an optional nested cause.
#[derive(Debug)]
pub struct AbutError {
    pub code: AbutCode,
    pub ctx: Option<String>,
    pub source: Option<AbutSource>,
}

/// The context text of a `BufferTooSmall` error: `need N bytes`.
pub open spec fn spec_need_ctx(needed: nat) -> Seq<char> {
    "need "@ + dec_str(needed) + " bytes"@
}

/// The context text of a `FrameTooLarge` error: `len N exceeds max M`.
pub open spec fn spec_exceeds_ctx(len: nat, max: nat) -> Seq<char> {
    "len "@ + dec_str(len) + " exceeds max "@ + dec_str(max)
}

impl AbutError {
    pub fn new(code: AbutCode) -> (r: Self)
        ensures
            r.code == code,
            r.ctx is None,
            r.source is None,
    {
        Self { code, ctx: None, source: None }
    }

    /// Replaces the context string, keeping code and cause.
    pub fn ctx(self, ctx: String) -> (r: Self)
        ensures
            r.code == self.code,
            r.ctx == Some(ctx),
            r.source == self.source,
    {
        Self { ctx: Some(ctx), ..self }
    }

    /// Wraps an underlying I/O failure under the `Io` code.
    pub fn io(err: std::io::Error) -> (r: Self)
        ensures
            r.code == AbutCode::Io,
            r.ctx is Some,
            r.source == Some(AbutSource::Io(err)),
    {
        let msg = io_error_message(&err);
        Self { code: AbutCode::Io, ctx: Some(msg), source: Some(AbutSource::Io(err)) }
    }

    pub fn buffer_too_small(needed: usize) -> (r: Self)
        ensures
            r.code == AbutCode::BufferTooSmall,
            r.ctx matches Some(c) && c@ == spec_need_ctx(needed as nat),
            r.source is None,
    {
        let mut s = String::from_str("need ");
        let d = u64_to_dec(needed as u64);
        s.append(d.as_str());
        s.append(" bytes");
        proof {
            assert(s@ =~= spec_need_ctx(needed as nat));
        }
        Self::new(AbutCode::BufferTooSmall).ctx(s)
    }

    pub fn frame_too_large(len: usize, max: usize) -> (r: Self)
        ensures
            r.code == AbutCode::FrameTooLarge,
            r.ctx matches Some(c) && c@ == spec_exceeds_ctx(len as nat, max as nat),
            r.source is None,
    {
        let mut s = String::from_str("len ");
        let d = u64_to_dec(len as u64);
        s.append(d.as_str());
        s.append(" exceeds max ");
        let m = u64_to_dec(max as u64);
        s.append(m.as_str());
        proof {
            assert(s@ =~= spec_exceeds_ctx(len as nat, max as nat));
        }
        Self::new(AbutCode::FrameTooLarge).ctx(s)
    }

    /// Wraps a postcard serialization failure under the `PostcardEncode`
    /// code.
    pub fn postcard_encode(err: postcard::Error) -> (r: Self)
        ensures
            r.code == AbutCode::PostcardEncode,
            r.ctx is Some,
            r.source == Some(AbutSource::Postcard(err)),
    {
        let msg = postcard_error_message(&err);
        Self {
            code: AbutCode::PostcardEncode,
            ctx: Some(msg),
            source: Some(AbutSource::Postcard(err)),
        }
    }

    /// Wraps a postcard deserialization failure under the `PostcardDecode`
    /// code.
    pub fn postcard_decode(err: postcard::Error) -> (r: Self)
        ensures
            r.code == AbutCode::PostcardDecode,
            r.ctx is Some,
            r.source == Some(AbutSource::Postcard(err)),
    {
        let msg = postcard_error_message(&err);
        Self {
            code: AbutCode::PostcardDecode,
            ctx: Some(msg),
            source: Some(AbutSource::Postcard(err)),
        }
    }

    /// The canonical display text: `[FILE000N] message`, then `: context`
    /// when a context string is present.
    pub open spec fn spec_render(self) -> Seq<char> {
        match self.ctx {
            Some(c) => self.code.spec_render() + ": "@ + c@,
            None => self.code.spec_render(),
        }
    }

    pub fn render(&self) -> (r: String)
        ensures
            r@ == self.spec_render(),
    {
        let mut s = self.code.render();
        match &self.ctx {
            Some(c) => {
                s.append(": ");
                s.append(c.as_str());
            },
            None => {},
        }
        proof {
            assert(s@ =~= self.spec_render());
        }
        s
    }
}

impl From<std::io::Error> for AbutError {
    fn from(e: std::io::Error) -> Self {
        AbutError::io(e)
    }
}

impl vstd::std_specs::convert::FromSpecImpl<std::io::Error> for AbutError {
    open spec fn obeys_from_spec() -> bool {
        false
    }

    open spec fn from_spec(e: std::io::Error) -> Self {
        arbitrary()
    }
}

} // verus!
