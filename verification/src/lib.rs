//! Length-prefixed message framing for byte streams.
//!
//! A frame on the wire is a 4-byte little-endian unsigned length followed by
//! exactly that many payload bytes. [`frame::FramedWriter`] turns byte slices
//! into frames on a byte sink; [`frame::FramedReader`] reconstructs frames
//! from a byte source, enforcing a size limit and an optional drain policy
//! that keeps the stream aligned after a rejected frame.

pub mod error;
pub mod frame;
pub mod render;
pub mod stream;
pub mod traits;
pub mod types;

pub use error::AbutCode;
pub use error::AbutError;
pub use error::AbutSource;
pub use traits::FrameSink;
pub use traits::FrameSource;
pub use types::BufferTooSmall;
pub use types::ReaderConfig;
