use abut::error::{AbutCode, AbutError, AbutSource};
use abut::render::{u64_to_dec, u64_to_pad4};
use abut::types::BufferTooSmall;

#[test]
fn code_ids_are_stable() {
    assert_eq!(AbutCode::Io.code_id(), 1);
    assert_eq!(AbutCode::BufferTooSmall.code_id(), 2);
    assert_eq!(AbutCode::FrameTooLarge.code_id(), 3);
    assert_eq!(AbutCode::PostcardEncode.code_id(), 10);
    assert_eq!(AbutCode::PostcardDecode.code_id(), 11);
}

#[test]
fn code_render_is_prefixed_and_padded() {
    assert_eq!(AbutCode::Io.render(), "[FILE0001] I/O error");
    assert_eq!(AbutCode::BufferTooSmall.render(), "[FILE0002] Buffer too small");
    assert_eq!(AbutCode::FrameTooLarge.render(), "[FILE0003] Frame too large");
    assert_eq!(AbutCode::PostcardEncode.render(), "[FILE0010] Postcard encode failed");
    assert_eq!(AbutCode::PostcardDecode.render(), "[FILE0011] Postcard decode failed");
}

#[test]
fn error_render_appends_context() {
    let plain = AbutError::new(AbutCode::Io);
    assert_eq!(plain.render(), "[FILE0001] I/O error");

    let with_ctx = AbutError::new(AbutCode::Io).ctx(String::from("socket closed"));
    assert_eq!(with_ctx.render(), "[FILE0001] I/O error: socket closed");
}

#[test]
fn buffer_too_small_error_has_exact_context() {
    let e = AbutError::buffer_too_small(12);
    assert!(matches!(e.code, AbutCode::BufferTooSmall));
    assert_eq!(e.render(), "[FILE0002] Buffer too small: need 12 bytes");
    assert!(e.source.is_none());
}

#[test]
fn frame_too_large_error_has_exact_context() {
    let e = AbutError::frame_too_large(5, 2);
    assert!(matches!(e.code, AbutCode::FrameTooLarge));
    assert_eq!(e.render(), "[FILE0003] Frame too large: len 5 exceeds max 2");
    assert!(e.source.is_none());
}

#[test]
fn io_error_keeps_its_cause() {
    let cause = std::io::Error::from(std::io::ErrorKind::UnexpectedEof);
    let e = AbutError::io(cause);
    assert!(matches!(e.code, AbutCode::Io));
    assert!(e.ctx.is_some());
    assert!(matches!(e.source, Some(AbutSource::Io(_))));
}

#[test]
fn io_error_converts_through_from() {
    let cause = std::io::Error::from(std::io::ErrorKind::UnexpectedEof);
    let e = AbutError::from(cause);
    assert!(matches!(e.code, AbutCode::Io));
}

#[test]
fn postcard_errors_keep_their_cause() {
    // an empty buffer can never decode to a u32
    let cause = postcard::from_bytes::<u32>(&[]).unwrap_err();
    let e = AbutError::postcard_decode(cause);
    assert!(matches!(e.code, AbutCode::PostcardDecode));
    assert!(e.ctx.is_some());
    assert!(matches!(e.source, Some(AbutSource::Postcard(_))));
    assert!(e.render().starts_with("[FILE0011] Postcard decode failed: "));

    let cause2 = postcard::from_bytes::<bool>(&[7u8]).unwrap_err();
    let e2 = AbutError::postcard_encode(cause2);
    assert!(matches!(e2.code, AbutCode::PostcardEncode));
    assert!(matches!(e2.source, Some(AbutSource::Postcard(_))));
}

#[test]
fn buffer_too_small_type_renders_and_converts() {
    let b = BufferTooSmall { needed: 3 };
    assert_eq!(b.render(), "buffer too small (need 3 bytes)");

    let e = AbutError::from(b);
    assert!(matches!(e.code, AbutCode::BufferTooSmall));
    assert_eq!(e.render(), "[FILE0002] Buffer too small: need 3 bytes");
}

#[test]
fn decimal_rendering_is_exact() {
    assert_eq!(u64_to_dec(0), "0");
    assert_eq!(u64_to_dec(7), "7");
    assert_eq!(u64_to_dec(10), "10");
    assert_eq!(u64_to_dec(65536), "65536");
    assert_eq!(u64_to_dec(18446744073709551615), "18446744073709551615");

    assert_eq!(u64_to_pad4(0), "0000");
    assert_eq!(u64_to_pad4(7), "0007");
    assert_eq!(u64_to_pad4(42), "0042");
    assert_eq!(u64_to_pad4(999), "0999");
    assert_eq!(u64_to_pad4(1000), "1000");
    assert_eq!(u64_to_pad4(12345), "12345");
}

#[test]
fn default_reader_config_matches_documentation() {
    let cfg = abut::ReaderConfig::default();
    assert_eq!(cfg.max_frame_len, 64 * 1024);
    assert!(cfg.drain_on_small_buffer);
    assert_eq!(cfg.drain_oversize_up_to, 0);
}
