use abut::error::AbutCode;
use abut::frame::cbor::{FramedCborReader, FramedCborWriter};
use abut::frame::postcard::{FramedPostcardReader, FramedPostcardWriter};
use abut::frame::{FramedReader, FramedWriter};
use abut::stream::{ByteSink, ByteSource, MemStream};
use abut::{FrameSink, FrameSource};

#[test]
fn cbor_string_roundtrip_through_frames() {
    let mut w = FramedCborWriter::new(MemStream::new());
    let encoded = serde_cbor::to_vec(&String::from("sensor_alpha")).unwrap();
    w.send_encoded(&encoded).unwrap();

    let mut r = FramedCborReader::new(w.into_inner());
    r.recv_raw().unwrap();
    let decoded: String = serde_cbor::from_slice(r.payload().as_slice()).unwrap();
    assert_eq!(decoded, "sensor_alpha");
}

#[test]
fn cbor_decode_failure_leaves_stream_aligned() {
    let mut w = FramedWriter::new(MemStream::new());
    // a frame holding garbage CBOR, then a valid one
    w.write_frame(&[0xFF, 0xFF, 0xFF]).unwrap();
    let valid = serde_cbor::to_vec(&String::from("I am valid")).unwrap();
    w.write_frame(&valid).unwrap();

    let mut r = FramedCborReader::with_inner(FramedReader::new(w.into_inner()));

    r.recv_raw().unwrap();
    let first: Result<String, _> = serde_cbor::from_slice(r.payload().as_slice());
    assert!(first.is_err(), "Should fail to decode garbage CBOR");

    // framing kept the stream aligned, so the next frame decodes fine
    r.recv_raw().unwrap();
    let second: String = serde_cbor::from_slice(r.payload().as_slice()).unwrap();
    assert_eq!(second, "I am valid");
}

#[test]
fn cbor_oversized_frame_rejected_before_decoding() {
    let mut w = FramedCborWriter::new(MemStream::new());
    let encoded = serde_cbor::to_vec(&String::from("This is a relatively small string")).unwrap();
    w.send_encoded(&encoded).unwrap();

    let framed_reader = FramedReader::with_max(w.into_inner(), 2);
    let mut r = FramedCborReader::with_inner(framed_reader);

    let e = r.recv_raw().unwrap_err();
    assert!(matches!(e.code, AbutCode::FrameTooLarge));
}

#[test]
fn postcard_roundtrip_through_frames() {
    let mut w = FramedPostcardWriter::new(MemStream::new());
    let encoded = postcard::to_allocvec(&42u16).unwrap();
    w.send_encoded(&encoded).unwrap();
    w.flush().unwrap();

    let mut r = FramedPostcardReader::new(w.into_inner());
    r.recv_raw().unwrap();
    let decoded: u16 = postcard::from_bytes(r.payload().as_slice()).unwrap();
    assert_eq!(decoded, 42);
}

#[test]
fn postcard_reader_with_inner_and_inner_mut() {
    let mut w = FramedWriter::new(MemStream::new());
    w.write_frame(&[0xFF, 0xFF, 0xFF]).unwrap();

    let mut r = FramedPostcardReader::with_inner(FramedReader::new(w.into_inner()));
    assert_eq!(r.inner_mut().max_frame_len(), 65536);
    r.recv_raw().unwrap();
    let res: Result<String, _> = postcard::from_bytes(r.payload().as_slice());
    assert!(res.is_err(), "Postcard should fail to decode invalid bytes");
}

#[test]
fn cbor_reader_inner_mut_reaches_the_frame_reader() {
    let mut w = FramedWriter::new(MemStream::new());
    w.write_frame(b"raw bytes").unwrap();

    let mut r = FramedCborReader::new(w.into_inner());
    let mut dst = Vec::new();
    r.inner_mut().recv_into(&mut dst).unwrap();
    assert_eq!(dst, b"raw bytes");
}

#[test]
fn mem_stream_accessors() {
    let mut s = MemStream::from_vec(vec![1, 2, 3, 4]);
    assert_eq!(s.remaining(), 4);
    let first = s.read_exact(1).unwrap();
    assert_eq!(first, vec![1]);
    assert_eq!(s.remaining(), 3);
    assert_eq!(s.into_unread(), vec![2, 3, 4]);

    let s2 = MemStream::from_vec(vec![9, 8]);
    assert_eq!(s2.into_vec(), vec![9, 8]);

    let mut s3 = MemStream::new();
    s3.write_all(&[5, 6]).unwrap();
    s3.flush().unwrap();
    assert_eq!(s3.remaining(), 2);
    let e = s3.read_exact(3);
    assert!(e.is_err(), "short read must fail");
}

#[test]
fn writer_accessors_and_frame_sink_trait() {
    let mut w = FramedWriter::new(MemStream::new());
    w.send_frame(b"via trait").unwrap();
    assert_eq!(w.inner_mut().remaining(), 13);
    let bytes = w.into_inner().into_vec();
    assert_eq!(&bytes[..4], &[9, 0, 0, 0]);
    assert_eq!(&bytes[4..], b"via trait");
}

#[test]
fn reader_frame_source_trait_and_into_inner() {
    let mut w = FramedWriter::new(MemStream::new());
    w.write_frame(b"abc").unwrap();
    let mut r = FramedReader::new(w.into_inner());
    let mut dst = [0u8; 8];
    let n = r.recv_frame(&mut dst).unwrap();
    assert_eq!(&dst[..n], b"abc");
    assert_eq!(r.into_inner().remaining(), 0);
}
