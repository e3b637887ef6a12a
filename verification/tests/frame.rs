use ecchan::frame::{encode_request, CobsReader, LineReader, LineStep};

#[test]
fn line_reader_waits_for_newline() {
    let mut r = LineReader::new();
    assert!(matches!(r.on_data(b"{\"Ok\":"), LineStep::Read));
    match r.on_data(b"\"Pong\"}\n") {
        LineStep::Parse(f) => assert_eq!(f, b"{\"Ok\":\"Pong\"}\n".to_vec()),
        _ => panic!("expected a frame"),
    }
    assert!(!r.draining());
    assert!(matches!(r.on_eof(), LineStep::Eof));
    assert!(matches!(r.on_would_block(), LineStep::Read));
}

#[test]
fn line_reader_drains_extra_bytes() {
    let mut r = LineReader::new();
    match r.on_data(b"a\nb") {
        LineStep::Parse(f) => assert_eq!(f, b"a\n".to_vec()),
        _ => panic!("expected a frame"),
    }
    assert!(r.draining());
    assert!(matches!(r.on_data(b"more"), LineStep::Read));
    assert!(matches!(r.on_would_block(), LineStep::Done));
    assert!(matches!(r.on_eof(), LineStep::Done));
}

#[test]
fn cobs_request_is_framed() {
    let e = encode_request(b"abc");
    assert_eq!(e[0], 0);
    assert_eq!(&e[1..6], &[4, b'a', b'b', b'c', 0]);
    assert_ne!(e, b"abc".to_vec());
}

#[test]
fn cobs_reader_decodes_between_zeros() {
    let mut r = CobsReader::new();
    assert!(r.on_data(&[0, 4, b'a']).is_none());
    let f = r.on_data(&[b'b', b'c', 0]).unwrap();
    assert_eq!(f, b"abc".to_vec());
}

#[test]
fn cobs_reader_roundtrip_with_zero_inside() {
    let data = [1u8, 0, 2, 3];
    let e = encode_request(&data);
    let mut r = CobsReader::new();
    assert_eq!(r.on_data(&e).unwrap(), data.to_vec());
}

#[test]
fn cobs_reader_rejects_bad_body() {
    let mut r = CobsReader::new();
    assert!(r.on_data(&[0, 9, 1, 0]).is_none());
}
