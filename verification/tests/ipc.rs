use scx_synse::frame::{encode_frame, frame_header, header_len, header_status, parse_frame, FrameError, HeaderRead, HEADER_LEN};
use scx_synse::ipc::SchedMode;

#[test]
fn sched_mode_raw_matches_upstream_numbering() {
    assert_eq!(SchedMode::Auto.as_raw(), 0);
    assert_eq!(SchedMode::Gaming.as_raw(), 1);
    assert_eq!(SchedMode::PowerSave.as_raw(), 2);
    assert_eq!(SchedMode::LowLatency.as_raw(), 3);
    assert_eq!(SchedMode::Server.as_raw(), 4);
}

#[test]
fn frame_is_little_endian_length_then_payload() {
    let frame = encode_frame(b"hello");
    assert_eq!(frame, vec![5, 0, 0, 0, b'h', b'e', b'l', b'l', b'o']);
    assert_eq!(encode_frame(&[]), vec![0, 0, 0, 0]);
}

#[test]
fn header_round_trips() {
    for n in [0u32, 1, 255, 256, 0x0102_0304, u32::MAX] {
        assert_eq!(header_len(frame_header(n)), n);
    }
    assert_eq!(frame_header(0x0102_0304), [4, 3, 2, 1]);
    assert_eq!(header_len([0, 1, 0, 0]), 256);
}

#[test]
fn reading_an_encoded_frame_gives_the_payload_back() {
    let payload: Vec<u8> = (0..300u32).map(|i| (i % 251) as u8).collect();
    let mut stream = encode_frame(&payload);
    stream.extend_from_slice(&[9, 9, 9]);
    let mut header = [0u8; 4];
    header.copy_from_slice(&stream[..HEADER_LEN]);
    let n = header_len(header) as usize;
    assert_eq!(n, payload.len());
    assert_eq!(&stream[HEADER_LEN..HEADER_LEN + n], payload.as_slice());
}

#[test]
fn header_reads_end_cleanly_only_before_a_frame() {
    assert_eq!(header_status(0), HeaderRead::Ended);
    assert_eq!(header_status(1), HeaderRead::Cut);
    assert_eq!(header_status(3), HeaderRead::Cut);
    assert_eq!(header_status(4), HeaderRead::Whole);
}

#[test]
fn parse_frame_reads_back_what_encode_frame_wrote() {
    let mut stream = encode_frame(b"abc");
    stream.extend_from_slice(&[7, 7]);
    assert_eq!(parse_frame(&stream), Some(Ok((b"abc".to_vec(), 7))));
    assert_eq!(parse_frame(&[]), None);
    assert_eq!(parse_frame(&[3, 0]), Some(Err(FrameError::Cut)));
    assert_eq!(parse_frame(&[3, 0, 0, 0, b'a']), Some(Err(FrameError::Cut)));
    assert_eq!(parse_frame(&[0, 0, 0, 0]), Some(Ok((vec![], 4))));
}
