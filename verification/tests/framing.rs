use kafka_client::kafka::frame::read_frame;
use kafka_client::kafka::frame::write_frame;
use kafka_client::kafka::frame::FrameTooLong;
use kafka_client::kafka::frame::MAX_FRAME_LEN;
use kafka_client::kafka::frame::PREFIX_LEN;

#[test]
fn write_frame_prefixes_big_endian_length() {
    let mut dst: Vec<u8> = Vec::new();
    assert_eq!(write_frame(&vec![1, 2, 3], &mut dst), Ok(()));
    assert_eq!(dst, vec![0, 0, 0, 3, 1, 2, 3]);
}

#[test]
fn write_frame_appends_after_what_is_there() {
    let mut dst: Vec<u8> = vec![9, 9];
    assert_eq!(write_frame(&vec![7], &mut dst), Ok(()));
    assert_eq!(dst, vec![9, 9, 0, 0, 0, 1, 7]);
}

#[test]
fn write_frame_of_empty_payload_is_the_prefix_alone() {
    let mut dst: Vec<u8> = Vec::new();
    assert_eq!(write_frame(&Vec::new(), &mut dst), Ok(()));
    assert_eq!(dst, vec![0, 0, 0, 0]);
}

#[test]
fn write_frame_length_uses_all_four_bytes() {
    let payload: Vec<u8> = vec![0xab; 0x0102_03];
    let mut dst: Vec<u8> = Vec::new();
    assert_eq!(write_frame(&payload, &mut dst), Ok(()));
    assert_eq!(&dst[..4], &[0x00, 0x01, 0x02, 0x03]);
    assert_eq!(dst.len(), 4 + 0x0102_03);
    assert_eq!(&dst[4..], &payload[..]);
}

#[test]
fn read_frame_waits_for_the_prefix() {
    let mut src: Vec<u8> = vec![0, 0, 0];
    assert_eq!(read_frame(&mut src), Ok(None));
    assert_eq!(src, vec![0, 0, 0]);
    let mut empty: Vec<u8> = Vec::new();
    assert_eq!(read_frame(&mut empty), Ok(None));
    assert!(empty.is_empty());
}

#[test]
fn read_frame_waits_for_the_payload_and_consumes_nothing() {
    let mut src: Vec<u8> = vec![0, 0, 0, 3, 1, 2];
    assert_eq!(read_frame(&mut src), Ok(None));
    assert_eq!(src, vec![0, 0, 0, 3, 1, 2]);
    src.push(3);
    assert_eq!(read_frame(&mut src), Ok(Some(vec![1, 2, 3])));
    assert!(src.is_empty());
}

#[test]
fn read_frame_consumes_exactly_one_frame() {
    let mut src: Vec<u8> = vec![0, 0, 0, 2, 10, 11, 0, 0, 0, 1, 12, 0, 0];
    assert_eq!(read_frame(&mut src), Ok(Some(vec![10, 11])));
    assert_eq!(src, vec![0, 0, 0, 1, 12, 0, 0]);
    assert_eq!(read_frame(&mut src), Ok(Some(vec![12])));
    assert_eq!(src, vec![0, 0]);
    assert_eq!(read_frame(&mut src), Ok(None));
    assert_eq!(src, vec![0, 0]);
}

#[test]
fn read_frame_takes_an_empty_payload() {
    let mut src: Vec<u8> = vec![0, 0, 0, 0, 5];
    assert_eq!(read_frame(&mut src), Ok(Some(Vec::new())));
    assert_eq!(src, vec![5]);
}

#[test]
fn read_frame_refuses_an_oversized_prefix() {
    let mut src: Vec<u8> = vec![0x80, 0, 0, 0, 1, 2, 3];
    assert_eq!(read_frame(&mut src), Err(FrameTooLong { declared: 0x8000_0000 }));
    assert_eq!(src, vec![0x80, 0, 0, 0, 1, 2, 3]);
}

#[test]
fn read_frame_accepts_the_largest_prefix_and_waits() {
    let mut src: Vec<u8> = vec![0x7f, 0xff, 0xff, 0xff, 1];
    assert_eq!(read_frame(&mut src), Ok(None));
    assert_eq!(src.len(), 5);
}

#[test]
fn frame_limits_are_as_documented() {
    assert_eq!(PREFIX_LEN, 4);
    assert_eq!(MAX_FRAME_LEN, i32::MAX as u32);
}

#[test]
fn written_frames_read_back() {
    let mut wire: Vec<u8> = Vec::new();
    let first: Vec<u8> = (0..=255u8).collect();
    let second: Vec<u8> = vec![42; 1000];
    assert_eq!(write_frame(&first, &mut wire), Ok(()));
    assert_eq!(write_frame(&second, &mut wire), Ok(()));
    assert_eq!(read_frame(&mut wire), Ok(Some(first)));
    assert_eq!(read_frame(&mut wire), Ok(Some(second)));
    assert!(wire.is_empty());
}
