use quadcore::codec::{serialize_message, serialize_message_log, serialize_messages, GyroValue, Message};
use quadcore::parser::{ParseStep, StreamParser};

fn sample_frame() -> Vec<u8> {
    // CRC-16/CCITT-FALSE of "123456789" is 0x29B1 = 10673; 10673 % 511 = 453 = 0x01C5
    let mut v = vec![0xFE, 9];
    v.extend_from_slice(b"123456789");
    v.extend_from_slice(&[1, 197, 0xFF]);
    v
}

#[test]
fn live_frame_has_reduced_crc() {
    assert_eq!(serialize_message(b"123456789".to_vec()), sample_frame());
}

#[test]
fn live_frame_round_trip() {
    let frame = serialize_message(vec![3, 0, 7, 0xFF, 0x10]);
    assert_eq!(Message::get_message(&frame), Some(vec![3, 0, 7, 0xFF, 0x10]));
}

#[test]
fn live_frame_bad_checksum_is_dropped() {
    let mut frame = sample_frame();
    frame[11] = 2;
    assert_eq!(Message::get_message(&frame), None);
}

#[test]
fn live_frame_bad_length_or_markers_is_dropped() {
    let mut frame = sample_frame();
    frame[1] = 8;
    assert_eq!(Message::get_message(&frame), None);
    let mut frame = sample_frame();
    frame[0] = 0x00;
    assert_eq!(Message::get_message(&frame), None);
    assert_eq!(Message::get_message(&[0xFE, 0xFF]), None);
    assert_eq!(Message::get_message(&[]), None);
}

#[test]
fn empty_payload_frame() {
    let frame = serialize_message(vec![]);
    assert_eq!(frame.len(), 5);
    assert_eq!(Message::get_message(&frame), Some(vec![]));
}

#[test]
fn log_frame_layout() {
    let frame = serialize_message_log(vec![200, 100, 1]);
    assert_eq!(frame.len(), 64);
    assert_eq!(frame[0], 0xFE);
    assert_eq!(frame[1], 3);
    assert_eq!(&frame[2..5], &[200, 100, 1]);
    assert!(frame[5..61].iter().all(|&b| b == 0));
    assert_eq!(frame[61], 0);
    assert_eq!(frame[62], (301 % 256) as u8);
    assert_eq!(frame[63], 0xFF);
    assert_eq!(Message::get_message_log(&frame), Some(vec![200, 100, 1]));
}

#[test]
fn log_frame_bad_sum_is_dropped() {
    let mut frame = serialize_message_log(vec![5, 6]);
    frame[62] = frame[62].wrapping_add(1);
    assert_eq!(Message::get_message_log(&frame), None);
    let mut frame = serialize_message_log(vec![5, 6]);
    frame[1] = 70;
    assert_eq!(Message::get_message_log(&frame), None);
    assert_eq!(Message::get_message_log(&[0u8; 64]), None);
}

#[test]
fn log_frame_length_must_end_before_checksum() {
    assert_eq!(Message::get_message_log(&[0xFE, 3, 0, 0, 0, 0xFF]), None);
    assert_eq!(Message::get_message_log(&[0xFE, 1, 7, 0, 7, 0xFF]), Some(vec![7]));
}

#[test]
fn log_frame_checksum_covers_padding() {
    let mut frame = serialize_message_log(vec![5, 6]);
    frame[30] = 9;
    assert_eq!(Message::get_message_log(&frame), None);
    frame[62] = frame[62].wrapping_add(9);
    assert_eq!(Message::get_message_log(&frame), Some(vec![5, 6]));
}

#[test]
fn message_build_keeps_message() {
    let mut m = Message::new(vec![9, 8]);
    let a = m.build_message();
    let b = m.build_message();
    assert_eq!(a, b);
    assert_eq!(m.command, vec![9, 8]);
}

#[test]
fn frames_concatenate() {
    let all = serialize_messages(vec![vec![1], vec![2, 3]]);
    let mut expected = serialize_message(vec![1]);
    expected.extend(serialize_message(vec![2, 3]));
    assert_eq!(all, expected);
}

#[test]
fn parser_round_trip() {
    let mut p = StreamParser::new();
    let payload = vec![0x01, 0x80, 0xFF, 0x00, 0x7F];
    let got = p.feed_payloads(&serialize_message(payload.clone()));
    assert_eq!(got, vec![payload]);
}

#[test]
fn parser_without_start_byte_never_decodes() {
    let mut p = StreamParser::new();
    let stream: Vec<u8> = (0..600u32).map(|i| if i % 7 == 0 { 0xFF } else { (i % 250) as u8 }).collect();
    let steps = p.feed(&stream);
    assert_eq!(steps.len(), stream.len());
    assert!(steps.iter().all(|s| matches!(s, ParseStep::Pending)));
    // a fresh parser fed a stream of exactly five bytes ending in 0xFF attempts nothing
    let mut q = StreamParser::new();
    assert!(q.feed(&[1, 2, 3, 4, 0xFF]).iter().all(|s| matches!(s, ParseStep::Pending)));
}

#[test]
fn parser_resyncs_mid_frame() {
    let mut p = StreamParser::new();
    let first = serialize_message(vec![10, 20, 30, 40]);
    // half a frame, then a full one
    let mut stream = first[..4].to_vec();
    stream.extend(serialize_message(vec![7, 7]));
    assert_eq!(p.feed_payloads(&stream), vec![vec![7, 7]]);
    // garbage, then a frame
    let mut stream = vec![0x00, 0xFF, 0x13, 0x37];
    stream.extend(serialize_message(vec![1, 2, 3]));
    assert_eq!(p.feed_payloads(&stream), vec![vec![1, 2, 3]]);
}

#[test]
fn parser_reports_rejected_frame() {
    let mut p = StreamParser::new();
    let mut frame = serialize_message(vec![4, 5]);
    frame[4] ^= 1;
    let steps = p.feed(&frame);
    assert!(matches!(steps.last(), Some(ParseStep::Rejected)));
    assert_eq!(p.feed_payloads(&serialize_message(vec![4, 5])), vec![vec![4, 5]]);
}

#[test]
fn parser_two_frames_in_one_read() {
    let mut p = StreamParser::new();
    let stream = serialize_messages(vec![vec![1], vec![2, 2]]);
    assert_eq!(p.feed_payloads(&stream), vec![vec![1], vec![2, 2]]);
}

#[test]
fn gyro_value_initial_keeps_throttle() {
    let mut g = GyroValue { yaw: 5, pitch: -3, roll: 9, throttle: -200 };
    g.initial();
    assert_eq!((g.yaw, g.pitch, g.roll, g.throttle), (0, 0, 0, -200));
}
