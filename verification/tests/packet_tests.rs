use nab::packet::{
    packet_bytes, parse_header, read_samples, write_header, write_samples, Header, ParseError,
    HEADER_BYTES, PACKET_SAMPLES,
};

fn header(sr: u32, ch: u8, seq: u32) -> Vec<u8> {
    let mut buf = vec![0xAAu8; packet_bytes(ch as usize)];
    write_header(&mut buf, sr, ch, seq);
    buf
}

#[test]
fn packet_bytes_for_stereo() {
    assert_eq!(packet_bytes(2), 16 + 128 * 2 * 4);
    assert_eq!(packet_bytes(1), 528);
    assert_eq!(packet_bytes(0), HEADER_BYTES);
}

#[test]
fn header_layout_is_little_endian() {
    let buf = header(48000, 2, 0x01020304);
    assert_eq!(&buf[0..4], b"NAB1");
    assert_eq!(buf[4], 1);
    assert_eq!(buf[5], 2);
    assert_eq!(&buf[6..10], &48000u32.to_le_bytes());
    assert_eq!(&buf[10..12], &[0, 0]);
    assert_eq!(&buf[12..16], &[4, 3, 2, 1]);
    assert!(buf[16..].iter().all(|b| *b == 0xAA));
}

#[test]
fn header_roundtrip() {
    let buf = header(96000, 2, 77);
    assert_eq!(parse_header(&buf, 96000, 2), Ok(Header { channels: 2, sample_rate: 96000, seq: 77 }));
}

#[test]
fn parse_rejects_short_buffer_as_bad_magic() {
    let buf = header(48000, 2, 1);
    assert_eq!(parse_header(&buf[..15], 48000, 2), Err(ParseError::BadMagic));
    assert_eq!(parse_header(&[], 48000, 2), Err(ParseError::BadMagic));
}

#[test]
fn parse_rejects_bad_magic() {
    let mut buf = header(48000, 2, 1);
    buf[3] = b'2';
    assert_eq!(parse_header(&buf, 48000, 2), Err(ParseError::BadMagic));
}

#[test]
fn parse_rejects_other_version() {
    let mut buf = header(48000, 2, 1);
    buf[4] = 9;
    assert_eq!(parse_header(&buf, 48000, 2), Err(ParseError::UnsupportedVersion(9)));
}

#[test]
fn parse_checks_channels_before_rate() {
    let buf = header(44100, 1, 1);
    assert_eq!(
        parse_header(&buf, 48000, 2),
        Err(ParseError::ChannelsMismatch { got: 1, expected: 2 })
    );
}

#[test]
fn parse_rejects_other_rate() {
    let buf = header(44100, 2, 1);
    assert_eq!(
        parse_header(&buf, 48000, 2),
        Err(ParseError::SampleRateMismatch { got: 44100, expected: 48000 })
    );
}

#[test]
fn samples_roundtrip() {
    let samples: Vec<u32> = vec![0.5f32.to_bits(), (-1.0f32).to_bits(), 7, u32::MAX];
    let mut buf = vec![9u8; 30];
    write_samples(&mut buf, 3, &samples);
    assert_eq!(&buf[0..3], &[9, 9, 9]);
    assert_eq!(&buf[3..7], &0.5f32.to_bits().to_le_bytes());
    assert_eq!(&buf[19..], &[9u8; 11]);
    assert_eq!(read_samples(&buf, 3, 4), samples);
}

#[test]
fn full_packet_layout() {
    let samples: Vec<u32> = (0..(PACKET_SAMPLES * 2) as u32).collect();
    let mut pkt = vec![0u8; packet_bytes(2)];
    write_header(&mut pkt, 48000, 2, 0xDEADBEEF);
    write_samples(&mut pkt, HEADER_BYTES, &samples);
    assert_eq!(parse_header(&pkt, 48000, 2).map(|h| h.seq), Ok(0xDEADBEEF));
    assert_eq!(&pkt[12..16], &[0xEF, 0xBE, 0xAD, 0xDE]);
    assert_eq!(read_samples(&pkt, HEADER_BYTES, PACKET_SAMPLES * 2), samples);
}
