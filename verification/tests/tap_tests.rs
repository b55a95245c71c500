use nab::tap::{parse_tap_packet, push_accounting, tap_admission, tap_to_stereo, TapAdmission, TapError, TapSequence};

fn tap_packet(version: u32, rate: u32, channels: u16, frames: u16, seq: u64, dropped: u64, samples: &[f32]) -> Vec<u8> {
    let mut b = Vec::new();
    b.extend_from_slice(b"NABTAP1\0");
    b.extend_from_slice(&version.to_le_bytes());
    b.extend_from_slice(&rate.to_le_bytes());
    b.extend_from_slice(&channels.to_le_bytes());
    b.extend_from_slice(&frames.to_le_bytes());
    b.extend_from_slice(&seq.to_le_bytes());
    b.extend_from_slice(&dropped.to_le_bytes());
    b.extend_from_slice(&[0u8; 4]);
    for s in samples {
        b.extend_from_slice(&s.to_le_bytes());
    }
    b
}

#[test]
fn parses_a_stereo_packet() {
    let b = tap_packet(1, 96000, 2, 2, 0x0102030405060708, 3, &[0.1, 0.2, 0.3, 0.4, 9.0]);
    let p = parse_tap_packet(&b).unwrap_or_else(|e| panic!("{e:?}"));
    assert_eq!(p.sample_rate, 96000);
    assert_eq!(p.channels, 2);
    assert_eq!(p.frames, 2);
    assert_eq!(p.seq, 0x0102030405060708);
    assert_eq!(p.dropped_frames, 3);
    assert_eq!(p.payload.len(), 16);
    let s: Vec<f32> = tap_to_stereo(&p).into_iter().map(f32::from_bits).collect();
    assert_eq!(s, vec![0.1, 0.2, 0.3, 0.4]);
}

#[test]
fn mono_and_multichannel_become_stereo() {
    let b = tap_packet(1, 48000, 1, 3, 0, 0, &[0.5, -0.5, 0.25]);
    let p = parse_tap_packet(&b).unwrap_or_else(|e| panic!("{e:?}"));
    let s: Vec<f32> = tap_to_stereo(&p).into_iter().map(f32::from_bits).collect();
    assert_eq!(s, vec![0.5, 0.5, -0.5, -0.5, 0.25, 0.25]);
    let b = tap_packet(1, 48000, 3, 2, 0, 0, &[1.0, 2.0, 3.0, 4.0, 5.0, 6.0]);
    let p = parse_tap_packet(&b).unwrap_or_else(|e| panic!("{e:?}"));
    let s: Vec<f32> = tap_to_stereo(&p).into_iter().map(f32::from_bits).collect();
    assert_eq!(s, vec![1.0, 2.0, 4.0, 5.0]);
}

#[test]
fn each_tap_error() {
    let good = tap_packet(1, 48000, 2, 1, 0, 0, &[0.0, 0.0]);
    assert_eq!(parse_tap_packet(&good[..39]).err(), Some(TapError::TooShort));
    let mut m = good.clone();
    m[6] = b'2';
    assert_eq!(parse_tap_packet(&m).err(), Some(TapError::BadMagic));
    assert_eq!(parse_tap_packet(&tap_packet(2, 48000, 2, 1, 0, 0, &[0.0, 0.0])).err(), Some(TapError::UnsupportedVersion(2)));
    assert_eq!(parse_tap_packet(&tap_packet(1, 7999, 2, 1, 0, 0, &[0.0, 0.0])).err(), Some(TapError::InvalidSampleRate(7999)));
    assert_eq!(parse_tap_packet(&tap_packet(1, 384001, 2, 1, 0, 0, &[0.0, 0.0])).err(), Some(TapError::InvalidSampleRate(384001)));
    assert_eq!(parse_tap_packet(&tap_packet(1, 48000, 0, 1, 0, 0, &[])).err(), Some(TapError::InvalidChannelCount(0)));
    assert_eq!(parse_tap_packet(&tap_packet(1, 48000, 65, 1, 0, 0, &[])).err(), Some(TapError::InvalidChannelCount(65)));
    assert_eq!(parse_tap_packet(&tap_packet(1, 48000, 2, 0, 0, 0, &[])).err(), Some(TapError::EmptyPacket));
    assert_eq!(
        parse_tap_packet(&tap_packet(1, 48000, 2, 2, 0, 0, &[0.0, 0.0])).err(),
        Some(TapError::ShortPayload { got: 48, need: 56 })
    );
}

#[test]
fn admission_and_accounting() {
    assert_eq!(tap_admission(10000, 16384, 100000), TapAdmission::ScratchTooSmall);
    assert_eq!(tap_admission(100, 16384, 199), TapAdmission::RingFull);
    assert_eq!(tap_admission(100, 16384, 200), TapAdmission::Push);
    assert_eq!(push_accounting(200, 200), (100, 0));
    assert_eq!(push_accounting(200, 150), (75, 25));
}

#[test]
fn tap_sequence_gaps() {
    let mut s = TapSequence::new();
    assert!(!s.observe(10));
    assert!(!s.observe(11));
    assert!(s.observe(13));
    assert!(s.observe(13));
    assert!(!s.observe(14));
    let mut s = TapSequence { expected: Some(u64::MAX) };
    assert!(!s.observe(u64::MAX));
    assert_eq!(s.expected, Some(0));
}
