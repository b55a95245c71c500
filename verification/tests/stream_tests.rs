use nab::playout::{
    bridge_bandwidth_kbps, bridge_jitter_down, bridge_jitter_samples, bridge_jitter_up,
    buffered_ms, percent_of, ready_to_play, rebuffer_after_read, receiver_jitter_down,
    receiver_jitter_up, release_threshold,
};
use nab::stream::{SeqDecision, SeqTracker};

#[test]
fn first_packet_is_played_without_loss() {
    let mut t = SeqTracker::new();
    assert_eq!(t.observe(500, 2), SeqDecision::Accept { lost: 0, fill_samples: 0 });
    assert_eq!(t.expected, Some(501));
}

#[test]
fn in_order_packets_report_no_loss() {
    let mut t = SeqTracker::new();
    for s in 10..20u32 {
        assert_eq!(t.observe(s, 2), SeqDecision::Accept { lost: 0, fill_samples: 0 });
    }
}

#[test]
fn gap_is_counted_and_filled() {
    let mut t = SeqTracker { expected: Some(5) };
    assert_eq!(t.observe(8, 2), SeqDecision::Accept { lost: 3, fill_samples: 3 * 128 * 2 });
    assert_eq!(t.expected, Some(9));
}

#[test]
fn long_gap_fill_is_capped_at_32_packets() {
    let mut t = SeqTracker { expected: Some(0) };
    assert_eq!(t.observe(1000, 2), SeqDecision::Accept { lost: 1000, fill_samples: 32 * 128 * 2 });
}

#[test]
fn late_or_repeated_packet_is_stale() {
    let mut t = SeqTracker { expected: Some(100) };
    assert_eq!(t.observe(99, 2), SeqDecision::Stale);
    assert_eq!(t.observe(50, 2), SeqDecision::Stale);
    assert_eq!(t.expected, Some(100));
}

#[test]
fn sequence_wraps_around() {
    let mut t = SeqTracker { expected: Some(u32::MAX) };
    assert_eq!(t.observe(u32::MAX, 2), SeqDecision::Accept { lost: 0, fill_samples: 0 });
    assert_eq!(t.expected, Some(0));
    assert_eq!(t.observe(1, 2), SeqDecision::Accept { lost: 1, fill_samples: 256 });
}

#[test]
fn stale_threshold_edge() {
    let mut t = SeqTracker { expected: Some(0) };
    assert_eq!(t.observe(u32::MAX / 2, 2), SeqDecision::Stale);
    assert!(matches!(t.observe(u32::MAX / 2 - 1, 2), SeqDecision::Accept { .. }));
}

#[test]
fn bridge_jitter_keys() {
    assert_eq!(bridge_jitter_up(100), 150);
    assert_eq!(bridge_jitter_up(480), 500);
    assert_eq!(bridge_jitter_down(150), 100);
    assert_eq!(bridge_jitter_down(90), 50);
    assert_eq!(bridge_jitter_down(5), 50);
    assert_eq!(bridge_jitter_down(bridge_jitter_up(200)), 200);
}

#[test]
fn receiver_jitter_keys() {
    assert_eq!(receiver_jitter_up(300), 350);
    assert_eq!(receiver_jitter_up(1990), 2000);
    assert_eq!(receiver_jitter_down(300), 250);
    assert_eq!(receiver_jitter_down(60), 50);
}

#[test]
fn buffer_levels() {
    assert_eq!(buffered_ms(96000, 48000, 2), 1000);
    assert_eq!(buffered_ms(10, 0, 2), 10000);
    assert_eq!(percent_of(48000, 192000), 25);
    assert_eq!(percent_of(5, 0), 500);
    assert_eq!(bridge_jitter_samples(100, 48000), 9600);
    assert_eq!(bridge_jitter_samples(100, 44100), 8820);
    assert_eq!(release_threshold(300, 48000, 2), 43200);
}

#[test]
fn bandwidth_from_packet_counts() {
    assert_eq!(bridge_bandwidth_kbps(375, 0), 375 * 1040 * 8 / 1000);
    assert_eq!(bridge_bandwidth_kbps(3, 10), 0);
}

#[test]
fn play_and_rebuffer_switch() {
    assert!(rebuffer_after_read(0));
    assert!(!rebuffer_after_read(64));
    assert!(ready_to_play(true, 9600, 9600));
    assert!(!ready_to_play(true, 9599, 9600));
    assert!(!ready_to_play(false, 100000, 9600));
}

use nab::packet::{encode_packet, packet_bytes, ParseError};
use nab::stream::{receive_packet, Received};

fn stereo_packet(seq: u32) -> (Vec<u32>, Vec<u8>) {
    let samples: Vec<u32> = (0..256u32).map(|i| (i as f32 / 256.0).to_bits()).collect();
    let pkt = encode_packet(48000, 2, seq, &samples);
    (samples, pkt)
}

#[test]
fn sent_packet_plays_back() {
    let (samples, pkt) = stereo_packet(7);
    assert_eq!(pkt.len(), packet_bytes(2));
    let mut t = SeqTracker::new();
    match receive_packet(&mut t, &pkt, pkt.len(), 48000, 2) {
        Received::Play { lost, fill_samples, samples: got } => {
            assert_eq!((lost, fill_samples), (0, 0));
            assert_eq!(got, samples);
        }
        _ => panic!("expected play"),
    }
    assert_eq!(t.expected, Some(8));
}

#[test]
fn receiver_outcomes() {
    let (_, pkt) = stereo_packet(7);
    let mut t = SeqTracker { expected: Some(5) };
    let mut big = pkt.clone();
    big.extend_from_slice(&[0; 10]);
    assert!(matches!(receive_packet(&mut t, &big, big.len(), 48000, 2), Received::WrongSize));
    assert!(matches!(receive_packet(&mut t, &big, pkt.len(), 48000, 2), Received::Play { lost: 2, fill_samples: 512, .. }));
    assert!(matches!(
        receive_packet(&mut t, &pkt, pkt.len(), 44100, 2),
        Received::Rejected(ParseError::SampleRateMismatch { got: 48000, expected: 44100 })
    ));
    assert!(matches!(receive_packet(&mut t, &pkt, pkt.len(), 48000, 2), Received::Stale));
    assert_eq!(t.expected, Some(8));
}
