use nab::live::AudioProfileArg;
use nab::status::{
    age_ms, audio_state, audio_state_label, frames_dropped_total, milli_percent, status_json,
    status_line, vst3_connected, AudioState, StatusSnapshot,
};

fn snapshot() -> StatusSnapshot {
    StatusSnapshot {
        now_ms: 10_000,
        connection_state: 1,
        source_label: "NAB Tap plugin (96000 Hz)".to_string(),
        source_kind: "plugin".to_string(),
        livekit_url: "wss://lk".to_string(),
        listen_url: "https://listen/".to_string(),
        log_path: "/home/u/.nab/log.txt".to_string(),
        room: "reaper-master".to_string(),
        identity: "id".to_string(),
        track_sid: "TR_1".to_string(),
        input_rate: 96000,
        profile: AudioProfileArg::StableMusic,
        bitrate: 160000,
        red: true,
        dtx: false,
        livekit_buffer_ms: 1200,
        buffer_ms: 40,
        captured: 1,
        sent: 2,
        tap_packets: 3,
        tap_gaps: 4,
        tap_drops: 5,
        rtp_packets: 6,
        rtp_bytes: 7,
        rtp_header_bytes: 8,
        rtp_retransmitted_packets: 9,
        rtp_retransmitted_bytes: 10,
        rtp_stats_errors: 11,
        last_rtp_stats_ms: 0,
        subscriber_count: 1,
        listener_identities: vec!["web-1".to_string()],
        overflow: 12,
        underruns: 13,
        errors: 14,
        livekit_errors: 15,
        reconnects: 16,
        peak_l: 500,
        peak_r: 400,
        rms_l: 100,
        rms_r: 0,
        last_audio_ms: 9_000,
        last_error: "".to_string(),
    }
}

#[test]
fn ages_and_states() {
    assert_eq!(age_ms(0, 5000), -1);
    assert_eq!(age_ms(4000, 5000), 1000);
    assert_eq!(age_ms(6000, 5000), -1000);
    assert_eq!(audio_state(0, 5000, 9, 9), AudioState::NoAudioYet);
    assert_eq!(audio_state(3000, 5000, 9, 9), AudioState::Stalled);
    assert_eq!(audio_state(3500, 5000, 1, 0), AudioState::Silence);
    assert_eq!(audio_state(3500, 5000, 2, 0), AudioState::Active);
    assert_eq!(audio_state_label(AudioState::NoAudioYet), "no-audio-yet");
    assert_eq!(vst3_connected(false, 5, 0), "n/a");
    assert_eq!(vst3_connected(true, 0, 0), "unknown");
    assert_eq!(vst3_connected(true, 1, 1500), "yes");
    assert_eq!(vst3_connected(true, 1, 1501), "no");
    assert_eq!(vst3_connected(true, 1, -1), "no");
    assert_eq!(frames_dropped_total(u64::MAX, 1), u64::MAX);
    assert_eq!(frames_dropped_total(2, 3), 5);
    assert_eq!(milli_percent(500), 50);
    assert_eq!(milli_percent(1000), 100);
    assert_eq!(milli_percent(2000), 100);
}

#[test]
fn status_file_body() {
    let body: String = status_json(&snapshot()).into_iter().collect();
    assert!(body.starts_with("{\n  \"updated_at_unix_ms\": 10000,\n  \"connection\": \"Connected\",\n"));
    assert!(body.contains("  \"track\": \"reaper-master\",\n"));
    assert!(body.contains("  \"vst3_connected\": \"yes\",\n"));
    assert!(body.contains("  \"output_rate_hz\": 48000,\n"));
    assert!(body.contains("  \"red_enabled\": true,\n  \"dtx_enabled\": false,\n"));
    assert!(body.contains("  \"frames_dropped_total\": 17,\n"));
    assert!(body.contains("  \"last_rtp_stats_age_ms\": -1,\n"));
    assert!(body.contains("  \"listener_identities\": [\"web-1\"],\n"));
    assert!(body.contains("  \"last_audio_frame_age_ms\": 1000,\n  \"audio_state\": \"active\",\n"));
    assert!(body.ends_with("  \"last_error\": \"\"\n}\n"));
    assert_eq!(body.lines().count(), 50);
}

#[test]
fn status_summary_line() {
    let line: String = status_line(&snapshot()).into_iter().collect();
    assert_eq!(
        line,
        "[NAB Tap plugin (96000 Hz)] Connected profile=stable-music bitrate=160kbps red=on dtx=off queue=1200ms in=96000Hz buffer=40ms captured=1 sent=2 rtpPackets=6 rtpBytes=7 listeners=1 overflow=12 underrun=13 inputErr=14 lkErr=15 reconnect=16"
    );
}
