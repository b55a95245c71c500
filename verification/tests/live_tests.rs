use nab::live::{
    aggregate_rtp, capture_config_from_args, chunk_frames, connection_label,
    initial_buffer_target, on_off, profile_defaults, profile_label, pump_buffered_ms,
    reconnect_delay, resolve_audio_send_config, ring_capacity, runtime_lock_name,
    should_show_wizard, supervise, validate_buffer_seconds, validate_coreaudio_selection,
    Args, AudioProfileArg, AudioSendConfig, CaptureConfig, ConfigError, LiveStep, LiveWizard,
    OutboundRtp, RtpTotals, SessionEnd, SourceArg, SupervisorAction, DEFAULT_TAP_SOCKET,
};
use nab::wizard::{Key, Outcome};

fn args() -> Args {
    Args {
        list_devices: false,
        source: None,
        no_tui: false,
        plugin_socket: DEFAULT_TAP_SOCKET.to_string(),
        input: None,
        input_sample_rate: 96000,
        input_channels: 2,
        left_channel: 1,
        right_channel: 2,
        url: None,
        room: "reaper-master".to_string(),
        identity: "nab-live-mac-mini".to_string(),
        key: None,
        secret: None,
        env_file: "~/.config/kenichi-vps/livekit.env".to_string(),
        profile: AudioProfileArg::StableMusic,
        bitrate: None,
        disable_red: false,
        enable_dtx: false,
        disable_dtx: false,
        livekit_buffer_ms: None,
        no_reconnect: false,
        ring_buffer_seconds: 4,
        status_file: "~/.nab/status.json".to_string(),
    }
}

#[test]
fn profiles_match_the_table() {
    assert_eq!(profile_defaults(AudioProfileArg::StableMusic), (160000, true, false, 1200));
    assert_eq!(profile_defaults(AudioProfileArg::HiFiMusic), (256000, true, false, 1000));
    assert_eq!(profile_defaults(AudioProfileArg::Speech), (64000, true, true, 800));
    assert_eq!(profile_defaults(AudioProfileArg::LowBandwidth), (96000, true, false, 1500));
    assert_eq!(profile_defaults(AudioProfileArg::MaxQualityLab), (510000, false, false, 1000));
}

#[test]
fn resolve_defaults_and_overrides() {
    let a = args();
    assert_eq!(
        resolve_audio_send_config(&a),
        Ok(AudioSendConfig { profile: AudioProfileArg::StableMusic, bitrate: 160000, red: true, dtx: false, livekit_buffer_ms: 1200 })
    );
    let mut a = args();
    a.profile = AudioProfileArg::LowBandwidth;
    a.bitrate = Some(96000);
    a.disable_red = true;
    a.enable_dtx = true;
    let c = resolve_audio_send_config(&a).unwrap();
    assert_eq!((c.bitrate, c.red, c.dtx, c.livekit_buffer_ms), (96000, false, true, 1500));
    let mut a = args();
    a.profile = AudioProfileArg::Speech;
    a.disable_dtx = true;
    assert!(!resolve_audio_send_config(&a).unwrap().dtx);
}

#[test]
fn resolve_rejects_out_of_range() {
    let mut a = args();
    a.bitrate = Some(15999);
    assert_eq!(resolve_audio_send_config(&a), Err(ConfigError::Bitrate));
    a.bitrate = Some(510001);
    assert_eq!(resolve_audio_send_config(&a), Err(ConfigError::Bitrate));
    a.bitrate = Some(16000);
    a.livekit_buffer_ms = Some(19);
    assert_eq!(resolve_audio_send_config(&a), Err(ConfigError::LivekitBuffer));
    a.livekit_buffer_ms = Some(5000);
    assert!(resolve_audio_send_config(&a).is_ok());
}

#[test]
fn ring_buffer_seconds_range() {
    assert_eq!(validate_buffer_seconds(0), Err(ConfigError::RingBufferSeconds));
    assert_eq!(validate_buffer_seconds(1), Ok(()));
    assert_eq!(validate_buffer_seconds(30), Ok(()));
    assert_eq!(validate_buffer_seconds(31), Err(ConfigError::RingBufferSeconds));
}

#[test]
fn channel_selection_checks() {
    assert_eq!(validate_coreaudio_selection(0, 1, 2), Err(ConfigError::ZeroInputChannels));
    assert_eq!(validate_coreaudio_selection(2, 0, 2), Err(ConfigError::ChannelNotOneBased));
    assert_eq!(validate_coreaudio_selection(2, 1, 3), Err(ConfigError::ChannelOutOfRange));
    assert_eq!(validate_coreaudio_selection(8, 7, 8), Ok(()));
}

#[test]
fn capture_from_args() {
    let mut a = args();
    assert!(should_show_wizard(&a));
    a.source = Some(SourceArg::Plugin);
    assert!(!should_show_wizard(&a));
    match capture_config_from_args(&a) {
        Ok(CaptureConfig::Plugin { socket_path }) => assert_eq!(socket_path, DEFAULT_TAP_SOCKET),
        _ => panic!("expected plugin"),
    }
    let mut a = args();
    a.input = Some("BlackHole".to_string());
    assert!(!should_show_wizard(&a));
    match capture_config_from_args(&a) {
        Ok(CaptureConfig::CoreAudio { input, input_sample_rate, input_channels, left_channel, right_channel }) => {
            assert_eq!(input.as_deref(), Some("BlackHole"));
            assert_eq!((input_sample_rate, input_channels, left_channel, right_channel), (96000, 2, 1, 2));
        }
        _ => panic!("expected coreaudio"),
    }
    a.right_channel = 5;
    assert!(matches!(capture_config_from_args(&a), Err(ConfigError::ChannelOutOfRange)));
}

#[test]
fn test_tone_source() {
    let mut a = args();
    a.source = Some(SourceArg::TestTone);
    a.right_channel = 9;
    assert!(!should_show_wizard(&a));
    assert!(matches!(capture_config_from_args(&a), Ok(CaptureConfig::TestTone)));
}

#[test]
fn reconnect_backoff() {
    let d: Vec<u64> = (0..8).map(reconnect_delay).collect();
    assert_eq!(d, vec![1, 1, 2, 4, 8, 15, 15, 15]);
}

#[test]
fn supervisor_decisions() {
    assert_eq!(supervise(3, SessionEnd::UserQuit, true).action, SupervisorAction::Stop);
    let s = supervise(3, SessionEnd::Reconnect, true);
    assert_eq!((s.action, s.attempt, s.count_reconnect), (SupervisorAction::RetryAfter { secs: 1 }, 1, true));
    assert_eq!(supervise(3, SessionEnd::Reconnect, false).action, SupervisorAction::StopDisconnected);
    let mut attempt = 0;
    let mut waits = vec![];
    for _ in 0..6 {
        let s = supervise(attempt, SessionEnd::Failed, true);
        assert!(s.count_error);
        attempt = s.attempt;
        if let SupervisorAction::RetryAfter { secs } = s.action {
            waits.push(secs);
        }
    }
    assert_eq!(waits, vec![1, 2, 4, 8, 15, 15]);
    assert_eq!(supervise(0, SessionEnd::Failed, false).action, SupervisorAction::StopFailed);
    assert_eq!(supervise(u32::MAX, SessionEnd::Failed, true).attempt, u32::MAX);
}

#[test]
fn labels() {
    assert_eq!(connection_label(0), "Connecting");
    assert_eq!(connection_label(1), "Connected");
    assert_eq!(connection_label(2), "Reconnecting");
    assert_eq!(connection_label(3), "Disconnected");
    assert_eq!(connection_label(9), "Connecting");
    assert_eq!(profile_label(AudioProfileArg::HiFiMusic), "hi-fi-music");
    assert_eq!(profile_label(AudioProfileArg::MaxQualityLab), "max-quality-lab");
    assert_eq!(on_off(true), "on");
    assert_eq!(on_off(false), "off");
}

#[test]
fn live_wizard_plugin_path() {
    let mut w = LiveWizard::new(2);
    assert_eq!(w.handle_key(Key::Enter), Outcome::Continue);
    assert_eq!(w.step, LiveStep::Confirm);
    assert_eq!(w.handle_key(Key::Enter), Outcome::Finished);
    match w.capture_config(None) {
        CaptureConfig::Plugin { socket_path } => assert_eq!(socket_path, "~/Library/Caches/KenichiNAB/nab-tap.sock"),
        _ => panic!("expected plugin"),
    }
}

#[test]
fn live_wizard_coreaudio_path() {
    let mut w = LiveWizard::new(3);
    w.handle_key(Key::Down);
    w.handle_key(Key::Enter);
    assert_eq!(w.step, LiveStep::SelectSampleRate { cursor: 1 });
    w.handle_key(Key::Down);
    w.handle_key(Key::Enter);
    assert_eq!(w.sample_rate, 44100);
    w.handle_key(Key::Down);
    w.handle_key(Key::Enter);
    assert_eq!(w.input, Some(1));
    assert_eq!(w.handle_key(Key::Char('x')), Outcome::Continue);
    assert_eq!(w.handle_key(Key::Enter), Outcome::Finished);
    match w.capture_config(Some("Dev B".to_string())) {
        CaptureConfig::CoreAudio { input, input_sample_rate, input_channels, left_channel, right_channel } => {
            assert_eq!(input.as_deref(), Some("Dev B"));
            assert_eq!((input_sample_rate, input_channels, left_channel, right_channel), (44100, 2, 1, 2));
        }
        _ => panic!("expected coreaudio"),
    }
    let mut w = LiveWizard::new(0);
    assert_eq!(w.handle_key(Key::Char('q')), Outcome::Cancelled);
}

#[test]
fn buffer_sizes() {
    assert_eq!(ring_capacity(96000, 4), 96000 * 2 * 4);
    assert_eq!(ring_capacity(44100, 0), 48000 * 2);
    assert_eq!(initial_buffer_target(96000), 19200);
    assert_eq!(chunk_frames(96000), 960);
    assert_eq!(pump_buffered_ms(19200, 96000), 100);
}

#[test]
fn lock_name() {
    let n: String = runtime_lock_name("reaper master", "").iter().collect();
    assert_eq!(n, "nab-live-reaper_master-default.lock");
}

#[test]
fn rtp_totals() {
    let rec = |kind: &str, p: u64| OutboundRtp {
        kind: kind.to_string(),
        packets_sent: p,
        bytes_sent: p * 100,
        header_bytes_sent: p * 12,
        retransmitted_packets_sent: 1,
        retransmitted_bytes_sent: u64::MAX,
    };
    assert_eq!(aggregate_rtp(&vec![rec("video", 5)]), None);
    assert_eq!(
        aggregate_rtp(&vec![rec("audio", 5), rec("video", 7), rec("", 3)]),
        Some(RtpTotals {
            packets_sent: 8,
            bytes_sent: 800,
            header_bytes_sent: 96,
            retransmitted_packets_sent: 2,
            retransmitted_bytes_sent: u64::MAX
        })
    );
}
