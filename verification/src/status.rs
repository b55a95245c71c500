//! The sender's health report: derived states and the JSON status file.
use vstd::prelude::*;
use crate::live::{AudioProfileArg, connection_label, profile_label, connection_text, profile_text, on_off};
use crate::text::{
    chars_of, decimal, signed_decimal, json_quoted, json_items, string_views, push_decimal,
    push_signed_decimal, push_json_string, json_string_array, append_str, append_chars,
};

verus! {

/// Milliseconds since an event at `then_ms`, or -1 when it never happened
/// (`then_ms` is zero).
pub open spec fn age_spec(then_ms: u64, now_ms: u64) -> int {
    if then_ms == 0 { -1 } else { now_ms - then_ms }
}

/// Milliseconds since an event at `then_ms`, or -1 when it never happened.
pub fn age_ms(then_ms: u64, now_ms: u64) -> (r: i128)
    ensures
        r == age_spec(then_ms, now_ms),
{
    if then_ms == 0 {
        -1
    } else {
        now_ms as i128 - then_ms as i128
    }
}

/// The state of the captured audio.
#[derive(Debug, Clone, Copy, PartialEq, Eq)]
pub enum AudioState {
    NoAudioYet,
    Stalled,
    Silence,
    Active,
}

/// The audio state: none yet, stalled for more than 1.5 s, silent (both RMS
/// levels at most one thousandth), or active.
pub open spec fn audio_state_spec(last_audio_ms: u64, now_ms: u64, rms_l: usize, rms_r: usize) -> AudioState {
    if last_audio_ms == 0 {
        AudioState::NoAudioYet
    } else if age_spec(last_audio_ms, now_ms) > 1500 {
        AudioState::Stalled
    } else if rms_l <= 1 && rms_r <= 1 {
        AudioState::Silence
    } else {
        AudioState::Active
    }
}

/// Classifies the captured audio from the time of its last frame and its RMS levels.
pub fn audio_state(last_audio_ms: u64, now_ms: u64, rms_l: usize, rms_r: usize) -> (r: AudioState)
    ensures
        r == audio_state_spec(last_audio_ms, now_ms, rms_l, rms_r),
{
    let age = age_ms(last_audio_ms, now_ms);
    let loudest = if rms_l > rms_r { rms_l } else { rms_r };
    if last_audio_ms == 0 {
        AudioState::NoAudioYet
    } else if age > 1500 {
        AudioState::Stalled
    } else if loudest <= 1 {
        AudioState::Silence
    } else {
        AudioState::Active
    }
}

/// The report's name for an audio state.
pub open spec fn audio_state_text(a: AudioState) -> Seq<char> {
    match a {
        AudioState::NoAudioYet => "no-audio-yet"@,
        AudioState::Stalled => "stalled"@,
        AudioState::Silence => "silence"@,
        AudioState::Active => "active"@,
    }
}

/// The report's name for an audio state.
pub fn audio_state_label(a: AudioState) -> (r: &'static str)
    ensures
        r@ == audio_state_text(a),
{
    match a {
        AudioState::NoAudioYet => "no-audio-yet",
        AudioState::Stalled => "stalled",
        AudioState::Silence => "silence",
        AudioState::Active => "active",
    }
}

/// Whether the plugin is connected: "n/a" for a device source, "unknown"
/// before its first packet, "yes" when audio came in the last 1.5 s, else "no".
pub open spec fn vst3_text(is_plugin: bool, tap_packets: u64, audio_age: int) -> Seq<char> {
    if !is_plugin {
        "n/a"@
    } else if tap_packets == 0 {
        "unknown"@
    } else if 0 <= audio_age <= 1500 {
        "yes"@
    } else {
        "no"@
    }
}

/// Whether the plugin is connected, as the report states it.
pub fn vst3_connected(is_plugin: bool, tap_packets: u64, audio_age: i128) -> (r: &'static str)
    ensures
        r@ == vst3_text(is_plugin, tap_packets, audio_age as int),
{
    if !is_plugin {
        "n/a"
    } else if tap_packets == 0 {
        "unknown"
    } else if audio_age >= 0 && audio_age <= 1500 {
        "yes"
    } else {
        "no"
    }
}

/// Frames lost in all: those the ring buffer refused plus those the plugin
/// reports it dropped, saturating.
pub fn frames_dropped_total(overflow: u64, tap_drops: u64) -> (r: u64)
    ensures
        r == (if overflow + tap_drops > u64::MAX { u64::MAX as int } else { overflow + tap_drops }),
{
    overflow.saturating_add(tap_drops)
}

/// A level gauge in percent: `milli` thousandths, capped at 100.
pub fn milli_percent(milli: usize) -> (r: u16)
    requires
        milli * 100 <= usize::MAX,
    ensures
        r == (if milli * 100 / 1000 < 100 { milli * 100 / 1000 } else { 100 }),
{
    let p = milli * 100 / 1000;
    if p < 100 { p as u16 } else { 100 }
}

/// Everything the status file reports, as read at one moment.
pub struct StatusSnapshot {
    pub now_ms: u64,
    pub connection_state: usize,
    pub source_label: String,
    pub source_kind: String,
    pub livekit_url: String,
    pub listen_url: String,
    pub log_path: String,
    pub room: String,
    pub identity: String,
    pub track_sid: String,
    pub input_rate: u32,
    pub profile: AudioProfileArg,
    pub bitrate: u64,
    pub red: bool,
    pub dtx: bool,
    pub livekit_buffer_ms: u32,
    pub buffer_ms: usize,
    pub captured: u64,
    pub sent: u64,
    pub tap_packets: u64,
    pub tap_gaps: u64,
    pub tap_drops: u64,
    pub rtp_packets: u64,
    pub rtp_bytes: u64,
    pub rtp_header_bytes: u64,
    pub rtp_retransmitted_packets: u64,
    pub rtp_retransmitted_bytes: u64,
    pub rtp_stats_errors: u64,
    pub last_rtp_stats_ms: u64,
    pub subscriber_count: usize,
    pub listener_identities: Vec<String>,
    pub overflow: u64,
    pub underruns: u64,
    pub errors: u64,
    pub livekit_errors: u64,
    pub reconnects: u64,
    pub peak_l: usize,
    pub peak_r: usize,
    pub rms_l: usize,
    pub rms_r: usize,
    pub last_audio_ms: u64,
    pub last_error: String,
}

/// One line of the report: two spaces, the quoted key, a colon, the value,
/// and a comma unless it is the last line.
pub open spec fn field(key: Seq<char>, value: Seq<char>, last: bool) -> Seq<char> {
    seq![' ', ' ', '"'] + key + seq!['"', ':', ' '] + value + (if last { seq!['\n'] } else { seq![',', '\n'] })
}

/// "true" or "false".
pub open spec fn bool_text(b: bool) -> Seq<char> {
    if b { "true"@ } else { "false"@ }
}

/// Fields one to twelve: time, connection, source, URLs, room and track.
pub open spec fn status_part_identity(s: StatusSnapshot) -> Seq<char> {
    let audio_age = age_spec(s.last_audio_ms, s.now_ms);
    let rtp_age = age_spec(s.last_rtp_stats_ms, s.now_ms);
    let dropped = if s.overflow + s.tap_drops > u64::MAX { u64::MAX as int } else { s.overflow + s.tap_drops };
    field("updated_at_unix_ms"@, decimal(s.now_ms as nat), false)
        + field("connection"@, json_quoted(connection_text(s.connection_state)), false)
        + field("source"@, json_quoted(s.source_label@), false)
        + field("source_kind"@, json_quoted(s.source_kind@), false)
        + field("livekit_url"@, json_quoted(s.livekit_url@), false)
        + field("listen_url"@, json_quoted(s.listen_url@), false)
        + field("log_path"@, json_quoted(s.log_path@), false)
        + field("room"@, json_quoted(s.room@), false)
        + field("identity"@, json_quoted(s.identity@), false)
        + field("track"@, json_quoted("reaper-master"@), false)
        + field("track_sid"@, json_quoted(s.track_sid@), false)
        + field("vst3_connected"@, json_quoted(vst3_text(s.source_kind@ == "plugin"@, s.tap_packets, audio_age)), false)
}

/// Fields thirteen to twenty-four: rates, profile, encoding and frame counters.
pub open spec fn status_part_signal(s: StatusSnapshot) -> Seq<char> {
    let audio_age = age_spec(s.last_audio_ms, s.now_ms);
    let rtp_age = age_spec(s.last_rtp_stats_ms, s.now_ms);
    let dropped = if s.overflow + s.tap_drops > u64::MAX { u64::MAX as int } else { s.overflow + s.tap_drops };
    field("input_rate_hz"@, decimal(s.input_rate as nat), false)
        + field("output_rate_hz"@, decimal(48000), false)
        + field("output"@, json_quoted("48 kHz stereo WebRTC audio"@), false)
        + field("profile"@, json_quoted(profile_text(s.profile)), false)
        + field("bitrate_bps"@, decimal(s.bitrate as nat), false)
        + field("red_enabled"@, bool_text(s.red), false)
        + field("dtx_enabled"@, bool_text(s.dtx), false)
        + field("livekit_queue_ms"@, decimal(s.livekit_buffer_ms as nat), false)
        + field("buffer_ms"@, decimal(s.buffer_ms as nat), false)
        + field("captured_frames"@, decimal(s.captured as nat), false)
        + field("sent_frames"@, decimal(s.sent as nat), false)
        + field("tap_packets"@, decimal(s.tap_packets as nat), false)
}

/// Fields twenty-five to thirty-six: plugin and RTP counters and listeners.
pub open spec fn status_part_transport(s: StatusSnapshot) -> Seq<char> {
    let audio_age = age_spec(s.last_audio_ms, s.now_ms);
    let rtp_age = age_spec(s.last_rtp_stats_ms, s.now_ms);
    let dropped = if s.overflow + s.tap_drops > u64::MAX { u64::MAX as int } else { s.overflow + s.tap_drops };
    field("tap_sequence_gaps"@, decimal(s.tap_gaps as nat), false)
        + field("plugin_reported_drops"@, decimal(s.tap_drops as nat), false)
        + field("frames_dropped_total"@, decimal(dropped as nat), false)
        + field("rtp_packets_sent"@, decimal(s.rtp_packets as nat), false)
        + field("rtp_bytes_sent"@, decimal(s.rtp_bytes as nat), false)
        + field("rtp_header_bytes_sent"@, decimal(s.rtp_header_bytes as nat), false)
        + field("rtp_retransmitted_packets_sent"@, decimal(s.rtp_retransmitted_packets as nat), false)
        + field("rtp_retransmitted_bytes_sent"@, decimal(s.rtp_retransmitted_bytes as nat), false)
        + field("rtp_stats_errors"@, decimal(s.rtp_stats_errors as nat), false)
        + field("last_rtp_stats_age_ms"@, signed_decimal(rtp_age), false)
        + field("subscriber_count"@, decimal(s.subscriber_count as nat), false)
        + field("listener_identities"@, seq!['['] + json_items(string_views(s.listener_identities@)) + seq![']'], false)
}

/// Fields thirty-seven to forty-eight: errors, levels, audio state and last error.
pub open spec fn status_part_levels(s: StatusSnapshot) -> Seq<char> {
    let audio_age = age_spec(s.last_audio_ms, s.now_ms);
    let rtp_age = age_spec(s.last_rtp_stats_ms, s.now_ms);
    let dropped = if s.overflow + s.tap_drops > u64::MAX { u64::MAX as int } else { s.overflow + s.tap_drops };
    field("overflow_frames"@, decimal(s.overflow as nat), false)
        + field("underruns"@, decimal(s.underruns as nat), false)
        + field("input_errors"@, decimal(s.errors as nat), false)
        + field("livekit_errors"@, decimal(s.livekit_errors as nat), false)
        + field("reconnects"@, decimal(s.reconnects as nat), false)
        + field("peak_left_milli"@, decimal(s.peak_l as nat), false)
        + field("peak_right_milli"@, decimal(s.peak_r as nat), false)
        + field("rms_left_milli"@, decimal(s.rms_l as nat), false)
        + field("rms_right_milli"@, decimal(s.rms_r as nat), false)
        + field("last_audio_frame_age_ms"@, signed_decimal(audio_age), false)
        + field("audio_state"@, json_quoted(audio_state_text(audio_state_spec(s.last_audio_ms, s.now_ms, s.rms_l, s.rms_r))), false)
        + field("last_error"@, json_quoted(s.last_error@), true)
}

/// The whole status file for a snapshot: one JSON object, one field per line.
pub open spec fn status_json_spec(s: StatusSnapshot) -> Seq<char> {
    seq!['{', '\n'] + status_part_identity(s) + status_part_signal(s) + status_part_transport(s)
        + status_part_levels(s) + seq!['}', '\n']
}

fn field_start(out: &mut Vec<char>, key: &str)
    ensures
        final(out)@ == old(out)@ + seq![' ', ' ', '"'] + key@ + seq!['"', ':', ' '],
{
    out.push(' ');
    out.push(' ');
    out.push('"');
    append_str(out, key);
    out.push('"');
    out.push(':');
    out.push(' ');
    assert(final(out)@ =~= old(out)@ + seq![' ', ' ', '"'] + key@ + seq!['"', ':', ' ']);
}

fn field_end(out: &mut Vec<char>, last: bool)
    ensures
        final(out)@ == old(out)@ + (if last { seq!['\n'] } else { seq![',', '\n'] }),
{
    if !last {
        out.push(',');
    }
    out.push('\n');
    assert(final(out)@ =~= old(out)@ + (if last { seq!['\n'] } else { seq![',', '\n'] }));
}

fn num_field(out: &mut Vec<char>, key: &str, v: u128)
    ensures
        final(out)@ == old(out)@ + field(key@, decimal(v as nat), false),
{
    field_start(out, key);
    push_decimal(out, v);
    field_end(out, false);
    assert(final(out)@ =~= old(out)@ + field(key@, decimal(v as nat), false));
}

fn signed_field(out: &mut Vec<char>, key: &str, v: i128)
    requires
        v > i128::MIN,
    ensures
        final(out)@ == old(out)@ + field(key@, signed_decimal(v as int), false),
{
    field_start(out, key);
    push_signed_decimal(out, v);
    field_end(out, false);
    assert(final(out)@ =~= old(out)@ + field(key@, signed_decimal(v as int), false));
}

fn str_field(out: &mut Vec<char>, key: &str, v: &str, last: bool)
    ensures
        final(out)@ == old(out)@ + field(key@, json_quoted(v@), last),
{
    field_start(out, key);
    push_json_string(out, v);
    field_end(out, last);
    assert(final(out)@ =~= old(out)@ + field(key@, json_quoted(v@), last));
}

fn bool_field(out: &mut Vec<char>, key: &str, v: bool)
    ensures
        final(out)@ == old(out)@ + field(key@, bool_text(v), false),
{
    field_start(out, key);
    if v {
        append_str(out, "true");
    } else {
        append_str(out, "false");
    }
    field_end(out, false);
    assert(final(out)@ =~= old(out)@ + field(key@, bool_text(v), false));
}

fn raw_field(out: &mut Vec<char>, key: &str, v: &Vec<char>)
    ensures
        final(out)@ == old(out)@ + field(key@, v@, false),
{
    field_start(out, key);
    append_chars(out, v);
    field_end(out, false);
    assert(final(out)@ =~= old(out)@ + field(key@, v@, false));
}

fn str_eq(a: &str, b: &str) -> (r: bool)
    ensures
        r == (a@ == b@),
{
    let x = chars_of(a);
    let y = chars_of(b);
    if x.len() != y.len() {
        return false;
    }
    let mut i: usize = 0;
    while i < x.len()
        invariant
            i <= x@.len() == y@.len(),
            x@ == a@,
            y@ == b@,
            forall|k: int| 0 <= k < i ==> x@[k] == y@[k],
        decreases x@.len() - i,
    {
        if x[i] != y[i] {
            assert(x@[i as int] != y@[i as int]);
            return false;
        }
        i = i + 1;
    }
    assert(x@ =~= y@);
    true
}

#[verifier::rlimit(40)]
fn push_status_part_identity(out: &mut Vec<char>, s: &StatusSnapshot)
    ensures
        final(out)@ == old(out)@ + status_part_identity(*s),
{
    let audio_age = age_ms(s.last_audio_ms, s.now_ms);
    let rtp_age = age_ms(s.last_rtp_stats_ms, s.now_ms);
    let dropped = frames_dropped_total(s.overflow, s.tap_drops);
    let is_plugin = str_eq(s.source_kind.as_str(), "plugin");
    num_field(out, "updated_at_unix_ms", s.now_ms as u128);
    str_field(out, "connection", connection_label(s.connection_state), false);
    str_field(out, "source", s.source_label.as_str(), false);
    str_field(out, "source_kind", s.source_kind.as_str(), false);
    str_field(out, "livekit_url", s.livekit_url.as_str(), false);
    str_field(out, "listen_url", s.listen_url.as_str(), false);
    str_field(out, "log_path", s.log_path.as_str(), false);
    str_field(out, "room", s.room.as_str(), false);
    str_field(out, "identity", s.identity.as_str(), false);
    str_field(out, "track", "reaper-master", false);
    str_field(out, "track_sid", s.track_sid.as_str(), false);
    str_field(out, "vst3_connected", vst3_connected(is_plugin, s.tap_packets, audio_age), false);
}

fn push_status_part_signal(out: &mut Vec<char>, s: &StatusSnapshot)
    ensures
        final(out)@ == old(out)@ + status_part_signal(*s),
{
    let audio_age = age_ms(s.last_audio_ms, s.now_ms);
    let rtp_age = age_ms(s.last_rtp_stats_ms, s.now_ms);
    let dropped = frames_dropped_total(s.overflow, s.tap_drops);
    let is_plugin = str_eq(s.source_kind.as_str(), "plugin");
    num_field(out, "input_rate_hz", s.input_rate as u128);
    num_field(out, "output_rate_hz", 48000);
    str_field(out, "output", "48 kHz stereo WebRTC audio", false);
    str_field(out, "profile", profile_label(s.profile), false);
    num_field(out, "bitrate_bps", s.bitrate as u128);
    bool_field(out, "red_enabled", s.red);
    bool_field(out, "dtx_enabled", s.dtx);
    num_field(out, "livekit_queue_ms", s.livekit_buffer_ms as u128);
    num_field(out, "buffer_ms", s.buffer_ms as u128);
    num_field(out, "captured_frames", s.captured as u128);
    num_field(out, "sent_frames", s.sent as u128);
    num_field(out, "tap_packets", s.tap_packets as u128);
}

fn push_status_part_transport(out: &mut Vec<char>, s: &StatusSnapshot)
    ensures
        final(out)@ == old(out)@ + status_part_transport(*s),
{
    let audio_age = age_ms(s.last_audio_ms, s.now_ms);
    let rtp_age = age_ms(s.last_rtp_stats_ms, s.now_ms);
    let dropped = frames_dropped_total(s.overflow, s.tap_drops);
    let is_plugin = str_eq(s.source_kind.as_str(), "plugin");
    num_field(out, "tap_sequence_gaps", s.tap_gaps as u128);
    num_field(out, "plugin_reported_drops", s.tap_drops as u128);
    num_field(out, "frames_dropped_total", dropped as u128);
    num_field(out, "rtp_packets_sent", s.rtp_packets as u128);
    num_field(out, "rtp_bytes_sent", s.rtp_bytes as u128);
    num_field(out, "rtp_header_bytes_sent", s.rtp_header_bytes as u128);
    num_field(out, "rtp_retransmitted_packets_sent", s.rtp_retransmitted_packets as u128);
    num_field(out, "rtp_retransmitted_bytes_sent", s.rtp_retransmitted_bytes as u128);
    num_field(out, "rtp_stats_errors", s.rtp_stats_errors as u128);
    signed_field(out, "last_rtp_stats_age_ms", rtp_age);
    num_field(out, "subscriber_count", s.subscriber_count as u128);
    let ids = json_string_array(s.listener_identities.as_slice());
    raw_field(out, "listener_identities", &ids);
}

fn push_status_part_levels(out: &mut Vec<char>, s: &StatusSnapshot)
    ensures
        final(out)@ == old(out)@ + status_part_levels(*s),
{
    let audio_age = age_ms(s.last_audio_ms, s.now_ms);
    let rtp_age = age_ms(s.last_rtp_stats_ms, s.now_ms);
    let dropped = frames_dropped_total(s.overflow, s.tap_drops);
    let is_plugin = str_eq(s.source_kind.as_str(), "plugin");
    num_field(out, "overflow_frames", s.overflow as u128);
    num_field(out, "underruns", s.underruns as u128);
    num_field(out, "input_errors", s.errors as u128);
    num_field(out, "livekit_errors", s.livekit_errors as u128);
    num_field(out, "reconnects", s.reconnects as u128);
    num_field(out, "peak_left_milli", s.peak_l as u128);
    num_field(out, "peak_right_milli", s.peak_r as u128);
    num_field(out, "rms_left_milli", s.rms_l as u128);
    num_field(out, "rms_right_milli", s.rms_r as u128);
    signed_field(out, "last_audio_frame_age_ms", audio_age);
    str_field(out, "audio_state", audio_state_label(audio_state(s.last_audio_ms, s.now_ms, s.rms_l, s.rms_r)), false);
    str_field(out, "last_error", s.last_error.as_str(), true);
}

/// Renders the status file for a snapshot.
pub fn status_json(s: &StatusSnapshot) -> (r: Vec<char>)
    ensures
        r@ == status_json_spec(*s),
{
    let mut out: Vec<char> = Vec::new();
    out.push('{');
    out.push('\n');
    push_status_part_identity(&mut out, s);
    push_status_part_signal(&mut out, s);
    push_status_part_transport(&mut out, s);
    push_status_part_levels(&mut out, s);
    out.push('}');
    out.push('\n');
    assert(out@ =~= status_json_spec(*s));
    out
}

/// "on" or "off".
pub open spec fn on_off_text(b: bool) -> Seq<char> {
    if b { "on"@ } else { "off"@ }
}

/// The one-line summary printed every two seconds without the status screen.
pub open spec fn status_line_spec(s: StatusSnapshot) -> Seq<char> {
    "["@ + s.source_label@ + "] "@ + connection_text(s.connection_state) + " profile="@
        + profile_text(s.profile) + " bitrate="@ + decimal((s.bitrate / 1000) as nat)
        + "kbps red="@ + on_off_text(s.red) + " dtx="@ + on_off_text(s.dtx) + " queue="@
        + decimal(s.livekit_buffer_ms as nat) + "ms in="@ + decimal(s.input_rate as nat)
        + "Hz buffer="@ + decimal(s.buffer_ms as nat) + "ms captured="@ + decimal(s.captured as nat)
        + " sent="@ + decimal(s.sent as nat) + " rtpPackets="@ + decimal(s.rtp_packets as nat)
        + " rtpBytes="@ + decimal(s.rtp_bytes as nat) + " listeners="@ + decimal(
        s.subscriber_count as nat,
    ) + " overflow="@ + decimal(s.overflow as nat) + " underrun="@ + decimal(s.underruns as nat)
        + " inputErr="@ + decimal(s.errors as nat) + " lkErr="@ + decimal(s.livekit_errors as nat)
        + " reconnect="@ + decimal(s.reconnects as nat)
}

fn dec(out: &mut Vec<char>, v: u128)
    ensures
        final(out)@ == old(out)@ + decimal(v as nat),
{
    push_decimal(out, v);
}

/// Renders the one-line summary for a snapshot.
#[verifier::rlimit(40)]
pub fn status_line(s: &StatusSnapshot) -> (r: Vec<char>)
    ensures
        r@ == status_line_spec(*s),
{
    let mut out: Vec<char> = Vec::new();
    append_str(&mut out, "[");
    append_str(&mut out, s.source_label.as_str());
    append_str(&mut out, "] ");
    append_str(&mut out, connection_label(s.connection_state));
    append_str(&mut out, " profile=");
    append_str(&mut out, profile_label(s.profile));
    append_str(&mut out, " bitrate=");
    dec(&mut out, (s.bitrate / 1000) as u128);
    append_str(&mut out, "kbps red=");
    append_str(&mut out, on_off(s.red));
    append_str(&mut out, " dtx=");
    append_str(&mut out, on_off(s.dtx));
    append_str(&mut out, " queue=");
    dec(&mut out, s.livekit_buffer_ms as u128);
    append_str(&mut out, "ms in=");
    dec(&mut out, s.input_rate as u128);
    append_str(&mut out, "Hz buffer=");
    dec(&mut out, s.buffer_ms as u128);
    append_str(&mut out, "ms captured=");
    dec(&mut out, s.captured as u128);
    append_str(&mut out, " sent=");
    dec(&mut out, s.sent as u128);
    append_str(&mut out, " rtpPackets=");
    dec(&mut out, s.rtp_packets as u128);
    append_str(&mut out, " rtpBytes=");
    dec(&mut out, s.rtp_bytes as u128);
    append_str(&mut out, " listeners=");
    dec(&mut out, s.subscriber_count as u128);
    append_str(&mut out, " overflow=");
    dec(&mut out, s.overflow as u128);
    append_str(&mut out, " underrun=");
    dec(&mut out, s.underruns as u128);
    append_str(&mut out, " inputErr=");
    dec(&mut out, s.errors as u128);
    append_str(&mut out, " lkErr=");
    dec(&mut out, s.livekit_errors as u128);
    append_str(&mut out, " reconnect=");
    dec(&mut out, s.reconnects as u128);
    assert(out@ =~= status_line_spec(*s));
    out
}

} // verus!
