//! What the status file says, line by line: each key's line carries the
//! value of the snapshot field it names.
use vstd::prelude::*;
use crate::live::{connection_text, profile_text};
use crate::status::{
    StatusSnapshot, field, bool_text, age_spec, vst3_text, audio_state_spec, audio_state_text,
    status_part_identity, status_part_signal, status_part_transport, status_part_levels,
    status_json_spec,
};
use crate::text::{decimal, signed_decimal, json_quoted, json_items, string_views};

verus! {

/// Whether `line` appears in `text` as a run of consecutive characters.
pub open spec fn holds_line(text: Seq<char>, line: Seq<char>) -> bool {
    exists|i: int| 0 <= i && i + line.len() <= text.len() && #[trigger] text.subrange(i, i + line.len()) == line
}

proof fn lemma_holds_self(f: Seq<char>)
    ensures
        holds_line(f, f),
{
    assert(f.subrange(0, 0 + f.len() as int) =~= f);
}

proof fn lemma_holds_extend(x: Seq<char>, y: Seq<char>, f: Seq<char>)
    requires
        holds_line(x, f) || holds_line(y, f),
    ensures
        holds_line(x + y, f),
{
    if holds_line(x, f) {
        let i = choose|i: int| 0 <= i && i + f.len() <= x.len() && #[trigger] x.subrange(i, i + f.len()) == f;
        assert((x + y).subrange(i, i + f.len()) =~= x.subrange(i, i + f.len()));
    } else {
        let i = choose|i: int| 0 <= i && i + f.len() <= y.len() && #[trigger] y.subrange(i, i + f.len()) == f;
        assert((x + y).subrange(x.len() + i, x.len() + i + f.len()) =~= y.subrange(i, i + f.len()));
    }
}

proof fn lemma_holds_twelve(g0: Seq<char>, g1: Seq<char>, g2: Seq<char>, g3: Seq<char>, g4: Seq<char>, g5: Seq<char>, g6: Seq<char>, g7: Seq<char>, g8: Seq<char>, g9: Seq<char>, g10: Seq<char>, g11: Seq<char>)
    ensures
        holds_line(g0 + g1 + g2 + g3 + g4 + g5 + g6 + g7 + g8 + g9 + g10 + g11, g0),
        holds_line(g0 + g1 + g2 + g3 + g4 + g5 + g6 + g7 + g8 + g9 + g10 + g11, g1),
        holds_line(g0 + g1 + g2 + g3 + g4 + g5 + g6 + g7 + g8 + g9 + g10 + g11, g2),
        holds_line(g0 + g1 + g2 + g3 + g4 + g5 + g6 + g7 + g8 + g9 + g10 + g11, g3),
        holds_line(g0 + g1 + g2 + g3 + g4 + g5 + g6 + g7 + g8 + g9 + g10 + g11, g4),
        holds_line(g0 + g1 + g2 + g3 + g4 + g5 + g6 + g7 + g8 + g9 + g10 + g11, g5),
        holds_line(g0 + g1 + g2 + g3 + g4 + g5 + g6 + g7 + g8 + g9 + g10 + g11, g6),
        holds_line(g0 + g1 + g2 + g3 + g4 + g5 + g6 + g7 + g8 + g9 + g10 + g11, g7),
        holds_line(g0 + g1 + g2 + g3 + g4 + g5 + g6 + g7 + g8 + g9 + g10 + g11, g8),
        holds_line(g0 + g1 + g2 + g3 + g4 + g5 + g6 + g7 + g8 + g9 + g10 + g11, g9),
        holds_line(g0 + g1 + g2 + g3 + g4 + g5 + g6 + g7 + g8 + g9 + g10 + g11, g10),
        holds_line(g0 + g1 + g2 + g3 + g4 + g5 + g6 + g7 + g8 + g9 + g10 + g11, g11),
{
    lemma_holds_self(g0);
    lemma_holds_extend(g0, g1, g0);
    lemma_holds_extend(g0 + g1, g2, g0);
    lemma_holds_extend(g0 + g1 + g2, g3, g0);
    lemma_holds_extend(g0 + g1 + g2 + g3, g4, g0);
    lemma_holds_extend(g0 + g1 + g2 + g3 + g4, g5, g0);
    lemma_holds_extend(g0 + g1 + g2 + g3 + g4 + g5, g6, g0);
    lemma_holds_extend(g0 + g1 + g2 + g3 + g4 + g5 + g6, g7, g0);
    lemma_holds_extend(g0 + g1 + g2 + g3 + g4 + g5 + g6 + g7, g8, g0);
    lemma_holds_extend(g0 + g1 + g2 + g3 + g4 + g5 + g6 + g7 + g8, g9, g0);
    lemma_holds_extend(g0 + g1 + g2 + g3 + g4 + g5 + g6 + g7 + g8 + g9, g10, g0);
    lemma_holds_extend(g0 + g1 + g2 + g3 + g4 + g5 + g6 + g7 + g8 + g9 + g10, g11, g0);
    lemma_holds_self(g1);
    lemma_holds_extend(g0, g1, g1);
    lemma_holds_extend(g0 + g1, g2, g1);
    lemma_holds_extend(g0 + g1 + g2, g3, g1);
    lemma_holds_extend(g0 + g1 + g2 + g3, g4, g1);
    lemma_holds_extend(g0 + g1 + g2 + g3 + g4, g5, g1);
    lemma_holds_extend(g0 + g1 + g2 + g3 + g4 + g5, g6, g1);
    lemma_holds_extend(g0 + g1 + g2 + g3 + g4 + g5 + g6, g7, g1);
    lemma_holds_extend(g0 + g1 + g2 + g3 + g4 + g5 + g6 + g7, g8, g1);
    lemma_holds_extend(g0 + g1 + g2 + g3 + g4 + g5 + g6 + g7 + g8, g9, g1);
    lemma_holds_extend(g0 + g1 + g2 + g3 + g4 + g5 + g6 + g7 + g8 + g9, g10, g1);
    lemma_holds_extend(g0 + g1 + g2 + g3 + g4 + g5 + g6 + g7 + g8 + g9 + g10, g11, g1);
    lemma_holds_self(g2);
    lemma_holds_extend(g0 + g1, g2, g2);
    lemma_holds_extend(g0 + g1 + g2, g3, g2);
    lemma_holds_extend(g0 + g1 + g2 + g3, g4, g2);
    lemma_holds_extend(g0 + g1 + g2 + g3 + g4, g5, g2);
    lemma_holds_extend(g0 + g1 + g2 + g3 + g4 + g5, g6, g2);
    lemma_holds_extend(g0 + g1 + g2 + g3 + g4 + g5 + g6, g7, g2);
    lemma_holds_extend(g0 + g1 + g2 + g3 + g4 + g5 + g6 + g7, g8, g2);
    lemma_holds_extend(g0 + g1 + g2 + g3 + g4 + g5 + g6 + g7 + g8, g9, g2);
    lemma_holds_extend(g0 + g1 + g2 + g3 + g4 + g5 + g6 + g7 + g8 + g9, g10, g2);
    lemma_holds_extend(g0 + g1 + g2 + g3 + g4 + g5 + g6 + g7 + g8 + g9 + g10, g11, g2);
    lemma_holds_self(g3);
    lemma_holds_extend(g0 + g1 + g2, g3, g3);
    lemma_holds_extend(g0 + g1 + g2 + g3, g4, g3);
    lemma_holds_extend(g0 + g1 + g2 + g3 + g4, g5, g3);
    lemma_holds_extend(g0 + g1 + g2 + g3 + g4 + g5, g6, g3);
    lemma_holds_extend(g0 + g1 + g2 + g3 + g4 + g5 + g6, g7, g3);
    lemma_holds_extend(g0 + g1 + g2 + g3 + g4 + g5 + g6 + g7, g8, g3);
    lemma_holds_extend(g0 + g1 + g2 + g3 + g4 + g5 + g6 + g7 + g8, g9, g3);
    lemma_holds_extend(g0 + g1 + g2 + g3 + g4 + g5 + g6 + g7 + g8 + g9, g10, g3);
    lemma_holds_extend(g0 + g1 + g2 + g3 + g4 + g5 + g6 + g7 + g8 + g9 + g10, g11, g3);
    lemma_holds_self(g4);
    lemma_holds_extend(g0 + g1 + g2 + g3, g4, g4);
    lemma_holds_extend(g0 + g1 + g2 + g3 + g4, g5, g4);
    lemma_holds_extend(g0 + g1 + g2 + g3 + g4 + g5, g6, g4);
    lemma_holds_extend(g0 + g1 + g2 + g3 + g4 + g5 + g6, g7, g4);
    lemma_holds_extend(g0 + g1 + g2 + g3 + g4 + g5 + g6 + g7, g8, g4);
    lemma_holds_extend(g0 + g1 + g2 + g3 + g4 + g5 + g6 + g7 + g8, g9, g4);
    lemma_holds_extend(g0 + g1 + g2 + g3 + g4 + g5 + g6 + g7 + g8 + g9, g10, g4);
    lemma_holds_extend(g0 + g1 + g2 + g3 + g4 + g5 + g6 + g7 + g8 + g9 + g10, g11, g4);
    lemma_holds_self(g5);
    lemma_holds_extend(g0 + g1 + g2 + g3 + g4, g5, g5);
    lemma_holds_extend(g0 + g1 + g2 + g3 + g4 + g5, g6, g5);
    lemma_holds_extend(g0 + g1 + g2 + g3 + g4 + g5 + g6, g7, g5);
    lemma_holds_extend(g0 + g1 + g2 + g3 + g4 + g5 + g6 + g7, g8, g5);
    lemma_holds_extend(g0 + g1 + g2 + g3 + g4 + g5 + g6 + g7 + g8, g9, g5);
    lemma_holds_extend(g0 + g1 + g2 + g3 + g4 + g5 + g6 + g7 + g8 + g9, g10, g5);
    lemma_holds_extend(g0 + g1 + g2 + g3 + g4 + g5 + g6 + g7 + g8 + g9 + g10, g11, g5);
    lemma_holds_self(g6);
    lemma_holds_extend(g0 + g1 + g2 + g3 + g4 + g5, g6, g6);
    lemma_holds_extend(g0 + g1 + g2 + g3 + g4 + g5 + g6, g7, g6);
    lemma_holds_extend(g0 + g1 + g2 + g3 + g4 + g5 + g6 + g7, g8, g6);
    lemma_holds_extend(g0 + g1 + g2 + g3 + g4 + g5 + g6 + g7 + g8, g9, g6);
    lemma_holds_extend(g0 + g1 + g2 + g3 + g4 + g5 + g6 + g7 + g8 + g9, g10, g6);
    lemma_holds_extend(g0 + g1 + g2 + g3 + g4 + g5 + g6 + g7 + g8 + g9 + g10, g11, g6);
    lemma_holds_self(g7);
    lemma_holds_extend(g0 + g1 + g2 + g3 + g4 + g5 + g6, g7, g7);
    lemma_holds_extend(g0 + g1 + g2 + g3 + g4 + g5 + g6 + g7, g8, g7);
    lemma_holds_extend(g0 + g1 + g2 + g3 + g4 + g5 + g6 + g7 + g8, g9, g7);
    lemma_holds_extend(g0 + g1 + g2 + g3 + g4 + g5 + g6 + g7 + g8 + g9, g10, g7);
    lemma_holds_extend(g0 + g1 + g2 + g3 + g4 + g5 + g6 + g7 + g8 + g9 + g10, g11, g7);
    lemma_holds_self(g8);
    lemma_holds_extend(g0 + g1 + g2 + g3 + g4 + g5 + g6 + g7, g8, g8);
    lemma_holds_extend(g0 + g1 + g2 + g3 + g4 + g5 + g6 + g7 + g8, g9, g8);
    lemma_holds_extend(g0 + g1 + g2 + g3 + g4 + g5 + g6 + g7 + g8 + g9, g10, g8);
    lemma_holds_extend(g0 + g1 + g2 + g3 + g4 + g5 + g6 + g7 + g8 + g9 + g10, g11, g8);
    lemma_holds_self(g9);
    lemma_holds_extend(g0 + g1 + g2 + g3 + g4 + g5 + g6 + g7 + g8, g9, g9);
    lemma_holds_extend(g0 + g1 + g2 + g3 + g4 + g5 + g6 + g7 + g8 + g9, g10, g9);
    lemma_holds_extend(g0 + g1 + g2 + g3 + g4 + g5 + g6 + g7 + g8 + g9 + g10, g11, g9);
    lemma_holds_self(g10);
    lemma_holds_extend(g0 + g1 + g2 + g3 + g4 + g5 + g6 + g7 + g8 + g9, g10, g10);
    lemma_holds_extend(g0 + g1 + g2 + g3 + g4 + g5 + g6 + g7 + g8 + g9 + g10, g11, g10);
    lemma_holds_self(g11);
    lemma_holds_extend(g0 + g1 + g2 + g3 + g4 + g5 + g6 + g7 + g8 + g9 + g10, g11, g11);
}

proof fn lemma_holds_in_file(h: Seq<char>, a: Seq<char>, b: Seq<char>, c: Seq<char>, d: Seq<char>, e: Seq<char>, f: Seq<char>)
    requires
        holds_line(a, f) || holds_line(b, f) || holds_line(c, f) || holds_line(d, f),
    ensures
        holds_line(h + a + b + c + d + e, f),
{
    if holds_line(a, f) {
        lemma_holds_extend(h, a, f);
    }
    if holds_line(h + a, f) || holds_line(b, f) {
        lemma_holds_extend(h + a, b, f);
    }
    if holds_line(h + a + b, f) || holds_line(c, f) {
        lemma_holds_extend(h + a + b, c, f);
    }
    lemma_holds_extend(h + a + b + c, d, f);
    lemma_holds_extend(h + a + b + c + d, e, f);
}

proof fn lemma_identity_lines(s: StatusSnapshot)
    ensures
        holds_line(status_part_identity(s), field("updated_at_unix_ms"@, decimal(s.now_ms as nat), false)),
        holds_line(status_part_identity(s), field("connection"@, json_quoted(connection_text(s.connection_state)), false)),
        holds_line(status_part_identity(s), field("source"@, json_quoted(s.source_label@), false)),
        holds_line(status_part_identity(s), field("source_kind"@, json_quoted(s.source_kind@), false)),
        holds_line(status_part_identity(s), field("livekit_url"@, json_quoted(s.livekit_url@), false)),
        holds_line(status_part_identity(s), field("listen_url"@, json_quoted(s.listen_url@), false)),
        holds_line(status_part_identity(s), field("log_path"@, json_quoted(s.log_path@), false)),
        holds_line(status_part_identity(s), field("room"@, json_quoted(s.room@), false)),
        holds_line(status_part_identity(s), field("identity"@, json_quoted(s.identity@), false)),
        holds_line(status_part_identity(s), field("track"@, json_quoted("reaper-master"@), false)),
        holds_line(status_part_identity(s), field("track_sid"@, json_quoted(s.track_sid@), false)),
        holds_line(status_part_identity(s), field("vst3_connected"@, json_quoted(vst3_text(s.source_kind@ == "plugin"@, s.tap_packets, age_spec(s.last_audio_ms, s.now_ms))), false)),
{
    lemma_holds_twelve(
        field("updated_at_unix_ms"@, decimal(s.now_ms as nat), false),
        field("connection"@, json_quoted(connection_text(s.connection_state)), false),
        field("source"@, json_quoted(s.source_label@), false),
        field("source_kind"@, json_quoted(s.source_kind@), false),
        field("livekit_url"@, json_quoted(s.livekit_url@), false),
        field("listen_url"@, json_quoted(s.listen_url@), false),
        field("log_path"@, json_quoted(s.log_path@), false),
        field("room"@, json_quoted(s.room@), false),
        field("identity"@, json_quoted(s.identity@), false),
        field("track"@, json_quoted("reaper-master"@), false),
        field("track_sid"@, json_quoted(s.track_sid@), false),
        field("vst3_connected"@, json_quoted(vst3_text(s.source_kind@ == "plugin"@, s.tap_packets, age_spec(s.last_audio_ms, s.now_ms))), false),
    );
}

proof fn lemma_signal_lines(s: StatusSnapshot)
    ensures
        holds_line(status_part_signal(s), field("input_rate_hz"@, decimal(s.input_rate as nat), false)),
        holds_line(status_part_signal(s), field("output_rate_hz"@, decimal(48000), false)),
        holds_line(status_part_signal(s), field("output"@, json_quoted("48 kHz stereo WebRTC audio"@), false)),
        holds_line(status_part_signal(s), field("profile"@, json_quoted(profile_text(s.profile)), false)),
        holds_line(status_part_signal(s), field("bitrate_bps"@, decimal(s.bitrate as nat), false)),
        holds_line(status_part_signal(s), field("red_enabled"@, bool_text(s.red), false)),
        holds_line(status_part_signal(s), field("dtx_enabled"@, bool_text(s.dtx), false)),
        holds_line(status_part_signal(s), field("livekit_queue_ms"@, decimal(s.livekit_buffer_ms as nat), false)),
        holds_line(status_part_signal(s), field("buffer_ms"@, decimal(s.buffer_ms as nat), false)),
        holds_line(status_part_signal(s), field("captured_frames"@, decimal(s.captured as nat), false)),
        holds_line(status_part_signal(s), field("sent_frames"@, decimal(s.sent as nat), false)),
        holds_line(status_part_signal(s), field("tap_packets"@, decimal(s.tap_packets as nat), false)),
{
    lemma_holds_twelve(
        field("input_rate_hz"@, decimal(s.input_rate as nat), false),
        field("output_rate_hz"@, decimal(48000), false),
        field("output"@, json_quoted("48 kHz stereo WebRTC audio"@), false),
        field("profile"@, json_quoted(profile_text(s.profile)), false),
        field("bitrate_bps"@, decimal(s.bitrate as nat), false),
        field("red_enabled"@, bool_text(s.red), false),
        field("dtx_enabled"@, bool_text(s.dtx), false),
        field("livekit_queue_ms"@, decimal(s.livekit_buffer_ms as nat), false),
        field("buffer_ms"@, decimal(s.buffer_ms as nat), false),
        field("captured_frames"@, decimal(s.captured as nat), false),
        field("sent_frames"@, decimal(s.sent as nat), false),
        field("tap_packets"@, decimal(s.tap_packets as nat), false),
    );
}

proof fn lemma_transport_lines(s: StatusSnapshot)
    ensures
        holds_line(status_part_transport(s), field("tap_sequence_gaps"@, decimal(s.tap_gaps as nat), false)),
        holds_line(status_part_transport(s), field("plugin_reported_drops"@, decimal(s.tap_drops as nat), false)),
        holds_line(status_part_transport(s), field("frames_dropped_total"@, decimal((if s.overflow + s.tap_drops > u64::MAX { u64::MAX as int } else { s.overflow + s.tap_drops }) as nat), false)),
        holds_line(status_part_transport(s), field("rtp_packets_sent"@, decimal(s.rtp_packets as nat), false)),
        holds_line(status_part_transport(s), field("rtp_bytes_sent"@, decimal(s.rtp_bytes as nat), false)),
        holds_line(status_part_transport(s), field("rtp_header_bytes_sent"@, decimal(s.rtp_header_bytes as nat), false)),
        holds_line(status_part_transport(s), field("rtp_retransmitted_packets_sent"@, decimal(s.rtp_retransmitted_packets as nat), false)),
        holds_line(status_part_transport(s), field("rtp_retransmitted_bytes_sent"@, decimal(s.rtp_retransmitted_bytes as nat), false)),
        holds_line(status_part_transport(s), field("rtp_stats_errors"@, decimal(s.rtp_stats_errors as nat), false)),
        holds_line(status_part_transport(s), field("last_rtp_stats_age_ms"@, signed_decimal(age_spec(s.last_rtp_stats_ms, s.now_ms)), false)),
        holds_line(status_part_transport(s), field("subscriber_count"@, decimal(s.subscriber_count as nat), false)),
        holds_line(status_part_transport(s), field("listener_identities"@, seq!['['] + json_items(string_views(s.listener_identities@)) + seq![']'], false)),
{
    lemma_holds_twelve(
        field("tap_sequence_gaps"@, decimal(s.tap_gaps as nat), false),
        field("plugin_reported_drops"@, decimal(s.tap_drops as nat), false),
        field("frames_dropped_total"@, decimal((if s.overflow + s.tap_drops > u64::MAX { u64::MAX as int } else { s.overflow + s.tap_drops }) as nat), false),
        field("rtp_packets_sent"@, decimal(s.rtp_packets as nat), false),
        field("rtp_bytes_sent"@, decimal(s.rtp_bytes as nat), false),
        field("rtp_header_bytes_sent"@, decimal(s.rtp_header_bytes as nat), false),
        field("rtp_retransmitted_packets_sent"@, decimal(s.rtp_retransmitted_packets as nat), false),
        field("rtp_retransmitted_bytes_sent"@, decimal(s.rtp_retransmitted_bytes as nat), false),
        field("rtp_stats_errors"@, decimal(s.rtp_stats_errors as nat), false),
        field("last_rtp_stats_age_ms"@, signed_decimal(age_spec(s.last_rtp_stats_ms, s.now_ms)), false),
        field("subscriber_count"@, decimal(s.subscriber_count as nat), false),
        field("listener_identities"@, seq!['['] + json_items(string_views(s.listener_identities@)) + seq![']'], false),
    );
}

proof fn lemma_levels_lines(s: StatusSnapshot)
    ensures
        holds_line(status_part_levels(s), field("overflow_frames"@, decimal(s.overflow as nat), false)),
        holds_line(status_part_levels(s), field("underruns"@, decimal(s.underruns as nat), false)),
        holds_line(status_part_levels(s), field("input_errors"@, decimal(s.errors as nat), false)),
        holds_line(status_part_levels(s), field("livekit_errors"@, decimal(s.livekit_errors as nat), false)),
        holds_line(status_part_levels(s), field("reconnects"@, decimal(s.reconnects as nat), false)),
        holds_line(status_part_levels(s), field("peak_left_milli"@, decimal(s.peak_l as nat), false)),
        holds_line(status_part_levels(s), field("peak_right_milli"@, decimal(s.peak_r as nat), false)),
        holds_line(status_part_levels(s), field("rms_left_milli"@, decimal(s.rms_l as nat), false)),
        holds_line(status_part_levels(s), field("rms_right_milli"@, decimal(s.rms_r as nat), false)),
        holds_line(status_part_levels(s), field("last_audio_frame_age_ms"@, signed_decimal(age_spec(s.last_audio_ms, s.now_ms)), false)),
        holds_line(status_part_levels(s), field("audio_state"@, json_quoted(audio_state_text(audio_state_spec(s.last_audio_ms, s.now_ms, s.rms_l, s.rms_r))), false)),
        holds_line(status_part_levels(s), field("last_error"@, json_quoted(s.last_error@), true)),
{
    lemma_holds_twelve(
        field("overflow_frames"@, decimal(s.overflow as nat), false),
        field("underruns"@, decimal(s.underruns as nat), false),
        field("input_errors"@, decimal(s.errors as nat), false),
        field("livekit_errors"@, decimal(s.livekit_errors as nat), false),
        field("reconnects"@, decimal(s.reconnects as nat), false),
        field("peak_left_milli"@, decimal(s.peak_l as nat), false),
        field("peak_right_milli"@, decimal(s.peak_r as nat), false),
        field("rms_left_milli"@, decimal(s.rms_l as nat), false),
        field("rms_right_milli"@, decimal(s.rms_r as nat), false),
        field("last_audio_frame_age_ms"@, signed_decimal(age_spec(s.last_audio_ms, s.now_ms)), false),
        field("audio_state"@, json_quoted(audio_state_text(audio_state_spec(s.last_audio_ms, s.now_ms, s.rms_l, s.rms_r))), false),
        field("last_error"@, json_quoted(s.last_error@), true),
    );
}

/// Every line of the status file says what its key names: the file holds,
/// for each key, the line with that key and the value taken from the
/// snapshot's own field (each counter and level in decimal, the ages as
/// signed decimals, texts quoted), so no value is reported under another
/// key.
pub proof fn lemma_status_file_fields(s: StatusSnapshot)
    ensures
        holds_line(status_json_spec(s), field("updated_at_unix_ms"@, decimal(s.now_ms as nat), false)),
        holds_line(status_json_spec(s), field("connection"@, json_quoted(connection_text(s.connection_state)), false)),
        holds_line(status_json_spec(s), field("source"@, json_quoted(s.source_label@), false)),
        holds_line(status_json_spec(s), field("source_kind"@, json_quoted(s.source_kind@), false)),
        holds_line(status_json_spec(s), field("livekit_url"@, json_quoted(s.livekit_url@), false)),
        holds_line(status_json_spec(s), field("listen_url"@, json_quoted(s.listen_url@), false)),
        holds_line(status_json_spec(s), field("log_path"@, json_quoted(s.log_path@), false)),
        holds_line(status_json_spec(s), field("room"@, json_quoted(s.room@), false)),
        holds_line(status_json_spec(s), field("identity"@, json_quoted(s.identity@), false)),
        holds_line(status_json_spec(s), field("track"@, json_quoted("reaper-master"@), false)),
        holds_line(status_json_spec(s), field("track_sid"@, json_quoted(s.track_sid@), false)),
        holds_line(status_json_spec(s), field("vst3_connected"@, json_quoted(vst3_text(s.source_kind@ == "plugin"@, s.tap_packets, age_spec(s.last_audio_ms, s.now_ms))), false)),
        holds_line(status_json_spec(s), field("input_rate_hz"@, decimal(s.input_rate as nat), false)),
        holds_line(status_json_spec(s), field("output_rate_hz"@, decimal(48000), false)),
        holds_line(status_json_spec(s), field("output"@, json_quoted("48 kHz stereo WebRTC audio"@), false)),
        holds_line(status_json_spec(s), field("profile"@, json_quoted(profile_text(s.profile)), false)),
        holds_line(status_json_spec(s), field("bitrate_bps"@, decimal(s.bitrate as nat), false)),
        holds_line(status_json_spec(s), field("red_enabled"@, bool_text(s.red), false)),
        holds_line(status_json_spec(s), field("dtx_enabled"@, bool_text(s.dtx), false)),
        holds_line(status_json_spec(s), field("livekit_queue_ms"@, decimal(s.livekit_buffer_ms as nat), false)),
        holds_line(status_json_spec(s), field("buffer_ms"@, decimal(s.buffer_ms as nat), false)),
        holds_line(status_json_spec(s), field("captured_frames"@, decimal(s.captured as nat), false)),
        holds_line(status_json_spec(s), field("sent_frames"@, decimal(s.sent as nat), false)),
        holds_line(status_json_spec(s), field("tap_packets"@, decimal(s.tap_packets as nat), false)),
        holds_line(status_json_spec(s), field("tap_sequence_gaps"@, decimal(s.tap_gaps as nat), false)),
        holds_line(status_json_spec(s), field("plugin_reported_drops"@, decimal(s.tap_drops as nat), false)),
        holds_line(status_json_spec(s), field("frames_dropped_total"@, decimal((if s.overflow + s.tap_drops > u64::MAX { u64::MAX as int } else { s.overflow + s.tap_drops }) as nat), false)),
        holds_line(status_json_spec(s), field("rtp_packets_sent"@, decimal(s.rtp_packets as nat), false)),
        holds_line(status_json_spec(s), field("rtp_bytes_sent"@, decimal(s.rtp_bytes as nat), false)),
        holds_line(status_json_spec(s), field("rtp_header_bytes_sent"@, decimal(s.rtp_header_bytes as nat), false)),
        holds_line(status_json_spec(s), field("rtp_retransmitted_packets_sent"@, decimal(s.rtp_retransmitted_packets as nat), false)),
        holds_line(status_json_spec(s), field("rtp_retransmitted_bytes_sent"@, decimal(s.rtp_retransmitted_bytes as nat), false)),
        holds_line(status_json_spec(s), field("rtp_stats_errors"@, decimal(s.rtp_stats_errors as nat), false)),
        holds_line(status_json_spec(s), field("last_rtp_stats_age_ms"@, signed_decimal(age_spec(s.last_rtp_stats_ms, s.now_ms)), false)),
        holds_line(status_json_spec(s), field("subscriber_count"@, decimal(s.subscriber_count as nat), false)),
        holds_line(status_json_spec(s), field("listener_identities"@, seq!['['] + json_items(string_views(s.listener_identities@)) + seq![']'], false)),
        holds_line(status_json_spec(s), field("overflow_frames"@, decimal(s.overflow as nat), false)),
        holds_line(status_json_spec(s), field("underruns"@, decimal(s.underruns as nat), false)),
        holds_line(status_json_spec(s), field("input_errors"@, decimal(s.errors as nat), false)),
        holds_line(status_json_spec(s), field("livekit_errors"@, decimal(s.livekit_errors as nat), false)),
        holds_line(status_json_spec(s), field("reconnects"@, decimal(s.reconnects as nat), false)),
        holds_line(status_json_spec(s), field("peak_left_milli"@, decimal(s.peak_l as nat), false)),
        holds_line(status_json_spec(s), field("peak_right_milli"@, decimal(s.peak_r as nat), false)),
        holds_line(status_json_spec(s), field("rms_left_milli"@, decimal(s.rms_l as nat), false)),
        holds_line(status_json_spec(s), field("rms_right_milli"@, decimal(s.rms_r as nat), false)),
        holds_line(status_json_spec(s), field("last_audio_frame_age_ms"@, signed_decimal(age_spec(s.last_audio_ms, s.now_ms)), false)),
        holds_line(status_json_spec(s), field("audio_state"@, json_quoted(audio_state_text(audio_state_spec(s.last_audio_ms, s.now_ms, s.rms_l, s.rms_r))), false)),
        holds_line(status_json_spec(s), field("last_error"@, json_quoted(s.last_error@), true)),
{
    lemma_identity_lines(s);
    lemma_holds_in_file(seq!['{', '\n'], status_part_identity(s), status_part_signal(s), status_part_transport(s), status_part_levels(s), seq!['}', '\n'], field("updated_at_unix_ms"@, decimal(s.now_ms as nat), false));
    lemma_holds_in_file(seq!['{', '\n'], status_part_identity(s), status_part_signal(s), status_part_transport(s), status_part_levels(s), seq!['}', '\n'], field("connection"@, json_quoted(connection_text(s.connection_state)), false));
    lemma_holds_in_file(seq!['{', '\n'], status_part_identity(s), status_part_signal(s), status_part_transport(s), status_part_levels(s), seq!['}', '\n'], field("source"@, json_quoted(s.source_label@), false));
    lemma_holds_in_file(seq!['{', '\n'], status_part_identity(s), status_part_signal(s), status_part_transport(s), status_part_levels(s), seq!['}', '\n'], field("source_kind"@, json_quoted(s.source_kind@), false));
    lemma_holds_in_file(seq!['{', '\n'], status_part_identity(s), status_part_signal(s), status_part_transport(s), status_part_levels(s), seq!['}', '\n'], field("livekit_url"@, json_quoted(s.livekit_url@), false));
    lemma_holds_in_file(seq!['{', '\n'], status_part_identity(s), status_part_signal(s), status_part_transport(s), status_part_levels(s), seq!['}', '\n'], field("listen_url"@, json_quoted(s.listen_url@), false));
    lemma_holds_in_file(seq!['{', '\n'], status_part_identity(s), status_part_signal(s), status_part_transport(s), status_part_levels(s), seq!['}', '\n'], field("log_path"@, json_quoted(s.log_path@), false));
    lemma_holds_in_file(seq!['{', '\n'], status_part_identity(s), status_part_signal(s), status_part_transport(s), status_part_levels(s), seq!['}', '\n'], field("room"@, json_quoted(s.room@), false));
    lemma_holds_in_file(seq!['{', '\n'], status_part_identity(s), status_part_signal(s), status_part_transport(s), status_part_levels(s), seq!['}', '\n'], field("identity"@, json_quoted(s.identity@), false));
    lemma_holds_in_file(seq!['{', '\n'], status_part_identity(s), status_part_signal(s), status_part_transport(s), status_part_levels(s), seq!['}', '\n'], field("track"@, json_quoted("reaper-master"@), false));
    lemma_holds_in_file(seq!['{', '\n'], status_part_identity(s), status_part_signal(s), status_part_transport(s), status_part_levels(s), seq!['}', '\n'], field("track_sid"@, json_quoted(s.track_sid@), false));
    lemma_holds_in_file(seq!['{', '\n'], status_part_identity(s), status_part_signal(s), status_part_transport(s), status_part_levels(s), seq!['}', '\n'], field("vst3_connected"@, json_quoted(vst3_text(s.source_kind@ == "plugin"@, s.tap_packets, age_spec(s.last_audio_ms, s.now_ms))), false));
    lemma_signal_lines(s);
    lemma_holds_in_file(seq!['{', '\n'], status_part_identity(s), status_part_signal(s), status_part_transport(s), status_part_levels(s), seq!['}', '\n'], field("input_rate_hz"@, decimal(s.input_rate as nat), false));
    lemma_holds_in_file(seq!['{', '\n'], status_part_identity(s), status_part_signal(s), status_part_transport(s), status_part_levels(s), seq!['}', '\n'], field("output_rate_hz"@, decimal(48000), false));
    lemma_holds_in_file(seq!['{', '\n'], status_part_identity(s), status_part_signal(s), status_part_transport(s), status_part_levels(s), seq!['}', '\n'], field("output"@, json_quoted("48 kHz stereo WebRTC audio"@), false));
    lemma_holds_in_file(seq!['{', '\n'], status_part_identity(s), status_part_signal(s), status_part_transport(s), status_part_levels(s), seq!['}', '\n'], field("profile"@, json_quoted(profile_text(s.profile)), false));
    lemma_holds_in_file(seq!['{', '\n'], status_part_identity(s), status_part_signal(s), status_part_transport(s), status_part_levels(s), seq!['}', '\n'], field("bitrate_bps"@, decimal(s.bitrate as nat), false));
    lemma_holds_in_file(seq!['{', '\n'], status_part_identity(s), status_part_signal(s), status_part_transport(s), status_part_levels(s), seq!['}', '\n'], field("red_enabled"@, bool_text(s.red), false));
    lemma_holds_in_file(seq!['{', '\n'], status_part_identity(s), status_part_signal(s), status_part_transport(s), status_part_levels(s), seq!['}', '\n'], field("dtx_enabled"@, bool_text(s.dtx), false));
    lemma_holds_in_file(seq!['{', '\n'], status_part_identity(s), status_part_signal(s), status_part_transport(s), status_part_levels(s), seq!['}', '\n'], field("livekit_queue_ms"@, decimal(s.livekit_buffer_ms as nat), false));
    lemma_holds_in_file(seq!['{', '\n'], status_part_identity(s), status_part_signal(s), status_part_transport(s), status_part_levels(s), seq!['}', '\n'], field("buffer_ms"@, decimal(s.buffer_ms as nat), false));
    lemma_holds_in_file(seq!['{', '\n'], status_part_identity(s), status_part_signal(s), status_part_transport(s), status_part_levels(s), seq!['}', '\n'], field("captured_frames"@, decimal(s.captured as nat), false));
    lemma_holds_in_file(seq!['{', '\n'], status_part_identity(s), status_part_signal(s), status_part_transport(s), status_part_levels(s), seq!['}', '\n'], field("sent_frames"@, decimal(s.sent as nat), false));
    lemma_holds_in_file(seq!['{', '\n'], status_part_identity(s), status_part_signal(s), status_part_transport(s), status_part_levels(s), seq!['}', '\n'], field("tap_packets"@, decimal(s.tap_packets as nat), false));
    lemma_transport_lines(s);
    lemma_holds_in_file(seq!['{', '\n'], status_part_identity(s), status_part_signal(s), status_part_transport(s), status_part_levels(s), seq!['}', '\n'], field("tap_sequence_gaps"@, decimal(s.tap_gaps as nat), false));
    lemma_holds_in_file(seq!['{', '\n'], status_part_identity(s), status_part_signal(s), status_part_transport(s), status_part_levels(s), seq!['}', '\n'], field("plugin_reported_drops"@, decimal(s.tap_drops as nat), false));
    lemma_holds_in_file(seq!['{', '\n'], status_part_identity(s), status_part_signal(s), status_part_transport(s), status_part_levels(s), seq!['}', '\n'], field("frames_dropped_total"@, decimal((if s.overflow + s.tap_drops > u64::MAX { u64::MAX as int } else { s.overflow + s.tap_drops }) as nat), false));
    lemma_holds_in_file(seq!['{', '\n'], status_part_identity(s), status_part_signal(s), status_part_transport(s), status_part_levels(s), seq!['}', '\n'], field("rtp_packets_sent"@, decimal(s.rtp_packets as nat), false));
    lemma_holds_in_file(seq!['{', '\n'], status_part_identity(s), status_part_signal(s), status_part_transport(s), status_part_levels(s), seq!['}', '\n'], field("rtp_bytes_sent"@, decimal(s.rtp_bytes as nat), false));
    lemma_holds_in_file(seq!['{', '\n'], status_part_identity(s), status_part_signal(s), status_part_transport(s), status_part_levels(s), seq!['}', '\n'], field("rtp_header_bytes_sent"@, decimal(s.rtp_header_bytes as nat), false));
    lemma_holds_in_file(seq!['{', '\n'], status_part_identity(s), status_part_signal(s), status_part_transport(s), status_part_levels(s), seq!['}', '\n'], field("rtp_retransmitted_packets_sent"@, decimal(s.rtp_retransmitted_packets as nat), false));
    lemma_holds_in_file(seq!['{', '\n'], status_part_identity(s), status_part_signal(s), status_part_transport(s), status_part_levels(s), seq!['}', '\n'], field("rtp_retransmitted_bytes_sent"@, decimal(s.rtp_retransmitted_bytes as nat), false));
    lemma_holds_in_file(seq!['{', '\n'], status_part_identity(s), status_part_signal(s), status_part_transport(s), status_part_levels(s), seq!['}', '\n'], field("rtp_stats_errors"@, decimal(s.rtp_stats_errors as nat), false));
    lemma_holds_in_file(seq!['{', '\n'], status_part_identity(s), status_part_signal(s), status_part_transport(s), status_part_levels(s), seq!['}', '\n'], field("last_rtp_stats_age_ms"@, signed_decimal(age_spec(s.last_rtp_stats_ms, s.now_ms)), false));
    lemma_holds_in_file(seq!['{', '\n'], status_part_identity(s), status_part_signal(s), status_part_transport(s), status_part_levels(s), seq!['}', '\n'], field("subscriber_count"@, decimal(s.subscriber_count as nat), false));
    lemma_holds_in_file(seq!['{', '\n'], status_part_identity(s), status_part_signal(s), status_part_transport(s), status_part_levels(s), seq!['}', '\n'], field("listener_identities"@, seq!['['] + json_items(string_views(s.listener_identities@)) + seq![']'], false));
    lemma_levels_lines(s);
    lemma_holds_in_file(seq!['{', '\n'], status_part_identity(s), status_part_signal(s), status_part_transport(s), status_part_levels(s), seq!['}', '\n'], field("overflow_frames"@, decimal(s.overflow as nat), false));
    lemma_holds_in_file(seq!['{', '\n'], status_part_identity(s), status_part_signal(s), status_part_transport(s), status_part_levels(s), seq!['}', '\n'], field("underruns"@, decimal(s.underruns as nat), false));
    lemma_holds_in_file(seq!['{', '\n'], status_part_identity(s), status_part_signal(s), status_part_transport(s), status_part_levels(s), seq!['}', '\n'], field("input_errors"@, decimal(s.errors as nat), false));
    lemma_holds_in_file(seq!['{', '\n'], status_part_identity(s), status_part_signal(s), status_part_transport(s), status_part_levels(s), seq!['}', '\n'], field("livekit_errors"@, decimal(s.livekit_errors as nat), false));
    lemma_holds_in_file(seq!['{', '\n'], status_part_identity(s), status_part_signal(s), status_part_transport(s), status_part_levels(s), seq!['}', '\n'], field("reconnects"@, decimal(s.reconnects as nat), false));
    lemma_holds_in_file(seq!['{', '\n'], status_part_identity(s), status_part_signal(s), status_part_transport(s), status_part_levels(s), seq!['}', '\n'], field("peak_left_milli"@, decimal(s.peak_l as nat), false));
    lemma_holds_in_file(seq!['{', '\n'], status_part_identity(s), status_part_signal(s), status_part_transport(s), status_part_levels(s), seq!['}', '\n'], field("peak_right_milli"@, decimal(s.peak_r as nat), false));
    lemma_holds_in_file(seq!['{', '\n'], status_part_identity(s), status_part_signal(s), status_part_transport(s), status_part_levels(s), seq!['}', '\n'], field("rms_left_milli"@, decimal(s.rms_l as nat), false));
    lemma_holds_in_file(seq!['{', '\n'], status_part_identity(s), status_part_signal(s), status_part_transport(s), status_part_levels(s), seq!['}', '\n'], field("rms_right_milli"@, decimal(s.rms_r as nat), false));
    lemma_holds_in_file(seq!['{', '\n'], status_part_identity(s), status_part_signal(s), status_part_transport(s), status_part_levels(s), seq!['}', '\n'], field("last_audio_frame_age_ms"@, signed_decimal(age_spec(s.last_audio_ms, s.now_ms)), false));
    lemma_holds_in_file(seq!['{', '\n'], status_part_identity(s), status_part_signal(s), status_part_transport(s), status_part_levels(s), seq!['}', '\n'], field("audio_state"@, json_quoted(audio_state_text(audio_state_spec(s.last_audio_ms, s.now_ms, s.rms_l, s.rms_r))), false));
    lemma_holds_in_file(seq!['{', '\n'], status_part_identity(s), status_part_signal(s), status_part_transport(s), status_part_levels(s), seq!['}', '\n'], field("last_error"@, json_quoted(s.last_error@), true));
}

} // verus!
