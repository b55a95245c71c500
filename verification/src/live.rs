//! The LiveKit sender's settings: audio profiles, command-line checks, the
//! capture source, the setup wizard and the reconnect policy.
use vstd::prelude::*;
use crate::wizard::{Key, Outcome, cursor_up, cursor_down, pick};
use crate::text::{chars_of, safe_lock_component, lock_mapped, append_chars, append_str};

verus! {

/// Smallest accepted bitrate, bits per second.
pub const MIN_BITRATE: u64 = 16000;
/// Largest accepted bitrate, bits per second.
pub const MAX_BITRATE: u64 = 510000;
/// Smallest accepted LiveKit source queue, milliseconds.
pub const MIN_LIVEKIT_BUFFER_MS: u32 = 20;
/// Largest accepted LiveKit source queue, milliseconds.
pub const MAX_LIVEKIT_BUFFER_MS: u32 = 5000;
/// Largest accepted capture ring buffer, seconds.
pub const MAX_RING_BUFFER_SECONDS: usize = 30;
/// Where the NAB Tap plugin's socket lives unless told otherwise.
pub const DEFAULT_TAP_SOCKET: &'static str = "~/Library/Caches/KenichiNAB/nab-tap.sock";

/// Codes of the connection state shown to the user.
pub const CONNECTION_CONNECTING: usize = 0;
pub const CONNECTION_CONNECTED: usize = 1;
pub const CONNECTION_RECONNECTING: usize = 2;
pub const CONNECTION_DISCONNECTED: usize = 3;

/// Where the audio comes from.
#[derive(Debug, Clone, Copy, PartialEq, Eq)]
pub enum SourceArg {
    Plugin,
    Coreaudio,
    /// A generated sine tone, for checking the path without a DAW.
    TestTone,
}

/// The named audio profiles.
#[derive(Debug, Clone, Copy, PartialEq, Eq)]
pub enum AudioProfileArg {
    StableMusic,
    HiFiMusic,
    Speech,
    LowBandwidth,
    MaxQualityLab,
}

/// The sender's command line, as plain values.
pub struct Args {
    pub list_devices: bool,
    pub source: Option<SourceArg>,
    pub no_tui: bool,
    pub plugin_socket: String,
    pub input: Option<String>,
    pub input_sample_rate: u32,
    pub input_channels: u16,
    pub left_channel: usize,
    pub right_channel: usize,
    pub url: Option<String>,
    pub room: String,
    pub identity: String,
    pub key: Option<String>,
    pub secret: Option<String>,
    pub env_file: String,
    pub profile: AudioProfileArg,
    pub bitrate: Option<u64>,
    pub disable_red: bool,
    pub enable_dtx: bool,
    pub disable_dtx: bool,
    pub livekit_buffer_ms: Option<u32>,
    pub no_reconnect: bool,
    pub ring_buffer_seconds: usize,
    pub status_file: String,
}

/// How the published track is encoded and queued.
#[derive(Debug, Clone, Copy, PartialEq, Eq)]
pub struct AudioSendConfig {
    pub profile: AudioProfileArg,
    pub bitrate: u64,
    pub red: bool,
    pub dtx: bool,
    pub livekit_buffer_ms: u32,
}

/// Why the command line is refused.
#[derive(Debug, Clone, Copy, PartialEq, Eq)]
pub enum ConfigError {
    /// The bitrate lies outside `MIN_BITRATE..=MAX_BITRATE`.
    Bitrate,
    /// The LiveKit queue lies outside its range.
    LivekitBuffer,
    /// The ring buffer is zero seconds or longer than the maximum.
    RingBufferSeconds,
    /// No input channels were asked for.
    ZeroInputChannels,
    /// A channel number is zero; they count from one.
    ChannelNotOneBased,
    /// A channel number exceeds the input's channel count.
    ChannelOutOfRange,
}

/// The defaults of a profile: bitrate, RED, DTX and queue in milliseconds.
pub open spec fn profile_defaults_spec(p: AudioProfileArg) -> (u64, bool, bool, u32) {
    match p {
        AudioProfileArg::StableMusic => (160000, true, false, 1200),
        AudioProfileArg::HiFiMusic => (256000, true, false, 1000),
        AudioProfileArg::Speech => (64000, true, true, 800),
        AudioProfileArg::LowBandwidth => (96000, true, false, 1500),
        AudioProfileArg::MaxQualityLab => (510000, false, false, 1000),
    }
}

/// The defaults of a profile: bitrate, RED, DTX and queue in milliseconds.
pub fn profile_defaults(p: AudioProfileArg) -> (r: (u64, bool, bool, u32))
    ensures
        r == profile_defaults_spec(p),
{
    match p {
        AudioProfileArg::StableMusic => (160000, true, false, 1200),
        AudioProfileArg::HiFiMusic => (256000, true, false, 1000),
        AudioProfileArg::Speech => (64000, true, true, 800),
        AudioProfileArg::LowBandwidth => (96000, true, false, 1500),
        AudioProfileArg::MaxQualityLab => (510000, false, false, 1000),
    }
}

/// What the audio options of the command line resolve to.
pub open spec fn resolve_spec(
    profile: AudioProfileArg,
    bitrate: Option<u64>,
    livekit_buffer_ms: Option<u32>,
    disable_red: bool,
    enable_dtx: bool,
    disable_dtx: bool,
) -> Result<AudioSendConfig, ConfigError> {
    let d = profile_defaults_spec(profile);
    let b = match bitrate {
        Some(v) => v,
        None => d.0,
    };
    let q = match livekit_buffer_ms {
        Some(v) => v,
        None => d.3,
    };
    if !(MIN_BITRATE <= b <= MAX_BITRATE) {
        Err(ConfigError::Bitrate)
    } else if !(MIN_LIVEKIT_BUFFER_MS <= q <= MAX_LIVEKIT_BUFFER_MS) {
        Err(ConfigError::LivekitBuffer)
    } else {
        Ok(
            AudioSendConfig {
                profile,
                bitrate: b,
                red: d.1 && !disable_red,
                dtx: if disable_dtx { false } else { d.2 || enable_dtx },
                livekit_buffer_ms: q,
            },
        )
    }
}

/// Resolves the audio options: the profile's defaults, overridden by an
/// explicit bitrate or queue, with RED switched off by `--disable-red` and
/// DTX decided by `--disable-dtx`, then `--enable-dtx`, then the profile.
pub fn resolve_audio_send_config(args: &Args) -> (r: Result<AudioSendConfig, ConfigError>)
    ensures
        r == resolve_spec(
            args.profile,
            args.bitrate,
            args.livekit_buffer_ms,
            args.disable_red,
            args.enable_dtx,
            args.disable_dtx,
        ),
        args.bitrate matches Some(v) ==> (r matches Ok(c) ==> c.bitrate == v),
        args.livekit_buffer_ms matches Some(w) ==> (r matches Ok(c) ==> c.livekit_buffer_ms == w),
{
    let (default_bitrate, default_red, default_dtx, default_buffer_ms) = profile_defaults(
        args.profile,
    );
    let bitrate = match args.bitrate {
        Some(v) => v,
        None => default_bitrate,
    };
    if !(MIN_BITRATE <= bitrate && bitrate <= MAX_BITRATE) {
        return Err(ConfigError::Bitrate);
    }
    let livekit_buffer_ms = match args.livekit_buffer_ms {
        Some(v) => v,
        None => default_buffer_ms,
    };
    if !(MIN_LIVEKIT_BUFFER_MS <= livekit_buffer_ms && livekit_buffer_ms <= MAX_LIVEKIT_BUFFER_MS) {
        return Err(ConfigError::LivekitBuffer);
    }
    let dtx = if args.disable_dtx {
        false
    } else {
        default_dtx || args.enable_dtx
    };
    Ok(
        AudioSendConfig {
            profile: args.profile,
            bitrate,
            red: default_red && !args.disable_red,
            dtx,
            livekit_buffer_ms,
        },
    )
}

/// Every profile's own defaults pass the checks, and whatever resolves
/// successfully lies within the accepted ranges.
pub proof fn lemma_profiles_resolve(
    p: AudioProfileArg,
    bitrate: Option<u64>,
    q: Option<u32>,
    disable_red: bool,
    enable_dtx: bool,
    disable_dtx: bool,
)
    ensures
        resolve_spec(p, None, None, disable_red, enable_dtx, disable_dtx) is Ok,
        resolve_spec(p, bitrate, q, disable_red, enable_dtx, disable_dtx) matches Ok(c) ==> {
            &&& MIN_BITRATE <= c.bitrate <= MAX_BITRATE
            &&& MIN_LIVEKIT_BUFFER_MS <= c.livekit_buffer_ms <= MAX_LIVEKIT_BUFFER_MS
            &&& (disable_dtx ==> !c.dtx)
            &&& (disable_red ==> !c.red)
        },
{
}

/// An explicit `--bitrate` or `--livekit-buffer-ms` overrides the profile:
/// whenever resolution succeeds, the resolved value is the one given. When
/// neither is given, each profile resolves to its row of the table: bitrate,
/// RED, DTX and queue of 160 kb/s, on, off, 1200 ms (stable-music);
/// 256 kb/s, on, off, 1000 ms (hi-fi-music); 64 kb/s, on, on, 800 ms
/// (speech); 96 kb/s, on, off, 1500 ms (low-bandwidth); 510 kb/s, off,
/// off, 1000 ms (max-quality-lab).
pub proof fn lemma_explicit_settings_override(
    p: AudioProfileArg,
    bitrate: Option<u64>,
    q: Option<u32>,
    disable_red: bool,
    enable_dtx: bool,
    disable_dtx: bool,
)
    ensures
        bitrate matches Some(v) ==> (resolve_spec(p, bitrate, q, disable_red, enable_dtx, disable_dtx) matches Ok(c) ==> c.bitrate == v),
        q matches Some(w) ==> (resolve_spec(p, bitrate, q, disable_red, enable_dtx, disable_dtx) matches Ok(c) ==> c.livekit_buffer_ms == w),
        resolve_spec(p, bitrate, q, disable_red, enable_dtx, disable_dtx) matches Ok(c) ==> c.profile == p,
        bitrate matches Some(v) ==> (MIN_BITRATE <= v <= MAX_BITRATE && q is None) ==> resolve_spec(p, bitrate, q, disable_red, enable_dtx, disable_dtx) is Ok,
        resolve_spec(AudioProfileArg::StableMusic, None, None, false, false, false) == Ok::<AudioSendConfig, ConfigError>(AudioSendConfig { profile: AudioProfileArg::StableMusic, bitrate: 160000, red: true, dtx: false, livekit_buffer_ms: 1200 }),
        resolve_spec(AudioProfileArg::HiFiMusic, None, None, false, false, false) == Ok::<AudioSendConfig, ConfigError>(AudioSendConfig { profile: AudioProfileArg::HiFiMusic, bitrate: 256000, red: true, dtx: false, livekit_buffer_ms: 1000 }),
        resolve_spec(AudioProfileArg::Speech, None, None, false, false, false) == Ok::<AudioSendConfig, ConfigError>(AudioSendConfig { profile: AudioProfileArg::Speech, bitrate: 64000, red: true, dtx: true, livekit_buffer_ms: 800 }),
        resolve_spec(AudioProfileArg::LowBandwidth, None, None, false, false, false) == Ok::<AudioSendConfig, ConfigError>(AudioSendConfig { profile: AudioProfileArg::LowBandwidth, bitrate: 96000, red: true, dtx: false, livekit_buffer_ms: 1500 }),
        resolve_spec(AudioProfileArg::MaxQualityLab, None, None, false, false, false) == Ok::<AudioSendConfig, ConfigError>(AudioSendConfig { profile: AudioProfileArg::MaxQualityLab, bitrate: 510000, red: false, dtx: false, livekit_buffer_ms: 1000 }),
{
}

/// Checks the ring-buffer length: one to `MAX_RING_BUFFER_SECONDS` seconds.
pub fn validate_buffer_seconds(seconds: usize) -> (r: Result<(), ConfigError>)
    ensures
        r is Ok <==> 1 <= seconds <= MAX_RING_BUFFER_SECONDS,
        r is Err ==> r == Err::<(), ConfigError>(ConfigError::RingBufferSeconds),
{
    if seconds == 0 || seconds > MAX_RING_BUFFER_SECONDS {
        return Err(ConfigError::RingBufferSeconds);
    }
    Ok(())
}

/// What checking a channel selection gives.
pub open spec fn coreaudio_selection_spec(input_channels: u16, left: usize, right: usize) -> Result<
    (),
    ConfigError,
> {
    if input_channels == 0 {
        Err(ConfigError::ZeroInputChannels)
    } else if left == 0 || right == 0 {
        Err(ConfigError::ChannelNotOneBased)
    } else if left > input_channels || right > input_channels {
        Err(ConfigError::ChannelOutOfRange)
    } else {
        Ok(())
    }
}

/// Checks that the device has channels and that the left and right
/// channel numbers (counted from one) name channels it has.
pub fn validate_coreaudio_selection(input_channels: u16, left_channel: usize, right_channel: usize) -> (r: Result<(), ConfigError>)
    ensures
        r == coreaudio_selection_spec(input_channels, left_channel, right_channel),
{
    if input_channels == 0 {
        return Err(ConfigError::ZeroInputChannels);
    }
    if left_channel == 0 || right_channel == 0 {
        return Err(ConfigError::ChannelNotOneBased);
    }
    if left_channel > input_channels as usize || right_channel > input_channels as usize {
        return Err(ConfigError::ChannelOutOfRange);
    }
    Ok(())
}

/// Whether to open the wizard: neither a source nor an input was given.
pub fn should_show_wizard(args: &Args) -> (r: bool)
    ensures
        r == (args.source is None && args.input is None),
{
    args.source.is_none() && args.input.is_none()
}

/// Where the audio is captured from.
pub enum CaptureConfig {
    Plugin { socket_path: String },
    /// The generated tone (its pitch and level are set by the program).
    TestTone,
    CoreAudio {
        input: Option<String>,
        input_sample_rate: u32,
        input_channels: u16,
        left_channel: usize,
        right_channel: usize,
    },
}

fn clone_opt_string(s: &Option<String>) -> (r: Option<String>)
    ensures
        r is Some <==> s is Some,
        r is Some ==> r->0@ == s->0@,
{
    match s {
        Some(v) => Some(v.clone()),
        None => None,
    }
}

/// The capture source the command line names: the plugin socket for
/// `--source plugin`, the tone for `--source test-tone`, and otherwise
/// (CoreAudio being the default) the checked device and channel choice.
pub fn capture_config_from_args(args: &Args) -> (r: Result<CaptureConfig, ConfigError>)
    ensures
        args.source == Some(SourceArg::Plugin) ==> (r matches Ok(CaptureConfig::Plugin { socket_path }) && socket_path@ == args.plugin_socket@),
        args.source == Some(SourceArg::TestTone) ==> r matches Ok(CaptureConfig::TestTone),
        (args.source is None || args.source == Some(SourceArg::Coreaudio)) ==> match coreaudio_selection_spec(args.input_channels, args.left_channel, args.right_channel) {
            Err(e) => r matches Err(e2) && e2 == e,
            Ok(()) => r matches Ok(CaptureConfig::CoreAudio { input, input_sample_rate, input_channels, left_channel, right_channel })
                && (input is Some <==> args.input is Some)
                && (input is Some ==> input->0@ == args.input->0@)
                && input_sample_rate == args.input_sample_rate
                && input_channels == args.input_channels
                && left_channel == args.left_channel
                && right_channel == args.right_channel,
        },
{
    let source = match args.source {
        Some(s) => s,
        None => SourceArg::Coreaudio,
    };
    match source {
        SourceArg::Plugin => Ok(CaptureConfig::Plugin { socket_path: args.plugin_socket.clone() }),
        SourceArg::TestTone => Ok(CaptureConfig::TestTone),
        SourceArg::Coreaudio => {
            match validate_coreaudio_selection(args.input_channels, args.left_channel, args.right_channel) {
                Err(e) => Err(e),
                Ok(()) => Ok(
                    CaptureConfig::CoreAudio {
                        input: clone_opt_string(&args.input),
                        input_sample_rate: args.input_sample_rate,
                        input_channels: args.input_channels,
                        left_channel: args.left_channel,
                        right_channel: args.right_channel,
                    },
                ),
            }
        },
    }
}

/// Seconds to wait before reconnect attempt `attempt`: 1, 1, 2, 4, 8,
/// then 15 for every later attempt.
pub open spec fn reconnect_delay_spec(attempt: u32) -> u64 {
    if attempt <= 1 {
        1
    } else if attempt == 2 {
        2
    } else if attempt == 3 {
        4
    } else if attempt == 4 {
        8
    } else {
        15
    }
}

/// Seconds to wait before reconnect attempt `attempt`.
pub fn reconnect_delay(attempt: u32) -> (r: u64)
    ensures
        r == reconnect_delay_spec(attempt),
{
    match attempt {
        0 | 1 => 1,
        2 => 2,
        3 => 4,
        4 => 8,
        _ => 15,
    }
}

/// The wait never shrinks as attempts accumulate, and stays within one
/// and fifteen seconds.
pub proof fn lemma_reconnect_backoff(a: u32, b: u32)
    requires
        a <= b,
    ensures
        reconnect_delay_spec(a) <= reconnect_delay_spec(b),
        1 <= reconnect_delay_spec(b) <= 15,
{
}

/// How a LiveKit session ended.
#[derive(Debug, Clone, Copy, PartialEq, Eq)]
pub enum SessionEnd {
    /// The user quit (or the process was told to stop).
    UserQuit,
    /// The room went away.
    Reconnect,
    /// The session failed with an error.
    Failed,
}

/// What the supervisor does next.
#[derive(Debug, Clone, Copy, PartialEq, Eq)]
pub enum SupervisorAction {
    /// Stop without error.
    Stop,
    /// Stop: the room went away and reconnecting is switched off.
    StopDisconnected,
    /// Stop, passing the session's error on.
    StopFailed,
    /// Wait this many seconds, then start a new session.
    RetryAfter { secs: u64 },
}

/// The supervisor's decision after a session, with its bookkeeping.
#[derive(Debug, Clone, Copy, PartialEq, Eq)]
pub struct SupervisorStep {
    pub action: SupervisorAction,
    /// The attempt counter for the next round.
    pub attempt: u32,
    /// Count one more reconnect.
    pub count_reconnect: bool,
    /// Count one more LiveKit error and show the link as disconnected.
    pub count_error: bool,
}

/// What the supervisor decides after a session ends.
pub open spec fn supervise_spec(attempt: u32, end: SessionEnd, reconnect: bool) -> SupervisorStep {
    match end {
        SessionEnd::UserQuit => SupervisorStep { action: SupervisorAction::Stop, attempt, count_reconnect: false, count_error: false },
        SessionEnd::Reconnect => if reconnect {
            SupervisorStep { action: SupervisorAction::RetryAfter { secs: reconnect_delay_spec(1) }, attempt: 1, count_reconnect: true, count_error: false }
        } else {
            SupervisorStep { action: SupervisorAction::StopDisconnected, attempt, count_reconnect: false, count_error: false }
        },
        SessionEnd::Failed => if reconnect {
            let a = if attempt == u32::MAX { attempt } else { (attempt + 1) as u32 };
            SupervisorStep { action: SupervisorAction::RetryAfter { secs: reconnect_delay_spec(a) }, attempt: a, count_reconnect: false, count_error: true }
        } else {
            SupervisorStep { action: SupervisorAction::StopFailed, attempt, count_reconnect: false, count_error: false }
        },
    }
}

/// Decides what follows a session: a clean reconnect starts the count over
/// (so waits one second); a failure counts one more attempt and backs off.
pub fn supervise(attempt: u32, end: SessionEnd, reconnect: bool) -> (r: SupervisorStep)
    ensures
        r == supervise_spec(attempt, end, reconnect),
{
    match end {
        SessionEnd::UserQuit => SupervisorStep {
            action: SupervisorAction::Stop,
            attempt,
            count_reconnect: false,
            count_error: false,
        },
        SessionEnd::Reconnect => {
            if reconnect {
                SupervisorStep {
                    action: SupervisorAction::RetryAfter { secs: reconnect_delay(1) },
                    attempt: 1,
                    count_reconnect: true,
                    count_error: false,
                }
            } else {
                SupervisorStep {
                    action: SupervisorAction::StopDisconnected,
                    attempt,
                    count_reconnect: false,
                    count_error: false,
                }
            }
        },
        SessionEnd::Failed => {
            if reconnect {
                let a = attempt.saturating_add(1);
                SupervisorStep {
                    action: SupervisorAction::RetryAfter { secs: reconnect_delay(a) },
                    attempt: a,
                    count_reconnect: false,
                    count_error: true,
                }
            } else {
                SupervisorStep {
                    action: SupervisorAction::StopFailed,
                    attempt,
                    count_reconnect: false,
                    count_error: false,
                }
            }
        },
    }
}

/// With reconnecting on, every ended session but a user's quit is retried:
/// a failure counts one more attempt and waits as that attempt does, and a
/// clean disconnect always waits one second. With reconnecting off,
/// nothing is retried.
pub proof fn lemma_supervisor_retries(attempt: u32, end: SessionEnd)
    ensures
        end != SessionEnd::UserQuit ==> supervise_spec(attempt, end, true).action is RetryAfter,
        supervise_spec(attempt, SessionEnd::Reconnect, true).action == (SupervisorAction::RetryAfter { secs: 1 }),
        attempt < u32::MAX ==> supervise_spec(attempt, SessionEnd::Failed, true).action == (SupervisorAction::RetryAfter { secs: reconnect_delay_spec((attempt + 1) as u32) }),
        !(supervise_spec(attempt, end, false).action is RetryAfter),
{
}

/// The attempt counter after `n` failed sessions in a row, starting from `a`.
pub open spec fn attempts_after_failures(a: u32, n: nat) -> u32
    decreases n,
{
    if n == 0 {
        a
    } else {
        supervise_spec(attempts_after_failures(a, (n - 1) as nat), SessionEnd::Failed, true).attempt
    }
}

/// From a fresh start, the `n`-th failure in a row is attempt `n` and waits
/// as attempt `n` does: 1, 2, 4, 8 and then 15 seconds.
pub proof fn lemma_failures_back_off(n: nat)
    requires
        1 <= n <= u32::MAX,
    ensures
        attempts_after_failures(0, n) == n,
        supervise_spec(attempts_after_failures(0, (n - 1) as nat), SessionEnd::Failed, true).action
            == (SupervisorAction::RetryAfter { secs: reconnect_delay_spec(n as u32) }),
    decreases n,
{
    if n > 1 {
        lemma_failures_back_off((n - 1) as nat);
    }
}

/// The connection's name as shown to the user.
pub open spec fn connection_text(v: usize) -> Seq<char> {
    if v == 1 { "Connected"@ } else if v == 2 { "Reconnecting"@ } else if v == 3 { "Disconnected"@ } else { "Connecting"@ }
}

/// The profile's name as shown to the user.
pub open spec fn profile_text(p: AudioProfileArg) -> Seq<char> {
    match p {
        AudioProfileArg::StableMusic => "stable-music"@,
        AudioProfileArg::HiFiMusic => "hi-fi-music"@,
        AudioProfileArg::Speech => "speech"@,
        AudioProfileArg::LowBandwidth => "low-bandwidth"@,
        AudioProfileArg::MaxQualityLab => "max-quality-lab"@,
    }
}

/// The name shown for a connection-state code.
pub fn connection_label(value: usize) -> (r: &'static str)
    ensures
        r@ == connection_text(value),
{
    if value == CONNECTION_CONNECTED {
        "Connected"
    } else if value == CONNECTION_RECONNECTING {
        "Reconnecting"
    } else if value == CONNECTION_DISCONNECTED {
        "Disconnected"
    } else {
        "Connecting"
    }
}

/// The command-line name of a profile.
pub fn profile_label(p: AudioProfileArg) -> (r: &'static str)
    ensures
        r@ == profile_text(p),
{
    match p {
        AudioProfileArg::StableMusic => "stable-music",
        AudioProfileArg::HiFiMusic => "hi-fi-music",
        AudioProfileArg::Speech => "speech",
        AudioProfileArg::LowBandwidth => "low-bandwidth",
        AudioProfileArg::MaxQualityLab => "max-quality-lab",
    }
}

/// "on" or "off".
pub fn on_off(value: bool) -> (r: &'static str)
    ensures
        value ==> r@ == "on"@,
        !value ==> r@ == "off"@,
{
    if value {
        "on"
    } else {
        "off"
    }
}

// ───────────────────────── sender wizard ─────────────────────────

/// The input rates the sender offers, in menu order.
pub open spec fn live_rates() -> Seq<u32> {
    seq![48000u32, 96000u32, 44100u32, 88200u32, 176400u32, 192000u32]
}

/// The rate on line `i` of the sender's menu.
pub fn live_rate(i: usize) -> (r: u32)
    requires
        i < 6,
    ensures
        r == live_rates()[i as int],
        r == (if i == 0 { 48000u32 } else if i == 1 { 96000u32 } else if i == 2 { 44100u32 } else if i == 3 { 88200u32 } else if i == 4 { 176400u32 } else { 192000u32 }),
{
    let rates: [u32; 6] = [48000, 96000, 44100, 88200, 176400, 192000];
    rates[i]
}

/// The screens of the sender wizard.
#[derive(Debug, Clone, Copy, PartialEq, Eq)]
pub enum LiveStep {
    SelectSource { cursor: usize },
    SelectSampleRate { cursor: usize },
    SelectInput { cursor: usize },
    Confirm,
}

/// The sender wizard: the screen, the chosen source, rate and input device
/// (by index into the list it was given).
#[derive(Debug, Clone, Copy, PartialEq, Eq)]
pub struct LiveWizard {
    pub step: LiveStep,
    pub source: SourceArg,
    pub sample_rate: u32,
    pub input: Option<usize>,
    pub n_inputs: usize,
}

/// A rate the sender's menu offers.
pub open spec fn is_live_rate(r: u32) -> bool {
    exists|i: int| 0 <= i < 6 && live_rates()[i] == r
}

/// What holds of every state the sender wizard reaches: the rate cursor
/// stays on the menu and the rate is one it offers; a chosen device is in
/// the list; the rate and device screens appear only for CoreAudio; and no
/// device is chosen before that, nor ever for the plugin.
pub open spec fn live_wf(w: LiveWizard) -> bool {
    &&& w.step matches LiveStep::SelectSampleRate { cursor } ==> cursor < 6
    &&& is_live_rate(w.sample_rate)
    &&& w.input matches Some(i) ==> i < w.n_inputs
    &&& (w.step is SelectSampleRate || w.step is SelectInput) ==> w.source == SourceArg::Coreaudio
    &&& (w.step is SelectSource || w.source == SourceArg::Plugin) ==> w.input is None
}

/// The sender wizard's transition on key `k`.
pub open spec fn live_next(w: LiveWizard, k: Key) -> (LiveWizard, Outcome) {
    match w.step {
        LiveStep::SelectSource { cursor } => match k {
            Key::Up => (LiveWizard { step: LiveStep::SelectSource { cursor: cursor_up(cursor) }, ..w }, Outcome::Continue),
            Key::Down => (LiveWizard { step: LiveStep::SelectSource { cursor: cursor_down(cursor, 2) }, ..w }, Outcome::Continue),
            Key::Enter => {
                let source = if cursor == 0 { SourceArg::Plugin } else { SourceArg::Coreaudio };
                let step = if source == SourceArg::Plugin { LiveStep::Confirm } else { LiveStep::SelectSampleRate { cursor: 1 } };
                (LiveWizard { step, source, ..w }, Outcome::Continue)
            },
            Key::Esc => (w, Outcome::Cancelled),
            Key::Char(c) => (w, if c == 'q' { Outcome::Cancelled } else { Outcome::Continue }),
            _ => (w, Outcome::Continue),
        },
        LiveStep::SelectSampleRate { cursor } => match k {
            Key::Up => (LiveWizard { step: LiveStep::SelectSampleRate { cursor: cursor_up(cursor) }, ..w }, Outcome::Continue),
            Key::Down => (LiveWizard { step: LiveStep::SelectSampleRate { cursor: cursor_down(cursor, 6) }, ..w }, Outcome::Continue),
            Key::Enter => (LiveWizard { step: LiveStep::SelectInput { cursor: 0 }, sample_rate: live_rates()[cursor as int], ..w }, Outcome::Continue),
            Key::Esc => (w, Outcome::Cancelled),
            _ => (w, Outcome::Continue),
        },
        LiveStep::SelectInput { cursor } => match k {
            Key::Up => (LiveWizard { step: LiveStep::SelectInput { cursor: cursor_up(cursor) }, ..w }, Outcome::Continue),
            Key::Down => (LiveWizard { step: LiveStep::SelectInput { cursor: cursor_down(cursor, w.n_inputs) }, ..w }, Outcome::Continue),
            Key::Enter => (LiveWizard { step: LiveStep::Confirm, input: pick(cursor, w.n_inputs), ..w }, Outcome::Continue),
            Key::Esc => (w, Outcome::Cancelled),
            _ => (w, Outcome::Continue),
        },
        LiveStep::Confirm => match k {
            Key::Enter => (w, Outcome::Finished),
            Key::Esc => (w, Outcome::Cancelled),
            _ => (w, Outcome::Continue),
        },
    }
}

/// Enter on the sender's rate screen sets the highlighted rate: the lines
/// read 48, 96, 44.1, 88.2, 176.4 and 192 kHz from the top; Enter on its
/// device screen picks the highlighted device; Enter on its source screen
/// picks the plugin on the first line and CoreAudio on the second.
pub proof fn lemma_live_picks_highlighted(w: LiveWizard)
    requires
        live_wf(w),
    ensures
        w.step matches LiveStep::SelectSampleRate { cursor } ==> live_next(w, Key::Enter).0.sample_rate == (
            if cursor == 0 { 48000u32 } else if cursor == 1 { 96000u32 } else if cursor == 2 { 44100u32 }
            else if cursor == 3 { 88200u32 } else if cursor == 4 { 176400u32 } else { 192000u32 }),
        w.step matches LiveStep::SelectInput { cursor } ==> (cursor < w.n_inputs ==> live_next(w, Key::Enter).0.input == Some(cursor)),
        w.step matches LiveStep::SelectSource { cursor } ==> live_next(w, Key::Enter).0.source == (if cursor == 0 { SourceArg::Plugin } else { SourceArg::Coreaudio }),
{
}

impl LiveWizard {
    /// The wizard on its first screen: plugin source, 96 kHz, no device.
    pub fn new(n_inputs: usize) -> (r: LiveWizard)
        ensures
            r == (LiveWizard {
                step: LiveStep::SelectSource { cursor: 0 },
                source: SourceArg::Plugin,
                sample_rate: 96000,
                input: None,
                n_inputs,
            }),
            live_wf(r),
    {
        assert(live_rates()[1] == 96000);
        LiveWizard {
            step: LiveStep::SelectSource { cursor: 0 },
            source: SourceArg::Plugin,
            sample_rate: 96000,
            input: None,
            n_inputs,
        }
    }

    /// Handles one key press.
    pub fn handle_key(&mut self, k: Key) -> (r: Outcome)
        requires
            live_wf(*old(self)),
        ensures
            (*final(self), r) == live_next(*old(self), k),
            live_wf(*final(self)),
            k == Key::Enter ==> (old(self).step matches LiveStep::SelectSampleRate { cursor } ==> final(self).sample_rate == (
                if cursor == 0 { 48000u32 } else if cursor == 1 { 96000u32 } else if cursor == 2 { 44100u32 }
                else if cursor == 3 { 88200u32 } else if cursor == 4 { 176400u32 } else { 192000u32 })),
            k == Key::Enter ==> (old(self).step matches LiveStep::SelectInput { cursor } ==> (cursor < old(self).n_inputs ==> final(self).input == Some(cursor))),
    {
        match self.step {
            LiveStep::SelectSource { cursor } => match k {
                Key::Up => {
                    self.step = LiveStep::SelectSource { cursor: cursor.saturating_sub(1) };
                    Outcome::Continue
                },
                Key::Down => {
                    self.step = LiveStep::SelectSource { cursor: if cursor < 1 { cursor + 1 } else { 1 } };
                    Outcome::Continue
                },
                Key::Enter => {
                    if cursor == 0 {
                        self.source = SourceArg::Plugin;
                        self.step = LiveStep::Confirm;
                    } else {
                        self.source = SourceArg::Coreaudio;
                        self.step = LiveStep::SelectSampleRate { cursor: 1 };
                    }
                    Outcome::Continue
                },
                Key::Esc => Outcome::Cancelled,
                Key::Char(c) => {
                    if c == 'q' {
                        Outcome::Cancelled
                    } else {
                        Outcome::Continue
                    }
                },
                _ => Outcome::Continue,
            },
            LiveStep::SelectSampleRate { cursor } => match k {
                Key::Up => {
                    self.step = LiveStep::SelectSampleRate { cursor: cursor.saturating_sub(1) };
                    Outcome::Continue
                },
                Key::Down => {
                    self.step = LiveStep::SelectSampleRate { cursor: if cursor < 5 { cursor + 1 } else { 5 } };
                    Outcome::Continue
                },
                Key::Enter => {
                    self.sample_rate = live_rate(cursor);
                    self.step = LiveStep::SelectInput { cursor: 0 };
                    Outcome::Continue
                },
                Key::Esc => Outcome::Cancelled,
                _ => Outcome::Continue,
            },
            LiveStep::SelectInput { cursor } => match k {
                Key::Up => {
                    self.step = LiveStep::SelectInput { cursor: cursor.saturating_sub(1) };
                    Outcome::Continue
                },
                Key::Down => {
                    let last = self.n_inputs.saturating_sub(1);
                    self.step = LiveStep::SelectInput { cursor: if cursor < last { cursor + 1 } else { last } };
                    Outcome::Continue
                },
                Key::Enter => {
                    self.input = if cursor < self.n_inputs { Some(cursor) } else { None };
                    self.step = LiveStep::Confirm;
                    Outcome::Continue
                },
                Key::Esc => Outcome::Cancelled,
                _ => Outcome::Continue,
            },
            LiveStep::Confirm => match k {
                Key::Enter => Outcome::Finished,
                Key::Esc => Outcome::Cancelled,
                _ => Outcome::Continue,
            },
        }
    }

    /// The capture source a finished wizard stands for: the plugin on its
    /// default socket, or the chosen device at the chosen rate on its first
    /// two channels. `input_name` is the name of the device at `self.input`.
    pub fn capture_config(&self, input_name: Option<String>) -> (r: CaptureConfig)
        ensures
            self.source == SourceArg::Plugin ==> (r matches CaptureConfig::Plugin { socket_path } && socket_path@ == DEFAULT_TAP_SOCKET@),
            self.source == SourceArg::TestTone ==> r is TestTone,
            self.source == SourceArg::Coreaudio ==> (r matches CaptureConfig::CoreAudio { input, input_sample_rate, input_channels, left_channel, right_channel }
                && input == input_name
                && input_sample_rate == self.sample_rate
                && input_channels == 2
                && left_channel == 1
                && right_channel == 2),
    {
        match self.source {
            SourceArg::Plugin => CaptureConfig::Plugin { socket_path: String::from_str(DEFAULT_TAP_SOCKET) },
            SourceArg::TestTone => CaptureConfig::TestTone,
            SourceArg::Coreaudio => CaptureConfig::CoreAudio {
                input: input_name,
                input_sample_rate: self.sample_rate,
                input_channels: 2,
                left_channel: 1,
                right_channel: 2,
            },
        }
    }
}

// ───────────────────────── buffers and locks ─────────────────────────

/// Rate of the published stream.
pub const OUT_RATE: u32 = 48000;
/// Stereo frames in one 10 ms frame of the published stream.
pub const OUT_FRAMES_PER_PACKET: usize = 480;

/// Samples of the capture ring buffer: `seconds` (at least one) of stereo
/// audio at the input rate or 48 kHz, whichever is higher.
pub fn ring_capacity(input_rate: u32, seconds: usize) -> (r: usize)
    requires
        (if input_rate > 48000 { input_rate as int } else { 48000 }) * 2 * (if seconds > 1 { seconds as int } else { 1 }) <= usize::MAX,
    ensures
        r == (if input_rate > 48000 { input_rate as int } else { 48000 }) * 2 * (if seconds > 1 { seconds as int } else { 1 }),
{
    let rate = if input_rate > OUT_RATE { input_rate } else { OUT_RATE };
    let secs = if seconds > 1 { seconds } else { 1 };
    assert(rate as int * 2 <= rate as int * 2 * secs as int) by (nonlinear_arith)
        requires
            secs >= 1,
    ;
    rate as usize * 2 * secs
}

/// Samples to wait for before publishing starts: a tenth of a second of stereo input.
pub fn initial_buffer_target(input_rate: u32) -> (r: usize)
    ensures
        r == (input_rate / 10) * 2,
{
    (input_rate / 10) as usize * 2
}

/// Input frames per 10 ms chunk at `input_rate`, as the resampler is sized.
pub fn chunk_frames(input_rate: u32) -> (r: usize)
    requires
        input_rate * 10 <= usize::MAX,
    ensures
        r == input_rate * 10 / 1000,
{
    (input_rate as usize * 10) / 1000
}

/// Milliseconds of stereo audio that `samples` samples at `input_rate` hold.
pub fn pump_buffered_ms(samples: usize, input_rate: u32) -> (r: usize)
    requires
        input_rate > 0,
        (samples / 2) * 1000 <= usize::MAX,
    ensures
        r == (samples / 2) * 1000 / (input_rate as int),
{
    (samples / 2) * 1000 / input_rate as usize
}

/// The per-room lock file's name: "nab-live-", the room, "-", the identity,
/// ".lock", with room and identity made safe for file names.
pub fn runtime_lock_name(room: &str, identity: &str) -> (r: Vec<char>)
    ensures
        r@ == "nab-live-"@ + (if room@.len() == 0 { "default"@ } else { lock_mapped(room@) }) + "-"@
            + (if identity@.len() == 0 { "default"@ } else { lock_mapped(identity@) }) + ".lock"@,
{
    proof {
        reveal_strlit("default");
    }
    let mut out = chars_of("nab-live-");
    let a = safe_lock_component(room);
    append_chars(&mut out, &a);
    append_str(&mut out, "-");
    let b = safe_lock_component(identity);
    append_chars(&mut out, &b);
    append_str(&mut out, ".lock");
    out
}

// ───────────────────────── RTP statistics ─────────────────────────

/// One outbound RTP statistics record of the published track.
pub struct OutboundRtp {
    /// The media kind ("audio", "video", or empty).
    pub kind: String,
    pub packets_sent: u64,
    pub bytes_sent: u64,
    pub header_bytes_sent: u64,
    pub retransmitted_packets_sent: u64,
    pub retransmitted_bytes_sent: u64,
}

/// The sums over the audio records.
#[derive(Debug, Clone, Copy, PartialEq, Eq)]
pub struct RtpTotals {
    pub packets_sent: u64,
    pub bytes_sent: u64,
    pub header_bytes_sent: u64,
    pub retransmitted_packets_sent: u64,
    pub retransmitted_bytes_sent: u64,
}

/// A record counts as audio when its kind is empty or "audio".
pub open spec fn is_audio_kind(k: Seq<char>) -> bool {
    k.len() == 0 || k == "audio"@
}

/// `a + b`, stopping at the largest `u64`.
pub open spec fn sat_add(a: u64, b: u64) -> u64 {
    if a + b > u64::MAX { u64::MAX } else { (a + b) as u64 }
}

/// The saturating sums over the audio records among `s`.
pub open spec fn rtp_sum(s: Seq<OutboundRtp>) -> RtpTotals
    decreases s.len(),
{
    if s.len() == 0 {
        RtpTotals { packets_sent: 0, bytes_sent: 0, header_bytes_sent: 0, retransmitted_packets_sent: 0, retransmitted_bytes_sent: 0 }
    } else {
        let t = rtp_sum(s.drop_last());
        let x = s.last();
        if is_audio_kind(x.kind@) {
            RtpTotals {
                packets_sent: sat_add(t.packets_sent, x.packets_sent),
                bytes_sent: sat_add(t.bytes_sent, x.bytes_sent),
                header_bytes_sent: sat_add(t.header_bytes_sent, x.header_bytes_sent),
                retransmitted_packets_sent: sat_add(t.retransmitted_packets_sent, x.retransmitted_packets_sent),
                retransmitted_bytes_sent: sat_add(t.retransmitted_bytes_sent, x.retransmitted_bytes_sent),
            }
        } else {
            t
        }
    }
}

fn is_audio(k: &str) -> (r: bool)
    ensures
        r == is_audio_kind(k@),
{
    let v = chars_of(k);
    proof {
        reveal_strlit("audio");
    }
    let r = v.len() == 0 || (v.len() == 5 && v[0] == 'a' && v[1] == 'u' && v[2] == 'd' && v[3] == 'i' && v[4] == 'o');
    if v.len() == 5 && v[0] == 'a' && v[1] == 'u' && v[2] == 'd' && v[3] == 'i' && v[4] == 'o' {
        assert(v@ =~= "audio"@);
    }
    proof {
        if v@ == "audio"@ {
            assert(v@[0] == 'a' && v@[1] == 'u' && v@[2] == 'd' && v@[3] == 'i' && v@[4] == 'o');
        }
    }
    r
}

/// The totals over the audio records, or `None` when there is none (the
/// counters shown are then left as they were).
pub fn aggregate_rtp(stats: &Vec<OutboundRtp>) -> (r: Option<RtpTotals>)
    ensures
        (exists|i: int| 0 <= i < stats@.len() && is_audio_kind(#[trigger] stats@[i].kind@)) ==> r == Some(rtp_sum(stats@)),
        !(exists|i: int| 0 <= i < stats@.len() && is_audio_kind(#[trigger] stats@[i].kind@)) ==> r is None,
{
    let mut found = false;
    let mut t = RtpTotals { packets_sent: 0, bytes_sent: 0, header_bytes_sent: 0, retransmitted_packets_sent: 0, retransmitted_bytes_sent: 0 };
    let mut i: usize = 0;
    while i < stats.len()
        invariant
            i <= stats@.len(),
            t == rtp_sum(stats@.take(i as int)),
            found == exists|k: int| 0 <= k < i && is_audio_kind(#[trigger] stats@[k].kind@),
        decreases stats@.len() - i,
    {
        let x = &stats[i];
        proof {
            assert(stats@.take(i + 1).drop_last() =~= stats@.take(i as int));
            assert(stats@.take(i + 1).last() == stats@[i as int]);
        }
        if is_audio(x.kind.as_str()) {
            found = true;
            t = RtpTotals {
                packets_sent: t.packets_sent.saturating_add(x.packets_sent),
                bytes_sent: t.bytes_sent.saturating_add(x.bytes_sent),
                header_bytes_sent: t.header_bytes_sent.saturating_add(x.header_bytes_sent),
                retransmitted_packets_sent: t.retransmitted_packets_sent.saturating_add(x.retransmitted_packets_sent),
                retransmitted_bytes_sent: t.retransmitted_bytes_sent.saturating_add(x.retransmitted_bytes_sent),
            };
        }
        i = i + 1;
    }
    assert(stats@.take(stats@.len() as int) =~= stats@);
    if found { Some(t) } else { None }
}

} // verus!
