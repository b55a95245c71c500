//! Jitter-buffer targets, buffer levels and the play/rebuffer switch.
use vstd::prelude::*;

verus! {

/// Channels of the bidirectional bridge.
pub const BRIDGE_CHANNELS: usize = 2;

/// Bytes per stereo packet of the bidirectional bridge (header and samples).
pub const BRIDGE_PACKET_BYTES: u64 = 1040;

/// Smallest jitter-buffer target, in milliseconds, that the `-` key reaches.
pub const JITTER_MIN_MS: usize = 50;

/// Largest jitter-buffer target of the bidirectional bridge.
pub const BRIDGE_JITTER_MAX_MS: usize = 500;

/// Step of the bidirectional bridge's `+`/`-` keys.
pub const BRIDGE_JITTER_STEP_MS: usize = 50;

/// Largest jitter target of the drift-correcting receiver.
pub const RECEIVER_JITTER_MAX_MS: usize = 2000;

/// Step of the drift-correcting receiver's `+`/`-` keys.
pub const RECEIVER_JITTER_STEP_MS: usize = 50;

/// The smaller of two integers.
pub open spec fn min_int(a: int, b: int) -> int {
    if a <= b { a } else { b }
}

/// The larger of two integers.
pub open spec fn max_int(a: int, b: int) -> int {
    if a >= b { a } else { b }
}

/// `cur` raised by `step`, but to no more than `max`.
pub open spec fn raised(cur: int, step: int, max: int) -> int {
    min_int(cur + step, max)
}

/// `cur` lowered by `step` (stopping at zero), but to no less than `min`.
pub open spec fn lowered(cur: int, step: int, min: int) -> int {
    max_int(if cur >= step { cur - step } else { 0 }, min)
}

/// The bridge's `+` key: the target grows by 50 ms, up to 500 ms.
pub fn bridge_jitter_up(cur: usize) -> (r: usize)
    requires
        cur + BRIDGE_JITTER_STEP_MS <= usize::MAX,
    ensures
        r == raised(cur as int, 50, 500),
{
    let v = cur + BRIDGE_JITTER_STEP_MS;
    if v < BRIDGE_JITTER_MAX_MS { v } else { BRIDGE_JITTER_MAX_MS }
}

/// The bridge's `-` key: the target shrinks by 50 ms, down to 50 ms.
pub fn bridge_jitter_down(cur: usize) -> (r: usize)
    ensures
        r == lowered(cur as int, 50, 50),
{
    let v = cur.saturating_sub(BRIDGE_JITTER_STEP_MS);
    if v > JITTER_MIN_MS { v } else { JITTER_MIN_MS }
}

/// The receiver's `+` key: the target grows by 50 ms, up to 2000 ms.
pub fn receiver_jitter_up(cur: usize) -> (r: usize)
    requires
        cur + RECEIVER_JITTER_STEP_MS <= usize::MAX,
    ensures
        r == raised(cur as int, 50, 2000),
{
    let v = cur + RECEIVER_JITTER_STEP_MS;
    if v < RECEIVER_JITTER_MAX_MS { v } else { RECEIVER_JITTER_MAX_MS }
}

/// The receiver's `-` key: the target shrinks by 50 ms, down to 50 ms.
pub fn receiver_jitter_down(cur: usize) -> (r: usize)
    ensures
        r == lowered(cur as int, 50, 50),
{
    let v = cur.saturating_sub(RECEIVER_JITTER_STEP_MS);
    if v > JITTER_MIN_MS { v } else { JITTER_MIN_MS }
}

/// Within its range the target stays in range under either key, and one
/// step up followed by one step down gives the target back.
pub proof fn lemma_jitter_keys(cur: int, step: int, min: int, max: int)
    requires
        0 < step,
        step <= min <= cur <= max,
    ensures
        min <= raised(cur, step, max) <= max,
        min <= lowered(cur, step, min) <= max,
        cur + step <= max ==> lowered(raised(cur, step, max), step, min) == cur,
{
}

/// Milliseconds of audio that `samples` interleaved samples hold at
/// `rate` frames per second and `channels` channels (a zero divisor counts as one).
pub fn buffered_ms(samples: usize, rate: usize, channels: usize) -> (r: usize)
    requires
        samples * 1000 <= usize::MAX,
        rate * channels <= usize::MAX,
    ensures
        r == samples * 1000 / max_int(rate * channels, 1),
{
    let d = rate * channels;
    let d = if d > 1 { d } else { 1 };
    samples * 1000 / d
}

/// `part` as a whole-number percentage of `whole` (a zero whole counts as one).
pub fn percent_of(part: usize, whole: usize) -> (r: usize)
    requires
        part * 100 <= usize::MAX,
    ensures
        r == part * 100 / max_int(whole as int, 1),
{
    let d = if whole > 1 { whole } else { 1 };
    part * 100 / d
}

/// Samples that the bridge's jitter target of `jitter_ms` stands for at
/// `rate` frames per second, two channels.
pub fn bridge_jitter_samples(jitter_ms: usize, rate: usize) -> (r: usize)
    requires
        jitter_ms * rate <= usize::MAX,
    ensures
        r == jitter_ms * rate / 1000 * 2,
{
    let ms_frames = jitter_ms * rate / 1000;
    assert(ms_frames * 2 <= usize::MAX) by (nonlinear_arith)
        requires
            ms_frames == jitter_ms * rate / 1000,
            jitter_ms * rate <= usize::MAX,
    ;
    ms_frames * BRIDGE_CHANNELS
}

/// Playback buffer level at which the receiver stops rebuffering: one and a
/// half times the jitter target.
pub fn release_threshold(jitter_ms: usize, rate: usize, channels: usize) -> (r: usize)
    requires
        jitter_ms * rate <= usize::MAX,
        jitter_ms * rate * channels <= usize::MAX,
    ensures
        r == (jitter_ms * rate * channels / 1000) * 3 / 2,
{
    let target = jitter_ms * rate * channels / 1000;
    assert(target * 3 <= usize::MAX) by (nonlinear_arith)
        requires
            target == jitter_ms * rate * channels / 1000,
            jitter_ms * rate * channels <= usize::MAX,
    ;
    target * 3 / 2
}

/// Kilobits per second sent in the last second by the bridge, from the
/// packet counter now and one second ago.
pub fn bridge_bandwidth_kbps(current: u64, last: u64) -> (r: u64)
    requires
        (current - last) * 8320 <= u64::MAX,
    ensures
        r == (if current >= last { current - last } else { 0 }) * 1040 * 8 / 1000,
{
    current.saturating_sub(last) * BRIDGE_PACKET_BYTES * 8 / 1000
}

/// Whether playback goes on rebuffering after an output callback that was
/// playing took `popped` samples from the buffer: an empty read starts
/// rebuffering.
pub fn rebuffer_after_read(popped: usize) -> (r: bool)
    ensures
        r == (popped == 0),
{
    popped == 0
}

/// Whether a rebuffering output may start playing: the buffer holds at least
/// `needed` samples.
pub fn ready_to_play(rebuffering: bool, buffered: usize, needed: usize) -> (r: bool)
    ensures
        r == (rebuffering && buffered >= needed),
{
    rebuffering && buffered >= needed
}

} // verus!
