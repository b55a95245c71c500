//! Packets from the NAB Tap plugin: a forty-byte header and interleaved
//! 32-bit samples, turned into the stereo stream the sender publishes.
use vstd::prelude::*;
use crate::le::{le_u16, le_u32, le_u64, read_u16, read_u32, read_u64};
use crate::packet::sample_at;

verus! {

/// Length of the plugin packet header.
pub const TAP_HEADER_BYTES: usize = 40;
/// Largest plugin packet.
pub const TAP_MAX_PACKET_BYTES: usize = 65536;
/// Samples the conversion scratch buffer holds.
pub const TAP_SCRATCH_SAMPLES: usize = 16384;
/// The only plugin protocol version.
pub const TAP_VERSION: u32 = 1;

/// The magic bytes "NABTAP1\0".
pub open spec fn tap_magic() -> Seq<u8> {
    seq![78u8, 65u8, 66u8, 84u8, 65u8, 80u8, 49u8, 0u8]
}

/// A plugin packet: its header fields and its sample bytes.
pub struct TapPacket<'a> {
    pub sample_rate: u32,
    pub channels: usize,
    pub frames: usize,
    pub seq: u64,
    pub dropped_frames: u64,
    pub payload: &'a [u8],
}

/// Why a plugin packet is ignored.
#[derive(Debug, Clone, Copy, PartialEq, Eq)]
pub enum TapError {
    TooShort,
    BadMagic,
    UnsupportedVersion(u32),
    InvalidSampleRate(u32),
    InvalidChannelCount(usize),
    EmptyPacket,
    ShortPayload { got: usize, need: usize },
}

/// The header fields of a plugin packet as read from `b`.
pub open spec fn tap_version(b: Seq<u8>) -> u32 { le_u32(b.subrange(8, 12)) }
pub open spec fn tap_rate(b: Seq<u8>) -> u32 { le_u32(b.subrange(12, 16)) }
pub open spec fn tap_channels(b: Seq<u8>) -> usize { le_u16(b.subrange(16, 18)) as usize }
pub open spec fn tap_frames(b: Seq<u8>) -> usize { le_u16(b.subrange(18, 20)) as usize }
pub open spec fn tap_seq(b: Seq<u8>) -> u64 { le_u64(b.subrange(20, 28)) }
pub open spec fn tap_dropped(b: Seq<u8>) -> u64 { le_u64(b.subrange(28, 36)) }

/// Bytes a packet with this header must hold.
pub open spec fn tap_needed(b: Seq<u8>) -> int {
    40 + tap_frames(b) * tap_channels(b) * 4
}

/// What checking a plugin packet gives: the error, or the number of bytes
/// it uses.
pub open spec fn tap_check(b: Seq<u8>) -> Result<int, TapError> {
    if b.len() < 40 {
        Err(TapError::TooShort)
    } else if b.take(8) != tap_magic() {
        Err(TapError::BadMagic)
    } else if tap_version(b) != TAP_VERSION {
        Err(TapError::UnsupportedVersion(tap_version(b)))
    } else if !(8000 <= tap_rate(b) <= 384000) {
        Err(TapError::InvalidSampleRate(tap_rate(b)))
    } else if tap_channels(b) == 0 || tap_channels(b) > 64 {
        Err(TapError::InvalidChannelCount(tap_channels(b)))
    } else if tap_frames(b) == 0 {
        Err(TapError::EmptyPacket)
    } else if b.len() < tap_needed(b) {
        Err(TapError::ShortPayload { got: b.len() as usize, need: tap_needed(b) as usize })
    } else {
        Ok(tap_needed(b))
    }
}

/// Parses a plugin packet, checking magic, version, rate, channel count,
/// frame count and length in that order.
pub fn parse_tap_packet<'a>(buf: &'a [u8]) -> (r: Result<TapPacket<'a>, TapError>)
    ensures
        match tap_check(buf@) {
            Err(e) => r matches Err(e2) && e2 == e,
            Ok(needed) => r matches Ok(p) && p.sample_rate == tap_rate(buf@) && p.channels
                == tap_channels(buf@) && p.frames == tap_frames(buf@) && p.seq == tap_seq(buf@)
                && p.dropped_frames == tap_dropped(buf@) && p.payload@ == buf@.subrange(40, needed),
        },
{
    if buf.len() < TAP_HEADER_BYTES {
        return Err(TapError::TooShort);
    }
    let magic: [u8; 8] = [78, 65, 66, 84, 65, 80, 49, 0];
    let mut i: usize = 0;
    while i < 8
        invariant
            i <= 8,
            buf@.len() >= 40,
            magic@ == tap_magic(),
            forall|k: int| 0 <= k < i ==> buf@[k] == tap_magic()[k],
        decreases 8 - i,
    {
        if buf[i] != magic[i] {
            assert(buf@.take(8)[i as int] != tap_magic()[i as int]);
            return Err(TapError::BadMagic);
        }
        i = i + 1;
    }
    assert(buf@.take(8) =~= tap_magic());
    let version = read_u32(&buf[8..12]);
    if version != TAP_VERSION {
        return Err(TapError::UnsupportedVersion(version));
    }
    let sample_rate = read_u32(&buf[12..16]);
    let channels = read_u16(&buf[16..18]) as usize;
    let frames = read_u16(&buf[18..20]) as usize;
    let seq = read_u64(&buf[20..28]);
    let dropped_frames = read_u64(&buf[28..36]);
    if !(8000 <= sample_rate && sample_rate <= 384000) {
        return Err(TapError::InvalidSampleRate(sample_rate));
    }
    if channels == 0 || channels > 64 {
        return Err(TapError::InvalidChannelCount(channels));
    }
    if frames == 0 {
        return Err(TapError::EmptyPacket);
    }
    assert(frames * channels <= 65535 * 64) by (nonlinear_arith)
        requires
            frames <= 65535,
            channels <= 64,
    ;
    let needed = TAP_HEADER_BYTES + frames * channels * 4;
    if buf.len() < needed {
        return Err(TapError::ShortPayload { got: buf.len(), need: needed });
    }
    Ok(TapPacket { sample_rate, channels, frames, seq, dropped_frames, payload: &buf[TAP_HEADER_BYTES..needed] })
}

/// The stereo samples of a packet's payload: for every frame, its first
/// channel as left and its second as right (a mono packet's one channel as both).
pub open spec fn stereo_of(payload: Seq<u8>, channels: int, frames: int) -> Seq<u32> {
    Seq::new(
        (2 * frames) as nat,
        |i: int|
            if i % 2 == 0 || channels == 1 {
                sample_at(payload, 0, (i / 2) * channels)
            } else {
                sample_at(payload, 0, (i / 2) * channels + 1)
            },
    )
}

/// A stereo packet passes through unchanged: its samples come out in the
/// order they came in.
pub proof fn lemma_stereo_passes_through(payload: Seq<u8>, frames: int)
    requires
        frames >= 0,
    ensures
        stereo_of(payload, 2, frames).len() == 2 * frames,
        forall|i: int| 0 <= i < 2 * frames ==> #[trigger] stereo_of(payload, 2, frames)[i] == sample_at(payload, 0, i),
{
    assert forall|i: int| 0 <= i < 2 * frames implies #[trigger] stereo_of(payload, 2, frames)[i] == sample_at(payload, 0, i) by {
        if i % 2 == 0 {
            assert((i / 2) * 2 == i) by (nonlinear_arith)
                requires
                    i % 2 == 0,
            ;
        } else {
            assert((i / 2) * 2 + 1 == i) by (nonlinear_arith)
                requires
                    i % 2 != 0,
            ;
        }
    }
}

/// Converts the packet's frames to interleaved stereo samples.
pub fn tap_to_stereo(p: &TapPacket) -> (r: Vec<u32>)
    requires
        1 <= p.channels <= 64,
        p.frames <= 65535,
        p.payload@.len() == p.frames * p.channels * 4,
    ensures
        r@ == stereo_of(p.payload@, p.channels as int, p.frames as int),
{
    let mut out: Vec<u32> = Vec::new();
    let mut f: usize = 0;
    while f < p.frames
        invariant
            f <= p.frames,
            1 <= p.channels <= 64,
            p.frames <= 65535,
            p.payload@.len() == p.frames * p.channels * 4,
            out@ =~= stereo_of(p.payload@, p.channels as int, p.frames as int).take(2 * f),
        decreases p.frames - f,
    {
        assert((f + 1) * p.channels * 4 <= p.frames * p.channels * 4) by (nonlinear_arith)
            requires
                f < p.frames,
        ;
        assert(f * p.channels * 4 + p.channels * 4 == (f + 1) * p.channels * 4) by (nonlinear_arith);
        assert(p.frames * p.channels * 4 <= 65535 * 64 * 4) by (nonlinear_arith)
            requires
                p.frames <= 65535,
                p.channels <= 64,
        ;
        let base = f * p.channels * 4;
        let left = read_u32(&p.payload[base..base + 4]);
        let right = if p.channels > 1 {
            read_u32(&p.payload[base + 4..base + 8])
        } else {
            left
        };
        proof {
            let s = stereo_of(p.payload@, p.channels as int, p.frames as int);
            assert((2 * f) / 2 == f);
            assert((2 * f + 1) / 2 == f);
            assert(p.payload@.subrange(base as int, base + 4) =~= p.payload@.subrange(0 + 4 * (f * p.channels), 0 + 4 * (f * p.channels) + 4));
            assert(s[2 * f as int] == left);
            if p.channels > 1 {
                assert(p.payload@.subrange(base + 4, base + 8) =~= p.payload@.subrange(0 + 4 * (f * p.channels + 1), 0 + 4 * (f * p.channels + 1) + 4));
            }
            assert(s[2 * f + 1] == right);
        }
        out.push(left);
        out.push(right);
        f = f + 1;
    }
    out
}

/// What becomes of a well-formed plugin packet at the capture ring buffer.
#[derive(Debug, Clone, Copy, PartialEq, Eq)]
pub enum TapAdmission {
    /// The packet holds more frames than the scratch buffer: drop it, as an
    /// overflow and a capture error.
    ScratchTooSmall,
    /// The ring buffer lacks room for the whole packet: drop it as an overflow.
    RingFull,
    /// Convert and push the packet.
    Push,
}

/// Decides whether `frames` stereo frames can be converted in a scratch
/// buffer of `scratch_len` samples and pushed into a ring with `free_len`
/// free samples.
pub fn tap_admission(frames: usize, scratch_len: usize, free_len: usize) -> (r: TapAdmission)
    requires
        frames * 2 <= usize::MAX,
    ensures
        r == (if scratch_len < frames * 2 {
            TapAdmission::ScratchTooSmall
        } else if free_len < frames * 2 {
            TapAdmission::RingFull
        } else {
            TapAdmission::Push
        }),
{
    let needed = frames * 2;
    if scratch_len < needed {
        TapAdmission::ScratchTooSmall
    } else if free_len < needed {
        TapAdmission::RingFull
    } else {
        TapAdmission::Push
    }
}

/// Stereo frames a push of `pushed` out of `offered` samples captured and dropped.
pub fn push_accounting(offered: usize, pushed: usize) -> (r: (u64, u64))
    requires
        pushed <= offered,
    ensures
        r == ((pushed / 2) as u64, ((offered - pushed) / 2) as u64),
{
    ((pushed / 2) as u64, ((offered - pushed) / 2) as u64)
}

/// The receiver's memory of the plugin's next sequence number.
#[derive(Debug, Clone, Copy, PartialEq, Eq)]
pub struct TapSequence {
    pub expected: Option<u64>,
}

impl TapSequence {
    /// Nothing seen yet.
    pub fn new() -> (r: TapSequence)
        ensures
            r.expected is None,
    {
        TapSequence { expected: None }
    }

    /// Notes a packet's sequence number; true when it is not the one
    /// expected (a gap). The next one expected is its successor.
    pub fn observe(&mut self, seq: u64) -> (gap: bool)
        ensures
            gap == (old(self).expected matches Some(e) && seq != e),
            final(self).expected == Some(if seq == u64::MAX { 0u64 } else { (seq + 1) as u64 }),
    {
        let gap = match self.expected {
            Some(e) => seq != e,
            None => false,
        };
        self.expected = Some(seq.wrapping_add(1));
        gap
    }
}

} // verus!
