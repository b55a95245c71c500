//! The UDP audio packet: a sixteen-byte header followed by interleaved
//! 32-bit little-endian samples.
use vstd::prelude::*;
use crate::le::{le_u32, le_bytes_u32, lemma_le_u32_roundtrip, read_u32, write_u32};

verus! {

/// The four magic bytes "NAB1" that open every header.
pub const MAGIC: [u8; 4] = [78u8, 65u8, 66u8, 49u8];

/// The only protocol version this library speaks.
pub const PROTOCOL_VERSION: u8 = 1;

/// Length of the header in bytes.
pub const HEADER_BYTES: usize = 16;

/// Sample frames carried by one packet.
pub const PACKET_SAMPLES: usize = 128;

/// The magic bytes as a sequence.
pub open spec fn magic_seq() -> Seq<u8> {
    seq![78u8, 65u8, 66u8, 49u8]
}

/// Length in bytes of a packet that carries `channels` interleaved channels.
pub open spec fn spec_packet_bytes(channels: nat) -> nat {
    16 + 128 * channels * 4
}

/// Length in bytes of a packet that carries `channels` interleaved channels:
/// the header plus `PACKET_SAMPLES * channels` four-byte samples.
pub fn packet_bytes(channels: usize) -> (r: usize)
    requires
        16 + 512 * channels <= usize::MAX,
    ensures
        r == spec_packet_bytes(channels as nat),
{
    HEADER_BYTES + PACKET_SAMPLES * channels * 4
}

/// The fields a header carries.
#[derive(Debug, Clone, Copy, PartialEq, Eq)]
pub struct Header {
    pub channels: u8,
    pub sample_rate: u32,
    pub seq: u32,
}

/// Why a buffer is not a header this receiver accepts.
#[derive(Debug, Clone, Copy, PartialEq, Eq)]
#[allow(inconsistent_fields)]
pub enum ParseError {
    BadMagic,
    UnsupportedVersion(u8),
    SampleRateMismatch { got: u32, expected: u32 },
    ChannelsMismatch { got: u8, expected: u8 },
}

/// The sixteen header bytes for the given fields: magic, version, channels,
/// sample rate, two zero bytes, sequence number.
pub open spec fn header_bytes(sr: u32, channels: u8, seq: u32) -> Seq<u8> {
    magic_seq() + seq![PROTOCOL_VERSION, channels] + le_bytes_u32(sr) + seq![0u8, 0u8]
        + le_bytes_u32(seq)
}

/// What parsing `b` against the expected rate and channel count gives: the
/// checks run in the order length and magic, version, channels, sample rate.
pub open spec fn parse_header_spec(b: Seq<u8>, expected_sr: u32, expected_ch: u8) -> Result<
    Header,
    ParseError,
> {
    if b.len() < 16 || b.take(4) != magic_seq() {
        Err(ParseError::BadMagic)
    } else if b[4] != PROTOCOL_VERSION {
        Err(ParseError::UnsupportedVersion(b[4]))
    } else if b[5] != expected_ch {
        Err(ParseError::ChannelsMismatch { got: b[5], expected: expected_ch })
    } else if le_u32(b.subrange(6, 10)) != expected_sr {
        Err(ParseError::SampleRateMismatch { got: le_u32(b.subrange(6, 10)), expected: expected_sr })
    } else {
        Ok(Header { channels: b[5], sample_rate: le_u32(b.subrange(6, 10)), seq: le_u32(b.subrange(12, 16)) })
    }
}

/// Writes `n` little-endian at byte `at` of `buf`.
pub(crate) fn put_u32(buf: &mut [u8], at: usize, n: u32)
    requires
        at + 4 <= old(buf)@.len(),
    ensures
        final(buf)@ == old(buf)@.take(at as int) + le_bytes_u32(n) + old(buf)@.skip(at + 4),
{
    let (head, tail) = buf.split_at_mut(at);
    write_u32(tail, n);
    assert(final(buf)@ =~= old(buf)@.take(at as int) + le_bytes_u32(n) + old(buf)@.skip(at + 4));
}

/// Writes the header for (`sr`, `channels`, `seq`) over the first sixteen
/// bytes of `buf`; the bytes after them stay as they were.
pub fn write_header(buf: &mut [u8], sr: u32, channels: u8, seq: u32)
    requires
        old(buf)@.len() >= HEADER_BYTES,
    ensures
        final(buf)@ == header_bytes(sr, channels, seq) + old(buf)@.skip(16),
{
    buf[0] = MAGIC[0];
    buf[1] = MAGIC[1];
    buf[2] = MAGIC[2];
    buf[3] = MAGIC[3];
    buf[4] = PROTOCOL_VERSION;
    buf[5] = channels;
    put_u32(buf, 6, sr);
    buf[10] = 0;
    buf[11] = 0;
    put_u32(buf, 12, seq);
    assert(final(buf)@ =~= header_bytes(sr, channels, seq) + old(buf)@.skip(16));
}

/// Parses the header at the start of `buf` and checks it against the
/// expected sample rate and channel count.
pub fn parse_header(buf: &[u8], expected_sr: u32, expected_ch: u8) -> (r: Result<Header, ParseError>)
    ensures
        r == parse_header_spec(buf@, expected_sr, expected_ch),
{
    if buf.len() < HEADER_BYTES {
        return Err(ParseError::BadMagic);
    }
    if buf[0] != MAGIC[0] || buf[1] != MAGIC[1] || buf[2] != MAGIC[2] || buf[3] != MAGIC[3] {
        assert(buf@.take(4) != magic_seq()) by {
            if buf@.take(4) == magic_seq() {
                assert(buf@.take(4)[0] == buf@[0]);
                assert(buf@.take(4)[1] == buf@[1]);
                assert(buf@.take(4)[2] == buf@[2]);
                assert(buf@.take(4)[3] == buf@[3]);
            }
        }
        return Err(ParseError::BadMagic);
    }
    assert(buf@.take(4) =~= magic_seq());
    let version = buf[4];
    if version != PROTOCOL_VERSION {
        return Err(ParseError::UnsupportedVersion(version));
    }
    let channels = buf[5];
    if channels != expected_ch {
        return Err(ParseError::ChannelsMismatch { got: channels, expected: expected_ch });
    }
    let sample_rate = read_u32(&buf[6..10]);
    if sample_rate != expected_sr {
        return Err(ParseError::SampleRateMismatch { got: sample_rate, expected: expected_sr });
    }
    let seq = read_u32(&buf[12..16]);
    Ok(Header { channels, sample_rate, seq })
}

/// Round trip: a header written for (`sr`, `ch`, `seq`) parses back, against
/// that rate and channel count, to exactly those fields.
pub proof fn lemma_header_roundtrip(buf: Seq<u8>, sr: u32, ch: u8, seq: u32)
    requires
        buf.len() >= 16,
    ensures
        parse_header_spec(header_bytes(sr, ch, seq) + buf.skip(16), sr, ch) == Ok::<Header, ParseError>(
            Header { channels: ch, sample_rate: sr, seq },
        ),
{
    let b = header_bytes(sr, ch, seq) + buf.skip(16);
    lemma_le_u32_roundtrip(sr);
    lemma_le_u32_roundtrip(seq);
    assert(b.take(4) =~= magic_seq());
    assert(b.subrange(6, 10) =~= le_bytes_u32(sr));
    assert(b.subrange(12, 16) =~= le_bytes_u32(seq));
}

/// A header checked against one rate or channel count is refused against
/// any other: parsing accepts only what matches both expectations.
pub proof fn lemma_parse_accepts_only_expected(b: Seq<u8>, expected_sr: u32, expected_ch: u8)
    ensures
        parse_header_spec(b, expected_sr, expected_ch) matches Ok(h) ==> h.sample_rate
            == expected_sr && h.channels == expected_ch && b.len() >= 16,
{
}

/// The bytes of a run of samples, each four bytes little-endian, in order.
pub open spec fn sample_bytes(s: Seq<u32>) -> Seq<u8>
    decreases s.len(),
{
    if s.len() == 0 {
        Seq::empty()
    } else {
        sample_bytes(s.drop_last()) + le_bytes_u32(s.last())
    }
}

/// The run of samples is four bytes per sample, and sample `i` sits at
/// bytes `4i .. 4i + 4`.
pub proof fn lemma_sample_bytes(s: Seq<u32>)
    ensures
        sample_bytes(s).len() == 4 * s.len(),
        forall|i: int|
            0 <= i < s.len() ==> #[trigger] sample_bytes(s).subrange(4 * i, 4 * i + 4)
                == le_bytes_u32(s[i]),
    decreases s.len(),
{
    if s.len() > 0 {
        let p = s.drop_last();
        lemma_sample_bytes(p);
        assert forall|i: int| 0 <= i < s.len() implies #[trigger] sample_bytes(s).subrange(
            4 * i,
            4 * i + 4,
        ) == le_bytes_u32(s[i]) by {
            if i < s.len() - 1 {
                assert(sample_bytes(s).subrange(4 * i, 4 * i + 4) =~= sample_bytes(p).subrange(
                    4 * i,
                    4 * i + 4,
                ));
                assert(p[i] == s[i]);
            } else {
                assert(sample_bytes(s).subrange(4 * i, 4 * i + 4) =~= le_bytes_u32(s.last()));
            }
        }
    }
}

/// Writes `samples`, four bytes each, starting at byte `at` of `buf`; every
/// other byte stays as it was.
pub fn write_samples(buf: &mut [u8], at: usize, samples: &[u32])
    requires
        at + 4 * samples@.len() <= old(buf)@.len(),
    ensures
        final(buf)@ == old(buf)@.take(at as int) + sample_bytes(samples@) + old(buf)@.skip(
            at + 4 * samples@.len(),
        ),
{
    let n = samples.len();
    let len = buf.len();
    let mut i: usize = 0;
    while i < n
        invariant
            n == samples@.len(),
            len == old(buf)@.len(),
            i <= n,
            at + 4 * n <= old(buf)@.len(),
            buf@.len() == old(buf)@.len(),
            buf@ == old(buf)@.take(at as int) + sample_bytes(samples@.take(i as int)) + old(buf)@.skip(
                at + 4 * i,
            ),
        decreases n - i,
    {
        proof {
            lemma_sample_bytes(samples@.take(i as int));
        }
        put_u32(buf, at + 4 * i, samples[i]);
        proof {
            let t = samples@.take(i + 1);
            assert(t.drop_last() =~= samples@.take(i as int));
            assert(t.last() == samples@[i as int]);
            lemma_sample_bytes(t);
            assert(buf@ =~= old(buf)@.take(at as int) + sample_bytes(t) + old(buf)@.skip(
                at + 4 * (i + 1),
            ));
        }
        i = i + 1;
    }
    assert(samples@.take(n as int) =~= samples@);
}

/// The sample at index `i` of the run that starts at byte `at` of `b`.
pub open spec fn sample_at(b: Seq<u8>, at: int, i: int) -> u32 {
    le_u32(b.subrange(at + 4 * i, at + 4 * i + 4))
}

/// Reads `count` samples of four bytes each, starting at byte `at` of `buf`.
pub fn read_samples(buf: &[u8], at: usize, count: usize) -> (r: Vec<u32>)
    requires
        at + 4 * count <= buf@.len(),
    ensures
        r@.len() == count,
        forall|i: int| 0 <= i < count ==> r@[i] == #[trigger] sample_at(buf@, at as int, i),
{
    let mut out: Vec<u32> = Vec::new();
    let len = buf.len();
    let mut i: usize = 0;
    while i < count
        invariant
            len == buf@.len(),
            i <= count,
            at + 4 * count <= buf@.len(),
            out@.len() == i,
            forall|k: int| 0 <= k < i ==> out@[k] == #[trigger] sample_at(buf@, at as int, k),
        decreases count - i,
    {
        let start = at + 4 * i;
        let v = read_u32(&buf[start..start + 4]);
        out.push(v);
        i = i + 1;
    }
    out
}

/// Round trip: samples written at byte `at` read back unchanged.
pub proof fn lemma_samples_roundtrip(old_buf: Seq<u8>, at: int, s: Seq<u32>)
    requires
        0 <= at,
        at + 4 * s.len() <= old_buf.len(),
    ensures
        forall|i: int|
            0 <= i < s.len() ==> #[trigger] sample_at(
                old_buf.take(at) + sample_bytes(s) + old_buf.skip(at + 4 * s.len()),
                at,
                i,
            ) == s[i],
{
    lemma_sample_bytes(s);
    let b = old_buf.take(at) + sample_bytes(s) + old_buf.skip(at + 4 * s.len());
    assert forall|i: int| 0 <= i < s.len() implies #[trigger] sample_at(b, at, i) == s[i] by {
        assert(b.subrange(at + 4 * i, at + 4 * i + 4) =~= sample_bytes(s).subrange(4 * i, 4 * i + 4));
        lemma_le_u32_roundtrip(s[i]);
    }
}

/// A whole packet: the header for (`sr`, `channels`, `seq`) and then the samples.
pub fn encode_packet(sr: u32, channels: u8, seq: u32, samples: &[u32]) -> (r: Vec<u8>)
    requires
        16 + 4 * samples@.len() <= usize::MAX,
    ensures
        r@ == header_bytes(sr, channels, seq) + sample_bytes(samples@),
{
    let len = HEADER_BYTES + 4 * samples.len();
    let mut v: Vec<u8> = vec![0u8; len];
    write_header(v.as_mut_slice(), sr, channels, seq);
    write_samples(v.as_mut_slice(), HEADER_BYTES, samples);
    proof {
        lemma_sample_bytes(samples@);
    }
    assert(v@ =~= header_bytes(sr, channels, seq) + sample_bytes(samples@));
    v
}

} // verus!
