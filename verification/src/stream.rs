//! Receiver bookkeeping: sequence numbers, loss concealment and the sizes of
//! the playout buffers.
use vstd::prelude::*;
use crate::packet::{PACKET_SAMPLES, HEADER_BYTES, Header, ParseError, parse_header, parse_header_spec, read_samples, sample_at, spec_packet_bytes, header_bytes, sample_bytes, lemma_header_roundtrip, lemma_samples_roundtrip, lemma_sample_bytes};

verus! {

/// A lost run longer than this many packets is concealed with this many
/// packets of silence only.
pub const MAX_FILL_PACKETS: u32 = 32;

/// Differences at or above this are packets from the past (late or repeated).
pub const STALE_THRESHOLD: u32 = 2147483647;

/// How far `seq` lies ahead of `expected`, counting modulo 2^32.
pub open spec fn seq_distance(seq: u32, expected: u32) -> u32 {
    if seq >= expected {
        (seq - expected) as u32
    } else {
        (seq - expected + 0x1_0000_0000) as u32
    }
}

/// The successor of `seq` modulo 2^32.
pub open spec fn seq_next(seq: u32) -> u32 {
    if seq == u32::MAX {
        0
    } else {
        (seq + 1) as u32
    }
}

/// What to do with an arriving packet.
#[derive(Debug, Clone, Copy, PartialEq, Eq)]
pub enum SeqDecision {
    /// The packet is late or repeated: drop its audio.
    Stale,
    /// Play the packet. `lost` packets went missing before it, and
    /// `fill_samples` samples of silence stand in for them first.
    Accept { lost: u32, fill_samples: usize },
}

/// The silence, in samples, that conceals `lost` missing packets of
/// `channels` channels each.
pub open spec fn fill_for(lost: u32, channels: usize) -> int {
    (if lost < MAX_FILL_PACKETS { lost } else { MAX_FILL_PACKETS }) * 128 * channels
}

/// What a tracker expecting `expected` decides for `seq`.
pub open spec fn decide(expected: Option<u32>, seq: u32, channels: usize) -> SeqDecision {
    match expected {
        None => SeqDecision::Accept { lost: 0, fill_samples: 0 },
        Some(e) => {
            let d = seq_distance(seq, e);
            if d >= STALE_THRESHOLD {
                SeqDecision::Stale
            } else {
                SeqDecision::Accept { lost: d, fill_samples: fill_for(d, channels) as usize }
            }
        },
    }
}

/// The receiver's memory of which sequence number comes next.
#[derive(Debug, Clone, Copy, PartialEq, Eq)]
pub struct SeqTracker {
    pub expected: Option<u32>,
}

impl SeqTracker {
    /// A tracker that has seen no packet yet.
    pub fn new() -> (r: SeqTracker)
        ensures
            r.expected is None,
    {
        SeqTracker { expected: None }
    }

    /// Takes the sequence number of an arriving packet of `channels`
    /// channels and says whether to play it and how much silence to insert
    /// first. A stale packet leaves the tracker as it was; a played one sets
    /// the next expected number to its successor.
    pub fn observe(&mut self, seq: u32, channels: usize) -> (r: SeqDecision)
        requires
            4096 * channels <= usize::MAX,
        ensures
            r == decide(old(self).expected, seq, channels),
            r is Stale ==> *final(self) == *old(self),
            r is Accept ==> final(self).expected == Some(seq_next(seq)),
            r matches SeqDecision::Accept { lost, fill_samples } ==> fill_samples <= 32 * 128
                * channels,
    {
        if let Some(exp) = self.expected {
            let diff = seq.wrapping_sub(exp);
            assert(diff == seq_distance(seq, exp));
            if diff >= STALE_THRESHOLD {
                return SeqDecision::Stale;
            }
            let packets: u32 = if diff < MAX_FILL_PACKETS { diff } else { MAX_FILL_PACKETS };
            assert(packets * 128 * channels <= 4096 * channels) by (nonlinear_arith)
                requires
                    packets <= 32,
            ;
            let fill = packets as usize * PACKET_SAMPLES * channels;
            self.expected = Some(seq.wrapping_add(1));
            SeqDecision::Accept { lost: diff, fill_samples: fill }
        } else {
            self.expected = Some(seq.wrapping_add(1));
            SeqDecision::Accept { lost: 0, fill_samples: 0 }
        }
    }
}

/// A packet carrying exactly the expected number is played with no loss
/// reported and no silence inserted.
pub proof fn lemma_in_order_no_loss(e: u32, channels: usize)
    ensures
        decide(Some(e), e, channels) == (SeqDecision::Accept { lost: 0, fill_samples: 0 }),
{
    assert(fill_for(0, channels) == 0) by (nonlinear_arith);
}

/// A packet `k` numbers ahead of the expected one (with `k` below the stale
/// threshold) is played, reporting exactly `k` lost packets; a packet up to
/// the threshold behind is dropped.
pub proof fn lemma_gap_and_stale(e: u32, k: u32, channels: usize)
    requires
        k < STALE_THRESHOLD,
    ensures
        decide(Some(e), ((e as int + k as int) % 0x1_0000_0000) as u32, channels) matches SeqDecision::Accept { lost, .. } && lost == k,
        k > 0 ==> decide(Some(e), ((e as int - k as int + 0x1_0000_0000) % 0x1_0000_0000) as u32, channels) is Stale,
{
}

/// What becomes of a datagram at a receiver.
pub enum Received {
    /// Not a full packet: ignored.
    WrongSize,
    /// The header was refused.
    Rejected(ParseError),
    /// Late or repeated: its audio is dropped.
    Stale,
    /// Play `samples` after `fill_samples` samples of silence standing in
    /// for the `lost` packets before it.
    Play { lost: u32, fill_samples: usize, samples: Vec<u32> },
}

/// Takes a datagram of `amt` bytes (held at the start of `pkt`) at a
/// receiver expecting `expected_sr` and `channels`: checks its size and
/// header, then its sequence number, and hands out its samples.
pub fn receive_packet(tracker: &mut SeqTracker, pkt: &[u8], amt: usize, expected_sr: u32, channels: u8) -> (r: Received)
    requires
        amt <= pkt@.len(),
        1 <= channels <= 64,
    ensures
        amt != spec_packet_bytes(channels as nat) ==> r is WrongSize && *final(tracker) == *old(tracker),
        amt == spec_packet_bytes(channels as nat) ==> match parse_header_spec(pkt@.take(amt as int), expected_sr, channels) {
            Err(e) => r matches Received::Rejected(e2) && e2 == e && *final(tracker) == *old(tracker),
            Ok(h) => match decide(old(tracker).expected, h.seq, channels as usize) {
                SeqDecision::Stale => r is Stale && *final(tracker) == *old(tracker),
                SeqDecision::Accept { lost, fill_samples } => r matches Received::Play { lost: l, fill_samples: f, samples }
                    && final(tracker).expected == Some(seq_next(h.seq))
                    && l == lost && f == fill_samples
                    && samples@.len() == 128 * channels
                    && forall|i: int| 0 <= i < 128 * channels ==> samples@[i] == #[trigger] sample_at(pkt@, 16, i),
            },
        },
{
    let ch = channels as usize;
    let expected_len = HEADER_BYTES + PACKET_SAMPLES * ch * 4;
    if amt != expected_len {
        return Received::WrongSize;
    }
    let data = &pkt[0..amt];
    match parse_header(data, expected_sr, channels) {
        Err(e) => Received::Rejected(e),
        Ok(h) => {
            match tracker.observe(h.seq, ch) {
                SeqDecision::Stale => Received::Stale,
                SeqDecision::Accept { lost, fill_samples } => {
                    let samples = read_samples(pkt, HEADER_BYTES, PACKET_SAMPLES * ch);
                    Received::Play { lost, fill_samples, samples }
                },
            }
        },
    }
}

/// What a receiver makes of the packet a sender built: a packet encoded for
/// (`sr`, `ch`, `seq`) with a full set of samples has the packet length,
/// passes a receiver expecting `sr` and `ch`, is played with no loss when
/// its number is the expected one (or the first), and carries exactly the
/// samples that were put in.
pub proof fn lemma_sent_packet_plays_back(sr: u32, ch: u8, seq: u32, samples: Seq<u32>, expected: Option<u32>)
    requires
        1 <= ch <= 64,
        samples.len() == 128 * ch,
        expected is None || expected == Some(seq),
    ensures
        (header_bytes(sr, ch, seq) + sample_bytes(samples)).len() == spec_packet_bytes(ch as nat),
        parse_header_spec(header_bytes(sr, ch, seq) + sample_bytes(samples), sr, ch) == Ok::<Header, ParseError>(Header { channels: ch, sample_rate: sr, seq }),
        decide(expected, seq, ch as usize) == (SeqDecision::Accept { lost: 0, fill_samples: 0 }),
        forall|i: int| 0 <= i < samples.len() ==> #[trigger] sample_at(header_bytes(sr, ch, seq) + sample_bytes(samples), 16, i) == samples[i],
{
    let pkt = header_bytes(sr, ch, seq) + sample_bytes(samples);
    lemma_sample_bytes(samples);
    assert(header_bytes(sr, ch, seq).len() == 16);
    assert(pkt.len() == 16 + 4 * samples.len());
    assert(header_bytes(sr, ch, seq) + pkt.skip(16) =~= pkt);
    lemma_header_roundtrip(pkt, sr, ch, seq);
    lemma_samples_roundtrip(pkt, 16, samples);
    assert(pkt.take(16) + sample_bytes(samples) + pkt.skip(16int + 4 * samples.len()) =~= pkt);
    if expected is Some {
        lemma_in_order_no_loss(seq, ch as usize);
    }
}

} // verus!
