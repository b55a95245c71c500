//! The bidirectional bridge's shared counters and mode rules.
use vstd::prelude::*;
use crate::wizard::RunMode;

verus! {

/// The values the bridge's threads share: counters, buffer levels, the
/// jitter target and whether to keep running.
#[derive(Debug, Clone, Copy, PartialEq, Eq)]
pub struct SharedState {
    pub packets_sent: u64,
    pub send_errors: u64,
    pub packet_loss: u64,
    pub send_buffer_pct: usize,
    pub recv_buffer_pct: usize,
    pub jitter_buffer_ms: usize,
    pub recv_buffer_ms: usize,
    pub bandwidth_kbps: usize,
    pub running: bool,
}

impl SharedState {
    /// Fresh counters, a 100 ms jitter target, running.
    pub fn new() -> (r: SharedState)
        ensures
            r == (SharedState {
                packets_sent: 0,
                send_errors: 0,
                packet_loss: 0,
                send_buffer_pct: 0,
                recv_buffer_pct: 0,
                jitter_buffer_ms: 100,
                recv_buffer_ms: 0,
                bandwidth_kbps: 0,
                running: true,
            }),
    {
        SharedState {
            packets_sent: 0,
            send_errors: 0,
            packet_loss: 0,
            send_buffer_pct: 0,
            recv_buffer_pct: 0,
            jitter_buffer_ms: 100,
            recv_buffer_ms: 0,
            bandwidth_kbps: 0,
            running: true,
        }
    }
}

/// The modes that send audio: send and duplex.
pub open spec fn sends(mode: RunMode) -> bool {
    mode == RunMode::Send || mode == RunMode::Duplex
}

/// The modes that receive audio: receive and duplex.
pub open spec fn receives(mode: RunMode) -> bool {
    mode == RunMode::Recv || mode == RunMode::Duplex
}

/// Whether the mode sends audio.
pub fn is_send(mode: RunMode) -> (r: bool)
    ensures
        r == sends(mode),
{
    match mode {
        RunMode::Send | RunMode::Duplex => true,
        RunMode::Recv => false,
    }
}

/// Whether the mode receives audio.
pub fn is_recv(mode: RunMode) -> (r: bool)
    ensures
        r == receives(mode),
{
    match mode {
        RunMode::Recv | RunMode::Duplex => true,
        RunMode::Send => false,
    }
}

/// Every mode starts at least one of the sender and the receiver, only
/// duplex starts both, and a setup that does not send receives.
pub proof fn lemma_modes(mode: RunMode)
    ensures
        sends(mode) || receives(mode),
        (sends(mode) && receives(mode)) <==> mode == RunMode::Duplex,
        !sends(mode) <==> mode == RunMode::Recv,
{
}

} // verus!
