//! Keys of the running screens: the double-press quit and the jitter and
//! gain controls.
use vstd::prelude::*;
use crate::wizard::Key;
use crate::playout::{bridge_jitter_up, bridge_jitter_down, receiver_jitter_up, receiver_jitter_down, raised, lowered};

verus! {

/// A quit request that has to be confirmed by a second press within a second.
#[derive(Debug, Clone, Copy, PartialEq, Eq)]
pub struct QuitGuard {
    pub pending: bool,
    pub since_ms: u64,
}

/// The guard after time `now_ms`: a first press older than a second is forgotten.
pub open spec fn expire_spec(g: QuitGuard, now_ms: u64) -> QuitGuard {
    if g.pending && now_ms > g.since_ms && now_ms - g.since_ms > 1000 {
        QuitGuard { pending: false, ..g }
    } else {
        g
    }
}

/// The guard after a press at `now_ms`, and whether the press quits.
pub open spec fn press_spec(g: QuitGuard, now_ms: u64) -> (QuitGuard, bool) {
    if g.pending {
        (g, true)
    } else {
        (QuitGuard { pending: true, since_ms: now_ms }, false)
    }
}

impl QuitGuard {
    /// No quit pending.
    pub fn new() -> (r: QuitGuard)
        ensures
            !r.pending,
    {
        QuitGuard { pending: false, since_ms: 0 }
    }

    /// Forgets a first press that is more than a second old.
    pub fn expire(&mut self, now_ms: u64)
        ensures
            *final(self) == expire_spec(*old(self), now_ms),
    {
        if self.pending && now_ms > self.since_ms && now_ms - self.since_ms > 1000 {
            self.pending = false;
        }
    }

    /// A press of the quit key: quits when a first press is pending,
    /// otherwise becomes the first press.
    pub fn press(&mut self, now_ms: u64) -> (quit: bool)
        ensures
            (*final(self), quit) == press_spec(*old(self), now_ms),
    {
        if self.pending {
            true
        } else {
            self.pending = true;
            self.since_ms = now_ms;
            false
        }
    }
}

/// From an idle guard, a single press never quits; a second press within a
/// second of the first quits, whatever expiry check ran in between; after
/// more than a second the first press is forgotten and the second only arms
/// the guard again.
pub proof fn lemma_double_press(g: QuitGuard, t1: u64, t2: u64)
    requires
        !g.pending,
        t1 <= t2,
    ensures
        !press_spec(g, t1).1,
        t2 - t1 <= 1000 ==> press_spec(expire_spec(press_spec(g, t1).0, t2), t2).1,
        t2 - t1 > 1000 ==> !press_spec(expire_spec(press_spec(g, t1).0, t2), t2).1,
{
}

/// What a key does on the bridge's running screen.
#[derive(Debug, Clone, Copy, PartialEq, Eq)]
pub enum BridgeKeyEffect {
    Quit,
    SetJitter(usize),
    Nothing,
}

/// Handles a key on the bridge's running screen: `q` twice quits, `+` or
/// `=` raises and `-` lowers the jitter target.
pub fn bridge_key(guard: &mut QuitGuard, k: Key, now_ms: u64, jitter_ms: usize) -> (r: BridgeKeyEffect)
    requires
        jitter_ms <= 500,
    ensures
        k == Key::Char('q') ==> (r == BridgeKeyEffect::Quit) == old(guard).pending,
        k == Key::Char('q') && !old(guard).pending ==> r == BridgeKeyEffect::Nothing && final(guard).pending && final(guard).since_ms == now_ms,
        (k == Key::Char('+') || k == Key::Char('=')) ==> r == BridgeKeyEffect::SetJitter(raised(jitter_ms as int, 50, 500) as usize),
        k == Key::Char('-') ==> r == BridgeKeyEffect::SetJitter(lowered(jitter_ms as int, 50, 50) as usize),
        k != Key::Char('q') && k != Key::Char('+') && k != Key::Char('=') && k != Key::Char('-') ==> r == BridgeKeyEffect::Nothing,
        k != Key::Char('q') ==> *final(guard) == *old(guard),
{
    match k {
        Key::Char('q') => {
            if guard.press(now_ms) {
                BridgeKeyEffect::Quit
            } else {
                BridgeKeyEffect::Nothing
            }
        },
        Key::Char('+') | Key::Char('=') => BridgeKeyEffect::SetJitter(bridge_jitter_up(jitter_ms)),
        Key::Char('-') => BridgeKeyEffect::SetJitter(bridge_jitter_down(jitter_ms)),
        _ => BridgeKeyEffect::Nothing,
    }
}

/// What a key does on the receiver's running screen.
#[derive(Debug, Clone, Copy, PartialEq, Eq)]
pub enum ReceiverKeyEffect {
    Quit,
    SetJitter(usize),
    /// Double the drift-correction gain (up to its maximum).
    GainUp,
    /// Halve the drift-correction gain (down to its minimum).
    GainDown,
    Nothing,
}

/// The receiver's quit key state: whether `q` was pressed, and when.
#[derive(Debug, Clone, Copy, PartialEq, Eq)]
pub struct QuitPress {
    pub pressed: bool,
    pub at_ms: u64,
}

/// Handles a key on the receiver's running screen: `q` quits when it was
/// pressed less than a second ago, `+`/`=` and `-` move the jitter target
/// by 50 ms, `]` and `[` double and halve the gain; any other key cancels a
/// pending `q`.
pub fn receiver_key(q: &mut QuitPress, k: Key, now_ms: u64, jitter_ms: usize) -> (r: ReceiverKeyEffect)
    requires
        jitter_ms <= 2000,
    ensures
        k == Key::Char('q') ==> ((r == ReceiverKeyEffect::Quit) == (old(q).pressed && now_ms >= old(q).at_ms && now_ms - old(q).at_ms < 1000)),
        k == Key::Char('q') && r != ReceiverKeyEffect::Quit ==> r == ReceiverKeyEffect::Nothing && final(q).pressed && final(q).at_ms == now_ms,
        (k == Key::Char('+') || k == Key::Char('=')) ==> r == ReceiverKeyEffect::SetJitter(raised(jitter_ms as int, 50, 2000) as usize) && *final(q) == *old(q),
        k == Key::Char('-') ==> r == ReceiverKeyEffect::SetJitter(lowered(jitter_ms as int, 50, 50) as usize) && *final(q) == *old(q),
        k == Key::Char(']') ==> r == ReceiverKeyEffect::GainUp && *final(q) == *old(q),
        k == Key::Char('[') ==> r == ReceiverKeyEffect::GainDown && *final(q) == *old(q),
        k != Key::Char('q') && k != Key::Char('+') && k != Key::Char('=') && k != Key::Char('-') && k != Key::Char(']') && k != Key::Char('[') ==> r == ReceiverKeyEffect::Nothing && !final(q).pressed && final(q).at_ms == old(q).at_ms,
{
    match k {
        Key::Char('+') | Key::Char('=') => ReceiverKeyEffect::SetJitter(receiver_jitter_up(jitter_ms)),
        Key::Char('-') => ReceiverKeyEffect::SetJitter(receiver_jitter_down(jitter_ms)),
        Key::Char(']') => ReceiverKeyEffect::GainUp,
        Key::Char('[') => ReceiverKeyEffect::GainDown,
        Key::Char('q') => {
            if q.pressed && now_ms >= q.at_ms && now_ms - q.at_ms < 1000 {
                ReceiverKeyEffect::Quit
            } else {
                q.pressed = true;
                q.at_ms = now_ms;
                ReceiverKeyEffect::Nothing
            }
        },
        _ => {
            q.pressed = false;
            ReceiverKeyEffect::Nothing
        },
    }
}

/// Handles a key on the sender's status screen: `q` or Esc twice quits.
pub fn live_key(guard: &mut QuitGuard, k: Key, now_ms: u64) -> (quit: bool)
    ensures
        (k == Key::Char('q') || k == Key::Esc) ==> quit == old(guard).pending,
        (k == Key::Char('q') || k == Key::Esc) && !quit ==> final(guard).pending && final(guard).since_ms == now_ms,
        !(k == Key::Char('q') || k == Key::Esc) ==> !quit && *final(guard) == *old(guard),
{
    match k {
        Key::Char('q') | Key::Esc => guard.press(now_ms),
        _ => false,
    }
}

} // verus!
