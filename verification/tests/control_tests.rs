use nab::bridge::{is_recv, is_send, SharedState};
use nab::control::{bridge_key, live_key, receiver_key, BridgeKeyEffect, QuitGuard, QuitPress, ReceiverKeyEffect};
use nab::receiver::State;
use nab::wizard::{Key, RunMode};

#[test]
fn quit_needs_two_presses_within_a_second() {
    let mut g = QuitGuard::new();
    assert!(!g.press(1000));
    g.expire(1900);
    assert!(g.press(1950));
    let mut g = QuitGuard::new();
    assert!(!g.press(1000));
    g.expire(2001);
    assert!(!g.pending);
    assert!(!g.press(2002));
}

#[test]
fn bridge_keys() {
    let mut g = QuitGuard::new();
    assert_eq!(bridge_key(&mut g, Key::Char('+'), 0, 100), BridgeKeyEffect::SetJitter(150));
    assert_eq!(bridge_key(&mut g, Key::Char('='), 0, 500), BridgeKeyEffect::SetJitter(500));
    assert_eq!(bridge_key(&mut g, Key::Char('-'), 0, 50), BridgeKeyEffect::SetJitter(50));
    assert_eq!(bridge_key(&mut g, Key::Char('x'), 0, 50), BridgeKeyEffect::Nothing);
    assert_eq!(bridge_key(&mut g, Key::Char('q'), 10, 50), BridgeKeyEffect::Nothing);
    assert_eq!(bridge_key(&mut g, Key::Char('q'), 20, 50), BridgeKeyEffect::Quit);
}

#[test]
fn receiver_keys() {
    let mut q = QuitPress { pressed: false, at_ms: 0 };
    assert_eq!(receiver_key(&mut q, Key::Char('+'), 0, 1990), ReceiverKeyEffect::SetJitter(2000));
    assert_eq!(receiver_key(&mut q, Key::Char('-'), 0, 300), ReceiverKeyEffect::SetJitter(250));
    assert_eq!(receiver_key(&mut q, Key::Char(']'), 0, 300), ReceiverKeyEffect::GainUp);
    assert_eq!(receiver_key(&mut q, Key::Char('['), 0, 300), ReceiverKeyEffect::GainDown);
    assert_eq!(receiver_key(&mut q, Key::Char('q'), 100, 300), ReceiverKeyEffect::Nothing);
    assert_eq!(receiver_key(&mut q, Key::Char('q'), 1200, 300), ReceiverKeyEffect::Nothing);
    assert_eq!(receiver_key(&mut q, Key::Char('q'), 1500, 300), ReceiverKeyEffect::Quit);
    let mut q = QuitPress { pressed: false, at_ms: 0 };
    receiver_key(&mut q, Key::Char('q'), 100, 300);
    assert_eq!(receiver_key(&mut q, Key::Enter, 150, 300), ReceiverKeyEffect::Nothing);
    assert_eq!(receiver_key(&mut q, Key::Char('q'), 200, 300), ReceiverKeyEffect::Nothing);
}

#[test]
fn live_keys() {
    let mut g = QuitGuard::new();
    assert!(!live_key(&mut g, Key::Esc, 5));
    assert!(!live_key(&mut g, Key::Char('x'), 6));
    assert!(live_key(&mut g, Key::Char('q'), 7));
}

#[test]
fn initial_states() {
    let s = SharedState::new();
    assert_eq!(s.jitter_buffer_ms, 100);
    assert!(s.running);
    assert_eq!(s.packets_sent + s.send_errors + s.packet_loss, 0);
    let r = State::new();
    assert_eq!(r.jitter_ms, 300);
    assert!(r.rebuffering && r.running);
}

#[test]
fn modes() {
    assert!(is_send(RunMode::Send) && !is_recv(RunMode::Send));
    assert!(!is_send(RunMode::Recv) && is_recv(RunMode::Recv));
    assert!(is_send(RunMode::Duplex) && is_recv(RunMode::Duplex));
}
