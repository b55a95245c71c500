use nab::wizard::{
    parse_u16, port_from_text, BridgeStep, BridgeWizard, Key, Outcome, ReceiverStep, ReceiverWizard,
    RunMode,
};

fn text(v: &[char]) -> String {
    v.iter().collect()
}

fn type_str(w: &mut BridgeWizard, s: &str) {
    for c in s.chars() {
        assert_eq!(w.handle_key(Key::Char(c)), Outcome::Continue);
    }
}

#[test]
fn bridge_send_appends_default_port() {
    let mut w = BridgeWizard::new(2, 3);
    assert_eq!(w.handle_key(Key::Enter), Outcome::Continue);
    assert_eq!(w.mode, RunMode::Send);
    assert_eq!(w.step, BridgeStep::SelectSampleRate { cursor: 1 });
    w.handle_key(Key::Up);
    assert_eq!(w.handle_key(Key::Enter), Outcome::Continue);
    assert_eq!(w.sample_rate, 44100);
    assert_eq!(w.step, BridgeStep::SelectInput { cursor: 0 });
    w.handle_key(Key::Down);
    w.handle_key(Key::Down);
    assert_eq!(w.step, BridgeStep::SelectInput { cursor: 1 });
    assert_eq!(w.handle_key(Key::Enter), Outcome::Continue);
    assert_eq!(w.input_device, Some(1));
    assert_eq!(w.step, BridgeStep::EnterIp);
    assert_eq!(w.handle_key(Key::Enter), Outcome::Continue);
    type_str(&mut w, "192.168.1.100");
    assert_eq!(w.handle_key(Key::Enter), Outcome::Finished);
    assert_eq!(text(&w.remote_addr), "192.168.1.100:8000");
    assert_eq!(text(&w.listen_addr), "0.0.0.0:8000");
}

#[test]
fn bridge_keeps_an_explicit_port_and_edits() {
    let mut w = BridgeWizard::new(1, 1);
    w.handle_key(Key::Enter);
    w.handle_key(Key::Enter);
    assert_eq!(w.sample_rate, 48000);
    w.handle_key(Key::Enter);
    type_str(&mut w, "10.0.0.2:9x");
    w.handle_key(Key::Backspace);
    type_str(&mut w, "000");
    w.handle_key(Key::Char(' '));
    assert_eq!(w.handle_key(Key::Enter), Outcome::Finished);
    assert_eq!(text(&w.remote_addr), "10.0.0.2:9000");
}

#[test]
fn bridge_receive_finishes_at_output() {
    let mut w = BridgeWizard::new(1, 2);
    w.handle_key(Key::Down);
    assert_eq!(w.handle_key(Key::Enter), Outcome::Continue);
    assert_eq!(w.mode, RunMode::Recv);
    for _ in 0..9 {
        w.handle_key(Key::Down);
    }
    w.handle_key(Key::Enter);
    assert_eq!(w.sample_rate, 192000);
    assert_eq!(w.step, BridgeStep::SelectOutput { cursor: 0 });
    w.handle_key(Key::Down);
    assert_eq!(w.handle_key(Key::Enter), Outcome::Finished);
    assert_eq!(w.output_device, Some(1));
    assert!(w.remote_addr.is_empty());
    assert_eq!(text(&w.listen_addr), "0.0.0.0:8000");
}

#[test]
fn bridge_duplex_asks_both_devices() {
    let mut w = BridgeWizard::new(0, 1);
    w.handle_key(Key::Down);
    w.handle_key(Key::Down);
    w.handle_key(Key::Down);
    assert_eq!(w.step, BridgeStep::SelectMode { cursor: 2 });
    w.handle_key(Key::Enter);
    assert_eq!(w.mode, RunMode::Duplex);
    w.handle_key(Key::Enter);
    w.handle_key(Key::Down);
    assert_eq!(w.step, BridgeStep::SelectInput { cursor: 0 });
    w.handle_key(Key::Enter);
    assert_eq!(w.input_device, None);
    assert_eq!(w.step, BridgeStep::SelectOutput { cursor: 0 });
    w.handle_key(Key::Enter);
    assert_eq!(w.output_device, Some(0));
    assert_eq!(w.step, BridgeStep::EnterIp);
}

#[test]
fn bridge_cancel_keys() {
    let mut w = BridgeWizard::new(1, 1);
    assert_eq!(w.handle_key(Key::Char('q')), Outcome::Cancelled);
    let mut w = BridgeWizard::new(1, 1);
    w.handle_key(Key::Enter);
    assert_eq!(w.handle_key(Key::Esc), Outcome::Cancelled);
    let mut w = BridgeWizard::new(1, 1);
    w.handle_key(Key::Enter);
    w.handle_key(Key::Enter);
    w.handle_key(Key::Enter);
    assert_eq!(w.handle_key(Key::Char('q')), Outcome::Continue);
    assert_eq!(w.handle_key(Key::Esc), Outcome::Cancelled);
}

#[test]
fn receiver_defaults_and_port() {
    let mut w = ReceiverWizard::new(1);
    assert_eq!(w.step, ReceiverStep::SelectSampleRate { cursor: 1 });
    w.handle_key(Key::Down);
    w.handle_key(Key::Down);
    assert_eq!(w.handle_key(Key::Enter), Outcome::Continue);
    assert_eq!(w.sample_rate, 96000);
    assert_eq!(w.handle_key(Key::Enter), Outcome::Continue);
    assert_eq!(w.output_device, Some(0));
    for c in "9a01".chars() {
        w.handle_key(Key::Char(c));
    }
    assert_eq!(w.port_buf, vec!['9', '0', '1']);
    w.handle_key(Key::Backspace);
    w.handle_key(Key::Char('5'));
    assert_eq!(w.handle_key(Key::Enter), Outcome::Finished);
    assert_eq!(w.port, 905);
}

#[test]
fn receiver_empty_port_means_default() {
    let mut w = ReceiverWizard::new(0);
    w.handle_key(Key::Enter);
    assert_eq!(w.sample_rate, 48000);
    w.handle_key(Key::Enter);
    assert_eq!(w.output_device, None);
    assert_eq!(w.handle_key(Key::Enter), Outcome::Finished);
    assert_eq!(w.port, 8000);
}

#[test]
fn receiver_rate_cursor_stops_at_ends() {
    let mut w = ReceiverWizard::new(0);
    for _ in 0..10 {
        w.handle_key(Key::Down);
    }
    assert_eq!(w.step, ReceiverStep::SelectSampleRate { cursor: 5 });
    w.handle_key(Key::Enter);
    assert_eq!(w.sample_rate, 192000);
    let mut w = ReceiverWizard::new(0);
    for _ in 0..3 {
        w.handle_key(Key::Up);
    }
    w.handle_key(Key::Enter);
    assert_eq!(w.sample_rate, 44100);
}

#[test]
fn port_text_parsing() {
    let p = |s: &str| port_from_text(&s.chars().collect());
    assert_eq!(p(""), 8000);
    assert_eq!(p("9000"), 9000);
    assert_eq!(p("0080"), 80);
    assert_eq!(p("65535"), 65535);
    assert_eq!(p("65536"), 8000);
    assert_eq!(p("999999"), 8000);
    assert_eq!(p("12a"), 8000);
    assert_eq!(p("+443"), 443);
    assert_eq!(p("+"), 8000);
    for s in ["", "0", "+7", "65535", "65536", "-1", "1 2", "00000000000000000001"] {
        let v: Vec<char> = s.chars().collect();
        assert_eq!(parse_u16(&v), s.parse::<u16>().ok(), "{s}");
    }
}
