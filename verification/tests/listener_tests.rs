use nab::devices::{contains_text, find_containing, find_exact, supports, SupportedRange};
use nab::listeners::{compare_chars, handle_room_event, LinkState, Listeners, RoomEvent};

fn ids(l: &Listeners) -> Vec<String> {
    l.snapshot()
}

#[test]
fn listeners_sorted_without_repeats() {
    let mut l = Listeners::new();
    l.add("web-b".to_string());
    l.add("web-a".to_string());
    l.add("".to_string());
    l.add("web-b".to_string());
    l.add("Web-c".to_string());
    assert_eq!(ids(&l), vec!["Web-c", "web-a", "web-b"]);
    assert_eq!(l.len(), 3);
    assert!(l.contains("web-a"));
    l.remove("web-a");
    l.remove("nobody");
    assert!(!l.contains("web-a"));
    assert_eq!(ids(&l), vec!["Web-c", "web-b"]);
}

#[test]
fn sync_replaces() {
    let mut l = Listeners::new();
    l.add("old".to_string());
    l.sync(vec!["z".to_string(), "".to_string(), "a".to_string(), "z".to_string()]);
    assert_eq!(ids(&l), vec!["a", "z"]);
}

#[test]
fn order_matches_string_order() {
    let words = ["", "a", "ab", "b", "B", "é", "aa", "a b"];
    for x in words {
        for y in words {
            let cx: Vec<char> = x.chars().collect();
            let cy: Vec<char> = y.chars().collect();
            let c = compare_chars(&cx, &cy);
            assert_eq!(c.signum() as i32, x.cmp(y) as i32, "{x} {y}");
        }
    }
}

#[test]
fn room_events() {
    let mut l = Listeners::new();
    let e = handle_room_event(&mut l, RoomEvent::ParticipantConnected("p1".to_string()));
    assert!(!e.end_session && e.connection.is_none());
    handle_room_event(&mut l, RoomEvent::ParticipantActive("p2".to_string()));
    assert_eq!(l.len(), 2);
    handle_room_event(&mut l, RoomEvent::ParticipantDisconnected("p1".to_string()));
    assert_eq!(ids(&l), vec!["p2"]);
    let e = handle_room_event(&mut l, RoomEvent::Connected(vec!["x".to_string()]));
    assert_eq!(e.connection, Some(1));
    assert_eq!(ids(&l), vec!["x"]);
    let e = handle_room_event(&mut l, RoomEvent::Reconnecting);
    assert_eq!((e.connection, e.end_session), (Some(2), false));
    let e = handle_room_event(&mut l, RoomEvent::ConnectionStateChanged(LinkState::Connected));
    assert_eq!((e.connection, e.end_session), (Some(1), false));
    let e = handle_room_event(&mut l, RoomEvent::TokenRefreshed);
    assert!(e.connection.is_none() && !e.end_session);
    let e = handle_room_event(&mut l, RoomEvent::Disconnected);
    assert_eq!((e.connection, e.disconnected_error, e.end_session), (Some(3), true, true));
    assert_eq!(l.len(), 0);
    l.add("y".to_string());
    let e = handle_room_event(&mut l, RoomEvent::ConnectionStateChanged(LinkState::Disconnected));
    assert_eq!((e.connection, e.disconnected_error, e.end_session), (Some(3), false, true));
    assert_eq!(l.len(), 0);
}

#[test]
fn device_support() {
    let r = vec![
        SupportedRange { channels: 2, is_f32: false, min_rate: 8000, max_rate: 192000 },
        SupportedRange { channels: 2, is_f32: true, min_rate: 44100, max_rate: 48000 },
    ];
    assert!(supports(&r, 2, 48000));
    assert!(!supports(&r, 2, 96000));
    assert!(!supports(&r, 1, 48000));
    assert!(!supports(&vec![], 2, 48000));
}

#[test]
fn device_lookup() {
    let names = vec![None, Some("Speakers".to_string()), Some("USB Audio".to_string())];
    assert_eq!(find_exact(&names, "USB Audio"), Some(2));
    assert_eq!(find_exact(&names, "usb audio"), None);
    let names = vec!["Built-in Microphone".to_string(), "BlackHole 2ch".to_string()];
    assert_eq!(find_containing(&names, "blackhole"), Some(1));
    assert_eq!(find_containing(&names, "MICRO"), Some(0));
    assert_eq!(find_containing(&names, "zoom"), None);
    assert_eq!(find_containing(&names, ""), Some(0));
    let h: Vec<char> = "abcabd".chars().collect();
    assert!(contains_text(&h, &"abd".chars().collect()));
    assert!(!contains_text(&h, &"abe".chars().collect()));
}
