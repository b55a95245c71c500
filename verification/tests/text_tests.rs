use nab::log::{log, should_rotate, started_message};
use nab::text::{
    first_nonblank, json_string, json_string_array, normalize_livekit_url, parse_env_line,
    safe_lock_component, tilde_form, trim_chars, TildeForm,
};

fn s(v: Vec<char>) -> String {
    v.into_iter().collect()
}

#[test]
fn json_escapes() {
    assert_eq!(s(json_string("plain")), "\"plain\"");
    assert_eq!(s(json_string("a\"b\\c\nd\re\tf")), "\"a\\\"b\\\\c\\nd\\re\\tf\"");
    assert_eq!(s(json_string("\u{1}\u{1f}\u{7f}\u{9f}é")), "\"\\u0001\\u001f\\u007f\\u009fé\"");
    assert_eq!(s(json_string("")), "\"\"");
}

#[test]
fn json_arrays() {
    assert_eq!(s(json_string_array(&[])), "[]");
    assert_eq!(s(json_string_array(&["a".to_string()])), "[\"a\"]");
    assert_eq!(s(json_string_array(&["a".to_string(), "b\"".to_string()])), "[\"a\", \"b\\\"\"]");
}

#[test]
fn lock_components() {
    assert_eq!(s(safe_lock_component("room-1_A.b")), "room-1_A.b");
    assert_eq!(s(safe_lock_component("a b/c:é")), "a_b_c__");
    assert_eq!(s(safe_lock_component("")), "default");
}

#[test]
fn livekit_urls() {
    assert_eq!(s(normalize_livekit_url("https://lk.example.com")), "wss://lk.example.com");
    assert_eq!(s(normalize_livekit_url("http://localhost:7880")), "ws://localhost:7880");
    assert_eq!(s(normalize_livekit_url("wss://x")), "wss://x");
    assert_eq!(s(normalize_livekit_url("https:/")), "https:/");
}

#[test]
fn env_lines() {
    let p = |l: &str| parse_env_line(l).map(|(k, v)| (s(k), s(v)));
    assert_eq!(p("LIVEKIT_URL=https://x"), Some(("LIVEKIT_URL".to_string(), "https://x".to_string())));
    assert_eq!(p("  export LIVEKIT_KEY = \"abc\"  "), Some(("LIVEKIT_KEY".to_string(), "abc".to_string())));
    assert_eq!(p("export export K='v=1'"), Some(("K".to_string(), "v=1".to_string())));
    assert_eq!(p("K=\"'x'\""), Some(("K".to_string(), "x".to_string())));
    assert_eq!(p("# comment=1"), None);
    assert_eq!(p("   "), None);
    assert_eq!(p("NOEQUALS"), None);
    assert_eq!(p("EMPTY="), Some(("EMPTY".to_string(), "".to_string())));
}

#[test]
fn trimming_matches_std() {
    for t in ["  a b  ", "\u{3000}x\u{a0}", "\t\n", "", "x", "\u{200b}y"] {
        let v: Vec<char> = t.chars().collect();
        assert_eq!(s(trim_chars(&v)), t.trim());
    }
}

#[test]
fn first_usable_key_value() {
    let c = vec![None, Some("  ".to_string()), Some("".to_string()), Some(" v ".to_string()), Some("w".to_string())];
    assert_eq!(first_nonblank(&c), Some(3));
    assert_eq!(first_nonblank(&vec![None, Some("\t".to_string())]), None);
    assert_eq!(first_nonblank(&vec![]), None);
}

#[test]
fn tilde_paths() {
    assert_eq!(tilde_form("~"), TildeForm::Home);
    assert_eq!(tilde_form("~/.nab/status.json"), TildeForm::UnderHome { rest_start: 2 });
    assert_eq!(tilde_form("~user/x"), TildeForm::Plain);
    assert_eq!(tilde_form("/tmp/x"), TildeForm::Plain);
    assert_eq!(tilde_form(""), TildeForm::Plain);
}

#[test]
fn log_lines() {
    assert_eq!(s(log(1700000000, "rx: bad magic")), "[1700000000] rx: bad magic\n");
    assert_eq!(s(log(0, "")), "[0] \n");
    assert_eq!(s(started_message("nab-recv")), "=== nab-recv started ===");
    assert!(!should_rotate(10 * 1024 * 1024));
    assert!(should_rotate(10 * 1024 * 1024 + 1));
}

fn decode_json_literal(lit: &str) -> Option<String> {
    let chars: Vec<char> = lit.chars().collect();
    if chars.len() < 2 || chars[0] != '"' || chars[chars.len() - 1] != '"' {
        return None;
    }
    let body = &chars[1..chars.len() - 1];
    let mut out = String::new();
    let mut i = 0;
    while i < body.len() {
        let c = body[i];
        if c == '\\' {
            let e = *body.get(i + 1)?;
            match e {
                '"' | '\\' | '/' => out.push(e),
                'b' => out.push('\u{8}'),
                'f' => out.push('\u{c}'),
                'n' => out.push('\n'),
                'r' => out.push('\r'),
                't' => out.push('\t'),
                'u' => {
                    let hex: String = body.get(i + 2..i + 6)?.iter().collect();
                    out.push(char::from_u32(u32::from_str_radix(&hex, 16).ok()?)?);
                    i += 4;
                }
                _ => return None,
            }
            i += 2;
        } else if c == '"' || (c as u32) < 0x20 {
            return None;
        } else {
            out.push(c);
            i += 1;
        }
    }
    Some(out)
}

#[test]
fn json_string_reads_back() {
    for v in ["", "plain", "a\"b\\c\nd\re\tf", "\u{1}\u{1f}\u{7f}\u{9f}é", "ümlaut/slash 日本"] {
        let lit = s(json_string(v));
        assert!(!lit.chars().any(|c| c.is_control()));
        assert_eq!(decode_json_literal(&lit).as_deref(), Some(v));
    }
}
