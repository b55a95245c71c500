//! Text rules: decimal and JSON rendering, lock-file names, LiveKit URLs,
//! `KEY=value` lines and `~` paths.
use vstd::prelude::*;

verus! {

/// The characters of `s`, in order.
pub fn chars_of(s: &str) -> (r: Vec<char>)
    ensures
        r@ == s@,
{
    let n = s.unicode_len();
    let mut out: Vec<char> = Vec::new();
    let mut i: usize = 0;
    while i < n
        invariant
            n == s@.len(),
            i <= n,
            out@ == s@.take(i as int),
        decreases n - i,
    {
        out.push(s.get_char(i));
        proof {
            assert(s@.take(i + 1) =~= s@.take(i as int).push(s@[i as int]));
        }
        i = i + 1;
    }
    assert(s@.take(n as int) =~= s@);
    out
}

/// Appends `b` to `a`.
pub fn append_chars(a: &mut Vec<char>, b: &Vec<char>)
    ensures
        final(a)@ == old(a)@ + b@,
{
    let mut i: usize = 0;
    while i < b.len()
        invariant
            i <= b@.len(),
            a@ == old(a)@ + b@.take(i as int),
        decreases b@.len() - i,
    {
        a.push(b[i]);
        proof {
            assert(b@.take(i + 1) =~= b@.take(i as int).push(b@[i as int]));
            assert(old(a)@ + b@.take(i + 1) =~= (old(a)@ + b@.take(i as int)).push(b@[i as int]));
        }
        i = i + 1;
    }
    assert(b@.take(b@.len() as int) =~= b@);
}

/// Appends the characters of `b` to `a`.
pub fn append_str(a: &mut Vec<char>, b: &str)
    ensures
        final(a)@ == old(a)@ + b@,
{
    let v = chars_of(b);
    append_chars(a, &v);
}

// ───────────────────────── decimal numbers ─────────────────────────

/// The digit character for `d` (0 to 9).
pub open spec fn digit_char(d: nat) -> char {
    (48 + d) as char
}

/// `n` written in decimal, without leading zeros.
pub open spec fn decimal(n: nat) -> Seq<char>
    decreases n,
{
    if n < 10 {
        seq![digit_char(n)]
    } else {
        decimal(n / 10).push(digit_char(n % 10))
    }
}

/// `n` written in decimal, with a minus sign when negative.
pub open spec fn signed_decimal(n: int) -> Seq<char> {
    if n < 0 {
        seq!['-'] + decimal((-n) as nat)
    } else {
        decimal(n as nat)
    }
}

fn digit(d: u128) -> (c: char)
    requires
        d < 10,
    ensures
        c == digit_char(d as nat),
{
    let b = d as u8 + 48u8;
    b as char
}

/// Appends `n` in decimal to `out`.
pub fn push_decimal(out: &mut Vec<char>, n: u128)
    ensures
        final(out)@ == old(out)@ + decimal(n as nat),
    decreases n,
{
    if n < 10 {
        out.push(digit(n));
        assert(old(out)@ + decimal(n as nat) =~= old(out)@.push(digit_char(n as nat)));
    } else {
        push_decimal(out, n / 10);
        out.push(digit(n % 10));
        assert(old(out)@ + decimal(n as nat) =~= (old(out)@ + decimal((n / 10) as nat)).push(
            digit_char((n % 10) as nat),
        ));
    }
}

/// Appends `n` in decimal, with a minus sign when negative, to `out`.
pub fn push_signed_decimal(out: &mut Vec<char>, n: i128)
    requires
        n > i128::MIN,
    ensures
        final(out)@ == old(out)@ + signed_decimal(n as int),
{
    if n < 0 {
        out.push('-');
        push_decimal(out, (-n) as u128);
        assert(old(out)@ + signed_decimal(n as int) =~= old(out)@.push('-') + decimal((-n) as nat));
    } else {
        push_decimal(out, n as u128);
    }
}

// ───────────────────────── JSON strings ─────────────────────────

/// A control character (Unicode general category Cc, `char::is_control`).
pub open spec fn is_control(c: char) -> bool {
    c <= '\u{1f}' || ('\u{7f}' <= c && c <= '\u{9f}')
}

/// The lower-case hexadecimal digit for `d` (0 to 15).
pub open spec fn hex_char(d: nat) -> char {
    if d < 10 { (48 + d) as char } else { (87 + d) as char }
}

/// `\u` and the four lower-case hex digits of `c`'s code point.
pub open spec fn unicode_escape(c: char) -> Seq<char> {
    let v = c as nat;
    seq!['\\', 'u', hex_char((v / 4096) % 16), hex_char((v / 256) % 16), hex_char((v / 16) % 16), hex_char(v % 16)]
}

/// How one character appears inside a JSON string.
pub open spec fn json_escape(c: char) -> Seq<char> {
    if c == '"' {
        seq!['\\', '"']
    } else if c == '\\' {
        seq!['\\', '\\']
    } else if c == '\n' {
        seq!['\\', 'n']
    } else if c == '\r' {
        seq!['\\', 'r']
    } else if c == '\t' {
        seq!['\\', 't']
    } else if is_control(c) {
        unicode_escape(c)
    } else {
        seq![c]
    }
}

/// The escaped characters of `s`, one after the other.
pub open spec fn json_escaped(s: Seq<char>) -> Seq<char>
    decreases s.len(),
{
    if s.len() == 0 {
        Seq::empty()
    } else {
        json_escaped(s.drop_last()) + json_escape(s.last())
    }
}

/// `s` as a JSON string literal.
pub open spec fn json_quoted(s: Seq<char>) -> Seq<char> {
    seq!['"'] + json_escaped(s) + seq!['"']
}

fn hex(d: u32) -> (c: char)
    requires
        d < 16,
    ensures
        c == hex_char(d as nat),
{
    if d < 10 {
        (d as u8 + 48u8) as char
    } else {
        (d as u8 + 87u8) as char
    }
}

fn push_json_escape(out: &mut Vec<char>, c: char)
    ensures
        final(out)@ == old(out)@ + json_escape(c),
{
    if c == '"' {
        out.push('\\');
        out.push('"');
    } else if c == '\\' {
        out.push('\\');
        out.push('\\');
    } else if c == '\n' {
        out.push('\\');
        out.push('n');
    } else if c == '\r' {
        out.push('\\');
        out.push('r');
    } else if c == '\t' {
        out.push('\\');
        out.push('t');
    } else if c <= '\u{1f}' || ('\u{7f}' <= c && c <= '\u{9f}') {
        let v = c as u32;
        out.push('\\');
        out.push('u');
        out.push(hex((v / 4096) % 16));
        out.push(hex((v / 256) % 16));
        out.push(hex((v / 16) % 16));
        out.push(hex(v % 16));
    } else {
        out.push(c);
    }
    assert(final(out)@ =~= old(out)@ + json_escape(c));
}

/// Appends `s` as a JSON string literal to `out`.
pub fn push_json_string(out: &mut Vec<char>, s: &str)
    ensures
        final(out)@ == old(out)@ + json_quoted(s@),
{
    let v = chars_of(s);
    out.push('"');
    let ghost start = out@;
    let mut i: usize = 0;
    while i < v.len()
        invariant
            i <= v@.len(),
            v@ == s@,
            start == old(out)@.push('"'),
            out@ == start + json_escaped(v@.take(i as int)),
        decreases v@.len() - i,
    {
        push_json_escape(out, v[i]);
        proof {
            let t = v@.take(i + 1);
            assert(t.drop_last() =~= v@.take(i as int));
            assert(out@ =~= start + json_escaped(t));
        }
        i = i + 1;
    }
    out.push('"');
    assert(v@.take(v@.len() as int) =~= v@);
    assert(final(out)@ =~= old(out)@ + json_quoted(s@));
}

/// `value` as a JSON string literal: quotes, backslashes, newlines, carriage
/// returns and tabs escaped by backslash, other control characters as `\u` escapes.
pub fn json_string(value: &str) -> (r: Vec<char>)
    ensures
        r@ == json_quoted(value@),
{
    let mut out: Vec<char> = Vec::new();
    push_json_string(&mut out, value);
    assert(out@ =~= json_quoted(value@));
    out
}

/// The value of a hexadecimal digit, either case.
pub open spec fn hex_value(c: char) -> Option<nat> {
    if '0' <= c <= '9' {
        Some((c as nat - 48) as nat)
    } else if 'a' <= c <= 'f' {
        Some((c as nat - 87) as nat)
    } else if 'A' <= c <= 'F' {
        Some((c as nat - 55) as nat)
    } else {
        None
    }
}

/// The value of four hexadecimal digits.
pub open spec fn hex4_value(h: Seq<char>) -> Option<nat> {
    if h.len() == 4 && hex_value(h[0]) is Some && hex_value(h[1]) is Some && hex_value(h[2]) is Some
        && hex_value(h[3]) is Some {
        Some(
            4096 * hex_value(h[0])->0 + 256 * hex_value(h[1])->0 + 16 * hex_value(h[2])->0 + hex_value(
                h[3],
            )->0,
        )
    } else {
        None
    }
}

/// The character a one-letter JSON escape (`\"`, `\\`, `\/`, `\b`, `\f`,
/// `\n`, `\r`, `\t`) stands for.
pub open spec fn simple_unescape(c: char) -> Option<char> {
    if c == '"' {
        Some('"')
    } else if c == '\\' {
        Some('\\')
    } else if c == '/' {
        Some('/')
    } else if c == 'b' {
        Some('\u{8}')
    } else if c == 'f' {
        Some('\u{c}')
    } else if c == 'n' {
        Some('\n')
    } else if c == 'r' {
        Some('\r')
    } else if c == 't' {
        Some('\t')
    } else {
        None
    }
}

/// `c` in front of a decoded rest, if the rest decoded.
pub open spec fn prepend_decoded(c: char, rest: Option<Seq<char>>) -> Option<Seq<char>> {
    match rest {
        Some(r) => Some(seq![c] + r),
        None => None,
    }
}

/// The text between the quotes of a JSON string literal, decoded as the
/// JSON grammar reads it: an escape sequence stands for its character, a
/// `\u` escape for the character with that code (surrogate codes, which
/// come only in pairs, are not read), and any other character stands for
/// itself unless it is a quote, a backslash or below U+0020, which a
/// literal cannot hold raw.
pub open spec fn json_unescape(s: Seq<char>) -> Option<Seq<char>>
    decreases s.len(),
{
    if s.len() == 0 {
        Some(Seq::empty())
    } else if s[0] == '\\' {
        if s.len() >= 2 && s[1] == 'u' {
            if s.len() >= 6 && hex4_value(s.subrange(2, 6)) is Some && (hex4_value(s.subrange(2, 6))->0
                < 0xd800 || 0xe000 <= hex4_value(s.subrange(2, 6))->0) {
                prepend_decoded(hex4_value(s.subrange(2, 6))->0 as char, json_unescape(s.skip(6)))
            } else {
                None
            }
        } else if s.len() >= 2 && simple_unescape(s[1]) is Some {
            prepend_decoded(simple_unescape(s[1])->0, json_unescape(s.skip(2)))
        } else {
            None
        }
    } else if s[0] == '"' || (s[0] as nat) < 32 {
        None
    } else {
        prepend_decoded(s[0], json_unescape(s.skip(1)))
    }
}

/// The string a JSON string literal stands for, if `s` is one.
pub open spec fn json_literal_value(s: Seq<char>) -> Option<Seq<char>> {
    if s.len() >= 2 && s[0] == '"' && s.last() == '"' {
        json_unescape(s.subrange(1, s.len() - 1))
    } else {
        None
    }
}

proof fn lemma_hex_digit(d: nat)
    requires
        d < 16,
    ensures
        hex_value(hex_char(d)) == Some(d),
        !is_control(hex_char(d)),
{
}

proof fn lemma_unescape_one(c: char, rest: Seq<char>)
    ensures
        json_unescape(json_escape(c) + rest) == prepend_decoded(c, json_unescape(rest)),
{
    let t = json_escape(c) + rest;
    if c == '"' || c == '\\' || c == '\n' || c == '\r' || c == '\t' {
        assert(t.skip(2) =~= rest);
    } else if is_control(c) {
        let v = c as nat;
        assert(v <= 0x9f);
        assert((v / 4096) % 16 == 0 && (v / 256) % 16 == 0) by (nonlinear_arith)
            requires
                v <= 0x9f,
        ;
        assert(v / 16 < 16 && 16 * (v / 16) + v % 16 == v) by (nonlinear_arith)
            requires
                v <= 0x9f,
        ;
        lemma_hex_digit((v / 4096) % 16);
        lemma_hex_digit((v / 256) % 16);
        lemma_hex_digit((v / 16) % 16);
        lemma_hex_digit(v % 16);
        let h = t.subrange(2, 6);
        assert(h =~= seq![hex_char((v / 4096) % 16), hex_char((v / 256) % 16), hex_char((v / 16) % 16), hex_char(v % 16)]);
        assert(hex4_value(h) == Some(v));
        assert((v as char) == c);
        assert(t.skip(6) =~= rest);
    } else {
        assert(t[0] == c);
        assert(t.skip(1) =~= rest);
    }
}

proof fn lemma_escaped_front(s: Seq<char>)
    requires
        s.len() > 0,
    ensures
        json_escaped(s) == json_escape(s[0]) + json_escaped(s.drop_first()),
    decreases s.len(),
{
    if s.len() == 1 {
        let e = Seq::<char>::empty();
        assert(s.drop_last() =~= e);
        assert(s.drop_first() =~= e);
        assert(json_escaped(e) == e);
        assert(s.last() == s[0]);
        assert(json_escaped(s) == json_escaped(s.drop_last()) + json_escape(s.last()));
        assert(json_escape(s[0]) + e =~= json_escape(s[0]));
        assert(e + json_escape(s[0]) =~= json_escape(s[0]));
    } else {
        let p = s.drop_last();
        lemma_escaped_front(p);
        assert(p.drop_first() =~= s.drop_first().drop_last());
        assert(s.drop_first().last() == s.last());
        assert(p[0] == s[0]);
        assert(json_escaped(s) =~= json_escape(s[0]) + json_escaped(s.drop_first()));
    }
}

proof fn lemma_unescape_escaped(s: Seq<char>)
    ensures
        json_unescape(json_escaped(s)) == Some(s),
    decreases s.len(),
{
    if s.len() == 0 {
        assert(json_escaped(s) =~= Seq::<char>::empty());
    } else {
        lemma_escaped_front(s);
        lemma_unescape_escaped(s.drop_first());
        lemma_unescape_one(s[0], json_escaped(s.drop_first()));
        assert(seq![s[0]] + s.drop_first() =~= s);
    }
}

proof fn lemma_escape_no_control(c: char)
    ensures
        forall|i: int| 0 <= i < json_escape(c).len() ==> !is_control(#[trigger] json_escape(c)[i]),
{
    if is_control(c) && !(c == '"' || c == '\\' || c == '\n' || c == '\r' || c == '\t') {
        let v = c as nat;
        lemma_hex_digit((v / 4096) % 16);
        lemma_hex_digit((v / 256) % 16);
        lemma_hex_digit((v / 16) % 16);
        lemma_hex_digit(v % 16);
    }
}

proof fn lemma_escaped_no_control(s: Seq<char>)
    ensures
        forall|i: int| 0 <= i < json_escaped(s).len() ==> !is_control(#[trigger] json_escaped(s)[i]),
    decreases s.len(),
{
    if s.len() > 0 {
        lemma_escaped_no_control(s.drop_last());
        lemma_escape_no_control(s.last());
        let a = json_escaped(s.drop_last());
        let b = json_escape(s.last());
        assert forall|i: int| 0 <= i < json_escaped(s).len() implies !is_control(#[trigger] json_escaped(s)[i]) by {
            if i < a.len() {
                assert(json_escaped(s)[i] == a[i]);
            } else {
                assert(json_escaped(s)[i] == b[i - a.len()]);
            }
        }
    }
}

/// A string rendered as a JSON string literal reads back as the same
/// string: the literal opens and closes with a quote, holds no raw control
/// character, and decodes to exactly the characters it was made from.
pub proof fn lemma_json_string_roundtrip(s: Seq<char>)
    ensures
        json_quoted(s).len() >= 2,
        json_quoted(s)[0] == '"',
        json_quoted(s).last() == '"',
        forall|i: int| 0 <= i < json_quoted(s).len() ==> !is_control(#[trigger] json_quoted(s)[i]),
        json_literal_value(json_quoted(s)) == Some(s),
{
    let q = json_quoted(s);
    let e = json_escaped(s);
    lemma_unescape_escaped(s);
    lemma_escaped_no_control(s);
    assert(q.subrange(1, q.len() - 1) =~= e);
    assert forall|i: int| 0 <= i < q.len() implies !is_control(#[trigger] q[i]) by {
        if 1 <= i < q.len() - 1 {
            assert(q[i] == e[i - 1]);
        }
    }
}

/// The JSON array body for `vs`: the quoted strings joined by ", ".
pub open spec fn json_items(vs: Seq<Seq<char>>) -> Seq<char>
    decreases vs.len(),
{
    if vs.len() == 0 {
        Seq::empty()
    } else if vs.len() == 1 {
        json_quoted(vs[0])
    } else {
        json_items(vs.drop_last()) + seq![',', ' '] + json_quoted(vs.last())
    }
}

/// The views of a list of strings.
pub open spec fn string_views(vs: Seq<String>) -> Seq<Seq<char>> {
    vs.map_values(|s: String| s@)
}

/// `values` as a JSON array of strings.
pub fn json_string_array(values: &[String]) -> (r: Vec<char>)
    ensures
        r@ == seq!['['] + json_items(string_views(values@)) + seq![']'],
{
    let mut body: Vec<char> = Vec::new();
    body.push('[');
    let ghost all = string_views(values@);
    let mut i: usize = 0;
    while i < values.len()
        invariant
            i <= values@.len(),
            all == string_views(values@),
            body@ == seq!['['] + json_items(all.take(i as int)),
        decreases values@.len() - i,
    {
        proof {
            let t = all.take(i + 1);
            assert(t.drop_last() =~= all.take(i as int));
            assert(t.last() == values@[i as int]@);
            if i == 0 {
                assert(t.len() == 1);
            }
        }
        if i > 0 {
            body.push(',');
            body.push(' ');
        }
        push_json_string(&mut body, values[i].as_str());
        proof {
            let t = all.take(i + 1);
            if i == 0 {
                assert(json_items(all.take(0)) =~= Seq::<char>::empty());
                assert(body@ =~= seq!['['] + json_items(t));
            } else {
                assert(body@ =~= seq!['['] + json_items(t));
            }
        }
        i = i + 1;
    }
    body.push(']');
    assert(all.take(values@.len() as int) =~= all);
    body
}

// ───────────────────────── lock-file names ─────────────────────────

/// Characters kept as they are in a lock-file name.
pub open spec fn lock_safe(c: char) -> bool {
    ('0' <= c <= '9') || ('a' <= c <= 'z') || ('A' <= c <= 'Z') || c == '-' || c == '_' || c == '.'
}

/// `s` with every character outside ASCII letters, digits, `-`, `_` and `.`
/// replaced by `_`.
pub open spec fn lock_mapped(s: Seq<char>) -> Seq<char> {
    Seq::new(s.len(), |i: int| if lock_safe(s[i]) { s[i] } else { '_' })
}

/// A room or identity made safe for a lock-file name: unsafe characters
/// become `_`, and an empty name becomes "default".
pub fn safe_lock_component(value: &str) -> (r: Vec<char>)
    ensures
        value@.len() == 0 ==> r@ == seq!['d', 'e', 'f', 'a', 'u', 'l', 't'],
        value@.len() > 0 ==> r@ == lock_mapped(value@),
{
    let v = chars_of(value);
    let mut out: Vec<char> = Vec::new();
    let mut i: usize = 0;
    while i < v.len()
        invariant
            i <= v@.len(),
            v@ == value@,
            out@ =~= lock_mapped(v@).take(i as int),
        decreases v@.len() - i,
    {
        let c = v[i];
        if ('0' <= c && c <= '9') || ('a' <= c && c <= 'z') || ('A' <= c && c <= 'Z') || c == '-'
            || c == '_' || c == '.' {
            out.push(c);
        } else {
            out.push('_');
        }
        i = i + 1;
    }
    if out.len() == 0 {
        let mut d: Vec<char> = Vec::new();
        d.push('d');
        d.push('e');
        d.push('f');
        d.push('a');
        d.push('u');
        d.push('l');
        d.push('t');
        assert(d@ =~= seq!['d', 'e', 'f', 'a', 'u', 'l', 't']);
        d
    } else {
        assert(out@ =~= lock_mapped(value@));
        out
    }
}

// ───────────────────────── prefixes ─────────────────────────

/// Whether `s` begins with `p`.
pub open spec fn starts_with(s: Seq<char>, p: Seq<char>) -> bool {
    p.len() <= s.len() && s.take(p.len() as int) == p
}

fn has_prefix(s: &Vec<char>, p: &Vec<char>) -> (r: bool)
    ensures
        r == starts_with(s@, p@),
{
    if p.len() > s.len() {
        return false;
    }
    let mut i: usize = 0;
    while i < p.len()
        invariant
            i <= p@.len() <= s@.len(),
            forall|k: int| 0 <= k < i ==> s@[k] == p@[k],
        decreases p@.len() - i,
    {
        if s[i] != p[i] {
            assert(s@.take(p@.len() as int)[i as int] != p@[i as int]);
            return false;
        }
        i = i + 1;
    }
    assert(s@.take(p@.len() as int) =~= p@);
    true
}

fn chars_from(s: &Vec<char>, start: usize) -> (r: Vec<char>)
    requires
        start <= s@.len(),
    ensures
        r@ == s@.skip(start as int),
{
    let mut out: Vec<char> = Vec::new();
    let mut i: usize = start;
    while i < s.len()
        invariant
            start <= i <= s@.len(),
            out@ == s@.subrange(start as int, i as int),
        decreases s@.len() - i,
    {
        out.push(s[i]);
        proof {
            assert(s@.subrange(start as int, i + 1) =~= s@.subrange(start as int, i as int).push(s@[i as int]));
        }
        i = i + 1;
    }
    out
}

/// What the LiveKit URL becomes: `https://` turns into `wss://` and
/// `http://` into `ws://`; anything else stays.
pub open spec fn normalized_url(u: Seq<char>) -> Seq<char> {
    let https = seq!['h', 't', 't', 'p', 's', ':', '/', '/'];
    let http = seq!['h', 't', 't', 'p', ':', '/', '/'];
    if starts_with(u, https) {
        seq!['w', 's', 's', ':', '/', '/'] + u.skip(8)
    } else if starts_with(u, http) {
        seq!['w', 's', ':', '/', '/'] + u.skip(7)
    } else {
        u
    }
}

/// Turns an HTTP(S) LiveKit URL into the WebSocket URL the client dials.
pub fn normalize_livekit_url(url: &str) -> (r: Vec<char>)
    ensures
        r@ == normalized_url(url@),
{
    let u = chars_of(url);
    let https = chars_of("https://");
    let http = chars_of("http://");
    proof {
        reveal_strlit("https://");
        reveal_strlit("http://");
    }
    assert(https@ =~= seq!['h', 't', 't', 'p', 's', ':', '/', '/']);
    assert(http@ =~= seq!['h', 't', 't', 'p', ':', '/', '/']);
    if has_prefix(&u, &https) {
        let mut out = chars_of("wss://");
        proof {
            reveal_strlit("wss://");
        }
        let rest = chars_from(&u, 8);
        append_chars(&mut out, &rest);
        assert(out@ =~= normalized_url(url@));
        out
    } else if has_prefix(&u, &http) {
        let mut out = chars_of("ws://");
        proof {
            reveal_strlit("ws://");
        }
        let rest = chars_from(&u, 7);
        append_chars(&mut out, &rest);
        assert(out@ =~= normalized_url(url@));
        out
    } else {
        u
    }
}

// ───────────────────────── whitespace and trimming ─────────────────────────

/// A character with the Unicode White_Space property (`char::is_whitespace`).
pub open spec fn is_ws(c: char) -> bool {
    ('\u{9}' <= c <= '\u{d}') || c == ' ' || c == '\u{85}' || c == '\u{a0}' || c == '\u{1680}'
        || ('\u{2000}' <= c <= '\u{200a}') || c == '\u{2028}' || c == '\u{2029}' || c
        == '\u{202f}' || c == '\u{205f}' || c == '\u{3000}'
}

fn ws(c: char) -> (r: bool)
    ensures
        r == is_ws(c),
{
    ('\u{9}' <= c && c <= '\u{d}') || c == ' ' || c == '\u{85}' || c == '\u{a0}' || c == '\u{1680}'
        || ('\u{2000}' <= c && c <= '\u{200a}') || c == '\u{2028}' || c == '\u{2029}' || c
        == '\u{202f}' || c == '\u{205f}' || c == '\u{3000}'
}

/// `s` without its leading whitespace.
pub open spec fn trim_start_ws(s: Seq<char>) -> Seq<char>
    decreases s.len(),
{
    if s.len() > 0 && is_ws(s[0]) {
        trim_start_ws(s.drop_first())
    } else {
        s
    }
}

/// `s` without its trailing whitespace.
pub open spec fn trim_end_ws(s: Seq<char>) -> Seq<char>
    decreases s.len(),
{
    if s.len() > 0 && is_ws(s.last()) {
        trim_end_ws(s.drop_last())
    } else {
        s
    }
}

/// `s` without its leading copies of `c`.
pub open spec fn trim_start_char(s: Seq<char>, c: char) -> Seq<char>
    decreases s.len(),
{
    if s.len() > 0 && s[0] == c {
        trim_start_char(s.drop_first(), c)
    } else {
        s
    }
}

/// `s` without its trailing copies of `c`.
pub open spec fn trim_end_char(s: Seq<char>, c: char) -> Seq<char>
    decreases s.len(),
{
    if s.len() > 0 && s.last() == c {
        trim_end_char(s.drop_last(), c)
    } else {
        s
    }
}

/// `s` without leading and trailing whitespace (`str::trim`).
pub open spec fn trim(s: Seq<char>) -> Seq<char> {
    trim_end_ws(trim_start_ws(s))
}

/// `s` without leading and trailing copies of `c` (`str::trim_matches` with a char).
pub open spec fn trim_char(s: Seq<char>, c: char) -> Seq<char> {
    trim_end_char(trim_start_char(s, c), c)
}

/// `s` with every leading copy of the non-empty `p` removed
/// (`str::trim_start_matches` with a string).
pub open spec fn strip_all_prefix(s: Seq<char>, p: Seq<char>) -> Seq<char>
    decreases s.len(),
{
    if p.len() > 0 && starts_with(s, p) {
        strip_all_prefix(s.skip(p.len() as int), p)
    } else {
        s
    }
}

fn strip_start_ws(v: &Vec<char>) -> (r: Vec<char>)
    ensures
        r@ == trim_start_ws(v@),
{
    let mut i: usize = 0;
    assert(v@.skip(0) =~= v@);
    while i < v.len() && ws(v[i])
        invariant
            i <= v@.len(),
            trim_start_ws(v@) == trim_start_ws(v@.skip(i as int)),
        decreases v@.len() - i,
    {
        assert(v@.skip(i as int).drop_first() =~= v@.skip(i + 1));
        i = i + 1;
    }
    chars_from(v, i)
}

fn strip_end_ws(v: &Vec<char>) -> (r: Vec<char>)
    ensures
        r@ == trim_end_ws(v@),
{
    let mut j: usize = v.len();
    assert(v@.take(v@.len() as int) =~= v@);
    while j > 0 && ws(v[j - 1])
        invariant
            j <= v@.len(),
            trim_end_ws(v@) == trim_end_ws(v@.take(j as int)),
        decreases j,
    {
        assert(v@.take(j as int).drop_last() =~= v@.take(j - 1));
        j = j - 1;
    }
    chars_to(v, j)
}

fn strip_start_char(v: &Vec<char>, c: char) -> (r: Vec<char>)
    ensures
        r@ == trim_start_char(v@, c),
{
    let mut i: usize = 0;
    assert(v@.skip(0) =~= v@);
    while i < v.len() && v[i] == c
        invariant
            i <= v@.len(),
            trim_start_char(v@, c) == trim_start_char(v@.skip(i as int), c),
        decreases v@.len() - i,
    {
        assert(v@.skip(i as int).drop_first() =~= v@.skip(i + 1));
        i = i + 1;
    }
    chars_from(v, i)
}

fn strip_end_char(v: &Vec<char>, c: char) -> (r: Vec<char>)
    ensures
        r@ == trim_end_char(v@, c),
{
    let mut j: usize = v.len();
    assert(v@.take(v@.len() as int) =~= v@);
    while j > 0 && v[j - 1] == c
        invariant
            j <= v@.len(),
            trim_end_char(v@, c) == trim_end_char(v@.take(j as int), c),
        decreases j,
    {
        assert(v@.take(j as int).drop_last() =~= v@.take(j - 1));
        j = j - 1;
    }
    chars_to(v, j)
}

fn chars_to(s: &Vec<char>, end: usize) -> (r: Vec<char>)
    requires
        end <= s@.len(),
    ensures
        r@ == s@.take(end as int),
{
    let mut out: Vec<char> = Vec::new();
    let mut i: usize = 0;
    while i < end
        invariant
            i <= end <= s@.len(),
            out@ == s@.take(i as int),
        decreases end - i,
    {
        out.push(s[i]);
        proof {
            assert(s@.take(i + 1) =~= s@.take(i as int).push(s@[i as int]));
        }
        i = i + 1;
    }
    out
}

/// `v` without leading and trailing whitespace.
pub fn trim_chars(v: &Vec<char>) -> (r: Vec<char>)
    ensures
        r@ == trim(v@),
{
    let a = strip_start_ws(v);
    strip_end_ws(&a)
}

fn trim_char_vec(v: &Vec<char>, c: char) -> (r: Vec<char>)
    ensures
        r@ == trim_char(v@, c),
{
    let a = strip_start_char(v, c);
    strip_end_char(&a, c)
}

fn strip_all_prefix_vec(v: &Vec<char>, p: &Vec<char>) -> (r: Vec<char>)
    requires
        p@.len() > 0,
    ensures
        r@ == strip_all_prefix(v@, p@),
    decreases v@.len(),
{
    if has_prefix(v, p) {
        let rest = chars_from(v, p.len());
        strip_all_prefix_vec(&rest, p)
    } else {
        copy(v)
    }
}

fn copy(v: &Vec<char>) -> (r: Vec<char>)
    ensures
        r@ == v@,
{
    chars_from(v, 0)
}

/// Whether `s` is empty or all whitespace.
pub open spec fn is_blank(s: Seq<char>) -> bool {
    trim(s).len() == 0
}

// ───────────────────────── KEY=value lines ─────────────────────────

/// The index of the first `c` in `s`, if any.
pub open spec fn first_index(s: Seq<char>, c: char) -> Option<int> {
    if s.contains(c) {
        Some(choose|i: int| 0 <= i < s.len() && s[i] == c && forall|k: int| 0 <= k < i ==> s[k] != c)
    } else {
        None
    }
}

/// "export " as characters.
pub open spec fn export_prefix() -> Seq<char> {
    seq!['e', 'x', 'p', 'o', 'r', 't', ' ']
}

/// What an env-file line holds: nothing for a blank line, a comment or a
/// line without `=`; otherwise the key (trimmed, with leading "export "
/// removed) and the value (trimmed, then stripped of double and then single
/// quotes at both ends).
pub open spec fn env_line_spec(line: Seq<char>) -> Option<(Seq<char>, Seq<char>)> {
    let t = trim(line);
    if t.len() == 0 || t[0] == '#' {
        None
    } else {
        match first_index(t, '=') {
            None => None,
            Some(i) => Some(
                (
                    strip_all_prefix(trim(t.take(i)), export_prefix()),
                    trim_char(trim_char(trim(t.skip(i + 1)), '"'), '\''),
                ),
            ),
        }
    }
}

proof fn lemma_first_index(s: Seq<char>, c: char, i: int)
    requires
        0 <= i < s.len(),
        s[i] == c,
        forall|k: int| 0 <= k < i ==> s[k] != c,
    ensures
        first_index(s, c) == Some(i),
{
    assert(s.contains(c));
    let j = choose|j: int| 0 <= j < s.len() && s[j] == c && forall|k: int| 0 <= k < j ==> s[k] != c;
    assert(j == i) by {
        if j < i {
            assert(s[j] != c);
        } else if j > i {
            assert(s[i] != c);
        }
    }
}

/// Parses one line of an env file into key and value.
pub fn parse_env_line(line: &str) -> (r: Option<(Vec<char>, Vec<char>)>)
    ensures
        match env_line_spec(line@) {
            None => r is None,
            Some((k, v)) => r matches Some((k2, v2)) && k2@ == k && v2@ == v,
        },
{
    let raw = chars_of(line);
    let t = trim_chars(&raw);
    if t.len() == 0 || t[0] == '#' {
        return None;
    }
    let mut i: usize = 0;
    while i < t.len() && t[i] != '='
        invariant
            i <= t@.len(),
            forall|k: int| 0 <= k < i ==> t@[k] != '=',
        decreases t@.len() - i,
    {
        i = i + 1;
    }
    if i == t.len() {
        assert(!t@.contains('=')) by {
            if t@.contains('=') {
                let k = choose|k: int| 0 <= k < t@.len() && t@[k] == '=';
                assert(t@[k] != '=');
            }
        }
        return None;
    }
    proof {
        lemma_first_index(t@, '=', i as int);
    }
    let key_raw = chars_to(&t, i);
    let key_trim = trim_chars(&key_raw);
    let export = chars_of("export ");
    proof {
        reveal_strlit("export ");
    }
    assert(export@ =~= export_prefix());
    let key = strip_all_prefix_vec(&key_trim, &export);
    let value_raw = chars_from(&t, i + 1);
    let value_trim = trim_chars(&value_raw);
    let value_a = trim_char_vec(&value_trim, '"');
    let value = trim_char_vec(&value_a, '\'');
    Some((key, value))
}

/// Index of the first candidate that is present and not blank.
pub fn first_nonblank(candidates: &Vec<Option<String>>) -> (r: Option<usize>)
    ensures
        match r {
            Some(i) => i < candidates@.len() && candidates@[i as int] is Some && !is_blank(
                candidates@[i as int]->0@,
            ) && forall|k: int|
                0 <= k < i ==> (candidates@[k] is None || is_blank(#[trigger] candidates@[k]->0@)),
            None => forall|k: int|
                0 <= k < candidates@.len() ==> (candidates@[k] is None || is_blank(
                    #[trigger] candidates@[k]->0@,
                )),
        },
{
    let mut i: usize = 0;
    while i < candidates.len()
        invariant
            i <= candidates@.len(),
            forall|k: int|
                0 <= k < i ==> (candidates@[k] is None || is_blank(#[trigger] candidates@[k]->0@)),
        decreases candidates@.len() - i,
    {
        match &candidates[i] {
            Some(v) => {
                let c = chars_of(v.as_str());
                let t = trim_chars(&c);
                if t.len() > 0 {
                    return Some(i);
                }
            },
            None => {},
        }
        i = i + 1;
    }
    None
}

// ───────────────────────── `~` paths ─────────────────────────

/// How a path begins, as far as `~` goes.
#[derive(Debug, Clone, Copy, PartialEq, Eq)]
pub enum TildeForm {
    /// The path is `~` alone: the home directory.
    Home,
    /// The path is `~/` and then the rest from this character index on.
    UnderHome { rest_start: usize },
    /// The path does not begin with `~` or `~/`.
    Plain,
}

/// Classifies a path by its `~`: `~` alone, `~/` and a rest, or neither.
pub fn tilde_form(path: &str) -> (r: TildeForm)
    ensures
        r == (if path@ == seq!['~'] {
            TildeForm::Home
        } else if starts_with(path@, seq!['~', '/']) {
            TildeForm::UnderHome { rest_start: 2 }
        } else {
            TildeForm::Plain
        }),
{
    let v = chars_of(path);
    if v.len() == 1 && v[0] == '~' {
        assert(v@ =~= seq!['~']);
        TildeForm::Home
    } else if v.len() >= 2 && v[0] == '~' && v[1] == '/' {
        assert(v@.take(2) =~= seq!['~', '/']);
        assert(v@ != seq!['~']);
        TildeForm::UnderHome { rest_start: 2 }
    } else {
        assert(!starts_with(v@, seq!['~', '/'])) by {
            if starts_with(v@, seq!['~', '/']) {
                assert(v@.take(2)[0] == '~');
                assert(v@.take(2)[1] == '/');
            }
        }
        assert(v@ != seq!['~']) by {
            if v@ == seq!['~'] {
                assert(v@.len() == 1);
            }
        }
        TildeForm::Plain
    }
}

} // verus!
