//! The setup wizards, as state machines: each key press moves the wizard to
//! its next state and says whether setup goes on, was cancelled or is done.
use vstd::prelude::*;
use crate::text::chars_of;

verus! {

/// The port the bridge and the receiver use unless told otherwise.
pub const DEFAULT_PORT: u16 = 8000;

/// A key press, as the wizards see it.
#[derive(Debug, Clone, Copy, PartialEq, Eq)]
pub enum Key {
    Up,
    Down,
    Enter,
    Esc,
    Backspace,
    Char(char),
    Other,
}

/// Where a wizard stands after a key press.
#[derive(Debug, Clone, Copy, PartialEq, Eq)]
pub enum Outcome {
    Continue,
    Cancelled,
    Finished,
}

/// A printable ASCII character other than space (`char::is_ascii_graphic`).
pub open spec fn is_graphic(c: char) -> bool {
    '!' <= c <= '~'
}

/// An ASCII decimal digit (`char::is_ascii_digit`).
pub open spec fn is_digit(c: char) -> bool {
    '0' <= c <= '9'
}

/// The cursor moved up one line, stopping at the top.
pub open spec fn cursor_up(c: usize) -> usize {
    if c > 0 { (c - 1) as usize } else { 0 }
}

/// The cursor moved down one line in a list of `n` lines, stopping at the
/// last line (or at the top of an empty list).
pub open spec fn cursor_down(c: usize, n: usize) -> usize {
    let last: int = if n > 0 { n - 1 } else { 0 };
    if c + 1 <= last { (c + 1) as usize } else { last as usize }
}

fn move_up(c: usize) -> (r: usize)
    ensures
        r == cursor_up(c),
{
    c.saturating_sub(1)
}

fn move_down(c: usize, n: usize) -> (r: usize)
    ensures
        r == cursor_down(c, n),
{
    let last = n.saturating_sub(1);
    if c < last { c + 1 } else { last }
}

/// The device picked at `cursor` in a list of `n` devices, if there is one.
pub open spec fn pick(cursor: usize, n: usize) -> Option<usize> {
    if cursor < n { Some(cursor) } else { None }
}

fn pick_device(cursor: usize, n: usize) -> (r: Option<usize>)
    ensures
        r == pick(cursor, n),
{
    if cursor < n { Some(cursor) } else { None }
}

// ───────────────────────── bridge wizard ─────────────────────────

/// The sample rates the bridge and the receiver offer, in menu order.
pub open spec fn menu_rates() -> Seq<u32> {
    seq![44100u32, 48000u32, 88200u32, 96000u32, 176400u32, 192000u32]
}

/// The rate on line `i` of the rate menu.
pub fn menu_rate(i: usize) -> (r: u32)
    requires
        i < 6,
    ensures
        r == menu_rates()[i as int],
        r == (if i == 0 { 44100u32 } else if i == 1 { 48000u32 } else if i == 2 { 88200u32 } else if i == 3 { 96000u32 } else if i == 4 { 176400u32 } else { 192000u32 }),
{
    let rates: [u32; 6] = [44100, 48000, 88200, 96000, 176400, 192000];
    rates[i]
}


/// What the bridge does: send, receive, or both.
#[derive(Debug, Clone, Copy, PartialEq, Eq)]
pub enum RunMode {
    Send,
    Recv,
    Duplex,
}

/// The screens of the bridge wizard.
#[derive(Debug, Clone, Copy, PartialEq, Eq)]
pub enum BridgeStep {
    SelectMode { cursor: usize },
    SelectSampleRate { cursor: usize },
    SelectInput { cursor: usize },
    SelectOutput { cursor: usize },
    EnterIp,
}

/// The bridge wizard: mode, sample rate, devices (by index into the lists
/// it was given), the address being typed, once done the peer's address,
/// and the address the receiving side listens on.
pub struct BridgeWizard {
    pub step: BridgeStep,
    pub mode: RunMode,
    pub sample_rate: u32,
    pub input_device: Option<usize>,
    pub output_device: Option<usize>,
    pub ip: Vec<char>,
    pub remote_addr: Vec<char>,
    pub listen_addr: Vec<char>,
    pub n_inputs: usize,
    pub n_outputs: usize,
}

/// The bridge wizard as a value.
#[verifier::ext_equal]
pub struct BridgeState {
    pub step: BridgeStep,
    pub mode: RunMode,
    pub sample_rate: u32,
    pub input_device: Option<usize>,
    pub output_device: Option<usize>,
    pub ip: Seq<char>,
    pub remote_addr: Seq<char>,
    pub listen_addr: Seq<char>,
    pub n_inputs: usize,
    pub n_outputs: usize,
}

impl View for BridgeWizard {
    type V = BridgeState;

    open spec fn view(&self) -> BridgeState {
        BridgeState {
            step: self.step,
            mode: self.mode,
            sample_rate: self.sample_rate,
            input_device: self.input_device,
            output_device: self.output_device,
            ip: self.ip@,
            remote_addr: self.remote_addr@,
            listen_addr: self.listen_addr@,
            n_inputs: self.n_inputs,
            n_outputs: self.n_outputs,
        }
    }
}

/// The address the bridge receives on: every interface, the default port.
pub open spec fn bridge_listen_addr() -> Seq<char> {
    seq!['0', '.', '0', '.', '0', '.', '0', ':', '8', '0', '0', '0']
}

/// The typed address, with the default port appended when it names none.
pub open spec fn with_default_port(ip: Seq<char>) -> Seq<char> {
    if ip.contains(':') {
        ip
    } else {
        ip + seq![':', '8', '0', '0', '0']
    }
}

/// The bridge wizard's transition on key `k`.
pub open spec fn bridge_next(s: BridgeState, k: Key) -> (BridgeState, Outcome) {
    match s.step {
        BridgeStep::SelectMode { cursor } => match k {
            Key::Up => (BridgeState { step: BridgeStep::SelectMode { cursor: cursor_up(cursor) }, ..s }, Outcome::Continue),
            Key::Down => (BridgeState { step: BridgeStep::SelectMode { cursor: cursor_down(cursor, 3) }, ..s }, Outcome::Continue),
            Key::Enter => {
                let mode = if cursor == 0 { RunMode::Send } else if cursor == 1 { RunMode::Recv } else { RunMode::Duplex };
                (BridgeState { step: BridgeStep::SelectSampleRate { cursor: 1 }, mode, ..s }, Outcome::Continue)
            },
            Key::Esc => (s, Outcome::Cancelled),
            Key::Char(c) => (s, if c == 'q' { Outcome::Cancelled } else { Outcome::Continue }),
            _ => (s, Outcome::Continue),
        },
        BridgeStep::SelectSampleRate { cursor } => match k {
            Key::Up => (BridgeState { step: BridgeStep::SelectSampleRate { cursor: cursor_up(cursor) }, ..s }, Outcome::Continue),
            Key::Down => (BridgeState { step: BridgeStep::SelectSampleRate { cursor: cursor_down(cursor, 6) }, ..s }, Outcome::Continue),
            Key::Enter => {
                let step = if s.mode != RunMode::Recv { BridgeStep::SelectInput { cursor: 0 } } else { BridgeStep::SelectOutput { cursor: 0 } };
                (BridgeState { step, sample_rate: menu_rates()[cursor as int], ..s }, Outcome::Continue)
            },
            Key::Esc => (s, Outcome::Cancelled),
            _ => (s, Outcome::Continue),
        },
        BridgeStep::SelectInput { cursor } => match k {
            Key::Up => (BridgeState { step: BridgeStep::SelectInput { cursor: cursor_up(cursor) }, ..s }, Outcome::Continue),
            Key::Down => (BridgeState { step: BridgeStep::SelectInput { cursor: cursor_down(cursor, s.n_inputs) }, ..s }, Outcome::Continue),
            Key::Enter => {
                let step = if s.mode == RunMode::Duplex { BridgeStep::SelectOutput { cursor: 0 } } else { BridgeStep::EnterIp };
                (BridgeState { step, input_device: pick(cursor, s.n_inputs), ip: Seq::empty(), ..s }, Outcome::Continue)
            },
            Key::Esc => (s, Outcome::Cancelled),
            _ => (s, Outcome::Continue),
        },
        BridgeStep::SelectOutput { cursor } => match k {
            Key::Up => (BridgeState { step: BridgeStep::SelectOutput { cursor: cursor_up(cursor) }, ..s }, Outcome::Continue),
            Key::Down => (BridgeState { step: BridgeStep::SelectOutput { cursor: cursor_down(cursor, s.n_outputs) }, ..s }, Outcome::Continue),
            Key::Enter => {
                if s.mode == RunMode::Recv {
                    (BridgeState { output_device: pick(cursor, s.n_outputs), ..s }, Outcome::Finished)
                } else {
                    (BridgeState { step: BridgeStep::EnterIp, output_device: pick(cursor, s.n_outputs), ip: Seq::empty(), ..s }, Outcome::Continue)
                }
            },
            Key::Esc => (s, Outcome::Cancelled),
            _ => (s, Outcome::Continue),
        },
        BridgeStep::EnterIp => match k {
            Key::Enter => {
                if s.ip.len() > 0 {
                    (BridgeState { remote_addr: with_default_port(s.ip), ..s }, Outcome::Finished)
                } else {
                    (s, Outcome::Continue)
                }
            },
            Key::Backspace => (BridgeState { ip: if s.ip.len() > 0 { s.ip.drop_last() } else { s.ip }, ..s }, Outcome::Continue),
            Key::Char(c) => {
                if is_graphic(c) {
                    (BridgeState { ip: s.ip.push(c), ..s }, Outcome::Continue)
                } else {
                    (s, Outcome::Continue)
                }
            },
            Key::Esc => (s, Outcome::Cancelled),
            _ => (s, Outcome::Continue),
        },
    }
}

fn contains_char(v: &Vec<char>, c: char) -> (r: bool)
    ensures
        r == v@.contains(c),
{
    let mut i: usize = 0;
    while i < v.len()
        invariant
            i <= v@.len(),
            forall|k: int| 0 <= k < i ==> v@[k] != c,
        decreases v@.len() - i,
    {
        if v[i] == c {
            return true;
        }
        i = i + 1;
    }
    false
}

fn copy_chars(v: &Vec<char>) -> (r: Vec<char>)
    ensures
        r@ == v@,
{
    let mut out: Vec<char> = Vec::new();
    let mut i: usize = 0;
    while i < v.len()
        invariant
            i <= v@.len(),
            out@ == v@.take(i as int),
        decreases v@.len() - i,
    {
        out.push(v[i]);
        i = i + 1;
    }
    assert(v@.take(v@.len() as int) =~= v@);
    out
}

/// A rate the menu offers.
pub open spec fn is_menu_rate(r: u32) -> bool {
    exists|i: int| 0 <= i < 6 && menu_rates()[i] == r
}

/// What holds of every state the bridge wizard reaches: the rate cursor
/// stays on the menu and the rate is one it offers; chosen devices are in
/// their lists; the input and address screens appear only in modes that
/// send; and no peer address is set before the address screen, nor ever in
/// receive-only mode.
pub open spec fn bridge_wf(s: BridgeState) -> bool {
    &&& s.step matches BridgeStep::SelectSampleRate { cursor } ==> cursor < 6
    &&& is_menu_rate(s.sample_rate)
    &&& s.input_device matches Some(i) ==> i < s.n_inputs
    &&& s.output_device matches Some(i) ==> i < s.n_outputs
    &&& (s.step is SelectInput || s.step is EnterIp) ==> s.mode != RunMode::Recv
    &&& (s.step is SelectMode || s.mode == RunMode::Recv) ==> s.remote_addr.len() == 0
    &&& s.listen_addr == bridge_listen_addr()
}

impl BridgeWizard {
    /// The wizard on its first screen, for the given numbers of input and
    /// output devices.
    pub fn new(n_inputs: usize, n_outputs: usize) -> (r: BridgeWizard)
        ensures
            r@ == (BridgeState {
                step: BridgeStep::SelectMode { cursor: 0 },
                mode: RunMode::Send,
                sample_rate: 48000,
                input_device: None,
                output_device: None,
                ip: Seq::empty(),
                remote_addr: Seq::empty(),
                listen_addr: bridge_listen_addr(),
                n_inputs,
                n_outputs,
            }),
            bridge_wf(r@),
    {
        assert(menu_rates()[1] == 48000);
        let listen_addr = chars_of("0.0.0.0:8000");
        proof {
            reveal_strlit("0.0.0.0:8000");
        }
        assert(listen_addr@ =~= bridge_listen_addr());
        BridgeWizard {
            step: BridgeStep::SelectMode { cursor: 0 },
            mode: RunMode::Send,
            sample_rate: 48000,
            input_device: None,
            output_device: None,
            ip: Vec::new(),
            remote_addr: Vec::new(),
            listen_addr,
            n_inputs,
            n_outputs,
        }
    }

    /// Handles one key press.
    pub fn handle_key(&mut self, k: Key) -> (r: Outcome)
        requires
            bridge_wf(old(self)@),
        ensures
            final(self)@ =~= bridge_next(old(self)@, k).0,
            r == bridge_next(old(self)@, k).1,
            bridge_wf(final(self)@),
            k == Key::Enter ==> (old(self).step matches BridgeStep::SelectInput { cursor } ==> (cursor < old(self).n_inputs ==> final(self).input_device == Some(cursor))),
            k == Key::Enter ==> (old(self).step matches BridgeStep::SelectOutput { cursor } ==> (cursor < old(self).n_outputs ==> final(self).output_device == Some(cursor))),
            k == Key::Enter ==> (old(self).step matches BridgeStep::SelectSampleRate { cursor } ==> final(self).sample_rate == (if cursor == 0 { 44100u32 } else if cursor == 1 { 48000u32 } else if cursor == 2 { 88200u32 } else if cursor == 3 { 96000u32 } else if cursor == 4 { 176400u32 } else { 192000u32 })),
    {
        match self.step {
            BridgeStep::SelectMode { cursor } => match k {
                Key::Up => {
                    self.step = BridgeStep::SelectMode { cursor: move_up(cursor) };
                    Outcome::Continue
                },
                Key::Down => {
                    self.step = BridgeStep::SelectMode { cursor: move_down(cursor, 3) };
                    Outcome::Continue
                },
                Key::Enter => {
                    self.mode = if cursor == 0 {
                        RunMode::Send
                    } else if cursor == 1 {
                        RunMode::Recv
                    } else {
                        RunMode::Duplex
                    };
                    self.step = BridgeStep::SelectSampleRate { cursor: 1 };
                    Outcome::Continue
                },
                Key::Esc => Outcome::Cancelled,
                Key::Char(c) => {
                    if c == 'q' {
                        Outcome::Cancelled
                    } else {
                        Outcome::Continue
                    }
                },
                _ => Outcome::Continue,
            },
            BridgeStep::SelectSampleRate { cursor } => match k {
                Key::Up => {
                    self.step = BridgeStep::SelectSampleRate { cursor: move_up(cursor) };
                    Outcome::Continue
                },
                Key::Down => {
                    self.step = BridgeStep::SelectSampleRate { cursor: move_down(cursor, 6) };
                    Outcome::Continue
                },
                Key::Enter => {
                    self.sample_rate = menu_rate(cursor);
                    self.step = match self.mode {
                        RunMode::Recv => BridgeStep::SelectOutput { cursor: 0 },
                        _ => BridgeStep::SelectInput { cursor: 0 },
                    };
                    Outcome::Continue
                },
                Key::Esc => Outcome::Cancelled,
                _ => Outcome::Continue,
            },
            BridgeStep::SelectInput { cursor } => match k {
                Key::Up => {
                    self.step = BridgeStep::SelectInput { cursor: move_up(cursor) };
                    Outcome::Continue
                },
                Key::Down => {
                    self.step = BridgeStep::SelectInput { cursor: move_down(cursor, self.n_inputs) };
                    Outcome::Continue
                },
                Key::Enter => {
                    self.input_device = pick_device(cursor, self.n_inputs);
                    self.step = match self.mode {
                        RunMode::Duplex => BridgeStep::SelectOutput { cursor: 0 },
                        _ => BridgeStep::EnterIp,
                    };
                    self.ip = Vec::new();
                    Outcome::Continue
                },
                Key::Esc => Outcome::Cancelled,
                _ => Outcome::Continue,
            },
            BridgeStep::SelectOutput { cursor } => match k {
                Key::Up => {
                    self.step = BridgeStep::SelectOutput { cursor: move_up(cursor) };
                    Outcome::Continue
                },
                Key::Down => {
                    self.step = BridgeStep::SelectOutput { cursor: move_down(cursor, self.n_outputs) };
                    Outcome::Continue
                },
                Key::Enter => {
                    self.output_device = pick_device(cursor, self.n_outputs);
                    match self.mode {
                        RunMode::Recv => Outcome::Finished,
                        _ => {
                            self.step = BridgeStep::EnterIp;
                            self.ip = Vec::new();
                            Outcome::Continue
                        },
                    }
                },
                Key::Esc => Outcome::Cancelled,
                _ => Outcome::Continue,
            },
            BridgeStep::EnterIp => match k {
                Key::Enter => {
                    if self.ip.len() > 0 {
                        let mut addr = copy_chars(&self.ip);
                        if !contains_char(&self.ip, ':') {
                            addr.push(':');
                            addr.push('8');
                            addr.push('0');
                            addr.push('0');
                            addr.push('0');
                        }
                        self.remote_addr = addr;
                        Outcome::Finished
                    } else {
                        Outcome::Continue
                    }
                },
                Key::Backspace => {
                    self.ip.pop();
                    Outcome::Continue
                },
                Key::Char(c) => {
                    if '!' <= c && c <= '~' {
                        self.ip.push(c);
                    }
                    Outcome::Continue
                },
                Key::Esc => Outcome::Cancelled,
                _ => Outcome::Continue,
            },
        }
    }
}

/// A finished bridge setup is complete for its mode: it listens on
/// 0.0.0.0:8000; a receive-only setup ends on the output screen with no peer
/// address; a setup that sends ends on the address screen with a non-empty
/// peer address that names a port and begins with what was typed.
pub proof fn lemma_bridge_finish(s: BridgeState, k: Key)
    requires
        bridge_wf(s),
        bridge_next(s, k).1 == Outcome::Finished,
    ensures
        bridge_next(s, k).0.listen_addr == bridge_listen_addr(),
        s.mode == RunMode::Recv ==> s.step is SelectOutput && bridge_next(s, k).0.remote_addr.len() == 0,
        s.mode != RunMode::Recv ==> s.step is EnterIp && bridge_next(s, k).0.remote_addr.len() > 0
            && bridge_next(s, k).0.remote_addr.contains(':')
            && bridge_next(s, k).0.remote_addr.take(s.ip.len() as int) == s.ip,
{
    let t = bridge_next(s, k).0;
    if s.step is EnterIp {
        if !s.ip.contains(':') {
            assert(t.remote_addr[s.ip.len() as int] == ':');
        }
        assert(t.remote_addr.take(s.ip.len() as int) =~= s.ip);
    }
}

/// Enter on a list screen of the bridge wizard takes the highlighted line:
/// the mode menu reads send, receive, duplex; the rate menu reads 44.1, 48,
/// 88.2, 96, 176.4 and 192 kHz; on the input and output screens the
/// highlighted device is the one chosen, in every mode.
pub proof fn lemma_bridge_picks_highlighted(s: BridgeState)
    requires
        bridge_wf(s),
    ensures
        s.step matches BridgeStep::SelectMode { cursor } ==> bridge_next(s, Key::Enter).0.mode == (
            if cursor == 0 { RunMode::Send } else if cursor == 1 { RunMode::Recv } else { RunMode::Duplex }),
        s.step matches BridgeStep::SelectSampleRate { cursor } ==> bridge_next(s, Key::Enter).0.sample_rate == (if cursor == 0 { 44100u32 } else if cursor == 1 { 48000u32 } else if cursor == 2 { 88200u32 } else if cursor == 3 { 96000u32 } else if cursor == 4 { 176400u32 } else { 192000u32 }),
        s.step matches BridgeStep::SelectInput { cursor } ==> (cursor < s.n_inputs ==> bridge_next(s, Key::Enter).0.input_device == Some(cursor)),
        s.step matches BridgeStep::SelectOutput { cursor } ==> (cursor < s.n_outputs ==> bridge_next(s, Key::Enter).0.output_device == Some(cursor)),
{
}

// ───────────────────────── receiver wizard ─────────────────────────

/// The screens of the receiver wizard.
#[derive(Debug, Clone, Copy, PartialEq, Eq)]
pub enum ReceiverStep {
    SelectSampleRate { cursor: usize },
    SelectOutput { cursor: usize },
    EnterPort,
}

/// The receiver wizard: rate, output device (by index), the port being
/// typed and, once done, the port to listen on.
pub struct ReceiverWizard {
    pub step: ReceiverStep,
    pub sample_rate: u32,
    pub output_device: Option<usize>,
    pub port_buf: Vec<char>,
    pub port: u16,
    pub n_outputs: usize,
}

/// The receiver wizard as a value.
#[verifier::ext_equal]
pub struct ReceiverState {
    pub step: ReceiverStep,
    pub sample_rate: u32,
    pub output_device: Option<usize>,
    pub port_buf: Seq<char>,
    pub port: u16,
    pub n_outputs: usize,
}

impl View for ReceiverWizard {
    type V = ReceiverState;

    open spec fn view(&self) -> ReceiverState {
        ReceiverState {
            step: self.step,
            sample_rate: self.sample_rate,
            output_device: self.output_device,
            port_buf: self.port_buf@,
            port: self.port,
            n_outputs: self.n_outputs,
        }
    }
}

/// What holds of every state the receiver wizard reaches: the rate cursor
/// stays on the menu, the rate is one it offers, and a chosen device is in
/// the list.
pub open spec fn receiver_wf(s: ReceiverState) -> bool {
    &&& s.step matches ReceiverStep::SelectSampleRate { cursor } ==> cursor < 6
    &&& is_menu_rate(s.sample_rate)
    &&& s.output_device matches Some(i) ==> i < s.n_outputs
}

/// The value of a string of decimal digits.
pub open spec fn digits_value(s: Seq<char>) -> nat
    decreases s.len(),
{
    if s.len() == 0 {
        0
    } else {
        digits_value(s.drop_last()) * 10 + (s.last() as nat - '0' as nat) as nat
    }
}

/// Every character is a decimal digit.
pub open spec fn all_digits(s: Seq<char>) -> bool {
    forall|i: int| 0 <= i < s.len() ==> is_digit(#[trigger] s[i])
}

/// What `str::parse::<u16>` gives: an optional `+` and then one or more
/// digits whose value fits in 16 bits.
pub open spec fn parse_u16_spec(s: Seq<char>) -> Option<u16> {
    let d = if s.len() > 0 && s[0] == '+' { s.drop_first() } else { s };
    if d.len() > 0 && all_digits(d) && digits_value(d) <= 65535 {
        Some(digits_value(d) as u16)
    } else {
        None
    }
}

/// The port the receiver listens on for the typed text: the default port
/// when nothing was typed or the text is not a 16-bit number.
pub open spec fn port_spec(s: Seq<char>) -> u16 {
    if s.len() == 0 {
        DEFAULT_PORT
    } else {
        match parse_u16_spec(s) {
            Some(p) => p,
            None => DEFAULT_PORT,
        }
    }
}

proof fn lemma_digits_value_grows(s: Seq<char>, k: int)
    requires
        all_digits(s),
        0 <= k <= s.len(),
    ensures
        digits_value(s.take(k)) <= digits_value(s),
    decreases s.len() - k,
{
    if k < s.len() {
        lemma_digits_value_grows(s, k + 1);
        assert(s.take(k + 1).drop_last() =~= s.take(k));
        assert(is_digit(s[k]));
    } else {
        assert(s.take(k) =~= s);
    }
}

/// Parses the typed port text as `str::parse::<u16>` does.
pub fn parse_u16(s: &Vec<char>) -> (r: Option<u16>)
    ensures
        r == parse_u16_spec(s@),
{
    let n = s.len();
    let start: usize = if n > 0 && s[0] == '+' { 1 } else { 0 };
    let ghost d = if s@.len() > 0 && s@[0] == '+' { s@.drop_first() } else { s@ };
    assert(d =~= s@.skip(start as int));
    if start >= n {
        return None;
    }
    let mut value: u32 = 0;
    let mut i: usize = start;
    while i < n
        invariant
            start <= i <= n,
            n == s@.len(),
            d =~= s@.skip(start as int),
            d == (if s@.len() > 0 && s@[0] == '+' { s@.drop_first() } else { s@ }),
            start < n,
            all_digits(s@.subrange(start as int, i as int)),
            value == digits_value(s@.subrange(start as int, i as int)),
            value <= 65535,
        decreases n - i,
    {
        let c = s[i];
        if !('0' <= c && c <= '9') {
            assert(d[i - start] == c);
            assert(!is_digit(d[i - start]));
            return None;
        }
        let digit = (c as u32) - ('0' as u32);
        let next = value * 10 + digit;
        proof {
            let t = s@.subrange(start as int, i + 1);
            assert(t.drop_last() =~= s@.subrange(start as int, i as int));
            assert(t.last() == c);
        }
        if next > 65535 {
            proof {
                let t = s@.subrange(start as int, i + 1);
                assert(digits_value(t) == digits_value(t.drop_last()) * 10 + (t.last() as nat - '0' as nat) as nat);
                assert(digits_value(t) == next);
                if all_digits(d) {
                    assert(d.take(i + 1 - start) =~= t);
                    lemma_digits_value_grows(d, i + 1 - start);
                }
            }
            return None;
        }
        value = next;
        i = i + 1;
    }
    assert(s@.subrange(start as int, n as int) =~= d);
    Some(value as u16)
}

/// The port for the typed text: the default when nothing was typed or the
/// text is not a 16-bit number.
pub fn port_from_text(s: &Vec<char>) -> (r: u16)
    ensures
        r == port_spec(s@),
{
    if s.len() == 0 {
        DEFAULT_PORT
    } else {
        match parse_u16(s) {
            Some(p) => p,
            None => DEFAULT_PORT,
        }
    }
}

/// The receiver wizard's transition on key `k`.
pub open spec fn receiver_next(s: ReceiverState, k: Key) -> (ReceiverState, Outcome) {
    match s.step {
        ReceiverStep::SelectSampleRate { cursor } => match k {
            Key::Up => (ReceiverState { step: ReceiverStep::SelectSampleRate { cursor: cursor_up(cursor) }, ..s }, Outcome::Continue),
            Key::Down => (ReceiverState { step: ReceiverStep::SelectSampleRate { cursor: cursor_down(cursor, 6) }, ..s }, Outcome::Continue),
            Key::Enter => (ReceiverState { step: ReceiverStep::SelectOutput { cursor: 0 }, sample_rate: menu_rates()[cursor as int], ..s }, Outcome::Continue),
            Key::Esc => (s, Outcome::Cancelled),
            Key::Char(c) => (s, if c == 'q' { Outcome::Cancelled } else { Outcome::Continue }),
            _ => (s, Outcome::Continue),
        },
        ReceiverStep::SelectOutput { cursor } => match k {
            Key::Up => (ReceiverState { step: ReceiverStep::SelectOutput { cursor: cursor_up(cursor) }, ..s }, Outcome::Continue),
            Key::Down => (ReceiverState { step: ReceiverStep::SelectOutput { cursor: cursor_down(cursor, s.n_outputs) }, ..s }, Outcome::Continue),
            Key::Enter => (ReceiverState { step: ReceiverStep::EnterPort, output_device: pick(cursor, s.n_outputs), port_buf: Seq::empty(), ..s }, Outcome::Continue),
            Key::Esc => (s, Outcome::Cancelled),
            _ => (s, Outcome::Continue),
        },
        ReceiverStep::EnterPort => match k {
            Key::Enter => (ReceiverState { port: port_spec(s.port_buf), ..s }, Outcome::Finished),
            Key::Backspace => (ReceiverState { port_buf: if s.port_buf.len() > 0 { s.port_buf.drop_last() } else { s.port_buf }, ..s }, Outcome::Continue),
            Key::Char(c) => {
                if is_digit(c) {
                    (ReceiverState { port_buf: s.port_buf.push(c), ..s }, Outcome::Continue)
                } else {
                    (s, Outcome::Continue)
                }
            },
            Key::Esc => (s, Outcome::Cancelled),
            _ => (s, Outcome::Continue),
        },
    }
}

/// Enter on a list screen of the receiver wizard takes the highlighted
/// line: the rate menu reads 44.1, 48, 88.2, 96, 176.4 and 192 kHz, and on
/// the output screen the highlighted device is the one chosen.
pub proof fn lemma_receiver_picks_highlighted(s: ReceiverState)
    requires
        receiver_wf(s),
    ensures
        s.step matches ReceiverStep::SelectSampleRate { cursor } ==> receiver_next(s, Key::Enter).0.sample_rate == (if cursor == 0 { 44100u32 } else if cursor == 1 { 48000u32 } else if cursor == 2 { 88200u32 } else if cursor == 3 { 96000u32 } else if cursor == 4 { 176400u32 } else { 192000u32 }),
        s.step matches ReceiverStep::SelectOutput { cursor } ==> (cursor < s.n_outputs ==> receiver_next(s, Key::Enter).0.output_device == Some(cursor)),
{
}

impl ReceiverWizard {
    /// The wizard on its first screen, with the cursor on 48 kHz.
    pub fn new(n_outputs: usize) -> (r: ReceiverWizard)
        ensures
            r@ == (ReceiverState {
                step: ReceiverStep::SelectSampleRate { cursor: 1 },
                sample_rate: 48000,
                output_device: None,
                port_buf: Seq::empty(),
                port: DEFAULT_PORT,
                n_outputs,
            }),
            menu_rates()[1] == 48000,
            receiver_wf(r@),
    {
        ReceiverWizard {
            step: ReceiverStep::SelectSampleRate { cursor: 1 },
            sample_rate: 48000,
            output_device: None,
            port_buf: Vec::new(),
            port: DEFAULT_PORT,
            n_outputs,
        }
    }

    /// Handles one key press.
    pub fn handle_key(&mut self, k: Key) -> (r: Outcome)
        requires
            receiver_wf(old(self)@),
        ensures
            final(self)@ =~= receiver_next(old(self)@, k).0,
            r == receiver_next(old(self)@, k).1,
            receiver_wf(final(self)@),
            k == Key::Enter ==> (old(self).step matches ReceiverStep::SelectOutput { cursor } ==> (cursor < old(self).n_outputs ==> final(self).output_device == Some(cursor))),
            k == Key::Enter ==> (old(self).step matches ReceiverStep::SelectSampleRate { cursor } ==> final(self).sample_rate == (if cursor == 0 { 44100u32 } else if cursor == 1 { 48000u32 } else if cursor == 2 { 88200u32 } else if cursor == 3 { 96000u32 } else if cursor == 4 { 176400u32 } else { 192000u32 })),
    {
        match self.step {
            ReceiverStep::SelectSampleRate { cursor } => match k {
                Key::Up => {
                    self.step = ReceiverStep::SelectSampleRate { cursor: move_up(cursor) };
                    Outcome::Continue
                },
                Key::Down => {
                    self.step = ReceiverStep::SelectSampleRate { cursor: move_down(cursor, 6) };
                    Outcome::Continue
                },
                Key::Enter => {
                    self.sample_rate = menu_rate(cursor);
                    self.step = ReceiverStep::SelectOutput { cursor: 0 };
                    Outcome::Continue
                },
                Key::Esc => Outcome::Cancelled,
                Key::Char(c) => {
                    if c == 'q' {
                        Outcome::Cancelled
                    } else {
                        Outcome::Continue
                    }
                },
                _ => Outcome::Continue,
            },
            ReceiverStep::SelectOutput { cursor } => match k {
                Key::Up => {
                    self.step = ReceiverStep::SelectOutput { cursor: move_up(cursor) };
                    Outcome::Continue
                },
                Key::Down => {
                    self.step = ReceiverStep::SelectOutput { cursor: move_down(cursor, self.n_outputs) };
                    Outcome::Continue
                },
                Key::Enter => {
                    self.output_device = pick_device(cursor, self.n_outputs);
                    self.step = ReceiverStep::EnterPort;
                    self.port_buf = Vec::new();
                    Outcome::Continue
                },
                Key::Esc => Outcome::Cancelled,
                _ => Outcome::Continue,
            },
            ReceiverStep::EnterPort => match k {
                Key::Enter => {
                    self.port = port_from_text(&self.port_buf);
                    Outcome::Finished
                },
                Key::Backspace => {
                    self.port_buf.pop();
                    Outcome::Continue
                },
                Key::Char(c) => {
                    if '0' <= c && c <= '9' {
                        self.port_buf.push(c);
                    }
                    Outcome::Continue
                },
                Key::Esc => Outcome::Cancelled,
                _ => Outcome::Continue,
            },
        }
    }
}

} // verus!
