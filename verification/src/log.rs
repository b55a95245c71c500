//! The log file's line format and its rotation rule.
use vstd::prelude::*;
use crate::text::{decimal, push_decimal, append_str};

verus! {

/// Size above which the log file is moved aside at start-up: 10 MiB.
pub const MAX_LOG_BYTES: u64 = 10485760;

/// The line written for `msg` at `now_secs` seconds since the epoch:
/// the time in brackets, a space, the message and a newline.
pub open spec fn log_line(now_secs: u64, msg: Seq<char>) -> Seq<char> {
    seq!['['] + decimal(now_secs as nat) + seq![']', ' '] + msg + seq!['\n']
}

/// The line to append to the log for `msg` at `now_secs`.
pub fn log(now_secs: u64, msg: &str) -> (r: Vec<char>)
    ensures
        r@ == log_line(now_secs, msg@),
{
    let mut out: Vec<char> = Vec::new();
    out.push('[');
    push_decimal(&mut out, now_secs as u128);
    out.push(']');
    out.push(' ');
    append_str(&mut out, msg);
    out.push('\n');
    assert(out@ =~= log_line(now_secs, msg@));
    out
}

/// The message logged when a program starts: `=== role started ===`.
pub fn started_message(role: &str) -> (r: Vec<char>)
    ensures
        r@ == "=== "@ + role@ + " started ==="@,
{
    let mut out: Vec<char> = Vec::new();
    append_str(&mut out, "=== ");
    append_str(&mut out, role);
    append_str(&mut out, " started ===");
    assert(out@ =~= "=== "@ + role@ + " started ==="@);
    out
}

/// Whether a log file of `len` bytes is rotated before logging resumes.
pub fn should_rotate(len: u64) -> (r: bool)
    ensures
        r == (len > MAX_LOG_BYTES),
{
    len > MAX_LOG_BYTES
}

} // verus!
