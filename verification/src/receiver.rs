//! The drift-correcting receiver's shared values.
use vstd::prelude::*;

verus! {

/// The values the receiver's threads share (the drift-correction gain, a
/// floating-point value, is kept beside them by the program).
#[derive(Debug, Clone, Copy, PartialEq, Eq)]
pub struct State {
    pub raw_ms: usize,
    pub play_ms: usize,
    pub loss: u64,
    pub buf_overflow: u64,
    pub ppm: i64,
    pub rebuffering: bool,
    pub jitter_ms: usize,
    pub running: bool,
}

impl State {
    /// Empty buffers, rebuffering, a 300 ms jitter target, running.
    pub fn new() -> (r: State)
        ensures
            r == (State {
                raw_ms: 0,
                play_ms: 0,
                loss: 0,
                buf_overflow: 0,
                ppm: 0,
                rebuffering: true,
                jitter_ms: 300,
                running: true,
            }),
    {
        State {
            raw_ms: 0,
            play_ms: 0,
            loss: 0,
            buf_overflow: 0,
            ppm: 0,
            rebuffering: true,
            jitter_ms: 300,
            running: true,
        }
    }
}

} // verus!
