//! Play and pause with no-op semantics: a backend asks this state which
//! hardware call a request needs, so that repeated requests do nothing.
use vstd::prelude::*;

verus! {

/// Whether a stream is running.
#[derive(Clone, Copy, Debug, PartialEq, Eq, Structural)]
pub struct RunState {
    pub playing: bool,
}

impl RunState {
    /// A stream that has not been started.
    pub fn new() -> (r: RunState)
        ensures
            !r.playing,
    {
        RunState { playing: false }
    }

    /// Records a play request; true when the hardware must be started.
    pub fn request_play(&mut self) -> (start: bool)
        ensures
            (*final(self), start) == after_play(*old(self)),
    {
        let start = !self.playing;
        self.playing = true;
        start
    }

    /// Records a pause request; true when the hardware must be suspended.
    pub fn request_pause(&mut self) -> (stop: bool)
        ensures
            (*final(self), stop) == after_pause(*old(self)),
    {
        let stop = self.playing;
        self.playing = false;
        stop
    }
}

/// The state after a play request, and whether it needed the hardware.
pub open spec fn after_play(s: RunState) -> (RunState, bool) {
    (RunState { playing: true }, !s.playing)
}

/// The state after a pause request, and whether it needed the hardware.
pub open spec fn after_pause(s: RunState) -> (RunState, bool) {
    (RunState { playing: false }, s.playing)
}

/// Playing a playing stream and pausing a paused one need no hardware call
/// and change nothing, so neither can fail; a second request of the same
/// kind is always of that sort.
pub proof fn lemma_requests_idempotent(s: RunState)
    ensures
        s.playing ==> after_play(s) == (s, false),
        !s.playing ==> after_pause(s) == (s, false),
        after_play(after_play(s).0) == (after_play(s).0, false),
        after_pause(after_pause(s).0) == (after_pause(s).0, false),
{
}

} // verus!
