//! Frame-rate diagnostics: a last-sample time and a frame count. Purely
//! observational state — nothing in the stepping protocol reads it, and its
//! contracts keep it from gating any core behavior.

use vstd::prelude::*;

verus! {

/// One second, in the nanosecond unit of the host's performance counter.
pub const SECOND_NS: u64 = 1_000_000_000;

/// Diagnostic frame-timing state: the counter reading at which the current
/// one-second window opened, and the frames counted since.
#[derive(Clone, Copy, PartialEq, Eq, Structural, Debug)]
pub struct FrameTimer {
    pub last_time_ns: u64,
    pub frames: u64,
}

/// Whether a frame sampled at `now` closes the timer's one-second window.
pub open spec fn window_rolls(t: FrameTimer, now: u64) -> bool {
    now >= t.last_time_ns + SECOND_NS
}

/// The timer after one frame sampled at `now`: a closed window restarts at
/// `now` with a zeroed count; otherwise the count grows by one (saturating —
/// the count is diagnostic and must never fault).
pub open spec fn timer_after(t: FrameTimer, now: u64) -> FrameTimer {
    if window_rolls(t, now) {
        FrameTimer { last_time_ns: now, frames: 0 }
    } else if t.frames == u64::MAX {
        t
    } else {
        FrameTimer { last_time_ns: t.last_time_ns, frames: (t.frames + 1) as u64 }
    }
}

/// The frames-per-second figure a frame sampled at `now` reports: the closed
/// window's count, or nothing while the window is still open.
pub open spec fn fps_report(t: FrameTimer, now: u64) -> Option<u64> {
    if window_rolls(t, now) {
        Some(t.frames)
    } else {
        None
    }
}

/// Relies on time::precise_time_ns: the current value of the host's
/// high-resolution performance counter, in nanoseconds since an unspecified
/// epoch. The reading depends on the moment of the call, so nothing is
/// promised of it.
#[verifier::external_body]
pub fn now_ns() -> u64 {
    time::precise_time_ns()
}

impl FrameTimer {
    /// A timer at the epoch with nothing counted yet.
    pub fn new() -> (t: FrameTimer)
        ensures
            t == (FrameTimer { last_time_ns: 0, frames: 0 }),
    {
        FrameTimer { last_time_ns: 0, frames: 0 }
    }

    /// Counts one frame sampled at `now`, reporting the frames-per-second
    /// figure whenever a one-second window closes.
    pub fn record_frame(&mut self, now: u64) -> (report: Option<u64>)
        ensures
            *final(self) == timer_after(*old(self), now),
            report == fps_report(*old(self), now),
    {
        if now >= SECOND_NS && now - SECOND_NS >= self.last_time_ns {
            let fps = self.frames;
            self.last_time_ns = now;
            self.frames = 0;
            Some(fps)
        } else {
            if self.frames < u64::MAX {
                self.frames = self.frames + 1;
            }
            None
        }
    }
}

} // verus!
