//! The delay and sound counters.

use vstd::prelude::*;

verus! {

/// Ticks per second: the timers tick once a frame, at the frame rate.
pub const TICK_HZ: u32 = 60;

/// What a tick of the timers reports.
#[derive(Clone, Copy, Debug, PartialEq, Eq, Structural)]
pub enum TimerTick {
    /// Nothing to report.
    Normal,
    /// The sound counter went from one to zero on this tick.
    SoundTimerZero,
}

/// Two independent 8-bit counters that count down to zero and stay there.
#[derive(Clone, Copy, Debug, PartialEq, Eq, Structural)]
pub struct Timer {
    pub delay: u8,
    pub sound: u8,
}

/// A counter after one tick: one less, unless it is already zero.
pub open spec fn counted_down(counter: u8) -> u8 {
    if counter > 0 {
        (counter - 1) as u8
    } else {
        0u8
    }
}

/// The timer that one tick makes of `t`.
pub open spec fn ticked(t: Timer) -> Timer {
    Timer { delay: counted_down(t.delay), sound: counted_down(t.sound) }
}

/// What a tick of `t` reports: the zero transition of the sound counter.
pub open spec fn tick_report(t: Timer) -> TimerTick {
    if t.sound == 1 {
        TimerTick::SoundTimerZero
    } else {
        TimerTick::Normal
    }
}

impl Default for Timer {
    fn default() -> (t: Timer)
        ensures
            t == (Timer { delay: 0, sound: 0 }),
    {
        Timer { delay: 0, sound: 0 }
    }
}

impl Timer {
    /// Counts both counters down by one step and reports whether the sound
    /// counter reached zero on this very tick.
    pub fn tick(&mut self) -> (report: TimerTick)
        ensures
            *final(self) == ticked(*old(self)),
            report == tick_report(*old(self)),
    {
        if self.delay > 0 {
            self.delay -= 1;
        }
        if self.sound > 0 {
            self.sound -= 1;
            if self.sound == 0 {
                return TimerTick::SoundTimerZero;
            }
        }
        TimerTick::Normal
    }
}

/// The timer that `k` successive ticks make of `t`.
pub open spec fn ticked_times(t: Timer, k: nat) -> Timer
    decreases k,
{
    if k == 0 {
        t
    } else {
        ticked(ticked_times(t, (k - 1) as nat))
    }
}

/// After `k` ticks each counter has lost `k`, stopping at zero; the tick that
/// follows reports the zero transition exactly when the sound counter started
/// at `k + 1`.
pub proof fn lemma_ticks(t: Timer, k: nat)
    ensures
        ticked_times(t, k).delay == if t.delay >= k { t.delay - k } else { 0 },
        ticked_times(t, k).sound == if t.sound >= k { t.sound - k } else { 0 },
        tick_report(ticked_times(t, k)) == TimerTick::SoundTimerZero <==> t.sound == k + 1,
    decreases k,
{
    if k > 0 {
        lemma_ticks(t, (k - 1) as nat);
    }
}

} // verus!
