//! The frame scheduler's pacing rules.  The timer decides, from the current
//! time in microseconds, how long the rendering thread must wait for its
//! next tick and whether a frame was skipped; the caller does the actual
//! sleeping and supplies a monotonic clock.

use vstd::prelude::*;

verus! {

/// One million microseconds: one second, and the highest supported rate.
pub const MICROS_PER_SECOND: u64 = 1000000;

/// Largest supported time stamp; keeps every deadline sum inside `u64`.
pub const TIME_LIMIT: u64 = 0x3fffffffffffffff;

/// Fixed-interval tick scheduling with drift correction, overrun detection
/// and an optional per-second throughput counter.
pub struct IntervalTimer {
    pub interval_us: u64,
    pub last_tick_us: u64,
    pub measure_fps: bool,
    pub last_fps_print_us: u64,
    pub frames: u32,
    pub fps: u32,
}

impl IntervalTimer {
    pub open spec fn wf(self) -> bool {
        1 <= self.interval_us <= MICROS_PER_SECOND
    }

    /// Configure a fixed tick interval of `1 / freq_hz` seconds, anchored
    /// at the current time.
    pub fn new(freq_hz: u32, measure_fps: bool, now_us: u64) -> (timer: IntervalTimer)
        requires
            1 <= freq_hz <= MICROS_PER_SECOND,
            now_us <= TIME_LIMIT,
        ensures
            timer.wf(),
            timer.interval_us == MICROS_PER_SECOND as int / freq_hz as int,
            timer.last_tick_us == now_us,
            timer.measure_fps == measure_fps,
            timer.last_fps_print_us == now_us,
            timer.frames == 0,
            timer.fps == 0,
    {
        proof {
            assert(1 <= MICROS_PER_SECOND as int / freq_hz as int <= MICROS_PER_SECOND)
                by (nonlinear_arith)
                requires 1 <= freq_hz <= MICROS_PER_SECOND;
        }
        IntervalTimer {
            interval_us: MICROS_PER_SECOND / (freq_hz as u64),
            last_tick_us: now_us,
            measure_fps,
            last_fps_print_us: now_us,
            frames: 0,
            fps: 0,
        }
    }

    /// Decide the next tick.  If the deadline `last tick + interval` is
    /// still ahead, wait until it and keep phase; if the previous tick's
    /// work overran the interval, report the frame as skipped and re-anchor
    /// the schedule to the present instead of chaining further behind.
    /// Returns the wait in microseconds and whether a frame was skipped.
    pub fn advance_to_next_tick(&mut self, now_us: u64) -> (r: (u64, bool))
        requires
            old(self).wf(),
            now_us <= TIME_LIMIT,
            old(self).last_tick_us <= now_us + old(self).interval_us,
        ensures
            final(self).wf(),
            final(self).last_tick_us <= now_us + 2 * old(self).interval_us,
            final(self).interval_us == old(self).interval_us,
            final(self).measure_fps == old(self).measure_fps,
            final(self).last_fps_print_us == old(self).last_fps_print_us,
            final(self).frames == old(self).frames,
            final(self).fps == old(self).fps,
            ({
                let deadline = old(self).last_tick_us + old(self).interval_us;
                if deadline > now_us {
                    &&& r.0 == deadline - now_us
                    &&& r.1 == false
                    &&& final(self).last_tick_us == deadline
                } else {
                    &&& r.0 == old(self).interval_us
                    &&& r.1 == true
                    &&& final(self).last_tick_us == now_us + old(self).interval_us
                }
            }),
    {
        let deadline = self.last_tick_us + self.interval_us;
        if deadline > now_us {
            self.last_tick_us = deadline;
            (deadline - now_us, false)
        } else {
            self.last_tick_us = now_us + self.interval_us;
            (self.interval_us, true)
        }
    }

    /// The tick count of the last full second.
    pub fn fps(&self) -> (r: u32)
        ensures
            r == self.fps,
    {
        self.fps
    }

    /// Count the tick; once a second has passed, publish the accumulated
    /// count as the readable rate and start a new second.
    pub fn update_fps(&mut self, now_us: u64)
        requires
            now_us >= old(self).last_fps_print_us,
        ensures
            final(self).interval_us == old(self).interval_us,
            final(self).last_tick_us == old(self).last_tick_us,
            final(self).measure_fps == old(self).measure_fps,
            ({
                let counted: int = if old(self).frames < u32::MAX {
                    old(self).frames + 1
                } else {
                    old(self).frames as int
                };
                if now_us - old(self).last_fps_print_us > MICROS_PER_SECOND {
                    &&& final(self).fps == counted
                    &&& final(self).frames == 0
                    &&& final(self).last_fps_print_us == now_us
                } else {
                    &&& final(self).fps == old(self).fps
                    &&& final(self).frames == counted
                    &&& final(self).last_fps_print_us == old(self).last_fps_print_us
                }
            }),
    {
        if self.frames < u32::MAX {
            self.frames = self.frames + 1;
        }
        if now_us - self.last_fps_print_us > MICROS_PER_SECOND {
            self.fps = self.frames;
            self.frames = 0;
            self.last_fps_print_us = now_us;
        }
    }
}

} // verus!
