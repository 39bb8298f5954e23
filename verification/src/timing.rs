//! Frame pacing and frame-rate accounting.
//!
//! Time is carried as nanoseconds in `u64` values: an instant is the number
//! of nanoseconds since program start, a duration is a plain nanosecond
//! count. The caller samples the clock and hands the values in.

use vstd::prelude::*;

verus! {

/// Nanoseconds in one second, the reporting period of [`FpsCounter`].
pub const NANOS_PER_SECOND: u64 = 1_000_000_000;

/// How long the frame loop must sleep after a frame that took `frame_time`,
/// under a configured minimum frame time: the remainder of the minimum, or
/// nothing when the frame was already slow enough.
pub fn frame_sleep_time(frame_time: u64, min_frame_time: u64) -> (r: u64)
    ensures
        frame_time < min_frame_time ==> r == min_frame_time - frame_time,
        frame_time >= min_frame_time ==> r == 0,
{
    if frame_time < min_frame_time {
        min_frame_time - frame_time
    } else {
        0
    }
}

/// Tracks the instant a frame started, to hand each frame the time the
/// previous one took.
pub struct FrameClock {
    pub frame_start: u64,
}

impl FrameClock {
    /// A clock whose first frame starts at `now`.
    pub fn new(now: u64) -> (r: Self)
        ensures
            r.frame_start == now,
    {
        FrameClock { frame_start: now }
    }

    /// Begins a new frame at `now` and returns how long the previous one
    /// took; a clock that went nowhere (or backwards) yields zero.
    pub fn step_dt(&mut self, now: u64) -> (r: u64)
        ensures
            final(self).frame_start == now,
            now >= old(self).frame_start ==> r == now - old(self).frame_start,
            now < old(self).frame_start ==> r == 0,
    {
        let dt = if now >= self.frame_start {
            now - self.frame_start
        } else {
            0
        };
        self.frame_start = now;
        dt
    }
}

/// Accumulates frame times and, once a second, reports the number of frames
/// seen and their average duration.
pub struct FpsCounter {
    pub frame_count: usize,
    pub frame_time_total: u64,
    pub next_output_time: u64,
}

impl FpsCounter {
    /// A fresh counter that will first report one second after `now`.
    pub fn new(now: u64) -> (r: Self)
        ensures
            r.frame_count == 0,
            r.frame_time_total == 0,
            r.next_output_time == now,
    {
        FpsCounter { frame_count: 0, frame_time_total: 0, next_output_time: now }
    }

    /// Records one frame of duration `frame_time` at instant `now`. Returns
    /// `None` until a full second has passed since the last report; then
    /// returns the frame count and the average frame duration and starts the
    /// next period.
    pub fn step(&mut self, frame_time: u64, now: u64) -> (r: Option<(usize, u64)>)
        requires
            old(self).frame_count + 1 <= usize::MAX,
            old(self).frame_time_total + frame_time <= u64::MAX,
            old(self).next_output_time + NANOS_PER_SECOND <= u64::MAX,
        ensures
            ({
                let count = (old(self).frame_count + 1) as usize;
                let total = (old(self).frame_time_total + frame_time) as u64;
                if now < old(self).next_output_time + NANOS_PER_SECOND {
                    &&& r is None
                    &&& final(self).frame_count == count
                    &&& final(self).frame_time_total == total
                    &&& final(self).next_output_time == old(self).next_output_time
                } else {
                    &&& r == Some((count, (total as int / count as int) as u64))
                    &&& final(self).frame_count == 0
                    &&& final(self).frame_time_total == 0
                    &&& final(self).next_output_time == old(
                        self,
                    ).next_output_time + NANOS_PER_SECOND
                }
            }),
    {
        self.frame_count = self.frame_count + 1;
        self.frame_time_total = self.frame_time_total + frame_time;

        let elapsed = if now >= self.next_output_time {
            now - self.next_output_time
        } else {
            0
        };
        if elapsed < NANOS_PER_SECOND {
            return None;
        }

        let fps_output = self.frame_count;
        let duration_output = self.frame_time_total / (self.frame_count as u64);

        self.frame_count = 0;
        self.frame_time_total = 0;
        self.next_output_time = self.next_output_time + NANOS_PER_SECOND;

        Some((fps_output, duration_output))
    }
}

} // verus!
