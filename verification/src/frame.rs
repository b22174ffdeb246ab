//! Fixed-timestep frame clock with drift correction. Each step advances the
//! frame index by the whole number of ideal durations that have elapsed since
//! the frame's ideal start, and moves the ideal start forward by exactly that
//! many durations, so the cadence never accumulates sub-tick drift even when
//! a step overruns.
//!
//! Times are milliseconds read from a monotonic clock; the embedding program
//! supplies them.

use vstd::arithmetic::div_mod::lemma_fundamental_div_mod;
use vstd::arithmetic::div_mod::lemma_div_pos_is_pos;
use vstd::arithmetic::div_mod::lemma_mod_bound;
use vstd::arithmetic::div_mod::lemma_mod_multiples_vanish;
use vstd::arithmetic::div_mod::lemma_remainder_lower;
use vstd::prelude::*;

verus! {

/// A counter that tracks the index and timing of a fixed-length frame.
#[derive(Clone, Copy, Debug, PartialEq, Eq, Structural)]
pub struct Frame {
    /// Ideal duration of a frame, in milliseconds; always positive.
    pub ideal_duration: u64,
    /// The index of the frame.
    pub index: u64,
    /// The time at which the frame actually started.
    pub start_time: u64,
    /// The time at which the frame should ideally have started. This is used
    /// to make sure that the start times of future frames don't cumulatively
    /// drift from the ideal cadence.
    pub ideal_start_time: u64,
}

impl Frame {
    /// The duration is positive and the ideal start never runs ahead of the
    /// actual start.
    pub open spec fn wf(&self) -> bool {
        &&& self.ideal_duration > 0
        &&& self.ideal_start_time <= self.start_time
    }

    /// Whole number of ideal durations between the frame's ideal start and
    /// `now`.
    pub open spec fn spec_elapsed_frames(&self, now: u64) -> int {
        (now - self.ideal_start_time) / (self.ideal_duration as int)
    }

    /// Index of the frame that `next` produces at time `now`.
    pub open spec fn spec_next_index(&self, now: u64) -> int {
        self.index + self.spec_elapsed_frames(now)
    }

    /// Ideal start of the frame that `next` produces at time `now`.
    pub open spec fn spec_next_ideal_start(&self, now: u64) -> int {
        self.ideal_start_time + self.spec_elapsed_frames(now) * self.ideal_duration
    }

    /// The first frame of a clock started at `start_time`.
    pub open spec fn spec_initial(ideal_duration: u64, start_time: u64) -> Frame {
        Frame { ideal_duration, index: 0, start_time, ideal_start_time: start_time }
    }

    /// The frame that `next` produces at time `now`.
    pub open spec fn spec_stepped(&self, now: u64) -> Frame {
        Frame {
            ideal_duration: self.ideal_duration,
            index: self.spec_next_index(now) as u64,
            start_time: now,
            ideal_start_time: self.spec_next_ideal_start(now) as u64,
        }
    }

    /// First frame: index zero, started now, exactly on cadence.
    pub fn new(ideal_duration: u64, start_time: u64) -> (r: Frame)
        requires
            ideal_duration > 0,
        ensures
            r.wf(),
            r.ideal_duration == ideal_duration,
            r.index == 0,
            r.start_time == start_time,
            r.ideal_start_time == start_time,
    {
        Frame { ideal_duration, index: 0, start_time, ideal_start_time: start_time }
    }

    /// The frame that starts at `start_time`: the index advances by the
    /// whole number of elapsed ideal durations (at least one when a full
    /// duration has passed), and the ideal start advances by exactly that
    /// many durations, staying on cadence.
    pub fn next(&self, start_time: u64) -> (r: Frame)
        requires
            self.wf(),
            start_time >= self.ideal_start_time,
            self.spec_next_index(start_time) <= u64::MAX,
        ensures
            r.wf(),
            r.ideal_duration == self.ideal_duration,
            r.index == self.spec_next_index(start_time),
            r.start_time == start_time,
            r.ideal_start_time == self.spec_next_ideal_start(start_time),
            r.ideal_start_time <= start_time < r.ideal_start_time + r.ideal_duration,
            r.index >= self.index,
            start_time >= self.ideal_start_time + self.ideal_duration ==> r.index >= self.index
                + 1,
    {
        proof {
            let x = start_time - self.ideal_start_time;
            let d = self.ideal_duration as int;
            if x >= d {
                vstd::arithmetic::div_mod::lemma_div_by_self(d);
                vstd::arithmetic::div_mod::lemma_div_is_ordered(d, x as int, d);
            }
        }
        let elapsed_frames_count = (start_time - self.ideal_start_time) / self.ideal_duration;
        proof {
            let x = start_time - self.ideal_start_time;
            let d = self.ideal_duration as int;
            lemma_div_pos_is_pos(x as int, d);
            lemma_remainder_lower(x as int, d);
            lemma_fundamental_div_mod(x as int, d);
            lemma_mod_bound(x as int, d);
        }
        Frame {
            ideal_duration: self.ideal_duration,
            index: self.index + elapsed_frames_count,
            start_time,
            ideal_start_time: self.ideal_start_time + elapsed_frames_count * self.ideal_duration,
        }
    }

    /// Milliseconds still to wait before the next frame is due: zero once a
    /// full ideal duration has passed since the ideal start.
    pub fn wait_millis(&self, now: u64) -> (r: u64)
        requires
            self.wf(),
            now >= self.ideal_start_time,
        ensures
            r == if now - self.ideal_start_time < self.ideal_duration {
                self.ideal_start_time + self.ideal_duration - now
            } else {
                0
            },
            now + r >= self.ideal_start_time + self.ideal_duration || r == 0,
    {
        let since_ideal_start = now - self.ideal_start_time;
        if since_ideal_start < self.ideal_duration {
            self.ideal_duration - since_ideal_start
        } else {
            0
        }
    }
}

/// The clock never accumulates sub-tick drift: if a frame's ideal start sits
/// a whole number of ideal durations past some origin, then so does the
/// ideal start that `next` produces, for any time the step runs at; and the
/// new ideal start is the latest such cadence point not after `now`.
pub proof fn lemma_next_keeps_cadence(f: Frame, origin: int, now: u64)
    requires
        f.wf(),
        now >= f.ideal_start_time,
        (f.ideal_start_time - origin) % (f.ideal_duration as int) == 0,
    ensures
        (f.spec_next_ideal_start(now) - origin) % (f.ideal_duration as int) == 0,
        f.spec_next_ideal_start(now) <= now < f.spec_next_ideal_start(now) + f.ideal_duration,
{
    let d = f.ideal_duration as int;
    let x = now - f.ideal_start_time;
    let k = f.spec_elapsed_frames(now);
    lemma_div_pos_is_pos(x, d);
    lemma_remainder_lower(x, d);
    lemma_fundamental_div_mod(x, d);
    lemma_mod_bound(x, d);
    assert(k * d == d * k) by (nonlinear_arith);
    lemma_mod_multiples_vanish(k, f.ideal_start_time - origin, d);
}

} // verus!
