//! A bounded log of the most recent frames seen on the bus.
use std::collections::VecDeque;
use vstd::prelude::*;

use crate::can::frame::CanFrame;

verus! {

/// The frames kept after pushing `f` onto `frames` with capacity `max`: when
/// the log is full the oldest frame is dropped first.
pub open spec fn log_after_push(frames: Seq<CanFrame>, max: nat, f: CanFrame) -> Seq<CanFrame> {
    if frames.len() >= max && frames.len() > 0 {
        frames.drop_first().push(f)
    } else {
        frames.push(f)
    }
}

/// The most recent frames, oldest first, up to a capacity.
pub struct CanLog {
    frames: VecDeque<CanFrame>,
    max: usize,
}

impl CanLog {
    pub closed spec fn frames_view(&self) -> Seq<CanFrame> {
        self.frames@
    }

    pub closed spec fn capacity(&self) -> nat {
        self.max as nat
    }

    /// An empty log that keeps up to `max` frames.
    pub fn new(max: usize) -> (log: CanLog)
        ensures
            log.frames_view() == Seq::<CanFrame>::empty(),
            log.capacity() == max,
    {
        CanLog { frames: VecDeque::new(), max }
    }

    /// Record a frame, dropping the oldest one when the log is full.
    pub fn push(&mut self, frame: CanFrame)
        ensures
            final(self).frames_view() == log_after_push(
                old(self).frames_view(),
                old(self).capacity(),
                frame,
            ),
            final(self).capacity() == old(self).capacity(),
    {
        if self.frames.len() >= self.max {
            let _ = self.frames.pop_front();
        }
        self.frames.push_back(frame);
    }

    pub fn len(&self) -> (n: usize)
        ensures
            n == self.frames_view().len(),
    {
        self.frames.len()
    }

    /// The `i`-th oldest frame held.
    pub fn get(&self, i: usize) -> (f: &CanFrame)
        requires
            i < self.frames_view().len(),
        ensures
            *f == self.frames_view()[i as int],
    {
        &self.frames[i]
    }
}

/// A log with room for at least one frame never holds more than its
/// capacity, and a push always keeps the new frame as the most recent.
pub proof fn law_log_stays_bounded(frames: Seq<CanFrame>, max: nat, f: CanFrame)
    requires
        max >= 1,
        frames.len() <= max,
    ensures
        log_after_push(frames, max, f).len() <= max,
        log_after_push(frames, max, f).last() == f,
{
}

} // verus!
