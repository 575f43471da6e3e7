//! Wall-clock based playback position estimation.
//!
//! The audio output device does not report a sample-accurate playback
//! position, so the position is estimated from the wall-clock time elapsed
//! since playback last resumed. The estimate only advances while an anchor
//! timestamp is set: pausing clears the anchor and freezes the estimate,
//! resuming sets a fresh anchor without resetting the accumulated position.
//! The clock is injected (every operation takes `now_ms`), so the component
//! is pure timekeeping.

use vstd::prelude::*;

verus! {

/// Estimated playback position of the current track, in milliseconds,
/// together with the wall-clock anchor it advances from and the probed
/// total duration of the track.
pub struct PositionEstimator {
    /// Accumulated playback position, in milliseconds.
    pub position_ms: u64,
    /// Wall-clock timestamp (milliseconds) of the last resume or the last
    /// advance; set exactly while the estimate is advancing.
    pub anchor_ms: Option<u64>,
    /// Total duration of the current track in milliseconds, if known.
    pub duration_ms: Option<u64>,
}

impl PositionEstimator {
    /// True while the estimate advances with the clock (i.e. while playing).
    pub open spec fn anchored(self) -> bool {
        self.anchor_ms is Some
    }

    /// A fresh estimator: position zero, not anchored, no known duration.
    pub fn new() -> (e: PositionEstimator)
        ensures
            e.position_ms == 0,
            e.anchor_ms is None,
            e.duration_ms is None,
    {
        PositionEstimator { position_ms: 0, anchor_ms: None, duration_ms: None }
    }

    /// Add the wall-clock time elapsed since the anchor to the position and
    /// re-anchor at `now_ms`; leaves the estimator unchanged when it is not
    /// anchored (paused or stopped). Returns the new estimate.
    pub fn advance(&mut self, now_ms: u64) -> (pos: u64)
        requires
            old(self).anchor_ms matches Some(a) ==> a <= now_ms
                && old(self).position_ms + (now_ms - a) <= u64::MAX,
        ensures
            final(self).duration_ms == old(self).duration_ms,
            old(self).anchor_ms is None ==> *final(self) == *old(self),
            old(self).anchor_ms matches Some(a) ==> {
                &&& final(self).position_ms == old(self).position_ms + (now_ms - a)
                &&& final(self).anchor_ms == Some(now_ms)
            },
            pos == final(self).position_ms,
    {
        match self.anchor_ms {
            Some(a) => {
                self.position_ms = self.position_ms + (now_ms - a);
                self.anchor_ms = Some(now_ms);
            }
            None => {}
        }
        self.position_ms
    }

    /// Zero the position and clear the anchor; the known duration is kept.
    pub fn reset(&mut self)
        ensures
            final(self).position_ms == 0,
            final(self).anchor_ms is None,
            final(self).duration_ms == old(self).duration_ms,
    {
        self.position_ms = 0;
        self.anchor_ms = None;
    }

    /// Set a fresh anchor without touching the accumulated position.
    pub fn resume(&mut self, now_ms: u64)
        ensures
            final(self).position_ms == old(self).position_ms,
            final(self).anchor_ms == Some(now_ms),
            final(self).duration_ms == old(self).duration_ms,
    {
        self.anchor_ms = Some(now_ms);
    }

    /// Clear the anchor, freezing the estimate.
    pub fn pause(&mut self)
        ensures
            final(self).position_ms == old(self).position_ms,
            final(self).anchor_ms is None,
            final(self).duration_ms == old(self).duration_ms,
    {
        self.anchor_ms = None;
    }

    /// Record the probed total duration of the current track.
    pub fn set_duration(&mut self, duration_ms: Option<u64>)
        ensures
            final(self).position_ms == old(self).position_ms,
            final(self).anchor_ms == old(self).anchor_ms,
            final(self).duration_ms == duration_ms,
    {
        self.duration_ms = duration_ms;
    }
}

} // verus!
