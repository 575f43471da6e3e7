//! The playback controller: a state machine over one optional track.
//!
//! The controller owns a *model* of the playback handle (the decoded stream
//! bound to the output device) and the [`PositionEstimator`]. It never talks
//! to the device itself: every operation takes the injected clock (`now_ms`)
//! and, where the decision depends on it, the device's authoritative
//! exhaustion signal (`sink_empty`), and returns the [`Action`] the embedding
//! program must apply to the real sink. Each operation's postcondition pins
//! the new state to a transition spec function, so the whole state machine
//! is stated once and proved against the code.

use vstd::prelude::*;
use crate::estimator::PositionEstimator;
use vstd::arithmetic::div_mod::lemma_div_is_ordered;
use vstd::arithmetic::div_mod::lemma_div_of0;
use vstd::arithmetic::div_mod::lemma_div_multiples_vanish;
use vstd::arithmetic::div_mod::lemma_multiply_divide_lt;
use vstd::arithmetic::mul::lemma_mul_inequality;
use vstd::arithmetic::mul::lemma_mul_is_commutative;
use vstd::arithmetic::mul::lemma_mul_strict_inequality;

verus! {

/// Model of the playback handle: the controller's record of whether the
/// sink bound to the output device was last told to play or to pause.
#[derive(Clone, Copy, Debug, PartialEq, Eq, Structural)]
pub struct HandleModel {
    /// True when the sink is in the playing state, false when paused.
    pub playing: bool,
}

/// The device work a controller operation asks of the embedding program.
/// At most one handle may exist per controller, so `StartSink` always means
/// "discard the old sink first".
#[derive(Clone, Copy, Debug, PartialEq, Eq, Structural)]
pub enum Action {
    /// No device work.
    Nothing,
    /// Discard the current sink if any, reopen the current track from the
    /// start, bind a fresh sink at the given volume, and leave it playing
    /// or paused as directed.
    StartSink { play: bool, volume_permille: u32 },
    /// Resume the current sink.
    PlaySink,
    /// Pause the current sink.
    PauseSink,
    /// Tear the current sink down without a replacement.
    StopSink,
    /// Apply the given volume to the current sink.
    ApplyVolume { volume_permille: u32 },
}

/// The playback controller state. Durations and timestamps are in
/// milliseconds; volume and the displayed seek fraction are in permille
/// (0 ..= 1000 standing for 0.0 ..= 1.0).
pub struct Player {
    /// Whether a track reference is currently held.
    pub track_loaded: bool,
    /// Model of the playback handle, if one exists.
    pub handle: Option<HandleModel>,
    /// Wall-clock position estimate and probed duration.
    pub estimator: PositionEstimator,
    /// Target volume, persisted across handle recreation.
    pub volume_permille: u32,
    /// Whether playback is currently running.
    pub is_playing: bool,
    /// Whether the track restarts from zero when it ends.
    pub repeat: bool,
    /// Display value: estimated position over duration, in permille.
    pub seek_permille: u32,
}

/// The displayed fraction of the track: the position over the duration, in
/// permille, rounded down.
pub open spec fn fraction_permille(position_ms: u64, duration_ms: u64) -> int {
    position_ms * 1000 / (duration_ms as int)
}

impl Player {
    /// Well-formedness of the controller state. Besides the ranges and the
    /// handle bookkeeping, it carries the display invariant: whenever the
    /// duration is known, `seek_permille` is exactly the estimated position
    /// over the duration (a known duration is also at least the one second
    /// the probe padding adds, so the fraction is well defined).
    pub open spec fn wf(self) -> bool {
        &&& self.volume_permille <= 1000
        &&& self.seek_permille <= 1000
        &&& (self.is_playing <==> self.estimator.anchor_ms is Some)
        &&& (self.is_playing ==> self.handle is Some)
        &&& (self.handle matches Some(h) ==> self.track_loaded && h.playing == self.is_playing)
        &&& (self.estimator.duration_ms is Some ==> self.track_loaded)
        &&& (self.estimator.duration_ms matches Some(d) ==> {
            &&& 1000 <= d
            &&& self.seek_permille == fraction_permille(self.estimator.position_ms, d)
        })
    }

    /// The estimated position has reached or passed the known duration.
    pub open spec fn at_end(self) -> bool {
        match self.estimator.duration_ms {
            Some(d) => self.estimator.position_ms >= d,
            None => false,
        }
    }

    /// State after `reset_playback` without resuming: a fresh paused handle
    /// on the reopened track, position zeroed, duration kept.
    pub open spec fn after_reset(self) -> Player {
        Player {
            track_loaded: self.track_loaded,
            handle: if self.track_loaded { Some(HandleModel { playing: false }) } else { None },
            estimator: PositionEstimator {
                position_ms: 0,
                anchor_ms: None,
                duration_ms: self.estimator.duration_ms,
            },
            volume_permille: self.volume_permille,
            is_playing: false,
            repeat: self.repeat,
            seek_permille: 0,
        }
    }

    /// State after a restart from zero that keeps playing: every
    /// "play from the top" path (repeat wrap, play after natural end,
    /// resume of an exhausted stream) lands here.
    pub open spec fn after_restart_playing(self, now_ms: u64) -> Player {
        Player {
            track_loaded: self.track_loaded,
            handle: Some(HandleModel { playing: true }),
            estimator: PositionEstimator {
                position_ms: 0,
                anchor_ms: Some(now_ms),
                duration_ms: self.estimator.duration_ms,
            },
            volume_permille: self.volume_permille,
            is_playing: true,
            repeat: self.repeat,
            seek_permille: 0,
        }
    }

    /// State after settling to stopped at end of track: position zeroed,
    /// handle torn down and not recreated until the next load or play.
    pub open spec fn after_stop(self) -> Player {
        Player {
            track_loaded: self.track_loaded,
            handle: None,
            estimator: PositionEstimator {
                position_ms: 0,
                anchor_ms: None,
                duration_ms: self.estimator.duration_ms,
            },
            volume_permille: self.volume_permille,
            is_playing: false,
            repeat: self.repeat,
            seek_permille: 0,
        }
    }

    /// State after a successful load: fresh playing handle, position zero,
    /// and the probed duration padded by one second. The padding compensates
    /// for systematic under-reporting of variable-bitrate containers; it is
    /// a heuristic, not a guarantee.
    pub open spec fn after_load(self, probed_ms: Option<u64>, now_ms: u64) -> Player {
        Player {
            track_loaded: true,
            handle: Some(HandleModel { playing: true }),
            estimator: PositionEstimator {
                position_ms: 0,
                anchor_ms: Some(now_ms),
                duration_ms: match probed_ms {
                    Some(p) => Some((p + 1000) as u64),
                    None => None,
                },
            },
            volume_permille: self.volume_permille,
            is_playing: true,
            repeat: self.repeat,
            seek_permille: 0,
        }
    }

    /// The action a load answers with: the embedding program must bind a
    /// fresh playing sink at the persisted volume.
    pub open spec fn load_action(self) -> Action {
        Action::StartSink { play: true, volume_permille: self.volume_permille }
    }

    /// State after pausing a playing handle: anchor cleared, estimate frozen.
    pub open spec fn after_pause(self) -> Player {
        Player {
            track_loaded: self.track_loaded,
            handle: Some(HandleModel { playing: false }),
            estimator: PositionEstimator {
                position_ms: self.estimator.position_ms,
                anchor_ms: None,
                duration_ms: self.estimator.duration_ms,
            },
            volume_permille: self.volume_permille,
            is_playing: false,
            repeat: self.repeat,
            seek_permille: self.seek_permille,
        }
    }

    /// State after resuming a paused handle: fresh anchor, position kept.
    pub open spec fn after_resume(self, now_ms: u64) -> Player {
        Player {
            track_loaded: self.track_loaded,
            handle: Some(HandleModel { playing: true }),
            estimator: PositionEstimator {
                position_ms: self.estimator.position_ms,
                anchor_ms: Some(now_ms),
                duration_ms: self.estimator.duration_ms,
            },
            volume_permille: self.volume_permille,
            is_playing: true,
            repeat: self.repeat,
            seek_permille: self.seek_permille,
        }
    }

    /// The play/pause transition. Past the end of the track, or when the
    /// paused sink turns out to be exhausted, playing restarts from zero
    /// instead of resuming a spent stream; from the stopped state (track
    /// held, handle torn down) playing also restarts from zero.
    pub open spec fn after_play_pause(self, now_ms: u64, sink_empty: bool) -> Player {
        if self.at_end() {
            self.after_restart_playing(now_ms)
        } else if self.handle is None {
            if self.track_loaded {
                self.after_restart_playing(now_ms)
            } else {
                self
            }
        } else if self.is_playing {
            self.after_pause()
        } else if sink_empty {
            self.after_restart_playing(now_ms)
        } else {
            self.after_resume(now_ms)
        }
    }

    /// The device work of [`Player::after_play_pause`].
    pub open spec fn play_pause_action(self, sink_empty: bool) -> Action {
        if self.at_end() {
            Action::StartSink { play: true, volume_permille: self.volume_permille }
        } else if self.handle is None {
            if self.track_loaded {
                Action::StartSink { play: true, volume_permille: self.volume_permille }
            } else {
                Action::Nothing
            }
        } else if self.is_playing {
            Action::PauseSink
        } else if sink_empty {
            Action::StartSink { play: true, volume_permille: self.volume_permille }
        } else {
            Action::PlaySink
        }
    }

    /// The periodic reconciliation transition. While playing with a known
    /// duration, the estimate advances by the wall-clock time since the
    /// anchor; when it reaches the duration, or when the device reports the
    /// stream exhausted (the authoritative signal, overriding the timer),
    /// the track either wraps around (repeat) or settles to stopped.
    /// Otherwise the displayed seek fraction is recomputed.
    pub open spec fn after_update(self, now_ms: u64, sink_empty: bool) -> Player {
        if !self.is_playing || self.estimator.duration_ms is None {
            self
        } else {
            let d = self.estimator.duration_ms->0;
            let a = self.estimator.anchor_ms->0;
            let newpos = self.estimator.position_ms + (now_ms - a);
            if newpos >= d || sink_empty {
                if self.repeat {
                    self.after_restart_playing(now_ms)
                } else {
                    self.after_stop()
                }
            } else {
                Player {
                    track_loaded: self.track_loaded,
                    handle: self.handle,
                    estimator: PositionEstimator {
                        position_ms: newpos as u64,
                        anchor_ms: Some(now_ms),
                        duration_ms: self.estimator.duration_ms,
                    },
                    volume_permille: self.volume_permille,
                    is_playing: self.is_playing,
                    repeat: self.repeat,
                    seek_permille: ((newpos * 1000) / (d as int)) as u32,
                }
            }
        }
    }

    /// The device work of [`Player::after_update`].
    pub open spec fn update_action(self, now_ms: u64, sink_empty: bool) -> Action {
        if !self.is_playing || self.estimator.duration_ms is None {
            Action::Nothing
        } else {
            let d = self.estimator.duration_ms->0;
            let a = self.estimator.anchor_ms->0;
            let newpos = self.estimator.position_ms + (now_ms - a);
            if newpos >= d || sink_empty {
                if self.repeat {
                    Action::StartSink { play: true, volume_permille: self.volume_permille }
                } else {
                    Action::StopSink
                }
            } else {
                Action::Nothing
            }
        }
    }

    /// The absolute seek target for a fraction of the known duration, or
    /// `None` when no duration is known or no handle exists (then the seek
    /// request is a no-op).
    pub open spec fn seek_target(self, fraction_permille: u32) -> Option<u64> {
        if self.estimator.duration_ms is Some && self.handle is Some {
            Some(((fraction_permille * self.estimator.duration_ms->0) / 1000) as u64)
        } else {
            None
        }
    }

    /// State after the device answered a seek request: the new position is
    /// committed only on success (a failed seek is silently ignored), the
    /// displayed fraction is recomputed for the committed position, and a
    /// running estimate is re-anchored so the time the blocking seek took
    /// does not count as playback.
    pub open spec fn after_seek_commit(self, target_ms: u64, ok: bool, now_ms: u64) -> Player {
        if !ok {
            self
        } else {
            Player {
                track_loaded: self.track_loaded,
                handle: self.handle,
                estimator: PositionEstimator {
                    position_ms: target_ms,
                    anchor_ms: if self.is_playing { Some(now_ms) } else { self.estimator.anchor_ms },
                    duration_ms: self.estimator.duration_ms,
                },
                volume_permille: self.volume_permille,
                is_playing: self.is_playing,
                repeat: self.repeat,
                seek_permille: match self.estimator.duration_ms {
                    Some(d) => fraction_permille(target_ms, d) as u32,
                    None => self.seek_permille,
                },
            }
        }
    }

    /// State after setting the target volume: persisted whatever the rest
    /// of the state is.
    pub open spec fn after_set_volume(self, volume_permille: u32) -> Player {
        Player {
            track_loaded: self.track_loaded,
            handle: self.handle,
            estimator: self.estimator,
            volume_permille: volume_permille,
            is_playing: self.is_playing,
            repeat: self.repeat,
            seek_permille: self.seek_permille,
        }
    }

    /// A controller with no track: full volume, repeat off, nothing playing.
    pub fn new() -> (p: Player)
        ensures
            p.wf(),
            !p.track_loaded,
            p.handle is None,
            !p.is_playing,
            !p.repeat,
            p.volume_permille == 1000,
            p.seek_permille == 0,
            p.estimator.position_ms == 0,
            p.estimator.anchor_ms is None,
            p.estimator.duration_ms is None,
    {
        Player {
            track_loaded: false,
            handle: None,
            estimator: PositionEstimator::new(),
            volume_permille: 1000,
            is_playing: false,
            repeat: false,
            seek_permille: 0,
        }
    }

    /// Take a freshly opened track: replace the track reference, reset the
    /// estimator, record the probed duration padded by one second, and start
    /// playing from zero. Called only once the track actually opened; a
    /// failed open leaves the controller untouched (the load is a silent
    /// no-op, never a crash).
    pub fn load(&mut self, probed_ms: Option<u64>, now_ms: u64) -> (a: Action)
        requires
            old(self).wf(),
            probed_ms matches Some(p) ==> p + 1000 <= u64::MAX,
        ensures
            final(self).wf(),
            *final(self) == old(self).after_load(probed_ms, now_ms),
            a == old(self).load_action(),
            final(self).estimator.position_ms == 0,
            probed_ms matches Some(p)
                ==> final(self).estimator.duration_ms matches Some(d) && d >= p,
            probed_ms is None ==> final(self).estimator.duration_ms is None,
    {
        let duration_ms: Option<u64> = match probed_ms {
            Some(p) => Some(p + 1000),
            None => None,
        };
        self.track_loaded = true;
        self.handle = Some(HandleModel { playing: true });
        self.estimator = PositionEstimator {
            position_ms: 0,
            anchor_ms: Some(now_ms),
            duration_ms,
        };
        self.is_playing = true;
        self.seek_permille = 0;
        proof {
            if self.estimator.duration_ms is Some {
                lemma_div_of0(self.estimator.duration_ms->0 as int);
            }
        }
        Action::StartSink { play: true, volume_permille: self.volume_permille }
    }

    /// Degrade to "no track loaded": the recovery for an I/O or decode
    /// failure while rebuilding a handle. Volume and repeat survive.
    pub fn unload(&mut self) -> (a: Action)
        requires
            old(self).wf(),
        ensures
            final(self).wf(),
            !final(self).track_loaded,
            final(self).handle is None,
            !final(self).is_playing,
            final(self).estimator.position_ms == 0,
            final(self).estimator.anchor_ms is None,
            final(self).estimator.duration_ms is None,
            final(self).seek_permille == 0,
            final(self).volume_permille == old(self).volume_permille,
            final(self).repeat == old(self).repeat,
            a == Action::StopSink,
    {
        self.track_loaded = false;
        self.handle = None;
        self.estimator = PositionEstimator::new();
        self.is_playing = false;
        self.seek_permille = 0;
        Action::StopSink
    }

    /// Restart from a cold position: tear the handle down, zero the
    /// estimator, reopen the track and bind a fresh handle already in the
    /// requested play/pause state. Every "play from zero" path goes through
    /// here rather than rewinding in place.
    fn reset_playback(&mut self, play: bool, now_ms: u64) -> (a: Action)
        requires
            old(self).track_loaded,
            old(self).volume_permille <= 1000,
            old(self).estimator.duration_ms matches Some(d) ==> 1000 <= d,
        ensures
            final(self).wf(),
            *final(self) == if play {
                old(self).after_restart_playing(now_ms)
            } else {
                old(self).after_reset()
            },
            a == (Action::StartSink { play, volume_permille: old(self).volume_permille }),
    {
        self.handle = Some(HandleModel { playing: play });
        self.estimator = PositionEstimator {
            position_ms: 0,
            anchor_ms: if play { Some(now_ms) } else { None },
            duration_ms: self.estimator.duration_ms,
        };
        self.is_playing = play;
        self.seek_permille = 0;
        proof {
            if self.estimator.duration_ms is Some {
                lemma_div_of0(self.estimator.duration_ms->0 as int);
            }
        }
        Action::StartSink { play, volume_permille: self.volume_permille }
    }

    /// Settle to stopped: zero the estimator and tear the handle down.
    fn stop_playback(&mut self) -> (a: Action)
        requires
            old(self).volume_permille <= 1000,
            old(self).estimator.duration_ms matches Some(d)
                ==> (1000 <= d && old(self).track_loaded),
        ensures
            final(self).wf(),
            *final(self) == old(self).after_stop(),
            a == Action::StopSink,
    {
        self.handle = None;
        self.estimator = PositionEstimator {
            position_ms: 0,
            anchor_ms: None,
            duration_ms: self.estimator.duration_ms,
        };
        self.is_playing = false;
        self.seek_permille = 0;
        proof {
            if self.estimator.duration_ms is Some {
                lemma_div_of0(self.estimator.duration_ms->0 as int);
            }
        }
        Action::StopSink
    }

    /// Toggle between playing and paused. Past the end of the track, or
    /// when resuming a sink that reports itself exhausted, playback
    /// restarts from zero instead; from the stopped state it also restarts.
    /// `sink_empty` is the device's signal for the handle held at call
    /// time; when no handle exists it is ignored.
    pub fn play_pause(&mut self, now_ms: u64, sink_empty: bool) -> (a: Action)
        requires
            old(self).wf(),
        ensures
            final(self).wf(),
            *final(self) == old(self).after_play_pause(now_ms, sink_empty),
            a == old(self).play_pause_action(sink_empty),
    {
        let at_end: bool = match self.estimator.duration_ms {
            Some(d) => self.estimator.position_ms >= d,
            None => false,
        };
        if at_end {
            return self.reset_playback(true, now_ms);
        }
        match self.handle {
            None => {
                if self.track_loaded {
                    self.reset_playback(true, now_ms)
                } else {
                    Action::Nothing
                }
            }
            Some(_) => {
                if self.is_playing {
                    self.handle = Some(HandleModel { playing: false });
                    self.estimator.pause();
                    self.is_playing = false;
                    Action::PauseSink
                } else if sink_empty {
                    self.reset_playback(true, now_ms)
                } else {
                    self.handle = Some(HandleModel { playing: true });
                    self.estimator.resume(now_ms);
                    self.is_playing = true;
                    Action::PlaySink
                }
            }
        }
    }

    /// The first half of a seek request: the absolute target for a fraction
    /// of the known duration. `None` (no duration known, or no handle)
    /// means the request is dropped. The embedding program performs the
    /// device seek — muted, with a brief settle delay, then the volume
    /// restored, to avoid an audible click — and reports the outcome to
    /// [`Player::seek_commit`].
    pub fn seek_prepare(&self, fraction_permille: u32) -> (target: Option<u64>)
        requires
            self.wf(),
            fraction_permille <= 1000,
        ensures
            target == self.seek_target(fraction_permille),
            target matches Some(t)
                ==> self.estimator.duration_ms matches Some(d) && t <= d,
    {
        match (self.estimator.duration_ms, self.handle) {
            (Some(d), Some(_)) => {
                proof {
                    lemma_mul_inequality(fraction_permille as int, 1000, d as int);
                    lemma_mul_is_commutative(1000, d as int);
                    lemma_mul_inequality(d as int, u64::MAX as int, 1000);
                    lemma_mul_is_commutative(u64::MAX as int, 1000);
                    lemma_div_is_ordered(
                        fraction_permille as int * d as int,
                        1000 * d as int,
                        1000,
                    );
                    lemma_div_multiples_vanish(d as int, 1000);
                }
                let t: u128 = (fraction_permille as u128) * (d as u128) / 1000;
                Some(t as u64)
            }
            _ => None,
        }
    }

    /// The second half of a seek request: commit the target as the new
    /// estimated position only if the device seek succeeded; a failed seek
    /// (backend or format cannot seek) changes nothing. On success the
    /// displayed fraction follows the committed position. A running
    /// estimate is re-anchored at `now_ms` so the blocking seek does not
    /// count as playback time. Targets come from [`Player::seek_prepare`],
    /// which never hands out one past the duration.
    pub fn seek_commit(&mut self, target_ms: u64, ok: bool, now_ms: u64)
        requires
            old(self).wf(),
            old(self).estimator.duration_ms matches Some(d) ==> (ok ==> target_ms <= d),
        ensures
            final(self).wf(),
            *final(self) == old(self).after_seek_commit(target_ms, ok, now_ms),
    {
        if ok {
            self.estimator.position_ms = target_ms;
            if self.is_playing {
                self.estimator.anchor_ms = Some(now_ms);
            }
            match self.estimator.duration_ms {
                Some(d) => {
                    proof {
                        lemma_mul_inequality(target_ms as int, d as int, 1000);
                        lemma_div_is_ordered(target_ms as int * 1000, d as int * 1000, d as int);
                        lemma_mul_is_commutative(d as int, 1000);
                        lemma_div_multiples_vanish(1000, d as int);
                    }
                    let frac: u32 = (((target_ms as u128) * 1000) / (d as u128)) as u32;
                    self.seek_permille = frac;
                }
                None => {}
            }
        }
    }

    /// Persist the target volume, and apply it to the live handle if one
    /// exists; the persisted value is what the next created handle starts
    /// with, whatever the current state.
    pub fn set_volume(&mut self, volume_permille: u32) -> (a: Action)
        requires
            old(self).wf(),
            volume_permille <= 1000,
        ensures
            final(self).wf(),
            *final(self) == old(self).after_set_volume(volume_permille),
            a == if old(self).handle is Some {
                Action::ApplyVolume { volume_permille }
            } else {
                Action::Nothing
            },
    {
        self.volume_permille = volume_permille;
        if self.handle.is_some() {
            Action::ApplyVolume { volume_permille }
        } else {
            Action::Nothing
        }
    }

    /// Flip the repeat flag; nothing else changes.
    pub fn toggle_repeat(&mut self)
        requires
            old(self).wf(),
        ensures
            final(self).wf(),
            final(self).repeat == !old(self).repeat,
            final(self).track_loaded == old(self).track_loaded,
            final(self).handle == old(self).handle,
            final(self).estimator == old(self).estimator,
            final(self).volume_permille == old(self).volume_permille,
            final(self).is_playing == old(self).is_playing,
            final(self).seek_permille == old(self).seek_permille,
    {
        self.repeat = !self.repeat;
    }

    /// The once-per-tick reconciliation: advance the estimate, and handle
    /// end of track. The estimate reaching the duration, or the device
    /// reporting the stream exhausted (authoritative, it overrides the
    /// timer), wraps the track around when repeat is set and settles to
    /// stopped otherwise. Does nothing while paused or without a known
    /// duration.
    pub fn update_position(&mut self, now_ms: u64, sink_empty: bool) -> (a: Action)
        requires
            old(self).wf(),
            old(self).is_playing && old(self).estimator.duration_ms is Some ==> {
                &&& old(self).estimator.anchor_ms->0 <= now_ms
                &&& old(self).estimator.position_ms
                    + (now_ms - old(self).estimator.anchor_ms->0) <= u64::MAX
            },
        ensures
            final(self).wf(),
            *final(self) == old(self).after_update(now_ms, sink_empty),
            a == old(self).update_action(now_ms, sink_empty),
    {
        if !self.is_playing {
            return Action::Nothing;
        }
        let d: u64 = match self.estimator.duration_ms {
            Some(d) => d,
            None => {
                return Action::Nothing;
            }
        };
        let newpos: u64 = self.estimator.advance(now_ms);
        if newpos >= d || sink_empty {
            if self.repeat {
                self.reset_playback(true, now_ms)
            } else {
                self.stop_playback()
            }
        } else {
            proof {
                lemma_mul_strict_inequality(newpos as int, d as int, 1000);
                lemma_mul_is_commutative(d as int, 1000);
                lemma_multiply_divide_lt(newpos as int * 1000, d as int, 1000);
            }
            let frac: u32 = (((newpos as u128) * 1000) / (d as u128)) as u32;
            self.seek_permille = frac;
            Action::Nothing
        }
    }
}

} // verus!
