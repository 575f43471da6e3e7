//! Laws of the playback controller, stated over the transition spec
//! functions that the operations' postconditions pin the code to.

use vstd::prelude::*;
use crate::player::{fraction_permille, Action, HandleModel, Player};
use vstd::arithmetic::div_mod::lemma_div_is_ordered;
use vstd::arithmetic::div_mod::lemma_div_multiples_vanish;
use vstd::arithmetic::mul::lemma_mul_inequality;
use vstd::arithmetic::mul::lemma_mul_is_commutative;

verus! {

/// In every well-formed state with a known duration, the displayed seek
/// fraction is exactly the estimated position over the duration: it is part
/// of well-formedness, which every operation's postcondition re-establishes,
/// so the display can never go stale — in particular not across a seek
/// committed while paused.
pub proof fn lemma_display_fraction_tracks_position(p: Player)
    requires
        p.wf(),
        p.estimator.duration_ms is Some,
    ensures
        p.seek_permille == fraction_permille(
            p.estimator.position_ms,
            p.estimator.duration_ms->0,
        ),
{
}

/// Toggling play/pause twice returns `is_playing` to its original value and
/// does not move the estimated position, however much wall-clock time the
/// two calls see. This holds away from the restart paths: the position must
/// not have reached the duration, a handle must exist, and the sink must
/// not report itself exhausted — on those inputs a toggle deliberately
/// restarts from zero instead.
pub proof fn lemma_play_pause_in_pairs(pre: Player, now1_ms: u64, now2_ms: u64)
    requires
        pre.wf(),
        !pre.at_end(),
        pre.handle is Some,
    ensures
        ({
            let once = pre.after_play_pause(now1_ms, false);
            let twice = once.after_play_pause(now2_ms, false);
            &&& twice.is_playing == pre.is_playing
            &&& twice.estimator.position_ms == pre.estimator.position_ms
        }),
{
}

/// While paused, the position estimate is frozen: reconciliation ticks
/// leave the whole state untouched, no matter how far the clock advances.
pub proof fn lemma_paused_position_frozen(pre: Player, now_ms: u64, sink_empty: bool)
    requires
        pre.wf(),
        !pre.is_playing,
    ensures
        pre.after_update(now_ms, sink_empty) == pre,
{
}

/// With repeat set, once the advanced estimate reaches the duration the
/// next reconciliation tick wraps around: position zero and still playing,
/// never a transition to stopped.
pub proof fn lemma_repeat_wraps_around(pre: Player, now_ms: u64, sink_empty: bool)
    requires
        pre.wf(),
        pre.repeat,
        pre.is_playing,
        pre.estimator.duration_ms matches Some(d)
            && pre.estimator.position_ms + (now_ms - pre.estimator.anchor_ms->0) >= d,
    ensures
        ({
            let post = pre.after_update(now_ms, sink_empty);
            &&& post.estimator.position_ms == 0
            &&& post.seek_permille == 0
            &&& post.is_playing
            &&& post.handle == Some(HandleModel { playing: true })
        }),
{
}

/// Without repeat, once the advanced estimate reaches the duration the next
/// reconciliation tick settles to stopped: position zero, not playing, and
/// no handle remains that could keep playing.
pub proof fn lemma_no_repeat_stops(pre: Player, now_ms: u64, sink_empty: bool)
    requires
        pre.wf(),
        !pre.repeat,
        pre.is_playing,
        pre.estimator.duration_ms matches Some(d)
            && pre.estimator.position_ms + (now_ms - pre.estimator.anchor_ms->0) >= d,
    ensures
        ({
            let post = pre.after_update(now_ms, sink_empty);
            &&& post.estimator.position_ms == 0
            &&& post.seek_permille == 0
            &&& !post.is_playing
            &&& post.handle is None
        }),
{
}

/// Requesting play/pause once the position has reached the duration — after
/// the natural end but before any reconciliation tick fired — restarts from
/// zero with a fresh playing handle rather than resuming a spent stream.
pub proof fn lemma_play_after_end_restarts(pre: Player, now_ms: u64, sink_empty: bool)
    requires
        pre.wf(),
        pre.at_end(),
    ensures
        ({
            let post = pre.after_play_pause(now_ms, sink_empty);
            &&& post.estimator.position_ms == 0
            &&& post.is_playing
            &&& post.handle == Some(HandleModel { playing: true })
        }),
        pre.play_pause_action(sink_empty)
            == (Action::StartSink { play: true, volume_permille: pre.volume_permille }),
{
}

/// A seek request either leaves the estimated position unchanged (the
/// device could not seek, or no duration is known so no target exists) or
/// commits exactly the requested fraction of the duration, rounded down to
/// a millisecond.
pub proof fn lemma_seek_commits_fraction_or_nothing(
    pre: Player,
    fraction_permille: u32,
    target_ms: u64,
    ok: bool,
    now_ms: u64,
)
    requires
        pre.wf(),
        fraction_permille <= 1000,
    ensures
        pre.seek_target(fraction_permille) == Some(target_ms) && !ok
            ==> pre.after_seek_commit(target_ms, false, now_ms).estimator.position_ms
                == pre.estimator.position_ms,
        pre.seek_target(fraction_permille) == Some(target_ms) && ok
            ==> pre.after_seek_commit(target_ms, true, now_ms).estimator.position_ms
                == fraction_permille * pre.estimator.duration_ms->0 / 1000,
{
    if pre.seek_target(fraction_permille) is Some {
        let d = pre.estimator.duration_ms->0;
        lemma_mul_inequality(fraction_permille as int, 1000, d as int);
        lemma_mul_is_commutative(1000, d as int);
        lemma_div_is_ordered(fraction_permille as int * d as int, 1000 * d as int, 1000);
        lemma_div_multiples_vanish(d as int, 1000);
    }
}

/// A volume set while no track is loaded is retained: the load that follows
/// answers with a sink creation at exactly that volume, and the loaded
/// state still carries it — no second set is needed.
pub proof fn lemma_volume_retained_across_load(
    pre: Player,
    volume_permille: u32,
    probed_ms: Option<u64>,
    now_ms: u64,
)
    requires
        pre.wf(),
        !pre.track_loaded,
        volume_permille <= 1000,
    ensures
        ({
            let set = pre.after_set_volume(volume_permille);
            let loaded = set.after_load(probed_ms, now_ms);
            &&& set.load_action()
                == (Action::StartSink { play: true, volume_permille })
            &&& loaded.volume_permille == volume_permille
        }),
{
}

/// A load always lands in the loaded-and-playing state, at position zero
/// with a zero display fraction, holding a fresh playing handle, and with a
/// duration no smaller than what the decoder reported (the one-second
/// padding only ever adds); a probe that reported nothing leaves no stale
/// duration behind.
pub proof fn lemma_load_pads_duration(pre: Player, probed_ms: Option<u64>, now_ms: u64)
    requires
        pre.wf(),
        probed_ms matches Some(p) ==> p + 1000 <= u64::MAX,
    ensures
        ({
            let post = pre.after_load(probed_ms, now_ms);
            &&& post.estimator.position_ms == 0
            &&& post.seek_permille == 0
            &&& post.track_loaded
            &&& post.is_playing
            &&& post.handle == Some(HandleModel { playing: true })
            &&& (probed_ms matches Some(p)
                ==> post.estimator.duration_ms matches Some(d) && d >= p)
            &&& (probed_ms is None ==> post.estimator.duration_ms is None)
        }),
{
}

} // verus!
