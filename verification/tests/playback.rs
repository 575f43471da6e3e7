use rusty_player::estimator::PositionEstimator;
use rusty_player::player::{Action, HandleModel, Player};

#[test]
fn new_controller_defaults() {
    let p = Player::new();
    assert!(!p.track_loaded);
    assert!(p.handle.is_none());
    assert!(!p.is_playing);
    assert!(!p.repeat);
    assert_eq!(p.volume_permille, 1000);
    assert_eq!(p.seek_permille, 0);
    assert_eq!(p.estimator.position_ms, 0);
    assert_eq!(p.estimator.anchor_ms, None);
    assert_eq!(p.estimator.duration_ms, None);
}

#[test]
fn load_pads_duration_and_starts_from_zero() {
    let mut p = Player::new();
    let a = p.load(Some(9000), 0);
    assert_eq!(p.estimator.duration_ms, Some(10000));
    assert!(p.estimator.duration_ms.unwrap() >= 9000);
    assert_eq!(p.estimator.position_ms, 0);
    assert!(p.is_playing);
    assert!(p.track_loaded);
    assert_eq!(p.handle, Some(HandleModel { playing: true }));
    assert_eq!(
        a,
        Action::StartSink {
            play: true,
            volume_permille: 1000
        }
    );
}

#[test]
fn load_without_probed_duration_keeps_none() {
    let mut p = Player::new();
    let _ = p.load(None, 0);
    assert_eq!(p.estimator.duration_ms, None);
    assert!(p.is_playing);
}

#[test]
fn update_without_duration_changes_nothing() {
    let mut p = Player::new();
    let _ = p.load(None, 0);
    let a = p.update_position(5000, false);
    assert_eq!(a, Action::Nothing);
    assert_eq!(p.estimator.position_ms, 0);
    assert!(p.is_playing);
}

#[test]
fn update_advances_with_the_clock() {
    let mut p = Player::new();
    let _ = p.load(Some(9000), 0);
    let a = p.update_position(3000, false);
    assert_eq!(a, Action::Nothing);
    assert_eq!(p.estimator.position_ms, 3000);
    assert_eq!(p.seek_permille, 300);
}

#[test]
fn seek_commits_the_exact_fraction() {
    let mut p = Player::new();
    let _ = p.load(Some(9000), 0);
    let target = p.seek_prepare(800);
    assert_eq!(target, Some(8000));
    p.seek_commit(8000, true, 0);
    assert_eq!(p.estimator.position_ms, 8000);
    assert_eq!(p.seek_permille, 800);
}

#[test]
fn failed_seek_is_silently_ignored() {
    let mut p = Player::new();
    let _ = p.load(Some(9000), 0);
    let _ = p.update_position(3000, false);
    let target = p.seek_prepare(800);
    assert_eq!(target, Some(8000));
    p.seek_commit(8000, false, 3000);
    assert_eq!(p.estimator.position_ms, 3000);
    assert_eq!(p.seek_permille, 300);
}

#[test]
fn seek_edge_fractions() {
    let mut p = Player::new();
    let _ = p.load(Some(9000), 0);
    assert_eq!(p.seek_prepare(0), Some(0));
    assert_eq!(p.seek_prepare(1000), Some(10000));
    assert_eq!(p.seek_prepare(333), Some(3330));
}

#[test]
fn seek_without_known_duration_is_a_no_op() {
    let mut p = Player::new();
    let _ = p.load(None, 0);
    assert_eq!(p.seek_prepare(500), None);
    let empty = Player::new();
    assert_eq!(empty.seek_prepare(500), None);
}

#[test]
fn play_pause_in_pairs_keeps_state() {
    let mut p = Player::new();
    let _ = p.load(Some(9000), 0);
    let _ = p.update_position(3000, false);
    assert!(p.is_playing);

    let a = p.play_pause(3000, false);
    assert_eq!(a, Action::PauseSink);
    assert!(!p.is_playing);
    assert_eq!(p.estimator.position_ms, 3000);

    // No wall-clock advance is accumulated while paused, however much
    // time passes before the next tick or toggle.
    let a = p.update_position(50_000, false);
    assert_eq!(a, Action::Nothing);
    assert_eq!(p.estimator.position_ms, 3000);

    let a = p.play_pause(50_000, false);
    assert_eq!(a, Action::PlaySink);
    assert!(p.is_playing);
    assert_eq!(p.estimator.position_ms, 3000);
}

#[test]
fn repeat_wraps_to_zero_and_keeps_playing() {
    let mut p = Player::new();
    let _ = p.load(Some(9000), 0);
    p.toggle_repeat();
    assert!(p.repeat);
    let a = p.update_position(12_000, false);
    assert_eq!(
        a,
        Action::StartSink {
            play: true,
            volume_permille: 1000
        }
    );
    assert_eq!(p.estimator.position_ms, 0);
    assert!(p.is_playing);
    assert_eq!(p.handle, Some(HandleModel { playing: true }));
}

#[test]
fn without_repeat_the_track_settles_to_stopped() {
    let mut p = Player::new();
    let _ = p.load(Some(9000), 0);
    let a = p.update_position(12_000, false);
    assert_eq!(a, Action::StopSink);
    assert_eq!(p.estimator.position_ms, 0);
    assert!(!p.is_playing);
    assert_eq!(p.handle, None);
    assert_eq!(p.seek_permille, 0);
}

#[test]
fn exhaustion_signal_overrides_the_timer() {
    let mut p = Player::new();
    let _ = p.load(Some(9000), 0);
    // Far from the estimated end, but the device says the stream is done.
    let a = p.update_position(1000, true);
    assert_eq!(a, Action::StopSink);
    assert_eq!(p.estimator.position_ms, 0);
    assert!(!p.is_playing);
}

#[test]
fn play_after_natural_end_restarts_from_zero() {
    let mut p = Player::new();
    let _ = p.load(Some(9000), 0);
    p.seek_commit(10_000, true, 0);
    assert_eq!(p.estimator.position_ms, 10_000);
    // Post-end, before any reconciliation tick fired.
    let a = p.play_pause(20_000, false);
    assert_eq!(
        a,
        Action::StartSink {
            play: true,
            volume_permille: 1000
        }
    );
    assert_eq!(p.estimator.position_ms, 0);
    assert!(p.is_playing);
}

#[test]
fn resuming_an_exhausted_sink_restarts_from_zero() {
    let mut p = Player::new();
    let _ = p.load(Some(9000), 0);
    let _ = p.update_position(3000, false);
    let _ = p.play_pause(3000, false);
    assert!(!p.is_playing);
    let a = p.play_pause(4000, true);
    assert_eq!(
        a,
        Action::StartSink {
            play: true,
            volume_permille: 1000
        }
    );
    assert_eq!(p.estimator.position_ms, 0);
    assert!(p.is_playing);
}

#[test]
fn play_from_stopped_state_restarts() {
    let mut p = Player::new();
    let _ = p.load(Some(9000), 0);
    let _ = p.update_position(12_000, false);
    assert_eq!(p.handle, None);
    assert!(p.track_loaded);
    let a = p.play_pause(13_000, false);
    assert_eq!(
        a,
        Action::StartSink {
            play: true,
            volume_permille: 1000
        }
    );
    assert!(p.is_playing);
    assert_eq!(p.estimator.position_ms, 0);
}

#[test]
fn play_pause_with_no_track_does_nothing() {
    let mut p = Player::new();
    let a = p.play_pause(100, false);
    assert_eq!(a, Action::Nothing);
    assert!(!p.is_playing);
}

#[test]
fn volume_set_while_empty_is_applied_to_the_next_handle() {
    let mut p = Player::new();
    let a = p.set_volume(300);
    assert_eq!(a, Action::Nothing);
    assert_eq!(p.volume_permille, 300);
    let a = p.load(Some(9000), 0);
    assert_eq!(
        a,
        Action::StartSink {
            play: true,
            volume_permille: 300
        }
    );
    assert_eq!(p.volume_permille, 300);
}

#[test]
fn volume_set_with_a_live_handle_is_applied_live() {
    let mut p = Player::new();
    let _ = p.load(Some(9000), 0);
    let a = p.set_volume(450);
    assert_eq!(a, Action::ApplyVolume { volume_permille: 450 });
    assert_eq!(p.volume_permille, 450);
}

#[test]
fn unload_degrades_to_empty_but_keeps_settings() {
    let mut p = Player::new();
    let _ = p.set_volume(250);
    p.toggle_repeat();
    let _ = p.load(Some(9000), 0);
    let a = p.unload();
    assert_eq!(a, Action::StopSink);
    assert!(!p.track_loaded);
    assert_eq!(p.handle, None);
    assert!(!p.is_playing);
    assert_eq!(p.estimator.duration_ms, None);
    assert_eq!(p.volume_permille, 250);
    assert!(p.repeat);
}

#[test]
fn full_scenario_load_tick_seek_and_finish() {
    let mut p = Player::new();
    // A ten-second track (the decoder reported nine, padded by one).
    let _ = p.load(Some(9000), 0);

    let _ = p.update_position(3000, false);
    assert_eq!(p.estimator.position_ms, 3000);
    assert_eq!(p.seek_permille, 300);

    let target = p.seek_prepare(800).unwrap();
    assert_eq!(target, 8000);
    p.seek_commit(target, true, 3000);
    assert_eq!(p.estimator.position_ms, 8000);
    assert_eq!(p.seek_permille, 800);

    // Three more seconds put the estimate past the ten-second duration.
    let a = p.update_position(6000, false);
    assert_eq!(a, Action::StopSink);
    assert_eq!(p.estimator.position_ms, 0);
    assert!(!p.is_playing);
}

#[test]
fn full_scenario_with_repeat_keeps_playing() {
    let mut p = Player::new();
    let _ = p.load(Some(9000), 0);
    p.toggle_repeat();
    let _ = p.update_position(3000, false);
    let target = p.seek_prepare(800).unwrap();
    p.seek_commit(target, true, 3000);
    let a = p.update_position(6000, false);
    assert_eq!(
        a,
        Action::StartSink {
            play: true,
            volume_permille: 1000
        }
    );
    assert_eq!(p.estimator.position_ms, 0);
    assert!(p.is_playing);
}

#[test]
fn display_fraction_follows_a_seek_while_paused() {
    let mut p = Player::new();
    let _ = p.load(Some(9000), 0);
    let _ = p.update_position(3000, false);
    assert_eq!(p.seek_permille, 300);
    let _ = p.play_pause(3000, false);
    assert!(!p.is_playing);

    let target = p.seek_prepare(800).unwrap();
    p.seek_commit(target, true, 3000);
    assert_eq!(p.estimator.position_ms, 8000);
    assert_eq!(p.seek_permille, 800);

    // The next (still paused) tick has nothing to correct: the displayed
    // fraction already matches position over duration.
    let _ = p.update_position(60_000, false);
    assert_eq!(p.estimator.position_ms, 8000);
    assert_eq!(p.seek_permille, 800);
}

#[test]
fn estimator_does_not_advance_without_an_anchor() {
    let mut e = PositionEstimator::new();
    let pos = e.advance(5000);
    assert_eq!(pos, 0);
    assert_eq!(e.anchor_ms, None);
}

#[test]
fn estimator_accumulates_across_resume_and_pause() {
    let mut e = PositionEstimator::new();
    e.resume(1000);
    let pos = e.advance(3500);
    assert_eq!(pos, 2500);
    assert_eq!(e.anchor_ms, Some(3500));
    e.pause();
    let pos = e.advance(9000);
    assert_eq!(pos, 2500);
    e.resume(9000);
    let pos = e.advance(10_000);
    assert_eq!(pos, 3500);
}

#[test]
fn estimator_reset_keeps_the_duration() {
    let mut e = PositionEstimator::new();
    e.set_duration(Some(42_000));
    e.resume(0);
    let _ = e.advance(7000);
    e.reset();
    assert_eq!(e.position_ms, 0);
    assert_eq!(e.anchor_ms, None);
    assert_eq!(e.duration_ms, Some(42_000));
}
