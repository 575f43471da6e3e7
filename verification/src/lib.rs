//! Core of a single-track audio player: a playback controller state machine
//! with wall-clock position estimation and seek arbitration.
//!
//! The controller never touches the audio device, the file system or the
//! clock itself. It is driven with plain values (milliseconds, permille
//! fractions, boolean device signals) and answers with the state transition
//! it took and the [`player::Action`] the embedding program must apply to
//! the real output sink. Durations are carried as whole milliseconds;
//! volumes and seek fractions as permille (0 ..= 1000 standing for 0.0 ..= 1.0).

pub mod estimator;
pub mod laws;
pub mod metadata;
pub mod player;
pub mod timefmt;
