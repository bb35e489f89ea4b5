//! Control layer of a desktop screen/audio recorder: classifies global input
//! events into stop gestures, drives the one-shot session-stop flag, probes
//! the execution environment, gates playback on media validation, and chooses
//! the playback path.

pub mod input;
pub mod playback;
pub mod probe;
pub mod session;
