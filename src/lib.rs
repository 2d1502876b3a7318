//! Core of a desktop metronome: the tempo clock's decision logic, the control
//! protocol between callers and the scheduler thread, the click's active flag
//! and gain, and the song listing's plain data.
pub mod audio;
pub mod control;
pub mod input;
pub mod song_listing;
pub mod synth;
pub mod util;
