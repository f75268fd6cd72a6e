//! The rules of a small scanner sequencer: a grid of sixteen steps per bar,
//! sound objects that play a note when the scanner sweeps over them, a switch
//! that pulls them onto the grid, and the decoder that turns a stereo voice
//! into one interleaved sample stream.

pub mod decoder;
pub mod grid;
pub mod grid_pull;
pub mod sound_object;
