//! Timing and buffer logic of a native audio module for a rhythm game.
pub mod channels;
pub mod clock;
pub mod decoder;
pub mod device;
pub mod player;
pub mod stream;
pub mod time;
