//! A small audio-player core: an ordered, navigable, shuffleable play queue
//! with a current-position cursor, and a player state machine that turns
//! high-level commands into queue navigation plus instructions for an
//! external audio streaming backend.

pub mod play_queue;
pub mod player;
