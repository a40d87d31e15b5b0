//! Tracks, their properties, and the scheduler that animates them.
pub mod coroutine_manager;
pub mod events;
pub mod game_object;
pub mod property;
pub mod track;
pub mod tracks_holder;
