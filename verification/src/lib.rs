//! An animation engine for keyframed track properties.
//!
//! Tracks hold typed property slots; point definitions describe how a value
//! moves over time; the coroutine manager drives live animation events
//! against a song clock. Numbers are bit patterns (`ieee`), and all
//! arithmetic on them is done by the caller's `Numerics`.
pub mod ieee;
pub mod text;
pub mod easings;
pub mod modifiers;
pub mod numerics;
pub mod ffi;
pub mod values;
pub mod base_provider_context;
pub mod point_data;
pub mod point_definition;
pub mod animation;
pub mod context;
