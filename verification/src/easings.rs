//! Easing curves.
pub mod functions;
