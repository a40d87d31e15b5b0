//! Plain tags and numbers shared with a host across a C boundary.
pub mod event_data;
pub mod json;
pub mod point_def;
pub mod time;
pub mod track;
pub mod types;
