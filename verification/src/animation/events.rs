//! Animation events.
use crate::animation::track::{PathPropertyHandle, ValuePropertyHandle};
use crate::animation::tracks_holder::TrackKey;
use crate::easings::functions::Functions;
use crate::ieee::Scalar;
use crate::point_definition::base_point_definition::BasePointDefinition;
use std::rc::Rc;
use vstd::prelude::*;

verus! {

/// An animation to start on a property of a track.
#[derive(Debug)]
pub struct EventData {
    /// The duration in beats.
    pub raw_duration: Scalar,
    pub easing: Functions,
    /// How many times the animation runs again after its first run.
    pub repeat: u32,
    /// The song time at which the animation starts.
    pub start_song_time: Scalar,
    pub property: EventType,
    pub track_key: TrackKey,
    pub point_data: Option<Rc<BasePointDefinition>>,
}

/// What an event does, and to which property.
#[derive(Debug)]
pub enum EventType {
    /// Moves a value property along a curve.
    AnimateTrack(ValuePropertyHandle),
    /// Gives a path property a new curve and blends over to it.
    AssignPathAnimation(PathPropertyHandle),
}

impl EventType {
    /// Whether the two are events of one sort on the same property, named
    /// in the same way.
    pub open spec fn same_as(self, other: EventType) -> bool {
        match (self, other) {
            (EventType::AnimateTrack(a), EventType::AnimateTrack(b)) => a.same_as(b),
            (EventType::AssignPathAnimation(a), EventType::AssignPathAnimation(b)) => a.same_as(b),
            _ => false,
        }
    }

    /// Whether the two are events of one sort on the same property, named
    /// in the same way.
    pub fn equals(&self, other: &EventType) -> (r: bool)
        ensures
            r == self.same_as(*other),
    {
        match (self, other) {
            (EventType::AnimateTrack(a), EventType::AnimateTrack(b)) => a.equals(b),
            (EventType::AssignPathAnimation(a), EventType::AssignPathAnimation(b)) => a.equals(b),
            _ => false,
        }
    }
}

} // verus!
