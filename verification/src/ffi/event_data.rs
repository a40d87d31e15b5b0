//! The tags of an event, as a host writes them.
use crate::animation::events::EventType;
use crate::animation::track::{PathPropertyHandle, PropertyNames, ValuePropertyHandle};
use vstd::prelude::*;

verus! {

/// The sort of an event.
#[derive(Clone, Copy, PartialEq, Eq, Structural, Debug)]
pub enum CEventTypeEnum {
    AnimateTrack,
    AssignPathAnimation,
}

/// How an event names its property: by text or by `PropertyNames`.
#[derive(Clone, Copy, PartialEq, Eq, Structural, Debug)]
pub enum CEventPropertyIdType {
    CString,
    PropertyName,
}

/// The event type that a host describes by the sort `ty` and a property
/// given by `PropertyNames`.
pub fn event_type_by_name(ty: CEventTypeEnum, name: PropertyNames) -> (r: EventType)
    ensures
        r == (match ty {
            CEventTypeEnum::AnimateTrack => EventType::AnimateTrack(ValuePropertyHandle::ById(name)),
            CEventTypeEnum::AssignPathAnimation => EventType::AssignPathAnimation(
                PathPropertyHandle::ById(name),
            ),
        }),
{
    match ty {
        CEventTypeEnum::AnimateTrack => EventType::AnimateTrack(ValuePropertyHandle::ById(name)),
        CEventTypeEnum::AssignPathAnimation => EventType::AssignPathAnimation(
            PathPropertyHandle::ById(name),
        ),
    }
}

/// The event type that a host describes by the sort `ty` and a property
/// given by its text: the handle by `PropertyNames` where the text names
/// a property that every track has, else the handle by name.
pub fn event_type_by_text(ty: CEventTypeEnum, property: &str) -> (r: EventType)
    ensures
        match (ty, PropertyNames::parse(property@)) {
            (CEventTypeEnum::AnimateTrack, Some(name)) => r == EventType::AnimateTrack(
                ValuePropertyHandle::ById(name),
            ),
            (CEventTypeEnum::AnimateTrack, None) => r matches EventType::AnimateTrack(
                ValuePropertyHandle::ByName(text),
            ) && text@ == property@,
            (CEventTypeEnum::AssignPathAnimation, Some(name)) => r
                == EventType::AssignPathAnimation(PathPropertyHandle::ById(name)),
            (CEventTypeEnum::AssignPathAnimation, None) => r matches EventType::AssignPathAnimation(
                PathPropertyHandle::ByName(text),
            ) && text@ == property@,
        },
{
    match ty {
        CEventTypeEnum::AnimateTrack => EventType::AnimateTrack(ValuePropertyHandle::new(property)),
        CEventTypeEnum::AssignPathAnimation => EventType::AssignPathAnimation(
            PathPropertyHandle::new(property),
        ),
    }
}

} // verus!
