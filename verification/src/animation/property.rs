//! The property slots of a track.
use crate::ffi::types::WrapBaseValueType;
use crate::point_definition::point_definition_interpolation::PointDefinitionInterpolation;
use crate::values::value::BaseValue;
use std::time::SystemTime;
use vstd::prelude::*;

verus! {

#[verifier::external_type_specification]
#[verifier::external_body]
pub struct ExSystemTime(SystemTime);

/// `SystemTime::now`: the time of the system clock. Nothing is known of it.
pub assume_specification[ SystemTime::now ]() -> (r: SystemTime)
;

/// A slot for a value of a fixed kind, with the time of its last write.
#[derive(Debug)]
pub struct ValueProperty {
    pub value: Option<BaseValue>,
    pub ty: WrapBaseValueType,
    pub last_updated: SystemTime,
}

/// A slot for a path: the blend of two curves.
pub type PathProperty = PointDefinitionInterpolation;

/// A slot of kind `ty` takes `value`: nothing, or a value of its kind; a
/// slot of unknown kind takes every value.
pub open spec fn takes(ty: WrapBaseValueType, value: Option<BaseValue>) -> bool {
    value matches Some(v) ==> ty.admits(v.kind())
}

impl ValueProperty {
    /// The value, where there is one, is of the kind of the slot.
    pub open spec fn wf(&self) -> bool {
        takes(self.ty, self.value)
    }

    /// A slot of kind `ty` that holds `value`. A value of another kind is
    /// a usage error.
    pub fn new(value: Option<BaseValue>, ty: WrapBaseValueType) -> (r: ValueProperty)
        requires
            value matches Some(v) ==> v.kind() == ty,
        ensures
            r.value == value,
            r.ty == ty,
            r.wf(),
    {
        ValueProperty { value, ty, last_updated: SystemTime::now() }
    }

    /// An empty slot of kind `ty`.
    pub fn empty(ty: WrapBaseValueType) -> (r: ValueProperty)
        ensures
            r.value is None,
            r.ty == ty,
            r.wf(),
    {
        ValueProperty { value: None, ty, last_updated: SystemTime::now() }
    }

    /// Sets the time of the last write to now.
    pub fn mark_updated(&mut self)
        ensures
            final(self).value == old(self).value,
            final(self).ty == old(self).ty,
    {
        self.mark_updated_at(SystemTime::now());
    }

    /// Sets the time of the last write to `time` and leaves the value and
    /// the kind of the slot as they are.
    pub fn mark_updated_at(&mut self, time: SystemTime)
        ensures
            *final(self) == (ValueProperty { last_updated: time, ..*old(self) }),
    {
        self.last_updated = time;
    }

    /// The value of the slot.
    pub fn get_value(&self) -> (r: Option<BaseValue>)
        ensures
            r == self.value,
    {
        self.value
    }

    /// The kind of the slot.
    pub fn get_type(&self) -> (r: WrapBaseValueType)
        ensures
            r == self.ty,
    {
        self.ty
    }

    /// Whether the slot takes `value`.
    pub fn accepts(&self, value: &Option<BaseValue>) -> (r: bool)
        ensures
            r == takes(self.ty, *value),
    {
        match value {
            Some(v) => self.ty.accepts(v.get_type()),
            None => true,
        }
    }

    /// Writes `value` to the slot and sets the time of the last write to
    /// now. A value of another kind than the slot's is a usage error.
    pub fn set_value(&mut self, value: Option<BaseValue>)
        requires
            takes(old(self).ty, value),
        ensures
            final(self).value == value,
            final(self).ty == old(self).ty,
            final(self).wf(),
    {
        self.value = value;
        self.mark_updated();
    }
}

impl Default for ValueProperty {
    fn default() -> (r: ValueProperty)
        ensures
            r.value is None,
            r.ty == WrapBaseValueType::Unknown,
    {
        ValueProperty {
            value: None,
            ty: WrapBaseValueType::Unknown,
            last_updated: SystemTime::now(),
        }
    }
}

} // verus!
