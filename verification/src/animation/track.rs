//! Tracks: named collections of property slots and of the game objects
//! that they drive.
use crate::animation::game_object::GameObject;
use crate::animation::property::{PathProperty, ValueProperty};
use crate::ffi::types::WrapBaseValueType;
use crate::text::same;
use ahash::AHashMap;
use vstd::prelude::*;

verus! {

pub const POSITION: &'static str = "position";

pub const ROTATION: &'static str = "rotation";

pub const SCALE: &'static str = "scale";

pub const LOCAL_ROTATION: &'static str = "local_rotation";

pub const LOCAL_POSITION: &'static str = "local_position";

pub const DEFINITE_POSITION: &'static str = "definite_position";

pub const DISSOLVE: &'static str = "dissolve";

pub const DISSOLVE_ARROW: &'static str = "dissolve_arrow";

pub const TIME: &'static str = "time";

pub const CUTTABLE: &'static str = "cuttable";

pub const COLOR: &'static str = "color";

pub const ATTENTUATION: &'static str = "attentuation";

pub const FOG_OFFSET: &'static str = "fog_offset";

pub const HEIGHT_FOG_START_Y: &'static str = "height_fog_start_y";

pub const HEIGHT_FOG_HEIGHT: &'static str = "height_fog_height";

// The names of the older schema.
pub const V2_POSITION: &'static str = "_position";

pub const V2_LOCAL_POSITION: &'static str = "_localPosition";

pub const V2_ROTATION: &'static str = "_rotation";

pub const V2_LOCAL_ROTATION: &'static str = "_localRotation";

pub const V2_SCALE: &'static str = "_scale";

pub const V2_DEFINITE_POSITION: &'static str = "_definitePosition";

pub const V2_DISSOLVE: &'static str = "_dissolve";

pub const V2_DISSOLVE_ARROW: &'static str = "_dissolveArrow";

pub const V2_TIME: &'static str = "_time";

pub const V2_CUTTABLE: &'static str = "_cuttable";

pub const V2_COLOR: &'static str = "_color";

pub const V2_ATTENTUATION: &'static str = "_attenuation";

pub const V2_FOG_OFFSET: &'static str = "_fogOffset";

pub const V2_HEIGHT_FOG_START_Y: &'static str = "_heightFogStartY";

pub const V2_HEIGHT_FOG_HEIGHT: &'static str = "_heightFogHeight";

/// The properties that every track has a slot for.
#[derive(Debug, Clone, Copy, PartialEq, Eq, Structural, Hash)]
pub enum PropertyNames {
    Position,
    Rotation,
    Scale,
    LocalRotation,
    LocalPosition,
    DefinitePosition,
    Dissolve,
    DissolveArrow,
    Time,
    Cuttable,
    Color,
    Attentuation,
    FogOffset,
    HeightFogStartY,
    HeightFogHeight,
    UnknownPropertyName,
}

/// A value property of a track, by its name or, for the properties that
/// every track has, by `PropertyNames`.
#[derive(Debug)]
pub enum ValuePropertyHandle {
    ByName(String),
    ById(PropertyNames),
}

/// A path property of a track, by its name or, for the properties that
/// every track has, by `PropertyNames`.
#[derive(Debug)]
pub enum PathPropertyHandle {
    ByName(String),
    ById(PropertyNames),
}

impl PropertyNames {
    /// The name of the property.
    pub open spec fn canonical(self) -> Seq<char> {
        match self {
            PropertyNames::Position => "position"@,
            PropertyNames::Rotation => "rotation"@,
            PropertyNames::Scale => "scale"@,
            PropertyNames::LocalRotation => "local_rotation"@,
            PropertyNames::LocalPosition => "local_position"@,
            PropertyNames::DefinitePosition => "definite_position"@,
            PropertyNames::Dissolve => "dissolve"@,
            PropertyNames::DissolveArrow => "dissolve_arrow"@,
            PropertyNames::Time => "time"@,
            PropertyNames::Cuttable => "cuttable"@,
            PropertyNames::Color => "color"@,
            PropertyNames::Attentuation => "attentuation"@,
            PropertyNames::FogOffset => "fog_offset"@,
            PropertyNames::HeightFogStartY => "height_fog_start_y"@,
            PropertyNames::HeightFogHeight => "height_fog_height"@,
            PropertyNames::UnknownPropertyName => "Unknown"@,
        }
    }

    /// The name of the property in the older schema.
    pub open spec fn alias(self) -> Seq<char> {
        match self {
            PropertyNames::Position => "_position"@,
            PropertyNames::Rotation => "_rotation"@,
            PropertyNames::Scale => "_scale"@,
            PropertyNames::LocalRotation => "_localRotation"@,
            PropertyNames::LocalPosition => "_localPosition"@,
            PropertyNames::DefinitePosition => "_definitePosition"@,
            PropertyNames::Dissolve => "_dissolve"@,
            PropertyNames::DissolveArrow => "_dissolveArrow"@,
            PropertyNames::Time => "_time"@,
            PropertyNames::Cuttable => "_cuttable"@,
            PropertyNames::Color => "_color"@,
            PropertyNames::Attentuation => "_attenuation"@,
            PropertyNames::FogOffset => "_fogOffset"@,
            PropertyNames::HeightFogStartY => "_heightFogStartY"@,
            PropertyNames::HeightFogHeight => "_heightFogHeight"@,
            PropertyNames::UnknownPropertyName => "Unknown"@,
        }
    }

    /// The kind of the property; `Unknown` for `UnknownPropertyName`.
    pub open spec fn kind(self) -> WrapBaseValueType {
        match self {
            PropertyNames::Position => WrapBaseValueType::Vec3,
            PropertyNames::Rotation => WrapBaseValueType::Quat,
            PropertyNames::Scale => WrapBaseValueType::Vec3,
            PropertyNames::LocalRotation => WrapBaseValueType::Quat,
            PropertyNames::LocalPosition => WrapBaseValueType::Vec3,
            PropertyNames::DefinitePosition => WrapBaseValueType::Vec3,
            PropertyNames::Dissolve => WrapBaseValueType::Float,
            PropertyNames::DissolveArrow => WrapBaseValueType::Float,
            PropertyNames::Time => WrapBaseValueType::Float,
            PropertyNames::Cuttable => WrapBaseValueType::Float,
            PropertyNames::Color => WrapBaseValueType::Vec4,
            PropertyNames::Attentuation => WrapBaseValueType::Float,
            PropertyNames::FogOffset => WrapBaseValueType::Float,
            PropertyNames::HeightFogStartY => WrapBaseValueType::Float,
            PropertyNames::HeightFogHeight => WrapBaseValueType::Float,
            PropertyNames::UnknownPropertyName => WrapBaseValueType::Unknown,
        }
    }

    /// The property that the text `name` names: the first in the list of
    /// names, then of older names, that `name` equals.
    pub open spec fn parse(name: Seq<char>) -> Option<PropertyNames> {
        if name == "position"@ {
            Some(PropertyNames::Position)
        } else if name == "rotation"@ {
            Some(PropertyNames::Rotation)
        } else if name == "scale"@ {
            Some(PropertyNames::Scale)
        } else if name == "local_rotation"@ {
            Some(PropertyNames::LocalRotation)
        } else if name == "local_position"@ {
            Some(PropertyNames::LocalPosition)
        } else if name == "definite_position"@ {
            Some(PropertyNames::DefinitePosition)
        } else if name == "dissolve"@ {
            Some(PropertyNames::Dissolve)
        } else if name == "dissolve_arrow"@ {
            Some(PropertyNames::DissolveArrow)
        } else if name == "time"@ {
            Some(PropertyNames::Time)
        } else if name == "cuttable"@ {
            Some(PropertyNames::Cuttable)
        } else if name == "color"@ {
            Some(PropertyNames::Color)
        } else if name == "attentuation"@ {
            Some(PropertyNames::Attentuation)
        } else if name == "fog_offset"@ {
            Some(PropertyNames::FogOffset)
        } else if name == "height_fog_start_y"@ {
            Some(PropertyNames::HeightFogStartY)
        } else if name == "height_fog_height"@ {
            Some(PropertyNames::HeightFogHeight)
        } else if name == "_position"@ {
            Some(PropertyNames::Position)
        } else if name == "_localPosition"@ {
            Some(PropertyNames::LocalPosition)
        } else if name == "_rotation"@ {
            Some(PropertyNames::Rotation)
        } else if name == "_localRotation"@ {
            Some(PropertyNames::LocalRotation)
        } else if name == "_scale"@ {
            Some(PropertyNames::Scale)
        } else if name == "_definitePosition"@ {
            Some(PropertyNames::DefinitePosition)
        } else if name == "_dissolve"@ {
            Some(PropertyNames::Dissolve)
        } else if name == "_dissolveArrow"@ {
            Some(PropertyNames::DissolveArrow)
        } else if name == "_time"@ {
            Some(PropertyNames::Time)
        } else if name == "_cuttable"@ {
            Some(PropertyNames::Cuttable)
        } else if name == "_color"@ {
            Some(PropertyNames::Color)
        } else if name == "_attenuation"@ {
            Some(PropertyNames::Attentuation)
        } else if name == "_fogOffset"@ {
            Some(PropertyNames::FogOffset)
        } else if name == "_heightFogStartY"@ {
            Some(PropertyNames::HeightFogStartY)
        } else if name == "_heightFogHeight"@ {
            Some(PropertyNames::HeightFogHeight)
        } else {
            None
        }
    }

    /// The property that `name` names, by its name or its older name;
    /// `Err` for every other text.
    pub fn from_str(name: &str) -> (r: Result<PropertyNames, ()>)
        ensures
            r == (match PropertyNames::parse(name@) {
                Some(p) => Ok::<PropertyNames, ()>(p),
                None => Err::<PropertyNames, ()>(()),
            }),
            r matches Ok(p) ==> p != PropertyNames::UnknownPropertyName && (name@ == p.canonical()
                || name@ == p.alias()),
    {
        if same(name, POSITION) {
            Ok(PropertyNames::Position)
        } else if same(name, ROTATION) {
            Ok(PropertyNames::Rotation)
        } else if same(name, SCALE) {
            Ok(PropertyNames::Scale)
        } else if same(name, LOCAL_ROTATION) {
            Ok(PropertyNames::LocalRotation)
        } else if same(name, LOCAL_POSITION) {
            Ok(PropertyNames::LocalPosition)
        } else if same(name, DEFINITE_POSITION) {
            Ok(PropertyNames::DefinitePosition)
        } else if same(name, DISSOLVE) {
            Ok(PropertyNames::Dissolve)
        } else if same(name, DISSOLVE_ARROW) {
            Ok(PropertyNames::DissolveArrow)
        } else if same(name, TIME) {
            Ok(PropertyNames::Time)
        } else if same(name, CUTTABLE) {
            Ok(PropertyNames::Cuttable)
        } else if same(name, COLOR) {
            Ok(PropertyNames::Color)
        } else if same(name, ATTENTUATION) {
            Ok(PropertyNames::Attentuation)
        } else if same(name, FOG_OFFSET) {
            Ok(PropertyNames::FogOffset)
        } else if same(name, HEIGHT_FOG_START_Y) {
            Ok(PropertyNames::HeightFogStartY)
        } else if same(name, HEIGHT_FOG_HEIGHT) {
            Ok(PropertyNames::HeightFogHeight)
        } else if same(name, V2_POSITION) {
            Ok(PropertyNames::Position)
        } else if same(name, V2_LOCAL_POSITION) {
            Ok(PropertyNames::LocalPosition)
        } else if same(name, V2_ROTATION) {
            Ok(PropertyNames::Rotation)
        } else if same(name, V2_LOCAL_ROTATION) {
            Ok(PropertyNames::LocalRotation)
        } else if same(name, V2_SCALE) {
            Ok(PropertyNames::Scale)
        } else if same(name, V2_DEFINITE_POSITION) {
            Ok(PropertyNames::DefinitePosition)
        } else if same(name, V2_DISSOLVE) {
            Ok(PropertyNames::Dissolve)
        } else if same(name, V2_DISSOLVE_ARROW) {
            Ok(PropertyNames::DissolveArrow)
        } else if same(name, V2_TIME) {
            Ok(PropertyNames::Time)
        } else if same(name, V2_CUTTABLE) {
            Ok(PropertyNames::Cuttable)
        } else if same(name, V2_COLOR) {
            Ok(PropertyNames::Color)
        } else if same(name, V2_ATTENTUATION) {
            Ok(PropertyNames::Attentuation)
        } else if same(name, V2_FOG_OFFSET) {
            Ok(PropertyNames::FogOffset)
        } else if same(name, V2_HEIGHT_FOG_START_Y) {
            Ok(PropertyNames::HeightFogStartY)
        } else if same(name, V2_HEIGHT_FOG_HEIGHT) {
            Ok(PropertyNames::HeightFogHeight)
        } else {
            Err(())
        }
    }

    /// The name of the property, as text.
    pub fn to_string(&self) -> (s: String)
        ensures
            s@ == self.canonical(),
    {
        match self {
            PropertyNames::Position => POSITION.to_owned(),
            PropertyNames::Rotation => ROTATION.to_owned(),
            PropertyNames::Scale => SCALE.to_owned(),
            PropertyNames::LocalRotation => LOCAL_ROTATION.to_owned(),
            PropertyNames::LocalPosition => LOCAL_POSITION.to_owned(),
            PropertyNames::DefinitePosition => DEFINITE_POSITION.to_owned(),
            PropertyNames::Dissolve => DISSOLVE.to_owned(),
            PropertyNames::DissolveArrow => DISSOLVE_ARROW.to_owned(),
            PropertyNames::Time => TIME.to_owned(),
            PropertyNames::Cuttable => CUTTABLE.to_owned(),
            PropertyNames::Color => COLOR.to_owned(),
            PropertyNames::Attentuation => ATTENTUATION.to_owned(),
            PropertyNames::FogOffset => FOG_OFFSET.to_owned(),
            PropertyNames::HeightFogStartY => HEIGHT_FOG_START_Y.to_owned(),
            PropertyNames::HeightFogHeight => HEIGHT_FOG_HEIGHT.to_owned(),
            PropertyNames::UnknownPropertyName => "Unknown".to_owned(),
        }
    }
}

impl ValuePropertyHandle {
    /// The handle for the property named `id`: by `PropertyNames` where
    /// `id` names a property that every track has, else by name.
    pub fn new(id: &str) -> (r: ValuePropertyHandle)
        ensures
            match PropertyNames::parse(id@) {
                Some(name) => r == ValuePropertyHandle::ById(name),
                None => r matches ValuePropertyHandle::ByName(text) && text@ == id@,
            },
    {
        match PropertyNames::from_str(id) {
            Ok(name) => ValuePropertyHandle::ById(name),
            _ => ValuePropertyHandle::ByName(id.to_owned()),
        }
    }

    /// Whether the two handles name the same property in the same way.
    pub open spec fn same_as(self, other: ValuePropertyHandle) -> bool {
        match (self, other) {
            (ValuePropertyHandle::ByName(a), ValuePropertyHandle::ByName(b)) => a@ == b@,
            (ValuePropertyHandle::ById(a), ValuePropertyHandle::ById(b)) => a == b,
            _ => false,
        }
    }

    /// Whether the two handles name the same property in the same way.
    pub fn equals(&self, other: &ValuePropertyHandle) -> (r: bool)
        ensures
            r == self.same_as(*other),
    {
        match (self, other) {
            (ValuePropertyHandle::ByName(a), ValuePropertyHandle::ByName(b)) => same(
                a.as_str(),
                b.as_str(),
            ),
            (ValuePropertyHandle::ById(a), ValuePropertyHandle::ById(b)) => *a == *b,
            _ => false,
        }
    }
}

impl PathPropertyHandle {
    /// The handle for the property named `id`: by `PropertyNames` where
    /// `id` names a property that every track has, else by name.
    pub fn new(id: &str) -> (r: PathPropertyHandle)
        ensures
            match PropertyNames::parse(id@) {
                Some(name) => r == PathPropertyHandle::ById(name),
                None => r matches PathPropertyHandle::ByName(text) && text@ == id@,
            },
    {
        match PropertyNames::from_str(id) {
            Ok(name) => PathPropertyHandle::ById(name),
            _ => PathPropertyHandle::ByName(id.to_owned()),
        }
    }

    /// Whether the two handles name the same property in the same way.
    pub open spec fn same_as(self, other: PathPropertyHandle) -> bool {
        match (self, other) {
            (PathPropertyHandle::ByName(a), PathPropertyHandle::ByName(b)) => a@ == b@,
            (PathPropertyHandle::ById(a), PathPropertyHandle::ById(b)) => a == b,
            _ => false,
        }
    }

    /// Whether the two handles name the same property in the same way.
    pub fn equals(&self, other: &PathPropertyHandle) -> (r: bool)
        ensures
            r == self.same_as(*other),
    {
        match (self, other) {
            (PathPropertyHandle::ByName(a), PathPropertyHandle::ByName(b)) => same(
                a.as_str(),
                b.as_str(),
            ),
            (PathPropertyHandle::ById(a), PathPropertyHandle::ById(b)) => *a == *b,
            _ => false,
        }
    }
}

#[verifier::external_type_specification]
#[verifier::external_body]
#[verifier::reject_recursive_types(K)]
#[verifier::reject_recursive_types(V)]
#[verifier::reject_recursive_types(S)]
pub struct ExAHashMap<K, V, S>(AHashMap<K, V, S>);

#[verifier::external_type_specification]
#[verifier::external_body]
pub struct ExRandomState(ahash::RandomState);

/// What a map of value properties by name holds: the slot under each name.
pub uninterp spec fn value_entries(m: AHashMap<String, ValueProperty>) -> Map<Seq<char>, ValueProperty>;

/// `AHashMap::new`: a map that holds nothing.
#[verifier::external_body]
fn value_map_new() -> (r: AHashMap<String, ValueProperty>)
    ensures
        value_entries(r) == (Map::<Seq<char>, ValueProperty>::empty()),
{
    AHashMap::new()
}

/// `AHashMap::get`: the slot under the name `id`, where the map holds one.
#[verifier::external_body]
fn value_map_get<'a>(m: &'a AHashMap<String, ValueProperty>, id: &str) -> (r: Option<&'a ValueProperty>)
    ensures
        r == (if value_entries(*m).contains_key(id@) {
            Some(&value_entries(*m)[id@])
        } else {
            None
        }),
{
    m.get(id)
}

/// `AHashMap::get_mut`: the slot under the name `id`, where the map holds
/// one, to be changed in place; every other slot stays as it is, and
/// where the map holds none under `id`, so does the map.
#[verifier::external_body]
fn value_map_get_mut<'a>(m: &'a mut AHashMap<String, ValueProperty>, id: &str) -> (r: Option<&'a mut ValueProperty>)
    ensures
        match r {
            Some(slot) => {
                &&& value_entries(*old(m)).contains_key(id@)
                &&& *slot == value_entries(*old(m))[id@]
                &&& value_entries(*final(m)) == value_entries(*old(m)).insert(id@, *final(slot))
            },
            None => !value_entries(*old(m)).contains_key(id@) && *final(m) == *old(m),
        },
{
    m.get_mut(id)
}

/// `AHashMap::insert`: puts `slot` under the name `id`, in place of the
/// slot that was there, which is returned.
#[verifier::external_body]
fn value_map_insert(m: &mut AHashMap<String, ValueProperty>, id: String, slot: ValueProperty) -> (r: Option<ValueProperty>)
    ensures
        value_entries(*final(m)) == value_entries(*old(m)).insert(id@, slot),
        r == (if value_entries(*old(m)).contains_key(id@) {
            Some(value_entries(*old(m))[id@])
        } else {
            None
        }),
{
    m.insert(id, slot)
}

/// A PropertiesMap holds the value properties of a track: one slot for each
/// of the properties that every track has, and a map by name for all others.
#[derive(Debug)]
pub struct PropertiesMap {
    pub properties: AHashMap<String, ValueProperty>,
    pub position: ValueProperty,
    pub rotation: ValueProperty,
    pub scale: ValueProperty,
    pub local_rotation: ValueProperty,
    pub local_position: ValueProperty,
    pub dissolve: ValueProperty,
    pub dissolve_arrow: ValueProperty,
    pub time: ValueProperty,
    pub cuttable: ValueProperty,
    pub color: ValueProperty,
    pub attentuation: ValueProperty,
    pub fog_offset: ValueProperty,
    pub height_fog_start_y: ValueProperty,
    pub height_fog_height: ValueProperty,
}

impl PropertiesMap {
    /// The slots by name, for the properties that not every track has.
    pub open spec fn extension(&self) -> Map<Seq<char>, ValueProperty> {
        value_entries(self.properties)
    }

    /// The slot of the property `name`, where every track has one.
    pub open spec fn builtin(&self, name: PropertyNames) -> Option<ValueProperty> {
        match name {
            PropertyNames::Position => Some(self.position),
            PropertyNames::Rotation => Some(self.rotation),
            PropertyNames::Scale => Some(self.scale),
            PropertyNames::LocalRotation => Some(self.local_rotation),
            PropertyNames::LocalPosition => Some(self.local_position),
            PropertyNames::Dissolve => Some(self.dissolve),
            PropertyNames::DissolveArrow => Some(self.dissolve_arrow),
            PropertyNames::Time => Some(self.time),
            PropertyNames::Cuttable => Some(self.cuttable),
            PropertyNames::Color => Some(self.color),
            PropertyNames::Attentuation => Some(self.attentuation),
            PropertyNames::FogOffset => Some(self.fog_offset),
            PropertyNames::HeightFogStartY => Some(self.height_fog_start_y),
            PropertyNames::HeightFogHeight => Some(self.height_fog_height),
            _ => None,
        }
    }

    /// The map with `slot` in place of the slot of the property `name`.
    pub open spec fn with_builtin(&self, name: PropertyNames, slot: ValueProperty) -> PropertiesMap {
        match name {
            PropertyNames::Position => PropertiesMap { position: slot, ..*self },
            PropertyNames::Rotation => PropertiesMap { rotation: slot, ..*self },
            PropertyNames::Scale => PropertiesMap { scale: slot, ..*self },
            PropertyNames::LocalRotation => PropertiesMap { local_rotation: slot, ..*self },
            PropertyNames::LocalPosition => PropertiesMap { local_position: slot, ..*self },
            PropertyNames::Dissolve => PropertiesMap { dissolve: slot, ..*self },
            PropertyNames::DissolveArrow => PropertiesMap { dissolve_arrow: slot, ..*self },
            PropertyNames::Time => PropertiesMap { time: slot, ..*self },
            PropertyNames::Cuttable => PropertiesMap { cuttable: slot, ..*self },
            PropertyNames::Color => PropertiesMap { color: slot, ..*self },
            PropertyNames::Attentuation => PropertiesMap { attentuation: slot, ..*self },
            PropertyNames::FogOffset => PropertiesMap { fog_offset: slot, ..*self },
            PropertyNames::HeightFogStartY => PropertiesMap { height_fog_start_y: slot, ..*self },
            PropertyNames::HeightFogHeight => PropertiesMap { height_fog_height: slot, ..*self },
            _ => *self,
        }
    }

    /// Whether `after` is this map with `slot` under the name `id` of the
    /// map by name, and all else as it is.
    pub open spec fn extended(&self, id: Seq<char>, slot: ValueProperty, after: PropertiesMap) -> bool {
        &&& after.extension() == self.extension().insert(id, slot)
        &&& after == (PropertiesMap { properties: after.properties, ..*self })
    }

    /// The slot that the text `id` names: that of the property that `id`
    /// names where every track has it, else the one under `id` in the map
    /// by name.
    pub open spec fn named(&self, id: Seq<char>) -> Option<ValueProperty> {
        match PropertyNames::parse(id) {
            Some(name) => self.builtin(name),
            None => if self.extension().contains_key(id) {
                Some(self.extension()[id])
            } else {
                None
            },
        }
    }

    /// The slot that `handle` names.
    pub open spec fn handled(&self, handle: ValuePropertyHandle) -> Option<ValueProperty> {
        match handle {
            ValuePropertyHandle::ByName(id) => if self.extension().contains_key(id@) {
                Some(self.extension()[id@])
            } else {
                None
            },
            ValuePropertyHandle::ById(name) => self.builtin(name),
        }
    }

    /// Whether `after` is this map with `slot` in the place that `handle`
    /// names, and all else as it is.
    pub open spec fn replaced(&self, handle: ValuePropertyHandle, slot: ValueProperty, after: PropertiesMap) -> bool {
        match handle {
            ValuePropertyHandle::ByName(id) => self.extended(id@, slot, after),
            ValuePropertyHandle::ById(name) => after == self.with_builtin(name, slot),
        }
    }

    /// Whether `after` is this map with `slot` in the place where `insert`
    /// puts what comes under the text `id`, and all else as it is: the
    /// slot of the property that `id` names where the map has one for it,
    /// else the place under `id` in the map by name.
    pub open spec fn put(&self, id: Seq<char>, slot: ValueProperty, after: PropertiesMap) -> bool {
        match PropertyNames::parse(id) {
            Some(name) => if self.builtin(name) is Some {
                after == self.with_builtin(name, slot)
            } else {
                self.extended(id, slot, after)
            },
            None => self.extended(id, slot, after),
        }
    }

    /// The slot of the property `name`, where every track has one.
    pub fn get_property_by_name(&self, name: PropertyNames) -> (r: Option<&ValueProperty>)
        ensures
            r == (match self.builtin(name) {
                Some(slot) => Some(&slot),
                None => None,
            }),
    {
        match name {
            PropertyNames::Position => Some(&self.position),
            PropertyNames::Rotation => Some(&self.rotation),
            PropertyNames::Scale => Some(&self.scale),
            PropertyNames::LocalRotation => Some(&self.local_rotation),
            PropertyNames::LocalPosition => Some(&self.local_position),
            PropertyNames::Dissolve => Some(&self.dissolve),
            PropertyNames::DissolveArrow => Some(&self.dissolve_arrow),
            PropertyNames::Time => Some(&self.time),
            PropertyNames::Cuttable => Some(&self.cuttable),
            PropertyNames::Color => Some(&self.color),
            PropertyNames::Attentuation => Some(&self.attentuation),
            PropertyNames::FogOffset => Some(&self.fog_offset),
            PropertyNames::HeightFogStartY => Some(&self.height_fog_start_y),
            PropertyNames::HeightFogHeight => Some(&self.height_fog_height),
            _ => None,
        }
    }

    /// The slot of the property `name`, where every track has one, to be
    /// changed in place.
    pub fn get_property_by_name_mut(&mut self, name: PropertyNames) -> (r: Option<&mut ValueProperty>)
        ensures
            match r {
                Some(slot) => old(self).builtin(name) == Some(*slot) && *final(self) == old(
                    self,
                ).with_builtin(name, *final(slot)),
                None => old(self).builtin(name) is None && *final(self) == *old(self),
            },
    {
        match name {
            PropertyNames::Position => Some(&mut self.position),
            PropertyNames::Rotation => Some(&mut self.rotation),
            PropertyNames::Scale => Some(&mut self.scale),
            PropertyNames::LocalRotation => Some(&mut self.local_rotation),
            PropertyNames::LocalPosition => Some(&mut self.local_position),
            PropertyNames::Dissolve => Some(&mut self.dissolve),
            PropertyNames::DissolveArrow => Some(&mut self.dissolve_arrow),
            PropertyNames::Time => Some(&mut self.time),
            PropertyNames::Cuttable => Some(&mut self.cuttable),
            PropertyNames::Color => Some(&mut self.color),
            PropertyNames::Attentuation => Some(&mut self.attentuation),
            PropertyNames::FogOffset => Some(&mut self.fog_offset),
            PropertyNames::HeightFogStartY => Some(&mut self.height_fog_start_y),
            PropertyNames::HeightFogHeight => Some(&mut self.height_fog_height),
            _ => None,
        }
    }

    /// The slot that the text `id` names.
    pub fn get(&self, id: &str) -> (r: Option<&ValueProperty>)
        ensures
            r == (match self.named(id@) {
                Some(slot) => Some(&slot),
                None => None,
            }),
    {
        match PropertyNames::from_str(id) {
            Ok(name) => self.get_property_by_name(name),
            _ => value_map_get(&self.properties, id),
        }
    }

    /// The slot that the text `id` names, to be changed in place.
    pub fn get_mut(&mut self, id: &str) -> (r: Option<&mut ValueProperty>)
        ensures
            match r {
                Some(slot) => old(self).named(id@) == Some(*slot) && old(self).put(
                    id@,
                    *final(slot),
                    *final(self),
                ),
                None => old(self).named(id@) is None && *final(self) == *old(self),
            },
    {
        match PropertyNames::from_str(id) {
            Ok(name) => self.get_property_by_name_mut(name),
            _ => value_map_get_mut(&mut self.properties, id),
        }
    }

    /// The slot that `handle` names.
    pub fn get_by_handle(&self, handle: &ValuePropertyHandle) -> (r: Option<&ValueProperty>)
        ensures
            r == (match self.handled(*handle) {
                Some(slot) => Some(&slot),
                None => None,
            }),
    {
        match handle {
            ValuePropertyHandle::ByName(id) => value_map_get(&self.properties, id.as_str()),
            ValuePropertyHandle::ById(name) => self.get_property_by_name(*name),
        }
    }

    /// The slot that `handle` names, to be changed in place.
    pub fn get_by_handle_mut(&mut self, handle: &ValuePropertyHandle) -> (r: Option<&mut ValueProperty>)
        ensures
            match r {
                Some(slot) => old(self).handled(*handle) == Some(*slot) && old(self).replaced(
                    *handle,
                    *final(slot),
                    *final(self),
                ),
                None => old(self).handled(*handle) is None && *final(self) == *old(self),
            },
    {
        match handle {
            ValuePropertyHandle::ByName(id) => value_map_get_mut(&mut self.properties, id.as_str()),
            ValuePropertyHandle::ById(name) => self.get_property_by_name_mut(*name),
        }
    }

    /// Puts `property` in the place that the text `id` names: in the slot
    /// of the property that `id` names where every track has it, else
    /// under `id` in the map by name.
    pub fn insert(&mut self, id: String, property: ValueProperty)
        ensures
            old(self).put(id@, property, *final(self)),
    {
        match PropertyNames::from_str(id.as_str()) {
            Ok(name) => match self.get_property_by_name_mut(name) {
                Some(prop) => {
                    *prop = property;
                },
                None => {
                    let _ = value_map_insert(&mut self.properties, id, property);
                },
            },
            _ => {
                let _ = value_map_insert(&mut self.properties, id, property);
            },
        }
    }
}

impl Default for PropertiesMap {
    fn default() -> (r: PropertiesMap)
        ensures
            r.extension() == Map::<Seq<char>, ValueProperty>::empty(),
            r.position.value is None && r.position.ty == WrapBaseValueType::Vec3,
            r.rotation.value is None && r.rotation.ty == WrapBaseValueType::Quat,
            r.scale.value is None && r.scale.ty == WrapBaseValueType::Vec3,
            r.local_rotation.value is None && r.local_rotation.ty == WrapBaseValueType::Quat,
            r.local_position.value is None && r.local_position.ty == WrapBaseValueType::Vec3,
            r.dissolve.value is None && r.dissolve.ty == WrapBaseValueType::Float,
            r.dissolve_arrow.value is None && r.dissolve_arrow.ty == WrapBaseValueType::Float,
            r.time.value is None && r.time.ty == WrapBaseValueType::Float,
            r.cuttable.value is None && r.cuttable.ty == WrapBaseValueType::Float,
            r.color.value is None && r.color.ty == WrapBaseValueType::Vec4,
            r.attentuation.value is None && r.attentuation.ty == WrapBaseValueType::Float,
            r.fog_offset.value is None && r.fog_offset.ty == WrapBaseValueType::Float,
            r.height_fog_start_y.value is None && r.height_fog_start_y.ty == WrapBaseValueType::Float,
            r.height_fog_height.value is None && r.height_fog_height.ty == WrapBaseValueType::Float,
    {
        Self {
            properties: value_map_new(),
            position: ValueProperty::empty(WrapBaseValueType::Vec3),
            rotation: ValueProperty::empty(WrapBaseValueType::Quat),
            scale: ValueProperty::empty(WrapBaseValueType::Vec3),
            local_rotation: ValueProperty::empty(WrapBaseValueType::Quat),
            local_position: ValueProperty::empty(WrapBaseValueType::Vec3),
            dissolve: ValueProperty::empty(WrapBaseValueType::Float),
            dissolve_arrow: ValueProperty::empty(WrapBaseValueType::Float),
            time: ValueProperty::empty(WrapBaseValueType::Float),
            cuttable: ValueProperty::empty(WrapBaseValueType::Float),
            color: ValueProperty::empty(WrapBaseValueType::Vec4),
            attentuation: ValueProperty::empty(WrapBaseValueType::Float),
            fog_offset: ValueProperty::empty(WrapBaseValueType::Float),
            height_fog_start_y: ValueProperty::empty(WrapBaseValueType::Float),
            height_fog_height: ValueProperty::empty(WrapBaseValueType::Float),
        }
    }
}

/// What a map of path properties by name holds: the slot under each name.
pub uninterp spec fn path_entries(m: AHashMap<String, PathProperty>) -> Map<Seq<char>, PathProperty>;

/// `AHashMap::new`: a map that holds nothing.
#[verifier::external_body]
fn path_map_new() -> (r: AHashMap<String, PathProperty>)
    ensures
        path_entries(r) == (Map::<Seq<char>, PathProperty>::empty()),
{
    AHashMap::new()
}

/// `AHashMap::get`: the slot under the name `id`, where the map holds one.
#[verifier::external_body]
fn path_map_get<'a>(m: &'a AHashMap<String, PathProperty>, id: &str) -> (r: Option<&'a PathProperty>)
    ensures
        r == (if path_entries(*m).contains_key(id@) {
            Some(&path_entries(*m)[id@])
        } else {
            None
        }),
{
    m.get(id)
}

/// `AHashMap::get_mut`: the slot under the name `id`, where the map holds
/// one, to be changed in place; every other slot stays as it is, and
/// where the map holds none under `id`, so does the map.
#[verifier::external_body]
fn path_map_get_mut<'a>(m: &'a mut AHashMap<String, PathProperty>, id: &str) -> (r: Option<&'a mut PathProperty>)
    ensures
        match r {
            Some(slot) => {
                &&& path_entries(*old(m)).contains_key(id@)
                &&& *slot == path_entries(*old(m))[id@]
                &&& path_entries(*final(m)) == path_entries(*old(m)).insert(id@, *final(slot))
            },
            None => !path_entries(*old(m)).contains_key(id@) && *final(m) == *old(m),
        },
{
    m.get_mut(id)
}

/// `AHashMap::insert`: puts `slot` under the name `id`, in place of the
/// slot that was there, which is returned.
#[verifier::external_body]
fn path_map_insert(m: &mut AHashMap<String, PathProperty>, id: String, slot: PathProperty) -> (r: Option<PathProperty>)
    ensures
        path_entries(*final(m)) == path_entries(*old(m)).insert(id@, slot),
        r == (if path_entries(*old(m)).contains_key(id@) {
            Some(path_entries(*old(m))[id@])
        } else {
            None
        }),
{
    m.insert(id, slot)
}

/// A PathPropertiesMap holds the path properties of a track: one slot for each
/// of the properties that every track has, and a map by name for all others.
#[derive(Debug)]
pub struct PathPropertiesMap {
    pub path_properties: AHashMap<String, PathProperty>,
    pub position: PathProperty,
    pub rotation: PathProperty,
    pub scale: PathProperty,
    pub local_rotation: PathProperty,
    pub local_position: PathProperty,
    pub definite_position: PathProperty,
    pub dissolve: PathProperty,
    pub dissolve_arrow: PathProperty,
    pub cuttable: PathProperty,
    pub color: PathProperty,
}

impl PathPropertiesMap {
    /// The slots by name, for the properties that not every track has.
    pub open spec fn extension(&self) -> Map<Seq<char>, PathProperty> {
        path_entries(self.path_properties)
    }

    /// The slot of the property `name`, where every track has one.
    pub open spec fn builtin(&self, name: PropertyNames) -> Option<PathProperty> {
        match name {
            PropertyNames::Position => Some(self.position),
            PropertyNames::Rotation => Some(self.rotation),
            PropertyNames::Scale => Some(self.scale),
            PropertyNames::LocalRotation => Some(self.local_rotation),
            PropertyNames::LocalPosition => Some(self.local_position),
            PropertyNames::DefinitePosition => Some(self.definite_position),
            PropertyNames::Dissolve => Some(self.dissolve),
            PropertyNames::DissolveArrow => Some(self.dissolve_arrow),
            PropertyNames::Cuttable => Some(self.cuttable),
            PropertyNames::Color => Some(self.color),
            _ => None,
        }
    }

    /// The map with `slot` in place of the slot of the property `name`.
    pub open spec fn with_builtin(&self, name: PropertyNames, slot: PathProperty) -> PathPropertiesMap {
        match name {
            PropertyNames::Position => PathPropertiesMap { position: slot, ..*self },
            PropertyNames::Rotation => PathPropertiesMap { rotation: slot, ..*self },
            PropertyNames::Scale => PathPropertiesMap { scale: slot, ..*self },
            PropertyNames::LocalRotation => PathPropertiesMap { local_rotation: slot, ..*self },
            PropertyNames::LocalPosition => PathPropertiesMap { local_position: slot, ..*self },
            PropertyNames::DefinitePosition => PathPropertiesMap { definite_position: slot, ..*self },
            PropertyNames::Dissolve => PathPropertiesMap { dissolve: slot, ..*self },
            PropertyNames::DissolveArrow => PathPropertiesMap { dissolve_arrow: slot, ..*self },
            PropertyNames::Cuttable => PathPropertiesMap { cuttable: slot, ..*self },
            PropertyNames::Color => PathPropertiesMap { color: slot, ..*self },
            _ => *self,
        }
    }

    /// Whether `after` is this map with `slot` under the name `id` of the
    /// map by name, and all else as it is.
    pub open spec fn extended(&self, id: Seq<char>, slot: PathProperty, after: PathPropertiesMap) -> bool {
        &&& after.extension() == self.extension().insert(id, slot)
        &&& after == (PathPropertiesMap { path_properties: after.path_properties, ..*self })
    }

    /// The slot that the text `id` names: that of the property that `id`
    /// names where every track has it, else the one under `id` in the map
    /// by name.
    pub open spec fn named(&self, id: Seq<char>) -> Option<PathProperty> {
        match PropertyNames::parse(id) {
            Some(name) => self.builtin(name),
            None => if self.extension().contains_key(id) {
                Some(self.extension()[id])
            } else {
                None
            },
        }
    }

    /// The slot that `handle` names.
    pub open spec fn handled(&self, handle: PathPropertyHandle) -> Option<PathProperty> {
        match handle {
            PathPropertyHandle::ByName(id) => if self.extension().contains_key(id@) {
                Some(self.extension()[id@])
            } else {
                None
            },
            PathPropertyHandle::ById(name) => self.builtin(name),
        }
    }

    /// Whether `after` is this map with `slot` in the place that `handle`
    /// names, and all else as it is.
    pub open spec fn replaced(&self, handle: PathPropertyHandle, slot: PathProperty, after: PathPropertiesMap) -> bool {
        match handle {
            PathPropertyHandle::ByName(id) => self.extended(id@, slot, after),
            PathPropertyHandle::ById(name) => after == self.with_builtin(name, slot),
        }
    }

    /// Whether `after` is this map with `slot` in the place where `insert`
    /// puts what comes under the text `id`, and all else as it is: the
    /// slot of the property that `id` names where the map has one for it,
    /// else the place under `id` in the map by name.
    pub open spec fn put(&self, id: Seq<char>, slot: PathProperty, after: PathPropertiesMap) -> bool {
        match PropertyNames::parse(id) {
            Some(name) => if self.builtin(name) is Some {
                after == self.with_builtin(name, slot)
            } else {
                self.extended(id, slot, after)
            },
            None => self.extended(id, slot, after),
        }
    }

    /// The slot of the property `name`, where every track has one.
    pub fn get_property_by_name(&self, name: PropertyNames) -> (r: Option<&PathProperty>)
        ensures
            r == (match self.builtin(name) {
                Some(slot) => Some(&slot),
                None => None,
            }),
    {
        match name {
            PropertyNames::Position => Some(&self.position),
            PropertyNames::Rotation => Some(&self.rotation),
            PropertyNames::Scale => Some(&self.scale),
            PropertyNames::LocalRotation => Some(&self.local_rotation),
            PropertyNames::LocalPosition => Some(&self.local_position),
            PropertyNames::DefinitePosition => Some(&self.definite_position),
            PropertyNames::Dissolve => Some(&self.dissolve),
            PropertyNames::DissolveArrow => Some(&self.dissolve_arrow),
            PropertyNames::Cuttable => Some(&self.cuttable),
            PropertyNames::Color => Some(&self.color),
            _ => None,
        }
    }

    /// The slot of the property `name`, where every track has one, to be
    /// changed in place.
    pub fn get_property_by_name_mut(&mut self, name: PropertyNames) -> (r: Option<&mut PathProperty>)
        ensures
            match r {
                Some(slot) => old(self).builtin(name) == Some(*slot) && *final(self) == old(
                    self,
                ).with_builtin(name, *final(slot)),
                None => old(self).builtin(name) is None && *final(self) == *old(self),
            },
    {
        match name {
            PropertyNames::Position => Some(&mut self.position),
            PropertyNames::Rotation => Some(&mut self.rotation),
            PropertyNames::Scale => Some(&mut self.scale),
            PropertyNames::LocalRotation => Some(&mut self.local_rotation),
            PropertyNames::LocalPosition => Some(&mut self.local_position),
            PropertyNames::DefinitePosition => Some(&mut self.definite_position),
            PropertyNames::Dissolve => Some(&mut self.dissolve),
            PropertyNames::DissolveArrow => Some(&mut self.dissolve_arrow),
            PropertyNames::Cuttable => Some(&mut self.cuttable),
            PropertyNames::Color => Some(&mut self.color),
            _ => None,
        }
    }

    /// The slot that the text `id` names.
    pub fn get(&self, id: &str) -> (r: Option<&PathProperty>)
        ensures
            r == (match self.named(id@) {
                Some(slot) => Some(&slot),
                None => None,
            }),
    {
        match PropertyNames::from_str(id) {
            Ok(name) => self.get_property_by_name(name),
            _ => path_map_get(&self.path_properties, id),
        }
    }

    /// The slot that the text `id` names, to be changed in place.
    pub fn get_mut(&mut self, id: &str) -> (r: Option<&mut PathProperty>)
        ensures
            match r {
                Some(slot) => old(self).named(id@) == Some(*slot) && old(self).put(
                    id@,
                    *final(slot),
                    *final(self),
                ),
                None => old(self).named(id@) is None && *final(self) == *old(self),
            },
    {
        match PropertyNames::from_str(id) {
            Ok(name) => self.get_property_by_name_mut(name),
            _ => path_map_get_mut(&mut self.path_properties, id),
        }
    }

    /// The slot that `handle` names.
    pub fn get_by_handle(&self, handle: &PathPropertyHandle) -> (r: Option<&PathProperty>)
        ensures
            r == (match self.handled(*handle) {
                Some(slot) => Some(&slot),
                None => None,
            }),
    {
        match handle {
            PathPropertyHandle::ByName(id) => path_map_get(&self.path_properties, id.as_str()),
            PathPropertyHandle::ById(name) => self.get_property_by_name(*name),
        }
    }

    /// The slot that `handle` names, to be changed in place.
    pub fn get_by_handle_mut(&mut self, handle: &PathPropertyHandle) -> (r: Option<&mut PathProperty>)
        ensures
            match r {
                Some(slot) => old(self).handled(*handle) == Some(*slot) && old(self).replaced(
                    *handle,
                    *final(slot),
                    *final(self),
                ),
                None => old(self).handled(*handle) is None && *final(self) == *old(self),
            },
    {
        match handle {
            PathPropertyHandle::ByName(id) => path_map_get_mut(&mut self.path_properties, id.as_str()),
            PathPropertyHandle::ById(name) => self.get_property_by_name_mut(*name),
        }
    }

    /// Puts `property` in the place that the text `id` names: in the slot
    /// of the property that `id` names where every track has it, else
    /// under `id` in the map by name.
    pub fn insert(&mut self, id: String, property: PathProperty)
        ensures
            old(self).put(id@, property, *final(self)),
    {
        match PropertyNames::from_str(id.as_str()) {
            Ok(name) => match self.get_property_by_name_mut(name) {
                Some(prop) => {
                    *prop = property;
                },
                None => {
                    let _ = path_map_insert(&mut self.path_properties, id, property);
                },
            },
            _ => {
                let _ = path_map_insert(&mut self.path_properties, id, property);
            },
        }
    }
}

impl Default for PathPropertiesMap {
    fn default() -> (r: PathPropertiesMap)
        ensures
            r.extension() == Map::<Seq<char>, PathProperty>::empty(),
            r.position.point is None && r.position.prev_point is None && r.position.ty == WrapBaseValueType::Vec3,
            r.rotation.point is None && r.rotation.prev_point is None && r.rotation.ty == WrapBaseValueType::Quat,
            r.scale.point is None && r.scale.prev_point is None && r.scale.ty == WrapBaseValueType::Vec3,
            r.local_rotation.point is None && r.local_rotation.prev_point is None && r.local_rotation.ty == WrapBaseValueType::Quat,
            r.local_position.point is None && r.local_position.prev_point is None && r.local_position.ty == WrapBaseValueType::Vec3,
            r.definite_position.point is None && r.definite_position.prev_point is None && r.definite_position.ty == WrapBaseValueType::Vec3,
            r.dissolve.point is None && r.dissolve.prev_point is None && r.dissolve.ty == WrapBaseValueType::Float,
            r.dissolve_arrow.point is None && r.dissolve_arrow.prev_point is None && r.dissolve_arrow.ty == WrapBaseValueType::Float,
            r.cuttable.point is None && r.cuttable.prev_point is None && r.cuttable.ty == WrapBaseValueType::Float,
            r.color.point is None && r.color.prev_point is None && r.color.ty == WrapBaseValueType::Vec4,
    {
        Self {
            path_properties: path_map_new(),
            position: PathProperty::empty(WrapBaseValueType::Vec3),
            rotation: PathProperty::empty(WrapBaseValueType::Quat),
            scale: PathProperty::empty(WrapBaseValueType::Vec3),
            local_rotation: PathProperty::empty(WrapBaseValueType::Quat),
            local_position: PathProperty::empty(WrapBaseValueType::Vec3),
            definite_position: PathProperty::empty(WrapBaseValueType::Vec3),
            dissolve: PathProperty::empty(WrapBaseValueType::Float),
            dissolve_arrow: PathProperty::empty(WrapBaseValueType::Float),
            cuttable: PathProperty::empty(WrapBaseValueType::Float),
            color: PathProperty::empty(WrapBaseValueType::Vec4),
        }
    }
}

/// A Track is a named collection of value properties and path properties,
/// with the game objects that it drives and the callbacks to tell when a
/// game object comes or goes. A callback is known to the track by the
/// number under which the host keeps it; the host makes the call.
#[derive(Debug)]
pub struct Track {
    pub properties: PropertiesMap,
    pub path_properties: PathPropertiesMap,
    pub name: String,
    /// The game objects, each once, in the order in which they came.
    pub game_objects: Vec<GameObject>,
    pub game_object_callbacks: Vec<u64>,
}

impl Track {
    /// Puts `property` in the place that the text `id` names.
    pub fn register_property(&mut self, id: String, property: ValueProperty)
        ensures
            old(self).properties.put(id@, property, final(self).properties),
            *final(self) == (Track { properties: final(self).properties, ..*old(self) }),
    {
        self.properties.insert(id, property);
    }

    /// Puts `property` in the place that the text `id` names.
    pub fn register_path_property(&mut self, id: String, property: PathProperty)
        ensures
            old(self).path_properties.put(id@, property, final(self).path_properties),
            *final(self) == (Track { path_properties: final(self).path_properties, ..*old(self) }),
    {
        self.path_properties.insert(id, property);
    }

    /// Whether the track drives `game_object`.
    pub fn has_game_object(&self, game_object: &GameObject) -> (r: bool)
        ensures
            r == self.game_objects@.contains(*game_object),
    {
        let mut i: usize = 0;
        while i < self.game_objects.len()
            invariant
                i <= self.game_objects@.len(),
                forall|j: int| 0 <= j < i ==> self.game_objects@[j] != *game_object,
            decreases self.game_objects@.len() - i,
        {
            if self.game_objects[i] == *game_object {
                return true;
            }
            i = i + 1;
        }
        false
    }

    /// Adds `game_object` to the end of the game objects, unless the track
    /// drives it already. Returns the callbacks that are to be told that
    /// the object came: all of them where it was added, none where it was
    /// there.
    pub fn register_game_object(&mut self, game_object: GameObject) -> (notify: Vec<u64>)
        ensures
            final(self).game_objects@ == (if old(self).game_objects@.contains(game_object) {
                old(self).game_objects@
            } else {
                old(self).game_objects@.push(game_object)
            }),
            notify@ == (if old(self).game_objects@.contains(game_object) {
                Seq::<u64>::empty()
            } else {
                old(self).game_object_callbacks@
            }),
            *final(self) == (Track { game_objects: final(self).game_objects, ..*old(self) }),
            old(self).game_objects@.no_duplicates() ==> final(self).game_objects@.no_duplicates(),
    {
        if self.has_game_object(&game_object) {
            return Vec::new();
        }
        self.game_objects.push(game_object);
        self.game_object_callbacks.clone()
    }

    /// Adds `callback` to the end of the callbacks.
    pub fn register_game_object_callback(&mut self, callback: u64)
        ensures
            final(self).game_object_callbacks@ == old(self).game_object_callbacks@.push(callback),
            *final(self) == (Track {
                game_object_callbacks: final(self).game_object_callbacks,
                ..*old(self)
            }),
    {
        self.game_object_callbacks.push(callback);
    }

    /// Takes `game_object` out of the game objects and keeps the others in
    /// their order. Returns the callbacks that are to be told that the
    /// object went: all of them, whether the track drove it or not.
    pub fn remove_game_object(&mut self, game_object: &GameObject) -> (notify: Vec<u64>)
        ensures
            final(self).game_objects@ == old(self).game_objects@.filter(
                |g: GameObject| g != *game_object,
            ),
            notify@ == old(self).game_object_callbacks@,
            *final(self) == (Track { game_objects: final(self).game_objects, ..*old(self) }),
    {
        let ghost keep = |g: GameObject| g != *game_object;
        let mut kept: Vec<GameObject> = Vec::new();
        let mut i: usize = 0;
        while i < self.game_objects.len()
            invariant
                i <= self.game_objects@.len(),
                *self == *old(self),
                keep == (|g: GameObject| g != *game_object),
                kept@ == self.game_objects@.take(i as int).filter(keep),
            decreases self.game_objects@.len() - i,
        {
            let go = self.game_objects[i];
            proof {
                self.game_objects@.take(i as int).lemma_filter_push(go, keep);
                assert(self.game_objects@.take(i + 1) == self.game_objects@.take(i as int).push(
                    go,
                ));
            }
            if go != *game_object {
                kept.push(go);
            }
            i = i + 1;
        }
        assert(self.game_objects@.take(i as int) == self.game_objects@);
        self.game_objects = kept;
        self.game_object_callbacks.clone()
    }

    /// Takes `callback` out of the callbacks and keeps the others in their
    /// order.
    pub fn remove_game_object_callback(&mut self, callback: u64)
        ensures
            final(self).game_object_callbacks@ == old(self).game_object_callbacks@.filter(
                |c: u64| c != callback,
            ),
            *final(self) == (Track {
                game_object_callbacks: final(self).game_object_callbacks,
                ..*old(self)
            }),
    {
        let ghost keep = |c: u64| c != callback;
        let mut kept: Vec<u64> = Vec::new();
        let mut i: usize = 0;
        while i < self.game_object_callbacks.len()
            invariant
                i <= self.game_object_callbacks@.len(),
                *self == *old(self),
                keep == (|c: u64| c != callback),
                kept@ == self.game_object_callbacks@.take(i as int).filter(keep),
            decreases self.game_object_callbacks@.len() - i,
        {
            let cb = self.game_object_callbacks[i];
            proof {
                self.game_object_callbacks@.take(i as int).lemma_filter_push(cb, keep);
                assert(self.game_object_callbacks@.take(i + 1)
                    == self.game_object_callbacks@.take(i as int).push(cb));
            }
            if cb != callback {
                kept.push(cb);
            }
            i = i + 1;
        }
        assert(self.game_object_callbacks@.take(i as int) == self.game_object_callbacks@);
        self.game_object_callbacks = kept;
    }

    /// Empties every property slot, and forgets the game objects and the
    /// callbacks. The name stays.
    pub fn reset(&mut self)
        ensures
            final(self).name == old(self).name,
            final(self).game_objects@.len() == 0,
            final(self).game_object_callbacks@.len() == 0,
            final(self).properties.extension() == Map::<Seq<char>, ValueProperty>::empty(),
            final(self).path_properties.extension() == Map::<Seq<char>, PathProperty>::empty(),
            forall|name: PropertyNames|
                (#[trigger] final(self).properties.builtin(name)) matches Some(slot)
                    ==> slot.value is None && slot.ty == name.kind(),
            forall|name: PropertyNames|
                (#[trigger] final(self).path_properties.builtin(name)) matches Some(slot)
                    ==> slot.point is None && slot.prev_point is None && slot.ty == name.kind(),
    {
        self.properties = PropertiesMap::default();
        self.path_properties = PathPropertiesMap::default();
        self.game_objects.clear();
        self.game_object_callbacks.clear();
    }

    /// The value property that the text `id` names.
    pub fn get_property(&self, id: &str) -> (r: Option<&ValueProperty>)
        ensures
            r == (match self.properties.named(id@) {
                Some(slot) => Some(&slot),
                None => None,
            }),
    {
        self.properties.get(id)
    }

    /// The path property that the text `id` names.
    pub fn get_path_property(&self, id: &str) -> (r: Option<&PathProperty>)
        ensures
            r == (match self.path_properties.named(id@) {
                Some(slot) => Some(&slot),
                None => None,
            }),
    {
        self.path_properties.get(id)
    }
}

impl Default for Track {
    fn default() -> (r: Track)
        ensures
            r.name@.len() == 0,
            r.game_objects@.len() == 0,
            r.game_object_callbacks@.len() == 0,
            r.properties.extension() == Map::<Seq<char>, ValueProperty>::empty(),
            r.path_properties.extension() == Map::<Seq<char>, PathProperty>::empty(),
            forall|name: PropertyNames|
                (#[trigger] r.properties.builtin(name)) matches Some(slot) ==> slot.value is None
                    && slot.ty == name.kind(),
            forall|name: PropertyNames|
                (#[trigger] r.path_properties.builtin(name)) matches Some(slot)
                    ==> slot.point is None && slot.prev_point is None && slot.ty == name.kind(),
    {
        Self {
            properties: PropertiesMap::default(),
            path_properties: PathPropertiesMap::default(),
            game_objects: Vec::new(),
            name: String::new(),
            game_object_callbacks: Vec::new(),
        }
    }
}

/// The names of the properties, old and new, are pairwise different, so
/// each is read as its own property: the older name of a property
/// resolves to the property that its name resolves to.
pub proof fn lemma_alias_resolves(name: PropertyNames)
    requires
        name != PropertyNames::UnknownPropertyName,
    ensures
        PropertyNames::parse(name.canonical()) == Some(name),
        PropertyNames::parse(name.alias()) == Some(name),
{
    reveal_strlit("position");
    reveal_strlit("rotation");
    reveal_strlit("scale");
    reveal_strlit("local_rotation");
    reveal_strlit("local_position");
    reveal_strlit("definite_position");
    reveal_strlit("dissolve");
    reveal_strlit("dissolve_arrow");
    reveal_strlit("time");
    reveal_strlit("cuttable");
    reveal_strlit("color");
    reveal_strlit("attentuation");
    reveal_strlit("fog_offset");
    reveal_strlit("height_fog_start_y");
    reveal_strlit("height_fog_height");
    reveal_strlit("_position");
    reveal_strlit("_rotation");
    reveal_strlit("_scale");
    reveal_strlit("_localRotation");
    reveal_strlit("_localPosition");
    reveal_strlit("_definitePosition");
    reveal_strlit("_dissolve");
    reveal_strlit("_dissolveArrow");
    reveal_strlit("_time");
    reveal_strlit("_cuttable");
    reveal_strlit("_color");
    reveal_strlit("_attenuation");
    reveal_strlit("_fogOffset");
    reveal_strlit("_heightFogStartY");
    reveal_strlit("_heightFogHeight");
    lemma_names_differ();
}

/// A text is told from another by its length or by one of its first
/// characters.
proof fn lemma_names_differ()
    ensures
        "position"@ != "rotation"@,
        "position"@ != "scale"@,
        "rotation"@ != "scale"@,
        "position"@ != "local_rotation"@,
        "rotation"@ != "local_rotation"@,
        "scale"@ != "local_rotation"@,
        "position"@ != "local_position"@,
        "rotation"@ != "local_position"@,
        "scale"@ != "local_position"@,
        "local_rotation"@ != "local_position"@,
        "position"@ != "definite_position"@,
        "rotation"@ != "definite_position"@,
        "scale"@ != "definite_position"@,
        "local_rotation"@ != "definite_position"@,
        "local_position"@ != "definite_position"@,
        "position"@ != "dissolve"@,
        "rotation"@ != "dissolve"@,
        "scale"@ != "dissolve"@,
        "local_rotation"@ != "dissolve"@,
        "local_position"@ != "dissolve"@,
        "definite_position"@ != "dissolve"@,
        "position"@ != "dissolve_arrow"@,
        "rotation"@ != "dissolve_arrow"@,
        "scale"@ != "dissolve_arrow"@,
        "local_rotation"@ != "dissolve_arrow"@,
        "local_position"@ != "dissolve_arrow"@,
        "definite_position"@ != "dissolve_arrow"@,
        "dissolve"@ != "dissolve_arrow"@,
        "position"@ != "time"@,
        "rotation"@ != "time"@,
        "scale"@ != "time"@,
        "local_rotation"@ != "time"@,
        "local_position"@ != "time"@,
        "definite_position"@ != "time"@,
        "dissolve"@ != "time"@,
        "dissolve_arrow"@ != "time"@,
        "position"@ != "cuttable"@,
        "rotation"@ != "cuttable"@,
        "scale"@ != "cuttable"@,
        "local_rotation"@ != "cuttable"@,
        "local_position"@ != "cuttable"@,
        "definite_position"@ != "cuttable"@,
        "dissolve"@ != "cuttable"@,
        "dissolve_arrow"@ != "cuttable"@,
        "time"@ != "cuttable"@,
        "position"@ != "color"@,
        "rotation"@ != "color"@,
        "scale"@ != "color"@,
        "local_rotation"@ != "color"@,
        "local_position"@ != "color"@,
        "definite_position"@ != "color"@,
        "dissolve"@ != "color"@,
        "dissolve_arrow"@ != "color"@,
        "time"@ != "color"@,
        "cuttable"@ != "color"@,
        "position"@ != "attentuation"@,
        "rotation"@ != "attentuation"@,
        "scale"@ != "attentuation"@,
        "local_rotation"@ != "attentuation"@,
        "local_position"@ != "attentuation"@,
        "definite_position"@ != "attentuation"@,
        "dissolve"@ != "attentuation"@,
        "dissolve_arrow"@ != "attentuation"@,
        "time"@ != "attentuation"@,
        "cuttable"@ != "attentuation"@,
        "color"@ != "attentuation"@,
        "position"@ != "fog_offset"@,
        "rotation"@ != "fog_offset"@,
        "scale"@ != "fog_offset"@,
        "local_rotation"@ != "fog_offset"@,
        "local_position"@ != "fog_offset"@,
        "definite_position"@ != "fog_offset"@,
        "dissolve"@ != "fog_offset"@,
        "dissolve_arrow"@ != "fog_offset"@,
        "time"@ != "fog_offset"@,
        "cuttable"@ != "fog_offset"@,
        "color"@ != "fog_offset"@,
        "attentuation"@ != "fog_offset"@,
        "position"@ != "height_fog_start_y"@,
        "rotation"@ != "height_fog_start_y"@,
        "scale"@ != "height_fog_start_y"@,
        "local_rotation"@ != "height_fog_start_y"@,
        "local_position"@ != "height_fog_start_y"@,
        "definite_position"@ != "height_fog_start_y"@,
        "dissolve"@ != "height_fog_start_y"@,
        "dissolve_arrow"@ != "height_fog_start_y"@,
        "time"@ != "height_fog_start_y"@,
        "cuttable"@ != "height_fog_start_y"@,
        "color"@ != "height_fog_start_y"@,
        "attentuation"@ != "height_fog_start_y"@,
        "fog_offset"@ != "height_fog_start_y"@,
        "position"@ != "height_fog_height"@,
        "rotation"@ != "height_fog_height"@,
        "scale"@ != "height_fog_height"@,
        "local_rotation"@ != "height_fog_height"@,
        "local_position"@ != "height_fog_height"@,
        "definite_position"@ != "height_fog_height"@,
        "dissolve"@ != "height_fog_height"@,
        "dissolve_arrow"@ != "height_fog_height"@,
        "time"@ != "height_fog_height"@,
        "cuttable"@ != "height_fog_height"@,
        "color"@ != "height_fog_height"@,
        "attentuation"@ != "height_fog_height"@,
        "fog_offset"@ != "height_fog_height"@,
        "height_fog_start_y"@ != "height_fog_height"@,
        "position"@ != "_position"@,
        "rotation"@ != "_position"@,
        "scale"@ != "_position"@,
        "local_rotation"@ != "_position"@,
        "local_position"@ != "_position"@,
        "definite_position"@ != "_position"@,
        "dissolve"@ != "_position"@,
        "dissolve_arrow"@ != "_position"@,
        "time"@ != "_position"@,
        "cuttable"@ != "_position"@,
        "color"@ != "_position"@,
        "attentuation"@ != "_position"@,
        "fog_offset"@ != "_position"@,
        "height_fog_start_y"@ != "_position"@,
        "height_fog_height"@ != "_position"@,
        "position"@ != "_localPosition"@,
        "rotation"@ != "_localPosition"@,
        "scale"@ != "_localPosition"@,
        "local_rotation"@ != "_localPosition"@,
        "local_position"@ != "_localPosition"@,
        "definite_position"@ != "_localPosition"@,
        "dissolve"@ != "_localPosition"@,
        "dissolve_arrow"@ != "_localPosition"@,
        "time"@ != "_localPosition"@,
        "cuttable"@ != "_localPosition"@,
        "color"@ != "_localPosition"@,
        "attentuation"@ != "_localPosition"@,
        "fog_offset"@ != "_localPosition"@,
        "height_fog_start_y"@ != "_localPosition"@,
        "height_fog_height"@ != "_localPosition"@,
        "_position"@ != "_localPosition"@,
        "position"@ != "_rotation"@,
        "rotation"@ != "_rotation"@,
        "scale"@ != "_rotation"@,
        "local_rotation"@ != "_rotation"@,
        "local_position"@ != "_rotation"@,
        "definite_position"@ != "_rotation"@,
        "dissolve"@ != "_rotation"@,
        "dissolve_arrow"@ != "_rotation"@,
        "time"@ != "_rotation"@,
        "cuttable"@ != "_rotation"@,
        "color"@ != "_rotation"@,
        "attentuation"@ != "_rotation"@,
        "fog_offset"@ != "_rotation"@,
        "height_fog_start_y"@ != "_rotation"@,
        "height_fog_height"@ != "_rotation"@,
        "_position"@ != "_rotation"@,
        "_localPosition"@ != "_rotation"@,
        "position"@ != "_localRotation"@,
        "rotation"@ != "_localRotation"@,
        "scale"@ != "_localRotation"@,
        "local_rotation"@ != "_localRotation"@,
        "local_position"@ != "_localRotation"@,
        "definite_position"@ != "_localRotation"@,
        "dissolve"@ != "_localRotation"@,
        "dissolve_arrow"@ != "_localRotation"@,
        "time"@ != "_localRotation"@,
        "cuttable"@ != "_localRotation"@,
        "color"@ != "_localRotation"@,
        "attentuation"@ != "_localRotation"@,
        "fog_offset"@ != "_localRotation"@,
        "height_fog_start_y"@ != "_localRotation"@,
        "height_fog_height"@ != "_localRotation"@,
        "_position"@ != "_localRotation"@,
        "_localPosition"@ != "_localRotation"@,
        "_rotation"@ != "_localRotation"@,
        "position"@ != "_scale"@,
        "rotation"@ != "_scale"@,
        "scale"@ != "_scale"@,
        "local_rotation"@ != "_scale"@,
        "local_position"@ != "_scale"@,
        "definite_position"@ != "_scale"@,
        "dissolve"@ != "_scale"@,
        "dissolve_arrow"@ != "_scale"@,
        "time"@ != "_scale"@,
        "cuttable"@ != "_scale"@,
        "color"@ != "_scale"@,
        "attentuation"@ != "_scale"@,
        "fog_offset"@ != "_scale"@,
        "height_fog_start_y"@ != "_scale"@,
        "height_fog_height"@ != "_scale"@,
        "_position"@ != "_scale"@,
        "_localPosition"@ != "_scale"@,
        "_rotation"@ != "_scale"@,
        "_localRotation"@ != "_scale"@,
        "position"@ != "_definitePosition"@,
        "rotation"@ != "_definitePosition"@,
        "scale"@ != "_definitePosition"@,
        "local_rotation"@ != "_definitePosition"@,
        "local_position"@ != "_definitePosition"@,
        "definite_position"@ != "_definitePosition"@,
        "dissolve"@ != "_definitePosition"@,
        "dissolve_arrow"@ != "_definitePosition"@,
        "time"@ != "_definitePosition"@,
        "cuttable"@ != "_definitePosition"@,
        "color"@ != "_definitePosition"@,
        "attentuation"@ != "_definitePosition"@,
        "fog_offset"@ != "_definitePosition"@,
        "height_fog_start_y"@ != "_definitePosition"@,
        "height_fog_height"@ != "_definitePosition"@,
        "_position"@ != "_definitePosition"@,
        "_localPosition"@ != "_definitePosition"@,
        "_rotation"@ != "_definitePosition"@,
        "_localRotation"@ != "_definitePosition"@,
        "_scale"@ != "_definitePosition"@,
        "position"@ != "_dissolve"@,
        "rotation"@ != "_dissolve"@,
        "scale"@ != "_dissolve"@,
        "local_rotation"@ != "_dissolve"@,
        "local_position"@ != "_dissolve"@,
        "definite_position"@ != "_dissolve"@,
        "dissolve"@ != "_dissolve"@,
        "dissolve_arrow"@ != "_dissolve"@,
        "time"@ != "_dissolve"@,
        "cuttable"@ != "_dissolve"@,
        "color"@ != "_dissolve"@,
        "attentuation"@ != "_dissolve"@,
        "fog_offset"@ != "_dissolve"@,
        "height_fog_start_y"@ != "_dissolve"@,
        "height_fog_height"@ != "_dissolve"@,
        "_position"@ != "_dissolve"@,
        "_localPosition"@ != "_dissolve"@,
        "_rotation"@ != "_dissolve"@,
        "_localRotation"@ != "_dissolve"@,
        "_scale"@ != "_dissolve"@,
        "_definitePosition"@ != "_dissolve"@,
        "position"@ != "_dissolveArrow"@,
        "rotation"@ != "_dissolveArrow"@,
        "scale"@ != "_dissolveArrow"@,
        "local_rotation"@ != "_dissolveArrow"@,
        "local_position"@ != "_dissolveArrow"@,
        "definite_position"@ != "_dissolveArrow"@,
        "dissolve"@ != "_dissolveArrow"@,
        "dissolve_arrow"@ != "_dissolveArrow"@,
        "time"@ != "_dissolveArrow"@,
        "cuttable"@ != "_dissolveArrow"@,
        "color"@ != "_dissolveArrow"@,
        "attentuation"@ != "_dissolveArrow"@,
        "fog_offset"@ != "_dissolveArrow"@,
        "height_fog_start_y"@ != "_dissolveArrow"@,
        "height_fog_height"@ != "_dissolveArrow"@,
        "_position"@ != "_dissolveArrow"@,
        "_localPosition"@ != "_dissolveArrow"@,
        "_rotation"@ != "_dissolveArrow"@,
        "_localRotation"@ != "_dissolveArrow"@,
        "_scale"@ != "_dissolveArrow"@,
        "_definitePosition"@ != "_dissolveArrow"@,
        "_dissolve"@ != "_dissolveArrow"@,
        "position"@ != "_time"@,
        "rotation"@ != "_time"@,
        "scale"@ != "_time"@,
        "local_rotation"@ != "_time"@,
        "local_position"@ != "_time"@,
        "definite_position"@ != "_time"@,
        "dissolve"@ != "_time"@,
        "dissolve_arrow"@ != "_time"@,
        "time"@ != "_time"@,
        "cuttable"@ != "_time"@,
        "color"@ != "_time"@,
        "attentuation"@ != "_time"@,
        "fog_offset"@ != "_time"@,
        "height_fog_start_y"@ != "_time"@,
        "height_fog_height"@ != "_time"@,
        "_position"@ != "_time"@,
        "_localPosition"@ != "_time"@,
        "_rotation"@ != "_time"@,
        "_localRotation"@ != "_time"@,
        "_scale"@ != "_time"@,
        "_definitePosition"@ != "_time"@,
        "_dissolve"@ != "_time"@,
        "_dissolveArrow"@ != "_time"@,
        "position"@ != "_cuttable"@,
        "rotation"@ != "_cuttable"@,
        "scale"@ != "_cuttable"@,
        "local_rotation"@ != "_cuttable"@,
        "local_position"@ != "_cuttable"@,
        "definite_position"@ != "_cuttable"@,
        "dissolve"@ != "_cuttable"@,
        "dissolve_arrow"@ != "_cuttable"@,
        "time"@ != "_cuttable"@,
        "cuttable"@ != "_cuttable"@,
        "color"@ != "_cuttable"@,
        "attentuation"@ != "_cuttable"@,
        "fog_offset"@ != "_cuttable"@,
        "height_fog_start_y"@ != "_cuttable"@,
        "height_fog_height"@ != "_cuttable"@,
        "_position"@ != "_cuttable"@,
        "_localPosition"@ != "_cuttable"@,
        "_rotation"@ != "_cuttable"@,
        "_localRotation"@ != "_cuttable"@,
        "_scale"@ != "_cuttable"@,
        "_definitePosition"@ != "_cuttable"@,
        "_dissolve"@ != "_cuttable"@,
        "_dissolveArrow"@ != "_cuttable"@,
        "_time"@ != "_cuttable"@,
        "position"@ != "_color"@,
        "rotation"@ != "_color"@,
        "scale"@ != "_color"@,
        "local_rotation"@ != "_color"@,
        "local_position"@ != "_color"@,
        "definite_position"@ != "_color"@,
        "dissolve"@ != "_color"@,
        "dissolve_arrow"@ != "_color"@,
        "time"@ != "_color"@,
        "cuttable"@ != "_color"@,
        "color"@ != "_color"@,
        "attentuation"@ != "_color"@,
        "fog_offset"@ != "_color"@,
        "height_fog_start_y"@ != "_color"@,
        "height_fog_height"@ != "_color"@,
        "_position"@ != "_color"@,
        "_localPosition"@ != "_color"@,
        "_rotation"@ != "_color"@,
        "_localRotation"@ != "_color"@,
        "_scale"@ != "_color"@,
        "_definitePosition"@ != "_color"@,
        "_dissolve"@ != "_color"@,
        "_dissolveArrow"@ != "_color"@,
        "_time"@ != "_color"@,
        "_cuttable"@ != "_color"@,
        "position"@ != "_attenuation"@,
        "rotation"@ != "_attenuation"@,
        "scale"@ != "_attenuation"@,
        "local_rotation"@ != "_attenuation"@,
        "local_position"@ != "_attenuation"@,
        "definite_position"@ != "_attenuation"@,
        "dissolve"@ != "_attenuation"@,
        "dissolve_arrow"@ != "_attenuation"@,
        "time"@ != "_attenuation"@,
        "cuttable"@ != "_attenuation"@,
        "color"@ != "_attenuation"@,
        "attentuation"@ != "_attenuation"@,
        "fog_offset"@ != "_attenuation"@,
        "height_fog_start_y"@ != "_attenuation"@,
        "height_fog_height"@ != "_attenuation"@,
        "_position"@ != "_attenuation"@,
        "_localPosition"@ != "_attenuation"@,
        "_rotation"@ != "_attenuation"@,
        "_localRotation"@ != "_attenuation"@,
        "_scale"@ != "_attenuation"@,
        "_definitePosition"@ != "_attenuation"@,
        "_dissolve"@ != "_attenuation"@,
        "_dissolveArrow"@ != "_attenuation"@,
        "_time"@ != "_attenuation"@,
        "_cuttable"@ != "_attenuation"@,
        "_color"@ != "_attenuation"@,
        "position"@ != "_fogOffset"@,
        "rotation"@ != "_fogOffset"@,
        "scale"@ != "_fogOffset"@,
        "local_rotation"@ != "_fogOffset"@,
        "local_position"@ != "_fogOffset"@,
        "definite_position"@ != "_fogOffset"@,
        "dissolve"@ != "_fogOffset"@,
        "dissolve_arrow"@ != "_fogOffset"@,
        "time"@ != "_fogOffset"@,
        "cuttable"@ != "_fogOffset"@,
        "color"@ != "_fogOffset"@,
        "attentuation"@ != "_fogOffset"@,
        "fog_offset"@ != "_fogOffset"@,
        "height_fog_start_y"@ != "_fogOffset"@,
        "height_fog_height"@ != "_fogOffset"@,
        "_position"@ != "_fogOffset"@,
        "_localPosition"@ != "_fogOffset"@,
        "_rotation"@ != "_fogOffset"@,
        "_localRotation"@ != "_fogOffset"@,
        "_scale"@ != "_fogOffset"@,
        "_definitePosition"@ != "_fogOffset"@,
        "_dissolve"@ != "_fogOffset"@,
        "_dissolveArrow"@ != "_fogOffset"@,
        "_time"@ != "_fogOffset"@,
        "_cuttable"@ != "_fogOffset"@,
        "_color"@ != "_fogOffset"@,
        "_attenuation"@ != "_fogOffset"@,
        "position"@ != "_heightFogStartY"@,
        "rotation"@ != "_heightFogStartY"@,
        "scale"@ != "_heightFogStartY"@,
        "local_rotation"@ != "_heightFogStartY"@,
        "local_position"@ != "_heightFogStartY"@,
        "definite_position"@ != "_heightFogStartY"@,
        "dissolve"@ != "_heightFogStartY"@,
        "dissolve_arrow"@ != "_heightFogStartY"@,
        "time"@ != "_heightFogStartY"@,
        "cuttable"@ != "_heightFogStartY"@,
        "color"@ != "_heightFogStartY"@,
        "attentuation"@ != "_heightFogStartY"@,
        "fog_offset"@ != "_heightFogStartY"@,
        "height_fog_start_y"@ != "_heightFogStartY"@,
        "height_fog_height"@ != "_heightFogStartY"@,
        "_position"@ != "_heightFogStartY"@,
        "_localPosition"@ != "_heightFogStartY"@,
        "_rotation"@ != "_heightFogStartY"@,
        "_localRotation"@ != "_heightFogStartY"@,
        "_scale"@ != "_heightFogStartY"@,
        "_definitePosition"@ != "_heightFogStartY"@,
        "_dissolve"@ != "_heightFogStartY"@,
        "_dissolveArrow"@ != "_heightFogStartY"@,
        "_time"@ != "_heightFogStartY"@,
        "_cuttable"@ != "_heightFogStartY"@,
        "_color"@ != "_heightFogStartY"@,
        "_attenuation"@ != "_heightFogStartY"@,
        "_fogOffset"@ != "_heightFogStartY"@,
        "position"@ != "_heightFogHeight"@,
        "rotation"@ != "_heightFogHeight"@,
        "scale"@ != "_heightFogHeight"@,
        "local_rotation"@ != "_heightFogHeight"@,
        "local_position"@ != "_heightFogHeight"@,
        "definite_position"@ != "_heightFogHeight"@,
        "dissolve"@ != "_heightFogHeight"@,
        "dissolve_arrow"@ != "_heightFogHeight"@,
        "time"@ != "_heightFogHeight"@,
        "cuttable"@ != "_heightFogHeight"@,
        "color"@ != "_heightFogHeight"@,
        "attentuation"@ != "_heightFogHeight"@,
        "fog_offset"@ != "_heightFogHeight"@,
        "height_fog_start_y"@ != "_heightFogHeight"@,
        "height_fog_height"@ != "_heightFogHeight"@,
        "_position"@ != "_heightFogHeight"@,
        "_localPosition"@ != "_heightFogHeight"@,
        "_rotation"@ != "_heightFogHeight"@,
        "_localRotation"@ != "_heightFogHeight"@,
        "_scale"@ != "_heightFogHeight"@,
        "_definitePosition"@ != "_heightFogHeight"@,
        "_dissolve"@ != "_heightFogHeight"@,
        "_dissolveArrow"@ != "_heightFogHeight"@,
        "_time"@ != "_heightFogHeight"@,
        "_cuttable"@ != "_heightFogHeight"@,
        "_color"@ != "_heightFogHeight"@,
        "_attenuation"@ != "_heightFogHeight"@,
        "_fogOffset"@ != "_heightFogHeight"@,
        "_heightFogStartY"@ != "_heightFogHeight"@,
{
    reveal_strlit("position");
    reveal_strlit("rotation");
    reveal_strlit("scale");
    reveal_strlit("local_rotation");
    reveal_strlit("local_position");
    reveal_strlit("definite_position");
    reveal_strlit("dissolve");
    reveal_strlit("dissolve_arrow");
    reveal_strlit("time");
    reveal_strlit("cuttable");
    reveal_strlit("color");
    reveal_strlit("attentuation");
    reveal_strlit("fog_offset");
    reveal_strlit("height_fog_start_y");
    reveal_strlit("height_fog_height");
    reveal_strlit("_position");
    reveal_strlit("_rotation");
    reveal_strlit("_scale");
    reveal_strlit("_localRotation");
    reveal_strlit("_localPosition");
    reveal_strlit("_definitePosition");
    reveal_strlit("_dissolve");
    reveal_strlit("_dissolveArrow");
    reveal_strlit("_time");
    reveal_strlit("_cuttable");
    reveal_strlit("_color");
    reveal_strlit("_attenuation");
    reveal_strlit("_fogOffset");
    reveal_strlit("_heightFogStartY");
    reveal_strlit("_heightFogHeight");
    assert("position"@[0] != "rotation"@[0]);
    assert("position"@.len() != "scale"@.len());
    assert("rotation"@.len() != "scale"@.len());
    assert("position"@.len() != "local_rotation"@.len());
    assert("rotation"@.len() != "local_rotation"@.len());
    assert("scale"@.len() != "local_rotation"@.len());
    assert("position"@.len() != "local_position"@.len());
    assert("rotation"@.len() != "local_position"@.len());
    assert("scale"@.len() != "local_position"@.len());
    assert("local_rotation"@[6] != "local_position"@[6]);
    assert("position"@.len() != "definite_position"@.len());
    assert("rotation"@.len() != "definite_position"@.len());
    assert("scale"@.len() != "definite_position"@.len());
    assert("local_rotation"@.len() != "definite_position"@.len());
    assert("local_position"@.len() != "definite_position"@.len());
    assert("position"@[0] != "dissolve"@[0]);
    assert("rotation"@[0] != "dissolve"@[0]);
    assert("scale"@.len() != "dissolve"@.len());
    assert("local_rotation"@.len() != "dissolve"@.len());
    assert("local_position"@.len() != "dissolve"@.len());
    assert("definite_position"@.len() != "dissolve"@.len());
    assert("position"@.len() != "dissolve_arrow"@.len());
    assert("rotation"@.len() != "dissolve_arrow"@.len());
    assert("scale"@.len() != "dissolve_arrow"@.len());
    assert("local_rotation"@[0] != "dissolve_arrow"@[0]);
    assert("local_position"@[0] != "dissolve_arrow"@[0]);
    assert("definite_position"@.len() != "dissolve_arrow"@.len());
    assert("dissolve"@.len() != "dissolve_arrow"@.len());
    assert("position"@.len() != "time"@.len());
    assert("rotation"@.len() != "time"@.len());
    assert("scale"@.len() != "time"@.len());
    assert("local_rotation"@.len() != "time"@.len());
    assert("local_position"@.len() != "time"@.len());
    assert("definite_position"@.len() != "time"@.len());
    assert("dissolve"@.len() != "time"@.len());
    assert("dissolve_arrow"@.len() != "time"@.len());
    assert("position"@[0] != "cuttable"@[0]);
    assert("rotation"@[0] != "cuttable"@[0]);
    assert("scale"@.len() != "cuttable"@.len());
    assert("local_rotation"@.len() != "cuttable"@.len());
    assert("local_position"@.len() != "cuttable"@.len());
    assert("definite_position"@.len() != "cuttable"@.len());
    assert("dissolve"@[0] != "cuttable"@[0]);
    assert("dissolve_arrow"@.len() != "cuttable"@.len());
    assert("time"@.len() != "cuttable"@.len());
    assert("position"@.len() != "color"@.len());
    assert("rotation"@.len() != "color"@.len());
    assert("scale"@[0] != "color"@[0]);
    assert("local_rotation"@.len() != "color"@.len());
    assert("local_position"@.len() != "color"@.len());
    assert("definite_position"@.len() != "color"@.len());
    assert("dissolve"@.len() != "color"@.len());
    assert("dissolve_arrow"@.len() != "color"@.len());
    assert("time"@.len() != "color"@.len());
    assert("cuttable"@.len() != "color"@.len());
    assert("position"@.len() != "attentuation"@.len());
    assert("rotation"@.len() != "attentuation"@.len());
    assert("scale"@.len() != "attentuation"@.len());
    assert("local_rotation"@.len() != "attentuation"@.len());
    assert("local_position"@.len() != "attentuation"@.len());
    assert("definite_position"@.len() != "attentuation"@.len());
    assert("dissolve"@.len() != "attentuation"@.len());
    assert("dissolve_arrow"@.len() != "attentuation"@.len());
    assert("time"@.len() != "attentuation"@.len());
    assert("cuttable"@.len() != "attentuation"@.len());
    assert("color"@.len() != "attentuation"@.len());
    assert("position"@.len() != "fog_offset"@.len());
    assert("rotation"@.len() != "fog_offset"@.len());
    assert("scale"@.len() != "fog_offset"@.len());
    assert("local_rotation"@.len() != "fog_offset"@.len());
    assert("local_position"@.len() != "fog_offset"@.len());
    assert("definite_position"@.len() != "fog_offset"@.len());
    assert("dissolve"@.len() != "fog_offset"@.len());
    assert("dissolve_arrow"@.len() != "fog_offset"@.len());
    assert("time"@.len() != "fog_offset"@.len());
    assert("cuttable"@.len() != "fog_offset"@.len());
    assert("color"@.len() != "fog_offset"@.len());
    assert("attentuation"@.len() != "fog_offset"@.len());
    assert("position"@.len() != "height_fog_start_y"@.len());
    assert("rotation"@.len() != "height_fog_start_y"@.len());
    assert("scale"@.len() != "height_fog_start_y"@.len());
    assert("local_rotation"@.len() != "height_fog_start_y"@.len());
    assert("local_position"@.len() != "height_fog_start_y"@.len());
    assert("definite_position"@.len() != "height_fog_start_y"@.len());
    assert("dissolve"@.len() != "height_fog_start_y"@.len());
    assert("dissolve_arrow"@.len() != "height_fog_start_y"@.len());
    assert("time"@.len() != "height_fog_start_y"@.len());
    assert("cuttable"@.len() != "height_fog_start_y"@.len());
    assert("color"@.len() != "height_fog_start_y"@.len());
    assert("attentuation"@.len() != "height_fog_start_y"@.len());
    assert("fog_offset"@.len() != "height_fog_start_y"@.len());
    assert("position"@.len() != "height_fog_height"@.len());
    assert("rotation"@.len() != "height_fog_height"@.len());
    assert("scale"@.len() != "height_fog_height"@.len());
    assert("local_rotation"@.len() != "height_fog_height"@.len());
    assert("local_position"@.len() != "height_fog_height"@.len());
    assert("definite_position"@[0] != "height_fog_height"@[0]);
    assert("dissolve"@.len() != "height_fog_height"@.len());
    assert("dissolve_arrow"@.len() != "height_fog_height"@.len());
    assert("time"@.len() != "height_fog_height"@.len());
    assert("cuttable"@.len() != "height_fog_height"@.len());
    assert("color"@.len() != "height_fog_height"@.len());
    assert("attentuation"@.len() != "height_fog_height"@.len());
    assert("fog_offset"@.len() != "height_fog_height"@.len());
    assert("height_fog_start_y"@.len() != "height_fog_height"@.len());
    assert("position"@.len() != "_position"@.len());
    assert("rotation"@.len() != "_position"@.len());
    assert("scale"@.len() != "_position"@.len());
    assert("local_rotation"@.len() != "_position"@.len());
    assert("local_position"@.len() != "_position"@.len());
    assert("definite_position"@.len() != "_position"@.len());
    assert("dissolve"@.len() != "_position"@.len());
    assert("dissolve_arrow"@.len() != "_position"@.len());
    assert("time"@.len() != "_position"@.len());
    assert("cuttable"@.len() != "_position"@.len());
    assert("color"@.len() != "_position"@.len());
    assert("attentuation"@.len() != "_position"@.len());
    assert("fog_offset"@.len() != "_position"@.len());
    assert("height_fog_start_y"@.len() != "_position"@.len());
    assert("height_fog_height"@.len() != "_position"@.len());
    assert("position"@.len() != "_localPosition"@.len());
    assert("rotation"@.len() != "_localPosition"@.len());
    assert("scale"@.len() != "_localPosition"@.len());
    assert("local_rotation"@[0] != "_localPosition"@[0]);
    assert("local_position"@[0] != "_localPosition"@[0]);
    assert("definite_position"@.len() != "_localPosition"@.len());
    assert("dissolve"@.len() != "_localPosition"@.len());
    assert("dissolve_arrow"@[0] != "_localPosition"@[0]);
    assert("time"@.len() != "_localPosition"@.len());
    assert("cuttable"@.len() != "_localPosition"@.len());
    assert("color"@.len() != "_localPosition"@.len());
    assert("attentuation"@.len() != "_localPosition"@.len());
    assert("fog_offset"@.len() != "_localPosition"@.len());
    assert("height_fog_start_y"@.len() != "_localPosition"@.len());
    assert("height_fog_height"@.len() != "_localPosition"@.len());
    assert("_position"@.len() != "_localPosition"@.len());
    assert("position"@.len() != "_rotation"@.len());
    assert("rotation"@.len() != "_rotation"@.len());
    assert("scale"@.len() != "_rotation"@.len());
    assert("local_rotation"@.len() != "_rotation"@.len());
    assert("local_position"@.len() != "_rotation"@.len());
    assert("definite_position"@.len() != "_rotation"@.len());
    assert("dissolve"@.len() != "_rotation"@.len());
    assert("dissolve_arrow"@.len() != "_rotation"@.len());
    assert("time"@.len() != "_rotation"@.len());
    assert("cuttable"@.len() != "_rotation"@.len());
    assert("color"@.len() != "_rotation"@.len());
    assert("attentuation"@.len() != "_rotation"@.len());
    assert("fog_offset"@.len() != "_rotation"@.len());
    assert("height_fog_start_y"@.len() != "_rotation"@.len());
    assert("height_fog_height"@.len() != "_rotation"@.len());
    assert("_position"@[1] != "_rotation"@[1]);
    assert("_localPosition"@.len() != "_rotation"@.len());
    assert("position"@.len() != "_localRotation"@.len());
    assert("rotation"@.len() != "_localRotation"@.len());
    assert("scale"@.len() != "_localRotation"@.len());
    assert("local_rotation"@[0] != "_localRotation"@[0]);
    assert("local_position"@[0] != "_localRotation"@[0]);
    assert("definite_position"@.len() != "_localRotation"@.len());
    assert("dissolve"@.len() != "_localRotation"@.len());
    assert("dissolve_arrow"@[0] != "_localRotation"@[0]);
    assert("time"@.len() != "_localRotation"@.len());
    assert("cuttable"@.len() != "_localRotation"@.len());
    assert("color"@.len() != "_localRotation"@.len());
    assert("attentuation"@.len() != "_localRotation"@.len());
    assert("fog_offset"@.len() != "_localRotation"@.len());
    assert("height_fog_start_y"@.len() != "_localRotation"@.len());
    assert("height_fog_height"@.len() != "_localRotation"@.len());
    assert("_position"@.len() != "_localRotation"@.len());
    assert("_localPosition"@[6] != "_localRotation"@[6]);
    assert("_rotation"@.len() != "_localRotation"@.len());
    assert("position"@.len() != "_scale"@.len());
    assert("rotation"@.len() != "_scale"@.len());
    assert("scale"@.len() != "_scale"@.len());
    assert("local_rotation"@.len() != "_scale"@.len());
    assert("local_position"@.len() != "_scale"@.len());
    assert("definite_position"@.len() != "_scale"@.len());
    assert("dissolve"@.len() != "_scale"@.len());
    assert("dissolve_arrow"@.len() != "_scale"@.len());
    assert("time"@.len() != "_scale"@.len());
    assert("cuttable"@.len() != "_scale"@.len());
    assert("color"@.len() != "_scale"@.len());
    assert("attentuation"@.len() != "_scale"@.len());
    assert("fog_offset"@.len() != "_scale"@.len());
    assert("height_fog_start_y"@.len() != "_scale"@.len());
    assert("height_fog_height"@.len() != "_scale"@.len());
    assert("_position"@.len() != "_scale"@.len());
    assert("_localPosition"@.len() != "_scale"@.len());
    assert("_rotation"@.len() != "_scale"@.len());
    assert("_localRotation"@.len() != "_scale"@.len());
    assert("position"@.len() != "_definitePosition"@.len());
    assert("rotation"@.len() != "_definitePosition"@.len());
    assert("scale"@.len() != "_definitePosition"@.len());
    assert("local_rotation"@.len() != "_definitePosition"@.len());
    assert("local_position"@.len() != "_definitePosition"@.len());
    assert("definite_position"@[0] != "_definitePosition"@[0]);
    assert("dissolve"@.len() != "_definitePosition"@.len());
    assert("dissolve_arrow"@.len() != "_definitePosition"@.len());
    assert("time"@.len() != "_definitePosition"@.len());
    assert("cuttable"@.len() != "_definitePosition"@.len());
    assert("color"@.len() != "_definitePosition"@.len());
    assert("attentuation"@.len() != "_definitePosition"@.len());
    assert("fog_offset"@.len() != "_definitePosition"@.len());
    assert("height_fog_start_y"@.len() != "_definitePosition"@.len());
    assert("height_fog_height"@[0] != "_definitePosition"@[0]);
    assert("_position"@.len() != "_definitePosition"@.len());
    assert("_localPosition"@.len() != "_definitePosition"@.len());
    assert("_rotation"@.len() != "_definitePosition"@.len());
    assert("_localRotation"@.len() != "_definitePosition"@.len());
    assert("_scale"@.len() != "_definitePosition"@.len());
    assert("position"@.len() != "_dissolve"@.len());
    assert("rotation"@.len() != "_dissolve"@.len());
    assert("scale"@.len() != "_dissolve"@.len());
    assert("local_rotation"@.len() != "_dissolve"@.len());
    assert("local_position"@.len() != "_dissolve"@.len());
    assert("definite_position"@.len() != "_dissolve"@.len());
    assert("dissolve"@.len() != "_dissolve"@.len());
    assert("dissolve_arrow"@.len() != "_dissolve"@.len());
    assert("time"@.len() != "_dissolve"@.len());
    assert("cuttable"@.len() != "_dissolve"@.len());
    assert("color"@.len() != "_dissolve"@.len());
    assert("attentuation"@.len() != "_dissolve"@.len());
    assert("fog_offset"@.len() != "_dissolve"@.len());
    assert("height_fog_start_y"@.len() != "_dissolve"@.len());
    assert("height_fog_height"@.len() != "_dissolve"@.len());
    assert("_position"@[1] != "_dissolve"@[1]);
    assert("_localPosition"@.len() != "_dissolve"@.len());
    assert("_rotation"@[1] != "_dissolve"@[1]);
    assert("_localRotation"@.len() != "_dissolve"@.len());
    assert("_scale"@.len() != "_dissolve"@.len());
    assert("_definitePosition"@.len() != "_dissolve"@.len());
    assert("position"@.len() != "_dissolveArrow"@.len());
    assert("rotation"@.len() != "_dissolveArrow"@.len());
    assert("scale"@.len() != "_dissolveArrow"@.len());
    assert("local_rotation"@[0] != "_dissolveArrow"@[0]);
    assert("local_position"@[0] != "_dissolveArrow"@[0]);
    assert("definite_position"@.len() != "_dissolveArrow"@.len());
    assert("dissolve"@.len() != "_dissolveArrow"@.len());
    assert("dissolve_arrow"@[0] != "_dissolveArrow"@[0]);
    assert("time"@.len() != "_dissolveArrow"@.len());
    assert("cuttable"@.len() != "_dissolveArrow"@.len());
    assert("color"@.len() != "_dissolveArrow"@.len());
    assert("attentuation"@.len() != "_dissolveArrow"@.len());
    assert("fog_offset"@.len() != "_dissolveArrow"@.len());
    assert("height_fog_start_y"@.len() != "_dissolveArrow"@.len());
    assert("height_fog_height"@.len() != "_dissolveArrow"@.len());
    assert("_position"@.len() != "_dissolveArrow"@.len());
    assert("_localPosition"@[1] != "_dissolveArrow"@[1]);
    assert("_rotation"@.len() != "_dissolveArrow"@.len());
    assert("_localRotation"@[1] != "_dissolveArrow"@[1]);
    assert("_scale"@.len() != "_dissolveArrow"@.len());
    assert("_definitePosition"@.len() != "_dissolveArrow"@.len());
    assert("_dissolve"@.len() != "_dissolveArrow"@.len());
    assert("position"@.len() != "_time"@.len());
    assert("rotation"@.len() != "_time"@.len());
    assert("scale"@[0] != "_time"@[0]);
    assert("local_rotation"@.len() != "_time"@.len());
    assert("local_position"@.len() != "_time"@.len());
    assert("definite_position"@.len() != "_time"@.len());
    assert("dissolve"@.len() != "_time"@.len());
    assert("dissolve_arrow"@.len() != "_time"@.len());
    assert("time"@.len() != "_time"@.len());
    assert("cuttable"@.len() != "_time"@.len());
    assert("color"@[0] != "_time"@[0]);
    assert("attentuation"@.len() != "_time"@.len());
    assert("fog_offset"@.len() != "_time"@.len());
    assert("height_fog_start_y"@.len() != "_time"@.len());
    assert("height_fog_height"@.len() != "_time"@.len());
    assert("_position"@.len() != "_time"@.len());
    assert("_localPosition"@.len() != "_time"@.len());
    assert("_rotation"@.len() != "_time"@.len());
    assert("_localRotation"@.len() != "_time"@.len());
    assert("_scale"@.len() != "_time"@.len());
    assert("_definitePosition"@.len() != "_time"@.len());
    assert("_dissolve"@.len() != "_time"@.len());
    assert("_dissolveArrow"@.len() != "_time"@.len());
    assert("position"@.len() != "_cuttable"@.len());
    assert("rotation"@.len() != "_cuttable"@.len());
    assert("scale"@.len() != "_cuttable"@.len());
    assert("local_rotation"@.len() != "_cuttable"@.len());
    assert("local_position"@.len() != "_cuttable"@.len());
    assert("definite_position"@.len() != "_cuttable"@.len());
    assert("dissolve"@.len() != "_cuttable"@.len());
    assert("dissolve_arrow"@.len() != "_cuttable"@.len());
    assert("time"@.len() != "_cuttable"@.len());
    assert("cuttable"@.len() != "_cuttable"@.len());
    assert("color"@.len() != "_cuttable"@.len());
    assert("attentuation"@.len() != "_cuttable"@.len());
    assert("fog_offset"@.len() != "_cuttable"@.len());
    assert("height_fog_start_y"@.len() != "_cuttable"@.len());
    assert("height_fog_height"@.len() != "_cuttable"@.len());
    assert("_position"@[1] != "_cuttable"@[1]);
    assert("_localPosition"@.len() != "_cuttable"@.len());
    assert("_rotation"@[1] != "_cuttable"@[1]);
    assert("_localRotation"@.len() != "_cuttable"@.len());
    assert("_scale"@.len() != "_cuttable"@.len());
    assert("_definitePosition"@.len() != "_cuttable"@.len());
    assert("_dissolve"@[1] != "_cuttable"@[1]);
    assert("_dissolveArrow"@.len() != "_cuttable"@.len());
    assert("_time"@.len() != "_cuttable"@.len());
    assert("position"@.len() != "_color"@.len());
    assert("rotation"@.len() != "_color"@.len());
    assert("scale"@.len() != "_color"@.len());
    assert("local_rotation"@.len() != "_color"@.len());
    assert("local_position"@.len() != "_color"@.len());
    assert("definite_position"@.len() != "_color"@.len());
    assert("dissolve"@.len() != "_color"@.len());
    assert("dissolve_arrow"@.len() != "_color"@.len());
    assert("time"@.len() != "_color"@.len());
    assert("cuttable"@.len() != "_color"@.len());
    assert("color"@.len() != "_color"@.len());
    assert("attentuation"@.len() != "_color"@.len());
    assert("fog_offset"@.len() != "_color"@.len());
    assert("height_fog_start_y"@.len() != "_color"@.len());
    assert("height_fog_height"@.len() != "_color"@.len());
    assert("_position"@.len() != "_color"@.len());
    assert("_localPosition"@.len() != "_color"@.len());
    assert("_rotation"@.len() != "_color"@.len());
    assert("_localRotation"@.len() != "_color"@.len());
    assert("_scale"@[1] != "_color"@[1]);
    assert("_definitePosition"@.len() != "_color"@.len());
    assert("_dissolve"@.len() != "_color"@.len());
    assert("_dissolveArrow"@.len() != "_color"@.len());
    assert("_time"@.len() != "_color"@.len());
    assert("_cuttable"@.len() != "_color"@.len());
    assert("position"@.len() != "_attenuation"@.len());
    assert("rotation"@.len() != "_attenuation"@.len());
    assert("scale"@.len() != "_attenuation"@.len());
    assert("local_rotation"@.len() != "_attenuation"@.len());
    assert("local_position"@.len() != "_attenuation"@.len());
    assert("definite_position"@.len() != "_attenuation"@.len());
    assert("dissolve"@.len() != "_attenuation"@.len());
    assert("dissolve_arrow"@.len() != "_attenuation"@.len());
    assert("time"@.len() != "_attenuation"@.len());
    assert("cuttable"@.len() != "_attenuation"@.len());
    assert("color"@.len() != "_attenuation"@.len());
    assert("attentuation"@[0] != "_attenuation"@[0]);
    assert("fog_offset"@.len() != "_attenuation"@.len());
    assert("height_fog_start_y"@.len() != "_attenuation"@.len());
    assert("height_fog_height"@.len() != "_attenuation"@.len());
    assert("_position"@.len() != "_attenuation"@.len());
    assert("_localPosition"@.len() != "_attenuation"@.len());
    assert("_rotation"@.len() != "_attenuation"@.len());
    assert("_localRotation"@.len() != "_attenuation"@.len());
    assert("_scale"@.len() != "_attenuation"@.len());
    assert("_definitePosition"@.len() != "_attenuation"@.len());
    assert("_dissolve"@.len() != "_attenuation"@.len());
    assert("_dissolveArrow"@.len() != "_attenuation"@.len());
    assert("_time"@.len() != "_attenuation"@.len());
    assert("_cuttable"@.len() != "_attenuation"@.len());
    assert("_color"@.len() != "_attenuation"@.len());
    assert("position"@.len() != "_fogOffset"@.len());
    assert("rotation"@.len() != "_fogOffset"@.len());
    assert("scale"@.len() != "_fogOffset"@.len());
    assert("local_rotation"@.len() != "_fogOffset"@.len());
    assert("local_position"@.len() != "_fogOffset"@.len());
    assert("definite_position"@.len() != "_fogOffset"@.len());
    assert("dissolve"@.len() != "_fogOffset"@.len());
    assert("dissolve_arrow"@.len() != "_fogOffset"@.len());
    assert("time"@.len() != "_fogOffset"@.len());
    assert("cuttable"@.len() != "_fogOffset"@.len());
    assert("color"@.len() != "_fogOffset"@.len());
    assert("attentuation"@.len() != "_fogOffset"@.len());
    assert("fog_offset"@[0] != "_fogOffset"@[0]);
    assert("height_fog_start_y"@.len() != "_fogOffset"@.len());
    assert("height_fog_height"@.len() != "_fogOffset"@.len());
    assert("_position"@.len() != "_fogOffset"@.len());
    assert("_localPosition"@.len() != "_fogOffset"@.len());
    assert("_rotation"@.len() != "_fogOffset"@.len());
    assert("_localRotation"@.len() != "_fogOffset"@.len());
    assert("_scale"@.len() != "_fogOffset"@.len());
    assert("_definitePosition"@.len() != "_fogOffset"@.len());
    assert("_dissolve"@.len() != "_fogOffset"@.len());
    assert("_dissolveArrow"@.len() != "_fogOffset"@.len());
    assert("_time"@.len() != "_fogOffset"@.len());
    assert("_cuttable"@.len() != "_fogOffset"@.len());
    assert("_color"@.len() != "_fogOffset"@.len());
    assert("_attenuation"@.len() != "_fogOffset"@.len());
    assert("position"@.len() != "_heightFogStartY"@.len());
    assert("rotation"@.len() != "_heightFogStartY"@.len());
    assert("scale"@.len() != "_heightFogStartY"@.len());
    assert("local_rotation"@.len() != "_heightFogStartY"@.len());
    assert("local_position"@.len() != "_heightFogStartY"@.len());
    assert("definite_position"@.len() != "_heightFogStartY"@.len());
    assert("dissolve"@.len() != "_heightFogStartY"@.len());
    assert("dissolve_arrow"@.len() != "_heightFogStartY"@.len());
    assert("time"@.len() != "_heightFogStartY"@.len());
    assert("cuttable"@.len() != "_heightFogStartY"@.len());
    assert("color"@.len() != "_heightFogStartY"@.len());
    assert("attentuation"@.len() != "_heightFogStartY"@.len());
    assert("fog_offset"@.len() != "_heightFogStartY"@.len());
    assert("height_fog_start_y"@.len() != "_heightFogStartY"@.len());
    assert("height_fog_height"@.len() != "_heightFogStartY"@.len());
    assert("_position"@.len() != "_heightFogStartY"@.len());
    assert("_localPosition"@.len() != "_heightFogStartY"@.len());
    assert("_rotation"@.len() != "_heightFogStartY"@.len());
    assert("_localRotation"@.len() != "_heightFogStartY"@.len());
    assert("_scale"@.len() != "_heightFogStartY"@.len());
    assert("_definitePosition"@.len() != "_heightFogStartY"@.len());
    assert("_dissolve"@.len() != "_heightFogStartY"@.len());
    assert("_dissolveArrow"@.len() != "_heightFogStartY"@.len());
    assert("_time"@.len() != "_heightFogStartY"@.len());
    assert("_cuttable"@.len() != "_heightFogStartY"@.len());
    assert("_color"@.len() != "_heightFogStartY"@.len());
    assert("_attenuation"@.len() != "_heightFogStartY"@.len());
    assert("_fogOffset"@.len() != "_heightFogStartY"@.len());
    assert("position"@.len() != "_heightFogHeight"@.len());
    assert("rotation"@.len() != "_heightFogHeight"@.len());
    assert("scale"@.len() != "_heightFogHeight"@.len());
    assert("local_rotation"@.len() != "_heightFogHeight"@.len());
    assert("local_position"@.len() != "_heightFogHeight"@.len());
    assert("definite_position"@.len() != "_heightFogHeight"@.len());
    assert("dissolve"@.len() != "_heightFogHeight"@.len());
    assert("dissolve_arrow"@.len() != "_heightFogHeight"@.len());
    assert("time"@.len() != "_heightFogHeight"@.len());
    assert("cuttable"@.len() != "_heightFogHeight"@.len());
    assert("color"@.len() != "_heightFogHeight"@.len());
    assert("attentuation"@.len() != "_heightFogHeight"@.len());
    assert("fog_offset"@.len() != "_heightFogHeight"@.len());
    assert("height_fog_start_y"@.len() != "_heightFogHeight"@.len());
    assert("height_fog_height"@.len() != "_heightFogHeight"@.len());
    assert("_position"@.len() != "_heightFogHeight"@.len());
    assert("_localPosition"@.len() != "_heightFogHeight"@.len());
    assert("_rotation"@.len() != "_heightFogHeight"@.len());
    assert("_localRotation"@.len() != "_heightFogHeight"@.len());
    assert("_scale"@.len() != "_heightFogHeight"@.len());
    assert("_definitePosition"@.len() != "_heightFogHeight"@.len());
    assert("_dissolve"@.len() != "_heightFogHeight"@.len());
    assert("_dissolveArrow"@.len() != "_heightFogHeight"@.len());
    assert("_time"@.len() != "_heightFogHeight"@.len());
    assert("_cuttable"@.len() != "_heightFogHeight"@.len());
    assert("_color"@.len() != "_heightFogHeight"@.len());
    assert("_attenuation"@.len() != "_heightFogHeight"@.len());
    assert("_fogOffset"@.len() != "_heightFogHeight"@.len());
    assert("_heightFogStartY"@[10] != "_heightFogHeight"@[10]);
}

/// A map of value properties finds the same slot under the older name of
/// a property as under its name.
pub proof fn lemma_alias_same_slot(map: PropertiesMap, name: PropertyNames)
    requires
        name != PropertyNames::UnknownPropertyName,
    ensures
        map.named(name.alias()) == map.named(name.canonical()),
        map.named(name.alias()) == map.builtin(name),
{
    lemma_alias_resolves(name);
}

/// A map of path properties finds the same slot under the older name of a
/// property as under its name.
pub proof fn lemma_alias_same_path(map: PathPropertiesMap, name: PropertyNames)
    requires
        name != PropertyNames::UnknownPropertyName,
    ensures
        map.named(name.alias()) == map.named(name.canonical()),
        map.named(name.alias()) == map.builtin(name),
{
    lemma_alias_resolves(name);
}

} // verus!
