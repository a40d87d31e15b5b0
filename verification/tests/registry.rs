use tracks_rs::animation::events::EventType;
use tracks_rs::animation::game_object::GameObject;
use tracks_rs::animation::property::{PathProperty, ValueProperty};
use tracks_rs::animation::track::{
    PathPropertiesMap, PathPropertyHandle, PropertiesMap, PropertyNames, Track,
    ValuePropertyHandle, ATTENTUATION, COLOR, CUTTABLE, DEFINITE_POSITION, DISSOLVE,
    DISSOLVE_ARROW, FOG_OFFSET, HEIGHT_FOG_HEIGHT, HEIGHT_FOG_START_Y, LOCAL_POSITION,
    LOCAL_ROTATION, POSITION, ROTATION, SCALE, TIME, V2_ATTENTUATION, V2_COLOR, V2_CUTTABLE,
    V2_DEFINITE_POSITION, V2_DISSOLVE, V2_DISSOLVE_ARROW, V2_FOG_OFFSET, V2_HEIGHT_FOG_HEIGHT,
    V2_HEIGHT_FOG_START_Y, V2_LOCAL_POSITION, V2_LOCAL_ROTATION, V2_POSITION, V2_ROTATION,
    V2_SCALE, V2_TIME,
};
use tracks_rs::animation::tracks_holder::{TrackKey, TracksHolder, NULL_KEY};
use tracks_rs::easings::functions::{Functions, EASING_COUNT};
use tracks_rs::ffi::event_data::{event_type_by_name, event_type_by_text, CEventTypeEnum};
use tracks_rs::ffi::point_def::PointDefinitionType;
use tracks_rs::ffi::time::CTimeUnit;
use tracks_rs::ffi::track::TrackKeyFFI;
use tracks_rs::ffi::types::WrapBaseValueType;
use tracks_rs::modifiers::operation::Operation;
use tracks_rs::values::value::BaseValue;

fn bits(x: f32) -> u32 {
    x.to_bits()
}

fn num(x: u32) -> f32 {
    f32::from_bits(x)
}

#[test]
fn test_null_values_return_none() {
    // default PropertiesMap initializes properties with None values
    let props = PropertiesMap::default();

    // ensure several default properties are None
    assert!(
        props.scale.get_value().is_none(),
        "scale should be None by default"
    );
    assert!(
        props.color.get_value().is_none(),
        "color should be None by default"
    );
    assert!(
        props.rotation.get_value().is_none(),
        "rotation should be None by default"
    );
    assert!(
        props.dissolve.get_value().is_none(),
        "dissolve should be None by default"
    );
}

#[test]
fn test_set_and_get_float_vec3_vec4_quat() {
    let mut props = PropertiesMap::default();

    // Linear / float (dissolve)
    props
        .dissolve
        .set_value(Some(BaseValue::Float(bits(3.15_f32))));
    let f = num(props.dissolve.get_value().unwrap().as_float().unwrap());
    assert!((f - 3.15).abs() < 1e-6, "float value mismatch");

    // Vec3 (scale) - user requested one test must be scale
    let scale = [bits(1.0), bits(2.0), bits(3.0)];
    props.scale.set_value(Some(BaseValue::Vector3(scale)));
    let got_scale = props.scale.get_value().unwrap().as_vec3().unwrap();
    assert_eq!(got_scale, scale, "scale Vec3 mismatch");

    // Vec4 (color)
    let color = [bits(0.1), bits(0.2), bits(0.3), bits(0.4)];
    props.color.set_value(Some(BaseValue::Vector4(color)));
    let got_color = props.color.get_value().unwrap().as_vec4().unwrap();
    assert_eq!(got_color, color, "color Vec4 mismatch");

    // Quat (rotation)
    let quat = [bits(0.0), bits(0.0), bits(0.0), bits(1.0)];
    props.rotation.set_value(Some(BaseValue::Quaternion(quat)));
    let got_quat = props.rotation.get_value().unwrap().as_quat().unwrap();
    assert_eq!(got_quat, quat, "rotation Quat mismatch");
}

#[test]
fn test_insert_and_get_custom_property() {
    let mut props = PropertiesMap::default();

    // create a custom float property and insert it under a custom id
    let mut custom_prop = ValueProperty::empty(WrapBaseValueType::Float);
    custom_prop.set_value(Some(BaseValue::Float(bits(9.99_f32))));

    props.insert("custom_prop".to_string(), custom_prop);

    let got = props
        .get("custom_prop")
        .expect("custom_prop should be present")
        .get_value()
        .expect("custom_prop should have a value")
        .as_float()
        .expect("custom_prop should be a float");

    assert!((num(got) - 9.99).abs() < 1e-6, "custom_prop float mismatch");
}

#[test]
fn test_path_properties_v2_alias() {
    let path_props = PathPropertiesMap::default();

    // V2 alias should return the canonical path property (position)
    let p_by_v2 = path_props
        .get(V2_POSITION)
        .expect("V2_POSITION should map to a path property");
    let p_by_v3 = path_props
        .get(POSITION)
        .expect("POSITION should map to a path property");

    // pointers should be to the same underlying canonical field (addresses equal)
    assert!(
        std::ptr::eq(p_by_v3, p_by_v2),
        "V2_POSITION and POSITION should resolve to the same path property"
    );
}

#[test]
fn test_last_updated() {
    let mut props = PropertiesMap::default();

    let time = props.dissolve.last_updated;
    assert!(
        time.elapsed().is_ok(),
        "last_updated should be a valid SystemTime"
    );

    // Set dissolve to an initial value
    props.dissolve.set_value(Some(BaseValue::Float(bits(0.1_f32))));
    let first = props
        .dissolve
        .get_value()
        .expect("first value present")
        .as_float()
        .expect("first is float");
    assert!(
        props.dissolve.last_updated.duration_since(time).is_ok(),
        "last_updated should be a valid SystemTime after setting value"
    );
    assert!(
        props.dissolve.last_updated.duration_since(time).unwrap()
            > std::time::Duration::from_millis(0),
        "last_updated should be a valid SystemTime after setting value"
    );

    // Update dissolve to a new value
    props.dissolve.set_value(Some(BaseValue::Float(bits(0.2_f32))));
    let second = props
        .dissolve
        .get_value()
        .expect("second value present")
        .as_float()
        .expect("second is float");

    // Ensure the value actually changed (i.e., it was "updated")
    assert!(
        (num(second) - num(first)).abs() > 1e-6,
        "dissolve should have been updated to a new value"
    );
}

const NAMES: [(PropertyNames, &str, &str); 15] = [
    (PropertyNames::Position, POSITION, V2_POSITION),
    (PropertyNames::Rotation, ROTATION, V2_ROTATION),
    (PropertyNames::Scale, SCALE, V2_SCALE),
    (PropertyNames::LocalRotation, LOCAL_ROTATION, V2_LOCAL_ROTATION),
    (PropertyNames::LocalPosition, LOCAL_POSITION, V2_LOCAL_POSITION),
    (PropertyNames::DefinitePosition, DEFINITE_POSITION, V2_DEFINITE_POSITION),
    (PropertyNames::Dissolve, DISSOLVE, V2_DISSOLVE),
    (PropertyNames::DissolveArrow, DISSOLVE_ARROW, V2_DISSOLVE_ARROW),
    (PropertyNames::Time, TIME, V2_TIME),
    (PropertyNames::Cuttable, CUTTABLE, V2_CUTTABLE),
    (PropertyNames::Color, COLOR, V2_COLOR),
    (PropertyNames::Attentuation, ATTENTUATION, V2_ATTENTUATION),
    (PropertyNames::FogOffset, FOG_OFFSET, V2_FOG_OFFSET),
    (PropertyNames::HeightFogStartY, HEIGHT_FOG_START_Y, V2_HEIGHT_FOG_START_Y),
    (PropertyNames::HeightFogHeight, HEIGHT_FOG_HEIGHT, V2_HEIGHT_FOG_HEIGHT),
];

// Every older name resolves to the property that the name resolves to.
#[test]
fn every_alias_resolves_to_its_property() {
    let values = PropertiesMap::default();
    let paths = PathPropertiesMap::default();
    for (name, canonical, alias) in NAMES {
        assert_eq!(PropertyNames::from_str(canonical), Ok(name));
        assert_eq!(PropertyNames::from_str(alias), Ok(name));
        assert_eq!(name.to_string(), canonical);
        match (values.get(canonical), values.get(alias)) {
            (Some(a), Some(b)) => assert!(std::ptr::eq(a, b)),
            (None, None) => assert!(name == PropertyNames::DefinitePosition),
            _ => panic!("the two names of {} differ", canonical),
        }
        match (paths.get(canonical), paths.get(alias)) {
            (Some(a), Some(b)) => assert!(std::ptr::eq(a, b)),
            (None, None) => assert!(paths.get_property_by_name(name).is_none()),
            _ => panic!("the two names of {} differ", canonical),
        }
    }
    assert_eq!(V2_LOCAL_POSITION, "_localPosition");
    assert_eq!(V2_ATTENTUATION, "_attenuation");
    assert_eq!(ATTENTUATION, "attentuation");
    assert_eq!(PropertyNames::from_str("Position"), Err(()));
    assert_eq!(PropertyNames::from_str(""), Err(()));
    assert_eq!(PropertyNames::from_str("Unknown"), Err(()));
    assert_eq!(PropertyNames::UnknownPropertyName.to_string(), "Unknown");
}

#[test]
fn kinds_of_the_property_slots() {
    let values = PropertiesMap::default();
    let kind = |n| values.get_property_by_name(n).map(|p| p.get_type());
    assert!(kind(PropertyNames::Position) == Some(WrapBaseValueType::Vec3));
    assert!(kind(PropertyNames::Rotation) == Some(WrapBaseValueType::Quat));
    assert!(kind(PropertyNames::LocalRotation) == Some(WrapBaseValueType::Quat));
    assert!(kind(PropertyNames::Dissolve) == Some(WrapBaseValueType::Float));
    assert!(kind(PropertyNames::Color) == Some(WrapBaseValueType::Vec4));
    assert!(kind(PropertyNames::HeightFogHeight) == Some(WrapBaseValueType::Float));
    assert!(kind(PropertyNames::DefinitePosition).is_none());
    assert!(kind(PropertyNames::UnknownPropertyName).is_none());
    let paths = PathPropertiesMap::default();
    let kind = |n| paths.get_property_by_name(n).map(|p| p.get_type());
    assert!(kind(PropertyNames::DefinitePosition) == Some(WrapBaseValueType::Vec3));
    assert!(kind(PropertyNames::Color) == Some(WrapBaseValueType::Vec4));
    assert!(kind(PropertyNames::Time).is_none());
    assert!(kind(PropertyNames::FogOffset).is_none());
}

#[test]
fn handles_name_builtin_slots_by_id_and_others_by_name() {
    assert!(matches!(
        ValuePropertyHandle::new("_dissolve"),
        ValuePropertyHandle::ById(PropertyNames::Dissolve)
    ));
    assert!(matches!(
        ValuePropertyHandle::new("my_value"),
        ValuePropertyHandle::ByName(s) if s == "my_value"
    ));
    assert!(matches!(
        PathPropertyHandle::new("definite_position"),
        PathPropertyHandle::ById(PropertyNames::DefinitePosition)
    ));
    assert!(matches!(
        PathPropertyHandle::new("x"),
        PathPropertyHandle::ByName(s) if s == "x"
    ));
    assert!(ValuePropertyHandle::new("scale").equals(&ValuePropertyHandle::new("_scale")));
    assert!(!ValuePropertyHandle::new("scale").equals(&ValuePropertyHandle::new("color")));
    assert!(ValuePropertyHandle::new("a").equals(&ValuePropertyHandle::new("a")));
    assert!(!ValuePropertyHandle::new("a").equals(&ValuePropertyHandle::new("b")));
    assert!(PathPropertyHandle::new("a").equals(&PathPropertyHandle::new("a")));
    assert!(!PathPropertyHandle::new("a").equals(&PathPropertyHandle::new("scale")));
    let a = EventType::AnimateTrack(ValuePropertyHandle::new("scale"));
    let b = EventType::AssignPathAnimation(PathPropertyHandle::new("scale"));
    assert!(!a.equals(&b));
    assert!(a.equals(&EventType::AnimateTrack(ValuePropertyHandle::new("_scale"))));
    assert!(b.equals(&event_type_by_text(CEventTypeEnum::AssignPathAnimation, "_scale")));
    assert!(a.equals(&event_type_by_name(CEventTypeEnum::AnimateTrack, PropertyNames::Scale)));
    assert!(matches!(
        event_type_by_text(CEventTypeEnum::AnimateTrack, "fancy"),
        EventType::AnimateTrack(ValuePropertyHandle::ByName(s)) if s == "fancy"
    ));
}

#[test]
fn property_maps_by_handle_and_by_name() {
    let mut props = PropertiesMap::default();
    let custom = ValuePropertyHandle::new("glow");
    assert!(props.get_by_handle(&custom).is_none());
    assert!(props.get_by_handle_mut(&custom).is_none());
    props.insert("glow".to_string(), ValueProperty::empty(WrapBaseValueType::Float));
    props
        .get_by_handle_mut(&custom)
        .unwrap()
        .set_value(Some(BaseValue::Float(bits(2.0))));
    assert_eq!(
        props.get("glow").unwrap().get_value().unwrap().as_float(),
        Some(bits(2.0))
    );
    props
        .get_mut("glow")
        .unwrap()
        .set_value(Some(BaseValue::Float(bits(3.0))));
    assert_eq!(
        props.get_by_handle(&custom).unwrap().get_value().unwrap().as_float(),
        Some(bits(3.0))
    );
    // a second insert replaces the slot
    props.insert("glow".to_string(), ValueProperty::empty(WrapBaseValueType::Vec3));
    assert!(props.get("glow").unwrap().get_type() == WrapBaseValueType::Vec3);
    assert!(props.get("glow").unwrap().get_value().is_none());

    // an insert under the name of a builtin slot replaces the builtin slot
    let mut filled = ValueProperty::empty(WrapBaseValueType::Float);
    filled.set_value(Some(BaseValue::Float(bits(0.5))));
    props.insert("_dissolve".to_string(), filled);
    assert_eq!(props.dissolve.get_value().unwrap().as_float(), Some(bits(0.5)));
    let by_id = ValuePropertyHandle::new("dissolve");
    props.get_by_handle_mut(&by_id).unwrap().set_value(None);
    assert!(props.dissolve.get_value().is_none());
    props
        .get_property_by_name_mut(PropertyNames::Time)
        .unwrap()
        .set_value(Some(BaseValue::Float(bits(1.0))));
    assert!(props.time.get_value().is_some());
    assert!(props.get_property_by_name_mut(PropertyNames::DefinitePosition).is_none());
    // what comes under a name that a map has no builtin slot for goes to the map by name
    props.insert("definite_position".to_string(), ValueProperty::empty(WrapBaseValueType::Vec3));
    assert!(props.properties.get("definite_position").is_some());

    let mut paths = PathPropertiesMap::default();
    paths.insert("trail".to_string(), PathProperty::empty(WrapBaseValueType::Vec3));
    let trail = PathPropertyHandle::new("trail");
    assert!(paths.get_by_handle(&trail).is_some());
    paths.get_by_handle_mut(&trail).unwrap().time = bits(0.5);
    assert_eq!(paths.get("trail").unwrap().time, bits(0.5));
    paths.get_mut("_scale").unwrap().time = bits(0.25);
    assert_eq!(paths.scale.time, bits(0.25));
    assert!(paths.get("nothing").is_none());
    assert!(paths.get_property_by_name_mut(PropertyNames::Time).is_none());
    paths.insert("scale".to_string(), PathProperty::empty(WrapBaseValueType::Vec3));
    assert_eq!(paths.scale.time, bits(0.0));
}

#[test]
fn value_properties_keep_their_kind() {
    let mut p = ValueProperty::new(Some(BaseValue::Float(bits(1.0))), WrapBaseValueType::Float);
    assert!(p.get_type() == WrapBaseValueType::Float);
    assert!(p.accepts(&Some(BaseValue::Float(bits(2.0)))));
    assert!(p.accepts(&None));
    assert!(!p.accepts(&Some(BaseValue::Vector3([0, 0, 0]))));
    p.set_value(None);
    assert!(p.get_value().is_none());
    let before = p.last_updated;
    p.mark_updated();
    assert!(p.last_updated >= before);
    // a given time is taken as it is, and the value and the kind stay
    let then = std::time::UNIX_EPOCH + std::time::Duration::new(12, 345);
    p.mark_updated_at(then);
    assert_eq!(p.last_updated, then);
    assert!(p.get_value().is_none());
    assert!(p.get_type() == WrapBaseValueType::Float);
    // a slot of unknown kind takes every value
    let mut any = ValueProperty::default();
    assert!(any.get_type() == WrapBaseValueType::Unknown);
    assert!(any.accepts(&Some(BaseValue::Vector4([0, 0, 0, 0]))));
    any.set_value(Some(BaseValue::Quaternion([0, 0, 0, bits(1.0)])));
    assert!(any.get_value().unwrap().as_quat().is_some());
    assert!(WrapBaseValueType::default() == WrapBaseValueType::Unknown);
    assert!(WrapBaseValueType::Unknown.accepts(WrapBaseValueType::Quat));
    assert!(!WrapBaseValueType::Vec4.accepts(WrapBaseValueType::Quat));
    assert!(PointDefinitionType::Quaternion.value_type() == WrapBaseValueType::Quat);
    assert!(PointDefinitionType::Float.value_type() == WrapBaseValueType::Float);
    assert!(PointDefinitionType::Vector3.value_type() == WrapBaseValueType::Vec3);
    assert!(PointDefinitionType::Vector4.value_type() == WrapBaseValueType::Vec4);
}

#[test]
fn game_objects_are_kept_once_and_in_order() {
    let mut track = Track::default();
    let (a, b, c) = (GameObject { ptr: 10 }, GameObject { ptr: 20 }, GameObject { ptr: 30 });
    track.register_game_object_callback(7);
    track.register_game_object_callback(9);
    assert_eq!(track.register_game_object(a), vec![7, 9]);
    assert_eq!(track.register_game_object(b), vec![7, 9]);
    // an object that is there already is not added again, and nobody is told
    assert_eq!(track.register_game_object(a), Vec::<u64>::new());
    assert_eq!(track.register_game_object(c), vec![7, 9]);
    assert_eq!(track.game_objects, vec![a, b, c]);
    assert!(track.has_game_object(&b));

    assert_eq!(track.remove_game_object(&b), vec![7, 9]);
    assert_eq!(track.game_objects, vec![a, c]);
    assert!(!track.has_game_object(&b));
    // the callbacks are told of a removal though the object was not there
    assert_eq!(track.remove_game_object(&b), vec![7, 9]);
    assert_eq!(track.game_objects, vec![a, c]);

    track.register_game_object_callback(7);
    track.remove_game_object_callback(7);
    assert_eq!(track.game_object_callbacks, vec![9]);
    assert_eq!(track.register_game_object(b), vec![9]);

    track.name = "kept".to_string();
    track.register_property("glow".to_string(), ValueProperty::empty(WrapBaseValueType::Float));
    track.register_path_property("trail".to_string(), PathProperty::empty(WrapBaseValueType::Vec3));
    track.properties.scale.set_value(Some(BaseValue::Vector3([1, 2, 3])));
    assert!(track.get_property("glow").is_some());
    assert!(track.get_path_property("trail").is_some());
    track.reset();
    assert!(track.game_objects.is_empty());
    assert!(track.game_object_callbacks.is_empty());
    assert!(track.get_property("glow").is_none());
    assert!(track.get_path_property("trail").is_none());
    assert!(track.properties.scale.get_value().is_none());
    assert_eq!(track.name, "kept");
}

fn named(name: &str) -> Track {
    let mut t = Track::default();
    t.name = name.to_string();
    t
}

// Removing a track makes its key name nothing; the other keys stay good.
#[test]
fn keys_stay_good_while_other_tracks_go() {
    let mut holder = TracksHolder::new();
    assert_eq!(holder.len(), 0);
    let a = holder.add_track(named("a"));
    let b = holder.add_track(named("b"));
    let c = holder.add_track(named("c"));
    assert_eq!(holder.len(), 3);
    assert!(a != b && b != c && a != c);

    let removed = holder.remove_track(b).expect("b was there");
    assert_eq!(removed.name, "b");
    assert_eq!(holder.len(), 2);
    assert!(holder.get_track(b).is_none());
    assert!(holder.get_track_mut(b).is_none());
    assert!(holder.remove_track(b).is_none());
    assert_eq!(holder.get_track(a).unwrap().name, "a");
    assert_eq!(holder.get_track(c).unwrap().name, "c");
    assert!(holder.get_track_by_name("b").is_none());
    assert!(holder.get_track_key("b").is_none());

    // a new track may take the slot of the old one, but not its key
    let d = holder.add_track(named("d"));
    assert!(d != b);
    assert!(holder.get_track(b).is_none());
    assert_eq!(holder.get_track(d).unwrap().name, "d");
    assert_eq!(holder.get_track(a).unwrap().name, "a");
    assert_eq!(holder.get_track(c).unwrap().name, "c");
    assert!(holder.get_track_key("d") == Some(d));
    assert!(holder.get_track_key("a") == Some(a));

    holder.get_track_mut(c).unwrap().name = "renamed".to_string();
    assert!(holder.get_track_key("c").is_none());
    assert!(holder.get_track_key("renamed") == Some(c));
    assert!(TracksHolder::default().get_track_key("a").is_none());
}

#[test]
fn track_keys_cross_to_the_host_and_back() {
    let mut holder = TracksHolder::new();
    let a = holder.add_track(named("a"));
    let raw = a.as_ffi();
    let back = TrackKey::from_ffi(raw);
    assert!(back == a);
    assert_eq!(holder.get_track(back).unwrap().name, "a");
    let ffi = TrackKeyFFI::from_key(a);
    assert_eq!(ffi.raw, raw);
    assert!(ffi.to_key() == a);

    assert_eq!(TrackKey::null().as_ffi(), NULL_KEY);
    assert_eq!(TrackKeyFFI::null().raw, 0x1_ffff_ffff);
    assert!(holder.get_track(TrackKey::null()).is_none());
    assert!(holder.get_track(TrackKeyFFI::null().to_key()).is_none());
    // a number that is no key of the holder names no track
    assert!(holder.get_track(TrackKey::from_ffi(77)).is_none());
    assert_eq!(TrackKey::from_ffi(0).as_ffi(), 1 << 32);
}

#[test]
fn easing_names() {
    assert_eq!(Functions::from_str("easeLinear"), Ok(Functions::EaseLinear));
    assert_eq!(Functions::from_str("easeStep"), Ok(Functions::EaseStep));
    assert_eq!(Functions::from_str("easeInOutBounce"), Ok(Functions::EaseInOutBounce));
    assert_eq!(Functions::from_str("easeOutElastic"), Ok(Functions::EaseOutElastic));
    assert_eq!(Functions::from_str("EaseLinear"), Err(()));
    assert_eq!(Functions::from_str("easeinquad"), Err(()));
    assert_eq!(Functions::from_str(""), Err(()));
    assert!(Functions::from_str_or_linear("easeOutBack") == Functions::EaseOutBack);
    assert!(Functions::from_str_or_linear("nothing") == Functions::EaseLinear);

    assert_eq!(EASING_COUNT, 32);
    let mut seen = Vec::new();
    for i in 0..EASING_COUNT as i32 {
        let f = Functions::from_index(i);
        let name = f.to_name();
        assert!(name.starts_with("ease"));
        assert_eq!(Functions::from_str(&name), Ok(f));
        assert!(!seen.contains(&name));
        seen.push(name);
    }
    assert_eq!(seen.len(), 32);
    assert_eq!(seen[0], "easeLinear");
    assert_eq!(seen[1], "easeStep");
    assert_eq!(seen[2], "easeInQuad");
    assert_eq!(seen[4], "easeInOutQuad");
    assert_eq!(seen[31], "easeInOutBounce");
    assert!(Functions::from_index(-1) == Functions::EaseLinear);
    assert!(Functions::from_index(32) == Functions::EaseLinear);
}

#[test]
fn operation_names() {
    assert_eq!(Operation::from_str("opAdd"), Ok(Operation::Add));
    assert_eq!(Operation::from_str("opSub"), Ok(Operation::Sub));
    assert_eq!(Operation::from_str("opMul"), Ok(Operation::Mul));
    assert_eq!(Operation::from_str("opDiv"), Ok(Operation::Div));
    assert_eq!(Operation::from_str("opNone"), Ok(Operation::Replace));
    assert_eq!(Operation::from_str("easeLinear"), Ok(Operation::Replace));
    assert_eq!(Operation::from_str(""), Ok(Operation::Replace));
}

#[test]
fn points_in_time_are_ordered() {
    let a = CTimeUnit { seconds: 5, nanos: 999_999_999 };
    let b = CTimeUnit { seconds: 6, nanos: 0 };
    assert!(a.is_not_after(&b));
    assert!(!b.is_not_after(&a));
    assert!(a.is_not_after(&a));
    assert!(CTimeUnit::default() == CTimeUnit { seconds: 0, nanos: 0 });
    assert!(CTimeUnit::default().is_not_after(&a));
}

#[test]
fn test_property_names_aliases_and_display() {
    // v1 -> enum -> display -> v1
    let pname = PropertyNames::from_str(POSITION).expect("POSITION should parse");
    assert_eq!(pname.to_string(), POSITION);

    // v2 alias -> enum -> display -> v1 canonical
    let pname_v2 = PropertyNames::from_str(V2_POSITION).expect("V2_POSITION should parse");
    assert_eq!(pname_v2.to_string(), POSITION);

    // another example: color
    let pcolor = PropertyNames::from_str(COLOR).expect("COLOR should parse");
    assert_eq!(pcolor.to_string(), COLOR);
    let pcolor_v2 = PropertyNames::from_str(V2_COLOR).expect("V2_COLOR should parse");
    assert_eq!(pcolor_v2.to_string(), COLOR);
}
