use tracks_rs::base_provider_context::{
    find_channel, kind_of_channel, BaseProviderContext, CHANNEL_COUNT,
};
use tracks_rs::ffi::types::WrapBaseValueType;
use tracks_rs::ieee::{
    at_most, clamp_unit, equal, key_of, less_than, min_one, not_a_number, zero, FIVE, FOUR, HALF,
    ONE, PI, SIXTY, TAU, THREE, TWO, ZERO,
};
use tracks_rs::point_definition::blending::{negate, MINUS_PI, MINUS_THREE};
use tracks_rs::text::{head_before_dot, same};
use tracks_rs::values::base::BaseProviderValues;
use tracks_rs::values::value::BaseValue;

fn bits(x: f32) -> u32 {
    x.to_bits()
}

fn num(x: u32) -> f32 {
    f32::from_bits(x)
}

fn samples() -> Vec<f32> {
    vec![
        0.0,
        -0.0,
        1.0,
        -1.0,
        0.5,
        -0.5,
        1.0000001,
        0.99999994,
        f32::MIN_POSITIVE,
        -f32::MIN_POSITIVE,
        1.0e-45,
        -1.0e-45,
        f32::MAX,
        f32::MIN,
        f32::INFINITY,
        f32::NEG_INFINITY,
        f32::NAN,
        -f32::NAN,
        f32::from_bits(0x7f80_0001),
        f32::from_bits(0xffff_ffff),
        3.0,
        60.0,
        123456.79,
        -2.5e-7,
    ]
}

// The comparisons on bit patterns are those of the numbers.
#[test]
fn comparisons_agree_with_the_machine() {
    for a in samples() {
        assert_eq!(not_a_number(bits(a)), a.is_nan(), "{:?}", a);
        assert_eq!(zero(bits(a)), a == 0.0, "{:?}", a);
        assert_eq!(negate(bits(a)), bits(-a), "{:?}", a);
        for b in samples() {
            assert_eq!(less_than(bits(a), bits(b)), a < b, "{:?} < {:?}", a, b);
            assert_eq!(at_most(bits(a), bits(b)), a <= b, "{:?} <= {:?}", a, b);
            assert_eq!(equal(bits(a), bits(b)), a == b, "{:?} == {:?}", a, b);
            if !a.is_nan() && !b.is_nan() {
                assert_eq!(key_of(bits(a)) < key_of(bits(b)), a < b);
            }
        }
    }
}

#[test]
fn limits_to_one_and_to_the_unit_range() {
    for a in samples() {
        let m = num(min_one(bits(a)));
        assert_eq!(bits(m), bits(a.min(1.0)), "{:?}", a);
        let c = num(clamp_unit(bits(a)));
        if a.is_nan() {
            assert!(c.is_nan());
        } else {
            assert_eq!(bits(c), bits(a.clamp(0.0, 1.0)), "{:?}", a);
        }
    }
    assert_eq!(num(min_one(bits(0.25))), 0.25);
    assert_eq!(num(min_one(bits(7.0))), 1.0);
    assert_eq!(num(clamp_unit(bits(-3.0))), 0.0);
    assert_eq!(num(clamp_unit(bits(0.75))), 0.75);
    assert_eq!(num(clamp_unit(bits(3.0))), 1.0);
}

#[test]
fn the_constants_are_the_numbers_they_name() {
    assert_eq!(num(ZERO), 0.0);
    assert_eq!(num(HALF), 0.5);
    assert_eq!(num(ONE), 1.0);
    assert_eq!(num(TWO), 2.0);
    assert_eq!(num(THREE), 3.0);
    assert_eq!(num(FOUR), 4.0);
    assert_eq!(num(FIVE), 5.0);
    assert_eq!(num(SIXTY), 60.0);
    assert_eq!(num(MINUS_THREE), -3.0);
    assert_eq!(num(PI), std::f32::consts::PI);
    assert_eq!(num(TAU), std::f32::consts::TAU);
    assert_eq!(num(MINUS_PI), -std::f32::consts::PI);
}

#[test]
fn values_by_count_and_hint() {
    let f = BaseValue::from_slice(&[bits(1.5)], false);
    assert_eq!(f.as_float(), Some(bits(1.5)));
    assert!(f.get_type() == WrapBaseValueType::Float);
    assert_eq!(f.len(), 1);
    assert!(!f.is_empty());
    assert_eq!(f.as_slice(), &[bits(1.5)]);
    assert_eq!(f.as_vec3(), None);

    let v = BaseValue::from_vec(vec![1, 2, 3], true);
    assert_eq!(v.as_vec3(), Some([1, 2, 3]));
    assert!(v.get_type() == WrapBaseValueType::Vec3);
    assert_eq!(v.len(), 3);
    assert_eq!(v.as_slice(), &[1, 2, 3]);

    let q = BaseValue::from_slice(&[1, 2, 3, 4], true);
    assert_eq!(q.as_quat(), Some([1, 2, 3, 4]));
    assert_eq!(q.as_vec4(), None);
    assert!(q.get_type() == WrapBaseValueType::Quat);
    let c = BaseValue::from_slice(&[1, 2, 3, 4], false);
    assert_eq!(c.as_vec4(), Some([1, 2, 3, 4]));
    assert_eq!(c.as_quat(), None);
    assert!(c.get_type() == WrapBaseValueType::Vec4);
    assert_eq!(c.len(), 4);
    assert_eq!(BaseValue::default().as_float(), Some(bits(0.0)));

    // a number answers at every index
    assert_eq!(f.index(0), bits(1.5));
    assert_eq!(f.index(3), bits(1.5));
    assert_eq!(q.index(3), 4);
    assert_eq!(v.index(1), 2);
    let mut w = v;
    w.set(2, 9);
    assert_eq!(w.as_vec3(), Some([1, 2, 9]));
    let mut g = f;
    g.set(5, bits(2.0));
    assert_eq!(g.as_float(), Some(bits(2.0)));
}

#[test]
fn values_are_equal_as_numbers_are() {
    let v = |x: f32, y: f32, z: f32| BaseValue::Vector3([bits(x), bits(y), bits(z)]);
    assert!(v(1.0, 2.0, 3.0).equals(&v(1.0, 2.0, 3.0)));
    assert!(!v(1.0, 2.0, 3.0).equals(&v(1.0, 2.0, 4.0)));
    // the two zeros are equal, and nothing equals what is not a number
    assert!(v(0.0, -0.0, 0.0).equals(&v(-0.0, 0.0, 0.0)));
    assert!(!v(f32::NAN, 0.0, 0.0).equals(&v(f32::NAN, 0.0, 0.0)));
    // values of two kinds are never equal
    let q = BaseValue::Quaternion([0, 0, 0, 0]);
    let c = BaseValue::Vector4([0, 0, 0, 0]);
    assert!(!q.equals(&c));
    assert!(q.equals(&q));
    assert!(c.equals(&c));
    assert!(BaseValue::Float(bits(1.0)).equals(&BaseValue::Float(bits(1.0))));
    assert!(!BaseValue::Float(bits(1.0)).equals(&BaseValue::Float(bits(2.0))));
}

#[test]
fn every_channel_has_a_value_of_its_kind() {
    let mut ctx = BaseProviderContext::new();
    let floats = [
        "baseCombo",
        "baseMultipliedScore",
        "baseImmediateMaxPossibleMultipliedScore",
        "baseModifiedScore",
        "baseImmediateMaxPossibleModifiedScore",
        "baseRelativeScore",
        "baseMultiplier",
        "baseEnergy",
        "baseSongTime",
        "baseSongLength",
    ];
    let colors = [
        "baseEnvironmentColor0",
        "baseEnvironmentColor0Boost",
        "baseEnvironmentColor1",
        "baseEnvironmentColor1Boost",
        "baseEnvironmentColorW",
        "baseEnvironmentColorWBoost",
        "baseNote0Color",
        "baseNote1Color",
        "baseObstaclesColor",
        "baseSaberAColor",
        "baseSaberBColor",
    ];
    let mut index = 0;
    for name in floats {
        assert_eq!(find_channel(name), Some(index));
        assert!(ctx.has_channel(name));
        assert!(ctx.get_type(name) == WrapBaseValueType::Float);
        assert_eq!(ctx.get_values(name).as_float(), Some(bits(0.0)));
        ctx.set_values(name, BaseValue::Float(bits(index as f32 + 1.0)));
        assert_eq!(ctx.slice(name), &[bits(index as f32 + 1.0)]);
        index += 1;
    }
    for name in colors {
        assert_eq!(find_channel(name), Some(index));
        assert!(ctx.get_type(name) == WrapBaseValueType::Vec4);
        assert_eq!(ctx.get_values(name).as_vec4(), Some([0, 0, 0, 0]));
        index += 1;
    }
    for who in ["Head", "LeftHand", "RightHand"] {
        for (what, kind) in [
            ("LocalPosition", WrapBaseValueType::Vec3),
            ("LocalRotation", WrapBaseValueType::Quat),
            ("LocalScale", WrapBaseValueType::Vec3),
            ("Position", WrapBaseValueType::Vec3),
            ("Rotation", WrapBaseValueType::Quat),
        ] {
            let name = format!("base{}{}", who, what);
            assert_eq!(find_channel(&name), Some(index));
            assert!(ctx.get_type(&name) == kind);
            assert!(kind_of_channel(index) == kind);
            assert!(ctx.get_values(&name).get_type() == kind);
            if kind == WrapBaseValueType::Quat {
                // a rotation starts as the rotation that turns nothing
                assert_eq!(ctx.get_values(&name).as_quat(), Some([0, 0, 0, bits(1.0)]));
            }
            index += 1;
        }
    }
    assert_eq!(index, CHANNEL_COUNT);
    assert_eq!(index, 36);
    // a write changes its channel and no other
    assert_eq!(ctx.get_values("baseCombo").as_float(), Some(bits(1.0)));
    assert_eq!(ctx.get_values("baseSongLength").as_float(), Some(bits(10.0)));
    ctx.set_values("baseHeadPosition", BaseValue::Vector3([1, 2, 3]));
    assert_eq!(ctx.get_values("baseHeadPosition").as_vec3(), Some([1, 2, 3]));
    assert_eq!(ctx.get_values("baseHeadLocalPosition").as_vec3(), Some([0, 0, 0]));
    assert_eq!(ctx.get_values("baseLeftHandPosition").as_vec3(), Some([0, 0, 0]));

    assert!(!ctx.has_channel("basecombo"));
    assert!(!ctx.has_channel("baseHeadRotation.x"));
    assert!(!ctx.has_channel(""));
    assert_eq!(find_channel("position"), None);
    let p = BaseProviderValues::new("baseCombo".to_string());
    assert_eq!(p.count(), 1);
    assert_eq!(p.values(&ctx), vec![bits(1.0)]);
    assert!(BaseProviderContext::default().has_channel("baseEnergy"));
}

#[test]
fn texts() {
    assert!(same("abc", "abc"));
    assert!(!same("abc", "abd"));
    assert!(!same("abc", "ab"));
    assert!(same("", ""));
    assert_eq!(head_before_dot("baseHeadRotation.x.y"), "baseHeadRotation");
    assert_eq!(head_before_dot("baseCombo"), "baseCombo");
    assert_eq!(head_before_dot(".x"), "");
    assert_eq!(head_before_dot(""), "");
}
