use glam::{EulerRot, Quat, Vec3, Vec4};
use palette::{Hsv, IntoColor, RgbHue, Srgb};
use tracks_rs::easings::functions::Functions;
use tracks_rs::numerics::Numerics;
use std::rc::Rc;
use tracks_rs::base_provider_context::BaseProviderContext;
use tracks_rs::ffi::json::{JsonValue, JsonValueType};
use tracks_rs::ffi::types::WrapBaseValueType;
use tracks_rs::modifiers::float_modifier::{FloatModifier, FloatValues};
use tracks_rs::modifiers::operation::Operation;
use tracks_rs::modifiers::quaternion_modifier::{QuaternionModifier, QuaternionValues};
use tracks_rs::modifiers::vector3_modifier::{Vector3Modifier, Vector3Values};
use tracks_rs::modifiers::vector4_modifier::Vector4Values;
use tracks_rs::modifiers::{shared_has_base_provider, Modifier, ModifierValues};
use tracks_rs::point_data::float_point_data::FloatPointData;
use tracks_rs::point_data::quaternion_point_data::QuaternionPointData;
use tracks_rs::point_data::vector3_point_data::Vector3PointData;
use tracks_rs::point_data::vector4_point_data::Vector4PointData;
use tracks_rs::point_data::PointData;
use tracks_rs::point_definition::base_point_definition::BasePointDefinition;
use tracks_rs::point_definition::blending::{lerp_hsv_vec4, spline};
use tracks_rs::point_definition::float_point_definition::FloatPointDefinition;
use tracks_rs::point_definition::parsing::{
    create_modifier, create_point_data, deserialize_modifier, deserialize_values, group,
    group_values, parse, ParseError,
};
use tracks_rs::point_definition::point_definition_interpolation::PointDefinitionInterpolation;
use tracks_rs::point_definition::quaternion_point_definition::QuaternionPointDefinition;
use tracks_rs::point_definition::vector3_point_definition::Vector3PointDefinition;
use tracks_rs::point_definition::vector4_point_definition::Vector4PointDefinition;
use tracks_rs::point_definition::{search_index, GroupType};
use tracks_rs::values::base::BaseProviderValues;
use tracks_rs::values::partial::PartialProviderValues;
use tracks_rs::values::quat::QuaternionProviderValues;
use tracks_rs::values::smooth::SmoothProvidersValues;
use tracks_rs::values::smooth_rot::SmoothRotationProvidersValues;
use tracks_rs::values::static_values::StaticValues;
use tracks_rs::values::value::BaseValue;
use tracks_rs::values::ValueProvider;

/// Single-precision arithmetic by the machine, rotations by glam, colours
/// by palette.
struct FloatMath;

fn num(bits: u32) -> f32 {
    f32::from_bits(bits)
}

fn bits(x: f32) -> u32 {
    x.to_bits()
}

fn bounce_out(t: f32) -> f32 {
    if t < 1.0 / 2.75 {
        7.5625 * t * t
    } else if t < 2.0 / 2.75 {
        let t = t - 1.5 / 2.75;
        7.5625 * t * t + 0.75
    } else if t < 2.5 / 2.75 {
        let t = t - 2.25 / 2.75;
        7.5625 * t * t + 0.9375
    } else {
        let t = t - 2.625 / 2.75;
        7.5625 * t * t + 0.984375
    }
}

fn ease(easing: Functions, t: f32) -> f32 {
    match easing {
        Functions::EaseLinear => t,
        Functions::EaseStep => {
            if t >= 1.0 {
                1.0
            } else {
                0.0
            }
        }
        Functions::EaseInQuad => t * t,
        Functions::EaseOutQuad => 1.0 - (1.0 - t) * (1.0 - t),
        Functions::EaseInOutQuad => {
            if t < 0.5 {
                2.0 * t * t
            } else {
                1.0 - (-2.0 * t + 2.0).powi(2) / 2.0
            }
        }
        Functions::EaseInCubic => t * t * t,
        Functions::EaseOutCubic => 1.0 - (1.0 - t).powi(3),
        Functions::EaseOutBounce => bounce_out(t),
        Functions::EaseInBounce => 1.0 - bounce_out(1.0 - t),
        _ => unreachable!("an easing that these tests do not use"),
    }
}

impl Numerics for FloatMath {
    fn sum(&self, a: u32, b: u32) -> u32 {
        bits(num(a) + num(b))
    }

    fn difference(&self, a: u32, b: u32) -> u32 {
        bits(num(a) - num(b))
    }

    fn product(&self, a: u32, b: u32) -> u32 {
        bits(num(a) * num(b))
    }

    fn quotient(&self, a: u32, b: u32) -> u32 {
        bits(num(a) / num(b))
    }

    fn from_count(&self, n: u32) -> u32 {
        bits(n as f32)
    }

    fn ease(&self, easing: Functions, t: u32) -> u32 {
        bits(ease(easing, num(t)))
    }

    fn slerp(&self, a: [u32; 4], b: [u32; 4], t: u32) -> [u32; 4] {
        quat_bits(quat(a).slerp(quat(b), num(t)))
    }

    fn euler_to_quat(&self, euler: [u32; 3]) -> [u32; 4] {
        quat_bits(from_unity_euler_degrees(Vec3::new(
            num(euler[0]),
            num(euler[1]),
            num(euler[2]),
        )))
    }

    fn quat_to_euler(&self, q: [u32; 4]) -> [u32; 3] {
        let e = to_unity_euler_degrees(quat(q));
        [bits(e.x), bits(e.y), bits(e.z)]
    }

    fn rgb_to_hsv(&self, rgb: [u32; 3]) -> [u32; 3] {
        let hsv: Hsv = Srgb::new(num(rgb[0]), num(rgb[1]), num(rgb[2])).into_color();
        [
            bits(hsv.hue.into_raw_radians()),
            bits(hsv.saturation),
            bits(hsv.value),
        ]
    }

    fn hsv_to_rgb(&self, hsv: [u32; 3]) -> [u32; 3] {
        let rgb: Srgb = Hsv::new(
            RgbHue::from_radians(num(hsv[0])),
            num(hsv[1]),
            num(hsv[2]),
        )
        .into_color();
        [bits(rgb.red), bits(rgb.green), bits(rgb.blue)]
    }
}

const TRACKS_EULER_ROT: EulerRot = EulerRot::ZXYEx;

fn to_unity_euler_degrees(q: Quat) -> Vec3 {
    let (a, b, c) = q.to_euler(TRACKS_EULER_ROT);
    Vec3::new(b.to_degrees(), c.to_degrees(), a.to_degrees())
}

fn from_unity_euler_degrees(euler: Vec3) -> Quat {
    Quat::from_euler(
        TRACKS_EULER_ROT,
        euler.z.to_radians(),
        euler.x.to_radians(),
        euler.y.to_radians(),
    )
}

fn quat(q: [u32; 4]) -> Quat {
    Quat::from_xyzw(num(q[0]), num(q[1]), num(q[2]), num(q[3]))
}

fn quat_bits(q: Quat) -> [u32; 4] {
    [bits(q.x), bits(q.y), bits(q.z), bits(q.w)]
}

fn vec3_bits(v: Vec3) -> [u32; 3] {
    [bits(v.x), bits(v.y), bits(v.z)]
}

fn vec4_bits(v: Vec4) -> [u32; 4] {
    [bits(v.x), bits(v.y), bits(v.z), bits(v.w)]
}

fn vec3(v: [u32; 3]) -> Vec3 {
    Vec3::new(num(v[0]), num(v[1]), num(v[2]))
}

fn vec4(v: [u32; 4]) -> Vec4 {
    Vec4::new(num(v[0]), num(v[1]), num(v[2]), num(v[3]))
}

fn approx_eq(a: f32, b: f32, eps: f32) -> bool {
    (a - b).abs() <= eps
}

fn float_point(value: f32, time: f32) -> PointData {
    PointData::Float(FloatPointData::new(
        FloatValues::Static(bits(value)),
        bits(time),
        vec![],
        Functions::EaseLinear,
    ))
}

fn number(x: f32) -> JsonValue {
    JsonValue::Number(bits(x))
}

fn text(s: &str) -> JsonValue {
    JsonValue::String(s.to_string())
}

fn list(items: Vec<JsonValue>) -> JsonValue {
    JsonValue::Array(items)
}

fn numbers(xs: &[f32]) -> JsonValue {
    list(xs.iter().map(|x| number(*x)).collect())
}

#[test]
fn test_float_interpolation_midpoint() {
    let prev = FloatPointDefinition::new(vec![float_point(0.0, 0.0), float_point(10.0, 1.0)]);
    let next = FloatPointDefinition::new(vec![float_point(10.0, 0.0), float_point(20.0, 1.0)]);

    let prev_bp = BasePointDefinition::Float(prev);
    let next_bp = BasePointDefinition::Float(next);

    let mut interp =
        PointDefinitionInterpolation::new(Some(Rc::new(next_bp)), WrapBaseValueType::Float);
    interp.prev_point = Some(Rc::new(prev_bp));
    interp.time = bits(0.5);

    let ctx = BaseProviderContext::new();

    let result = interp.interpolate(bits(0.25), &ctx, &FloatMath).unwrap();
    let v = num(result.as_float().unwrap());
    // expected: prev interpolate at 0.25 = 2.5, next interpolate at 0.25 = 12.5, lerp between them at 0.5 = 7.5
    assert!((v - 7.5).abs() < 1e-6);
}

fn vec3_point(v: Vec3, time: f32) -> PointData {
    PointData::Vector3(Vector3PointData::new(
        Vector3Values::Static(vec3_bits(v)),
        false,
        bits(time),
        vec![],
        Functions::EaseLinear,
    ))
}

fn vec4_point(v: Vec4, hsv: bool, time: f32) -> PointData {
    PointData::Vector4(Vector4PointData::new(
        Vector4Values::Static(vec4_bits(v)),
        hsv,
        bits(time),
        vec![],
        Functions::EaseLinear,
    ))
}

#[test]
fn test_vector3_and_vector4_interpolation() {
    // Vector3
    let prev_v3 = Vector3PointDefinition::new(vec![
        vec3_point(Vec3::new(0.0, 0.0, 0.0), 0.0),
        vec3_point(Vec3::new(3.0, 3.0, 3.0), 1.0),
    ]);
    let next_v3 = Vector3PointDefinition::new(vec![
        vec3_point(Vec3::new(3.0, 3.0, 3.0), 0.0),
        vec3_point(Vec3::new(6.0, 6.0, 6.0), 1.0),
    ]);

    let prev_bp_v3 = BasePointDefinition::Vector3(prev_v3);
    let next_bp_v3 = BasePointDefinition::Vector3(next_v3);

    let mut interp_v3 =
        PointDefinitionInterpolation::new(Some(Rc::new(next_bp_v3)), WrapBaseValueType::Vec3);
    interp_v3.prev_point = Some(Rc::new(prev_bp_v3));
    interp_v3.time = bits(0.5);

    let ctx = BaseProviderContext::new();
    let result_v3 = interp_v3.interpolate(bits(0.25), &ctx, &FloatMath).unwrap();
    let v3 = vec3(result_v3.as_vec3().unwrap());
    // prev interp at 0.25 = (0->3) = 0.75, next interp = (3->6) = 3.75, lerp -> (0.75+3.75)/2 = 2.25 per component
    assert!((v3.x - 2.25).abs() < 1e-6);

    // Vector4
    let prev_v4 = Vector4PointDefinition::new(vec![
        vec4_point(Vec4::new(0.0, 0.0, 0.0, 0.0), false, 0.0),
        vec4_point(Vec4::new(4.0, 4.0, 4.0, 4.0), false, 1.0),
    ]);
    let next_v4 = Vector4PointDefinition::new(vec![
        vec4_point(Vec4::new(4.0, 4.0, 4.0, 4.0), false, 0.0),
        vec4_point(Vec4::new(8.0, 8.0, 8.0, 8.0), false, 1.0),
    ]);

    let prev_bp_v4 = BasePointDefinition::Vector4(prev_v4);
    let next_bp_v4 = BasePointDefinition::Vector4(next_v4);

    let mut interp_v4 =
        PointDefinitionInterpolation::new(Some(Rc::new(next_bp_v4)), WrapBaseValueType::Vec4);
    interp_v4.prev_point = Some(Rc::new(prev_bp_v4));
    interp_v4.time = bits(0.5);

    let result_v4 = interp_v4.interpolate(bits(0.25), &ctx, &FloatMath).unwrap();
    let v4 = vec4(result_v4.as_vec4().unwrap());
    // prev interp at 0.25 = 1.0, next interp = 5.0, lerp -> 3.0 per component
    assert!((v4.x - 3.0).abs() < 1e-6);
}

fn quat_point(euler: Vec3, q: Quat, time: f32) -> PointData {
    PointData::Quaternion(QuaternionPointData::new(
        QuaternionValues::Static(vec3_bits(euler), quat_bits(q)),
        bits(time),
        vec![],
        Functions::EaseLinear,
    ))
}

#[test]
fn test_quaternion_interpolation_slerp() {
    let q1 = Quat::from_array([0.0, 0.0, 0.0, 1.0]);
    let q2 = Quat::from_array([0.0, 0.0, 1.0, 0.0]);

    let prev_q = QuaternionPointDefinition::new(vec![quat_point(Vec3::ZERO, q1, 0.0)]);
    let next_q = QuaternionPointDefinition::new(vec![quat_point(Vec3::ZERO, q2, 0.0)]);

    let prev_bp_q = BasePointDefinition::Quaternion(prev_q);
    let next_bp_q = BasePointDefinition::Quaternion(next_q);

    let mut interp_q =
        PointDefinitionInterpolation::new(Some(Rc::new(next_bp_q)), WrapBaseValueType::Quat);
    interp_q.prev_point = Some(Rc::new(prev_bp_q));
    interp_q.time = bits(0.25);

    let ctx = BaseProviderContext::new();
    let result_q = interp_q.interpolate(bits(0.0), &ctx, &FloatMath).unwrap();
    let got = quat(result_q.as_quat().unwrap());

    let expected = Quat::slerp(q1, q2, 0.25);
    assert!((got.x - expected.x).abs() < 1e-6);
    assert!((got.y - expected.y).abs() < 1e-6);
    assert!((got.z - expected.z).abs() < 1e-6);
    assert!((got.w - expected.w).abs() < 1e-6);
}

// Use Unity's Euler rotation order (ZXY(Ex)) for expected values in tests
const UNITY_EULER: EulerRot = EulerRot::ZXYEx;

#[test]
fn local_rotation_interpolation_and_quat_values() {
    // _localRotation array
    let js = list(vec![
        numbers(&[0.0, 0.0, 0.0, 0.0]),
        numbers(&[0.0, 0.0, 0.0, 0.1]),
        numbers(&[0.0, -90.0, 0.0, 0.2]),
        numbers(&[-90.0, -90.0, 0.0, 0.3]),
    ]);

    let ctx = BaseProviderContext::new();

    let def = QuaternionPointDefinition::parse(&js, &ctx, &FloatMath).unwrap();

    // sanity
    assert_eq!(def.get_count(), 4);

    // Initial (time 0.0)
    let (q0, _is_last0) = def.interpolate(bits(0.0), &ctx, &FloatMath);
    let q0 = quat(q0);
    let e0 = q0.to_euler(UNITY_EULER);
    assert!(approx_eq(e0.0.to_degrees(), 0.0, 1e-3));
    assert!(approx_eq(e0.1.to_degrees(), 0.0, 1e-3));
    assert!(approx_eq(e0.2.to_degrees(), 0.0, 1e-3));
    // identity quaternion expected
    assert!(approx_eq(q0.x, 0.0, 1e-3));
    assert!(approx_eq(q0.y, 0.0, 1e-3));
    assert!(approx_eq(q0.z, 0.0, 1e-3));
    assert!(approx_eq(q0.w, 1.0, 1e-3));

    // Intermediate between 0.1 and 0.2 -> t = 0.15 -> normalized 0.5 between those points
    let (q_mid, _is_last_mid) = def.interpolate(bits(0.15), &ctx, &FloatMath);
    let q_mid = quat(q_mid);
    // Build expected by slerping the endpoint quaternions
    let q_l = Quat::from_euler(
        UNITY_EULER,
        0.0f32.to_radians(),
        0.0f32.to_radians(),
        0.0f32.to_radians(),
    );
    let q_r = Quat::from_euler(
        UNITY_EULER,
        0.0f32.to_radians(),
        0.0f32.to_radians(),
        (-90.0f32).to_radians(),
    );
    let expected_mid = q_l.slerp(q_r, 0.5);

    // compare quaternion components
    assert!(approx_eq(q_mid.x, expected_mid.x, 1e-3));
    assert!(approx_eq(q_mid.y, expected_mid.y, 1e-3));
    assert!(approx_eq(q_mid.z, expected_mid.z, 1e-3));
    assert!(approx_eq(q_mid.w, expected_mid.w, 1e-3));

    // compare euler angles (converted to degrees)
    let e_mid = q_mid.to_euler(UNITY_EULER);
    let e_expected = expected_mid.to_euler(UNITY_EULER);
    assert!(approx_eq(
        e_mid.0.to_degrees(),
        e_expected.0.to_degrees(),
        1e-2
    ));
    assert!(approx_eq(
        e_mid.1.to_degrees(),
        e_expected.1.to_degrees(),
        1e-2
    ));
    assert!(approx_eq(
        e_mid.2.to_degrees(),
        e_expected.2.to_degrees(),
        1e-2
    ));

    // Final (time 0.3)
    let (q_final, is_last_final) = def.interpolate(bits(0.3), &ctx, &FloatMath);
    let q_final = quat(q_final);
    let expected_final = Quat::from_euler(
        UNITY_EULER,
        0.0f32.to_radians(),
        (-90.0f32).to_radians(),
        (-90.0f32).to_radians(),
    );

    assert!(approx_eq(q_final.x, expected_final.x, 1e-3));
    assert!(approx_eq(q_final.y, expected_final.y, 1e-3));
    assert!(approx_eq(q_final.z, expected_final.z, 1e-3));
    assert!(approx_eq(q_final.w, expected_final.w, 1e-3));

    let e_final = q_final.to_euler(UNITY_EULER);
    let e_expected_final = expected_final.to_euler(UNITY_EULER);
    assert!(approx_eq(
        e_final.0.to_degrees(),
        e_expected_final.0.to_degrees(),
        1e-2
    ));
    assert!(approx_eq(
        e_final.1.to_degrees(),
        e_expected_final.1.to_degrees(),
        1e-2
    ));
    assert!(approx_eq(
        e_final.2.to_degrees(),
        e_expected_final.2.to_degrees(),
        1e-2
    ));
    assert!(is_last_final);
}

#[test]
fn local_rotation_from_unity_quats() {
    // Build quaternion points directly (Unity-style xyzw)
    let ctx = BaseProviderContext::new();

    // Build quaternions from the same euler angles as the previous test
    let q0 = Quat::from_euler(
        TRACKS_EULER_ROT,
        0.0f32.to_radians(),
        0.0f32.to_radians(),
        0.0f32.to_radians(),
    );
    let q1 = Quat::from_euler(
        TRACKS_EULER_ROT,
        0.0f32.to_radians(),
        0.0f32.to_radians(),
        0.0f32.to_radians(),
    );
    let q2 = Quat::from_euler(
        TRACKS_EULER_ROT,
        0.0f32.to_radians(),
        0.0f32.to_radians(),
        (-90.0f32).to_radians(),
    );
    let q3 = Quat::from_euler(
        TRACKS_EULER_ROT,
        0.0f32.to_radians(),
        (-90.0f32).to_radians(),
        (-90.0f32).to_radians(),
    );

    let first = quat_point(Vec3::new(0.0, 0.0, 0.0), q0, 0.0);
    let second = quat_point(Vec3::new(0.0, 0.0, 0.0), q1, 0.1);
    let third = quat_point(Vec3::new(0.0, -90.0, 0.0), q2, 0.2);
    let fourth = quat_point(Vec3::new(-90.0, -90.0, 0.0), q3, 0.3);

    let def = QuaternionPointDefinition::new(vec![first, second, third, fourth]);

    // sanity
    assert_eq!(def.get_count(), 4);

    // initial
    let (qi0, last0) = def.interpolate(bits(0.0), &ctx, &FloatMath);
    let qi0 = quat(qi0);
    let e0 = qi0.to_euler(TRACKS_EULER_ROT);
    assert!(approx_eq(e0.0.to_degrees(), 0.0, 1e-3));
    assert!(approx_eq(e0.1.to_degrees(), 0.0, 1e-3));
    assert!(approx_eq(e0.2.to_degrees(), 0.0, 1e-3));
    assert!(approx_eq(qi0.x, q0.x, 1e-3));
    assert!(approx_eq(qi0.y, q0.y, 1e-3));
    assert!(approx_eq(qi0.z, q0.z, 1e-3));
    assert!(approx_eq(qi0.w, q0.w, 1e-3));
    assert!(!last0);

    // mid (0.15) slerp between q1 and q2
    let (qmid, lastmid) = def.interpolate(bits(0.15), &ctx, &FloatMath);
    let qmid = quat(qmid);
    let expected_mid = q1.slerp(q2, 0.5);
    assert!(approx_eq(qmid.x, expected_mid.x, 1e-3));
    assert!(approx_eq(qmid.y, expected_mid.y, 1e-3));
    assert!(approx_eq(qmid.z, expected_mid.z, 1e-3));
    assert!(approx_eq(qmid.w, expected_mid.w, 1e-3));
    let e_mid = qmid.to_euler(TRACKS_EULER_ROT);
    let e_expected = expected_mid.to_euler(TRACKS_EULER_ROT);
    assert!(approx_eq(
        e_mid.0.to_degrees(),
        e_expected.0.to_degrees(),
        1e-2
    ));
    assert!(approx_eq(
        e_mid.1.to_degrees(),
        e_expected.1.to_degrees(),
        1e-2
    ));
    assert!(approx_eq(
        e_mid.2.to_degrees(),
        e_expected.2.to_degrees(),
        1e-2
    ));
    assert!(!lastmid);

    // final
    let (qf, lastf) = def.interpolate(bits(0.3), &ctx, &FloatMath);
    let qf = quat(qf);
    assert!(approx_eq(qf.x, q3.x, 1e-3));
    assert!(approx_eq(qf.y, q3.y, 1e-3));
    assert!(approx_eq(qf.z, q3.z, 1e-3));
    assert!(approx_eq(qf.w, q3.w, 1e-3));
    let e_f = qf.to_euler(TRACKS_EULER_ROT);
    let e_expected_f = q3.to_euler(TRACKS_EULER_ROT);
    assert!(approx_eq(
        e_f.0.to_degrees(),
        e_expected_f.0.to_degrees(),
        1e-2
    ));
    assert!(approx_eq(
        e_f.1.to_degrees(),
        e_expected_f.1.to_degrees(),
        1e-2
    ));
    assert!(approx_eq(
        e_f.2.to_degrees(),
        e_expected_f.2.to_degrees(),
        1e-2
    ));
    assert!(lastf);
}

#[test]
fn unity_quat_roundtrip_euler_examples() {
    let cases = [
        Vec3::new(0.0, 0.0, 0.0),
        Vec3::new(30.0, -45.0, 10.0),
        Vec3::new(-90.0, -90.0, 0.0),
    ];

    for e in cases {
        // build via convenience function
        let q = quat(FloatMath.euler_to_quat(vec3_bits(e)));
        // round-trip back to euler degrees
        let e2 = vec3(FloatMath.quat_to_euler(quat_bits(q)));

        assert!(
            approx_eq(e.x, e2.x, 1e-3),
            "x mismatch: {} vs {}",
            e.x,
            e2.x
        );
        assert!(
            approx_eq(e.y, e2.y, 1e-3),
            "y mismatch: {} vs {}",
            e.y,
            e2.y
        );
        assert!(
            approx_eq(e.z, e2.z, 1e-3),
            "z mismatch: {} vs {}",
            e.z,
            e2.z
        );
    }
}

#[test]
fn unity_quat_matches_explicit_from_euler_ordering() {
    // pick a specific Euler triple and verify the conversion
    // is equivalent to constructing with the underlying from_euler call used by the impl
    let e = Vec3::new(12.0_f32, -34.0_f32, 56.0_f32);

    let q_via_helper = quat(FloatMath.euler_to_quat(vec3_bits(e)));

    // The implementation uses TRACKS_EULER_ROT and passes components (z, x, y) as radians
    let q_expected = Quat::from_euler(
        TRACKS_EULER_ROT,
        e.z.to_radians(),
        e.x.to_radians(),
        e.y.to_radians(),
    );

    assert!(approx_eq(q_via_helper.x, q_expected.x, 1e-4));
    assert!(approx_eq(q_via_helper.y, q_expected.y, 1e-4));
    assert!(approx_eq(q_via_helper.z, q_expected.z, 1e-4));
    assert!(approx_eq(q_via_helper.w, q_expected.w, 1e-4));
}

fn curve_of(points: &[(f32, f32)]) -> FloatPointDefinition {
    FloatPointDefinition::new(points.iter().map(|(v, t)| float_point(*v, *t)).collect())
}

fn value_at(def: &FloatPointDefinition, time: f32) -> (f32, bool) {
    let ctx = BaseProviderContext::new();
    let (v, last) = def.interpolate(bits(time), &ctx, &FloatMath);
    (num(v), last)
}

// The value between two keyframes is the blend of the pair that encloses
// the time; before the first keyframe it is the first value, from the last
// keyframe on the last value, at the end.
#[test]
fn interpolate_selects_the_enclosing_pair() {
    let def = curve_of(&[(0.0, 0.0), (10.0, 1.0), (30.0, 2.0), (30.0, 2.0), (70.0, 4.0)]);
    assert_eq!(value_at(&def, -1.0), (0.0, false));
    assert_eq!(value_at(&def, 0.0), (0.0, false));
    assert_eq!(value_at(&def, 0.5), (5.0, false));
    assert_eq!(value_at(&def, 1.0), (10.0, false));
    assert_eq!(value_at(&def, 1.5), (20.0, false));
    // at a time that two keyframes share, the later of them is the left one
    assert_eq!(value_at(&def, 2.0), (30.0, false));
    assert_eq!(value_at(&def, 3.0), (50.0, false));
    assert_eq!(value_at(&def, 4.0), (70.0, true));
    assert_eq!(value_at(&def, 9.0), (70.0, true));

    let points = def.get_points();
    assert_eq!(search_index(points, bits(0.5)), (0, 1));
    assert_eq!(search_index(points, bits(1.0)), (1, 2));
    assert_eq!(search_index(points, bits(2.0)), (3, 4));
    assert_eq!(search_index(points, bits(3.9)), (3, 4));
    assert_eq!(def.search_index(points, bits(1.5)), (1, 2));
}

#[test]
fn an_empty_curve_has_the_default_value_of_its_kind() {
    let ctx = BaseProviderContext::new();
    let f = FloatPointDefinition::new(vec![]);
    assert_eq!(f.interpolate(bits(0.5), &ctx, &FloatMath), (bits(0.0), true));
    let q = BasePointDefinition::Quaternion(QuaternionPointDefinition::new(vec![]));
    let (v, last) = q.interpolate(bits(0.5), &ctx, &FloatMath);
    assert!(last);
    assert_eq!(v.as_quat(), Some(quat_bits(Quat::IDENTITY)));
    assert!(matches!(BasePointDefinition::default(), BasePointDefinition::Float(_)));
}

#[test]
fn a_time_that_is_not_a_number_on_one_keyframe() {
    let def = curve_of(&[(7.0, 1.0)]);
    assert_eq!(value_at(&def, f32::NAN), (7.0, false));
    assert_eq!(value_at(&def, 0.0), (7.0, false));
    assert_eq!(value_at(&def, 1.0), (7.0, true));
}

// Linear interpolation between (a, 0) and (b, 1) at 0.5 is the mean.
#[test]
fn linear_midpoint_is_the_mean() {
    for (a, b) in [(0.0f32, 10.0f32), (-4.0, 4.0), (2.5, 3.5), (100.0, -50.0)] {
        let def = curve_of(&[(a, 0.0), (b, 1.0)]);
        assert_eq!(value_at(&def, 0.5), ((a + b) / 2.0, false));
    }
}

#[test]
fn the_easing_of_the_right_keyframe_shapes_the_stretch() {
    let ctx = BaseProviderContext::new();
    let def = FloatPointDefinition::new(vec![
        float_point(0.0, 0.0),
        PointData::Float(FloatPointData::new(
            FloatValues::Static(bits(8.0)),
            bits(2.0),
            vec![],
            Functions::EaseInQuad,
        )),
    ]);
    // half of the way, eased to a quarter
    assert_eq!(def.interpolate(bits(1.0), &ctx, &FloatMath), (bits(2.0), false));
    // two keyframes at one time: no way between them, the blend stands at zero
    let def = FloatPointDefinition::new(vec![
        float_point(1.0, 0.0),
        float_point(5.0, 1.0),
        float_point(9.0, 1.0),
        float_point(9.0, 2.0),
    ]);
    assert_eq!(def.interpolate(bits(1.0), &ctx, &FloatMath), (bits(9.0), false));
}

// The slerp at 0.5 between two rotations about orthogonal axes is the
// shortest-arc midpoint.
#[test]
fn slerp_midpoint_matches_an_independent_reference() {
    let ctx = BaseProviderContext::new();
    let a = Quat::from_rotation_x(std::f32::consts::FRAC_PI_2);
    let b = Quat::from_rotation_y(std::f32::consts::FRAC_PI_2);
    let def = QuaternionPointDefinition::new(vec![
        quat_point(Vec3::ZERO, a, 0.0),
        quat_point(Vec3::ZERO, b, 1.0),
    ]);
    let (mid, last) = def.interpolate(bits(0.5), &ctx, &FloatMath);
    let mid = quat(mid);
    assert!(!last);
    // reference: sin-weighted sum of the two unit quaternions
    let cos = a.dot(b);
    let theta = cos.acos();
    let w = (0.5 * theta).sin() / theta.sin();
    let reference = Quat::from_xyzw(
        w * (a.x + b.x),
        w * (a.y + b.y),
        w * (a.z + b.z),
        w * (a.w + b.w),
    );
    assert!(approx_eq(mid.x, reference.x, 1e-4));
    assert!(approx_eq(mid.y, reference.y, 1e-4));
    assert!(approx_eq(mid.z, reference.z, 1e-4));
    assert!(approx_eq(mid.w, reference.w, 1e-4));
    assert!(approx_eq(mid.length(), 1.0, 1e-4));
}

fn leaf(value: f32, operation: Operation) -> Modifier {
    Modifier::Float(FloatModifier::new(
        FloatValues::Static(bits(value)),
        vec![],
        operation,
    ))
}

fn folded(base: f32, children: Vec<Modifier>) -> f32 {
    let ctx = BaseProviderContext::new();
    let m = Modifier::Float(FloatModifier::new(
        FloatValues::Static(bits(base)),
        children,
        Operation::Replace,
    ));
    num(m.get_float(&ctx, &FloatMath))
}

// Children are applied from the first to the last.
#[test]
fn modifiers_fold_from_left_to_right() {
    // (2 + 3) * 4
    assert_eq!(
        folded(2.0, vec![leaf(3.0, Operation::Add), leaf(4.0, Operation::Mul)]),
        20.0
    );
    // swapping the operations changes the result: (2 * 3) + 4
    assert_eq!(
        folded(2.0, vec![leaf(3.0, Operation::Mul), leaf(4.0, Operation::Add)]),
        10.0
    );
    assert_eq!(
        folded(2.0, vec![leaf(3.0, Operation::Sub), leaf(4.0, Operation::Div)]),
        -0.25
    );
    // a child without an operation replaces what stands before it
    assert_eq!(
        folded(2.0, vec![leaf(3.0, Operation::Add), leaf(9.0, Operation::Replace)]),
        9.0
    );
    assert_eq!(folded(2.0, vec![]), 2.0);
}

#[test]
fn modifiers_nest_and_act_on_every_component() {
    let ctx = BaseProviderContext::new();
    // 1 + (2 * 5) on every component of a vector
    let inner = Modifier::Vector3(Vector3Modifier::new(
        Vector3Values::Static(vec3_bits(Vec3::new(5.0, 6.0, 7.0))),
        vec![],
        Operation::Mul,
    ));
    let child = Modifier::Vector3(Vector3Modifier::new(
        Vector3Values::Static(vec3_bits(Vec3::new(2.0, 2.0, 2.0))),
        vec![inner],
        Operation::Add,
    ));
    assert!(!child.has_base_provider());
    assert!(child.get_operation() == Operation::Add);
    let m = Modifier::Vector3(Vector3Modifier::new(
        Vector3Values::Static(vec3_bits(Vec3::new(1.0, 1.0, 1.0))),
        vec![child],
        Operation::Replace,
    ));
    assert_eq!(vec3(m.get_vector3(&ctx, &FloatMath)), Vec3::new(11.0, 13.0, 15.0));
}

#[test]
fn rotation_modifiers_act_on_angles() {
    let ctx = BaseProviderContext::new();
    let child = Modifier::Quaternion(QuaternionModifier::new(
        QuaternionValues::Static(vec3_bits(Vec3::new(0.0, 45.0, 0.0)), quat_bits(Quat::IDENTITY)),
        vec![],
        Operation::Add,
    ));
    let m = Modifier::Quaternion(QuaternionModifier::new(
        QuaternionValues::Static(vec3_bits(Vec3::new(0.0, 45.0, 0.0)), quat_bits(Quat::IDENTITY)),
        vec![child],
        Operation::Replace,
    ));
    assert_eq!(vec3(m.get_vector_point(&ctx, &FloatMath)), Vec3::new(0.0, 90.0, 0.0));
    let q = quat(m.get_quaternion(&ctx, &FloatMath));
    let expected = from_unity_euler_degrees(Vec3::new(0.0, 90.0, 0.0));
    assert!(approx_eq(q.dot(expected).abs(), 1.0, 1e-5));
    // without children, the fixed rotation is given as it stands
    let fixed = Quat::from_rotation_z(1.0);
    let m = QuaternionModifier::new(
        QuaternionValues::Static(vec3_bits(Vec3::ZERO), quat_bits(fixed)),
        vec![],
        Operation::Replace,
    );
    assert_eq!(m.get_raw_point(), quat_bits(fixed));
    assert_eq!(Modifier::Quaternion(m).get_quaternion(&ctx, &FloatMath), quat_bits(fixed));
}

#[test]
fn a_modifier_is_live_where_it_or_a_child_reads_providers() {
    let fixed = leaf(1.0, Operation::Add);
    assert!(!fixed.has_base_provider());
    let live = Modifier::Float(FloatModifier::new(
        FloatValues::Dynamic(vec![ValueProvider::BaseProvider(BaseProviderValues::new(
            "baseCombo".to_string(),
        ))]),
        vec![],
        Operation::Add,
    ));
    assert!(live.has_base_provider());
    assert!(!shared_has_base_provider(false, &[leaf(1.0, Operation::Add)]));
    assert!(shared_has_base_provider(true, &[]));
    let parent = FloatModifier::new(FloatValues::Static(bits(0.0)), vec![fixed, live], Operation::Replace);
    assert!(parent.has_base_provider());
    assert_eq!(parent.get_raw_point(), bits(0.0));
    assert!(parent.get_operation() == Operation::Replace);
}

#[test]
fn static_values_of_modifier_values() {
    let s: ModifierValues<u32> = ModifierValues::Static(7);
    assert_eq!(s.as_static_values(), Some(&7));
    assert_eq!(s.static_values(), Some(7));
    let d: ModifierValues<u32> = ModifierValues::Dynamic(vec![]);
    assert_eq!(d.as_static_values(), None);
    assert_eq!(d.static_values(), None);
}

// Blending red and green by hue goes through yellow; the plain blend does not.
#[test]
fn hsv_blend_of_red_and_green_is_yellow() {
    let ctx = BaseProviderContext::new();
    let red = Vec4::new(1.0, 0.0, 0.0, 1.0);
    let green = Vec4::new(0.0, 1.0, 0.0, 1.0);
    let by_hue = Vector4PointDefinition::new(vec![
        vec4_point(red, true, 0.0),
        vec4_point(green, false, 1.0),
    ]);
    let (c, last) = by_hue.interpolate(bits(0.5), &ctx, &FloatMath);
    assert!(!last);
    let hsv = FloatMath.rgb_to_hsv([c[0], c[1], c[2]]);
    assert!(approx_eq(num(hsv[0]), std::f32::consts::FRAC_PI_3, 1e-4));
    assert!(approx_eq(num(hsv[1]), 1.0, 1e-5));
    assert!(approx_eq(num(hsv[2]), 1.0, 1e-5));
    assert_eq!(num(c[3]), 1.0);

    let plain = Vector4PointDefinition::new(vec![
        vec4_point(red, false, 0.0),
        vec4_point(green, false, 1.0),
    ]);
    let (p, _) = plain.interpolate(bits(0.5), &ctx, &FloatMath);
    assert_eq!(vec4(p), Vec4::new(0.5, 0.5, 0.0, 1.0));
    assert!(vec4(c) != vec4(p));
}

#[test]
fn hue_moves_along_the_shorter_arc() {
    // from a hue of 170 degrees to one of -170 degrees, the short way is over 180
    let a = FloatMath.hsv_to_rgb([bits(170f32.to_radians()), bits(1.0), bits(1.0)]);
    let b = FloatMath.hsv_to_rgb([bits((-170f32).to_radians()), bits(1.0), bits(1.0)]);
    let c = lerp_hsv_vec4(
        [a[0], a[1], a[2], bits(0.0)],
        [b[0], b[1], b[2], bits(1.0)],
        bits(0.5),
        &FloatMath,
    );
    let hue = num(FloatMath.rgb_to_hsv([c[0], c[1], c[2]])[0]).to_degrees();
    assert!(approx_eq(hue.abs(), 180.0, 1e-2), "hue {}", hue);
    assert_eq!(num(c[3]), 0.5);
}

// The spline passes through its keyframes, and is a line through keys on a line.
#[test]
fn catmull_rom_passes_through_the_keyframes() {
    let ctx = BaseProviderContext::new();
    let smooth = |v: Vec3, t: f32| {
        PointData::Vector3(Vector3PointData::new(
            Vector3Values::Static(vec3_bits(v)),
            true,
            bits(t),
            vec![],
            Functions::EaseLinear,
        ))
    };
    let keys = [
        Vec3::new(0.0, 0.0, 0.0),
        Vec3::new(1.0, 2.0, 0.0),
        Vec3::new(3.0, 1.0, 5.0),
        Vec3::new(4.0, 4.0, 4.0),
    ];
    let def = Vector3PointDefinition::new(
        keys.iter().enumerate().map(|(i, k)| smooth(*k, i as f32)).collect(),
    );
    // the blend of a stretch at its two ends is the keyframe there
    let points = def.get_points();
    for i in 0..3 {
        let at_start = vec3(def.interpolate_points(points, i, i + 1, bits(0.0), &ctx, &FloatMath));
        let at_end = vec3(def.interpolate_points(points, i, i + 1, bits(1.0), &ctx, &FloatMath));
        assert!((at_start - keys[i]).length() < 1e-5);
        assert!((at_end - keys[i + 1]).length() < 1e-5);
    }
    let (v, _) = def.interpolate(bits(1.0), &ctx, &FloatMath);
    assert!((vec3(v) - keys[1]).length() < 1e-5);

    // keys at even steps on a line: the spline is the line
    let line: Vec<Vec3> = (0..4).map(|i| Vec3::new(i as f32, 2.0 * i as f32, -(i as f32))).collect();
    let p = spline(
        &FloatMath,
        vec3_bits(line[0]),
        vec3_bits(line[1]),
        vec3_bits(line[2]),
        vec3_bits(line[3]),
        bits(0.25),
    );
    assert!((vec3(p) - line[1].lerp(line[2], 0.25)).length() < 1e-5);
    // an exact value of the formula: the weights at 0.5 are -1/16, 9/16, 9/16, -1/16
    let p = spline(
        &FloatMath,
        vec3_bits(Vec3::new(16.0, 0.0, 0.0)),
        vec3_bits(Vec3::new(0.0, 16.0, 0.0)),
        vec3_bits(Vec3::new(0.0, 0.0, 16.0)),
        vec3_bits(Vec3::new(16.0, 16.0, 16.0)),
        bits(0.5),
    );
    assert_eq!(vec3(p), Vec3::new(-2.0, 8.0, 8.0));
}

#[test]
fn the_spline_uses_the_end_keyframes_twice() {
    let ctx = BaseProviderContext::new();
    let smooth = |v: f32, t: f32| {
        PointData::Vector3(Vector3PointData::new(
            Vector3Values::Static(vec3_bits(Vec3::splat(v))),
            true,
            bits(t),
            vec![],
            Functions::EaseLinear,
        ))
    };
    let def = Vector3PointDefinition::new(vec![smooth(0.0, 0.0), smooth(16.0, 1.0)]);
    // the keyframe before is the first, the one after is the last:
    // 0.5 * (9/8 + -1/8) * 16 = 8
    let (v, last) = def.interpolate(bits(0.5), &ctx, &FloatMath);
    assert_eq!((vec3(v), last), (Vec3::splat(8.0), false));
}

#[test]
fn groups_of_a_written_keyframe() {
    assert!(group(&number(1.0)) == GroupType::Value);
    assert!(group(&JsonValue::Null) == GroupType::Value);
    assert!(group(&text("baseCombo")) == GroupType::Value);
    assert!(group(&text("easeInQuad")) == GroupType::Flag);
    assert!(group(&text("bas")) == GroupType::Flag);
    assert!(group(&list(vec![])) == GroupType::Modifier);

    let point = list(vec![
        text("lerpHSV"),
        number(1.0),
        list(vec![number(2.0), text("opAdd")]),
        text("baseCombo"),
        text("easeStep"),
        number(0.5),
    ]);
    let groups = group_values(&point);
    assert_eq!(groups.len(), 3);
    assert!(groups[0].0 == GroupType::Value);
    assert_eq!(groups[0].1.len(), 3);
    assert!(matches!(groups[0].1[1], JsonValue::String(s) if s == "baseCombo"));
    assert!(groups[1].0 == GroupType::Flag);
    assert_eq!(groups[1].1.len(), 2);
    assert!(matches!(groups[1].1[0], JsonValue::String(s) if s == "lerpHSV"));
    assert!(groups[2].0 == GroupType::Modifier);
    assert_eq!(groups[2].1.len(), 1);

    assert!(group_values(&number(1.0)).is_empty());
    assert_eq!(group_values(&numbers(&[1.0, 2.0])).len(), 1);
    assert!(point.value_type() == JsonValueType::Array);
    assert!(JsonValue::Null.value_type() == JsonValueType::Null);
    assert!(number(1.0).value_type() == JsonValueType::Number);
    assert!(text("x").value_type() == JsonValueType::String);
}

#[test]
fn values_read_as_runs_of_numbers_and_channels() {
    let ctx = BaseProviderContext::new();
    let (a, b, c, d, e) = (
        number(1.0),
        number(2.0),
        text("baseHeadRotation.x"),
        JsonValue::Null,
        text("baseCombo"),
    );
    let providers = deserialize_values(&vec![&a, &b, &c, &d, &e], &ctx).unwrap();
    assert_eq!(providers.len(), 4);
    let widths: Vec<usize> = providers.iter().map(|p| p.count()).collect();
    // two numbers, three angles, a run of one node without a number, one number
    assert_eq!(widths, vec![2, 3, 0, 1]);
    assert!(matches!(&providers[0], ValueProvider::Static(s) if s.values() == vec![bits(1.0), bits(2.0)]));
    assert!(matches!(&providers[1], ValueProvider::QuaternionProvider(_)));
    assert!(matches!(&providers[3], ValueProvider::BaseProvider(b) if b.base == "baseCombo"));
    assert!(!providers[0].has_base_provider());
    assert!(providers[1].has_base_provider());

    let bad = text("baseNothing");
    assert!(matches!(
        deserialize_values(&vec![&a, &bad], &ctx),
        Err(ParseError::UnknownChannel)
    ));
    assert!(deserialize_values(&vec![], &ctx).unwrap().is_empty());
}

#[test]
fn a_written_curve_reads_as_keyframes() {
    let ctx = BaseProviderContext::new();
    let tree = list(vec![
        numbers(&[0.0, 0.0]),
        JsonValue::Null,
        list(vec![number(10.0), number(1.0), text("easeInQuad")]),
        list(vec![text("easeStep")]),
        list(vec![number(4.0), number(2.0), text("easeNothing"), text("easeStep")]),
    ]);
    let def = FloatPointDefinition::parse(&tree, &ctx, &FloatMath).unwrap();
    assert_eq!(def.get_count(), 3);
    let points = def.get_points();
    assert_eq!(points[1].get_time(), bits(1.0));
    assert!(points[0].get_easing() == Functions::EaseLinear);
    assert!(points[1].get_easing() == Functions::EaseInQuad);
    // the first flag that starts with `ease` decides, and names no curve
    assert!(points[2].get_easing() == Functions::EaseLinear);
    assert!(!def.has_base_provider());
    assert!(def.get_type() == WrapBaseValueType::Float);
    assert_eq!(def.interpolate(bits(0.5), &ctx, &FloatMath), (bits(2.5), false));
    assert_eq!(def.get_point(&points[2], &ctx, &FloatMath), bits(4.0));
}

#[test]
fn a_list_without_inner_lists_is_one_keyframe_at_zero() {
    let ctx = BaseProviderContext::new();
    let def = Vector3PointDefinition::parse(&numbers(&[1.0, 2.0, 3.0]), &ctx, &FloatMath).unwrap();
    assert_eq!(def.get_count(), 1);
    assert_eq!(def.get_points()[0].get_time(), bits(0.0));
    assert_eq!(
        def.interpolate(bits(0.5), &ctx, &FloatMath),
        (vec3_bits(Vec3::new(1.0, 2.0, 3.0)), true)
    );
    let points = parse(WrapBaseValueType::Float, &numbers(&[5.0]), &ctx, &FloatMath).unwrap();
    assert_eq!(points.len(), 1);
    assert_eq!(points[0].get_float(&ctx, &FloatMath), bits(5.0));
}

#[test]
fn written_modifiers_and_flags() {
    let mut ctx = BaseProviderContext::new();
    ctx.set_values("baseCombo", BaseValue::Float(bits(3.0)));
    // (1 + combo) * 2 at time 0.5, blended by hue flag ignored for numbers
    let tree = list(vec![list(vec![
        number(1.0),
        number(0.5),
        list(vec![text("baseCombo"), text("opAdd")]),
        list(vec![number(2.0), text("opMul")]),
    ])]);
    let def = FloatPointDefinition::parse(&tree, &ctx, &FloatMath).unwrap();
    assert!(def.has_base_provider());
    assert_eq!(def.interpolate(bits(0.0), &ctx, &FloatMath), (bits(8.0), false));
    ctx.set_values("baseCombo", BaseValue::Float(bits(4.0)));
    assert_eq!(def.interpolate(bits(1.0), &ctx, &FloatMath), (bits(10.0), true));

    let tree = list(vec![
        list(vec![number(1.0), number(0.0), number(0.0), number(1.0), number(0.0), text("lerpHSV")]),
        list(vec![number(0.0), number(1.0), number(0.0), number(1.0), number(1.0)]),
    ]);
    let def = Vector4PointDefinition::parse(&tree, &ctx, &FloatMath).unwrap();
    assert!(def.get_points()[0].hsv_lerp());
    assert!(!def.get_points()[1].hsv_lerp());
    let tree = list(vec![
        list(vec![number(0.0), number(0.0), number(0.0), number(0.0)]),
        list(vec![number(1.0), number(1.0), number(1.0), number(1.0), text("splineCatmullRom")]),
    ]);
    let def = Vector3PointDefinition::parse(&tree, &ctx, &FloatMath).unwrap();
    assert!(!def.get_points()[0].smooth());
    assert!(def.get_points()[1].smooth());
}

#[test]
fn a_keyframe_of_providers_takes_its_time_from_the_last_value() {
    let mut ctx = BaseProviderContext::new();
    ctx.set_values("baseEnergy", BaseValue::Float(bits(0.75)));
    let (a, b) = (text("baseEnergy"), number(2.0));
    let values = deserialize_values(&vec![&a, &b], &ctx).unwrap();
    let p = create_point_data(
        WrapBaseValueType::Float,
        values,
        vec![],
        vec![],
        Functions::EaseLinear,
        &ctx,
        &FloatMath,
    )
    .unwrap();
    assert_eq!(p.get_time(), bits(2.0));
    assert!(p.has_base_provider());
    assert_eq!(p.get_point(&ctx, &FloatMath).as_float(), Some(bits(0.75)));
    assert!(p.get_type() == WrapBaseValueType::Float);

    // as many values as the kind is built from: the time is zero
    let values = deserialize_values(&vec![&a], &ctx).unwrap();
    let p = create_point_data(
        WrapBaseValueType::Float,
        values,
        vec!["lerpHSV".to_string()],
        vec![],
        Functions::EaseStep,
        &ctx,
        &FloatMath,
    )
    .unwrap();
    assert_eq!(p.get_time(), bits(0.0));
    assert!(p.get_easing() == Functions::EaseStep);
    assert!(!p.hsv_lerp());
}

#[test]
fn every_fault_of_a_written_curve() {
    let ctx = BaseProviderContext::new();
    let float = |tree: &JsonValue| FloatPointDefinition::parse(tree, &ctx, &FloatMath).map(|d| d.get_count());
    assert_eq!(float(&number(1.0)), Err(ParseError::Malformed));
    assert_eq!(float(&list(vec![])), Err(ParseError::Malformed));
    assert_eq!(float(&list(vec![numbers(&[1.0, 2.0, 3.0])])), Err(ParseError::Arity));
    assert_eq!(float(&list(vec![list(vec![text("baseWrong"), number(1.0)])])), Err(ParseError::UnknownChannel));
    // a list of one number is a keyframe without a time
    assert_eq!(float(&list(vec![numbers(&[1.0])])), Ok(1));
    // a modifier without values, and one without an operation
    assert_eq!(
        float(&list(vec![list(vec![number(1.0), number(0.0), list(vec![text("opAdd")])])])),
        Err(ParseError::Malformed)
    );
    assert_eq!(
        float(&list(vec![list(vec![number(1.0), number(0.0), list(vec![number(2.0)])])])),
        Err(ParseError::Malformed)
    );
    assert_eq!(
        float(&list(vec![list(vec![number(1.0), number(0.0), list(vec![number(2.0), number(3.0), text("opAdd")])])])),
        Err(ParseError::Arity)
    );
    // the first fault in reading order is reported
    assert_eq!(
        float(&list(vec![numbers(&[1.0, 2.0, 3.0]), list(vec![text("baseWrong")])])),
        Err(ParseError::Arity)
    );
    assert!(matches!(
        deserialize_modifier(WrapBaseValueType::Float, &number(1.0), &ctx, &FloatMath),
        Err(ParseError::Malformed)
    ));
    let m = deserialize_modifier(
        WrapBaseValueType::Vec3,
        &list(vec![number(1.0), number(2.0), number(3.0), text("opSub")]),
        &ctx,
        &FloatMath,
    )
    .unwrap();
    assert!(m.get_operation() == Operation::Sub);
    assert_eq!(m.get_vector3(&ctx, &FloatMath), vec3_bits(Vec3::new(1.0, 2.0, 3.0)));
    assert!(matches!(
        create_modifier(WrapBaseValueType::Vec4, vec![], vec![], Operation::Add, &FloatMath),
        Err(ParseError::Arity)
    ));
}

#[test]
fn static_values_hold_their_numbers() {
    let s = StaticValues::new(&[1, 2, 3, 4, 5, 6]);
    assert_eq!(s.len(), 6);
    assert_eq!(s.values(), vec![1, 2, 3, 4, 5, 6]);
    assert_eq!(StaticValues::new(&[]).len(), 0);
    let ctx = BaseProviderContext::new();
    let p = ValueProvider::Static(StaticValues::new(&[7, 8]));
    assert_eq!(p.values(&ctx, &FloatMath), vec![7, 8]);
    assert_eq!(p.count(), 2);
}

#[test]
fn providers_of_channels_follow_the_context() {
    let mut ctx = BaseProviderContext::new();
    let p = ctx.get_value_provider("baseNote0Color");
    assert_eq!(p.count(), 4);
    assert_eq!(p.values(&ctx, &FloatMath), vec![0, 0, 0, 0]);
    ctx.set_values(
        "baseNote0Color",
        BaseValue::Vector4(vec4_bits(Vec4::new(0.25, 0.5, 0.75, 1.0))),
    );
    assert_eq!(p.values(&ctx, &FloatMath), vec4_bits(Vec4::new(0.25, 0.5, 0.75, 1.0)).to_vec());

    // a rotation is given as its three angles; what follows the `.` is ignored
    let r = ctx.get_value_provider("baseHeadLocalRotation.something.else");
    assert!(matches!(&r, ValueProvider::QuaternionProvider(_)));
    ctx.set_values(
        "baseHeadLocalRotation",
        BaseValue::Quaternion(quat_bits(from_unity_euler_degrees(Vec3::new(10.0, 20.0, 30.0)))),
    );
    let angles = r.values(&ctx, &FloatMath);
    assert_eq!(angles.len(), 3);
    assert!(approx_eq(num(angles[0]), 10.0, 1e-3));
    assert!(approx_eq(num(angles[1]), 20.0, 1e-3));
    assert!(approx_eq(num(angles[2]), 30.0, 1e-3));
    let q = QuaternionProviderValues::new(ValueProvider::BaseProvider(BaseProviderValues::new(
        "baseHeadLocalRotation".to_string(),
    )));
    assert_eq!(q.values(&ctx, &FloatMath), angles);
}

#[test]
fn updated_providers() {
    let ctx = BaseProviderContext::new();
    let mut partial = PartialProviderValues::new(vec![10, 20, 30, 40], vec![3, 1]);
    assert_eq!(partial.values(), vec![0, 0]);
    partial.update(bits(0.5));
    assert_eq!(partial.values(), vec![40, 20]);
    let mut p = ValueProvider::PartialProvider(PartialProviderValues::new(vec![5, 6], vec![1]));
    p.update(bits(0.0), &ctx, &FloatMath);
    assert_eq!(p.values(&ctx, &FloatMath), vec![6]);

    let target = ValueProvider::Static(StaticValues::new(&[bits(8.0), bits(-4.0)]));
    let mut smooth = SmoothProvidersValues::new(Box::new(target), bits(1.0));
    assert_eq!(smooth.values(&ctx, &FloatMath), vec![bits(0.0), bits(0.0)]);
    smooth.update(bits(0.5), &ctx, &FloatMath);
    assert!(smooth.has_updated);
    assert_eq!(smooth.values(&ctx, &FloatMath), vec![bits(4.0), bits(-2.0)]);
    // the step is limited to one
    smooth.update(bits(3.0), &ctx, &FloatMath);
    assert_eq!(smooth.values(&ctx, &FloatMath), vec![bits(8.0), bits(-4.0)]);

    let goal = Quat::from_rotation_y(1.0);
    let mut rot = SmoothRotationProvidersValues::new(quat_bits(goal), bits(2.0));
    assert_eq!(rot.values(), vec![bits(0.0); 3]);
    rot.update(bits(0.25), &FloatMath);
    let expected = Quat::IDENTITY.slerp(goal, 0.5);
    assert_eq!(rot.last_quaternion, quat_bits(expected));
    assert_eq!(rot.values(), vec3_bits(to_unity_euler_degrees(expected)).to_vec());
}
