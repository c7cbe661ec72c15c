//! Tests that carry the quaternion plans out against the native math
//! library, the way the binding itself does.

use pyglam::quat::{quat_mul_plan, QuatMulPlan, QuatOperand};
use pyglam::OperandSide;
use pyglam::{BindingError, Coercion, Precision};

/// A host value as it reaches quaternion multiplication.
#[derive(Clone, Copy)]
enum QuatHostValue {
    SingleQuat(glam::Quat),
    DoubleQuat(glam::DQuat),
    SingleVec(glam::Vec3),
    DoubleVec(glam::DVec3),
    Text(&'static str),
}

fn classify(value: QuatHostValue) -> QuatOperand {
    match value {
        QuatHostValue::SingleQuat(_) => QuatOperand::Quat(Precision::Single),
        QuatHostValue::DoubleQuat(_) => QuatOperand::Quat(Precision::Double),
        QuatHostValue::SingleVec(_) => QuatOperand::Vector(Precision::Single),
        QuatHostValue::DoubleVec(_) => QuatOperand::Vector(Precision::Double),
        QuatHostValue::Text(_) => QuatOperand::Other,
    }
}

/// Either result of an f64 quaternion multiplication.
enum DoubleMulResult {
    Quat(glam::DQuat),
    Vec(glam::DVec3),
}

/// One overloaded multiplication call on an f64 quaternion receiver.
fn double_quat_mul(
    receiver: glam::DQuat,
    side: OperandSide,
    value: QuatHostValue,
) -> Result<DoubleMulResult, BindingError> {
    let plan = quat_mul_plan(Precision::Double, side, classify(value))?;
    Ok(match (plan, value) {
        (QuatMulPlan::Compose(Coercion::Identity), QuatHostValue::DoubleQuat(q)) => {
            DoubleMulResult::Quat(receiver * q)
        }
        (QuatMulPlan::Compose(Coercion::Cast), QuatHostValue::SingleQuat(q)) => {
            let cast = glam::DQuat::from_xyzw(q.x as f64, q.y as f64, q.z as f64, q.w as f64);
            DoubleMulResult::Quat(receiver * cast)
        }
        (QuatMulPlan::Rotate(Coercion::Identity), QuatHostValue::DoubleVec(v)) => {
            DoubleMulResult::Vec(receiver * v)
        }
        (QuatMulPlan::Rotate(Coercion::Cast), QuatHostValue::SingleVec(v)) => {
            let cast = glam::DVec3::new(v.x as f64, v.y as f64, v.z as f64);
            DoubleMulResult::Vec(receiver * cast)
        }
        _ => panic!("plan does not fit the operand"),
    })
}

/// One overloaded multiplication call on an f32 quaternion receiver, for the
/// vector case only.
fn single_quat_rotate(
    receiver: glam::Quat,
    side: OperandSide,
    value: QuatHostValue,
) -> Result<glam::Vec3, BindingError> {
    let plan = quat_mul_plan(Precision::Single, side, classify(value))?;
    Ok(match (plan, value) {
        (QuatMulPlan::Rotate(Coercion::Identity), QuatHostValue::SingleVec(v)) => receiver * v,
        (QuatMulPlan::Rotate(Coercion::Cast), QuatHostValue::DoubleVec(v)) => {
            receiver * glam::Vec3::new(v.x as f32, v.y as f32, v.z as f32)
        }
        _ => panic!("plan does not fit the operand"),
    })
}

fn approx(a: f64, b: f64, tol: f64) -> bool {
    (a - b).abs() <= tol
}

fn approx32(a: f32, b: f32, tol: f32) -> bool {
    (a - b).abs() <= tol
}

#[test]
fn test_rotation_arc_carries_from_onto_to() {
    let from = glam::DVec3::new(1.0, 0.0, 0.0);
    let to = glam::DVec3::new(0.0, 1.0, 0.0);
    let q = glam::DQuat::from_rotation_arc(from, to);
    let rotated = match double_quat_mul(q, OperandSide::Right, QuatHostValue::DoubleVec(from)) {
        Ok(DoubleMulResult::Vec(v)) => v,
        _ => panic!("a vector operand must yield a rotated vector"),
    };
    assert!(approx(rotated.x, to.x, 1e-9));
    assert!(approx(rotated.y, to.y, 1e-9));
    assert!(approx(rotated.z, to.z, 1e-9));
}

#[test]
fn test_rotation_arc_near_singular_single_precision() {
    let from = glam::Vec3::new(1.0, 0.0, 0.0);
    let to = glam::Vec3::new(-1.0, 1e-5, 0.0).normalize();
    let q = glam::Quat::from_rotation_arc(from, to);
    let rotated =
        single_quat_rotate(q, OperandSide::Right, QuatHostValue::SingleVec(from)).unwrap();
    assert!(approx32(rotated.x, to.x, 1e-3));
    assert!(approx32(rotated.y, to.y, 1e-3));
    assert!(approx32(rotated.z, to.z, 1e-3));
}

#[test]
fn test_conjugate_composition_is_identity() {
    let axis = glam::DVec3::new(1.0, 2.0, 2.0).normalize();
    let q = glam::DQuat::from_axis_angle(axis, 1.1);
    let composed =
        match double_quat_mul(q, OperandSide::Right, QuatHostValue::DoubleQuat(q.conjugate())) {
            Ok(DoubleMulResult::Quat(r)) => r,
            _ => panic!("a quaternion operand must yield a composed quaternion"),
        };
    assert!(approx(composed.x, 0.0, 1e-12));
    assert!(approx(composed.y, 0.0, 1e-12));
    assert!(approx(composed.z, 0.0, 1e-12));
    assert!(approx(composed.w.abs(), 1.0, 1e-12));
}

#[test]
fn test_quat_composition_order_matters() {
    let qx = glam::DQuat::from_axis_angle(glam::DVec3::new(1.0, 0.0, 0.0), 0.7);
    let qy = glam::DQuat::from_axis_angle(glam::DVec3::new(0.0, 1.0, 0.0), 0.9);
    let xy = match double_quat_mul(qx, OperandSide::Right, QuatHostValue::DoubleQuat(qy)) {
        Ok(DoubleMulResult::Quat(r)) => r,
        _ => panic!("a quaternion operand must yield a composed quaternion"),
    };
    let yx = match double_quat_mul(qy, OperandSide::Right, QuatHostValue::DoubleQuat(qx)) {
        Ok(DoubleMulResult::Quat(r)) => r,
        _ => panic!("a quaternion operand must yield a composed quaternion"),
    };
    assert!(!approx(xy.z, yx.z, 1e-9));
}

#[test]
fn test_rotate_with_cast_operand() {
    let q = glam::DQuat::from_axis_angle(glam::DVec3::new(0.0, 0.0, 1.0), std::f64::consts::FRAC_PI_2);
    let rotated = match double_quat_mul(
        q,
        OperandSide::Right,
        QuatHostValue::SingleVec(glam::Vec3::new(1.0, 0.0, 0.0)),
    ) {
        Ok(DoubleMulResult::Vec(v)) => v,
        _ => panic!("a vector operand must yield a rotated vector"),
    };
    assert!(approx(rotated.x, 0.0, 1e-7));
    assert!(approx(rotated.y, 1.0, 1e-7));
    assert!(approx(rotated.z, 0.0, 1e-7));
}

#[test]
fn test_quat_string_operand_signals_unsupported() {
    let q = glam::DQuat::from_axis_angle(glam::DVec3::new(0.0, 0.0, 1.0), 0.3);
    let result = double_quat_mul(q, OperandSide::Right, QuatHostValue::Text("not a rotation"));
    assert!(matches!(result, Err(BindingError::UnsupportedOperand)));
}
