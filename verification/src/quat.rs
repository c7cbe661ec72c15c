//! Operand dispatch for the quaternion API.
//!
//! Quaternion multiplication is the one overloaded operator on quaternions.
//! It accepts a quaternion of either precision, yielding the composed
//! rotation, or a vector of either precision, yielding the rotated vector;
//! anything else signals the unsupported-operand error.

use crate::BindingError;
use crate::Coercion;
use crate::OperandSide;
use crate::Precision;
use crate::vec3::spec_coercion;
use vstd::prelude::*;

verus! {

/// Classification of a host value handed to quaternion multiplication.
#[derive(Clone, Copy, Debug, PartialEq, Eq, Structural)]
pub enum QuatOperand {
    /// A quaternion of the given precision.
    Quat(Precision),
    /// A 3-component vector of the given precision.
    Vector(Precision),
    /// Any other host value.
    Other,
}

/// Everything the binding must do for one quaternion multiplication call.
/// The result always has the receiver's precision.
#[derive(Clone, Copy, Debug, PartialEq, Eq, Structural)]
pub enum QuatMulPlan {
    /// Coerce the quaternion operand as stated and compose the rotations,
    /// the receiver applied first: the native product `receiver * operand`.
    Compose(Coercion),
    /// Coerce the vector operand as stated and rotate it by the receiver.
    Rotate(Coercion),
}

/// The plan of one quaternion multiplication call. The operand side plays no
/// part: rotating a vector is the same from either side, and the reflected
/// form keeps the receiver as the left factor of a quaternion composition as
/// well.
pub open spec fn spec_quat_mul_plan(
    receiver: Precision,
    side: OperandSide,
    operand: QuatOperand,
) -> Result<QuatMulPlan, BindingError> {
    match operand {
        QuatOperand::Quat(p) => Ok(QuatMulPlan::Compose(spec_coercion(receiver, p))),
        QuatOperand::Vector(p) => Ok(QuatMulPlan::Rotate(spec_coercion(receiver, p))),
        QuatOperand::Other => Err(BindingError::UnsupportedOperand),
    }
}

/// Decide one quaternion multiplication call: a quaternion operand composes,
/// a vector operand is rotated, each coerced to the receiver's precision;
/// everything else signals the unsupported-operand error.
pub fn quat_mul_plan(
    receiver: Precision,
    side: OperandSide,
    operand: QuatOperand,
) -> (r: Result<QuatMulPlan, BindingError>)
    ensures
        r == spec_quat_mul_plan(receiver, side, operand),
        r is Ok <==> operand !is Other,
        r matches Ok(p) ==> (p is Compose <==> operand is Quat),
{
    match operand {
        QuatOperand::Quat(p) => {
            let coercion = if p == receiver {
                Coercion::Identity
            } else {
                Coercion::Cast
            };
            Ok(QuatMulPlan::Compose(coercion))
        },
        QuatOperand::Vector(p) => {
            let coercion = if p == receiver {
                Coercion::Identity
            } else {
                Coercion::Cast
            };
            Ok(QuatMulPlan::Rotate(coercion))
        },
        QuatOperand::Other => Err(BindingError::UnsupportedOperand),
    }
}

/// The side the operand stood on never changes a quaternion multiplication
/// plan: a rotated vector is the same from either side, and a reflected
/// composition keeps the receiver as the left factor as well.
pub proof fn lemma_quat_mul_side_irrelevant(
    receiver: Precision,
    first: OperandSide,
    second: OperandSide,
    operand: QuatOperand,
)
    ensures
        spec_quat_mul_plan(receiver, first, operand) == spec_quat_mul_plan(
            receiver,
            second,
            operand,
        ),
{
}

/// A host value that is neither a quaternion nor a vector is rejected by
/// quaternion multiplication with the unsupported-operand error, never a
/// silent default.
pub proof fn lemma_quat_unsupported_operand_rejected(receiver: Precision, side: OperandSide)
    ensures
        spec_quat_mul_plan(receiver, side, QuatOperand::Other) == Err::<
            QuatMulPlan,
            BindingError,
        >(BindingError::UnsupportedOperand),
{
}

} // verus!
