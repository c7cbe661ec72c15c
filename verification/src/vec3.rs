//! Operand dispatch for the 3-component vector API.
//!
//! Every arithmetic operator on a vector accepts a closed set of host
//! operands: a float scalar, an integer scalar, a vector of either precision.
//! The functions here decide acceptance, the coercion to the receiver's
//! precision, and the order of the native operation, and signal the
//! unsupported-operand error for everything else.

use crate::BindingError;
use crate::Coercion;
use crate::OperandSide;
use crate::Precision;
use vstd::prelude::*;

verus! {

/// Classification of a host value handed to a vector operator.
#[derive(Clone, Copy, Debug, PartialEq, Eq, Structural)]
pub enum VecOperand {
    /// A bare floating-point scalar.
    Float,
    /// A bare integer scalar.
    Int,
    /// A 3-component vector of the given precision.
    Vector(Precision),
    /// Any other host value.
    Other,
}

/// The four arithmetic operators overloaded on vectors.
#[derive(Clone, Copy, Debug, PartialEq, Eq, Structural)]
pub enum VecBinOp {
    Add,
    Sub,
    Mul,
    Div,
}

/// How to build the native operand of an accepted vector operation, always
/// at the receiver's precision.
#[derive(Clone, Copy, Debug, PartialEq, Eq, Structural)]
pub enum VecOperandPlan {
    /// Cast the float scalar to the receiver's precision and repeat it on
    /// all three axes.
    SplatFloat,
    /// Cast the integer scalar to the receiver's precision and repeat it on
    /// all three axes.
    SplatInt,
    /// Use the vector operand, coerced as stated.
    Vector(Coercion),
}

/// Everything the binding must do for one vector arithmetic call.
#[derive(Clone, Copy, Debug, PartialEq, Eq, Structural)]
pub struct VecBinPlan {
    /// How to build the operand at the receiver's precision.
    pub operand: VecOperandPlan,
    /// Whether the coerced operand is the left argument of the native
    /// operation. Only the reflected forms of the non-commutative operators
    /// put it there.
    pub operand_on_left: bool,
}

/// The coercion that brings a value of precision `source` to the receiver's
/// precision.
pub open spec fn spec_coercion(receiver: Precision, source: Precision) -> Coercion {
    if source == receiver {
        Coercion::Identity
    } else {
        Coercion::Cast
    }
}

/// The operand plan of the scale operators, which accept scalars as well as
/// vectors of either precision.
pub open spec fn spec_vec_operand_plan(receiver: Precision, operand: VecOperand) -> Result<
    VecOperandPlan,
    BindingError,
> {
    match operand {
        VecOperand::Float => Ok(VecOperandPlan::SplatFloat),
        VecOperand::Int => Ok(VecOperandPlan::SplatInt),
        VecOperand::Vector(p) => Ok(VecOperandPlan::Vector(spec_coercion(receiver, p))),
        VecOperand::Other => Err(BindingError::UnsupportedOperand),
    }
}

/// Whether the coerced operand stands on the left of the native operation.
/// Vector addition and multiplication are component-wise commutative, so
/// their reflected forms reuse the plain order; reflected subtraction and
/// division must keep the operand on the left.
pub open spec fn spec_operand_on_left(op: VecBinOp, side: OperandSide) -> bool {
    side == OperandSide::Left && (op == VecBinOp::Sub || op == VecBinOp::Div)
}

/// The full plan of one vector arithmetic operator call.
pub open spec fn spec_vec_bin_plan(
    receiver: Precision,
    op: VecBinOp,
    side: OperandSide,
    operand: VecOperand,
) -> Result<VecBinPlan, BindingError> {
    match spec_vec_operand_plan(receiver, operand) {
        Ok(p) => Ok(
            VecBinPlan { operand: p, operand_on_left: spec_operand_on_left(op, side) },
        ),
        Err(e) => Err(e),
    }
}

/// Decide one vector arithmetic operator call: which operands are accepted,
/// how the operand is coerced, and on which side it enters the native
/// operation. Everything outside the accepted set signals the
/// unsupported-operand error.
pub fn vec_bin_plan(
    receiver: Precision,
    op: VecBinOp,
    side: OperandSide,
    operand: VecOperand,
) -> (r: Result<VecBinPlan, BindingError>)
    ensures
        r == spec_vec_bin_plan(receiver, op, side, operand),
        r is Ok <==> operand !is Other,
{
    let on_left = match (op, side) {
        (VecBinOp::Sub, OperandSide::Left) => true,
        (VecBinOp::Div, OperandSide::Left) => true,
        _ => false,
    };
    match operand {
        VecOperand::Float => Ok(VecBinPlan { operand: VecOperandPlan::SplatFloat, operand_on_left: on_left }),
        VecOperand::Int => Ok(VecBinPlan { operand: VecOperandPlan::SplatInt, operand_on_left: on_left }),
        VecOperand::Vector(p) => {
            let coercion = if p == receiver {
                Coercion::Identity
            } else {
                Coercion::Cast
            };
            Ok(VecBinPlan { operand: VecOperandPlan::Vector(coercion), operand_on_left: on_left })
        },
        VecOperand::Other => Err(BindingError::UnsupportedOperand),
    }
}

/// Decide one in-place vector arithmetic operator call. The in-place forms
/// accept exactly the operands of the plain forms and coerce them the same
/// way; having no reflected form, they need no operand order.
pub fn vec_assign_plan(receiver: Precision, operand: VecOperand) -> (r: Result<
    VecOperandPlan,
    BindingError,
>)
    ensures
        r == spec_vec_operand_plan(receiver, operand),
        r is Ok <==> operand !is Other,
{
    match operand {
        VecOperand::Float => Ok(VecOperandPlan::SplatFloat),
        VecOperand::Int => Ok(VecOperandPlan::SplatInt),
        VecOperand::Vector(p) => {
            let coercion = if p == receiver {
                Coercion::Identity
            } else {
                Coercion::Cast
            };
            Ok(VecOperandPlan::Vector(coercion))
        },
        VecOperand::Other => Err(BindingError::UnsupportedOperand),
    }
}

/// The plan of the vector-only operations, dot and cross product. A bare
/// scalar is not a meaningful operand there, so only vectors are accepted.
pub open spec fn spec_vec_vec_plan(receiver: Precision, operand: VecOperand) -> Result<
    Coercion,
    BindingError,
> {
    match operand {
        VecOperand::Vector(p) => Ok(spec_coercion(receiver, p)),
        _ => Err(BindingError::UnsupportedOperand),
    }
}

/// Decide a dot or cross product call: a vector of either precision is
/// accepted and coerced to the receiver's precision; scalars, integers and
/// everything else signal the unsupported-operand error.
pub fn vec_vec_plan(receiver: Precision, operand: VecOperand) -> (r: Result<
    Coercion,
    BindingError,
>)
    ensures
        r == spec_vec_vec_plan(receiver, operand),
        r is Ok <==> operand is Vector,
{
    match operand {
        VecOperand::Vector(p) => {
            let coercion = if p == receiver {
                Coercion::Identity
            } else {
                Coercion::Cast
            };
            Ok(coercion)
        },
        _ => Err(BindingError::UnsupportedOperand),
    }
}

/// How the vector constructor fills its three components.
#[derive(Clone, Copy, Debug, PartialEq, Eq, Structural)]
pub enum CtorShape {
    /// One component was given; repeat it on all three axes.
    Splat,
    /// All three components were given; use each as passed.
    Components,
}

/// The constructor rule: one component broadcasts, three are taken as given,
/// and exactly two are an ambiguous partial specification.
pub open spec fn spec_vec_ctor_plan(has_y: bool, has_z: bool) -> Result<
    CtorShape,
    BindingError,
> {
    if has_y != has_z {
        Err(BindingError::InvalidArgument)
    } else if has_y {
        Ok(CtorShape::Components)
    } else {
        Ok(CtorShape::Splat)
    }
}

/// Decide a vector constructor call from which of the two optional
/// components were supplied beside the first. Supplying exactly one of them
/// signals the invalid-argument error.
pub fn vec_ctor_plan(has_y: bool, has_z: bool) -> (r: Result<CtorShape, BindingError>)
    ensures
        r == spec_vec_ctor_plan(has_y, has_z),
        r is Err <==> has_y != has_z,
{
    if has_y != has_z {
        Err(BindingError::InvalidArgument)
    } else if has_y {
        Ok(CtorShape::Components)
    } else {
        Ok(CtorShape::Splat)
    }
}

/// A host value outside the accepted operand set is rejected by every vector
/// operator — plain, reflected, in-place, dot and cross — with the
/// unsupported-operand error, never a silent default.
pub proof fn lemma_unsupported_operand_rejected(
    receiver: Precision,
    op: VecBinOp,
    side: OperandSide,
)
    ensures
        spec_vec_bin_plan(receiver, op, side, VecOperand::Other) == Err::<
            VecBinPlan,
            BindingError,
        >(BindingError::UnsupportedOperand),
        spec_vec_operand_plan(receiver, VecOperand::Other) == Err::<
            VecOperandPlan,
            BindingError,
        >(BindingError::UnsupportedOperand),
        spec_vec_vec_plan(receiver, VecOperand::Other) == Err::<
            Coercion,
            BindingError,
        >(BindingError::UnsupportedOperand),
{
}

/// Bare scalars are rejected by the vector-only operations, dot and cross,
/// with the unsupported-operand error.
pub proof fn lemma_scalar_rejected_for_vector_only_ops(receiver: Precision)
    ensures
        spec_vec_vec_plan(receiver, VecOperand::Float) == Err::<
            Coercion,
            BindingError,
        >(BindingError::UnsupportedOperand),
        spec_vec_vec_plan(receiver, VecOperand::Int) == Err::<
            Coercion,
            BindingError,
        >(BindingError::UnsupportedOperand),
{
}

/// An in-place operator accepts exactly the operands of its plain form and
/// coerces them the same way; the plain form keeps the operand on the right.
pub proof fn lemma_assign_matches_binary(
    receiver: Precision,
    op: VecBinOp,
    operand: VecOperand,
)
    ensures
        spec_vec_operand_plan(receiver, operand) matches Ok(p) ==> spec_vec_bin_plan(
            receiver,
            op,
            OperandSide::Right,
            operand,
        ) == Ok::<VecBinPlan, BindingError>(
            VecBinPlan { operand: p, operand_on_left: false },
        ),
        spec_vec_operand_plan(receiver, operand) matches Err(e) ==> spec_vec_bin_plan(
            receiver,
            op,
            OperandSide::Right,
            operand,
        ) == Err::<VecBinPlan, BindingError>(e),
{
}

/// The reflected forms of addition and multiplication reuse the plain plan
/// outright; the reflected forms of subtraction and division differ from the
/// plain plan only in putting the operand on the left.
pub proof fn lemma_reflected_forms(receiver: Precision, op: VecBinOp, operand: VecOperand)
    ensures
        op == VecBinOp::Add || op == VecBinOp::Mul ==> spec_vec_bin_plan(
            receiver,
            op,
            OperandSide::Left,
            operand,
        ) == spec_vec_bin_plan(receiver, op, OperandSide::Right, operand),
        spec_vec_bin_plan(receiver, op, OperandSide::Left, operand) matches Ok(l)
            ==> spec_vec_bin_plan(receiver, op, OperandSide::Right, operand) matches Ok(r)
            && l.operand == r.operand,
{
}

/// Supplying exactly one of the two optional components to the vector
/// constructor signals the invalid-argument error.
pub proof fn lemma_partial_ctor_rejected(has_y: bool, has_z: bool)
    requires
        has_y != has_z,
    ensures
        spec_vec_ctor_plan(has_y, has_z) == Err::<CtorShape, BindingError>(
            BindingError::InvalidArgument,
        ),
{
}

} // verus!
