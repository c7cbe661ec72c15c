//! Dispatch rules for a dynamically-typed 3D math binding.
//!
//! A host language hands each overloaded operator a value of unknown type.
//! This crate decides, for every operator of the vector and quaternion API,
//! whether that operand is accepted, how it must be coerced to the receiver's
//! precision, and which error to signal otherwise. The floating-point work
//! itself is carried out by the surrounding binding against a native math
//! library; everything decided here is exact and verified.

use vstd::prelude::*;

pub mod quat;
pub mod vec3;

verus! {

/// Floating-point precision of a vector or quaternion value.
#[derive(Clone, Copy, Debug, PartialEq, Eq, Structural)]
pub enum Precision {
    /// 32-bit components.
    Single,
    /// 64-bit components.
    Double,
}

impl Precision {
    /// The opposite precision.
    pub open spec fn spec_other(self) -> Precision {
        match self {
            Precision::Single => Precision::Double,
            Precision::Double => Precision::Single,
        }
    }

    /// The opposite precision.
    pub fn other(self) -> (r: Precision)
        ensures
            r == self.spec_other(),
    {
        match self {
            Precision::Single => Precision::Double,
            Precision::Double => Precision::Single,
        }
    }
}

/// The only two error conditions of the binding.
#[derive(Clone, Copy, Debug, PartialEq, Eq, Structural)]
pub enum BindingError {
    /// An operator received a value outside its accepted operand set.
    UnsupportedOperand,
    /// A constructor received an ambiguous partial set of components.
    InvalidArgument,
}

impl BindingError {
    /// The host-facing description of this error.
    pub fn message(self) -> (r: &'static str)
        ensures
            self is UnsupportedOperand ==> r@ == "unsupported operand type"@,
            self is InvalidArgument ==> r@
                == "Either set all values dvec3(1.0, 1.0, 1.0) or only first value to set xyz to same value: dvec3(1.0)"@,
    {
        match self {
            BindingError::UnsupportedOperand => "unsupported operand type",
            BindingError::InvalidArgument => "Either set all values dvec3(1.0, 1.0, 1.0) or only first value to set xyz to same value: dvec3(1.0)",
        }
    }
}

/// Which side of an overloaded operator the host operand stood on. `Right`
/// is the plain form (`receiver op operand`); `Left` is the reflected form
/// the host calls when the receiver stands on the right.
#[derive(Clone, Copy, Debug, PartialEq, Eq, Structural)]
pub enum OperandSide {
    Right,
    Left,
}

/// How an accepted operand is brought to the receiver's precision.
#[derive(Clone, Copy, Debug, PartialEq, Eq, Structural)]
pub enum Coercion {
    /// The operand already has the receiver's precision; use it as is.
    Identity,
    /// The operand has the opposite precision; cast each component to the
    /// receiver's precision.
    Cast,
}

} // verus!
