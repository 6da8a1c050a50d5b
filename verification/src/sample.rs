//! The decisions around one sample of a curve: what stands in for a value
//! that a model cannot give, and which domain a sample is handed out in.

use crate::scalar::{Scalar, ZERO_BITS};
use crate::types::PointScaling;
use vstd::prelude::*;

verus! {

/// What is done to a sample in displacement space before it is handed out.
#[derive(Clone, Copy, Debug, PartialEq, Eq, Structural)]
pub enum Conversion {
    /// The sample is handed out as it is.
    Keep,
    /// The sample is expressed as an output speed.
    ToVelocity,
}

/// The conversion that a scaling calls for, if it has one. The sensitivity
/// scaling keeps the sample; the gain scaling has no mapping; every other
/// scaling goes through the velocity domain.
pub open spec fn conversion_of(scaling: PointScaling) -> Option<Conversion> {
    match scaling {
        PointScaling::Sens => Some(Conversion::Keep),
        PointScaling::Gain => None,
        _ => Some(Conversion::ToVelocity),
    }
}

/// The value of a sample whose model has none at that input: zero.
pub open spec fn or_zero(value: Option<Scalar>) -> Scalar {
    match value {
        Some(v) => v,
        None => Scalar { bits: ZERO_BITS },
    }
}

/// The value of a sample, with zero standing in where the model has none.
pub fn sample_or_zero(value: Option<Scalar>) -> (r: Scalar)
    ensures
        r == or_zero(value),
{
    match value {
        Some(v) => v,
        None => Scalar::zero(),
    }
}

/// The conversion that a scaling calls for, or nothing for the gain
/// scaling, which has none.
pub fn conversion(scaling: PointScaling) -> (r: Option<Conversion>)
    ensures
        r == conversion_of(scaling),
{
    match scaling {
        PointScaling::Sens => Some(Conversion::Keep),
        PointScaling::Gain => None,
        _ => Some(Conversion::ToVelocity),
    }
}

} // verus!
