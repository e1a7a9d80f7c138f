//! Small rules of the renderer that belong to no one type.
use crate::scalar::Scalar;
use vstd::prelude::*;

verus! {

/// A channel of linear light as it is written where the image is gamma
/// corrected. `root` is the square root of `linear`: that is the written
/// value of a channel that is zero or more, and any other channel is
/// written as zero.
pub open spec fn spec_linear_to_gamma(linear: Scalar, root: Scalar) -> Scalar {
    if linear.spec_ge(Scalar { bits: 0 }) {
        root
    } else {
        Scalar { bits: 0 }
    }
}

/// A channel of linear light as it is written where the image is gamma
/// corrected, given its square root.
#[verifier::when_used_as_spec(spec_linear_to_gamma)]
pub fn linear_to_gamma(linear: Scalar, root: Scalar) -> (r: Scalar)
    ensures
        r == spec_linear_to_gamma(linear, root),
{
    if linear.ge(Scalar::zero()) {
        root
    } else {
        Scalar::zero()
    }
}

} // verus!
