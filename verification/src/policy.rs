//! The numeric policy and the weighted sum itself.
use core::ops::{Add, Mul};
use vstd::prelude::*;
use vstd::std_specs::ops::{AddSpec, MulSpec};

verus! {

/// A numeric family in which relative luminance can be computed.
///
/// An implementation chooses the type of a channel, the type of a weight and
/// the type of a weighted channel, and gives the three BT.709 weights in its
/// own representation: 0.2126 for red, 0.7152 for green and 0.0722 for blue.
/// The weights are those of the standard; a family chooses how to write
/// them down, not what they are.
pub trait LuminanceValue: Copy + Clone {
    /// The type of one color channel.
    type Channel: Copy + Mul<Self::Weight, Output = Self::Weighted>;

    /// The type of the factor that a channel is multiplied by.
    type Weight;

    /// The type of a channel times its weight, and of the luminance.
    type Weighted: Add<Self::Weighted, Output = Self::Weighted>;

    /// The weight of the red channel, 0.2126.
    const RED_WEIGHT: Self::Weight;

    /// The weight of the green channel, 0.7152.
    const GREEN_WEIGHT: Self::Weight;

    /// The weight of the blue channel, 0.0722.
    const BLUE_WEIGHT: Self::Weight;
}

/// The relative luminance of three channels in the family `T`: the red term,
/// plus the green term, plus the blue term, added in that order.
///
/// Addition in a numeric family need not be associative, so the order is part
/// of the definition.
pub open spec fn weighted_sum<T: LuminanceValue>(
    r: T::Channel,
    g: T::Channel,
    b: T::Channel,
) -> T::Weighted {
    r.mul_spec(T::RED_WEIGHT).add_spec(g.mul_spec(T::GREEN_WEIGHT)).add_spec(
        b.mul_spec(T::BLUE_WEIGHT),
    )
}

/// Whether the operators of the family `T` compute what their specifications
/// say. This holds of the primitive integers.
pub open spec fn faithful<T: LuminanceValue>() -> bool {
    &&& <T::Channel as MulSpec<T::Weight>>::obeys_mul_spec()
    &&& <T::Weighted as AddSpec<T::Weighted>>::obeys_add_spec()
}

/// Whether each of the three products and of the two sums that make up the
/// luminance of `(r, g, b)` is admitted by the operator that computes it: for
/// an integer family, whether none of them overflows.
pub open spec fn representable<T: LuminanceValue>(
    r: T::Channel,
    g: T::Channel,
    b: T::Channel,
) -> bool {
    let red = r.mul_spec(T::RED_WEIGHT);
    let green = g.mul_spec(T::GREEN_WEIGHT);
    let blue = b.mul_spec(T::BLUE_WEIGHT);
    &&& r.mul_req(T::RED_WEIGHT)
    &&& g.mul_req(T::GREEN_WEIGHT)
    &&& b.mul_req(T::BLUE_WEIGHT)
    &&& red.add_req(green)
    &&& red.add_spec(green).add_req(blue)
}

/// Computes the relative luminance of three channels.
///
/// The result is exactly [`weighted_sum`]: each channel times its weight, red
/// first, then green added, then blue added.
pub fn relative_luminance<T: LuminanceValue>(r: T::Channel, g: T::Channel, b: T::Channel) -> (lum:
    T::Weighted)
    requires
        faithful::<T>(),
        representable::<T>(r, g, b),
    ensures
        lum == weighted_sum::<T>(r, g, b),
{
    (r * T::RED_WEIGHT) + (g * T::GREEN_WEIGHT) + (b * T::BLUE_WEIGHT)
}

} // verus!
