//! The container of three channels, and the capability by which any color
//! type reports its luminance.
use crate::policy::{faithful, representable, weighted_sum, LuminanceValue};
use vstd::prelude::*;

verus! {

/// Three color channels of the family `T`, already in the scale in which
/// luminance is computed.
///
/// The container checks nothing: by convention the channels of a floating
/// point family lie between zero and one, and it is for the caller to see to
/// that.
#[derive(Debug)]
pub struct Rgb<T: LuminanceValue> {
    pub r: T::Channel,
    pub g: T::Channel,
    pub b: T::Channel,
}

impl<T: LuminanceValue> Copy for Rgb<T> {}

impl<T: LuminanceValue> Clone for Rgb<T> {
    /// A duplicate has the same three channels.
    fn clone(&self) -> (duplicate: Self)
        ensures
            duplicate == *self,
    {
        *self
    }
}

impl<T: LuminanceValue> Rgb<T> {
    /// The relative luminance of this color.
    pub open spec fn luminance(self) -> T::Weighted {
        weighted_sum::<T>(self.r, self.g, self.b)
    }

    /// Whether the luminance of this color can be computed in `T`.
    pub open spec fn representable(self) -> bool {
        representable::<T>(self.r, self.g, self.b)
    }

    /// Makes a color of the three channels, as they are.
    pub fn new(r: T::Channel, g: T::Channel, b: T::Channel) -> (rgb: Self)
        ensures
            rgb == (Rgb::<T> { r, g, b }),
    {
        Rgb { r, g, b }
    }

    /// Computes the relative luminance of this color.
    pub fn relative_luminance(&self) -> (lum: T::Weighted)
        requires
            faithful::<T>(),
            self.representable(),
        ensures
            lum == self.luminance(),
    {
        crate::policy::relative_luminance::<T>(self.r, self.g, self.b)
    }
}

/// A color type that can report its relative luminance in the family `T`.
///
/// An implementation gives one thing, the conversion of a color into
/// normalized channels. The luminance follows from it.
pub trait Luminance<T: LuminanceValue> {
    /// The normalized channels that stand for this color.
    ///
    /// It is left open here. An implementation that is to be verified says
    /// what it is, since `luminance_rgb` has to return it.
    open spec fn normalized(&self) -> Rgb<T> {
        arbitrary()
    }

    /// Converts this color into its normalized channels.
    fn luminance_rgb(&self) -> (rgb: Rgb<T>)
        ensures
            rgb == self.normalized(),
    ;

    /// Computes the relative luminance of this color: that of its normalized
    /// channels.
    fn relative_luminance(&self) -> (lum: T::Weighted)
        requires
            faithful::<T>(),
            self.normalized().representable(),
        ensures
            lum == self.normalized().luminance(),
    {
        self.luminance_rgb().relative_luminance()
    }
}

impl<T: LuminanceValue> Luminance<T> for Rgb<T> {
    /// Normalized channels stand for themselves.
    open spec fn normalized(&self) -> Rgb<T> {
        *self
    }

    /// Returns a duplicate of this color.
    fn luminance_rgb(&self) -> (rgb: Rgb<T>) {
        *self
    }

    /// Computes the luminance from the channels in place, since there is
    /// nothing to convert. The result is the one that the conversion would
    /// have led to.
    fn relative_luminance(&self) -> (lum: T::Weighted)
        ensures
            lum == self.luminance(),
    {
        Rgb::relative_luminance(self)
    }
}

/// For a container, the luminance that the capability reports is the
/// luminance that the container computes of itself: going through the
/// conversion changes nothing.
pub proof fn lemma_container_luminance_agrees<T: LuminanceValue>(rgb: Rgb<T>)
    ensures
        Luminance::<T>::normalized(&rgb) == rgb,
        Luminance::<T>::normalized(&rgb).luminance() == rgb.luminance(),
        Luminance::<T>::normalized(&rgb).representable() == rgb.representable(),
{
}

} // verus!
