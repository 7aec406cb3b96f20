//! Fixed-point families: luminance in unsigned integers.
//!
//! The weights are written in ten-thousandths: 2126, 7152 and 722. A channel
//! may be in any scale that the caller likes, 0 to 255 or 0 to 65535 or
//! thousandths; the luminance of a color is then in ten-thousandths of that
//! scale. Since the three weights add up to ten thousand, a grey of level `c`
//! has the luminance `10000 * c`.
//!
//! In these families the arithmetic is exact as long as nothing overflows, so
//! the luminance is the sum over the integers, [`scaled_sum`].
use crate::policy::{faithful, representable, weighted_sum, LuminanceValue};
use vstd::prelude::*;

verus! {

/// The luminance of `(r, g, b)` in ten-thousandths, over the integers.
pub open spec fn scaled_sum(r: int, g: int, b: int) -> int {
    2126 * r + 7152 * g + 722 * b
}

/// Luminance in 32 bits. It holds 16-bit channels with room to spare.
impl LuminanceValue for u32 {
    type Channel = u32;

    type Weight = u32;

    type Weighted = u32;

    const RED_WEIGHT: u32 = 2126;

    const GREEN_WEIGHT: u32 = 7152;

    const BLUE_WEIGHT: u32 = 722;
}

/// Luminance in 64 bits. It holds 32-bit channels with room to spare.
impl LuminanceValue for u64 {
    type Channel = u64;

    type Weight = u64;

    type Weighted = u64;

    const RED_WEIGHT: u64 = 2126;

    const GREEN_WEIGHT: u64 = 7152;

    const BLUE_WEIGHT: u64 = 722;
}

/// In 32 bits the operators are faithful, the luminance of a color can be
/// computed exactly when its sum over the integers fits, and it is then that
/// sum.
pub proof fn lemma_u32_luminance_is_scaled_sum(r: u32, g: u32, b: u32)
    ensures
        faithful::<u32>(),
        representable::<u32>(r, g, b) <==> scaled_sum(r as int, g as int, b as int) <= u32::MAX,
        representable::<u32>(r, g, b) ==> weighted_sum::<u32>(r, g, b) == scaled_sum(
            r as int,
            g as int,
            b as int,
        ),
{
}

/// In 64 bits the operators are faithful, the luminance of a color can be
/// computed exactly when its sum over the integers fits, and it is then that
/// sum.
pub proof fn lemma_u64_luminance_is_scaled_sum(r: u64, g: u64, b: u64)
    ensures
        faithful::<u64>(),
        representable::<u64>(r, g, b) <==> scaled_sum(r as int, g as int, b as int) <= u64::MAX,
        representable::<u64>(r, g, b) ==> weighted_sum::<u64>(r, g, b) == scaled_sum(
            r as int,
            g as int,
            b as int,
        ),
{
}

/// In 32 bits black has the luminance zero, and a grey of level `c` has the
/// luminance `10000 * c`, since the weights add up to ten thousand.
pub proof fn lemma_u32_luminance_of_grey(c: u32)
    ensures
        representable::<u32>(0, 0, 0),
        weighted_sum::<u32>(0, 0, 0) == 0,
        representable::<u32>(c, c, c) <==> 10000 * c <= u32::MAX,
        representable::<u32>(c, c, c) ==> weighted_sum::<u32>(c, c, c) == 10000 * c,
{
}

/// In 64 bits black has the luminance zero, and a grey of level `c` has the
/// luminance `10000 * c`, since the weights add up to ten thousand.
pub proof fn lemma_u64_luminance_of_grey(c: u64)
    ensures
        representable::<u64>(0, 0, 0),
        weighted_sum::<u64>(0, 0, 0) == 0,
        representable::<u64>(c, c, c) <==> 10000 * c <= u64::MAX,
        representable::<u64>(c, c, c) ==> weighted_sum::<u64>(c, c, c) == 10000 * c,
{
}

/// In 32 bits luminance is monotone: a color none of whose channels exceeds
/// the same channel of a second color is no brighter than the second. With
/// two of the channels equal, this says that raising one channel alone never
/// lowers the luminance. If the luminance of the brighter color can be
/// computed, so can that of the darker one.
pub proof fn lemma_u32_luminance_is_monotone(
    r1: u32,
    g1: u32,
    b1: u32,
    r2: u32,
    g2: u32,
    b2: u32,
)
    requires
        r1 <= r2,
        g1 <= g2,
        b1 <= b2,
        representable::<u32>(r2, g2, b2),
    ensures
        representable::<u32>(r1, g1, b1),
        weighted_sum::<u32>(r1, g1, b1) <= weighted_sum::<u32>(r2, g2, b2),
{
}

/// In 64 bits luminance is monotone: a color none of whose channels exceeds
/// the same channel of a second color is no brighter than the second. With
/// two of the channels equal, this says that raising one channel alone never
/// lowers the luminance. If the luminance of the brighter color can be
/// computed, so can that of the darker one.
pub proof fn lemma_u64_luminance_is_monotone(
    r1: u64,
    g1: u64,
    b1: u64,
    r2: u64,
    g2: u64,
    b2: u64,
)
    requires
        r1 <= r2,
        g1 <= g2,
        b1 <= b2,
        representable::<u64>(r2, g2, b2),
    ensures
        representable::<u64>(r1, g1, b1),
        weighted_sum::<u64>(r1, g1, b1) <= weighted_sum::<u64>(r2, g2, b2),
{
}

} // verus!
