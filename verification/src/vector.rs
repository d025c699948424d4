//! The 2D vector type of `glam`, carried through the library as an opaque value.
use vstd::prelude::*;

verus! {

/// `glam::Vec2` is used as an opaque value: the library stores and hands back
/// positions and offsets without reading their coordinates; it only asks
/// whether two positions are equal.
#[verifier::external_type_specification]
#[verifier::external_body]
pub struct ExVec2(glam::Vec2);

/// Whether two positions are equal as `glam::Vec2`'s derived `PartialEq` says:
/// both coordinates equal as floats. It depends on the two positions alone.
pub uninterp spec fn vec2_equal(a: glam::Vec2, b: glam::Vec2) -> bool;

/// Compares two positions with `glam::Vec2`'s `PartialEq`; the contract claims
/// that the result is `vec2_equal` of the two positions, and nothing more of
/// what that equality is on coordinates.
#[verifier::external_body]
pub(crate) fn same_position(a: &glam::Vec2, b: &glam::Vec2) -> (r: bool)
    ensures
        r == vec2_equal(*a, *b),
{
    *a == *b
}

} // verus!
