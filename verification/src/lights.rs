//! The kinds of light sources of a scene.
use vstd::prelude::*;

verus! {

/// A light source of the scene: a laser, which emits one ray, or a point
/// light, which emits rays all around. The payloads hold each kind's geometry.
pub enum LightSourceEnum<L, P> {
    LaserLight(L),
    PointLight(P),
}

} // verus!
