//! The kinds of optical objects of a scene.
use vstd::prelude::*;

verus! {

/// An optical object of the scene that rays can hit. The payload holds the
/// object's geometry and material.
pub enum OpticalObjectEnum<M> {
    PlaneMirror(M),
}

} // verus!
