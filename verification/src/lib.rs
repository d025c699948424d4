//! The decision core of an interactive 2D optics sandbox: the scene of optical
//! objects and lights, what the mouse selects and drags, when the ray paths
//! must be traced again, and how a trace walks its bounce levels.

pub mod vector;
pub mod order;
pub mod surface;
pub mod lights;
pub mod optical_objects;
pub mod trace;
pub mod world;
