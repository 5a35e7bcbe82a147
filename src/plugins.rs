use vstd::prelude::*;

verus! {

/// The group of shader-drawn materials (background and target sparkle) that
/// the host registers with its renderer.
#[derive(Clone, Copy, Debug, PartialEq, Eq, Structural)]
pub struct ShadersPlugin;

/// The sparkle material drawn behind each target marker, lit on every hit of
/// its lane.
#[derive(Clone, Copy, Debug, PartialEq, Eq, Structural)]
pub struct ArrowSparkleMaterialPlugin;

} // verus!
