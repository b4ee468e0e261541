use vstd::prelude::*;

verus! {

/// The deepest recursion level at which a ray is still traced against the
/// scene; reflection and refraction each add one level.
pub const MAX_DEPTH: u32 = 3;

/// Whether a ray at recursion level `depth` is past the cutoff, so that it
/// takes the sky color without any intersection test.
pub fn depth_exhausted(depth: u32) -> (r: bool)
    ensures
        r == (depth > MAX_DEPTH),
{
    depth > MAX_DEPTH
}

/// The level of a reflected or refracted ray spawned at `depth`.
pub fn next_depth(depth: u32) -> (r: u32)
    requires
        depth <= MAX_DEPTH,
    ensures
        r == depth + 1,
{
    depth + 1
}

} // verus!
