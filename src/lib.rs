//! Integer-valued building blocks of a voxel ray tracer: displayable colors,
//! the pixel framebuffer that a render pass fills, decoded textures with
//! clamped nearest-texel lookup, the six-face sky cubemap, and the recursion
//! cutoff of the ray evaluator.

pub mod color;
pub mod framebuffer;
pub mod texture;
pub mod skybox;
pub mod depth;
