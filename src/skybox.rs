use vstd::prelude::*;

use crate::color::Color;
use crate::texture::{clamp_index, Texture};

verus! {

/// One face of the sky cube, named by the axis direction it faces.
#[derive(Clone, Copy, Debug, PartialEq, Eq, Structural)]
pub enum Face {
    /// +X
    Right,
    /// -X
    Left,
    /// +Y
    Top,
    /// -Y
    Bottom,
    /// +Z
    Front,
    /// -Z
    Back,
}

/// The background seen by rays that leave the scene: one texture per face
/// of a cube around the world.
pub struct Skybox {
    pub right: Texture,
    pub left: Texture,
    pub top: Texture,
    pub bottom: Texture,
    pub front: Texture,
    pub back: Texture,
}

impl Skybox {
    /// Every face holds at least one texel.
    pub open spec fn wf(&self) -> bool {
        &&& self.right.wf()
        &&& self.left.wf()
        &&& self.top.wf()
        &&& self.bottom.wf()
        &&& self.front.wf()
        &&& self.back.wf()
    }

    /// The texture shown on `face`.
    pub open spec fn face_texture(&self, face: Face) -> Texture {
        match face {
            Face::Right => self.right,
            Face::Left => self.left,
            Face::Top => self.top,
            Face::Bottom => self.bottom,
            Face::Front => self.front,
            Face::Back => self.back,
        }
    }

    pub fn new(
        right: Texture,
        left: Texture,
        top: Texture,
        bottom: Texture,
        front: Texture,
        back: Texture,
    ) -> (s: Skybox)
        ensures
            s == (Skybox { right, left, top, bottom, front, back }),
    {
        Skybox { right, left, top, bottom, front, back }
    }

    /// The texture shown on `face`.
    pub fn face(&self, face: Face) -> (t: &Texture)
        ensures
            *t == self.face_texture(face),
    {
        match face {
            Face::Right => &self.right,
            Face::Left => &self.left,
            Face::Top => &self.top,
            Face::Bottom => &self.bottom,
            Face::Front => &self.front,
            Face::Back => &self.back,
        }
    }

    /// The color at texel column `x`, row `y` of `face`, each coordinate
    /// clamped to the face texture's last column or row.
    pub fn sample_face(&self, face: Face, x: u32, y: u32) -> (c: Color)
        requires
            self.wf(),
        ensures
            c == self.face_texture(face).texel_at(
                clamp_index(x as int, self.face_texture(face).width as int),
                clamp_index(y as int, self.face_texture(face).height as int),
            ),
    {
        self.face(face).texel_clamped(x, y)
    }
}

} // verus!
