use vstd::prelude::*;

use crate::color::Color;
use crate::framebuffer::{lemma_pixel_index_in_bounds, pixel_index};

verus! {

/// A decoded image: `width` by `height` texels, stored row by row.
#[derive(Clone, Debug)]
pub struct Texture {
    pub width: u32,
    pub height: u32,
    pub texels: Vec<Color>,
}

/// The color of texel `i` in a buffer of RGBA bytes; alpha is dropped.
pub open spec fn rgba_texel(bytes: Seq<u8>, i: int) -> Color {
    Color { r: bytes[4 * i], g: bytes[4 * i + 1], b: bytes[4 * i + 2] }
}

/// `v` when it is below `bound`, else the last valid index `bound - 1`.
pub open spec fn clamp_index(v: int, bound: int) -> int {
    if v < bound {
        v
    } else {
        bound - 1
    }
}

impl Texture {
    /// At least one texel, and one color per texel.
    pub open spec fn wf(&self) -> bool {
        &&& self.width > 0
        &&& self.height > 0
        &&& self.texels@.len() == self.width * self.height
    }

    /// The texel at column `x`, row `y`.
    pub open spec fn texel_at(&self, x: int, y: int) -> Color {
        self.texels@[pixel_index(self.width as int, x, y)]
    }

    /// Builds a texture from row-major RGBA bytes, four per texel.
    ///
    /// Returns `None` when a side is zero or `bytes` does not hold exactly
    /// `4 * width * height` bytes.
    pub fn from_rgba(width: u32, height: u32, bytes: &Vec<u8>) -> (r: Option<Texture>)
        ensures
            r.is_some() <==> (width > 0 && height > 0 && bytes@.len() == 4 * width * height),
            r matches Some(t) ==> {
                &&& t.wf()
                &&& t.width == width
                &&& t.height == height
                &&& forall|i: int| 0 <= i < t.texels@.len() ==> #[trigger] t.texels@[i] == rgba_texel(bytes@, i)
            },
    {
        let len: usize = bytes.len();
        if width == 0 || height == 0 {
            return None;
        }
        proof {
            assert(4 * width * height == 4 * (width * height)) by (nonlinear_arith);
        }
        let count: usize = match (width as usize).checked_mul(height as usize) {
            Some(c) => c,
            None => {
                proof {
                    assert(4 * width * height > usize::MAX) by (nonlinear_arith)
                        requires width as int * height as int > usize::MAX;
                }
                return None;
            }
        };
        let byte_count: usize = match count.checked_mul(4) {
            Some(c) => c,
            None => {
                return None;
            }
        };
        if bytes.len() != byte_count {
            return None;
        }
        let mut texels: Vec<Color> = Vec::with_capacity(count);
        let mut i: usize = 0;
        while i < count
            invariant
                i <= count,
                count == width * height,
                bytes@.len() == 4 * count,
                4 * count <= usize::MAX,
                texels@.len() == i,
                forall|k: int| 0 <= k < i ==> #[trigger] texels@[k] == rgba_texel(bytes@, k),
            decreases count - i,
        {
            assert(4 * i + 3 < 4 * count);
            let base: usize = 4 * i;
            texels.push(Color::new(bytes[base], bytes[base + 1], bytes[base + 2]));
            i = i + 1;
        }
        Some(Texture { width, height, texels })
    }

    /// The texel at column `x`, row `y`.
    pub fn texel(&self, x: u32, y: u32) -> (c: Color)
        requires
            self.wf(),
            x < self.width,
            y < self.height,
        ensures
            c == self.texel_at(x as int, y as int),
    {
        let n: usize = self.texels.len();
        proof {
            lemma_pixel_index_in_bounds(self.width as int, self.height as int, x as int, y as int);
        }
        self.texels[(y as usize) * (self.width as usize) + (x as usize)]
    }

    /// Nearest-texel lookup that clamps each coordinate to the last column
    /// or row, so that any coordinate pair reads a texel.
    pub fn texel_clamped(&self, x: u32, y: u32) -> (c: Color)
        requires
            self.wf(),
        ensures
            c == self.texel_at(
                clamp_index(x as int, self.width as int),
                clamp_index(y as int, self.height as int),
            ),
    {
        let cx: u32 = if x < self.width { x } else { self.width - 1 };
        let cy: u32 = if y < self.height { y } else { self.height - 1 };
        self.texel(cx, cy)
    }
}

} // verus!
