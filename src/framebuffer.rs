use vstd::prelude::*;

use crate::color::{packed, Color};

verus! {

/// A `width` by `height` grid of displayable colors, stored row by row.
///
/// `point` paints the current color; `clear` paints the background color
/// everywhere.
pub struct Framebuffer {
    pub width: usize,
    pub height: usize,
    pub buffer: Vec<Color>,
    pub background_color: Color,
    pub current_color: Color,
}

/// Index in the row-major buffer of the pixel at column `x`, row `y`.
pub open spec fn pixel_index(width: int, x: int, y: int) -> int {
    y * width + x
}

pub(crate) proof fn lemma_pixel_index_in_bounds(width: int, height: int, x: int, y: int)
    requires
        0 <= x < width,
        0 <= y < height,
    ensures
        0 <= y * width <= pixel_index(width, x, y) < width * height,
{
    assert(0 <= y * width) by (nonlinear_arith)
        requires 0 <= y, 0 <= width;
    assert(y * width + x < width * height) by (nonlinear_arith)
        requires 0 <= x < width, 0 <= y < height;
}

impl Framebuffer {
    /// The buffer holds exactly one color per pixel.
    pub open spec fn wf(&self) -> bool {
        self.buffer@.len() == self.width * self.height
    }

    /// A black framebuffer; the background is black and the current color a
    /// light grey.
    pub fn new(width: usize, height: usize) -> (fb: Framebuffer)
        requires
            width * height <= usize::MAX,
        ensures
            fb.wf(),
            fb.width == width,
            fb.height == height,
            forall|i: int| 0 <= i < fb.buffer@.len() ==> fb.buffer@[i] == Color::black_spec(),
            fb.background_color == Color::black_spec(),
            fb.current_color == (Color { r: 225, g: 225, b: 225 }),
    {
        let n: usize = width * height;
        let mut buffer: Vec<Color> = Vec::with_capacity(n);
        let mut i: usize = 0;
        while i < n
            invariant
                i <= n,
                buffer@.len() == i,
                forall|k: int| 0 <= k < i ==> buffer@[k] == Color::black_spec(),
            decreases n - i,
        {
            buffer.push(Color::new(0, 0, 0));
            i = i + 1;
        }
        Framebuffer {
            width,
            height,
            buffer,
            background_color: Color::new(0, 0, 0),
            current_color: Color::new(225, 225, 225),
        }
    }

    /// Paints every pixel with the background color.
    pub fn clear(&mut self)
        ensures
            final(self).width == old(self).width,
            final(self).height == old(self).height,
            final(self).buffer@.len() == old(self).buffer@.len(),
            forall|i: int|
                0 <= i < final(self).buffer@.len() ==> final(self).buffer@[i] == old(self).background_color,
            final(self).background_color == old(self).background_color,
            final(self).current_color == old(self).current_color,
    {
        let n: usize = self.buffer.len();
        let background = self.background_color;
        let mut i: usize = 0;
        while i < n
            invariant
                i <= n,
                n == self.buffer@.len(),
                self.width == old(self).width,
                self.height == old(self).height,
                self.background_color == background,
                background == old(self).background_color,
                self.current_color == old(self).current_color,
                forall|k: int| 0 <= k < i ==> self.buffer@[k] == background,
            decreases n - i,
        {
            self.buffer.set(i, background);
            i = i + 1;
        }
    }

    /// Paints the pixel at column `x`, row `y` with the current color; a
    /// position outside the grid leaves the framebuffer as it was.
    pub fn point(&mut self, x: usize, y: usize)
        requires
            old(self).wf(),
        ensures
            final(self).wf(),
            final(self).width == old(self).width,
            final(self).height == old(self).height,
            final(self).background_color == old(self).background_color,
            final(self).current_color == old(self).current_color,
            x < old(self).width && y < old(self).height ==> final(self).buffer@ == old(
                self,
            ).buffer@.update(pixel_index(old(self).width as int, x as int, y as int), old(self).current_color),
            !(x < old(self).width && y < old(self).height) ==> final(self).buffer@ == old(self).buffer@,
    {
        if x < self.width && y < self.height {
            let n: usize = self.buffer.len();
            proof {
                lemma_pixel_index_in_bounds(self.width as int, self.height as int, x as int, y as int);
            }
            let c = self.current_color;
            self.buffer.set(y * self.width + x, c);
        }
    }

    pub fn set_background_color(&mut self, color: Color)
        ensures
            final(self).width == old(self).width,
            final(self).height == old(self).height,
            final(self).buffer@ == old(self).buffer@,
            final(self).background_color == color,
            final(self).current_color == old(self).current_color,
    {
        self.background_color = color;
    }

    pub fn set_current_color(&mut self, color: Color)
        ensures
            final(self).width == old(self).width,
            final(self).height == old(self).height,
            final(self).buffer@ == old(self).buffer@,
            final(self).background_color == old(self).background_color,
            final(self).current_color == color,
    {
        self.current_color = color;
    }

    /// The buffer as display words, each pixel packed as `0x00RRGGBB`.
    pub fn to_u32_buffer(&self) -> (words: Vec<u32>)
        ensures
            words@.len() == self.buffer@.len(),
            forall|i: int| 0 <= i < words@.len() ==> words@[i] == packed(#[trigger] self.buffer@[i]),
    {
        let n: usize = self.buffer.len();
        let mut words: Vec<u32> = Vec::with_capacity(n);
        let mut i: usize = 0;
        while i < n
            invariant
                i <= n,
                n == self.buffer@.len(),
                words@.len() == i,
                forall|k: int| 0 <= k < i ==> words@[k] == packed(#[trigger] self.buffer@[k]),
            decreases n - i,
        {
            words.push(self.buffer[i].to_u32());
            i = i + 1;
        }
        words
    }
}

} // verus!
