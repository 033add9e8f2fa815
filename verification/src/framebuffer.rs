//! The grid of pixels that a frame is drawn into.
use vstd::prelude::*;

verus! {

/// A grid of `width` by `height` pixels, stored row by row from the top, each
/// pixel a packed color. It also keeps a background color and the color that
/// [`Framebuffer::point`] draws with.
pub struct Framebuffer {
    pub width: usize,
    pub height: usize,
    pub buffer: Vec<u32>,
    pub background_color: u32,
    pub current_color: u32,
}

impl Framebuffer {
    /// Whether the buffer holds exactly one word for each pixel.
    pub open spec fn wf(&self) -> bool {
        self.buffer.len() == self.width * self.height
    }

    /// Whether the column `x` and the row `y` name a pixel of the grid.
    pub open spec fn in_bounds(&self, x: int, y: int) -> bool {
        0 <= x < self.width && 0 <= y < self.height
    }

    /// The place in the buffer of the pixel in column `x` of row `y`.
    pub open spec fn offset(&self, x: int, y: int) -> int {
        y * self.width + x
    }

    /// The buffer after the pixel in column `x` of row `y` was given `color`;
    /// the buffer as it was where there is no such pixel.
    pub open spec fn drawn(&self, x: int, y: int, color: u32) -> Seq<u32> {
        if self.in_bounds(x, y) {
            self.buffer@.update(self.offset(x, y), color)
        } else {
            self.buffer@
        }
    }

    /// A framebuffer of the given size with every pixel 0, a black background
    /// and white as the drawing color.
    pub fn new(width: usize, height: usize) -> (fb: Framebuffer)
        requires
            width * height <= usize::MAX,
        ensures
            fb.wf(),
            fb.width == width,
            fb.height == height,
            fb.buffer@ == Seq::new((width * height) as nat, |i: int| 0u32),
            fb.background_color == 0x000000,
            fb.current_color == 0xFFFFFF,
    {
        let buffer = vec![0u32; width * height];
        Framebuffer { width, height, buffer, background_color: 0x000000, current_color: 0xFFFFFF }
    }

    /// Gives every pixel the color `color`.
    pub fn clear(&mut self, color: u32)
        ensures
            final(self).buffer@ == Seq::new(old(self).buffer@.len(), |i: int| color),
            final(self).wf() == old(self).wf(),
            final(self).width == old(self).width,
            final(self).height == old(self).height,
            final(self).background_color == old(self).background_color,
            final(self).current_color == old(self).current_color,
    {
        let n = self.buffer.len();
        let mut i: usize = 0;
        while i < n
            invariant
                i <= n,
                n == self.buffer@.len(),
                n == old(self).buffer@.len(),
                forall|k: int| 0 <= k < i ==> self.buffer@[k] == color,
                self.width == old(self).width,
                self.height == old(self).height,
                self.background_color == old(self).background_color,
                self.current_color == old(self).current_color,
            decreases n - i,
        {
            self.buffer.set(i, color);
            i += 1;
        }
    }

    /// Gives the pixel in column `x` of row `y` the color `color`. Does nothing
    /// where the grid has no such pixel.
    pub fn draw_pixel(&mut self, x: usize, y: usize, color: u32)
        requires
            old(self).wf(),
        ensures
            final(self).buffer@ == old(self).drawn(x as int, y as int, color),
            final(self).wf(),
            final(self).width == old(self).width,
            final(self).height == old(self).height,
            final(self).background_color == old(self).background_color,
            final(self).current_color == old(self).current_color,
    {
        if x < self.width && y < self.height {
            proof {
                lemma_offset_in_buffer(x as int, y as int, self.width as int, self.height as int);
            }
            let at = y * self.width + x;
            self.buffer.set(at, color);
        }
    }

    /// Gives the pixel in column `x` of row `y` the drawing color. Does
    /// nothing where the grid has no such pixel.
    pub fn point(&mut self, x: usize, y: usize)
        requires
            old(self).wf(),
        ensures
            final(self).buffer@ == old(self).drawn(x as int, y as int, old(self).current_color),
            final(self).wf(),
            final(self).width == old(self).width,
            final(self).height == old(self).height,
            final(self).background_color == old(self).background_color,
            final(self).current_color == old(self).current_color,
    {
        if x < self.width && y < self.height {
            proof {
                lemma_offset_in_buffer(x as int, y as int, self.width as int, self.height as int);
            }
            let at = y * self.width + x;
            self.buffer.set(at, self.current_color);
        }
    }

    /// Sets the background color.
    pub fn set_background_color(&mut self, color: u32)
        ensures
            final(self).background_color == color,
            final(self).current_color == old(self).current_color,
            final(self).buffer == old(self).buffer,
            final(self).width == old(self).width,
            final(self).height == old(self).height,
    {
        self.background_color = color;
    }

    /// Sets the color that `point` draws with.
    pub fn set_current_color(&mut self, color: u32)
        ensures
            final(self).current_color == color,
            final(self).background_color == old(self).background_color,
            final(self).buffer == old(self).buffer,
            final(self).width == old(self).width,
            final(self).height == old(self).height,
    {
        self.current_color = color;
    }
}

/// A pixel of the grid has its place within the first `width * height` words.
proof fn lemma_offset_in_buffer(x: int, y: int, width: int, height: int)
    requires
        0 <= x < width,
        0 <= y < height,
    ensures
        0 <= y * width <= y * width + x < width * height,
{
    assert(y * width >= 0) by (nonlinear_arith)
        requires
            y >= 0,
            width >= 0,
    ;
    assert((y + 1) * width <= height * width) by (nonlinear_arith)
        requires
            y + 1 <= height,
            width >= 0,
    ;
    assert((y + 1) * width == y * width + width) by (nonlinear_arith);
}

} // verus!
