//! The pixel buffer a host draws into: a fixed resolution chosen at
//! construction and one packed-color integer per pixel, viewed as the
//! sequence of pixels in row-major order. A well-formed buffer holds
//! exactly width * height pixels.

use vstd::prelude::*;

verus! {

/// A pixel buffer of fixed resolution; pixels are packed-color integers in
/// row-major order.
pub struct FrameBuffer {
    width: usize,
    height: usize,
    pixels: Vec<u32>,
}

impl View for FrameBuffer {
    type V = Seq<u32>;

    closed spec fn view(&self) -> Seq<u32> {
        self.pixels@
    }
}

impl FrameBuffer {
    /// The buffer's width in pixels.
    pub closed spec fn spec_width(&self) -> usize {
        self.width
    }

    /// The buffer's height in pixels.
    pub closed spec fn spec_height(&self) -> usize {
        self.height
    }

    /// Well-formed: the buffer holds exactly width * height pixels.
    pub open spec fn wf(&self) -> bool {
        self@.len() == self.spec_width() * self.spec_height()
    }

    /// The row-major position of the pixel at (x, y).
    pub open spec fn spec_index_of(&self, x: usize, y: usize) -> int {
        y * self.spec_width() + x
    }

    /// A zero-filled buffer of the given resolution.
    pub fn new(width: usize, height: usize) -> (r: FrameBuffer)
        requires
            width * height <= usize::MAX,
        ensures
            r.wf(),
            r.spec_width() == width,
            r.spec_height() == height,
            r@ == Seq::new((width * height) as nat, |i: int| 0u32),
    {
        let n = width * height;
        let mut pixels: Vec<u32> = Vec::new();
        let mut i: usize = 0;
        while i < n
            invariant
                0 <= i <= n,
                pixels@ =~= Seq::new(i as nat, |j: int| 0u32),
            decreases n - i,
        {
            pixels.push(0);
            i += 1;
        }
        proof {
            assert(pixels@ =~= Seq::new((width * height) as nat, |i: int| 0u32));
        }
        FrameBuffer { width, height, pixels }
    }

    /// The buffer's width in pixels.
    pub fn width(&self) -> (r: usize)
        ensures
            r == self.spec_width(),
    {
        self.width
    }

    /// The buffer's height in pixels.
    pub fn height(&self) -> (r: usize)
        ensures
            r == self.spec_height(),
    {
        self.height
    }

    /// The number of pixels in the buffer.
    pub fn len(&self) -> (r: usize)
        ensures
            r == self@.len(),
    {
        self.pixels.len()
    }

    /// The pixel at (x, y).
    pub fn pixel(&self, x: usize, y: usize) -> (r: u32)
        requires
            self.wf(),
            x < self.spec_width(),
            y < self.spec_height(),
        ensures
            r == self@[self.spec_index_of(x, y)],
    {
        let _n = self.pixels.len();
        proof {
            self.lemma_index_in_range(x, y);
        }
        let i = y * self.width + x;
        self.pixels[i]
    }

    /// Repaint the pixel at (x, y); every other pixel keeps its color.
    pub fn set_pixel(&mut self, x: usize, y: usize, color: u32)
        requires
            old(self).wf(),
            x < old(self).spec_width(),
            y < old(self).spec_height(),
        ensures
            final(self).wf(),
            final(self).spec_width() == old(self).spec_width(),
            final(self).spec_height() == old(self).spec_height(),
            final(self)@ == old(self)@.update(old(self).spec_index_of(x, y), color),
    {
        let _n = self.pixels.len();
        proof {
            self.lemma_index_in_range(x, y);
        }
        let i = y * self.width + x;
        self.pixels[i] = color;
    }

    /// The pixel at a raw row-major position.
    pub fn pixel_at(&self, i: usize) -> (r: u32)
        requires
            i < self@.len(),
        ensures
            r == self@[i as int],
    {
        self.pixels[i]
    }

    /// Repaint the pixel at a raw row-major position.
    pub fn set_pixel_at(&mut self, i: usize, color: u32)
        requires
            i < old(self)@.len(),
        ensures
            final(self).wf() == old(self).wf(),
            final(self).spec_width() == old(self).spec_width(),
            final(self).spec_height() == old(self).spec_height(),
            final(self)@ == old(self)@.update(i as int, color),
    {
        self.pixels[i] = color;
    }

    /// Repaint the whole buffer with one color.
    pub fn fill(&mut self, color: u32)
        ensures
            final(self).wf() == old(self).wf(),
            final(self).spec_width() == old(self).spec_width(),
            final(self).spec_height() == old(self).spec_height(),
            final(self)@.len() == old(self)@.len(),
            forall|i: int| 0 <= i < final(self)@.len() ==> final(self)@[i] == color,
    {
        let n = self.pixels.len();
        let mut i: usize = 0;
        while i < n
            invariant
                0 <= i <= n,
                n == self.pixels@.len(),
                self.width == old(self).spec_width(),
                self.height == old(self).spec_height(),
                forall|j: int| 0 <= j < i ==> self.pixels@[j] == color,
            decreases n - i,
        {
            self.pixels[i] = color;
            i += 1;
        }
    }

    /// The pixels in row-major order, for presentation.
    pub fn pixels(&self) -> (r: &Vec<u32>)
        ensures
            r@ == self@,
    {
        &self.pixels
    }

    proof fn lemma_index_in_range(&self, x: usize, y: usize)
        requires
            self.wf(),
            x < self.spec_width(),
            y < self.spec_height(),
        ensures
            0 <= self.spec_index_of(x, y) < self@.len(),
    {
        assert(y * self.spec_width() + x < self.spec_width() * self.spec_height()) by (nonlinear_arith)
            requires
                x < self.spec_width(),
                y < self.spec_height(),
        ;
    }
}

} // verus!
