//! A rectangular pixel buffer, generic in the channel count and channel
//! type, stored row-major.

use vstd::prelude::*;

verus! {

/// A `width x height` image of `N`-channel pixels.
pub struct Image<const N: usize, T: Copy> {
    pixels: Vec<[T; N]>,
    width: u32,
    height: u32,
}

impl<const N: usize, T: Copy> View for Image<N, T> {
    type V = Seq<[T; N]>;

    closed spec fn view(&self) -> Seq<[T; N]> {
        self.pixels@
    }
}

impl<const N: usize, T: Copy> Image<N, T> {
    pub closed spec fn spec_width(self) -> u32 {
        self.width
    }

    pub closed spec fn spec_height(self) -> u32 {
        self.height
    }

    /// The buffer holds exactly one pixel per grid cell.
    pub open spec fn wf(self) -> bool {
        &&& self@.len() == self.spec_width() * self.spec_height()
        &&& self.spec_width() <= 16384
        &&& self.spec_height() <= 16384
    }

    /// A new image with every pixel set to `pixel`.
    pub fn new_fill(width: u32, height: u32, pixel: [T; N]) -> (img: Image<N, T>)
        requires
            width <= 16384,
            height <= 16384,
        ensures
            img.wf(),
            img.spec_width() == width,
            img.spec_height() == height,
            forall|i: int| 0 <= i < img@.len() ==> img@[i] == pixel,
    {
        proof {
            assert(width * height <= 0x1000_0000) by (nonlinear_arith)
                requires
                    width <= 16384 && height <= 16384,
            ;
        }
        let n: usize = (width as usize) * (height as usize);
        let mut pixels: Vec<[T; N]> = Vec::new();
        let mut i: usize = 0;
        while i < n
            invariant
                i <= n,
                pixels@.len() == i,
                forall|j: int| 0 <= j < i ==> pixels@[j] == pixel,
            decreases n - i,
        {
            pixels.push(pixel);
            i = i + 1;
        }
        Image { pixels, width, height }
    }

    pub fn width(&self) -> (w: u32)
        ensures
            w == self.spec_width(),
    {
        self.width
    }

    pub fn height(&self) -> (h: u32)
        ensures
            h == self.spec_height(),
    {
        self.height
    }

    /// Overwrites the pixel at `(x, y)`.
    pub fn set(&mut self, x: u32, y: u32, pixel: [T; N])
        requires
            old(self).wf(),
            x < old(self).spec_width(),
            y < old(self).spec_height(),
        ensures
            final(self).wf(),
            final(self).spec_width() == old(self).spec_width(),
            final(self).spec_height() == old(self).spec_height(),
            final(self)@ == old(self)@.update(
                y * old(self).spec_width() + x,
                pixel,
            ),
    {
        proof {
            lemma_row_major_index(self.width, self.height, x, y);
        }
        let idx: usize = (y * self.width + x) as usize;
        self.pixels[idx] = pixel;
    }

    /// Reads the pixel at `(x, y)`.
    pub fn get(&self, x: u32, y: u32) -> (pixel: [T; N])
        requires
            self.wf(),
            x < self.spec_width(),
            y < self.spec_height(),
        ensures
            pixel == self@[y * self.spec_width() + x],
    {
        proof {
            lemma_row_major_index(self.width, self.height, x, y);
        }
        let idx: usize = (y * self.width + x) as usize;
        self.pixels[idx]
    }
}

/// The row-major index of an in-bounds cell is in bounds.
proof fn lemma_row_major_index(width: u32, height: u32, x: u32, y: u32)
    requires
        x < width,
        y < height,
        width <= 16384,
        height <= 16384,
    ensures
        0 <= y * width + x < width * height,
        y * width + x <= 0x1000_0000,
{
    assert(y * width + x < width * height && y * width + x <= 0x1000_0000) by (nonlinear_arith)
        requires
            x < width && y < height && width <= 16384 && height <= 16384,
    ;
}

} // verus!
