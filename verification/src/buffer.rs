//! The pixel buffer: a fixed-size two-dimensional grid of colors.
//!
//! Cells are stored row-major: the cell at `(x, y)` lives at index
//! `y * width + x`. The grid is created once with every cell set to the
//! same fill color and is never resized afterwards.

use vstd::prelude::*;

use crate::enums::CFRColor;

verus! {

/// A fixed-size grid of `width * height` color cells, stored row-major.
#[derive(Debug, Clone)]
pub struct CFRBuffer {
    pub width: u32,
    pub height: u32,
    pub data: Vec<CFRColor>,
}

/// The row-major index of the cell at `(x, y)` in a grid of the given width.
pub open spec fn cell_index(x: u32, y: u32, width: u32) -> int {
    y * width + x
}

/// The red, green and blue channel values of a color.
pub open spec fn rgb_channels(c: CFRColor) -> (u8, u8, u8) {
    match c {
        CFRColor::White => (255u8, 255u8, 255u8),
        CFRColor::Black => (0u8, 0u8, 0u8),
        CFRColor::Blue => (0u8, 0u8, 255u8),
        CFRColor::Green => (0u8, 255u8, 0u8),
        CFRColor::Cyan => (0u8, 255u8, 255u8),
        CFRColor::Red => (255u8, 0u8, 0u8),
        CFRColor::Magenta => (255u8, 0u8, 255u8),
        CFRColor::Yellow => (255u8, 255u8, 0u8),
    }
}

impl CFRBuffer {
    /// The size invariant: the cell vector holds exactly `width * height`
    /// entries.
    pub open spec fn size_ok(&self) -> bool {
        self.data@.len() == self.width * self.height
    }

    /// Creates a `width` by `height` buffer with every cell set to black.
    pub fn new(width: u32, height: u32) -> (r: CFRBuffer)
        requires
            width * height <= usize::MAX,
        ensures
            r.width == width,
            r.height == height,
            r.size_ok(),
            forall|i: int| 0 <= i < r.data@.len() ==> r.data@[i] == CFRColor::Black,
    {
        let n: usize = (width as usize) * (height as usize);
        let mut data: Vec<CFRColor> = Vec::new();
        let mut i: usize = 0;
        while i < n
            invariant
                0 <= i <= n,
                data@.len() == i,
                forall|j: int| 0 <= j < i ==> data@[j] == CFRColor::Black,
            decreases n - i,
        {
            data.push(CFRColor::Black);
            i = i + 1;
        }
        CFRBuffer { width, height, data }
    }

    /// Sets every cell to `color`; the grid keeps its size.
    pub fn fill(&mut self, color: CFRColor)
        ensures
            final(self).width == old(self).width,
            final(self).height == old(self).height,
            final(self).data@.len() == old(self).data@.len(),
            forall|i: int| 0 <= i < final(self).data@.len() ==> final(self).data@[i] == color,
    {
        let n: usize = self.data.len();
        let mut i: usize = 0;
        while i < n
            invariant
                0 <= i <= n,
                self.data@.len() == n,
                self.width == old(self).width,
                self.height == old(self).height,
                forall|j: int| 0 <= j < i ==> self.data@[j] == color,
            decreases n - i,
        {
            self.data[i] = color;
            i = i + 1;
        }
    }

    /// Reads the cell at `(x, y)`, or `None` if the position is out of
    /// bounds.
    pub fn get(&self, x: u32, y: u32) -> (r: Option<CFRColor>)
        requires
            self.size_ok(),
        ensures
            x < self.width && y < self.height ==> r == Some(
                self.data@[cell_index(x, y, self.width)],
            ),
            !(x < self.width && y < self.height) ==> r is None,
    {
        if x < self.width && y < self.height {
            // Reading the length pins `width * height` within `usize::MAX`.
            let len: usize = self.data.len();
            proof {
                lemma_cell_index_in_range(x, y, self.width, self.height);
            }
            let index: usize = (y as usize) * (self.width as usize) + (x as usize);
            Some(self.data[index])
        } else {
            None
        }
    }

    /// Writes `color` into the cell at `(x, y)`; returns whether the
    /// position was in bounds (out-of-bounds writes leave the buffer
    /// unchanged).
    pub fn set(&mut self, x: u32, y: u32, color: CFRColor) -> (ok: bool)
        requires
            old(self).size_ok(),
        ensures
            final(self).width == old(self).width,
            final(self).height == old(self).height,
            final(self).size_ok(),
            ok == (x < old(self).width && y < old(self).height),
            ok ==> final(self).data@ == old(self).data@.update(
                cell_index(x, y, old(self).width),
                color,
            ),
            !ok ==> final(self).data@ == old(self).data@,
    {
        if x < self.width && y < self.height {
            // Reading the length pins `width * height` within `usize::MAX`.
            let len: usize = self.data.len();
            proof {
                lemma_cell_index_in_range(x, y, self.width, self.height);
            }
            let index: usize = (y as usize) * (self.width as usize) + (x as usize);
            self.data[index] = color;
            true
        } else {
            false
        }
    }

    /// The channel triple of the cell at `(x, y)`, per the fixed mapping of
    /// the eight colors to full-intensity RGB values.
    pub fn get_rgb(&self, x: u32, y: u32) -> (r: (u8, u8, u8))
        requires
            self.size_ok(),
            x < self.width,
            y < self.height,
        ensures
            r == rgb_channels(self.data@[cell_index(x, y, self.width)]),
    {
        // Reading the length pins `width * height` within `usize::MAX`.
        let len: usize = self.data.len();
        proof {
            lemma_cell_index_in_range(x, y, self.width, self.height);
        }
        let index: usize = (y as usize) * (self.width as usize) + (x as usize);
        match self.data[index] {
            CFRColor::White => (255, 255, 255),
            CFRColor::Black => (0, 0, 0),
            CFRColor::Blue => (0, 0, 255),
            CFRColor::Green => (0, 255, 0),
            CFRColor::Cyan => (0, 255, 255),
            CFRColor::Red => (255, 0, 0),
            CFRColor::Magenta => (255, 0, 255),
            CFRColor::Yellow => (255, 255, 0),
        }
    }

    /// The channel quadruple of the cell at `(x, y)`: the RGB triple with a
    /// fully opaque alpha channel.
    pub fn get_rgba(&self, x: u32, y: u32) -> (r: (u8, u8, u8, u8))
        requires
            self.size_ok(),
            x < self.width,
            y < self.height,
        ensures
            ({
                let rgb = rgb_channels(self.data@[cell_index(x, y, self.width)]);
                r == (rgb.0, rgb.1, rgb.2, 255u8)
            }),
    {
        let (red, green, blue) = self.get_rgb(x, y);
        (red, green, blue, 255)
    }
}

/// An RGB raster image rendered from a buffer, opaque to the library's
/// reasoning; callers reach the underlying `image` buffer through `img`.
#[verifier::external_body]
pub struct RgbRaster {
    pub img: image::ImageBuffer<image::Rgb<u8>, Vec<u8>>,
}

/// An RGBA raster image rendered from a buffer, opaque to the library's
/// reasoning; callers reach the underlying `image` buffer through `img`.
#[verifier::external_body]
pub struct RgbaRaster {
    pub img: image::ImageBuffer<image::Rgba<u8>, Vec<u8>>,
}

impl CFRBuffer {
    /// Renders the buffer as an RGB raster image.
    ///
    /// Relies on `image::ImageBuffer::from_fn`: it builds a `width` by
    /// `height` image whose pixel at `(x, y)` is the closure's value, here
    /// the cell's channel triple from `get_rgb`; it panics when the pixel
    /// data would overflow a vector, which the precondition rules out.
    #[verifier::external_body]
    pub fn to_rgb_image(&self) -> RgbRaster
        requires
            self.size_ok(),
            self.width * self.height * 3 <= usize::MAX,
    {
        RgbRaster {
            img: image::ImageBuffer::from_fn(
                self.width,
                self.height,
                |x, y| {
                    let (red, green, blue) = self.get_rgb(x, y);
                    image::Rgb([red, green, blue])
                },
            ),
        }
    }

    /// Renders the buffer as an RGBA raster image, fully opaque.
    ///
    /// Relies on `image::ImageBuffer::from_fn` as `to_rgb_image` does, with
    /// each pixel the cell's channel quadruple from `get_rgba`.
    #[verifier::external_body]
    pub fn to_rgba_image(&self) -> RgbaRaster
        requires
            self.size_ok(),
            self.width * self.height * 4 <= usize::MAX,
    {
        RgbaRaster {
            img: image::ImageBuffer::from_fn(
                self.width,
                self.height,
                |x, y| {
                    let (red, green, blue, alpha) = self.get_rgba(x, y);
                    image::Rgba([red, green, blue, alpha])
                },
            ),
        }
    }
}

/// In a `width` by `height` grid, the row-major index of any in-bounds
/// position is in range, and computing it in `usize` cannot overflow.
pub proof fn lemma_cell_index_in_range(x: u32, y: u32, width: u32, height: u32)
    requires
        x < width,
        y < height,
    ensures
        0 <= cell_index(x, y, width) < width * height,
{
    assert(y * width + x < width * height) by (nonlinear_arith)
        requires
            x < width,
            y < height,
    ;
}

} // verus!
