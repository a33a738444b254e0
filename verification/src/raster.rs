//! Raster images: a fixed-size row-major grid of RGBA pixels.

use vstd::prelude::*;

use crate::pixel::Pixel;

verus! {

/// A raster image: `width * height` pixels in row-major order, so the
/// pixel at column `x` of row `y` sits at index `y * width + x`.
#[derive(Debug)]
pub struct RasterImage {
    pub width: u32,
    pub height: u32,
    pub data: Vec<Pixel>,
}

/// Two images hold the same picture: same dimensions, same pixels.
pub open spec fn eq_img(a: RasterImage, b: RasterImage) -> bool {
    &&& a.width == b.width
    &&& a.height == b.height
    &&& a.data@ == b.data@
}

impl RasterImage {
    /// The buffer holds exactly one pixel per coordinate of the grid.
    pub open spec fn wf(&self) -> bool {
        self.data@.len() == (self.width as int) * (self.height as int)
    }

    /// The pixel at an in-bounds coordinate.
    pub open spec fn pix(&self, x: int, y: int) -> Pixel {
        self.data@[y * (self.width as int) + x]
    }

    /// The pixel at a coordinate, or `None` outside the grid.
    pub open spec fn pixel_at(&self, x: int, y: int) -> Option<Pixel> {
        if 0 <= x < self.width && 0 <= y < self.height {
            Some(self.pix(x, y))
        } else {
            None
        }
    }

    /// Builds an image of the given size with every pixel set to `fill`.
    pub fn new_filled(width: u32, height: u32, fill: Pixel) -> (img: RasterImage)
        requires
            (width as int) * (height as int) <= usize::MAX as int,
        ensures
            img.wf(),
            img.width == width,
            img.height == height,
            forall|i: int| 0 <= i < img.data@.len() ==> img.data@[i] == fill,
    {
        let n: usize = (width as usize) * (height as usize);
        let mut data: Vec<Pixel> = Vec::with_capacity(n);
        let mut i: usize = 0;
        while i < n
            invariant
                i <= n,
                data@.len() == i,
                forall|j: int| 0 <= j < i ==> data@[j] == fill,
            decreases n - i,
        {
            data.push(fill);
            i = i + 1;
        }
        RasterImage { width, height, data }
    }

    /// Builds an image from a row-major pixel buffer. Returns `Some`
    /// exactly when the buffer holds one pixel per coordinate.
    pub fn from_pixels(width: u32, height: u32, data: Vec<Pixel>) -> (r: Option<RasterImage>)
        ensures
            r is Some <==> data@.len() == (width as int) * (height as int),
            r matches Some(img) ==> img == (RasterImage { width, height, data }),
            r matches Some(img) ==> img.wf(),
    {
        proof {
            assert((width as int) * (height as int) < 0x1_0000_0000_0000_0000) by (nonlinear_arith)
                requires
                    width <= 0xffff_ffffu32,
                    height <= 0xffff_ffffu32,
            {};
        }
        if (width as u64) * (height as u64) == (data.len() as u64) {
            proof {
                assert((width as int) * (height as int) == data@.len());
            }
            Some(RasterImage { width, height, data })
        } else {
            None
        }
    }

    /// The image width in pixels.
    pub fn width(&self) -> (w: u32)
        ensures
            w == self.width,
    {
        self.width
    }

    /// The image height in pixels.
    pub fn height(&self) -> (h: u32)
        ensures
            h == self.height,
    {
        self.height
    }

    /// The row-major RGBA serialisation of the pixel buffer: four bytes
    /// per pixel, in the channel order R, G, B, A.
    pub open spec fn bytes_view(&self) -> Seq<u8> {
        Seq::new(
            4 * self.data@.len(),
            |i: int|
                {
                    let p = self.data@[i / 4];
                    if i % 4 == 0 {
                        p.r
                    } else if i % 4 == 1 {
                        p.g
                    } else if i % 4 == 2 {
                        p.b
                    } else {
                        p.a
                    }
                },
        )
    }

    /// Serialises the pixel buffer to raw RGBA bytes, four per pixel.
    pub fn to_rgba_bytes(&self) -> (r: Vec<u8>)
        requires
            4 * self.data@.len() <= usize::MAX as int,
        ensures
            r@ == self.bytes_view(),
    {
        let mut out: Vec<u8> = Vec::new();
        let mut i: usize = 0;
        while i < self.data.len()
            invariant
                4 * self.data@.len() <= usize::MAX as int,
                i <= self.data@.len(),
                out@.len() == 4 * i,
                forall|m: int| 0 <= m < 4 * i ==> #[trigger] out@[m] == self.bytes_view()[m],
            decreases self.data@.len() - i,
        {
            let p = self.data[i];
            proof {
                lemma_rowmajor_coords(4, 0, i as int);
                lemma_rowmajor_coords(4, 1, i as int);
                lemma_rowmajor_coords(4, 2, i as int);
                lemma_rowmajor_coords(4, 3, i as int);
            }
            out.push(p.r);
            out.push(p.g);
            out.push(p.b);
            out.push(p.a);
            i = i + 1;
        }
        proof {
            assert(out@ =~= self.bytes_view());
        }
        out
    }

    /// The pixel at `(x, y)`, or `None` if the coordinate lies outside
    /// the image.
    pub fn get_pixel_checked(&self, x: u32, y: u32) -> (r: Option<Pixel>)
        requires
            self.wf(),
        ensures
            r == self.pixel_at(x as int, y as int),
    {
        if x < self.width && y < self.height {
            proof {
                assert(self.data@.len() == self.data.len());
                lemma_rowmajor_bound(self.width as int, self.height as int, x as int, y as int);
            }
            let idx: usize = (y as usize) * (self.width as usize) + (x as usize);
            Some(self.data[idx])
        } else {
            None
        }
    }
}

/// For an in-bounds coordinate the row-major index stays below the area.
pub proof fn lemma_rowmajor_bound(w: int, h: int, x: int, y: int)
    requires
        0 <= x < w,
        0 <= y < h,
    ensures
        0 <= y * w + x < w * h,
{
    assert(0 <= y * w + x < w * h) by (nonlinear_arith)
        requires
            0 <= x < w,
            0 <= y < h,
    {};
}

/// Splitting a row-major index back into its coordinate: for a column
/// `x` of row `y`, dividing the index by the width recovers the row and
/// the remainder recovers the column.
pub proof fn lemma_rowmajor_coords(w: int, x: int, y: int)
    requires
        0 <= x < w,
        0 <= y,
    ensures
        (y * w + x) / w == y,
        (y * w + x) % w == x,
{
    vstd::arithmetic::div_mod::lemma_fundamental_div_mod_converse_div(y * w + x, w, y, x);
    vstd::arithmetic::div_mod::lemma_fundamental_div_mod_converse_mod(y * w + x, w, y, x);
}

} // verus!
