//! Serialising comparison artifacts for a display layer.
//!
//! The display collaborator consumes raster images in a standard lossless
//! bitmap encoding, so the four artifacts of a comparison are serialised
//! to BMP. The encoding itself is delegated to the `image` crate; what it
//! returns for given dimensions and bytes is named by [`bmp_encoding`] and
//! depends on them alone.

use vstd::prelude::*;

use crate::diff::is_diff_of;
use crate::diff::max32;
use crate::diff::DiffResult;
use crate::raster::RasterImage;

verus! {

/// The BMP serialisation of a raster image given as its dimensions and
/// its row-major RGBA bytes, as the `image` crate computes it.
pub uninterp spec fn bmp_encoding(width: u32, height: u32, rgba: Seq<u8>) -> Seq<u8>;

/// Encodes raw RGBA bytes as BMP.
///
/// Relies on `image::RgbaImage::from_raw`, which wraps a byte buffer of
/// exactly `4 * width * height` bytes as an RGBA image, and on
/// `image::ImageBuffer::write_to` with `image::ImageFormat::Bmp`, which
/// writes the BMP serialisation of that image to an in-memory buffer: a
/// deterministic function of the dimensions and bytes, and — per the BMP
/// encoder's size checks — error-free whenever each padded row fits in
/// `u32` arithmetic and the pixel data plus the 122 header bytes do too,
/// as the precondition guarantees.
#[verifier::external_body]
fn encode_bmp_rgba(width: u32, height: u32, rgba: Vec<u8>) -> (r: Vec<u8>)
    requires
        rgba@.len() == 4 * (width as int) * (height as int),
        4 * (width as int) <= u32::MAX as int,
        4 * (width as int) * (height as int) + 122 <= u32::MAX as int,
    ensures
        r@ == bmp_encoding(width, height, rgba@),
{
    let img = image::RgbaImage::from_raw(width, height, rgba)
        .expect("buffer length matches the dimensions");
    let mut out = std::io::Cursor::new(Vec::new());
    img.write_to(&mut out, image::ImageFormat::Bmp)
        .expect("in-memory BMP encoding of a well-sized image succeeds");
    out.into_inner()
}

/// A raster image small enough for the BMP encoder's `u32` arithmetic.
pub open spec fn encodable(img: RasterImage) -> bool {
    &&& 4 * (img.width as int) <= u32::MAX as int
    &&& 4 * (img.width as int) * (img.height as int) + 122 <= u32::MAX as int
}

/// The four artifacts of one comparison, serialised to BMP for a display
/// layer.
pub struct Images {
    pub before: Vec<u8>,
    pub after: Vec<u8>,
    pub added: Vec<u8>,
    pub removed: Vec<u8>,
}

/// `imgs` holds the BMP serialisations of the four artifacts of `d`.
pub open spec fn is_encoding_of(imgs: Images, d: DiffResult) -> bool {
    &&& imgs.before@ == bmp_encoding(d.before.width, d.before.height, d.before.bytes_view())
    &&& imgs.after@ == bmp_encoding(d.after.width, d.after.height, d.after.bytes_view())
    &&& imgs.added@ == bmp_encoding(d.added.width, d.added.height, d.added.bytes_view())
    &&& imgs.removed@ == bmp_encoding(d.removed.width, d.removed.height, d.removed.bytes_view())
}

/// Serialises one well-formed, encodable image to BMP.
fn encode_image(img: &RasterImage) -> (r: Vec<u8>)
    requires
        img.wf(),
        encodable(*img),
    ensures
        r@ == bmp_encoding(img.width, img.height, img.bytes_view()),
{
    proof {
        let w = img.width as int;
        let h = img.height as int;
        let n = img.data@.len() as int;
        assert(4 * n == 4 * w * h) by (nonlinear_arith)
            requires
                n == w * h,
        {};
        assert(4 * n <= usize::MAX as int);
    }
    let bytes = img.to_rgba_bytes();
    encode_bmp_rgba(img.width, img.height, bytes)
}

impl DiffResult {
    /// Serialises the four artifacts to BMP.
    pub fn encode(&self) -> (imgs: Images)
        requires
            self.before.wf(),
            self.after.wf(),
            self.added.wf(),
            self.removed.wf(),
            encodable(self.before),
            encodable(self.after),
            encodable(self.added),
            encodable(self.removed),
        ensures
            is_encoding_of(imgs, *self),
    {
        Images {
            before: encode_image(&self.before),
            after: encode_image(&self.after),
            added: encode_image(&self.added),
            removed: encode_image(&self.removed),
        }
    }
}

impl Images {
    /// Compares two raster images and serialises all four artifacts of
    /// the comparison to BMP.
    pub fn generate(before: &RasterImage, after: &RasterImage) -> (imgs: Images)
        requires
            before.wf(),
            after.wf(),
            4 * (max32(before.width, after.width) as int) <= u32::MAX as int,
            4 * (max32(before.width, after.width) as int) * (max32(
                before.height,
                after.height,
            ) as int) + 122 <= u32::MAX as int,
        ensures
            exists|d: DiffResult|
                #[trigger] is_diff_of(d, *before, *after) && is_encoding_of(imgs, d),
    {
        proof {
            let cw = max32(before.width, after.width) as int;
            let ch = max32(before.height, after.height) as int;
            assert(4 * (before.width as int) * (before.height as int) <= 4 * cw * ch && 4 * (
            after.width as int) * (after.height as int) <= 4 * cw * ch && cw * ch <= 4 * cw * ch)
                by (nonlinear_arith)
                requires
                    0 <= before.width as int <= cw,
                    0 <= before.height as int <= ch,
                    0 <= after.width as int <= cw,
                    0 <= after.height as int <= ch,
            {};
            assert(cw * ch <= usize::MAX as int);
        }
        let d = DiffResult::generate(before, after);
        let imgs = d.encode();
        proof {
            assert(is_diff_of(d, *before, *after) && is_encoding_of(imgs, d));
        }
        imgs
    }
}

} // verus!
