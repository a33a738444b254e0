//! Loaded documents, as the document-source collaborator provides them.
//!
//! The document format itself is out of scope: parsing and rasterising
//! are delegated to the pdfium library, and only the data the rest of the
//! core reads — a title, a page count, a rendered page as a raster image —
//! crosses the boundary as plain values.

use vstd::prelude::*;

use pdfium_render::prelude::PdfDocument;
use pdfium_render::prelude::PdfDocumentMetadataTagType;
use pdfium_render::prelude::PdfRenderConfig;
use pdfium_render::prelude::Pdfium;
use pdfium_render::prelude::PdfiumError;

use crate::pixel::Pixel;
use crate::raster::RasterImage;
use crate::util::ref_into_string;

verus! {

#[verifier::external_type_specification]
#[verifier::external_body]
pub struct ExPdfDocument<'a>(PdfDocument<'a>);

#[verifier::external_type_specification]
#[verifier::external_body]
pub struct ExPdfiumError(PdfiumError);

/// Opens a document from raw bytes.
///
/// Relies on `Pdfium::bind_to_system_library`, `Pdfium::new`,
/// `Pdfium::default` and `Pdfium::load_pdf_from_byte_vec`: the first load
/// in a process binds the installed pdfium library (an error, not a
/// panic, when none is found); later loads see the already-initialized
/// error and take `Pdfium::default`'s reuse branch, which returns a
/// handle to the existing bindings without panicking. The small handle is
/// leaked so the document may live for the rest of the process.
#[verifier::external_body]
fn load_document(bytes: Vec<u8>) -> (r: Result<PdfDocument<'static>, PdfiumError>) {
    let pdfium = match Pdfium::bind_to_system_library() {
        Ok(bindings) => Pdfium::new(bindings),
        Err(PdfiumError::PdfiumLibraryBindingsAlreadyInitialized) => Pdfium::default(),
        Err(err) => return Err(err),
    };
    let pdfium: &'static Pdfium = Box::leak(Box::new(pdfium));
    pdfium.load_pdf_from_byte_vec(bytes, None)
}

/// Reads the document's title tag, if it has one.
///
/// Relies on `PdfDocument::metadata` and `PdfMetadata::get` with the
/// title tag: the tag's value, owned.
#[verifier::external_body]
fn document_title<'a>(doc: &PdfDocument<'a>) -> (r: Option<String>) {
    doc.metadata().get(PdfDocumentMetadataTagType::Title).map(|tag| tag.value().to_owned())
}

/// Counts the document's pages.
///
/// Relies on `PdfDocument::pages` and `PdfPages::len`.
#[verifier::external_body]
fn document_page_count<'a>(doc: &PdfDocument<'a>) -> (r: i32) {
    doc.pages().len()
}

/// Rasterises one page at a target width, returning the pixel dimensions
/// and the row-major RGBA bytes.
///
/// Relies on `PdfPages::get`, `PdfPage::render_with_config` with a
/// `PdfRenderConfig` carrying the target width (saturated into the `i32`
/// the library takes), `PdfBitmap::as_image`, and the `image` crate's
/// `DynamicImage::into_rgba8`, whose raw buffer holds exactly four bytes
/// per pixel of the reported dimensions.
#[verifier::external_body]
fn render_page_rgba<'a>(doc: &PdfDocument<'a>, width: u32, page_index: i32) -> (r: Result<
    (u32, u32, Vec<u8>),
    PdfiumError,
>)
    ensures
        r matches Ok(t) ==> t.2@.len() == 4 * (t.0 as int) * (t.1 as int),
{
    let image = doc
        .pages()
        .get(page_index)?
        .render_with_config(
            &PdfRenderConfig::new().set_target_width(i32::try_from(width).unwrap_or(i32::MAX)),
        )?
        .as_image()?
        .into_rgba8();
    Ok((image.width(), image.height(), image.into_raw()))
}

/// A loaded document together with the plain values the core reads from
/// it: its title, if any, and its page count.
pub struct Pdf {
    pub doc: PdfDocument<'static>,
    pub title: Option<String>,
    pub pages: u16,
}

/// Clamps a reported page count into the `u16` the core stores: a
/// negative count becomes zero, one beyond `u16::MAX` becomes
/// `u16::MAX`, and anything in between is kept exactly.
pub fn clamp_page_count(n: i32) -> (r: u16)
    ensures
        r as int == if n < 0 {
            0int
        } else if n > 65535 {
            65535int
        } else {
            n as int
        },
{
    if n < 0 {
        0
    } else if n > 65535 {
        65535
    } else {
        n as u16
    }
}

/// The page selection when two documents are compared page by page: the
/// common page count (the smaller of the two), and the current page
/// clamped to the last common page.
pub fn page_selection(pages_before: u16, pages_after: u16, current: u16) -> (r: (u16, u16))
    ensures
        r.0 == (if pages_before <= pages_after {
            pages_before
        } else {
            pages_after
        }),
        r.1 == ({
            let last = if r.0 == 0 {
                0u16
            } else {
                (r.0 - 1) as u16
            };
            if current > last {
                last
            } else {
                current
            }
        }),
{
    let count: u16 = if pages_before <= pages_after {
        pages_before
    } else {
        pages_after
    };
    let last: u16 = if count == 0 {
        0
    } else {
        count - 1
    };
    let page: u16 = if current > last {
        last
    } else {
        current
    };
    (count, page)
}

impl Pdf {
    /// Opens a document from raw bytes and reads its title and page
    /// count, the count clamped into `u16` by [`clamp_page_count`].
    pub fn from_bytes(bytes: Vec<u8>) -> (r: Result<Pdf, String>) {
        match load_document(bytes) {
            Ok(doc) => {
                let title = document_title(&doc);
                let pages = clamp_page_count(document_page_count(&doc));
                Ok(Pdf { doc, title, pages })
            },
            Err(e) => Err(ref_into_string(e)),
        }
    }

    /// The document's title tag, if it has one.
    pub fn title(&self) -> (r: &Option<String>)
        ensures
            r == self.title,
    {
        &self.title
    }

    /// The number of pages.
    pub fn pages(&self) -> (r: u16)
        ensures
            r == self.pages,
    {
        self.pages
    }

    /// Rasterises one page at a target width. A page index at or beyond
    /// the stored page count is rejected up front; a successful result is
    /// well formed: it holds exactly one pixel per coordinate of its
    /// grid, each pixel read from the bytes the renderer reported.
    pub fn render(&self, width: u32, page_number: u16) -> (r: Result<RasterImage, String>)
        ensures
            r matches Ok(img) ==> img.wf(),
            page_number >= self.pages ==> r is Err,
    {
        if page_number >= self.pages {
            return Err("page index out of range".to_owned());
        }
        match render_page_rgba(&self.doc, width, page_number as i32) {
            Ok((w, h, bytes)) => {
                match pixels_from_rgba(w, h, &bytes) {
                    Some(img) => Ok(img),
                    None => Err("rendered page reported a mismatched buffer size".to_owned()),
                }
            },
            Err(e) => Err(ref_into_string(e)),
        }
    }
}

/// Packs row-major RGBA bytes into a raster image, four consecutive
/// bytes per pixel in the channel order R, G, B, A; `None` exactly when
/// the buffer does not hold four bytes per pixel of the grid.
fn pixels_from_rgba(width: u32, height: u32, bytes: &Vec<u8>) -> (r: Option<RasterImage>)
    ensures
        r is Some <==> bytes@.len() == 4 * (width as int) * (height as int),
        r matches Some(img) ==> img.wf() && img.width == width && img.height == height
            && forall|i: int|
            0 <= i < img.data@.len() ==> #[trigger] img.data@[i] == (Pixel {
                r: bytes@[4 * i],
                g: bytes@[4 * i + 1],
                b: bytes@[4 * i + 2],
                a: bytes@[4 * i + 3],
            }),
{
    proof {
        assert((width as int) * (height as int) < 0x1_0000_0000_0000_0000
            && 4 * ((width as int) * (height as int)) == 4 * (width as int) * (height as int))
            by (nonlinear_arith)
            requires
                width <= 0xffff_ffffu32,
                height <= 0xffff_ffffu32,
        {};
    }
    let n64: u64 = (width as u64) * (height as u64);
    let len64: u64 = bytes.len() as u64;
    proof {
        assert(bytes@.len() == bytes.len());
        if bytes@.len() == 4 * (width as int) * (height as int) {
            vstd::arithmetic::div_mod::lemma_mod_multiples_basic(n64 as int, 4);
            vstd::arithmetic::div_mod::lemma_div_by_multiple(n64 as int, 4);
        }
    }
    if len64 % 4 != 0 {
        return None;
    }
    if len64 / 4 != n64 {
        return None;
    }
    proof {
        vstd::arithmetic::div_mod::lemma_fundamental_div_mod(len64 as int, 4);
        assert(len64 == 4 * n64);
        assert(n64 <= bytes.len());
    }
    let n: usize = n64 as usize;
    let mut data: Vec<Pixel> = Vec::with_capacity(n);
    let mut i: usize = 0;
    while i < n
        invariant
            i <= n,
            data@.len() == i,
            bytes@.len() == 4 * n,
            4 * n <= usize::MAX as int,
            forall|j: int|
                0 <= j < i ==> #[trigger] data@[j] == (Pixel {
                    r: bytes@[4 * j],
                    g: bytes@[4 * j + 1],
                    b: bytes@[4 * j + 2],
                    a: bytes@[4 * j + 3],
                }),
        decreases n - i,
    {
        let p = Pixel {
            r: bytes[4 * i],
            g: bytes[4 * i + 1],
            b: bytes[4 * i + 2],
            a: bytes[4 * i + 3],
        };
        data.push(p);
        i = i + 1;
    }
    Some(RasterImage { width, height, data })
}

} // verus!
