//! The pixel-differencing engine.
//!
//! Given two raster images of independent sizes, it derives two further
//! images, "added" and "removed", on a canvas sized to the element-wise
//! maximum of the input dimensions. Every canvas cell is classified by
//! [`crate::pixel::diff_pair`] from the two input pixels at its coordinate
//! alone, so the result is a pure function of the inputs and the degree of
//! parallelism cannot affect it.

use vstd::prelude::*;

use crate::parallel::par_tabulate;
use crate::pixel::diff_pair;
use crate::pixel::diff_pixel;
use crate::pixel::white;
use crate::pixel::Pixel;
use crate::raster::eq_img;
use crate::raster::lemma_rowmajor_bound;
use crate::raster::lemma_rowmajor_coords;
use crate::raster::RasterImage;

verus! {

/// The larger of two widths or heights.
pub open spec fn max32(a: u32, b: u32) -> u32 {
    if a >= b {
        a
    } else {
        b
    }
}

/// The four artifacts of one comparison: the two inputs passed through
/// unchanged, and the two derived images on the common canvas.
pub struct DiffResult {
    pub before: RasterImage,
    pub after: RasterImage,
    pub added: RasterImage,
    pub removed: RasterImage,
}

/// `r` is the comparison of `before` and `after`: the inputs are passed
/// through unchanged, the derived images cover the canvas
/// `(max of widths, max of heights)`, and every canvas cell is classified
/// from the two input pixels at its coordinate.
pub open spec fn is_diff_of(r: DiffResult, before: RasterImage, after: RasterImage) -> bool {
    let cw = max32(before.width, after.width);
    let ch = max32(before.height, after.height);
    &&& eq_img(r.before, before)
    &&& eq_img(r.after, after)
    &&& r.added.wf()
    &&& r.removed.wf()
    &&& r.added.width == cw
    &&& r.added.height == ch
    &&& r.removed.width == cw
    &&& r.removed.height == ch
    &&& forall|x: int, y: int|
        0 <= x < cw && 0 <= y < ch ==> #[trigger] r.added.pix(x, y) == diff_pair(
            before.pixel_at(x, y),
            after.pixel_at(x, y),
        ).0
    &&& forall|x: int, y: int|
        0 <= x < cw && 0 <= y < ch ==> #[trigger] r.removed.pix(x, y) == diff_pair(
            before.pixel_at(x, y),
            after.pixel_at(x, y),
        ).1
}

/// Copies an image.
fn copy_image(src: &RasterImage) -> (r: RasterImage)
    ensures
        eq_img(r, *src),
{
    let mut data: Vec<Pixel> = Vec::with_capacity(src.data.len());
    let mut i: usize = 0;
    while i < src.data.len()
        invariant
            i <= src.data@.len(),
            data@.len() == i,
            forall|j: int| 0 <= j < i ==> data@[j] == src.data@[j],
        decreases src.data@.len() - i,
    {
        data.push(src.data[i]);
        i = i + 1;
    }
    proof {
        assert(data@ =~= src.data@);
    }
    RasterImage { width: src.width, height: src.height, data }
}

impl DiffResult {
    /// Compares two raster images.
    ///
    /// The derived "added" and "removed" images cover the canvas sized to
    /// the element-wise maximum of the input dimensions; each cell shows
    /// opaque white where the inputs agree on R, G and B, the newer
    /// respectively older pixel where they differ, and the one available
    /// pixel where only one input covers the coordinate. The inputs come
    /// back unchanged in `before` and `after`.
    pub fn generate(before: &RasterImage, after: &RasterImage) -> (r: DiffResult)
        requires
            before.wf(),
            after.wf(),
            (max32(before.width, after.width) as int) * (max32(before.height, after.height) as int)
                <= usize::MAX as int,
        ensures
            is_diff_of(r, *before, *after),
    {
        let cw: u32 = if before.width >= after.width {
            before.width
        } else {
            after.width
        };
        let ch: u32 = if before.height >= after.height {
            before.height
        } else {
            after.height
        };
        let n: usize = (cw as usize) * (ch as usize);
        let bimg: &RasterImage = before;
        let aimg: &RasterImage = after;
        let f = move |i: usize| -> (cell: (Pixel, Pixel))
            requires
                i < n,
                bimg.wf(),
                aimg.wf(),
            ensures
                cell.0 == diff_pair(
                    bimg.pixel_at((i as int) % (cw as int), (i as int) / (cw as int)),
                    aimg.pixel_at((i as int) % (cw as int), (i as int) / (cw as int)),
                ).0,
                cell.1 == diff_pair(
                    bimg.pixel_at((i as int) % (cw as int), (i as int) / (cw as int)),
                    aimg.pixel_at((i as int) % (cw as int), (i as int) / (cw as int)),
                ).1,
            {
                proof {
                    assert(cw > 0) by (nonlinear_arith)
                        requires
                            (i as int) < (cw as int) * (ch as int),
                            0 <= i,
                    {};
                    vstd::arithmetic::div_mod::lemma_multiply_divide_lt(
                        i as int,
                        cw as int,
                        ch as int,
                    );
                }
                let x: usize = i % (cw as usize);
                let y: usize = i / (cw as usize);
                let bp = bimg.get_pixel_checked(x as u32, y as u32);
                let ap = aimg.get_pixel_checked(x as u32, y as u32);
                diff_pixel(bp, ap)
            };
        let cells = par_tabulate(n, f);
        let mut added_data: Vec<Pixel> = Vec::with_capacity(n);
        let mut removed_data: Vec<Pixel> = Vec::with_capacity(n);
        let mut i: usize = 0;
        while i < n
            invariant
                i <= n,
                cells@.len() == n,
                added_data@.len() == i,
                removed_data@.len() == i,
                forall|k: int|
                    0 <= k < i ==> #[trigger] added_data@[k] == diff_pair(
                        bimg.pixel_at(k % (cw as int), k / (cw as int)),
                        aimg.pixel_at(k % (cw as int), k / (cw as int)),
                    ).0,
                forall|k: int|
                    0 <= k < i ==> #[trigger] removed_data@[k] == diff_pair(
                        bimg.pixel_at(k % (cw as int), k / (cw as int)),
                        aimg.pixel_at(k % (cw as int), k / (cw as int)),
                    ).1,
                forall|k: usize|
                    k < n ==> #[trigger] call_ensures(f, (k,), cells@[k as int]),
                forall|k: usize, out: (Pixel, Pixel)|
                    #[trigger] call_ensures(f, (k,), out) ==> out.0 == diff_pair(
                        bimg.pixel_at((k as int) % (cw as int), (k as int) / (cw as int)),
                        aimg.pixel_at((k as int) % (cw as int), (k as int) / (cw as int)),
                    ).0,
                forall|k: usize, out: (Pixel, Pixel)|
                    #[trigger] call_ensures(f, (k,), out) ==> out.1 == diff_pair(
                        bimg.pixel_at((k as int) % (cw as int), (k as int) / (cw as int)),
                        aimg.pixel_at((k as int) % (cw as int), (k as int) / (cw as int)),
                    ).1,
            decreases n - i,
        {
            let cell = cells[i];
            proof {
                assert(call_ensures(f, (i,), cells@[i as int]));
            }
            added_data.push(cell.0);
            removed_data.push(cell.1);
            i = i + 1;
        }
        let added = RasterImage { width: cw, height: ch, data: added_data };
        let removed = RasterImage { width: cw, height: ch, data: removed_data };
        let r = DiffResult {
            before: copy_image(before),
            after: copy_image(after),
            added,
            removed,
        };
        proof {
            assert forall|x: int, y: int| 0 <= x < cw && 0 <= y < ch implies #[trigger] r.added.pix(
                x,
                y,
            ) == diff_pair(before.pixel_at(x, y), after.pixel_at(x, y)).0 by {
                lemma_rowmajor_bound(cw as int, ch as int, x, y);
                lemma_rowmajor_coords(cw as int, x, y);
                assert(r.added.data@[y * (cw as int) + x] == diff_pair(
                    bimg.pixel_at(x, y),
                    aimg.pixel_at(x, y),
                ).0);
            }
            assert forall|x: int, y: int| 0 <= x < cw && 0 <= y < ch implies #[trigger] r.removed.pix(
                x,
                y,
            ) == diff_pair(before.pixel_at(x, y), after.pixel_at(x, y)).1 by {
                lemma_rowmajor_bound(cw as int, ch as int, x, y);
                lemma_rowmajor_coords(cw as int, x, y);
                assert(r.removed.data@[y * (cw as int) + x] == diff_pair(
                    bimg.pixel_at(x, y),
                    aimg.pixel_at(x, y),
                ).1);
            }
        }
        r
    }
}

/// The comparison is deterministic: two results of comparing the same two
/// inputs hold the same four pictures, byte for byte, whatever order or
/// degree of parallelism produced each.
pub proof fn lemma_diff_deterministic(
    r1: DiffResult,
    r2: DiffResult,
    before: RasterImage,
    after: RasterImage,
)
    requires
        is_diff_of(r1, before, after),
        is_diff_of(r2, before, after),
    ensures
        eq_img(r1.before, r2.before),
        eq_img(r1.after, r2.after),
        eq_img(r1.added, r2.added),
        eq_img(r1.removed, r2.removed),
{
    let cw = max32(before.width, after.width) as int;
    let ch = max32(before.height, after.height) as int;
    assert forall|k: int| 0 <= k < r1.added.data@.len() implies r1.added.data@[k]
        == r2.added.data@[k] && r1.removed.data@[k] == r2.removed.data@[k] by {
        assert(cw > 0 && ch > 0) by (nonlinear_arith)
            requires
                0 <= k < cw * ch,
                cw >= 0,
                ch >= 0,
        {};
        let x = k % cw;
        let y = k / cw;
        vstd::arithmetic::div_mod::lemma_mod_bound(k, cw);
        vstd::arithmetic::div_mod::lemma_multiply_divide_lt(k, cw, ch);
        vstd::arithmetic::div_mod::lemma_fundamental_div_mod(k, cw);
        assert(y * cw + x == k) by (nonlinear_arith)
            requires
                k == cw * (k / cw) + k % cw,
                x == k % cw,
                y == k / cw,
        {};
        assert(r1.added.pix(x, y) == r2.added.pix(x, y));
        assert(r1.removed.pix(x, y) == r2.removed.pix(x, y));
    }
    assert(r1.added.data@ =~= r2.added.data@);
    assert(r1.removed.data@ =~= r2.removed.data@);
}

/// Unchanged cells come out white: where both inputs cover a coordinate
/// and agree on R, G and B, both derived images hold opaque white there.
pub proof fn lemma_identical_pixel(
    r: DiffResult,
    before: RasterImage,
    after: RasterImage,
    x: int,
    y: int,
)
    requires
        is_diff_of(r, before, after),
        before.pixel_at(x, y) is Some,
        after.pixel_at(x, y) is Some,
        before.pix(x, y).r == after.pix(x, y).r,
        before.pix(x, y).g == after.pix(x, y).g,
        before.pix(x, y).b == after.pix(x, y).b,
    ensures
        r.added.pix(x, y) == white(),
        r.removed.pix(x, y) == white(),
{
    crate::pixel::lemma_metric_zero(before.pix(x, y), after.pix(x, y));
    assert(r.added.pix(x, y) == diff_pair(before.pixel_at(x, y), after.pixel_at(x, y)).0);
    assert(r.removed.pix(x, y) == diff_pair(before.pixel_at(x, y), after.pixel_at(x, y)).1);
}

/// Changed cells pass the input pixels through: where both inputs cover a
/// coordinate and differ on some colour channel, "added" holds the newer
/// pixel and "removed" the older one, exactly.
pub proof fn lemma_changed_pixel(
    r: DiffResult,
    before: RasterImage,
    after: RasterImage,
    x: int,
    y: int,
)
    requires
        is_diff_of(r, before, after),
        before.pixel_at(x, y) is Some,
        after.pixel_at(x, y) is Some,
        before.pix(x, y).r != after.pix(x, y).r || before.pix(x, y).g != after.pix(x, y).g
            || before.pix(x, y).b != after.pix(x, y).b,
    ensures
        r.added.pix(x, y) == after.pix(x, y),
        r.removed.pix(x, y) == before.pix(x, y),
{
    crate::pixel::lemma_metric_zero(before.pix(x, y), after.pix(x, y));
    assert(r.added.pix(x, y) == diff_pair(before.pixel_at(x, y), after.pixel_at(x, y)).0);
    assert(r.removed.pix(x, y) == diff_pair(before.pixel_at(x, y), after.pixel_at(x, y)).1);
}

/// Cells covered by only one input show that input's pixel, identically,
/// in both derived images.
pub proof fn lemma_one_sided_pixel(
    r: DiffResult,
    before: RasterImage,
    after: RasterImage,
    x: int,
    y: int,
)
    requires
        is_diff_of(r, before, after),
        0 <= x < max32(before.width, after.width),
        0 <= y < max32(before.height, after.height),
        (before.pixel_at(x, y) is Some) != (after.pixel_at(x, y) is Some),
    ensures
        before.pixel_at(x, y) matches Some(p) ==> r.added.pix(x, y) == p && r.removed.pix(x, y)
            == p,
        after.pixel_at(x, y) matches Some(p) ==> r.added.pix(x, y) == p && r.removed.pix(x, y)
            == p,
{
    assert(r.added.pix(x, y) == diff_pair(before.pixel_at(x, y), after.pixel_at(x, y)).0);
    assert(r.removed.pix(x, y) == diff_pair(before.pixel_at(x, y), after.pixel_at(x, y)).1);
}

} // verus!
