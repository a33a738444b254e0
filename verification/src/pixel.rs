//! Pixels and the per-pixel change classification.
//!
//! A pixel is a 4-channel RGBA byte tuple. Two pixels are compared by a
//! change metric: the saturating sum of the XOR of the three colour
//! channels (alpha excluded). The metric is used purely as a zero/non-zero
//! change flag: zero exactly when R, G and B agree byte for byte.

use vstd::prelude::*;

verus! {

/// One RGBA pixel, channels as bytes.
#[derive(Clone, Copy, Debug, PartialEq, Eq, Structural)]
pub struct Pixel {
    pub r: u8,
    pub g: u8,
    pub b: u8,
    pub a: u8,
}

/// The opaque white pixel used for unchanged cells of the derived images.
pub open spec fn white() -> Pixel {
    Pixel { r: 255, g: 255, b: 255, a: 255 }
}

impl Pixel {
    /// Builds a pixel from its four channels.
    pub fn new(r: u8, g: u8, b: u8, a: u8) -> (p: Pixel)
        ensures
            p == (Pixel { r, g, b, a }),
    {
        Pixel { r, g, b, a }
    }

    /// The opaque white pixel.
    pub fn white() -> (p: Pixel)
        ensures
            p == white(),
    {
        Pixel { r: 255, g: 255, b: 255, a: 255 }
    }
}

/// The change metric between a pixel of the older image and a pixel of the
/// newer one: saturating sum of the channel-wise XOR over R, G and B.
pub open spec fn metric(before: Pixel, after: Pixel) -> u8 {
    ((before.r ^ after.r).saturating_add(before.g ^ after.g)).saturating_add(
        before.b ^ after.b,
    )
}

/// The metric is zero exactly when the three colour channels agree.
pub proof fn lemma_metric_zero(before: Pixel, after: Pixel)
    ensures
        metric(before, after) == 0 <==> (before.r == after.r && before.g == after.g
            && before.b == after.b),
{
    let xr = before.r;
    let yr = after.r;
    let xg = before.g;
    let yg = after.g;
    let xb = before.b;
    let yb = after.b;
    assert((xr ^ yr) == 0 <==> xr == yr) by (bit_vector);
    assert((xg ^ yg) == 0 <==> xg == yg) by (bit_vector);
    assert((xb ^ yb) == 0 <==> xb == yb) by (bit_vector);
}

/// What one canvas cell of the derived images holds, as a pure function of
/// the two input pixels at that coordinate: `.0` is the cell of the
/// "added" image, `.1` the cell of the "removed" image.
///
/// Where both inputs have a pixel, an unchanged cell (metric zero) is
/// opaque white in both outputs, and a changed cell shows the newer pixel
/// in "added" and the older one in "removed". A cell covered by only one
/// input shows that input's pixel in both outputs. A cell covered by
/// neither input (possible only when each input exceeds the other in one
/// dimension) is opaque white in both.
pub open spec fn diff_pair(before: Option<Pixel>, after: Option<Pixel>) -> (Pixel, Pixel) {
    match (before, after) {
        (Some(b), Some(a)) => if metric(b, a) == 0 {
            (white(), white())
        } else {
            (a, b)
        },
        (Some(b), None) => (b, b),
        (None, Some(a)) => (a, a),
        (None, None) => (white(), white()),
    }
}

/// Classifies one canvas cell from the two input pixels at its coordinate.
pub fn diff_pixel(before: Option<Pixel>, after: Option<Pixel>) -> (r: (Pixel, Pixel))
    ensures
        r == diff_pair(before, after),
{
    match (before, after) {
        (Some(b), Some(a)) => {
            let m = ((b.r ^ a.r).saturating_add(b.g ^ a.g)).saturating_add(b.b ^ a.b);
            if m == 0 {
                (Pixel::white(), Pixel::white())
            } else {
                (a, b)
            }
        },
        (Some(b), None) => (b, b),
        (None, Some(a)) => (a, a),
        (None, None) => (Pixel::white(), Pixel::white()),
    }
}

} // verus!
