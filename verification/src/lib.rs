//! Core of a drawing-comparison tool: a pixel-differencing engine over
//! raster images, and an epoch-guarded holder for the outcome of the most
//! recently requested background operation.

pub mod binding;
pub mod diff;
pub mod images;
mod parallel;
pub mod pdf;
pub mod pixel;
pub mod raster;
pub mod util;

pub use binding::AsyncBinding;
pub use binding::BindState;
pub use diff::DiffResult;
pub use images::Images;
pub use pdf::Pdf;
pub use pixel::Pixel;
pub use raster::RasterImage;
pub use util::ref_into_string;
