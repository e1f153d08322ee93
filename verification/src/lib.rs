//! An 8-bit RGB raster image stored in channel-major (planar) layout, with
//! lossless conversion to and from the row-major interleaved ("packed") byte
//! layout, and a lazy per-pixel pipeline (RGB zip plus greyscale conversion).

mod channel;
pub mod image;
pub mod pixel;

pub use image::RgbError;
pub use image::RgbImg;
pub use pixel::Greyscale;
pub use pixel::GreyscaleIter;
pub use pixel::RgbIter;
pub use pixel::RgbSource;
pub use pixel::luma;
