//! Compositing a translucent watermark onto photographs.
//!
//! The pipeline works on RGBA8 bitmaps held as plain values. Slider
//! positions, scale and opacity are fixed-point fractions of `PARAM_UNIT`.
//! RAW sensor samples are cut to 8 bits when they are decoded, so the
//! compositor works at one bit depth and every result is RGBA8.
pub mod alpha;
pub mod batch;
pub mod bitmap;
pub mod composite;
pub mod decode;
pub mod params;
pub mod placement;
pub mod resample;

pub use alpha::{apply_opacity, scale_alpha};
pub use batch::{check_ready, output_file_name, tally, BatchReport, ConfigError};
pub use bitmap::Bitmap;
pub use composite::{apply_watermark, composite};
pub use decode::{classify_extension, is_watermark_extension, raw_to_bitmap, DecodeError, FormatKind, RawSamples};
pub use params::{WatermarkParams, PARAM_UNIT};
pub use placement::place;
pub use resample::target_size;
