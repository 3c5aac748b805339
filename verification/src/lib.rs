//! On-demand raster image transformations: cropping, aspect-aware resizing,
//! format conversion, pixel-difference comparison and metadata inspection.
//!
//! Payloads travel as base64 text. Every operation is a stateless function
//! from its arguments to a result record or a [`ProcessingError`].

pub mod codec;
pub mod error;
pub mod format;
pub mod geometry;
pub mod ops;
pub mod raster;

pub use crate::codec::{decode_image_from_base64, encode_image_to_base64};
pub use crate::error::{DecodeStage, EncodeStage, ProcessingError, ValidationReason};
pub use crate::format::{DetectedFormat, FormatName, OutputFormat};
pub use crate::geometry::{CropParams, ResizeParams};
pub use crate::ops::{
    compare_images, convert_image_format, crop_image, get_image_info, resize_image, ConvertParams,
    ImageInfo, ProcessedImage,
};
pub use crate::raster::{DecodedImage, PixelGrid};
