//! The way in and out of pixel grids: base64 text, image containers and the
//! resampling filter. The encoders, decoders and the filter are those of the
//! `base64` and `image` crates; what is believed of them is stated here, on
//! the functions that call them.

use vstd::prelude::*;
use vstd::utf8::is_ascii_chars;
use base64::Engine;
use crate::error::{failed_with, DecodeStage, EncodeStage, ErrorKind, ProcessingError};
use crate::format::{DetectedFormat, OutputFormat};
use crate::raster::{DecodedImage, PixelGrid};

verus! {

/// `base64::DecodeError`, carried from the decoder to the caller that maps it.
#[verifier::external_type_specification]
#[verifier::external_body]
pub struct ExBase64DecodeError(base64::DecodeError);

/// `image::ImageError`, carried from a codec to the caller that maps it.
#[verifier::external_type_specification]
#[verifier::external_body]
pub struct ExImageError(image::ImageError);

/// The bytes that `text` stands for in standard, padded base64; `None` for
/// text that is not canonical base64.
pub uninterp spec fn base64_decoded(text: Seq<char>) -> Option<Seq<u8>>;

/// The standard, padded base64 text of `bytes`.
pub uninterp spec fn base64_encoded(bytes: Seq<u8>) -> Seq<char>;

/// The RGB pixel grid that an encoded image holds; `None` for bytes that are
/// truncated, corrupt or in no recognised container.
pub uninterp spec fn decoded_rgb8(bytes: Seq<u8>) -> Option<PixelGrid>;

/// The bytes of a pixel grid written in `format`; `None` where the format
/// cannot hold the grid.
pub uninterp spec fn encoded_image(grid: PixelGrid, format: OutputFormat) -> Option<Seq<u8>>;

/// The number of `=` characters that `text` ends in, up to two.
pub open spec fn trailing_pads(text: Seq<char>) -> nat {
    if text.len() >= 2 && text[text.len() - 1] == '=' && text[text.len() - 2] == '=' {
        2
    } else if text.len() >= 1 && text[text.len() - 1] == '=' {
        1
    } else {
        0
    }
}

/// The number of bytes that padded base64 text of this shape stands for:
/// three for every four characters, less one for each `=` at the end.
pub open spec fn base64_payload_len(text: Seq<char>) -> int {
    3 * (text.len() / 4) - trailing_pads(text)
}

/// The number of characters in the base64 text of this many bytes: four for
/// every three bytes begun.
pub open spec fn base64_text_len(len: nat) -> nat {
    4 * ((len + 2) / 3)
}

/// The base64 text of this many bytes can be held in memory.
pub open spec fn base64_fits(len: nat) -> bool {
    base64_text_len(len) <= isize::MAX
}

/// `bytes` begins with `prefix`.
pub open spec fn has_prefix(bytes: Seq<u8>, prefix: Seq<u8>) -> bool {
    bytes.len() >= prefix.len() && bytes.subrange(0, prefix.len() as int) == prefix
}

/// The bytes begin with the PNG signature.
pub open spec fn announces_png(bytes: Seq<u8>) -> bool {
    has_prefix(bytes, seq![0x89u8, 0x50, 0x4e, 0x47, 0x0d, 0x0a, 0x1a, 0x0a])
}

/// The bytes begin with the JPEG start-of-image marker.
pub open spec fn announces_jpeg(bytes: Seq<u8>) -> bool {
    has_prefix(bytes, seq![0xffu8, 0xd8, 0xff])
}

/// The bytes begin with `GIF89a` or `GIF87a`.
pub open spec fn announces_gif(bytes: Seq<u8>) -> bool {
    has_prefix(bytes, seq![0x47u8, 0x49, 0x46, 0x38, 0x39, 0x61]) || has_prefix(
        bytes,
        seq![0x47u8, 0x49, 0x46, 0x38, 0x37, 0x61],
    )
}

/// The bytes begin with `RIFF`, four bytes of any value, then `WEBP`.
pub open spec fn announces_webp(bytes: Seq<u8>) -> bool {
    bytes.len() >= 12 && bytes.subrange(0, 4) == seq![0x52u8, 0x49, 0x46, 0x46] && bytes.subrange(
        8,
        12,
    ) == seq![0x57u8, 0x45, 0x42, 0x50]
}

/// The bytes begin with `BM`.
pub open spec fn announces_bmp(bytes: Seq<u8>) -> bool {
    has_prefix(bytes, seq![0x42u8, 0x4d])
}

/// The reported container that the leading bytes of a payload announce, or
/// `Unknown` where they announce none of the five.
pub open spec fn announced_format(bytes: Seq<u8>) -> DetectedFormat {
    if announces_png(bytes) {
        DetectedFormat::Png
    } else if announces_jpeg(bytes) {
        DetectedFormat::Jpeg
    } else if announces_gif(bytes) {
        DetectedFormat::Gif
    } else if announces_webp(bytes) {
        DetectedFormat::WebP
    } else if announces_bmp(bytes) {
        DetectedFormat::Bmp
    } else {
        DetectedFormat::Unknown
    }
}

/// Both buffers that resampling allocates can be held in memory: the result
/// of three bytes per pixel, and the intermediate grid of source width and
/// target height with sixteen bytes per pixel.
pub open spec fn resample_fits(source_width: nat, width: nat, height: nat) -> bool {
    3 * (width * height) <= isize::MAX && 16 * (source_width * height) <= isize::MAX
}

/// What resampling `source` to `width` by `height` may give: a grid of
/// exactly that size, and the source itself where the size does not change.
pub open spec fn is_resampling_of(out: PixelGrid, source: PixelGrid, width: nat, height: nat) -> bool {
    &&& out.well_formed()
    &&& out.width == width
    &&& out.height == height
    &&& (source.width == width && source.height == height ==> out == source)
}

/// `Engine::decode` of base64's `STANDARD` engine. Believed: the outcome is
/// a function of the text alone; and text that decodes has canonical
/// padding, so its length is a multiple of four and it stands for three
/// bytes for every four characters, less one for each `=` at its end.
#[verifier::external_body]
fn base64_decode(text: &str) -> (out: Result<Vec<u8>, base64::DecodeError>)
    ensures
        out is Ok <==> base64_decoded(text@) is Some,
        out matches Ok(bytes) ==> base64_decoded(text@) == Some(bytes@),
        out matches Ok(bytes) ==> text@.len() % 4 == 0 && bytes@.len() == base64_payload_len(
            text@,
        ),
{
    base64::engine::general_purpose::STANDARD.decode(text)
}

/// `Engine::encode` of base64's `STANDARD` engine. Believed: the text is a
/// function of the bytes alone, has four characters for every three bytes
/// begun, and is ASCII. The call panics where that many characters cannot be
/// allocated, which the precondition excludes.
#[verifier::external_body]
fn base64_encode(bytes: &Vec<u8>) -> (out: String)
    requires
        base64_fits(bytes@.len()),
    ensures
        out@ == base64_encoded(bytes@),
        out@.len() == base64_text_len(bytes@.len()),
        is_ascii_chars(out@),
{
    base64::engine::general_purpose::STANDARD.encode(bytes)
}

/// `image::guess_format`, then `image::load_from_memory_with_format` with
/// the guess, then `DynamicImage::to_rgb8`. Neither call consults the
/// decoders or signatures that a process may register. Believed: the outcome
/// is a function of the bytes alone, and a decoded grid has exactly three
/// bytes for each of its pixels.
#[verifier::external_body]
fn decode_rgb8(bytes: &Vec<u8>) -> (out: Result<DecodedImage, image::ImageError>)
    ensures
        out is Ok <==> decoded_rgb8(bytes@) is Some,
        out matches Ok(img) ==> decoded_rgb8(bytes@) == Some(img@) && img@.well_formed(),
{
    let format = image::guess_format(bytes)?;
    let rgb = image::load_from_memory_with_format(bytes, format)?.to_rgb8();
    Ok(DecodedImage { width: rgb.width(), height: rgb.height(), pixels: rgb.into_raw() })
}

/// `DynamicImage::write_to` on an RGB image, into a buffer in memory.
/// Believed: the outcome is a function of the grid and the format alone.
#[verifier::external_body]
fn encode_rgb8(img: &DecodedImage, format: OutputFormat) -> (out: Result<Vec<u8>, image::ImageError>)
    ensures
        out is Ok <==> encoded_image(img@, format) is Some,
        out matches Ok(bytes) ==> encoded_image(img@, format) == Some(bytes@),
{
    let target = match format {
        OutputFormat::Png => image::ImageFormat::Png,
        OutputFormat::Jpeg => image::ImageFormat::Jpeg,
        OutputFormat::WebP => image::ImageFormat::WebP,
        OutputFormat::Bmp => image::ImageFormat::Bmp,
        OutputFormat::Gif => image::ImageFormat::Gif,
    };
    let source = image::RgbImage::from_raw(img.width, img.height, img.pixels.clone()).unwrap();
    let mut buffer = Vec::new();
    let written = image::DynamicImage::ImageRgb8(source).write_to(std::io::Cursor::new(&mut buffer), target);
    match written {
        Ok(()) => Ok(buffer),
        Err(error) => Err(error),
    }
}

/// `DynamicImage::resize_exact` with the `Lanczos3` filter, on an RGB image.
/// Believed: the result has exactly the dimensions asked for, and is a copy
/// of the source where they are the source's own. Nothing else is claimed of
/// the pixels, which come of floating-point arithmetic. The call panics where
/// one of its two buffers cannot be allocated, which the precondition
/// excludes.
#[verifier::external_body]
fn resample_lanczos3(img: &DecodedImage, width: u32, height: u32) -> (out: DecodedImage)
    requires
        resample_fits(img@.width, width as nat, height as nat),
    ensures
        is_resampling_of(out@, img@, width as nat, height as nat),
{
    let source = image::RgbImage::from_raw(img.width, img.height, img.pixels.clone()).unwrap();
    let filter = image::imageops::FilterType::Lanczos3;
    let resized = image::DynamicImage::ImageRgb8(source).resize_exact(width, height, filter);
    DecodedImage { width: resized.width(), height: resized.height(), pixels: resized.into_rgb8().into_raw() }
}

/// `image::guess_format`. Believed: the guess is one of the five reported
/// containers exactly when the bytes begin with that container's signature;
/// otherwise it is `Other` for another container and `Unknown` for none.
#[verifier::external_body]
fn sniff_format(bytes: &Vec<u8>) -> (out: DetectedFormat)
    ensures
        announced_format(bytes@) != DetectedFormat::Unknown ==> out == announced_format(bytes@),
        announced_format(bytes@) == DetectedFormat::Unknown ==> out == DetectedFormat::Other
            || out == DetectedFormat::Unknown,
{
    match image::guess_format(bytes) {
        Ok(image::ImageFormat::Png) => DetectedFormat::Png,
        Ok(image::ImageFormat::Jpeg) => DetectedFormat::Jpeg,
        Ok(image::ImageFormat::WebP) => DetectedFormat::WebP,
        Ok(image::ImageFormat::Gif) => DetectedFormat::Gif,
        Ok(image::ImageFormat::Bmp) => DetectedFormat::Bmp,
        Ok(_) => DetectedFormat::Other,
        Err(_) => DetectedFormat::Unknown,
    }
}

/// `ToString::to_string` on a `base64::DecodeError`: the decoder's own
/// description of the failure. Nothing is claimed of the text.
#[verifier::external_body]
fn base64_error_text(error: &base64::DecodeError) -> (text: String) {
    error.to_string()
}

/// `ToString::to_string` on an `image::ImageError`: the codec's own
/// description of the failure. Nothing is claimed of the text.
#[verifier::external_body]
fn image_error_text(error: &image::ImageError) -> (text: String) {
    error.to_string()
}

/// The pixel grid that a base64 payload holds, or the stage of decoding
/// that refuses it.
pub open spec fn source_image(text: Seq<char>) -> Result<PixelGrid, ErrorKind> {
    match base64_decoded(text) {
        Some(bytes) => match decoded_rgb8(bytes) {
            Some(grid) => Ok(grid),
            None => Err(ErrorKind::Decode(DecodeStage::Image)),
        },
        None => Err(ErrorKind::Decode(DecodeStage::Base64)),
    }
}

/// The base64 payload of a grid written in `format`, or the stage of
/// encoding that cannot go on.
pub open spec fn encoded_text(grid: PixelGrid, format: OutputFormat) -> Result<Seq<char>, ErrorKind> {
    match encoded_image(grid, format) {
        Some(bytes) => if base64_fits(bytes.len()) {
            Ok(base64_encoded(bytes))
        } else {
            Err(ErrorKind::Encode(EncodeStage::Base64))
        },
        None => Err(ErrorKind::Encode(EncodeStage::Image)),
    }
}

/// Whether resampling a source of this width to `width` by `height` can be
/// held in memory.
pub fn resample_is_possible(source_width: u32, width: u32, height: u32) -> (fits: bool)
    ensures
        fits == resample_fits(source_width as nat, width as nat, height as nat),
{
    assert((width as u128) * (height as u128) <= 0xffff_ffff * 0xffff_ffff) by (nonlinear_arith)
        requires
            width <= 0xffff_ffff,
            height <= 0xffff_ffff,
    ;
    assert((source_width as u128) * (height as u128) <= 0xffff_ffff * 0xffff_ffff)
        by (nonlinear_arith)
        requires
            source_width <= 0xffff_ffff,
            height <= 0xffff_ffff,
    ;
    let limit = isize::MAX as u128;
    3 * ((width as u128) * (height as u128)) <= limit && 16 * ((source_width as u128) * (
    height as u128)) <= limit
}

/// Decodes the bytes of an encoded image into its pixel grid. The container
/// is always taken from the bytes themselves.
pub fn decode_image_bytes(bytes: &Vec<u8>) -> (out: Result<DecodedImage, ProcessingError>)
    ensures
        match decoded_rgb8(bytes@) {
            Some(grid) => out is Ok && out->Ok_0@ == grid && grid.well_formed(),
            None => failed_with(out, ErrorKind::Decode(DecodeStage::Image)),
        },
{
    match decode_rgb8(bytes) {
        Ok(img) => Ok(img),
        Err(error) => Err(ProcessingError::Decode(DecodeStage::Image, image_error_text(&error))),
    }
}

/// Turns a base64 payload into the bytes it stands for. Their number
/// follows from the length of the text and the padding at its end.
pub fn decode_base64(base64_data: &str) -> (out: Result<Vec<u8>, ProcessingError>)
    ensures
        match base64_decoded(base64_data@) {
            Some(bytes) => out is Ok && out->Ok_0@ == bytes && base64_data@.len() % 4 == 0
                && bytes.len() == base64_payload_len(base64_data@),
            None => failed_with(out, ErrorKind::Decode(DecodeStage::Base64)),
        },
{
    match base64_decode(base64_data) {
        Ok(bytes) => Ok(bytes),
        Err(error) => Err(ProcessingError::Decode(DecodeStage::Base64, base64_error_text(&error))),
    }
}

/// Decodes a base64 payload into a pixel grid. Fails at the base64 stage
/// exactly when the text is not base64, and at the image stage exactly when
/// its bytes are not a decodable image.
pub fn decode_image_from_base64(base64_data: &str) -> (out: Result<DecodedImage, ProcessingError>)
    ensures
        match source_image(base64_data@) {
            Ok(grid) => out is Ok && out->Ok_0@ == grid && grid.well_formed(),
            Err(kind) => failed_with(out, kind),
        },
{
    match decode_base64(base64_data) {
        Ok(bytes) => decode_image_bytes(&bytes),
        Err(error) => Err(error),
    }
}

/// Writes a pixel grid in `format` and returns it as base64 text of four
/// characters for every three encoded bytes begun. Fails at the image stage
/// exactly when the format cannot hold the grid, and at the base64 stage
/// exactly when the text cannot be held in memory.
pub fn encode_image_to_base64(img: &DecodedImage, format: OutputFormat) -> (out: Result<
    String,
    ProcessingError,
>)
    ensures
        match encoded_text(img@, format) {
            Ok(text) => out is Ok && out->Ok_0@ == text && is_ascii_chars(text) && text.len()
                == base64_text_len(encoded_image(img@, format)->Some_0.len()) && text.len()
                <= isize::MAX,
            Err(kind) => failed_with(out, kind),
        },
{
    match encode_rgb8(img, format) {
        Ok(bytes) => {
            let chunks: u128 = (bytes.len() as u128 + 2) / 3;
            if 4 * chunks <= isize::MAX as u128 {
                Ok(base64_encode(&bytes))
            } else {
                Err(
                    ProcessingError::Encode(
                        EncodeStage::Base64,
                        "the encoded image is too large".to_owned(),
                    ),
                )
            }
        },
        Err(error) => Err(ProcessingError::Encode(EncodeStage::Image, image_error_text(&error))),
    }
}

/// Resamples an image to exactly `width` by `height` with the three-lobe
/// Lanczos filter, stretching it where the proportions differ; `None` where
/// the result cannot be held in memory.
pub fn resample(img: &DecodedImage, width: u32, height: u32) -> (out: Option<DecodedImage>)
    ensures
        out is Some <==> resample_fits(img@.width, width as nat, height as nat),
        out matches Some(resampled) ==> is_resampling_of(
            resampled@,
            img@,
            width as nat,
            height as nat,
        ),
{
    if resample_is_possible(img.width(), width, height) {
        Some(resample_lanczos3(img, width, height))
    } else {
        None
    }
}

/// The container that the leading bytes of a payload announce. Its name is
/// that of the announced one of the five reported containers, and "unknown"
/// for every other.
pub fn detect_format(bytes: &Vec<u8>) -> (out: DetectedFormat)
    ensures
        announced_format(bytes@) != DetectedFormat::Unknown ==> out == announced_format(bytes@),
        announced_format(bytes@) == DetectedFormat::Unknown ==> out == DetectedFormat::Other
            || out == DetectedFormat::Unknown,
        out.text() == announced_format(bytes@).text(),
{
    sniff_format(bytes)
}

/// A payload that decodes is longer than the bytes it stands for, unless it
/// is empty.
pub proof fn lemma_payload_is_longer_than_bytes(text: Seq<char>)
    requires
        text.len() % 4 == 0,
        text.len() > 0,
    ensures
        0 <= base64_payload_len(text) < text.len(),
{
}

} // verus!
