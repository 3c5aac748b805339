//! The five operations: crop, resize, convert, compare and inspect. Each
//! takes its image as a base64 payload, and each is a function of its
//! arguments alone.

use vstd::prelude::*;
use vstd::string::*;
use vstd::utf8::is_ascii_chars;
use crate::codec::{
    announced_format, base64_decoded, base64_payload_len, decode_base64, decode_image_bytes,
    decode_image_from_base64, decoded_rgb8, detect_format, encode_image_to_base64, encoded_text,
    is_resampling_of, resample, resample_fits, source_image,
};
use crate::error::{failed_with, DecodeStage, ErrorKind, ProcessingError, ValidationReason};
use crate::format::FormatName;
use crate::geometry::{
    crop_in_bounds, resized_dimensions, resolve_crop, resolve_resize, CropParams, ResizeParams,
};
use crate::raster::{DecodedImage, PixelGrid};

verus! {

/// The format to convert to, by name, and a quality hint. The name is one of
/// "png", "jpg", "jpeg", "webp", "bmp" and "gif" in any mix of cases. The
/// hint is accepted and has no effect on the encoding.
#[derive(Debug)]
pub struct ConvertParams {
    pub format: String,
    pub quality: Option<u8>,
}

/// What crop, resize, convert and compare return: the image as a base64
/// payload, the name of its format, its dimensions, and the length of the
/// payload. `size_bytes` counts the characters of the base64 text in `data`,
/// not the encoded bytes that the text stands for.
#[derive(Debug)]
pub struct ProcessedImage {
    pub data: String,
    pub format: String,
    pub width: u32,
    pub height: u32,
    pub size_bytes: usize,
}

/// What inspect returns: the dimensions of the image, the name of the format
/// its bytes announce, and the number of bytes the payload stands for.
#[derive(Debug)]
pub struct ImageInfo {
    pub width: u32,
    pub height: u32,
    pub format: String,
    pub size_bytes: usize,
}

/// A [`ProcessedImage`] as a mathematical value.
pub struct ProcessedView {
    pub data: Seq<char>,
    pub format: Seq<char>,
    pub width: nat,
    pub height: nat,
    pub size_bytes: nat,
}

/// An [`ImageInfo`] as a mathematical value.
pub struct InfoView {
    pub width: nat,
    pub height: nat,
    pub format: Seq<char>,
    pub size_bytes: nat,
}

impl View for ProcessedImage {
    type V = ProcessedView;

    open spec fn view(&self) -> ProcessedView {
        ProcessedView {
            data: self.data@,
            format: self.format@,
            width: self.width as nat,
            height: self.height as nat,
            size_bytes: self.size_bytes as nat,
        }
    }
}

impl View for ImageInfo {
    type V = InfoView;

    open spec fn view(&self) -> InfoView {
        InfoView {
            width: self.width as nat,
            height: self.height as nat,
            format: self.format@,
            size_bytes: self.size_bytes as nat,
        }
    }
}

/// The outcome of an operation with its record taken as a mathematical
/// value, and its error without the text of its reason.
pub open spec fn outcome(out: Result<ProcessedImage, ProcessingError>) -> Result<
    ProcessedView,
    ErrorKind,
> {
    match out {
        Ok(image) => Ok(image@),
        Err(error) => Err(error.kind()),
    }
}

/// The record that packaging a grid under a format name gives: the payload
/// of the grid written in the name's format, the name in lower case, the
/// grid's dimensions and the number of characters in the payload.
pub open spec fn packaged(grid: PixelGrid, name: FormatName) -> Result<ProcessedView, ErrorKind> {
    match encoded_text(grid, name.format_of()) {
        Ok(data) => Ok(
            ProcessedView {
                data,
                format: name.text(),
                width: grid.width,
                height: grid.height,
                size_bytes: data.len(),
            },
        ),
        Err(kind) => Err(kind),
    }
}

/// What [`crop_image`] returns.
pub open spec fn crop_outcome(text: Seq<char>, params: CropParams) -> Result<
    ProcessedView,
    ErrorKind,
> {
    match source_image(text) {
        Err(kind) => Err(kind),
        Ok(grid) => if !crop_in_bounds(grid.width, grid.height, params) {
            Err(ErrorKind::Validation(ValidationReason::CropOutOfBounds))
        } else {
            packaged(
                grid.cropped(
                    params.x as nat,
                    params.y as nat,
                    params.width as nat,
                    params.height as nat,
                ),
                FormatName::Png,
            )
        },
    }
}

/// What [`convert_image_format`] returns.
pub open spec fn convert_outcome(text: Seq<char>, params: ConvertParams) -> Result<
    ProcessedView,
    ErrorKind,
> {
    match source_image(text) {
        Err(kind) => Err(kind),
        Ok(grid) => match FormatName::recognized(params.format@) {
            None => Err(ErrorKind::UnsupportedFormat(params.format@)),
            Some(name) => packaged(grid, name),
        },
    }
}

/// The dimensions that resizing `grid` produces, or the reason why the
/// request is refused: it has no valid target, or the result cannot be held
/// in memory.
pub open spec fn resize_target(grid: PixelGrid, params: ResizeParams) -> Result<
    (nat, nat),
    ValidationReason,
> {
    match resized_dimensions(grid.width, grid.height, params) {
        Some((width, height)) => if 0 <= width && 0 <= height && resample_fits(
            grid.width,
            width as nat,
            height as nat,
        ) {
            Ok((width as nat, height as nat))
        } else {
            Err(ValidationReason::TargetTooLarge)
        },
        None => Err(ValidationReason::AspectUndefined),
    }
}

/// The common canvas of two grids: the larger width and the larger height,
/// each taken on its own.
pub open spec fn canvas_of(a: PixelGrid, b: PixelGrid) -> (nat, nat) {
    (
        if a.width >= b.width {
            a.width
        } else {
            b.width
        },
        if a.height >= b.height {
            a.height
        } else {
            b.height
        },
    )
}

/// Both grids can be resampled to their common canvas in memory.
pub open spec fn canvas_fits(a: PixelGrid, b: PixelGrid) -> bool {
    resample_fits(a.width, canvas_of(a, b).0, canvas_of(a, b).1) && resample_fits(
        b.width,
        canvas_of(a, b).0,
        canvas_of(a, b).1,
    )
}

/// `diff` is the enhanced difference of some resampling of `a` and some
/// resampling of `b` to their common canvas.
pub open spec fn is_canvas_difference(diff: PixelGrid, a: PixelGrid, b: PixelGrid) -> bool {
    exists|on_a: PixelGrid, on_b: PixelGrid|
        #![trigger on_a.difference(on_b)]
        is_resampling_of(on_a, a, canvas_of(a, b).0, canvas_of(a, b).1) && is_resampling_of(
            on_b,
            b,
            canvas_of(a, b).0,
            canvas_of(a, b).1,
        ) && diff == on_a.difference(on_b)
}

/// Wraps an image into a result record under a format name.
pub fn package_image(img: &DecodedImage, name: FormatName) -> (out: Result<
    ProcessedImage,
    ProcessingError,
>)
    ensures
        outcome(out) == packaged(img@, name),
{
    let width = img.width();
    let height = img.height();
    match encode_image_to_base64(img, name.format()) {
        Ok(data) => {
            let text = data.as_str();
            proof {
                is_ascii_spec_bytes(text);
                assert(is_ascii(text));
                assert(text.spec_bytes().len() == text@.len());
            }
            let size_bytes = text.len();
            Ok(ProcessedImage { data, format: name.to_text(), width, height, size_bytes })
        },
        Err(error) => Err(error),
    }
}

/// Resizes an image: resolves the target dimensions, then resamples to
/// exactly those. Fails with [`ProcessingError::Validation`] exactly when
/// the request has no valid target or the result cannot be held in memory,
/// and says which.
pub fn resize_decoded(img: &DecodedImage, params: &ResizeParams) -> (out: Result<
    DecodedImage,
    ProcessingError,
>)
    ensures
        match resize_target(img@, *params) {
            Ok((width, height)) => out is Ok && is_resampling_of(out->Ok_0@, img@, width, height),
            Err(reason) => out == Err::<DecodedImage, ProcessingError>(
                ProcessingError::Validation(reason),
            ),
        },
{
    match resolve_resize(img.width(), img.height(), params) {
        Ok((width, height)) => match resample(img, width, height) {
            Some(resized) => Ok(resized),
            None => Err(ProcessingError::Validation(ValidationReason::TargetTooLarge)),
        },
        Err(error) => Err(error),
    }
}

/// The enhanced difference of two images on their common canvas. Both are
/// stretched to the larger width and the larger height, then compared
/// channel by channel. Fails with [`ProcessingError::BufferConstruction`]
/// exactly when the canvas cannot be held in memory.
pub fn difference_on_canvas(a: &DecodedImage, b: &DecodedImage) -> (out: Result<
    DecodedImage,
    ProcessingError,
>)
    ensures
        canvas_fits(a@, b@) ==> out is Ok && is_canvas_difference(out->Ok_0@, a@, b@)
            && out->Ok_0@.well_formed() && out->Ok_0@.width == canvas_of(a@, b@).0
            && out->Ok_0@.height == canvas_of(a@, b@).1,
        canvas_fits(a@, b@) && a@.width == b@.width && a@.height == b@.height ==> out->Ok_0@
            == a@.difference(b@),
        !canvas_fits(a@, b@) ==> out == Err::<DecodedImage, ProcessingError>(
            ProcessingError::BufferConstruction,
        ),
{
    let width = if a.width() >= b.width() {
        a.width()
    } else {
        b.width()
    };
    let height = if a.height() >= b.height() {
        a.height()
    } else {
        b.height()
    };
    let on_a = match resample(a, width, height) {
        Some(resampled) => resampled,
        None => {
            return Err(ProcessingError::BufferConstruction);
        },
    };
    let on_b = match resample(b, width, height) {
        Some(resampled) => resampled,
        None => {
            return Err(ProcessingError::BufferConstruction);
        },
    };
    on_a.difference(&on_b)
}

/// Cuts the rectangle `params` out of an image and returns it as PNG. The
/// pixels are copied one for one, and the result has exactly the requested
/// width and height. A rectangle that reaches beyond the image on either
/// axis fails with [`ProcessingError::Validation`].
pub fn crop_image(base64_data: &str, params: CropParams) -> (out: Result<
    ProcessedImage,
    ProcessingError,
>)
    ensures
        outcome(out) == crop_outcome(base64_data@, params),
        out matches Ok(image) ==> image.width == params.width && image.height == params.height,
{
    let img = match decode_image_from_base64(base64_data) {
        Ok(img) => img,
        Err(error) => {
            return Err(error);
        },
    };
    let (x, y, width, height) = match resolve_crop(img.width(), img.height(), &params) {
        Ok(rect) => rect,
        Err(error) => {
            return Err(error);
        },
    };
    match img.crop(x, y, width, height) {
        Ok(cropped) => package_image(&cropped, FormatName::Png),
        Err(error) => Err(error),
    }
}

/// Resizes an image with the three-lobe Lanczos filter and returns it as
/// PNG. The result has exactly the dimensions that
/// [`resized_dimensions`] gives for the source and the request.
pub fn resize_image(base64_data: &str, params: ResizeParams) -> (out: Result<
    ProcessedImage,
    ProcessingError,
>)
    ensures
        match source_image(base64_data@) {
            Err(kind) => failed_with(out, kind),
            Ok(grid) => match resize_target(grid, params) {
                Err(reason) => out == Err::<ProcessedImage, ProcessingError>(
                    ProcessingError::Validation(reason),
                ),
                Ok((width, height)) => exists|resampled: PixelGrid|
                    #![trigger packaged(resampled, FormatName::Png)]
                    is_resampling_of(resampled, grid, width, height) && outcome(out) == packaged(
                        resampled,
                        FormatName::Png,
                    ),
            },
        },
        out matches Ok(image) ==> resize_target(source_image(base64_data@)->Ok_0, params) == Ok::<
            (nat, nat),
            ValidationReason,
        >((image.width as nat, image.height as nat)),
{
    let img = match decode_image_from_base64(base64_data) {
        Ok(img) => img,
        Err(error) => {
            return Err(error);
        },
    };
    match resize_decoded(&img, &params) {
        Ok(resized) => package_image(&resized, FormatName::Png),
        Err(error) => Err(error),
    }
}

/// Writes an image in the format that `params.format` names, whatever the
/// case of its letters. The dimensions do not change. A name outside the
/// known ones fails with [`ProcessingError::UnsupportedFormat`], which holds
/// the name as given.
pub fn convert_image_format(base64_data: &str, params: ConvertParams) -> (out: Result<
    ProcessedImage,
    ProcessingError,
>)
    ensures
        outcome(out) == convert_outcome(base64_data@, params),
{
    let img = match decode_image_from_base64(base64_data) {
        Ok(img) => img,
        Err(error) => {
            return Err(error);
        },
    };
    match FormatName::parse(params.format.as_str()) {
        Some(name) => package_image(&img, name),
        None => Err(ProcessingError::UnsupportedFormat(params.format)),
    }
}

/// Returns the enhanced difference of two images as PNG, on a canvas of the
/// larger width and the larger height of the two.
pub fn compare_images(base64_data1: &str, base64_data2: &str) -> (out: Result<
    ProcessedImage,
    ProcessingError,
>)
    ensures
        match (source_image(base64_data1@), source_image(base64_data2@)) {
            (Ok(first), Ok(second)) => if canvas_fits(first, second) {
                &&& exists|diff: PixelGrid|
                    #![trigger packaged(diff, FormatName::Png)]
                    is_canvas_difference(diff, first, second) && outcome(out) == packaged(
                        diff,
                        FormatName::Png,
                    )
                &&& first.width == second.width && first.height == second.height ==> outcome(out)
                    == packaged(first.difference(second), FormatName::Png)
            } else {
                out == Err::<ProcessedImage, ProcessingError>(ProcessingError::BufferConstruction)
            },
            (Err(kind), _) => failed_with(out, kind),
            (Ok(_), Err(kind)) => failed_with(out, kind),
        },
        out matches Ok(image) ==> (image.width as nat, image.height as nat) == canvas_of(
            source_image(base64_data1@)->Ok_0,
            source_image(base64_data2@)->Ok_0,
        ),
{
    let img1 = match decode_image_from_base64(base64_data1) {
        Ok(img) => img,
        Err(error) => {
            return Err(error);
        },
    };
    let img2 = match decode_image_from_base64(base64_data2) {
        Ok(img) => img,
        Err(error) => {
            return Err(error);
        },
    };
    match difference_on_canvas(&img1, &img2) {
        Ok(diff) => package_image(&diff, FormatName::Png),
        Err(error) => Err(error),
    }
}

/// Reports the dimensions of an image, the format that its bytes announce
/// ("unknown" where they announce none of the reported ones), and the number
/// of bytes that the payload stands for. That number follows from the text
/// alone: three bytes for every four characters, less one for each `=` at
/// the end.
pub fn get_image_info(base64_data: &str) -> (out: Result<ImageInfo, ProcessingError>)
    ensures
        match base64_decoded(base64_data@) {
            Some(bytes) => match decoded_rgb8(bytes) {
                Some(grid) => out is Ok && out->Ok_0@ == (InfoView {
                    width: grid.width,
                    height: grid.height,
                    format: announced_format(bytes).text(),
                    size_bytes: bytes.len(),
                }) && out->Ok_0.size_bytes == base64_payload_len(base64_data@),
                None => failed_with(out, ErrorKind::Decode(DecodeStage::Image)),
            },
            None => failed_with(out, ErrorKind::Decode(DecodeStage::Base64)),
        },
{
    let data = match decode_base64(base64_data) {
        Ok(data) => data,
        Err(error) => {
            return Err(error);
        },
    };
    let img = match decode_image_bytes(&data) {
        Ok(img) => img,
        Err(error) => {
            return Err(error);
        },
    };
    let format = detect_format(&data).to_text();
    Ok(ImageInfo { width: img.width(), height: img.height(), format, size_bytes: data.len() })
}

} // verus!
