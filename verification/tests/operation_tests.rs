use base64::Engine;
use image_processor::codec::{decode_base64, decode_image_bytes, detect_format, resample};
use image_processor::ops::{difference_on_canvas, package_image, resize_decoded};
use image_processor::{
    compare_images, convert_image_format, crop_image, decode_image_from_base64,
    encode_image_to_base64, get_image_info, resize_image, ConvertParams, CropParams,
    DecodeStage, DecodedImage, DetectedFormat, EncodeStage, FormatName, OutputFormat,
    ProcessedImage, ProcessingError, ResizeParams, ValidationReason,
};

fn fails_at_base64<T>(out: Result<T, ProcessingError>) -> bool {
    match out {
        Err(ProcessingError::Decode(DecodeStage::Base64, reason)) => !reason.is_empty(),
        _ => false,
    }
}

fn fails_at_image<T>(out: Result<T, ProcessingError>) -> bool {
    match out {
        Err(ProcessingError::Decode(DecodeStage::Image, reason)) => !reason.is_empty(),
        _ => false,
    }
}

fn fails_at_encoding<T>(out: Result<T, ProcessingError>) -> bool {
    match out {
        Err(ProcessingError::Encode(EncodeStage::Image, reason)) => !reason.is_empty(),
        _ => false,
    }
}

fn patterned(width: u32, height: u32) -> DecodedImage {
    let mut pixels = Vec::new();
    for row in 0..height {
        for col in 0..width {
            pixels.push((row * 7 + col * 3) as u8);
            pixels.push((row * 5 + 100) as u8);
            pixels.push((col * 11 + 40) as u8);
        }
    }
    DecodedImage::from_raw(width, height, pixels).unwrap()
}

fn solid(width: u32, height: u32, value: u8) -> DecodedImage {
    DecodedImage::from_raw(width, height, vec![value; (width * height * 3) as usize]).unwrap()
}

fn png_payload(image: &DecodedImage) -> String {
    encode_image_to_base64(image, OutputFormat::Png).unwrap()
}

fn convert(payload: &str, format: &str) -> Result<ProcessedImage, ProcessingError> {
    convert_image_format(payload, ConvertParams { format: format.to_string(), quality: None })
}

fn trailing_pads(text: &str) -> usize {
    text.len() - text.trim_end_matches('=').len()
}

#[test]
fn payload_is_base64_of_a_png() {
    let payload = png_payload(&patterned(3, 2));
    assert!(payload.starts_with("iVBORw0KGgo"));
    let bytes = base64::engine::general_purpose::STANDARD.decode(&payload).unwrap();
    assert_eq!(&bytes[..8], b"\x89PNG\r\n\x1a\n");
    assert_eq!(payload.len(), 4 * ((bytes.len() + 2) / 3));
    assert!(payload.is_ascii());
}

#[test]
fn base64_text_is_decoded_to_its_bytes() {
    assert_eq!(decode_base64("aGVsbG8gd29ybGQ=").unwrap(), b"hello world".to_vec());
    assert_eq!(decode_base64("").unwrap(), Vec::<u8>::new());
}

#[test]
fn decoded_length_follows_from_text_and_padding() {
    for count in 0..40usize {
        let bytes: Vec<u8> = (0..count).map(|i| (i * 37 + 11) as u8).collect();
        let text = base64::engine::general_purpose::STANDARD.encode(&bytes);
        let decoded = decode_base64(&text).unwrap();
        assert_eq!(decoded, bytes);
        assert_eq!(text.len() % 4, 0);
        assert_eq!(decoded.len(), 3 * (text.len() / 4) - trailing_pads(&text));
    }
    assert_eq!(decode_base64("AA==").unwrap().len(), 1);
    assert_eq!(decode_base64("AAA=").unwrap().len(), 2);
    assert_eq!(decode_base64("AAAA").unwrap().len(), 3);
}

#[test]
fn text_that_is_not_base64_is_refused() {
    assert!(fails_at_base64(decode_base64("not base64!")));
    assert!(fails_at_base64(decode_base64("aGVsbG8gd29ybGQ")));
    assert!(fails_at_base64(decode_base64("AA=")));
    assert!(fails_at_base64(decode_base64("AAA")));
    assert!(fails_at_base64(decode_base64("AAAA====")));
    assert!(fails_at_base64(decode_base64("A===")));
    assert!(fails_at_base64(decode_base64("AAAA\n")));
    assert!(fails_at_base64(decode_base64("\u{00e9}AAA")));
    assert!(fails_at_base64(decode_image_from_base64("%%%")));
}

#[test]
fn bytes_that_are_no_image_are_refused() {
    assert!(fails_at_image(decode_image_bytes(&b"hello world".to_vec())));
    assert!(fails_at_image(decode_image_from_base64("aGVsbG8gd29ybGQ=")));
    assert!(fails_at_image(decode_image_from_base64("")));
}

#[test]
fn truncated_image_is_refused() {
    let payload = png_payload(&patterned(8, 8));
    let bytes = base64::engine::general_purpose::STANDARD.decode(&payload).unwrap();
    let cut = base64::engine::general_purpose::STANDARD.encode(&bytes[..bytes.len() / 2]);
    assert!(fails_at_image(decode_image_from_base64(&cut)));
}

#[test]
fn decode_failure_carries_the_decoders_reason() {
    let error = decode_base64("AA=").unwrap_err();
    assert_eq!(error, ProcessingError::Decode(DecodeStage::Base64, "Invalid padding".to_string()));
    assert_eq!(error.message(), "Failed to decode base64 payload: Invalid padding");
    let error = decode_image_bytes(&b"hello world".to_vec()).unwrap_err();
    assert!(error.message().starts_with("Failed to decode image: "));
    assert!(error.message().len() > "Failed to decode image: ".len());
}

#[test]
fn decoding_does_not_depend_on_registered_hooks() {
    let image = patterned(4, 4);
    let payload = png_payload(&image);
    let before = decode_image_from_base64(&payload).unwrap();
    image::hooks::register_format_detection_hook("refused".into(), b"\x89PNG", None);
    assert!(image::load_from_memory(&decode_base64(&payload).unwrap()).is_err());
    let after = decode_image_from_base64(&payload).unwrap();
    assert_eq!(after.pixels(), before.pixels());
    assert_eq!(after.pixels(), image.pixels());
    assert_eq!(get_image_info(&payload).unwrap().format, "png");
}

#[test]
fn lossless_round_trip_keeps_the_pixels() {
    let image = patterned(9, 5);
    let first = decode_image_from_base64(&png_payload(&image)).unwrap();
    assert_eq!(first.width(), 9);
    assert_eq!(first.height(), 5);
    assert_eq!(first.pixels(), image.pixels());
    let second = decode_image_from_base64(&png_payload(&first)).unwrap();
    assert_eq!(second.pixels(), first.pixels());
}

#[test]
fn encoding_an_empty_image_fails() {
    let empty = DecodedImage::from_raw(0, 0, Vec::new()).unwrap();
    assert!(fails_at_encoding(encode_image_to_base64(&empty, OutputFormat::Png)));
    let error = encode_image_to_base64(&empty, OutputFormat::Png).unwrap_err();
    assert!(error.message().starts_with("Failed to encode image: "));
}

#[test]
fn packaging_reports_the_image() {
    let image = patterned(4, 6);
    let packed = package_image(&image, FormatName::Png).unwrap();
    assert_eq!(packed.format, "png");
    assert_eq!(packed.width, 4);
    assert_eq!(packed.height, 6);
    assert_eq!(packed.size_bytes, packed.data.len());
    assert_eq!(packed.data, png_payload(&image));
}

#[test]
fn crop_returns_the_rectangle_as_png() {
    let image = patterned(10, 8);
    let params = CropParams { x: 2, y: 3, width: 5, height: 4 };
    let result = crop_image(&png_payload(&image), params).unwrap();
    assert_eq!(result.format, "png");
    assert_eq!(result.width, 5);
    assert_eq!(result.height, 4);
    assert_eq!(result.size_bytes, result.data.len());
    let decoded = decode_image_from_base64(&result.data).unwrap();
    assert_eq!(decoded.width(), 5);
    assert_eq!(decoded.height(), 4);
    assert_eq!(decoded.pixels(), image.crop(2, 3, 5, 4).unwrap().pixels());
    assert_eq!(get_image_info(&result.data).unwrap().format, "png");
}

#[test]
fn crop_beyond_the_source_fails() {
    let payload = png_payload(&solid(100, 100, 30));
    let params = CropParams { x: 90, y: 90, width: 20, height: 20 };
    let error = crop_image(&payload, params).unwrap_err();
    assert_eq!(error, ProcessingError::Validation(ValidationReason::CropOutOfBounds));
    assert_eq!(error.message(), "Crop parameters exceed image dimensions");
}

#[test]
fn crop_of_undecodable_payload_fails_at_decoding() {
    let params = CropParams { x: 0, y: 0, width: 1, height: 1 };
    assert!(fails_at_base64(crop_image("????", params)));
    let beyond = CropParams { x: 90, y: 90, width: 20, height: 20 };
    assert!(fails_at_image(crop_image("AAAA", beyond)));
}

#[test]
fn crop_of_nothing_cannot_be_encoded() {
    let payload = png_payload(&solid(4, 4, 30));
    let params = CropParams { x: 1, y: 1, width: 0, height: 2 };
    assert!(fails_at_encoding(crop_image(&payload, params)));
}

#[test]
fn locked_resize_of_wide_source() {
    let payload = png_payload(&patterned(200, 100));
    let params = ResizeParams { width: 100, height: 100, maintain_aspect_ratio: true };
    let result = resize_image(&payload, params).unwrap();
    assert_eq!((result.width, result.height), (100, 50));
    assert_eq!(result.format, "png");
    assert_eq!(result.size_bytes, result.data.len());
    let decoded = decode_image_from_base64(&result.data).unwrap();
    assert_eq!((decoded.width(), decoded.height()), (100, 50));
}

#[test]
fn unlocked_resize_has_the_requested_dimensions() {
    let payload = png_payload(&patterned(20, 10));
    let params = ResizeParams { width: 7, height: 31, maintain_aspect_ratio: false };
    let result = resize_image(&payload, params).unwrap();
    assert_eq!((result.width, result.height), (7, 31));
    let decoded = decode_image_from_base64(&result.data).unwrap();
    assert_eq!((decoded.width(), decoded.height()), (7, 31));
}

#[test]
fn resize_to_the_same_size_keeps_the_pixels() {
    let image = patterned(6, 4);
    let params = ResizeParams { width: 6, height: 4, maintain_aspect_ratio: false };
    let resized = resize_decoded(&image, &params).unwrap();
    assert_eq!(resized.pixels(), image.pixels());
}

#[test]
fn resize_of_a_solid_image_stays_solid() {
    let image = solid(4, 4, 77);
    let params = ResizeParams { width: 9, height: 3, maintain_aspect_ratio: false };
    let resized = resize_decoded(&image, &params).unwrap();
    assert_eq!((resized.width(), resized.height()), (9, 3));
    assert_eq!(resized.pixels(), &vec![77u8; 81]);
}

#[test]
fn locked_resize_without_height_fails() {
    let payload = png_payload(&patterned(20, 10));
    let params = ResizeParams { width: 10, height: 0, maintain_aspect_ratio: true };
    assert_eq!(
        resize_image(&payload, params).unwrap_err(),
        ProcessingError::Validation(ValidationReason::AspectUndefined)
    );
}

#[test]
fn resize_beyond_memory_fails() {
    let image = patterned(2, 2);
    let params = ResizeParams { width: u32::MAX, height: u32::MAX, maintain_aspect_ratio: false };
    assert_eq!(
        resize_decoded(&image, &params).unwrap_err(),
        ProcessingError::Validation(ValidationReason::TargetTooLarge)
    );
    assert!(resample(&image, u32::MAX, u32::MAX).is_none());
}

#[test]
fn resize_of_undecodable_payload_fails_at_decoding() {
    let params = ResizeParams { width: 10, height: 10, maintain_aspect_ratio: false };
    assert!(fails_at_image(resize_image("AAAA", params)));
    assert!(fails_at_base64(resize_image("AAA", params)));
}

#[test]
fn resample_to_nothing_is_empty() {
    let resized = resample(&patterned(3, 3), 0, 5).unwrap();
    assert_eq!((resized.width(), resized.height()), (0, 5));
    assert!(resized.pixels().is_empty());
}

#[test]
fn convert_reads_the_name_in_any_case() {
    let payload = png_payload(&patterned(5, 5));
    let lower = convert(&payload, "png").unwrap();
    let upper = convert(&payload, "PNG").unwrap();
    let mixed = convert(&payload, "Png").unwrap();
    assert_eq!(lower.format, "png");
    assert_eq!(upper.format, "png");
    assert_eq!(mixed.format, "png");
    assert_eq!(lower.data, upper.data);
    assert_eq!(lower.data, mixed.data);
    assert_eq!((lower.width, lower.height), (5, 5));
    assert_eq!(lower.size_bytes, lower.data.len());
}

#[test]
fn convert_refuses_an_unknown_name() {
    let payload = png_payload(&patterned(5, 5));
    let error = convert(&payload, "tiff").unwrap_err();
    assert_eq!(error, ProcessingError::UnsupportedFormat("tiff".to_string()));
    assert_eq!(error.message(), "Unsupported format: tiff");
    let error = convert(&payload, "TIFF").unwrap_err();
    assert_eq!(error, ProcessingError::UnsupportedFormat("TIFF".to_string()));
}

#[test]
fn convert_decodes_before_it_reads_the_name() {
    assert!(fails_at_base64(convert("????", "tiff")));
    assert!(fails_at_image(convert("AAAA", "tiff")));
}

#[test]
fn convert_writes_each_format() {
    let payload = png_payload(&patterned(16, 12));
    for (name, reported, detected) in [
        ("jpg", "jpg", "jpg"),
        ("JPEG", "jpeg", "jpg"),
        ("webp", "webp", "webp"),
        ("Bmp", "bmp", "bmp"),
        ("gif", "gif", "gif"),
        ("png", "png", "png"),
    ] {
        let result = convert(&payload, name).unwrap();
        assert_eq!(result.format, reported);
        assert_eq!((result.width, result.height), (16, 12));
        assert_eq!(result.size_bytes, result.data.len());
        let info = get_image_info(&result.data).unwrap();
        assert_eq!(info.format, detected);
        assert_eq!((info.width, info.height), (16, 12));
    }
}

#[test]
fn convert_ignores_the_quality_hint() {
    let payload = png_payload(&patterned(16, 12));
    let low = convert_image_format(
        &payload,
        ConvertParams { format: "jpg".to_string(), quality: Some(1) },
    )
    .unwrap();
    let high = convert_image_format(
        &payload,
        ConvertParams { format: "jpg".to_string(), quality: Some(100) },
    )
    .unwrap();
    assert_eq!(low.data, high.data);
}

#[test]
fn lossless_formats_keep_the_pixels() {
    let image = patterned(7, 9);
    let payload = png_payload(&image);
    for name in ["bmp", "webp", "png"] {
        let result = convert(&payload, name).unwrap();
        let decoded = decode_image_from_base64(&result.data).unwrap();
        assert_eq!(decoded.pixels(), image.pixels());
    }
}

#[test]
fn compare_of_identical_images_is_black() {
    let payload = png_payload(&patterned(12, 9));
    let result = compare_images(&payload, &payload).unwrap();
    assert_eq!(result.format, "png");
    assert_eq!((result.width, result.height), (12, 9));
    assert_eq!(result.size_bytes, result.data.len());
    let diff = decode_image_from_base64(&result.data).unwrap();
    assert_eq!((diff.width(), diff.height()), (12, 9));
    assert!(diff.pixels().iter().all(|&b| b == 0));
}

#[test]
fn compare_of_one_step_in_one_channel_is_ten() {
    let first = solid(4, 3, 120);
    let mut changed = vec![120u8; 36];
    changed[16] = 121;
    let second = DecodedImage::from_raw(4, 3, changed).unwrap();
    let result = compare_images(&png_payload(&first), &png_payload(&second)).unwrap();
    let diff = decode_image_from_base64(&result.data).unwrap();
    let mut expected = vec![0u8; 36];
    expected[16] = 10;
    assert_eq!(diff.pixels(), &expected);
}

#[test]
fn compare_marks_large_differences_at_full_intensity() {
    let first = solid(3, 3, 10);
    let second = solid(3, 3, 21);
    let result = compare_images(&png_payload(&first), &png_payload(&second)).unwrap();
    let diff = decode_image_from_base64(&result.data).unwrap();
    assert_eq!(diff.pixels(), &vec![255u8; 27]);
    let third = solid(3, 3, 20);
    let result = compare_images(&png_payload(&first), &png_payload(&third)).unwrap();
    let diff = decode_image_from_base64(&result.data).unwrap();
    assert_eq!(diff.pixels(), &vec![100u8; 27]);
}

#[test]
fn compare_canvas_is_the_larger_of_each_axis() {
    let wide = png_payload(&solid(30, 10, 50));
    let tall = png_payload(&solid(12, 25, 50));
    let result = compare_images(&wide, &tall).unwrap();
    assert_eq!((result.width, result.height), (30, 25));
    let diff = decode_image_from_base64(&result.data).unwrap();
    assert_eq!((diff.width(), diff.height()), (30, 25));
    assert!(diff.pixels().iter().all(|&b| b == 0));
    let result = compare_images(&tall, &wide).unwrap();
    assert_eq!((result.width, result.height), (30, 25));
}

#[test]
fn difference_on_canvas_of_equal_sizes_is_the_plain_difference() {
    let a = patterned(5, 4);
    let b = solid(5, 4, 60);
    let on_canvas = difference_on_canvas(&a, &b).unwrap();
    assert_eq!(on_canvas.pixels(), a.difference(&b).unwrap().pixels());
}

#[test]
fn compare_of_undecodable_payload_fails_at_decoding() {
    let payload = png_payload(&solid(3, 3, 10));
    assert!(fails_at_base64(compare_images("????", &payload)));
    assert!(fails_at_base64(compare_images(&payload, "????")));
    assert!(fails_at_image(compare_images(&payload, "AAAA")));
    assert!(fails_at_base64(compare_images("????", "AAAA")));
}

#[test]
fn inspect_reports_the_undecoded_length() {
    let payload = png_payload(&patterned(14, 6));
    let bytes = base64::engine::general_purpose::STANDARD.decode(&payload).unwrap();
    let info = get_image_info(&payload).unwrap();
    assert_eq!((info.width, info.height), (14, 6));
    assert_eq!(info.format, "png");
    assert_eq!(info.size_bytes, bytes.len());
    assert_eq!(info.size_bytes, 3 * (payload.len() / 4) - trailing_pads(&payload));
    assert!(info.size_bytes < payload.len());
}

#[test]
fn inspect_length_does_not_depend_on_a_new_encoding() {
    let png = png_payload(&patterned(14, 6));
    let bmp = convert(&png, "bmp").unwrap().data;
    let of_png = get_image_info(&png).unwrap();
    let of_bmp = get_image_info(&bmp).unwrap();
    assert_eq!(of_bmp.size_bytes, 3 * (bmp.len() / 4) - trailing_pads(&bmp));
    assert_ne!(of_png.size_bytes, of_bmp.size_bytes);
    assert_eq!((of_png.width, of_png.height), (of_bmp.width, of_bmp.height));
}

#[test]
fn inspect_of_undecodable_payload_fails() {
    assert!(fails_at_base64(get_image_info("????")));
    assert!(fails_at_image(get_image_info("aGVsbG8gd29ybGQ=")));
}

#[test]
fn inspect_reports_other_containers_as_unknown() {
    let image = image::RgbImage::from_raw(3, 2, vec![5u8; 18]).unwrap();
    let mut bytes = Vec::new();
    image::DynamicImage::ImageRgb8(image)
        .write_to(std::io::Cursor::new(&mut bytes), image::ImageFormat::Tiff)
        .unwrap();
    assert_eq!(detect_format(&bytes), DetectedFormat::Other);
    let payload = base64::engine::general_purpose::STANDARD.encode(&bytes);
    let info = get_image_info(&payload).unwrap();
    assert_eq!(info.format, "unknown");
    assert_eq!((info.width, info.height), (3, 2));
    assert_eq!(info.size_bytes, bytes.len());
}

#[test]
fn format_is_detected_from_leading_bytes() {
    assert_eq!(detect_format(&b"\x89PNG\r\n\x1a\nrest".to_vec()), DetectedFormat::Png);
    assert_eq!(detect_format(&b"\x89PNG\r\n\x1a\n".to_vec()), DetectedFormat::Png);
    assert_eq!(detect_format(&vec![0xff, 0xd8, 0xff, 0xe0]), DetectedFormat::Jpeg);
    assert_eq!(detect_format(&vec![0xff, 0xd8, 0xff]), DetectedFormat::Jpeg);
    assert_eq!(detect_format(&b"GIF89a".to_vec()), DetectedFormat::Gif);
    assert_eq!(detect_format(&b"GIF87a...".to_vec()), DetectedFormat::Gif);
    assert_eq!(detect_format(&b"BM".to_vec()), DetectedFormat::Bmp);
    assert_eq!(detect_format(&b"BM1234".to_vec()), DetectedFormat::Bmp);
    assert_eq!(detect_format(&b"RIFF\x10\0\0\0WEBPVP8 ".to_vec()), DetectedFormat::WebP);
    assert_eq!(detect_format(&b"RIFF\xff\xff\xff\xffWEBP".to_vec()), DetectedFormat::WebP);
}

#[test]
fn format_is_not_detected_from_a_partial_signature() {
    assert_eq!(detect_format(&b"\x89PNG\r\n\x1a".to_vec()), DetectedFormat::Unknown);
    assert_eq!(detect_format(&vec![0xff, 0xd8]), DetectedFormat::Unknown);
    assert_eq!(detect_format(&b"GIF88a".to_vec()), DetectedFormat::Unknown);
    assert_eq!(detect_format(&b"RIFF\x10\0\0\0WEBQ".to_vec()), DetectedFormat::Unknown);
    assert_eq!(detect_format(&b"RIFF\x10\0\0\0WEB".to_vec()), DetectedFormat::Unknown);
    assert_eq!(detect_format(&b"B".to_vec()), DetectedFormat::Unknown);
    assert_eq!(detect_format(&b"hello".to_vec()), DetectedFormat::Unknown);
    assert_eq!(detect_format(&Vec::new()), DetectedFormat::Unknown);
}

#[test]
fn other_containers_are_detected_as_other() {
    assert_eq!(detect_format(&b"II*\0".to_vec()), DetectedFormat::Other);
    assert_eq!(detect_format(&b"MM\0*".to_vec()), DetectedFormat::Other);
    assert_eq!(detect_format(&b"qoif".to_vec()), DetectedFormat::Other);
    assert_eq!(detect_format(&b"P6 1 1 255".to_vec()), DetectedFormat::Other);
}

#[test]
fn images_with_alpha_are_flattened() {
    let image = image::RgbaImage::from_raw(2, 1, vec![10, 20, 30, 255, 40, 50, 60, 0]).unwrap();
    let mut bytes = Vec::new();
    image::DynamicImage::ImageRgba8(image)
        .write_to(std::io::Cursor::new(&mut bytes), image::ImageFormat::Png)
        .unwrap();
    let decoded = decode_image_bytes(&bytes).unwrap();
    assert_eq!((decoded.width(), decoded.height()), (2, 1));
    assert_eq!(decoded.pixels(), &vec![10u8, 20, 30, 40, 50, 60]);
}
