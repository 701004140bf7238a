//! The image generation adapter against the real identicon backend.

use identicon_server::detect::ImageFormat;
use identicon_server::errors::{AppError, GenFailure};
use identicon_server::image::{generate_image, generate_image_response, GeneratedImage};
use identicon_server::params::{GenerationArgs, RequestParams};

fn defaults() -> GenerationArgs {
    GenerationArgs { border: 1, size: 5, scale: 8, mirrored: false }
}

fn no_overrides() -> RequestParams {
    RequestParams { size: None, scale: None, border: None, mirrored: None }
}

const PNG_SIGNATURE: [u8; 8] = [0x89, 0x50, 0x4e, 0x47, 0x0d, 0x0a, 0x1a, 0x0a];
const JPEG_SIGNATURE: [u8; 2] = [0xff, 0xd8];

#[test]
fn png_request_produces_png_bytes() {
    let img = generate_image("seed.png", &no_overrides(), &defaults()).unwrap();
    assert_eq!(img.format, ImageFormat::Png);
    assert!(img.bytes.len() > 8);
    assert_eq!(&img.bytes[..8], &PNG_SIGNATURE);
}

#[test]
fn jpeg_request_produces_jpeg_bytes() {
    let img = generate_image("seed.jpg", &no_overrides(), &defaults()).unwrap();
    assert_eq!(img.format, ImageFormat::Jpeg);
    assert!(img.bytes.len() > 2);
    assert_eq!(&img.bytes[..2], &JPEG_SIGNATURE);
}

#[test]
fn suffixless_request_produces_png_bytes() {
    let img = generate_image("seed", &no_overrides(), &defaults()).unwrap();
    assert_eq!(img.format, ImageFormat::Png);
    assert_eq!(&img.bytes[..8], &PNG_SIGNATURE);
}

#[test]
fn scenario_jpeg_with_scale_override() {
    let args = GenerationArgs { border: 1, size: 5, scale: 8, mirrored: false };
    let params = RequestParams { scale: Some(16), ..no_overrides() };
    let img = generate_image("abc123.jpg", &params, &args).unwrap();
    assert_eq!(img.format, ImageFormat::Jpeg);
    assert_eq!(img.format.content_type(), "image/jpeg");
    assert_eq!(&img.bytes[..2], &JPEG_SIGNATURE);
}

#[test]
fn identical_requests_yield_identical_bytes() {
    let args = defaults();
    let params = RequestParams { scale: Some(16), ..no_overrides() };
    let a: GeneratedImage = generate_image("same-seed.png", &params, &args).unwrap();
    let b: GeneratedImage = generate_image("same-seed.png", &params, &args).unwrap();
    assert_eq!(a.bytes, b.bytes);
    let c = generate_image("same-seed.jpeg", &params, &args).unwrap();
    let d = generate_image("same-seed.jpeg", &params, &args).unwrap();
    assert_eq!(c.bytes, d.bytes);
}

#[test]
fn different_seeds_yield_different_bytes() {
    let a = generate_image("one.png", &no_overrides(), &defaults()).unwrap();
    let b = generate_image("two.png", &no_overrides(), &defaults()).unwrap();
    assert_ne!(a.bytes, b.bytes);
}

#[test]
fn scale_below_size_is_rejected() {
    let params = RequestParams { scale: Some(3), ..no_overrides() };
    let r = generate_image("seed.png", &params, &defaults());
    assert_eq!(r, Err(AppError::ScaleTooSmall { scale: 3, size: 5 }));
}

#[test]
fn scale_above_limit_is_rejected() {
    let params = RequestParams { scale: Some(4000), ..no_overrides() };
    let r = generate_image("seed.png", &params, &defaults());
    assert_eq!(r, Err(AppError::ScaleTooLarge(4000)));
}

#[test]
fn zero_size_is_a_generation_failure() {
    let params = RequestParams { size: Some(0), scale: Some(8), ..no_overrides() };
    let r = generate_image("seed.png", &params, &defaults());
    assert_eq!(
        r,
        Err(AppError::ImageGenerationFailed(GenFailure::GenerateFailed))
    );
}

#[test]
fn oversized_canvas_is_a_generation_failure() {
    let params = RequestParams { border: Some(u32::MAX / 2), ..no_overrides() };
    let r = generate_image("seed.png", &params, &defaults());
    assert_eq!(
        r,
        Err(AppError::ImageGenerationFailed(GenFailure::GenerateFailed))
    );
}

#[test]
fn bad_path_beats_generation() {
    let r = generate_image(".jpeg", &no_overrides(), &defaults());
    assert_eq!(r, Err(AppError::PathExtractionFailed));
}

#[test]
fn response_adapter_respects_requested_format() {
    let img = generate_image_response(&defaults(), &no_overrides(), ImageFormat::Jpeg, "direct")
        .unwrap();
    assert_eq!(img.format, ImageFormat::Jpeg);
    assert_eq!(&img.bytes[..2], &JPEG_SIGNATURE);
}
