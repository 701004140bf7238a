//! The request pipeline end to end: format detection, parameter resolution,
//! startup validation, and the error taxonomy.

use identicon_server::config::{validate_args, AppState};
use identicon_server::detect::{detect, ImageFormat};
use identicon_server::errors::{classify, error_body, AppError, GenFailure};
use identicon_server::params::{resolve, GenerationArgs, RequestParams};
use identicon_server::query::parse_query;

fn defaults() -> GenerationArgs {
    GenerationArgs { border: 1, size: 5, scale: 8, mirrored: false }
}

fn no_overrides() -> RequestParams {
    RequestParams { size: None, scale: None, border: None, mirrored: None }
}

#[test]
fn detect_png_suffix() {
    let r = detect("foo.png").unwrap();
    assert_eq!(r.0, "foo");
    assert_eq!(r.1, ImageFormat::Png);
}

#[test]
fn detect_jpg_suffix() {
    let r = detect("foo.jpg").unwrap();
    assert_eq!(r.0, "foo");
    assert_eq!(r.1, ImageFormat::Jpeg);
}

#[test]
fn detect_jpeg_suffix() {
    let r = detect("foo.jpeg").unwrap();
    assert_eq!(r.0, "foo");
    assert_eq!(r.1, ImageFormat::Jpeg);
}

#[test]
fn detect_no_suffix_defaults_to_png() {
    let r = detect("foo").unwrap();
    assert_eq!(r.0, "foo");
    assert_eq!(r.1, ImageFormat::Png);
}

#[test]
fn detect_bare_suffix_fails_extraction() {
    assert_eq!(detect(".png"), Err(AppError::PathExtractionFailed));
    assert_eq!(detect(""), Err(AppError::PathExtractionFailed));
}

#[test]
fn detect_keeps_inner_dots() {
    let r = detect("a.b.png").unwrap();
    assert_eq!(r.0, "a.b");
    assert_eq!(r.1, ImageFormat::Png);
}

#[test]
fn content_types() {
    assert_eq!(ImageFormat::Png.content_type(), "image/png");
    assert_eq!(ImageFormat::Jpeg.content_type(), "image/jpeg");
}

#[test]
fn resolve_without_overrides_is_defaults() {
    let d = defaults();
    let r = resolve(&d, &no_overrides());
    assert_eq!(r.border, d.border);
    assert_eq!(r.size, d.size);
    assert_eq!(r.scale, d.scale);
    assert_eq!(r.mirrored, d.mirrored);
}

#[test]
fn resolve_override_wins_regardless_of_defaults() {
    let o = RequestParams { size: Some(7), ..no_overrides() };
    for default_size in [1u32, 5, 100, 1024] {
        let d = GenerationArgs { size: default_size, ..defaults() };
        assert_eq!(resolve(&d, &o).size, 7);
    }
}

#[test]
fn resolve_merges_field_wise() {
    let d = defaults();
    let o = RequestParams {
        size: None,
        scale: Some(16),
        border: Some(0),
        mirrored: Some(true),
    };
    let r = resolve(&d, &o);
    assert_eq!(r.size, 5);
    assert_eq!(r.scale, 16);
    assert_eq!(r.border, 0);
    assert!(r.mirrored);
}

#[test]
fn startup_accepts_valid_defaults() {
    let args = GenerationArgs { border: 0, size: 5, scale: 1024, mirrored: true };
    assert_eq!(validate_args(&args), Ok(()));
    let tight = GenerationArgs { border: 0, size: 9, scale: 9, mirrored: false };
    assert_eq!(validate_args(&tight), Ok(()));
}

#[test]
fn startup_rejects_scale_below_size() {
    let args = GenerationArgs { border: 0, size: 10, scale: 5, mirrored: false };
    assert_eq!(
        validate_args(&args),
        Err(AppError::ScaleTooSmall { scale: 5, size: 10 })
    );
}

#[test]
fn startup_rejects_scale_above_limit() {
    let args = GenerationArgs { border: 0, size: 5, scale: 1025, mirrored: false };
    assert_eq!(validate_args(&args), Err(AppError::ScaleTooLarge(1025)));
}

#[test]
fn classifier_table() {
    assert_eq!(
        classify(&AppError::ScaleTooSmall { scale: 5, size: 10 }),
        (400, "scale must be greater than the size".to_string())
    );
    assert_eq!(
        classify(&AppError::ScaleTooLarge(2000)),
        (400, "scale must be equal to or less than 1024".to_string())
    );
    assert_eq!(
        classify(&AppError::PathExtractionFailed),
        (500, "could not extract name from path".to_string())
    );
    assert_eq!(
        classify(&AppError::Overloaded),
        (503, "service is overloaded, try again later".to_string())
    );
    assert_eq!(
        classify(&AppError::TimedOut),
        (408, "request timed out".to_string())
    );
    assert_eq!(
        classify(&AppError::Internal("socket closed".to_string())),
        (500, "unhandled internal error".to_string())
    );
    assert_eq!(
        classify(&AppError::ImageGenerationFailed(GenFailure::GenerateFailed)),
        (500, "could not generate image".to_string())
    );
    assert_eq!(
        classify(&AppError::ImageGenerationFailed(GenFailure::EncodeFailed)),
        (500, "could not encode image".to_string())
    );
    assert_eq!(
        classify(&AppError::ImageGenerationFailed(GenFailure::Other(
            "backend says no".to_string()
        ))),
        (500, "backend says no".to_string())
    );
}

#[test]
fn shed_response_body() {
    let (status, message) = classify(&AppError::Overloaded);
    assert_eq!(status, 503);
    assert_eq!(
        error_body(&message),
        "{\"error\":\"service is overloaded, try again later\"}"
    );
}

#[test]
fn error_body_escapes_json() {
    assert_eq!(error_body("plain"), "{\"error\":\"plain\"}");
    assert_eq!(error_body("a\"b"), "{\"error\":\"a\\\"b\"}");
    assert_eq!(error_body("a\\b"), "{\"error\":\"a\\\\b\"}");
    assert_eq!(error_body("a\nb"), "{\"error\":\"a\\u000ab\"}");
    assert_eq!(error_body(""), "{\"error\":\"\"}");
}

#[test]
fn query_decodes_overrides() {
    assert_eq!(parse_query(""), Some(no_overrides()));
    assert_eq!(
        parse_query("size=7"),
        Some(RequestParams { size: Some(7), ..no_overrides() })
    );
    assert_eq!(
        parse_query("size=7&scale=16&border=0&mirrored=true"),
        Some(RequestParams {
            size: Some(7),
            scale: Some(16),
            border: Some(0),
            mirrored: Some(true),
        })
    );
    assert_eq!(
        parse_query("mirrored=false"),
        Some(RequestParams { mirrored: Some(false), ..no_overrides() })
    );
}

#[test]
fn query_ignores_unknown_keys_and_empty_segments() {
    assert_eq!(
        parse_query("foo=bar&size=3"),
        Some(RequestParams { size: Some(3), ..no_overrides() })
    );
    assert_eq!(
        parse_query("&&size=4&"),
        Some(RequestParams { size: Some(4), ..no_overrides() })
    );
    assert_eq!(parse_query("foo"), Some(no_overrides()));
}

#[test]
fn query_keeps_the_last_repeated_value() {
    assert_eq!(
        parse_query("size=1&size=2"),
        Some(RequestParams { size: Some(2), ..no_overrides() })
    );
}

#[test]
fn query_rejects_malformed_values() {
    assert_eq!(parse_query("size=x"), None);
    assert_eq!(parse_query("size="), None);
    assert_eq!(parse_query("size"), None);
    assert_eq!(parse_query("size=-1"), None);
    assert_eq!(parse_query("mirrored=TRUE"), None);
    assert_eq!(parse_query("mirrored=1"), None);
    assert_eq!(parse_query("scale=16&size=!"), None);
}

#[test]
fn query_resolves_percent_escapes() {
    assert_eq!(
        parse_query("scale=%31%36"),
        Some(RequestParams { scale: Some(16), ..no_overrides() })
    );
    assert_eq!(
        parse_query("%73ize=5"),
        Some(RequestParams { size: Some(5), ..no_overrides() })
    );
    assert_eq!(
        parse_query("mirrored=tru%65"),
        Some(RequestParams { mirrored: Some(true), ..no_overrides() })
    );
    assert_eq!(
        parse_query("mirrored=%46ALSE"),
        None
    );
}

#[test]
fn query_treats_plus_as_space() {
    assert_eq!(parse_query("size=1+2"), None);
    assert_eq!(parse_query("si+ze=5"), Some(no_overrides()));
}

#[test]
fn query_keeps_incomplete_escapes_literal() {
    assert_eq!(parse_query("size=%3x"), None);
    assert_eq!(parse_query("size=%3"), None);
    assert_eq!(parse_query("foo=%zz"), Some(no_overrides()));
}

#[test]
fn query_respects_the_numeric_range() {
    assert_eq!(
        parse_query("size=4294967295"),
        Some(RequestParams { size: Some(u32::MAX), ..no_overrides() })
    );
    assert_eq!(parse_query("size=4294967296"), None);
    assert_eq!(parse_query("size=99999999999999999999"), None);
    assert_eq!(
        parse_query("size=0000000000042"),
        Some(RequestParams { size: Some(42), ..no_overrides() })
    );
}

#[test]
fn app_state_loads_port() {
    let state = AppState::load();
    assert_eq!(state.config.port, 3000);
}
