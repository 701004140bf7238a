//! The image generation adapter and the request dispatch it serves.
//!
//! Pixel generation and encoding are delegated to the identicon backend,
//! which is deterministic in its inputs: the bytes it produces are named by
//! [`png_data_of`] and [`jpeg_data_of`] and never restated here. The
//! adapter's own job — validating the resolved scale and size, choosing the
//! encoder, and folding every backend failure into the error taxonomy — is
//! verified.

use vstd::prelude::*;

verus! {

use crate::detect::{detect, spec_detect_ok, spec_stem_format, ImageFormat};
use crate::errors::{AppError, GenFailure};
use crate::params::{resolve, spec_resolve, GenerationArgs, RequestParams, ResolvedRequest};

/// The largest scale a request may ask for.
pub const MAX_SCALE: u32 = 1024;

/// The largest full canvas edge (scale plus both borders) the renderer is
/// given; beyond it the generation step refuses rather than let the backend
/// attempt an absurd allocation.
pub const MAX_CANVAS: u32 = 8192;

/// An encoded image and the format it was encoded in. Owned solely by the
/// response-writing step; never cached or shared.
#[derive(Clone, Debug, PartialEq, Eq)]
pub struct GeneratedImage {
    pub bytes: Vec<u8>,
    pub format: ImageFormat,
}

/// The PNG bytes the identicon backend produces for a seed and resolved
/// parameters: a fixed function of its arguments, nothing else.
pub uninterp spec fn png_data_of(
    seed: Seq<char>,
    border: u32,
    size: u32,
    scale: u32,
    mirrored: bool,
) -> Seq<u8>;

/// The JPEG bytes the identicon backend produces for a seed and resolved
/// parameters: a fixed function of its arguments, nothing else.
pub uninterp spec fn jpeg_data_of(
    seed: Seq<char>,
    border: u32,
    size: u32,
    scale: u32,
    mirrored: bool,
) -> Seq<u8>;

/// The bytes the backend produces for a request, by format.
pub open spec fn spec_image_data(f: ImageFormat, seed: Seq<char>, p: ResolvedRequest) -> Seq<u8> {
    match f {
        ImageFormat::Png => png_data_of(seed, p.border, p.size, p.scale, p.mirrored),
        ImageFormat::Jpeg => jpeg_data_of(seed, p.border, p.size, p.scale, p.mirrored),
    }
}

/// The resolved parameters the renderer is actually handed: at least one
/// block, the scale within bounds and covering the size, and the full canvas
/// within [`MAX_CANVAS`].
pub open spec fn spec_renderable(p: ResolvedRequest) -> bool {
    &&& 1 <= p.size <= p.scale <= MAX_SCALE
    &&& p.scale + 2 * p.border <= MAX_CANVAS
}

/// Relies on `identicon_rs::Identicon`: `new` starts from the crate's
/// default configuration; `set_border` and `set_mirrored` always succeed;
/// `set_size` succeeds whenever the new size is at most the current scale,
/// and `set_scale` whenever the new scale is at least the current size, so
/// clearing the size first makes every setter below succeed when
/// `size <= scale`; `export_png_data` encodes the configured identicon and
/// its bytes depend on the arguments alone. Under the bounds required here
/// none of its failure paths is reachable — the bordered canvas fits, the
/// default theme's colors always resolve, and the encoder writes into a
/// vector — so the call returns the bytes.
#[verifier::external_body]
fn render_png(seed: &str, border: u32, size: u32, scale: u32, mirrored: bool) -> (r: Result<
    Vec<u8>,
    GenFailure,
>)
    requires
        1 <= size <= scale <= MAX_SCALE,
        scale + 2 * border <= MAX_CANVAS,
    ensures
        r is Ok,
        r matches Ok(b) ==> b@ == png_data_of(seed@, border, size, scale, mirrored),
{
    let mut identicon = identicon_rs::Identicon::new(seed);
    identicon.set_border(border);
    identicon.set_mirrored(mirrored);
    if identicon.set_size(0).is_err() || identicon.set_scale(scale).is_err()
        || identicon.set_size(size).is_err() {
        return Err(GenFailure::GenerateFailed);
    }
    match identicon.export_png_data() {
        Ok(bytes) => Ok(bytes),
        Err(identicon_rs::error::IdenticonError::GenerateImageError) => Err(
            GenFailure::GenerateFailed,
        ),
        Err(identicon_rs::error::IdenticonError::EncodeImageError) => Err(GenFailure::EncodeFailed),
        Err(e) => Err(GenFailure::Other(e.to_string())),
    }
}

/// Relies on `identicon_rs::Identicon` exactly as [`render_png`] does, with
/// `export_jpeg_data` as the encoder; its bytes depend on the arguments
/// alone, and under the bounds required here the call returns them.
#[verifier::external_body]
fn render_jpeg(seed: &str, border: u32, size: u32, scale: u32, mirrored: bool) -> (r: Result<
    Vec<u8>,
    GenFailure,
>)
    requires
        1 <= size <= scale <= MAX_SCALE,
        scale + 2 * border <= MAX_CANVAS,
    ensures
        r is Ok,
        r matches Ok(b) ==> b@ == jpeg_data_of(seed@, border, size, scale, mirrored),
{
    let mut identicon = identicon_rs::Identicon::new(seed);
    identicon.set_border(border);
    identicon.set_mirrored(mirrored);
    if identicon.set_size(0).is_err() || identicon.set_scale(scale).is_err()
        || identicon.set_size(size).is_err() {
        return Err(GenFailure::GenerateFailed);
    }
    match identicon.export_jpeg_data() {
        Ok(bytes) => Ok(bytes),
        Err(identicon_rs::error::IdenticonError::GenerateImageError) => Err(
            GenFailure::GenerateFailed,
        ),
        Err(identicon_rs::error::IdenticonError::EncodeImageError) => Err(GenFailure::EncodeFailed),
        Err(e) => Err(GenFailure::Other(e.to_string())),
    }
}

/// What the generation step promises for resolved parameters `p`, seed and
/// format: each validation rejection comes exactly on its own inputs, every
/// renderable request succeeds, and a success carries the backend's bytes
/// for this request and the matching format.
pub open spec fn spec_generation_outcome(
    r: Result<GeneratedImage, AppError>,
    p: ResolvedRequest,
    seed: Seq<char>,
    format: ImageFormat,
) -> bool {
    &&& (r matches Err(AppError::ScaleTooSmall { scale, size }) ==> scale == p.scale && size
        == p.size)
    &&& (r matches Err(AppError::ScaleTooLarge(s)) ==> s == p.scale)
    &&& (p.scale < p.size <==> r == Result::<GeneratedImage, AppError>::Err(
        AppError::ScaleTooSmall { scale: p.scale, size: p.size },
    ))
    &&& (p.size <= p.scale && p.scale > MAX_SCALE <==> r == Result::<GeneratedImage, AppError>::Err(
        AppError::ScaleTooLarge(p.scale),
    ))
    &&& (p.size <= p.scale <= MAX_SCALE && !spec_renderable(p) ==> r == Result::<
        GeneratedImage,
        AppError,
    >::Err(AppError::ImageGenerationFailed(GenFailure::GenerateFailed)))
    &&& (r matches Ok(img) ==> spec_renderable(p) && img.format == format && img.bytes@
        == spec_image_data(format, seed, p))
    &&& (spec_renderable(p) ==> r is Ok)
}

/// Generates the image for one request: resolves the query overrides over
/// the process defaults, validates what the generation capability can
/// accept, and hands the work to the encoder the format selects.
///
/// A scale below the size or above [`MAX_SCALE`] is rejected with the
/// corresponding error; a size of zero or a canvas beyond [`MAX_CANVAS`] is
/// refused as a generation failure; every other request is answered with
/// the encoded image.
pub fn generate_image_response(
    args: &GenerationArgs,
    params: &RequestParams,
    image_type: ImageFormat,
    input: &str,
) -> (r: Result<GeneratedImage, AppError>)
    ensures
        spec_generation_outcome(r, spec_resolve(*args, *params), input@, image_type),
{
    let p = resolve(args, params);
    if p.scale < p.size {
        Err(AppError::ScaleTooSmall { scale: p.scale, size: p.size })
    } else if p.scale > MAX_SCALE {
        Err(AppError::ScaleTooLarge(p.scale))
    } else if p.size == 0 || (p.scale as u64) + 2 * (p.border as u64) > MAX_CANVAS as u64 {
        Err(AppError::ImageGenerationFailed(GenFailure::GenerateFailed))
    } else {
        let rendered = match image_type {
            ImageFormat::Png => render_png(input, p.border, p.size, p.scale, p.mirrored),
            ImageFormat::Jpeg => render_jpeg(input, p.border, p.size, p.scale, p.mirrored),
        };
        match rendered {
            Ok(bytes) => Ok(GeneratedImage { bytes, format: image_type }),
            Err(f) => Err(AppError::ImageGenerationFailed(f)),
        }
    }
}

/// Generation is idempotent: two successful generations for the same seed,
/// the same resolved parameters and the same format carry byte-identical
/// output — the delegated generator is deterministic, which is exactly what
/// the named results [`png_data_of`] and [`jpeg_data_of`] state.
pub proof fn lemma_generation_idempotent(
    r1: Result<GeneratedImage, AppError>,
    r2: Result<GeneratedImage, AppError>,
    p: ResolvedRequest,
    seed: Seq<char>,
    format: ImageFormat,
)
    requires
        spec_generation_outcome(r1, p, seed, format),
        spec_generation_outcome(r2, p, seed, format),
    ensures
        r1 is Ok && r2 is Ok ==> r1->Ok_0.bytes@ == r2->Ok_0.bytes@ && r1->Ok_0.format
            == r2->Ok_0.format,
{
}

/// Handles one admitted request: detects seed and format from the requested
/// name, then generates the image for it.
///
/// The name's suffix selects the encoding and is stripped from the seed; a
/// name without a usable seed is the only source of
/// [`AppError::PathExtractionFailed`].
pub fn generate_image(name: &str, params: &RequestParams, args: &GenerationArgs) -> (r: Result<
    GeneratedImage,
    AppError,
>)
    ensures
        !spec_detect_ok(name@) <==> r == Result::<GeneratedImage, AppError>::Err(
            AppError::PathExtractionFailed,
        ),
        spec_detect_ok(name@) ==> spec_generation_outcome(
            r,
            spec_resolve(*args, *params),
            spec_stem_format(name@).0,
            spec_stem_format(name@).1,
        ),
{
    match detect(name) {
        Ok((seed, format)) => generate_image_response(args, params, format, seed.as_str()),
        Err(e) => Err(e),
    }
}

} // verus!
