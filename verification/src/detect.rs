//! Path-based format detection: the requested name selects the output
//! encoding through its suffix, and the canonical seed is the name with that
//! suffix stripped.
//!
//! A name ending in `.png` encodes as PNG, one ending in `.jpg` or `.jpeg`
//! as JPEG, and one with no such suffix as PNG with the name kept unchanged.
//! A name whose seed comes out empty is rejected with
//! [`AppError::PathExtractionFailed`] — mapped to HTTP 500 by the original
//! design, a deliberately preserved, arguably too harsh, policy.

use vstd::prelude::*;

verus! {

use vstd::string::*;

use crate::errors::AppError;

/// The output encoding of a generated image.
#[derive(Clone, Copy, Debug, PartialEq, Eq, Structural)]
pub enum ImageFormat {
    Png,
    Jpeg,
}

/// The content-type header value of each format.
pub open spec fn spec_content_type(f: ImageFormat) -> Seq<char> {
    match f {
        ImageFormat::Png => "image/png"@,
        ImageFormat::Jpeg => "image/jpeg"@,
    }
}

impl ImageFormat {
    /// The content-type header value, executable form.
    pub fn content_type(&self) -> (r: &'static str)
        ensures
            r@ == spec_content_type(*self),
    {
        match self {
            ImageFormat::Png => "image/png",
            ImageFormat::Jpeg => "image/jpeg",
        }
    }
}

/// Whether `s` ends with `suffix`.
pub open spec fn spec_ends_with(s: Seq<char>, suffix: Seq<char>) -> bool {
    s.len() >= suffix.len() && s.subrange(s.len() - suffix.len(), s.len() as int) == suffix
}

/// The seed and format a name detects as, before the empty-seed check: strip
/// a recognised suffix and take its format, or keep the name whole as PNG.
pub open spec fn spec_stem_format(name: Seq<char>) -> (Seq<char>, ImageFormat) {
    if spec_ends_with(name, ".png"@) {
        (name.subrange(0, name.len() - 4), ImageFormat::Png)
    } else if spec_ends_with(name, ".jpg"@) {
        (name.subrange(0, name.len() - 4), ImageFormat::Jpeg)
    } else if spec_ends_with(name, ".jpeg"@) {
        (name.subrange(0, name.len() - 5), ImageFormat::Jpeg)
    } else {
        (name, ImageFormat::Png)
    }
}

/// Whether detection on `name` yields a usable (non-empty) seed.
pub open spec fn spec_detect_ok(name: Seq<char>) -> bool {
    spec_stem_format(name).0.len() > 0
}

/// Whether `s` ends with `suffix`, executable form.
fn str_ends_with(s: &str, suffix: &str) -> (r: bool)
    ensures
        r == spec_ends_with(s@, suffix@),
{
    let n: usize = s.unicode_len();
    let m: usize = suffix.unicode_len();
    if n < m {
        return false;
    }
    let mut i: usize = 0;
    while i < m
        invariant
            i <= m,
            m <= n,
            n == s@.len(),
            m == suffix@.len(),
            forall|j: int| 0 <= j < i ==> s@[n - m + j] == suffix@[j],
        decreases m - i,
    {
        if s.get_char(n - m + i) != suffix.get_char(i) {
            assert(s@[n - m + i] != suffix@[i as int]);
            assert(!spec_ends_with(s@, suffix@)) by {
                if spec_ends_with(s@, suffix@) {
                    assert(s@.subrange(n - m, n as int)[i as int] == suffix@[i as int]);
                }
            }
            return false;
        }
        i += 1;
    }
    assert(s@.subrange(n - m, n as int) =~= suffix@);
    true
}

/// Detects the seed and output format of a requested name.
///
/// Returns the stripped seed and the format the suffix selects; a seed that
/// comes out empty is rejected with [`AppError::PathExtractionFailed`].
pub fn detect(name: &str) -> (r: Result<(String, ImageFormat), AppError>)
    ensures
        spec_detect_ok(name@) ==> (r matches Ok(p) && p.0@ == spec_stem_format(name@).0 && p.1
            == spec_stem_format(name@).1),
        !spec_detect_ok(name@) ==> (r matches Err(e) && e == AppError::PathExtractionFailed),
{
    proof {
        reveal_strlit(".png");
        reveal_strlit(".jpg");
        reveal_strlit(".jpeg");
    }
    let n: usize = name.unicode_len();
    let (seed, format): (String, ImageFormat) = if str_ends_with(name, ".png") {
        (name.substring_char(0, n - 4).to_owned(), ImageFormat::Png)
    } else if str_ends_with(name, ".jpg") {
        (name.substring_char(0, n - 4).to_owned(), ImageFormat::Jpeg)
    } else if str_ends_with(name, ".jpeg") {
        (name.substring_char(0, n - 5).to_owned(), ImageFormat::Jpeg)
    } else {
        (name.to_owned(), ImageFormat::Png)
    };
    if seed.as_str().is_empty() {
        Err(AppError::PathExtractionFailed)
    } else {
        Ok((seed, format))
    }
}

} // verus!
