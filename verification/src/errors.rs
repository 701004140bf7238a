//! The error taxonomy of the request pipeline, and the single place where an
//! error is turned into an HTTP status code and a client-facing message.
//!
//! Every failure anywhere in the pipeline is converted to an [`AppError`] at
//! the boundary where it is first detected, and flows unchanged to
//! [`classify`]; no stage downstream re-interprets an already-classified
//! error.

use vstd::prelude::*;

verus! {

use vstd::string::*;

/// Why the image-generation backend failed to produce bytes, for failures
/// that are not size/scale validation (those get their own [`AppError`]
/// variants).
#[derive(Clone, Debug, PartialEq, Eq)]
pub enum GenFailure {
    /// The backend could not assemble the image canvas.
    GenerateFailed,
    /// The backend could not encode the finished image.
    EncodeFailed,
    /// Any other backend failure, carrying the backend's own message.
    Other(String),
}

/// The closed error taxonomy of the pipeline.
///
/// Size/scale validation failures are always surfaced as [`ScaleTooSmall`]
/// or [`ScaleTooLarge`], whether they come from the startup check on the
/// process defaults or from the generation step rejecting per-request
/// overrides; [`ImageGenerationFailed`] therefore only carries failures that
/// are not bounds-related.
///
/// [`ScaleTooSmall`]: AppError::ScaleTooSmall
/// [`ScaleTooLarge`]: AppError::ScaleTooLarge
/// [`ImageGenerationFailed`]: AppError::ImageGenerationFailed
#[derive(Clone, Debug, PartialEq, Eq)]
pub enum AppError {
    /// The image generation backend failed for a non-validation reason.
    ImageGenerationFailed(GenFailure),
    /// The requested scale exceeds the largest supported scale.
    ScaleTooLarge(u32),
    /// The requested scale is smaller than the requested size.
    ScaleTooSmall { scale: u32, size: u32 },
    /// No usable seed could be extracted from the request path.
    PathExtractionFailed,
    /// The request was shed because the service is over its queueing ceiling.
    Overloaded,
    /// The request exceeded its wall-clock budget.
    TimedOut,
    /// Any otherwise unhandled error; the cause is for the log only and is
    /// never shown to the client.
    Internal(String),
}

/// The HTTP status code each error maps to.
pub open spec fn spec_status(e: AppError) -> u16 {
    match e {
        AppError::ImageGenerationFailed(_) => 500,
        AppError::ScaleTooLarge(_) => 400,
        AppError::ScaleTooSmall { .. } => 400,
        AppError::PathExtractionFailed => 500,
        AppError::Overloaded => 503,
        AppError::TimedOut => 408,
        AppError::Internal(_) => 500,
    }
}

/// The client-facing message of a generation failure: the backend's message.
pub open spec fn spec_gen_message(f: GenFailure) -> Seq<char> {
    match f {
        GenFailure::GenerateFailed => "could not generate image"@,
        GenFailure::EncodeFailed => "could not encode image"@,
        GenFailure::Other(m) => m@,
    }
}

/// The client-facing message of each error. Internal causes are never part
/// of it.
pub open spec fn spec_client_message(e: AppError) -> Seq<char> {
    match e {
        AppError::ImageGenerationFailed(f) => spec_gen_message(f),
        AppError::ScaleTooLarge(_) => "scale must be equal to or less than 1024"@,
        AppError::ScaleTooSmall { .. } => "scale must be greater than the size"@,
        AppError::PathExtractionFailed => "could not extract name from path"@,
        AppError::Overloaded => "service is overloaded, try again later"@,
        AppError::TimedOut => "request timed out"@,
        AppError::Internal(_) => "unhandled internal error"@,
    }
}

/// The message of a generation failure, executable form.
pub fn gen_message(f: &GenFailure) -> (r: String)
    ensures
        r@ == spec_gen_message(*f),
{
    match f {
        GenFailure::GenerateFailed => "could not generate image".to_owned(),
        GenFailure::EncodeFailed => "could not encode image".to_owned(),
        GenFailure::Other(m) => m.clone(),
    }
}

/// The single, total mapping from an error to its HTTP status code and
/// client-facing message.
pub fn classify(e: &AppError) -> (r: (u16, String))
    ensures
        r.0 == spec_status(*e),
        r.1@ == spec_client_message(*e),
{
    match e {
        AppError::ImageGenerationFailed(f) => (500, gen_message(f)),
        AppError::ScaleTooLarge(_) => (400, "scale must be equal to or less than 1024".to_owned()),
        AppError::ScaleTooSmall { .. } => (400, "scale must be greater than the size".to_owned()),
        AppError::PathExtractionFailed => (500, "could not extract name from path".to_owned()),
        AppError::Overloaded => (503, "service is overloaded, try again later".to_owned()),
        AppError::TimedOut => (408, "request timed out".to_owned()),
        AppError::Internal(_) => (500, "unhandled internal error".to_owned()),
    }
}

/// The hexadecimal digit of a value below sixteen, lower case.
pub open spec fn spec_hex_digit(n: u32) -> char {
    if n == 0 {
        '0'
    } else if n == 1 {
        '1'
    } else if n == 2 {
        '2'
    } else if n == 3 {
        '3'
    } else if n == 4 {
        '4'
    } else if n == 5 {
        '5'
    } else if n == 6 {
        '6'
    } else if n == 7 {
        '7'
    } else if n == 8 {
        '8'
    } else if n == 9 {
        '9'
    } else if n == 10 {
        'a'
    } else if n == 11 {
        'b'
    } else if n == 12 {
        'c'
    } else if n == 13 {
        'd'
    } else if n == 14 {
        'e'
    } else {
        'f'
    }
}

/// How one character appears inside a JSON string: quote and backslash get
/// a backslash escape, control characters a `\u00..` escape, everything
/// else stands as itself.
pub open spec fn spec_json_escaped_char(c: char) -> Seq<char> {
    if c == '"' {
        seq!['\\', '"']
    } else if c == '\\' {
        seq!['\\', '\\']
    } else if (c as u32) < 32 {
        seq!['\\', 'u', '0', '0', spec_hex_digit((c as u32) / 16), spec_hex_digit((c as u32) % 16)]
    } else {
        seq![c]
    }
}

/// A whole message, escaped for the inside of a JSON string.
pub open spec fn spec_json_escaped(s: Seq<char>) -> Seq<char>
    decreases s.len(),
{
    if s.len() == 0 {
        Seq::empty()
    } else {
        spec_json_escaped(s.drop_last()) + spec_json_escaped_char(s.last())
    }
}

/// The error response body for a client message: a JSON object with the
/// single field `error`.
pub open spec fn spec_json_error_body(msg: Seq<char>) -> Seq<char> {
    "{\"error\":\""@ + spec_json_escaped(msg) + "\"}"@
}

/// Relies on `String::push`: appends exactly one character.
#[verifier::external_body]
pub(crate) fn push_char(s: &mut String, c: char)
    ensures
        final(s)@ == old(s)@.push(c),
{
    s.push(c);
}

/// The hexadecimal digit of a value below sixteen, executable form.
fn hex_digit(n: u32) -> (r: char)
    requires
        n < 16,
    ensures
        r == spec_hex_digit(n),
{
    match n {
        0 => '0',
        1 => '1',
        2 => '2',
        3 => '3',
        4 => '4',
        5 => '5',
        6 => '6',
        7 => '7',
        8 => '8',
        9 => '9',
        10 => 'a',
        11 => 'b',
        12 => 'c',
        13 => 'd',
        14 => 'e',
        _ => 'f',
    }
}

/// Appends one message character to the body being built, escaped as JSON
/// requires.
fn append_escaped(out: &mut String, c: char)
    ensures
        final(out)@ == old(out)@ + spec_json_escaped_char(c),
{
    if c == '"' {
        proof {
            reveal_strlit("\\\"");
            assert("\\\""@ =~= spec_json_escaped_char(c));
        }
        out.append("\\\"");
    } else if c == '\\' {
        proof {
            reveal_strlit("\\\\");
            assert("\\\\"@ =~= spec_json_escaped_char(c));
        }
        out.append("\\\\");
    } else if (c as u32) < 32 {
        proof {
            reveal_strlit("\\u00");
        }
        out.append("\\u00");
        push_char(out, hex_digit((c as u32) / 16));
        push_char(out, hex_digit((c as u32) % 16));
        proof {
            assert(out@ =~= old(out)@ + spec_json_escaped_char(c));
        }
    } else {
        push_char(out, c);
        proof {
            assert(out@ =~= old(out)@ + spec_json_escaped_char(c));
        }
    }
}

/// Builds the response body every error is answered with: a JSON object
/// whose single `error` field holds the client message, properly escaped.
/// Nothing else — no stack trace, no internal identifier — is ever part of
/// the body.
pub fn error_body(msg: &str) -> (r: String)
    ensures
        r@ == spec_json_error_body(msg@),
{
    let mut out = "{\"error\":\"".to_owned();
    let n: usize = msg.unicode_len();
    let mut i: usize = 0;
    while i < n
        invariant
            i <= n,
            n == msg@.len(),
            out@ == "{\"error\":\""@ + spec_json_escaped(msg@.subrange(0, i as int)),
        decreases n - i,
    {
        let c = msg.get_char(i);
        append_escaped(&mut out, c);
        proof {
            let pre = msg@.subrange(0, i as int);
            let cur = msg@.subrange(0, i + 1 as int);
            assert(cur.drop_last() =~= pre);
            assert(cur.last() == msg@[i as int]);
            assert(out@ =~= "{\"error\":\""@ + spec_json_escaped(cur));
        }
        i += 1;
    }
    out.append("\"}");
    proof {
        assert(msg@.subrange(0, n as int) =~= msg@);
        assert(out@ =~= spec_json_error_body(msg@));
    }
    out
}

} // verus!
