//! Generation parameters and the per-request parameter resolver.
//!
//! A request may override any of the process-wide defaults through its query
//! string; [`resolve`] merges the two with field-wise precedence: the request
//! value if present, else the process default. No bound checking happens
//! here — the defaults are validated once at startup, and per-request
//! overrides are validated only by the generation step itself.

use vstd::prelude::*;

verus! {

/// Process-wide generation defaults, immutable after startup.
#[derive(Clone, Copy, Debug, PartialEq, Eq, Structural)]
pub struct GenerationArgs {
    pub border: u32,
    pub size: u32,
    pub scale: u32,
    pub mirrored: bool,
}

/// Per-request overrides, one optional field per default. A field of the
/// wrong type in the query string never reaches this struct: it is rejected
/// while the query string is decoded, before resolution.
#[derive(Clone, Copy, Debug, PartialEq, Eq)]
pub struct RequestParams {
    pub size: Option<u32>,
    pub scale: Option<u32>,
    pub border: Option<u32>,
    pub mirrored: Option<bool>,
}

/// The merge of request overrides over process defaults; every field is
/// concrete. Passed, immutable, into the image generation adapter.
#[derive(Clone, Copy, Debug, PartialEq, Eq, Structural)]
pub struct ResolvedRequest {
    pub border: u32,
    pub size: u32,
    pub scale: u32,
    pub mirrored: bool,
}

impl RequestParams {
    /// A request with no overrides at all.
    pub open spec fn spec_is_empty(self) -> bool {
        &&& self.size is None
        &&& self.scale is None
        &&& self.border is None
        &&& self.mirrored is None
    }

}

/// The process defaults, seen as an already-resolved request.
pub open spec fn spec_defaults_resolved(d: GenerationArgs) -> ResolvedRequest {
    ResolvedRequest { border: d.border, size: d.size, scale: d.scale, mirrored: d.mirrored }
}

/// Field-wise precedence: the override if present, else the default.
pub open spec fn spec_resolve(d: GenerationArgs, o: RequestParams) -> ResolvedRequest {
    ResolvedRequest {
        border: match o.border {
            Some(b) => b,
            None => d.border,
        },
        size: match o.size {
            Some(s) => s,
            None => d.size,
        },
        scale: match o.scale {
            Some(s) => s,
            None => d.scale,
        },
        mirrored: match o.mirrored {
            Some(m) => m,
            None => d.mirrored,
        },
    }
}

/// Merges the request overrides over the process defaults.
pub fn resolve(defaults: &GenerationArgs, overrides: &RequestParams) -> (r: ResolvedRequest)
    ensures
        r == spec_resolve(*defaults, *overrides),
{
    ResolvedRequest {
        border: match overrides.border {
            Some(b) => b,
            None => defaults.border,
        },
        size: match overrides.size {
            Some(s) => s,
            None => defaults.size,
        },
        scale: match overrides.scale {
            Some(s) => s,
            None => defaults.scale,
        },
        mirrored: match overrides.mirrored {
            Some(m) => m,
            None => defaults.mirrored,
        },
    }
}

/// A request with no overrides resolves to exactly the process defaults.
pub proof fn lemma_resolve_empty_is_defaults(d: GenerationArgs, o: RequestParams)
    requires
        o.spec_is_empty(),
    ensures
        spec_resolve(d, o) == spec_defaults_resolved(d),
{
}

/// An override always wins over the default, and an absent override always
/// falls back to it, field by field, whatever the defaults are.
pub proof fn lemma_resolve_precedence(d: GenerationArgs, o: RequestParams)
    ensures
        o.size matches Some(s) ==> spec_resolve(d, o).size == s,
        o.size is None ==> spec_resolve(d, o).size == d.size,
        o.scale matches Some(s) ==> spec_resolve(d, o).scale == s,
        o.scale is None ==> spec_resolve(d, o).scale == d.scale,
        o.border matches Some(b) ==> spec_resolve(d, o).border == b,
        o.border is None ==> spec_resolve(d, o).border == d.border,
        o.mirrored matches Some(m) ==> spec_resolve(d, o).mirrored == m,
        o.mirrored is None ==> spec_resolve(d, o).mirrored == d.mirrored,
{
}

} // verus!
