//! Process-wide configuration and the startup validation of the generation
//! defaults.
//!
//! The defaults are validated once, here, at startup: a violation is fatal
//! and the process must refuse to start. Per-request overrides are *not*
//! validated here — they are passed through to generation and surfaced only
//! if the generation step itself rejects them.

use vstd::prelude::*;

verus! {

use crate::errors::AppError;
use crate::params::GenerationArgs;

/// Process-wide configuration, immutable after startup.
#[derive(Clone, Copy, Debug, PartialEq, Eq, Structural)]
pub struct Config {
    pub port: u16,
}

/// The state handed to every request-handling task: read-only shared
/// configuration, no locking needed.
#[derive(Clone, Copy, Debug, PartialEq, Eq, Structural)]
pub struct AppState {
    pub config: Config,
}

impl AppState {
    /// Loads the process state with its built-in configuration.
    pub fn load() -> (r: Self)
        ensures
            r.config.port == 3000,
    {
        let config = Config { port: 3000 };
        AppState { config }
    }
}

/// The startup invariant on the generation defaults: the scale covers the
/// size and stays within the largest supported scale.
pub open spec fn spec_args_valid(args: GenerationArgs) -> bool {
    args.size <= args.scale <= 1024
}

/// Validates the process-wide generation defaults, exactly once, at startup.
///
/// Succeeds if and only if `size <= scale <= 1024`. On violation the caller
/// must treat the error as fatal and refuse to start, before binding any
/// socket.
pub fn validate_args(args: &GenerationArgs) -> (r: Result<(), AppError>)
    ensures
        r is Ok <==> spec_args_valid(*args),
        args.scale < args.size ==> (r matches Err(e) && e == (AppError::ScaleTooSmall {
            scale: args.scale,
            size: args.size,
        })),
        args.size <= args.scale && args.scale > 1024 ==> (r matches Err(e) && e
            == AppError::ScaleTooLarge(args.scale)),
{
    if args.scale < args.size {
        Err(AppError::ScaleTooSmall { scale: args.scale, size: args.size })
    } else if args.scale > 1024 {
        Err(AppError::ScaleTooLarge(args.scale))
    } else {
        Ok(())
    }
}

} // verus!
