//! The request admission and parameter-resolution pipeline of an identicon
//! HTTP service.
//!
//! A request names an image to generate; the library detects the output
//! format from the name, resolves generation parameters from the query
//! string over process-wide defaults, delegates pixel generation to the
//! identicon backend, and decides, in one place, the status code and body of
//! every error. Around the dispatch stand the admission policy — load
//! shedding, concurrency limiting, a wall-clock budget — and the graceful
//! shutdown coordinator, each as a small verified state machine whose
//! transitions the unverified host drives.

pub mod admission;
pub mod config;
pub mod detect;
pub mod errors;
pub mod image;
pub mod params;
pub mod query;
pub mod shutdown;
