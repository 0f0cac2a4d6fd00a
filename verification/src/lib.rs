//! Typed loading of process environment variables.
//!
//! The crate turns raw environment lookups into strongly typed configuration
//! values. A lookup outcome (the variable's raw platform string, or nothing)
//! is fed to one of three entry points — [`load_var`], [`load_var_with_default`]
//! and [`load_optional_var`] — which apply a fallible conversion into the
//! requested type and report failures through [`Error`], keeping "variable
//! absent" apart from "variable present but unparsable".
//!
//! The single read of the process environment is left to the caller, which
//! hands its outcome in as an `Option`; everything that follows the read is
//! specified and verified here.

pub mod convert;
pub mod error;
pub mod loader;
pub mod raw;

pub use crate::convert::FromRaw;
pub use crate::error::Error;
pub use crate::loader::load_optional_var;
pub use crate::loader::load_var;
pub use crate::loader::load_var_with_default;
pub use crate::raw::RawString;
