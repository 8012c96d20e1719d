//! Configuration model for a fuzz-target build command.
//!
//! The crate captures the options that control how a fuzz target is
//! compiled (optimization level, sanitizer, feature flags, target triple,
//! instrumentation toggles) and provides a bijective mapping between the
//! in-memory configuration and a command-line flag string: a serializer
//! that emits only the flags differing from their defaults, and a parser
//! that recovers the exact configuration from such a flag stream.

pub mod laws;
pub mod options;
pub mod parse;
pub mod serialize;
pub mod text;
