//! Static triage of Rust source trees for panic-prone patterns.
//!
//! The library walks a syntax tree, detects constructs that can abort a
//! running service (unchecked `unwrap`, indexing, panic macros, poisoned-lock
//! unwraps), classifies each hit by production-impact severity and panic
//! class, and returns an immutable list of findings.

pub mod rules;
pub mod scanner;
pub mod syntax;
pub mod text;
pub mod types;
