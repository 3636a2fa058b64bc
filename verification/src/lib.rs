//! Lexical primitives of an IRC-style line protocol.
//!
//! Each rule looks at the front of a byte slice and either splits off the
//! unit it recognises or hands the slice back untouched together with the
//! reason for turning it down. The rules keep no state and never copy.

pub mod grammar;
pub mod laws;
pub mod parser;
mod substrate;
