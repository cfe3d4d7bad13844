//! # stages-thermo — a staged-separation (distillation) column library
//!
//! The verified core of the column engine: the error type and its messages,
//! the column and phase vocabularies, the component loading done through the
//! `vle_thermo` database, and the shape and specification checks that guard
//! every binary construction before any floating-point work begins.

use vstd::prelude::*;

pub mod binary;
pub mod bindings;
pub mod column;
pub mod text;
pub mod thermo;
pub mod types;

verus! {

/// The release this library describes, as a spec-level string.
pub open spec fn spec_version() -> Seq<char> {
    "0.2.0"@
}

/// Return this crate's version string (the `[package]` version).
pub fn version() -> (v: &'static str)
    ensures
        v@ == spec_version(),
{
    "0.2.0"
}

} // verus!
