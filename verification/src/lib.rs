//! Verified core of a package-manager download pipeline: manifest
//! resolution, version substitution, artifact caching, and digest
//! verification.

use vstd::prelude::*;

pub mod cache;
pub mod diagnostics;
pub mod hash;
pub mod orchestrator;
pub mod manifest;
pub mod packages;
pub mod pattern;
pub mod strutil;
pub mod substitutions;

verus! {

/// A target CPU architecture a package may provide distinct artifacts for.
#[derive(Debug, Clone, Copy, PartialEq, Eq, Structural)]
pub enum Architecture {
    /// 32-bit x86
    X86,
    /// 64-bit x86
    X64,
    /// 64-bit ARM
    Arm64,
}

impl Architecture {
    /// The architecture assumed when none is requested explicitly.
    pub const ARCH: Architecture = Architecture::X64;
}

} // verus!
