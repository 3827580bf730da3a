//! Iglo is a performance oriented game-engine framework.
//!
//! This crate is its render hardware interface: the rules by which an
//! instance of a native graphics backend is negotiated, created and torn
//! down, and the typed handles that are derived from it.

use vstd::prelude::*;

pub mod os;
pub mod rhi;

verus! {

/// A semantic version: `major.minor.patch`.
#[derive(Debug, Clone, Copy, PartialEq, Eq, Structural, PartialOrd, Ord)]
pub struct Version {
    pub major: u8,
    pub minor: u8,
    pub patch: u16,
}

impl Version {
    pub fn new(major: u8, minor: u8, patch: u16) -> (version: Self)
        ensures
            version == (Version { major, minor, patch }),
    {
        Self { major, minor, patch }
    }
}

impl Default for Version {
    fn default() -> (version: Self)
        ensures
            version == (Version { major: 0, minor: 0, patch: 0 }),
    {
        Self { major: 0, minor: 0, patch: 0 }
    }
}

/// The version of this framework.
pub fn version() -> (version: Version)
    ensures
        version == (Version { major: 0, minor: 0, patch: 0 }),
{
    Version::default()
}

} // verus!
