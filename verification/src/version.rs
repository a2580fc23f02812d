//! The version pair a display negotiates on initialization.

use vstd::prelude::*;

verus! {

/// Major and minor version of the native interface, as reported by display
/// initialization.
#[derive(Copy, Clone, Debug, PartialEq, Eq, Structural)]
pub struct Version {
    pub major: i32,
    pub minor: i32,
}

impl Version {
    /// Packs a reported major and minor pair.
    pub fn new(major: i32, minor: i32) -> (r: Version)
        ensures
            r.major == major,
            r.minor == minor,
    {
        Version { major, minor }
    }
}

} // verus!
