//! Querying the library version.

use vstd::prelude::*;

verus! {

/// Major version number.
pub const VERSION_MAJOR: u8 = 0;

/// Minor version number.
pub const VERSION_MINOR: u8 = 1;

/// Update (patchlevel) version number.
pub const VERSION_LAST: u8 = 0;

/// Information about the version in use.
#[derive(Copy, Clone, Eq, PartialEq, Hash, Debug, Structural)]
pub struct Version {
    /// major version
    pub major: u8,
    /// minor version
    pub minor: u8,
    /// update version (patchlevel)
    pub patch: u8,
}

impl Version {
    /// Convert const numbers to Version.
    pub fn from_const() -> (r: Version)
        ensures
            r.major == VERSION_MAJOR,
            r.minor == VERSION_MINOR,
            r.patch == VERSION_LAST,
    {
        Version { major: VERSION_MAJOR, minor: VERSION_MINOR, patch: VERSION_LAST }
    }

    /// Relies on std's `format` macro: renders `major.minor.patch` in
    /// decimal with dots in between.
    #[verifier::external_body]
    pub fn text(&self) -> String {
        format!("{}.{}.{}", self.major, self.minor, self.patch)
    }
}

/// The version of this library.
pub fn version() -> (r: Version)
    ensures
        r.major == VERSION_MAJOR,
        r.minor == VERSION_MINOR,
        r.patch == VERSION_LAST,
{
    Version::from_const()
}

} // verus!
