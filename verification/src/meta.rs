//! Facts about the crate itself.

use vstd::prelude::*;
use crate::native::records::version::Version;

verus! {

/// The version of the application that the crate is based on.
pub fn renga_version() -> (version: Version)
    ensures
        version == (Version { major: 8, minor: 1, build: 0 }),
{
    Version::new(8, 1, 0)
}

} // verus!
