//! The three-field version record of the application.

use vstd::prelude::*;
use crate::error::{Error, ErrorView, DISP_E_TYPEMISMATCH};
use crate::native::variant::{Variant, VariantView};

verus! {

/// The version of the application, as its record lays it out: three
/// little-endian 32-bit integers in this order.
#[derive(Debug, Clone, Copy, PartialEq, Eq, Structural)]
pub struct Version {
    pub major: i32,
    pub minor: i32,
    pub build: i32,
}

impl DeepView for Version {
    type V = Version;

    open spec fn deep_view(&self) -> Version {
        *self
    }
}

/// The number of bytes of the record.
pub const VERSION_RECORD_SIZE: usize = 12;

/// The signed 32-bit integer that the four bytes from `at` on hold in
/// little-endian order.
pub open spec fn le_i32(bytes: Seq<u8>, at: int) -> int {
    let unsigned = bytes[at] + 0x100 * bytes[at + 1] + 0x1_0000 * bytes[at + 2] + 0x100_0000
        * bytes[at + 3];
    if unsigned >= 0x8000_0000 {
        unsigned - 0x1_0000_0000
    } else {
        unsigned
    }
}

/// What decoding a version from a tagged value yields: the tag must be
/// record, and the record must hold the twelve bytes of the layout.
pub open spec fn version_of(value: VariantView) -> Result<Version, ErrorView> {
    match value {
        VariantView::Record(bytes) => if bytes.len() >= VERSION_RECORD_SIZE {
            Ok(
                Version {
                    major: le_i32(bytes, 0) as i32,
                    minor: le_i32(bytes, 4) as i32,
                    build: le_i32(bytes, 8) as i32,
                },
            )
        } else {
            Err(ErrorView::WinApi(DISP_E_TYPEMISMATCH))
        },
        _ => Err(ErrorView::WinApi(DISP_E_TYPEMISMATCH)),
    }
}

/// Reads the little-endian signed 32-bit integer at `at`.
fn read_le_i32(bytes: &Vec<u8>, at: usize) -> (value: i32)
    requires
        at + 4 <= bytes@.len(),
    ensures
        value == le_i32(bytes@, at as int),
{
    let len = bytes.len();
    assert(at + 4 <= len);
    let unsigned: i64 = bytes[at] as i64 + 0x100 * (bytes[at + 1] as i64) + 0x1_0000 * (bytes[at
        + 2] as i64) + 0x100_0000 * (bytes[at + 3] as i64);
    if unsigned >= 0x8000_0000 {
        (unsigned - 0x1_0000_0000) as i32
    } else {
        unsigned as i32
    }
}

impl Version {
    /// Makes a version of its three fields.
    pub fn new(major: i32, minor: i32, build: i32) -> (version: Version)
        ensures
            version == (Version { major, minor, build }),
    {
        Version { major, minor, build }
    }

    /// Decodes the version that `variant` holds as a record.
    ///
    /// The tag carries no schema, so the layout is taken on trust from the
    /// caller: any record of at least twelve bytes decodes.
    pub fn from_variant(variant: &Variant) -> (result: Result<Version, Error>)
        ensures
            match result {
                Ok(version) => version_of(variant@) == Ok::<Version, ErrorView>(version),
                Err(e) => version_of(variant@) == Err::<Version, ErrorView>(e@),
            },
    {
        match variant {
            Variant::Record(bytes) => if bytes.len() >= VERSION_RECORD_SIZE {
                Ok(
                    Version {
                        major: read_le_i32(bytes, 0),
                        minor: read_le_i32(bytes, 4),
                        build: read_le_i32(bytes, 8),
                    },
                )
            } else {
                Err(Error::WinApi(DISP_E_TYPEMISMATCH))
            },
            _ => Err(Error::WinApi(DISP_E_TYPEMISMATCH)),
        }
    }

    /// The three components as unsigned numbers, each converted as a cast
    /// converts it: a negative field wraps around.
    pub open spec fn semantic_spec(self) -> (u64, u64, u64) {
        (self.major as u64, self.minor as u64, self.build as u64)
    }

    /// The components of the semantic version: major, minor and patch.
    pub fn semantic(&self) -> (parts: (u64, u64, u64))
        ensures
            parts == self.semantic_spec(),
    {
        (self.major as u64, self.minor as u64, self.build as u64)
    }
}

} // verus!
