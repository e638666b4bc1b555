//! Tagged values made of native values.

use vstd::prelude::*;
use vstd::std_specs::convert::FromSpecImpl;
use crate::native::dispatch::Dispatch;
use crate::native::variant::{Variant, VariantView};

verus! {

impl From<()> for Variant {
    fn from(value: ()) -> (variant: Variant) {
        Variant::Empty
    }
}

impl FromSpecImpl<()> for Variant {
    open spec fn obeys_from_spec() -> bool {
        true
    }

    open spec fn from_spec(value: ()) -> Variant {
        Variant::Empty
    }
}

impl From<bool> for Variant {
    fn from(value: bool) -> (variant: Variant) {
        Variant::Bool(value)
    }
}

impl FromSpecImpl<bool> for Variant {
    open spec fn obeys_from_spec() -> bool {
        true
    }

    open spec fn from_spec(value: bool) -> Variant {
        Variant::Bool(value)
    }
}

impl From<i8> for Variant {
    fn from(value: i8) -> (variant: Variant) {
        Variant::I8(value)
    }
}

impl FromSpecImpl<i8> for Variant {
    open spec fn obeys_from_spec() -> bool {
        true
    }

    open spec fn from_spec(value: i8) -> Variant {
        Variant::I8(value)
    }
}

impl From<i16> for Variant {
    fn from(value: i16) -> (variant: Variant) {
        Variant::I16(value)
    }
}

impl FromSpecImpl<i16> for Variant {
    open spec fn obeys_from_spec() -> bool {
        true
    }

    open spec fn from_spec(value: i16) -> Variant {
        Variant::I16(value)
    }
}

impl From<i32> for Variant {
    fn from(value: i32) -> (variant: Variant) {
        Variant::I32(value)
    }
}

impl FromSpecImpl<i32> for Variant {
    open spec fn obeys_from_spec() -> bool {
        true
    }

    open spec fn from_spec(value: i32) -> Variant {
        Variant::I32(value)
    }
}

impl From<i64> for Variant {
    fn from(value: i64) -> (variant: Variant) {
        Variant::I64(value)
    }
}

impl FromSpecImpl<i64> for Variant {
    open spec fn obeys_from_spec() -> bool {
        true
    }

    open spec fn from_spec(value: i64) -> Variant {
        Variant::I64(value)
    }
}

impl From<u8> for Variant {
    fn from(value: u8) -> (variant: Variant) {
        Variant::U8(value)
    }
}

impl FromSpecImpl<u8> for Variant {
    open spec fn obeys_from_spec() -> bool {
        true
    }

    open spec fn from_spec(value: u8) -> Variant {
        Variant::U8(value)
    }
}

impl From<u16> for Variant {
    fn from(value: u16) -> (variant: Variant) {
        Variant::U16(value)
    }
}

impl FromSpecImpl<u16> for Variant {
    open spec fn obeys_from_spec() -> bool {
        true
    }

    open spec fn from_spec(value: u16) -> Variant {
        Variant::U16(value)
    }
}

impl From<u32> for Variant {
    fn from(value: u32) -> (variant: Variant) {
        Variant::U32(value)
    }
}

impl FromSpecImpl<u32> for Variant {
    open spec fn obeys_from_spec() -> bool {
        true
    }

    open spec fn from_spec(value: u32) -> Variant {
        Variant::U32(value)
    }
}

impl From<u64> for Variant {
    fn from(value: u64) -> (variant: Variant) {
        Variant::U64(value)
    }
}

impl FromSpecImpl<u64> for Variant {
    open spec fn obeys_from_spec() -> bool {
        true
    }

    open spec fn from_spec(value: u64) -> Variant {
        Variant::U64(value)
    }
}

impl From<String> for Variant {
    fn from(value: String) -> (variant: Variant) {
        Variant::Str(value)
    }
}

impl FromSpecImpl<String> for Variant {
    open spec fn obeys_from_spec() -> bool {
        true
    }

    open spec fn from_spec(value: String) -> Variant {
        Variant::Str(value)
    }
}

impl From<Dispatch> for Variant {
    fn from(value: Dispatch) -> (variant: Variant) {
        Variant::Object(value)
    }
}

impl FromSpecImpl<Dispatch> for Variant {
    open spec fn obeys_from_spec() -> bool {
        true
    }

    open spec fn from_spec(value: Dispatch) -> Variant {
        Variant::Object(value)
    }
}

impl Variant {
    /// The value that holds a copy of `text`.
    pub fn from_text(text: &str) -> (variant: Variant)
        ensures
            variant@ == VariantView::Str(text@),
    {
        Variant::Str(text.to_owned())
    }

    /// The value that holds the single-precision number with the bits `bits`.
    pub fn from_f32_bits(bits: u32) -> (variant: Variant)
        ensures
            variant == Variant::F32(bits),
    {
        Variant::F32(bits)
    }

    /// The value that holds the double-precision number with the bits `bits`.
    pub fn from_f64_bits(bits: u64) -> (variant: Variant)
        ensures
            variant == Variant::F64(bits),
    {
        Variant::F64(bits)
    }

    /// The value that holds a copy of the bytes of a record.
    pub fn from_record_bytes(bytes: Vec<u8>) -> (variant: Variant)
        ensures
            variant == Variant::Record(bytes),
    {
        Variant::Record(bytes)
    }
}

} // verus!
