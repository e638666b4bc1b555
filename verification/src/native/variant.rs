//! The tagged value through which every argument and result is marshalled.

use vstd::prelude::*;
use crate::error::{Error, ErrorView, DISP_E_OVERFLOW, DISP_E_TYPEMISMATCH, TYPE_E_TYPEMISMATCH};
use crate::native::dispatch::Dispatch;

verus! {

/// A value of one of a closed set of kinds, together with its tag.
///
/// Floating-point payloads are carried as their IEEE 754 bit patterns. A record
/// carries a copy of the bytes of its fixed-layout blob, so that it stays
/// valid after the call that produced it.
#[derive(Debug, Clone)]
pub enum Variant {
    Empty,
    Bool(bool),
    I8(i8),
    I16(i16),
    I32(i32),
    I64(i64),
    U8(u8),
    U16(u16),
    U32(u32),
    U64(u64),
    F32(u32),
    F64(u64),
    Str(String),
    Object(Dispatch),
    Record(Vec<u8>),
}

/// The mathematical value of a [`Variant`].
pub enum VariantView {
    Empty,
    Bool(bool),
    I8(i8),
    I16(i16),
    I32(i32),
    I64(i64),
    U8(u8),
    U16(u16),
    U32(u32),
    U64(u64),
    F32(u32),
    F64(u64),
    Str(Seq<char>),
    Object(Dispatch),
    Record(Seq<u8>),
}

impl View for Variant {
    type V = VariantView;

    open spec fn view(&self) -> VariantView {
        match self {
            Variant::Empty => VariantView::Empty,
            Variant::Bool(value) => VariantView::Bool(*value),
            Variant::I8(value) => VariantView::I8(*value),
            Variant::I16(value) => VariantView::I16(*value),
            Variant::I32(value) => VariantView::I32(*value),
            Variant::I64(value) => VariantView::I64(*value),
            Variant::U8(value) => VariantView::U8(*value),
            Variant::U16(value) => VariantView::U16(*value),
            Variant::U32(value) => VariantView::U32(*value),
            Variant::U64(value) => VariantView::U64(*value),
            Variant::F32(bits) => VariantView::F32(*bits),
            Variant::F64(bits) => VariantView::F64(*bits),
            Variant::Str(text) => VariantView::Str(text@),
            Variant::Object(handle) => VariantView::Object(*handle),
            Variant::Record(bytes) => VariantView::Record(bytes@),
        }
    }
}

/// The views of a sequence of values, in the same order.
pub open spec fn views(values: Seq<Variant>) -> Seq<VariantView> {
    values.map_values(|value: Variant| value@)
}

impl VariantView {
    /// The number of the tag in the foreign call convention.
    pub open spec fn vt(self) -> u16 {
        match self {
            VariantView::Empty => 0,
            VariantView::I16(_) => 2,
            VariantView::I32(_) => 3,
            VariantView::F32(_) => 4,
            VariantView::F64(_) => 5,
            VariantView::Str(_) => 8,
            VariantView::Object(_) => 9,
            VariantView::Bool(_) => 11,
            VariantView::I8(_) => 16,
            VariantView::U8(_) => 17,
            VariantView::U16(_) => 18,
            VariantView::U32(_) => 19,
            VariantView::I64(_) => 20,
            VariantView::U64(_) => 21,
            VariantView::Record(_) => 36,
        }
    }

    /// The number that an integer-tagged value holds; `None` for every other tag.
    pub open spec fn integer(self) -> Option<int> {
        match self {
            VariantView::I8(value) => Some(value as int),
            VariantView::I16(value) => Some(value as int),
            VariantView::I32(value) => Some(value as int),
            VariantView::I64(value) => Some(value as int),
            VariantView::U8(value) => Some(value as int),
            VariantView::U16(value) => Some(value as int),
            VariantView::U32(value) => Some(value as int),
            VariantView::U64(value) => Some(value as int),
            _ => None,
        }
    }

    /// What an integer accessor for the range `low ..= high` yields: the
    /// number held, if the tag is an integer tag and the number is in range.
    pub open spec fn integer_within(self, low: int, high: int) -> Result<int, ErrorView> {
        match self.integer() {
            None => Err(ErrorView::WinApi(DISP_E_TYPEMISMATCH)),
            Some(number) => if low <= number <= high {
                Ok(number)
            } else {
                Err(ErrorView::WinApi(DISP_E_OVERFLOW))
            },
        }
    }

    /// What the boolean accessor yields.
    pub open spec fn boolean(self) -> Result<bool, ErrorView> {
        match self {
            VariantView::Bool(value) => Ok(value),
            _ => Err(ErrorView::WinApi(DISP_E_TYPEMISMATCH)),
        }
    }

    /// What the string accessor yields.
    pub open spec fn string(self) -> Result<Seq<char>, ErrorView> {
        match self {
            VariantView::Str(text) => Ok(text),
            _ => Err(ErrorView::WinApi(DISP_E_TYPEMISMATCH)),
        }
    }

    /// What the object accessor yields: the handle held, unless it is null.
    pub open spec fn object(self) -> Result<Dispatch, ErrorView> {
        match self {
            VariantView::Object(handle) => if handle.is_null_spec() {
                Err(ErrorView::WinApi(TYPE_E_TYPEMISMATCH))
            } else {
                Ok(handle)
            },
            _ => Err(ErrorView::WinApi(TYPE_E_TYPEMISMATCH)),
        }
    }

    /// What the accessor for the bits of a double yields.
    pub open spec fn double_bits(self) -> Result<u64, ErrorView> {
        match self {
            VariantView::F64(bits) => Ok(bits),
            _ => Err(ErrorView::WinApi(DISP_E_TYPEMISMATCH)),
        }
    }

    /// What the record accessor yields.
    pub open spec fn record(self) -> Result<Seq<u8>, ErrorView> {
        match self {
            VariantView::Record(bytes) => Ok(bytes),
            _ => Err(ErrorView::WinApi(DISP_E_TYPEMISMATCH)),
        }
    }
}

/// Reading a value back with the accessor of its own kind gives the value.
pub proof fn lemma_round_trip(
    flag: bool,
    small: i16,
    medium: i32,
    large: i64,
    small_unsigned: u16,
    medium_unsigned: u32,
    large_unsigned: u64,
    bits: u64,
    text: Seq<char>,
    handle: Dispatch,
    bytes: Seq<u8>,
)
    ensures
        VariantView::Bool(flag).boolean() == Ok::<bool, ErrorView>(flag),
        VariantView::I16(small).integer_within(-0x8000, 0x7fff) == Ok::<int, ErrorView>(
            small as int,
        ),
        VariantView::I32(medium).integer_within(-0x8000_0000, 0x7fff_ffff) == Ok::<int, ErrorView>(
            medium as int,
        ),
        VariantView::I64(large).integer_within(-0x8000_0000_0000_0000, 0x7fff_ffff_ffff_ffff)
            == Ok::<int, ErrorView>(large as int),
        VariantView::U16(small_unsigned).integer_within(0, 0xffff) == Ok::<int, ErrorView>(
            small_unsigned as int,
        ),
        VariantView::U32(medium_unsigned).integer_within(0, 0xffff_ffff) == Ok::<int, ErrorView>(
            medium_unsigned as int,
        ),
        VariantView::U64(large_unsigned).integer_within(0, 0xffff_ffff_ffff_ffff) == Ok::<
            int,
            ErrorView,
        >(large_unsigned as int),
        VariantView::F64(bits).double_bits() == Ok::<u64, ErrorView>(bits),
        VariantView::Str(text).string() == Ok::<Seq<char>, ErrorView>(text),
        !handle.is_null_spec() ==> VariantView::Object(handle).object() == Ok::<
            Dispatch,
            ErrorView,
        >(handle),
        VariantView::Record(bytes).record() == Ok::<Seq<u8>, ErrorView>(bytes),
{
}

impl VariantView {
    /// Whether the tag is one of the integer tags.
    pub open spec fn is_integer(self) -> bool {
        self.integer() is Some
    }

    /// An accessor of another kind fails with a conversion error: each
    /// accessor rejects every value whose tag is not of its kind. The integer
    /// tags are one kind: an integer accessor takes an integer of another
    /// width, and rejects it only if the number does not fit.
    pub proof fn lemma_mismatch_fails(self, low: int, high: int)
        ensures
            !(self is Bool) ==> self.boolean() == Err::<bool, ErrorView>(
                ErrorView::WinApi(DISP_E_TYPEMISMATCH),
            ),
            !self.is_integer() ==> self.integer_within(low, high) == Err::<int, ErrorView>(
                ErrorView::WinApi(DISP_E_TYPEMISMATCH),
            ),
            self.is_integer() ==> (self.integer_within(low, high) is Ok <==> low
                <= self.integer()->Some_0 <= high),
            !(self is F64) ==> self.double_bits() == Err::<u64, ErrorView>(
                ErrorView::WinApi(DISP_E_TYPEMISMATCH),
            ),
            !(self is Str) ==> self.string() == Err::<Seq<char>, ErrorView>(
                ErrorView::WinApi(DISP_E_TYPEMISMATCH),
            ),
            !(self is Object) ==> self.object() == Err::<Dispatch, ErrorView>(
                ErrorView::WinApi(TYPE_E_TYPEMISMATCH),
            ),
            !(self is Record) ==> self.record() == Err::<Seq<u8>, ErrorView>(
                ErrorView::WinApi(DISP_E_TYPEMISMATCH),
            ),
    {
    }
}

impl Variant {
    /// The number held by an integer-tagged value.
    fn integer(&self) -> (number: Option<i128>)
        ensures
            match number {
                Some(n) => self@.integer() == Some(n as int),
                None => self@.integer().is_none(),
            },
    {
        match self {
            Variant::I8(value) => Some(*value as i128),
            Variant::I16(value) => Some(*value as i128),
            Variant::I32(value) => Some(*value as i128),
            Variant::I64(value) => Some(*value as i128),
            Variant::U8(value) => Some(*value as i128),
            Variant::U16(value) => Some(*value as i128),
            Variant::U32(value) => Some(*value as i128),
            Variant::U64(value) => Some(*value as i128),
            _ => None,
        }
    }

    /// The number held, if the tag is an integer tag and the number lies in
    /// `low ..= high`.
    fn integer_within(&self, low: i128, high: i128) -> (result: Result<i128, Error>)
        ensures
            match result {
                Ok(n) => self@.integer_within(low as int, high as int) == Ok::<int, ErrorView>(
                    n as int,
                ),
                Err(e) => self@.integer_within(low as int, high as int) == Err::<int, ErrorView>(
                    e@,
                ),
            },
    {
        match self.integer() {
            None => Err(Error::WinApi(DISP_E_TYPEMISMATCH)),
            Some(number) => if low <= number && number <= high {
                Ok(number)
            } else {
                Err(Error::WinApi(DISP_E_OVERFLOW))
            },
        }
    }

    /// Reads the value as a boolean; fails unless the tag is boolean.
    pub fn as_bool(&self) -> (result: Result<bool, Error>)
        ensures
            match result {
                Ok(value) => self@.boolean() == Ok::<bool, ErrorView>(value),
                Err(e) => self@.boolean() == Err::<bool, ErrorView>(e@),
            },
    {
        match self {
            Variant::Bool(value) => Ok(*value),
            _ => Err(Error::WinApi(DISP_E_TYPEMISMATCH)),
        }
    }

    /// Reads the value as a `u16`, widening or narrowing an integer of any width.
    pub fn as_u16(&self) -> (result: Result<u16, Error>)
        ensures
            match result {
                Ok(value) => self@.integer_within(0, 0xffff) == Ok::<int, ErrorView>(value as int),
                Err(e) => self@.integer_within(0, 0xffff) == Err::<int, ErrorView>(e@),
            },
    {
        match self.integer_within(0, 0xffff) {
            Ok(number) => Ok(number as u16),
            Err(e) => Err(e),
        }
    }

    /// Reads the value as a `u32`, widening or narrowing an integer of any width.
    pub fn as_u32(&self) -> (result: Result<u32, Error>)
        ensures
            match result {
                Ok(value) => self@.integer_within(0, 0xffff_ffff) == Ok::<int, ErrorView>(
                    value as int,
                ),
                Err(e) => self@.integer_within(0, 0xffff_ffff) == Err::<int, ErrorView>(e@),
            },
    {
        match self.integer_within(0, 0xffff_ffff) {
            Ok(number) => Ok(number as u32),
            Err(e) => Err(e),
        }
    }

    /// Reads the value as a `u64`, widening or narrowing an integer of any width.
    pub fn as_u64(&self) -> (result: Result<u64, Error>)
        ensures
            match result {
                Ok(value) => self@.integer_within(0, 0xffff_ffff_ffff_ffff) == Ok::<
                    int,
                    ErrorView,
                >(value as int),
                Err(e) => self@.integer_within(0, 0xffff_ffff_ffff_ffff) == Err::<int, ErrorView>(
                    e@,
                ),
            },
    {
        match self.integer_within(0, 0xffff_ffff_ffff_ffff) {
            Ok(number) => Ok(number as u64),
            Err(e) => Err(e),
        }
    }

    /// Reads the value as an `i16`, widening or narrowing an integer of any width.
    pub fn as_i16(&self) -> (result: Result<i16, Error>)
        ensures
            match result {
                Ok(value) => self@.integer_within(-0x8000, 0x7fff) == Ok::<int, ErrorView>(
                    value as int,
                ),
                Err(e) => self@.integer_within(-0x8000, 0x7fff) == Err::<int, ErrorView>(e@),
            },
    {
        match self.integer_within(-0x8000, 0x7fff) {
            Ok(number) => Ok(number as i16),
            Err(e) => Err(e),
        }
    }

    /// Reads the value as an `i32`, widening or narrowing an integer of any width.
    pub fn as_i32(&self) -> (result: Result<i32, Error>)
        ensures
            match result {
                Ok(value) => self@.integer_within(-0x8000_0000, 0x7fff_ffff) == Ok::<
                    int,
                    ErrorView,
                >(value as int),
                Err(e) => self@.integer_within(-0x8000_0000, 0x7fff_ffff) == Err::<int, ErrorView>(
                    e@,
                ),
            },
    {
        match self.integer_within(-0x8000_0000, 0x7fff_ffff) {
            Ok(number) => Ok(number as i32),
            Err(e) => Err(e),
        }
    }

    /// Reads the value as an `i64`, widening or narrowing an integer of any width.
    pub fn as_i64(&self) -> (result: Result<i64, Error>)
        ensures
            match result {
                Ok(value) => self@.integer_within(-0x8000_0000_0000_0000, 0x7fff_ffff_ffff_ffff)
                    == Ok::<int, ErrorView>(value as int),
                Err(e) => self@.integer_within(-0x8000_0000_0000_0000, 0x7fff_ffff_ffff_ffff)
                    == Err::<int, ErrorView>(e@),
            },
    {
        match self.integer_within(-0x8000_0000_0000_0000, 0x7fff_ffff_ffff_ffff) {
            Ok(number) => Ok(number as i64),
            Err(e) => Err(e),
        }
    }

    /// Reads the value as the platform's `int`; the same as [`Variant::as_i32`].
    pub fn as_int(&self) -> (result: Result<i32, Error>)
        ensures
            match result {
                Ok(value) => self@.integer_within(-0x8000_0000, 0x7fff_ffff) == Ok::<
                    int,
                    ErrorView,
                >(value as int),
                Err(e) => self@.integer_within(-0x8000_0000, 0x7fff_ffff) == Err::<int, ErrorView>(
                    e@,
                ),
            },
    {
        self.as_i32()
    }

    /// Reads the value as the platform's `unsigned`; the same as [`Variant::as_u32`].
    pub fn as_unsigned(&self) -> (result: Result<u32, Error>)
        ensures
            match result {
                Ok(value) => self@.integer_within(0, 0xffff_ffff) == Ok::<int, ErrorView>(
                    value as int,
                ),
                Err(e) => self@.integer_within(0, 0xffff_ffff) == Err::<int, ErrorView>(e@),
            },
    {
        self.as_u32()
    }

    /// Reads the bit pattern of a double; fails unless the tag is double.
    pub fn as_f64_bits(&self) -> (result: Result<u64, Error>)
        ensures
            match result {
                Ok(bits) => self@.double_bits() == Ok::<u64, ErrorView>(bits),
                Err(e) => self@.double_bits() == Err::<u64, ErrorView>(e@),
            },
    {
        match self {
            Variant::F64(bits) => Ok(*bits),
            _ => Err(Error::WinApi(DISP_E_TYPEMISMATCH)),
        }
    }

    /// Copies the string out; fails unless the tag is string.
    pub fn into_string(&self) -> (result: Result<String, Error>)
        ensures
            match result {
                Ok(text) => self@.string() == Ok::<Seq<char>, ErrorView>(text@),
                Err(e) => self@.string() == Err::<Seq<char>, ErrorView>(e@),
            },
    {
        match self {
            Variant::Str(text) => Ok(text.clone()),
            _ => Err(Error::WinApi(DISP_E_TYPEMISMATCH)),
        }
    }

    /// Extracts an independent handle to the object held; fails unless the tag
    /// is object and the reference is not null.
    pub fn into_dispatch(&self) -> (result: Result<Dispatch, Error>)
        ensures
            match result {
                Ok(handle) => self@.object() == Ok::<Dispatch, ErrorView>(handle),
                Err(e) => self@.object() == Err::<Dispatch, ErrorView>(e@),
            },
    {
        match self {
            Variant::Object(handle) => if handle.is_null() {
                Err(Error::WinApi(TYPE_E_TYPEMISMATCH))
            } else {
                Ok(*handle)
            },
            _ => Err(Error::WinApi(TYPE_E_TYPEMISMATCH)),
        }
    }

    /// Copies the bytes of the record out; fails unless the tag is record.
    ///
    /// The tag carries no schema: what the bytes mean is for the caller to know.
    pub fn as_record_bytes(&self) -> (result: Result<Vec<u8>, Error>)
        ensures
            match result {
                Ok(bytes) => self@.record() == Ok::<Seq<u8>, ErrorView>(bytes@),
                Err(e) => self@.record() == Err::<Seq<u8>, ErrorView>(e@),
            },
    {
        match self {
            Variant::Record(bytes) => Ok(bytes.clone()),
            _ => Err(Error::WinApi(DISP_E_TYPEMISMATCH)),
        }
    }

    /// Returns the number of the tag in the foreign call convention.
    pub fn vt(&self) -> (tag: u16)
        ensures
            tag == self@.vt(),
    {
        match self {
            Variant::Empty => 0,
            Variant::I16(_) => 2,
            Variant::I32(_) => 3,
            Variant::F32(_) => 4,
            Variant::F64(_) => 5,
            Variant::Str(_) => 8,
            Variant::Object(_) => 9,
            Variant::Bool(_) => 11,
            Variant::I8(_) => 16,
            Variant::U8(_) => 17,
            Variant::U16(_) => 18,
            Variant::U32(_) => 19,
            Variant::I64(_) => 20,
            Variant::U64(_) => 21,
            Variant::Record(_) => 36,
        }
    }

    /// A copy of this value.
    pub fn duplicate(&self) -> (copy: Variant)
        ensures
            copy@ == self@,
    {
        match self {
            Variant::Empty => Variant::Empty,
            Variant::Bool(value) => Variant::Bool(*value),
            Variant::I8(value) => Variant::I8(*value),
            Variant::I16(value) => Variant::I16(*value),
            Variant::I32(value) => Variant::I32(*value),
            Variant::I64(value) => Variant::I64(*value),
            Variant::U8(value) => Variant::U8(*value),
            Variant::U16(value) => Variant::U16(*value),
            Variant::U32(value) => Variant::U32(*value),
            Variant::U64(value) => Variant::U64(*value),
            Variant::F32(bits) => Variant::F32(*bits),
            Variant::F64(bits) => Variant::F64(*bits),
            Variant::Str(text) => Variant::Str(text.clone()),
            Variant::Object(handle) => Variant::Object(*handle),
            Variant::Record(bytes) => Variant::Record(bytes.clone()),
        }
    }
}

} // verus!
