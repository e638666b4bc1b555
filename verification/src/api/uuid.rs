//! The 128-bit identifier of entities and categories, and its textual form.

use vstd::prelude::*;
use crate::error::{Error, ErrorView};
use crate::text::{hex_text, push_hex, upper_hex_digit};

verus! {

/// A 128-bit unique identifier.
///
/// The four fields are the four groups of the textual form
/// `XXXXXXXX-XXXX-XXXX-XXXX-XXXXXXXXXXXX`, where `data4` holds the last two
/// groups, the fourth group in its sixteen high bits. Identifiers are
/// compared field by field, in the order of the fields.
#[derive(Debug, Clone, Copy, PartialEq, Eq, Structural, PartialOrd, Ord, Hash)]
pub struct UUID {
    pub data1: u32,
    pub data2: u16,
    pub data3: u16,
    pub data4: u64,
}

/// The value of a hexadecimal digit of either case; `None` for any other character.
pub open spec fn hex_digit_value(c: char) -> Option<nat> {
    match c {
        '0' => Some(0),
        '1' => Some(1),
        '2' => Some(2),
        '3' => Some(3),
        '4' => Some(4),
        '5' => Some(5),
        '6' => Some(6),
        '7' => Some(7),
        '8' => Some(8),
        '9' => Some(9),
        'a' | 'A' => Some(10),
        'b' | 'B' => Some(11),
        'c' | 'C' => Some(12),
        'd' | 'D' => Some(13),
        'e' | 'E' => Some(14),
        'f' | 'F' => Some(15),
        _ => None,
    }
}

/// Whether every character of `digits` is a hexadecimal digit.
pub open spec fn all_hex(digits: Seq<char>) -> bool {
    forall|i: int| 0 <= i < digits.len() ==> (#[trigger] hex_digit_value(digits[i])).is_some()
}

/// The number that `digits` denotes in base sixteen, most significant digit first.
pub open spec fn hex_number(digits: Seq<char>) -> nat
    decreases digits.len(),
{
    if digits.len() == 0 {
        0
    } else {
        hex_number(digits.drop_last()) * 16 + match hex_digit_value(digits.last()) {
            Some(value) => value,
            None => 0,
        }
    }
}

/// Sixteen to the power `n`.
pub open spec fn pow16(n: nat) -> nat
    decreases n,
{
    if n == 0 {
        1
    } else {
        16 * pow16((n - 1) as nat)
    }
}

/// Whether `text` is the textual form of an identifier: thirty-six characters,
/// hyphens at the four group boundaries, hexadecimal digits elsewhere.
pub open spec fn well_formed(text: Seq<char>) -> bool {
    &&& text.len() == 36
    &&& text[8] == '-'
    &&& text[13] == '-'
    &&& text[18] == '-'
    &&& text[23] == '-'
    &&& all_hex(text.subrange(0, 8))
    &&& all_hex(text.subrange(9, 13))
    &&& all_hex(text.subrange(14, 18))
    &&& all_hex(text.subrange(19, 23))
    &&& all_hex(text.subrange(24, 36))
}

/// The identifier that a well-formed `text` denotes.
pub open spec fn parsed(text: Seq<char>) -> UUID {
    UUID {
        data1: hex_number(text.subrange(0, 8)) as u32,
        data2: hex_number(text.subrange(9, 13)) as u16,
        data3: hex_number(text.subrange(14, 18)) as u16,
        data4: (hex_number(text.subrange(19, 23)) * 0x1_0000_0000_0000 + hex_number(
            text.subrange(24, 36),
        )) as u64,
    }
}

/// The message of the error that an ill-formed `text` gives.
pub open spec fn parse_failure(text: Seq<char>) -> Seq<char> {
    "Failed to parse UUID from string: "@ + text
}

/// `text` without its leading opening braces.
pub open spec fn trim_opening_braces(text: Seq<char>) -> Seq<char>
    decreases text.len(),
{
    if text.len() > 0 && text.first() == '{' {
        trim_opening_braces(text.drop_first())
    } else {
        text
    }
}

/// `text` without its trailing closing braces.
pub open spec fn trim_closing_braces(text: Seq<char>) -> Seq<char>
    decreases text.len(),
{
    if text.len() > 0 && text.last() == '}' {
        trim_closing_braces(text.drop_last())
    } else {
        text
    }
}

/// `text` without the braces that enclose it: first the leading opening
/// braces go, then the trailing closing braces of what is left.
pub open spec fn without_braces(text: Seq<char>) -> Seq<char> {
    trim_closing_braces(trim_opening_braces(text))
}

/// What parsing an identifier that may be enclosed in braces yields.
pub open spec fn identifier(text: Seq<char>) -> Result<UUID, ErrorView> {
    if well_formed(without_braces(text)) {
        Ok(parsed(without_braces(text)))
    } else {
        Err(ErrorView::ParseError(parse_failure(without_braces(text))))
    }
}

/// Leading opening braces go, whatever follows: where `tail` does not start
/// with an opening brace, trimming `head + tail` leaves what trimming `head`
/// leaves, followed by `tail`.
pub proof fn lemma_trim_opening_braces_of_concat(head: Seq<char>, tail: Seq<char>)
    requires
        tail.len() > 0,
        tail.first() != '{',
    ensures
        trim_opening_braces(head + tail) == trim_opening_braces(head) + tail,
    decreases head.len(),
{
    if head.len() > 0 && head.first() == '{' {
        lemma_trim_opening_braces_of_concat(head.drop_first(), tail);
        assert((head + tail).drop_first() =~= head.drop_first() + tail);
    } else {
        assert(head.len() == 0 ==> head + tail =~= tail);
        assert(head.len() == 0 ==> trim_opening_braces(head) + tail =~= tail);
    }
}

/// Enclosing braces do not matter: an identifier in braces parses to what
/// the same text without them parses to.
pub proof fn lemma_braces_do_not_matter(text: Seq<char>)
    ensures
        without_braces(seq!['{'] + text + seq!['}']) == without_braces(text),
        identifier(seq!['{'] + text + seq!['}']) == identifier(text),
{
    let braced = seq!['{'] + text + seq!['}'];
    assert(braced.drop_first() =~= text + seq!['}']);
    lemma_trim_opening_braces_of_concat(text, seq!['}']);
    let inner = trim_opening_braces(text);
    assert((inner + seq!['}']).drop_last() =~= inner);
}

/// The character `c` with a hexadecimal digit in upper case; any other
/// character as it is.
pub open spec fn upper_hex(c: char) -> char {
    match hex_digit_value(c) {
        Some(value) => upper_hex_digit(value),
        None => c,
    }
}

/// `text` with its hexadecimal digits in upper case.
pub open spec fn upper_case(text: Seq<char>) -> Seq<char> {
    text.map_values(|c: char| upper_hex(c))
}

/// The text of a number has as many digits as were asked for, all of them
/// hexadecimal.
pub proof fn lemma_hex_text_shape(value: nat, width: nat)
    ensures
        hex_text(value, width).len() == width,
        all_hex(hex_text(value, width)),
    decreases width,
{
    if width > 0 {
        lemma_hex_text_shape(value / 16, (width - 1) as nat);
    }
}

/// The text of a number that fits the width denotes the number.
pub proof fn lemma_hex_number_of_text(value: nat, width: nat)
    requires
        value < pow16(width),
    ensures
        hex_number(hex_text(value, width)) == value,
    decreases width,
{
    if width > 0 {
        let shorter = hex_text(value / 16, (width - 1) as nat);
        lemma_hex_number_of_text(value / 16, (width - 1) as nat);
        assert(hex_text(value, width).drop_last() =~= shorter);
    }
}

/// The text of the number that hexadecimal digits denote is those digits
/// in upper case.
pub proof fn lemma_hex_text_of_number(digits: Seq<char>)
    requires
        all_hex(digits),
    ensures
        hex_text(hex_number(digits), digits.len()) == upper_case(digits),
    decreases digits.len(),
{
    if digits.len() > 0 {
        let shorter = digits.drop_last();
        assert(all_hex(shorter)) by {
            assert forall|i: int| 0 <= i < shorter.len() implies (#[trigger] hex_digit_value(
                shorter[i],
            )).is_some() by {
                assert(shorter[i] == digits[i]);
            }
        }
        lemma_hex_text_of_number(shorter);
        assert(hex_digit_value(digits.last()).is_some());
        assert(hex_text(hex_number(digits), digits.len()) =~= upper_case(digits));
    } else {
        assert(hex_text(hex_number(digits), digits.len()) =~= upper_case(digits));
    }
}

/// The canonical text of an identifier is well formed and parses to the
/// identifier.
pub proof fn lemma_canonical_parses(id: UUID)
    ensures
        id.canonical().len() == 36,
        well_formed(id.canonical()),
        parsed(id.canonical()) == id,
        identifier(id.canonical()) == Ok::<UUID, ErrorView>(id),
{
    reveal_with_fuel(pow16, 14);
    let high = (id.data4 / 0x1_0000_0000_0000) as nat;
    let low = (id.data4 % 0x1_0000_0000_0000) as nat;
    let first = hex_text(id.data1 as nat, 8);
    let second = hex_text(id.data2 as nat, 4);
    let third = hex_text(id.data3 as nat, 4);
    let fourth = hex_text(high, 4);
    let fifth = hex_text(low, 12);
    lemma_hex_text_shape(id.data1 as nat, 8);
    lemma_hex_text_shape(id.data2 as nat, 4);
    lemma_hex_text_shape(id.data3 as nat, 4);
    lemma_hex_text_shape(high, 4);
    lemma_hex_text_shape(low, 12);
    assert(pow16(8) == 0x1_0000_0000);
    assert(pow16(4) == 0x1_0000);
    assert(pow16(12) == 0x1_0000_0000_0000);
    lemma_hex_number_of_text(id.data1 as nat, 8);
    lemma_hex_number_of_text(id.data2 as nat, 4);
    lemma_hex_number_of_text(id.data3 as nat, 4);
    lemma_hex_number_of_text(high, 4);
    lemma_hex_number_of_text(low, 12);
    let text = id.canonical();
    assert(text.subrange(0, 8) =~= first);
    assert(text.subrange(9, 13) =~= second);
    assert(text.subrange(14, 18) =~= third);
    assert(text.subrange(19, 23) =~= fourth);
    assert(text.subrange(24, 36) =~= fifth);
    lemma_canonical_has_no_braces(id);
}

/// The canonical text of an identifier neither starts nor ends with a brace.
pub proof fn lemma_canonical_has_no_braces(id: UUID)
    ensures
        without_braces(id.canonical()) == id.canonical(),
{
    lemma_hex_text_shape(id.data1 as nat, 8);
    lemma_hex_text_shape(id.data2 as nat, 4);
    lemma_hex_text_shape(id.data3 as nat, 4);
    lemma_hex_text_shape((id.data4 / 0x1_0000_0000_0000) as nat, 4);
    lemma_hex_text_shape((id.data4 % 0x1_0000_0000_0000) as nat, 12);
    let text = id.canonical();
    let first = hex_text(id.data1 as nat, 8);
    let fifth = hex_text((id.data4 % 0x1_0000_0000_0000) as nat, 12);
    assert(text.first() == first[0]);
    assert(text.last() == fifth[11]);
    assert(hex_digit_value(first[0]).is_some());
    assert(hex_digit_value(fifth[11]).is_some());
}

/// Parsing and writing an identifier gives its text in upper case: the
/// canonical text of what a well-formed text denotes is that text with its
/// digits in upper case.
pub proof fn lemma_parsed_canonical(text: Seq<char>)
    requires
        well_formed(text),
    ensures
        parsed(text).canonical() == upper_case(text),
{
    reveal_with_fuel(pow16, 14);
    let first = text.subrange(0, 8);
    let second = text.subrange(9, 13);
    let third = text.subrange(14, 18);
    let fourth = text.subrange(19, 23);
    let fifth = text.subrange(24, 36);
    lemma_hex_number_bound(first);
    lemma_hex_number_bound(second);
    lemma_hex_number_bound(third);
    lemma_hex_number_bound(fourth);
    lemma_hex_number_bound(fifth);
    assert(pow16(8) == 0x1_0000_0000);
    assert(pow16(4) == 0x1_0000);
    assert(pow16(12) == 0x1_0000_0000_0000);
    lemma_hex_text_of_number(first);
    lemma_hex_text_of_number(second);
    lemma_hex_text_of_number(third);
    lemma_hex_text_of_number(fourth);
    lemma_hex_text_of_number(fifth);
    let id = parsed(text);
    let packed = hex_number(fourth) * 0x1_0000_0000_0000 + hex_number(fifth);
    assert(id.data4 == packed);
    assert(packed / 0x1_0000_0000_0000 == hex_number(fourth));
    assert(packed % 0x1_0000_0000_0000 == hex_number(fifth));
    lemma_hex_text_shape(hex_number(first), 8);
    lemma_hex_text_shape(hex_number(second), 4);
    lemma_hex_text_shape(hex_number(third), 4);
    lemma_hex_text_shape(hex_number(fourth), 4);
    lemma_hex_text_shape(hex_number(fifth), 12);
    assert(id.canonical().len() == 36);
    assert forall|i: int| 0 <= i < 36 implies id.canonical()[i] == upper_case(text)[i] by {
        if i < 8 {
            assert(upper_case(first)[i] == upper_hex(text[i]));
        } else if i == 8 {
        } else if i < 13 {
            assert(upper_case(second)[i - 9] == upper_hex(text[i]));
        } else if i == 13 {
        } else if i < 18 {
            assert(upper_case(third)[i - 14] == upper_hex(text[i]));
        } else if i == 18 {
        } else if i < 23 {
            assert(upper_case(fourth)[i - 19] == upper_hex(text[i]));
        } else if i == 23 {
        } else {
            assert(upper_case(fifth)[i - 24] == upper_hex(text[i]));
        }
    }
    assert(id.canonical() =~= upper_case(text));
}

/// An identifier in braces and the same identifier without them parse to
/// the same value, and that value is written as the canonical text: the
/// text without braces, its digits in upper case.
pub proof fn lemma_braced_identifier(text: Seq<char>)
    requires
        well_formed(text),
    ensures
        identifier(text) == Ok::<UUID, ErrorView>(parsed(text)),
        identifier(seq!['{'] + text + seq!['}']) == Ok::<UUID, ErrorView>(parsed(text)),
        parsed(text).canonical() == upper_case(text),
{
    assert(hex_digit_value(text.subrange(0, 8)[0]).is_some());
    assert(hex_digit_value(text.subrange(24, 36)[11]).is_some());
    assert(text.first() == text.subrange(0, 8)[0]);
    assert(text.last() == text.subrange(24, 36)[11]);
    lemma_braces_do_not_matter(text);
    lemma_parsed_canonical(text);
}

/// The value of the hexadecimal digit `c`.
fn hex_value(c: char) -> (value: Option<u8>)
    ensures
        match value {
            Some(v) => hex_digit_value(c) == Some(v as nat),
            None => hex_digit_value(c).is_none(),
        },
{
    match c {
        '0' => Some(0),
        '1' => Some(1),
        '2' => Some(2),
        '3' => Some(3),
        '4' => Some(4),
        '5' => Some(5),
        '6' => Some(6),
        '7' => Some(7),
        '8' => Some(8),
        '9' => Some(9),
        'a' | 'A' => Some(10),
        'b' | 'B' => Some(11),
        'c' | 'C' => Some(12),
        'd' | 'D' => Some(13),
        'e' | 'E' => Some(14),
        'f' | 'F' => Some(15),
        _ => None,
    }
}

/// A number of `n` hexadecimal digits is below sixteen to the power `n`.
pub proof fn lemma_hex_number_bound(digits: Seq<char>)
    ensures
        hex_number(digits) < pow16(digits.len()),
    decreases digits.len(),
{
    if digits.len() > 0 {
        lemma_hex_number_bound(digits.drop_last());
    }
}

/// Reads the hexadecimal number in `text[from..to]`.
fn parse_hex(text: &str, from: usize, to: usize) -> (number: Option<u64>)
    requires
        from <= to <= text@.len(),
        to - from <= 12,
    ensures
        match number {
            Some(n) => all_hex(text@.subrange(from as int, to as int)) && n == hex_number(
                text@.subrange(from as int, to as int),
            ),
            None => !all_hex(text@.subrange(from as int, to as int)),
        },
{
    let mut number: u64 = 0;
    let mut i: usize = from;
    while i < to
        invariant
            from <= i <= to <= text@.len(),
            to - from <= 12,
            all_hex(text@.subrange(from as int, i as int)),
            number == hex_number(text@.subrange(from as int, i as int)),
            number < pow16((i - from) as nat),
        decreases to - i,
    {
        let c = text.get_char(i);
        proof {
            reveal_with_fuel(pow16, 14);
            assert(text@.subrange(from as int, i + 1).drop_last() =~= text@.subrange(
                from as int,
                i as int,
            ));
            assert(text@.subrange(from as int, i + 1).last() == c);
            assert(pow16((i - from) as nat) <= pow16(11));
        }
        match hex_value(c) {
            Some(value) => {
                proof {
                    assert forall|k: int| 0 <= k < i + 1 - from implies (#[trigger] hex_digit_value(
                        text@.subrange(from as int, i + 1)[k],
                    )).is_some() by {
                        if k < i - from {
                            assert(text@.subrange(from as int, i + 1)[k] == text@.subrange(
                                from as int,
                                i as int,
                            )[k]);
                        }
                    }
                }
                number = number * 16 + value as u64;
                i = i + 1;
            },
            None => {
                proof {
                    assert(text@.subrange(from as int, to as int)[i - from] == c);
                }
                return None;
            },
        }
    }
    Some(number)
}

/// Appends a hyphen to `out`.
fn push_hyphen(out: &mut String)
    ensures
        final(out)@ == old(out)@ + seq!['-'],
{
    proof {
        reveal_strlit("-");
    }
    out.append("-");
    proof {
        assert(final(out)@ =~= old(out)@ + seq!['-']);
    }
}

impl DeepView for UUID {
    type V = UUID;

    open spec fn deep_view(&self) -> UUID {
        *self
    }
}

impl UUID {
    /// The identifier whose bits are all zero.
    pub fn nil() -> (id: UUID)
        ensures
            id == (UUID { data1: 0, data2: 0, data3: 0, data4: 0 }),
    {
        UUID { data1: 0, data2: 0, data3: 0, data4: 0 }
    }

    /// The byte at `index` of the last field, counted from its most
    /// significant byte.
    pub open spec fn data4_byte(self, index: int) -> u8 {
        if index == 0 {
            ((self.data4 >> 56) & 0xff) as u8
        } else if index == 1 {
            ((self.data4 >> 48) & 0xff) as u8
        } else if index == 2 {
            ((self.data4 >> 40) & 0xff) as u8
        } else if index == 3 {
            ((self.data4 >> 32) & 0xff) as u8
        } else if index == 4 {
            ((self.data4 >> 24) & 0xff) as u8
        } else if index == 5 {
            ((self.data4 >> 16) & 0xff) as u8
        } else if index == 6 {
            ((self.data4 >> 8) & 0xff) as u8
        } else {
            (self.data4 & 0xff) as u8
        }
    }

    /// Returns the four fields as the system lays an identifier out: the
    /// last field as its eight bytes, most significant first.
    pub fn as_guid(&self) -> (parts: (u32, u16, u16, [u8; 8]))
        ensures
            parts.0 == self.data1,
            parts.1 == self.data2,
            parts.2 == self.data3,
            forall|i: int| 0 <= i < 8 ==> parts.3[i] == self.data4_byte(i),
    {
        let d = self.data4;
        (
            self.data1,
            self.data2,
            self.data3,
            [
                ((d >> 56) & 0xff) as u8,
                ((d >> 48) & 0xff) as u8,
                ((d >> 40) & 0xff) as u8,
                ((d >> 32) & 0xff) as u8,
                ((d >> 24) & 0xff) as u8,
                ((d >> 16) & 0xff) as u8,
                ((d >> 8) & 0xff) as u8,
                (d & 0xff) as u8,
            ],
        )
    }

    /// Gives the identifier up for its four fields, as [`UUID::as_guid`]
    /// returns them.
    pub fn into_inner(self) -> (parts: (u32, u16, u16, [u8; 8]))
        ensures
            parts.0 == self.data1,
            parts.1 == self.data2,
            parts.2 == self.data3,
            forall|i: int| 0 <= i < 8 ==> parts.3[i] == self.data4_byte(i),
    {
        self.as_guid()
    }

    /// Makes an identifier of its four fields as the system lays them out.
    pub fn from_guid(data1: u32, data2: u16, data3: u16, data4: [u8; 8]) -> (id: UUID)
        ensures
            id.data1 == data1,
            id.data2 == data2,
            id.data3 == data3,
            forall|i: int| 0 <= i < 8 ==> id.data4_byte(i) == data4[i],
    {
        let b0 = data4[0] as u64;
        let b1 = data4[1] as u64;
        let b2 = data4[2] as u64;
        let b3 = data4[3] as u64;
        let b4 = data4[4] as u64;
        let b5 = data4[5] as u64;
        let b6 = data4[6] as u64;
        let b7 = data4[7] as u64;
        let packed: u64 = (b0 << 56) | (b1 << 48) | (b2 << 40) | (b3 << 32) | (b4 << 24) | (b5
            << 16) | (b6 << 8) | b7;
        proof {
            assert(((packed >> 56) & 0xff) == b0 && ((packed >> 48) & 0xff) == b1 && ((packed
                >> 40) & 0xff) == b2 && ((packed >> 32) & 0xff) == b3 && ((packed >> 24) & 0xff)
                == b4 && ((packed >> 16) & 0xff) == b5 && ((packed >> 8) & 0xff) == b6 && (packed
                & 0xff) == b7) by (bit_vector)
                requires
                    packed == (b0 << 56) | (b1 << 48) | (b2 << 40) | (b3 << 32) | (b4 << 24) | (b5
                        << 16) | (b6 << 8) | b7,
                    b0 < 256,
                    b1 < 256,
                    b2 < 256,
                    b3 < 256,
                    b4 < 256,
                    b5 < 256,
                    b6 < 256,
                    b7 < 256,
            ;
        }
        UUID { data1, data2, data3, data4: packed }
    }

    /// The canonical textual form: upper-case digits in five groups, no braces.
    pub open spec fn canonical(self) -> Seq<char> {
        hex_text(self.data1 as nat, 8) + seq!['-'] + hex_text(self.data2 as nat, 4) + seq!['-']
            + hex_text(self.data3 as nat, 4) + seq!['-'] + hex_text(
            (self.data4 / 0x1_0000_0000_0000) as nat,
            4,
        ) + seq!['-'] + hex_text((self.data4 % 0x1_0000_0000_0000) as nat, 12)
    }

    /// The canonical textual form of the identifier.
    pub fn to_string(&self) -> (text: String)
        ensures
            text@ == self.canonical(),
    {
        let mut text = String::new();
        push_hex(&mut text, self.data1 as u64, 8);
        push_hyphen(&mut text);
        push_hex(&mut text, self.data2 as u64, 4);
        push_hyphen(&mut text);
        push_hex(&mut text, self.data3 as u64, 4);
        push_hyphen(&mut text);
        push_hex(&mut text, self.data4 / 0x1_0000_0000_0000, 4);
        push_hyphen(&mut text);
        push_hex(&mut text, self.data4 % 0x1_0000_0000_0000, 12);
        proof {
            assert(text@ =~= self.canonical());
        }
        text
    }

    /// Parses the textual form `XXXXXXXX-XXXX-XXXX-XXXX-XXXXXXXXXXXX`, with
    /// digits of either case and without braces.
    pub fn from_str(text: &str) -> (result: Result<UUID, Error>)
        ensures
            match result {
                Ok(id) => well_formed(text@) && id == parsed(text@),
                Err(e) => !well_formed(text@) && e@ == ErrorView::ParseError(parse_failure(text@)),
            },
    {
        if text.unicode_len() != 36 {
            return Err(Self::failure(text));
        }
        if text.get_char(8) != '-' || text.get_char(13) != '-' || text.get_char(18) != '-'
            || text.get_char(23) != '-' {
            return Err(Self::failure(text));
        }
        let first = parse_hex(text, 0, 8);
        let second = parse_hex(text, 9, 13);
        let third = parse_hex(text, 14, 18);
        let fourth = parse_hex(text, 19, 23);
        let fifth = parse_hex(text, 24, 36);
        match (first, second, third, fourth, fifth) {
            (Some(a), Some(b), Some(c), Some(d), Some(e)) => {
                proof {
                    reveal_with_fuel(pow16, 14);
                    lemma_hex_number_bound(text@.subrange(0, 8));
                    lemma_hex_number_bound(text@.subrange(9, 13));
                    lemma_hex_number_bound(text@.subrange(14, 18));
                    lemma_hex_number_bound(text@.subrange(19, 23));
                    lemma_hex_number_bound(text@.subrange(24, 36));
                    assert(pow16(8) == 0x1_0000_0000);
                    assert(pow16(4) == 0x1_0000);
                    assert(pow16(12) == 0x1_0000_0000_0000);
                }
                Ok(
                    UUID {
                        data1: a as u32,
                        data2: b as u16,
                        data3: c as u16,
                        data4: d * 0x1_0000_0000_0000 + e,
                    },
                )
            },
            _ => Err(Self::failure(text)),
        }
    }

    /// Parses an identifier that may be enclosed in braces.
    pub fn from_braced_str(text: &str) -> (result: Result<UUID, Error>)
        ensures
            match result {
                Ok(id) => identifier(text@) == Ok::<UUID, ErrorView>(id),
                Err(e) => identifier(text@) == Err::<UUID, ErrorView>(e@),
            },
    {
        Self::from_str(strip_braces(text))
    }

    /// The error for a `text` that is no identifier.
    fn failure(text: &str) -> (e: Error)
        ensures
            e@ == ErrorView::ParseError(parse_failure(text@)),
    {
        Error::ParseError(String::from_str("Failed to parse UUID from string: ").concat(text))
    }
}

impl Default for UUID {
    fn default() -> (id: UUID)
        ensures
            id == (UUID { data1: 0, data2: 0, data3: 0, data4: 0 }),
    {
        UUID::nil()
    }
}

/// `text` without the braces that enclose it.
pub fn strip_braces(text: &str) -> (inner: &str)
    ensures
        inner@ == without_braces(text@),
{
    let len = text.unicode_len();
    let mut start: usize = 0;
    proof {
        assert(text@.subrange(0, len as int) =~= text@);
    }
    while start < len && text.get_char(start) == '{'
        invariant
            start <= len == text@.len(),
            trim_opening_braces(text@) == trim_opening_braces(
                text@.subrange(start as int, len as int),
            ),
        decreases len - start,
    {
        proof {
            assert(text@.subrange(start as int, len as int).drop_first() =~= text@.subrange(
                start + 1,
                len as int,
            ));
        }
        start = start + 1;
    }
    proof {
        assert(trim_opening_braces(text@) == text@.subrange(start as int, len as int));
    }
    let mut end: usize = len;
    while end > start && text.get_char(end - 1) == '}'
        invariant
            start <= end <= len == text@.len(),
            without_braces(text@) == trim_closing_braces(text@.subrange(start as int, end as int)),
        decreases end - start,
    {
        proof {
            assert(text@.subrange(start as int, end as int).drop_last() =~= text@.subrange(
                start as int,
                end - 1,
            ));
        }
        end = end - 1;
    }
    text.substring_char(start, end)
}

} // verus!
