//! Text in the forms in which messages and identifiers hold numbers and names.

use vstd::prelude::*;

verus! {

/// The decimal digit of a value below ten.
pub open spec fn decimal_digit(value: nat) -> char {
    if value == 0 {
        '0'
    } else if value == 1 {
        '1'
    } else if value == 2 {
        '2'
    } else if value == 3 {
        '3'
    } else if value == 4 {
        '4'
    } else if value == 5 {
        '5'
    } else if value == 6 {
        '6'
    } else if value == 7 {
        '7'
    } else if value == 8 {
        '8'
    } else {
        '9'
    }
}

/// The decimal digits of `value`, most significant first, without leading zeros.
pub open spec fn decimal_digits(value: nat) -> Seq<char>
    decreases value,
{
    if value < 10 {
        seq![decimal_digit(value)]
    } else {
        decimal_digits(value / 10).push(decimal_digit(value % 10))
    }
}

/// The decimal text of `value`, with a minus sign if it is negative.
pub open spec fn decimal_text(value: int) -> Seq<char> {
    if value < 0 {
        seq!['-'] + decimal_digits((-value) as nat)
    } else {
        decimal_digits(value as nat)
    }
}

/// The one-character string of the decimal digit `value`.
fn decimal_digit_str(value: u8) -> (digit: &'static str)
    requires
        value < 10,
    ensures
        digit@ == seq![decimal_digit(value as nat)],
{
    proof {
        reveal_strlit("0");
        reveal_strlit("1");
        reveal_strlit("2");
        reveal_strlit("3");
        reveal_strlit("4");
        reveal_strlit("5");
        reveal_strlit("6");
        reveal_strlit("7");
        reveal_strlit("8");
        reveal_strlit("9");
    }
    let digit = match value {
        0 => "0",
        1 => "1",
        2 => "2",
        3 => "3",
        4 => "4",
        5 => "5",
        6 => "6",
        7 => "7",
        8 => "8",
        _ => "9",
    };
    proof {
        assert(digit@ =~= seq![decimal_digit(value as nat)]);
    }
    digit
}

/// Appends the decimal digits of `value` to `out`.
fn push_decimal_digits(out: &mut String, value: u32)
    ensures
        final(out)@ == old(out)@ + decimal_digits(value as nat),
    decreases value,
{
    if value >= 10 {
        push_decimal_digits(out, value / 10);
    }
    out.append(decimal_digit_str((value % 10) as u8));
    proof {
        assert(final(out)@ =~= old(out)@ + decimal_digits(value as nat));
    }
}

/// Appends the decimal text of `value` to `out`.
pub fn push_decimal(out: &mut String, value: i32)
    ensures
        final(out)@ == old(out)@ + decimal_text(value as int),
{
    if value < 0 {
        proof {
            reveal_strlit("-");
        }
        out.append("-");
        let magnitude: u32 = if value == i32::MIN {
            0x8000_0000
        } else {
            (-value) as u32
        };
        push_decimal_digits(out, magnitude);
        proof {
            assert(final(out)@ =~= old(out)@ + decimal_text(value as int));
        }
    } else {
        push_decimal_digits(out, value as u32);
    }
}

/// The text of `prefix` followed by the decimal text of `code`.
pub fn with_code(prefix: &str, code: i32) -> (text: String)
    ensures
        text@ == prefix@ + decimal_text(code as int),
{
    let mut text = String::from_str(prefix);
    push_decimal(&mut text, code);
    text
}

/// Whether two strings hold the same characters.
pub fn same_text(left: &str, right: &str) -> (same: bool)
    ensures
        same == (left@ == right@),
{
    let len = left.unicode_len();
    if right.unicode_len() != len {
        return false;
    }
    let mut i: usize = 0;
    while i < len
        invariant
            i <= len == left@.len() == right@.len(),
            forall|k: int| 0 <= k < i ==> left@[k] == right@[k],
        decreases len - i,
    {
        if left.get_char(i) != right.get_char(i) {
            return false;
        }
        i = i + 1;
    }
    proof {
        assert(left@ =~= right@);
    }
    true
}

/// `text` with an underscore in the place of every space.
pub open spec fn underscored(text: Seq<char>) -> Seq<char> {
    text.map_values(
        |c: char|
            if c == ' ' {
                '_'
            } else {
                c
            },
    )
}

/// Replaces every space of `text` by an underscore.
pub fn replace_spaces(text: &str) -> (replaced: String)
    ensures
        replaced@ == underscored(text@),
{
    let len = text.unicode_len();
    let mut replaced = String::new();
    let mut i: usize = 0;
    proof {
        assert(replaced@ =~= underscored(text@).subrange(0, 0));
    }
    while i < len
        invariant
            i <= len == text@.len(),
            replaced@ == underscored(text@).subrange(0, i as int),
        decreases len - i,
    {
        let ghost before = replaced@;
        if text.get_char(i) == ' ' {
            proof {
                reveal_strlit("_");
            }
            replaced.append("_");
            proof {
                assert(replaced@ =~= before.push('_'));
            }
        } else {
            replaced.append(text.substring_char(i, i + 1));
            proof {
                assert(text@.subrange(i as int, i + 1) =~= seq![text@[i as int]]);
                assert(replaced@ =~= before.push(text@[i as int]));
            }
        }
        proof {
            assert(replaced@ =~= underscored(text@).subrange(0, i + 1));
        }
        i = i + 1;
    }
    proof {
        assert(underscored(text@).subrange(0, len as int) =~= underscored(text@));
    }
    replaced
}

/// Whether `text` ends with `suffix`.
pub open spec fn ends_with(text: Seq<char>, suffix: Seq<char>) -> bool {
    suffix.len() <= text.len() && text.subrange(text.len() - suffix.len(), text.len() as int)
        == suffix
}

/// `text` without any repetition of `suffix` at its end.
pub open spec fn without_suffix(text: Seq<char>, suffix: Seq<char>) -> Seq<char>
    decreases text.len(),
{
    if suffix.len() > 0 && ends_with(text, suffix) {
        without_suffix(text.subrange(0, text.len() - suffix.len()), suffix)
    } else {
        text
    }
}

/// Whether the first `end` characters of `text` end with `suffix`.
fn prefix_ends_with(text: &str, end: usize, suffix: &str) -> (ends: bool)
    requires
        end <= text@.len(),
    ensures
        ends == ends_with(text@.subrange(0, end as int), suffix@),
{
    let width = suffix.unicode_len();
    if width > end {
        return false;
    }
    let start = end - width;
    let ghost head = text@.subrange(0, end as int);
    let mut i: usize = 0;
    while i < width
        invariant
            i <= width == suffix@.len(),
            start + width == end <= text@.len(),
            head == text@.subrange(0, end as int),
            forall|k: int| 0 <= k < i ==> text@[start + k] == suffix@[k],
        decreases width - i,
    {
        if text.get_char(start + i) != suffix.get_char(i) {
            proof {
                assert(head.subrange(head.len() - width, head.len() as int)[i as int] == text@[start
                    + i]);
            }
            return false;
        }
        i = i + 1;
    }
    proof {
        assert(head.subrange(head.len() - width, head.len() as int) =~= suffix@);
    }
    true
}

/// Removes every repetition of `suffix` from the end of `text`.
pub fn trim_end_matches<'a>(text: &'a str, suffix: &str) -> (inner: &'a str)
    ensures
        inner@ == without_suffix(text@, suffix@),
{
    let width = suffix.unicode_len();
    let mut end = text.unicode_len();
    proof {
        assert(text@.subrange(0, end as int) =~= text@);
    }
    if width == 0 {
        return text;
    }
    while prefix_ends_with(text, end, suffix)
        invariant
            end <= text@.len(),
            0 < width == suffix@.len(),
            without_suffix(text@, suffix@) == without_suffix(
                text@.subrange(0, end as int),
                suffix@,
            ),
        decreases end,
    {
        proof {
            assert(text@.subrange(0, end as int).subrange(0, end - width) =~= text@.subrange(
                0,
                end - width,
            ));
        }
        end = end - width;
    }
    text.substring_char(0, end)
}

/// The upper-case hexadecimal digit of a value below sixteen.
pub open spec fn upper_hex_digit(value: nat) -> char {
    if value == 0 {
        '0'
    } else if value == 1 {
        '1'
    } else if value == 2 {
        '2'
    } else if value == 3 {
        '3'
    } else if value == 4 {
        '4'
    } else if value == 5 {
        '5'
    } else if value == 6 {
        '6'
    } else if value == 7 {
        '7'
    } else if value == 8 {
        '8'
    } else if value == 9 {
        '9'
    } else if value == 10 {
        'A'
    } else if value == 11 {
        'B'
    } else if value == 12 {
        'C'
    } else if value == 13 {
        'D'
    } else if value == 14 {
        'E'
    } else {
        'F'
    }
}

/// The `width` low hexadecimal digits of `value` in upper case, most
/// significant digit first.
pub open spec fn hex_text(value: nat, width: nat) -> Seq<char>
    decreases width,
{
    if width == 0 {
        Seq::empty()
    } else {
        hex_text(value / 16, (width - 1) as nat).push(upper_hex_digit(value % 16))
    }
}

/// The one-character string of the upper-case hexadecimal digit `value`.
fn upper_hex_str(value: u8) -> (digit: &'static str)
    requires
        value < 16,
    ensures
        digit@ == seq![upper_hex_digit(value as nat)],
{
    proof {
        reveal_strlit("0");
        reveal_strlit("1");
        reveal_strlit("2");
        reveal_strlit("3");
        reveal_strlit("4");
        reveal_strlit("5");
        reveal_strlit("6");
        reveal_strlit("7");
        reveal_strlit("8");
        reveal_strlit("9");
        reveal_strlit("A");
        reveal_strlit("B");
        reveal_strlit("C");
        reveal_strlit("D");
        reveal_strlit("E");
        reveal_strlit("F");
    }
    let digit = match value {
        0 => "0",
        1 => "1",
        2 => "2",
        3 => "3",
        4 => "4",
        5 => "5",
        6 => "6",
        7 => "7",
        8 => "8",
        9 => "9",
        10 => "A",
        11 => "B",
        12 => "C",
        13 => "D",
        14 => "E",
        _ => "F",
    };
    proof {
        assert(digit@ =~= seq![upper_hex_digit(value as nat)]);
    }
    digit
}

/// Appends the `width` low hexadecimal digits of `value` to `out`.
pub fn push_hex(out: &mut String, value: u64, width: u8)
    ensures
        final(out)@ == old(out)@ + hex_text(value as nat, width as nat),
    decreases width,
{
    if width > 0 {
        push_hex(out, value / 16, width - 1);
        out.append(upper_hex_str((value % 16) as u8));
        proof {
            assert(final(out)@ =~= old(out)@ + hex_text(value as nat, width as nat));
        }
    } else {
        proof {
            assert(final(out)@ =~= old(out)@ + hex_text(value as nat, width as nat));
        }
    }
}

/// The hexadecimal digits of `value` in upper case, most significant first,
/// without leading zeros.
pub open spec fn hex_digits(value: nat) -> Seq<char>
    decreases value,
{
    if value < 16 {
        seq![upper_hex_digit(value)]
    } else {
        hex_digits(value / 16).push(upper_hex_digit(value % 16))
    }
}

/// Appends the hexadecimal digits of `value` to `out`.
pub fn push_hex_digits(out: &mut String, value: u32)
    ensures
        final(out)@ == old(out)@ + hex_digits(value as nat),
    decreases value,
{
    if value >= 16 {
        push_hex_digits(out, value / 16);
    }
    out.append(upper_hex_str((value % 16) as u8));
    proof {
        assert(final(out)@ =~= old(out)@ + hex_digits(value as nat));
    }
}

/// The number from zero to 2^32 - 1 that has the bits of `code`.
pub open spec fn unsigned_bits(code: i32) -> nat {
    if code < 0 {
        (code + 0x1_0000_0000) as nat
    } else {
        code as nat
    }
}

/// The number from zero to 2^32 - 1 that has the bits of `code`.
pub fn to_unsigned_bits(code: i32) -> (bits: u32)
    ensures
        bits == unsigned_bits(code),
{
    if code < 0 {
        (code as i64 + 0x1_0000_0000) as u32
    } else {
        code as u32
    }
}

} // verus!
