//! Wide-character strings as the foreign side hands them over.
//!
//! A raw wide string is either null or a buffer of UTF-16 code units. Its
//! text runs up to the first NUL unit, or to the end of the buffer where
//! there is none. Decoding is lossy: a surrogate that has no partner becomes
//! U+FFFD, every other unit or surrogate pair becomes the character it
//! encodes.

use vstd::prelude::*;
use vstd::slice::slice_subrange;

verus! {

/// The character that stands in for a code unit that cannot be decoded.
pub const REPLACEMENT: char = '\u{FFFD}';

/// Whether a code unit is the first half of a surrogate pair.
pub open spec fn is_high_surrogate(unit: u16) -> bool {
    0xD800 <= unit <= 0xDBFF
}

/// Whether a code unit is the second half of a surrogate pair.
pub open spec fn is_low_surrogate(unit: u16) -> bool {
    0xDC00 <= unit <= 0xDFFF
}

/// Whether a value is a Unicode scalar value: a code point that is no
/// surrogate.
pub open spec fn is_scalar_value(value: u32) -> bool {
    value <= 0xD7FF || 0xE000 <= value <= 0x10FFFF
}

/// The code point that a surrogate pair encodes.
pub open spec fn pair_value(high: u16, low: u16) -> u32
    recommends
        is_high_surrogate(high),
        is_low_surrogate(low),
{
    (0x10000 + (high - 0xD800) * 0x400 + (low - 0xDC00)) as u32
}

/// The characters that a sequence of UTF-16 code units decodes to.
pub open spec fn decode_utf16(units: Seq<u16>) -> Seq<char>
    decreases units.len(),
{
    if units.len() == 0 {
        Seq::empty()
    } else if is_high_surrogate(units[0]) && units.len() >= 2 && is_low_surrogate(units[1]) {
        seq![pair_value(units[0], units[1]) as char] + decode_utf16(units.skip(2))
    } else if is_high_surrogate(units[0]) || is_low_surrogate(units[0]) {
        seq![REPLACEMENT] + decode_utf16(units.skip(1))
    } else {
        seq![units[0] as char] + decode_utf16(units.skip(1))
    }
}

/// The UTF-16 code units of one character.
pub open spec fn encode_char(c: char) -> Seq<u16> {
    let value = c as u32;
    if value < 0x10000 {
        seq![value as u16]
    } else {
        seq![
            (0xD800 + (value - 0x10000) / 0x400) as u16,
            (0xDC00 + (value - 0x10000) % 0x400) as u16,
        ]
    }
}

/// The UTF-16 code units of a text.
pub open spec fn encode_utf16(text: Seq<char>) -> Seq<u16>
    decreases text.len(),
{
    if text.len() == 0 {
        Seq::empty()
    } else {
        encode_char(text[0]) + encode_utf16(text.skip(1))
    }
}

/// The code units of a buffer that belong to its text: those before the
/// first NUL, or all of them where the buffer holds no NUL.
pub open spec fn text_units(buffer: Seq<u16>) -> Seq<u16>
    decreases buffer.len(),
{
    if buffer.len() == 0 || buffer[0] == 0 {
        Seq::empty()
    } else {
        seq![buffer[0]] + text_units(buffer.skip(1))
    }
}

/// Believed of `char::from_u32`: it gives the character with the given
/// scalar value, and nothing for a surrogate or a value above U+10FFFF.
pub assume_specification[ char::from_u32 ](value: u32) -> (c: Option<char>)
    ensures
        c == (if is_scalar_value(value) {
            Some(value as char)
        } else {
            None::<char>
        }),
;

/// Believed of `String::push`: it appends the character to the end of the
/// string and changes nothing else of it.
pub assume_specification[ String::push ](text: &mut String, c: char)
    ensures
        final(text)@ == old(text)@.push(c),
;

/// The text units of a buffer are its longest prefix that holds no NUL.
pub proof fn lemma_text_units_is_prefix(buffer: Seq<u16>, end: int)
    requires
        0 <= end <= buffer.len(),
        forall|i: int| 0 <= i < end ==> buffer[i] != 0,
        end < buffer.len() ==> buffer[end] == 0,
    ensures
        text_units(buffer) == buffer.take(end),
    decreases end,
{
    if end == 0 {
        assert(buffer.take(0) =~= Seq::<u16>::empty());
    } else {
        let rest = buffer.skip(1);
        assert forall|i: int| 0 <= i < end - 1 implies rest[i] != 0 by {
            assert(rest[i] == buffer[i + 1]);
        }
        lemma_text_units_is_prefix(rest, end - 1);
        assert(seq![buffer[0]] + rest.take(end - 1) =~= buffer.take(end));
    }
}

/// One decoding step seen from the middle of a sequence: the tail from
/// `at` decodes to its first character followed by the tail after it.
proof fn lemma_decode_step(units: Seq<u16>, at: int)
    requires
        0 <= at < units.len(),
    ensures
        is_high_surrogate(units[at]) && at + 1 < units.len() && is_low_surrogate(units[at + 1])
            ==> decode_utf16(units.skip(at)) == seq![
            pair_value(units[at], units[at + 1]) as char,
        ] + decode_utf16(units.skip(at + 2)),
        !(is_high_surrogate(units[at]) && at + 1 < units.len() && is_low_surrogate(
            units[at + 1],
        )) && (is_high_surrogate(units[at]) || is_low_surrogate(units[at])) ==> decode_utf16(
            units.skip(at),
        ) == seq![REPLACEMENT] + decode_utf16(units.skip(at + 1)),
        !is_high_surrogate(units[at]) && !is_low_surrogate(units[at]) ==> decode_utf16(
            units.skip(at),
        ) == seq![units[at] as char] + decode_utf16(units.skip(at + 1)),
{
    let tail = units.skip(at);
    assert(tail[0] == units[at]);
    assert(tail.skip(1) =~= units.skip(at + 1));
    if at + 1 < units.len() {
        assert(tail[1] == units[at + 1]);
        assert(tail.skip(2) =~= units.skip(at + 2));
    }
}

/// A character's code units, followed by anything, decode to the character
/// followed by what the rest decodes to.
proof fn lemma_decode_encoded_char(c: char, rest: Seq<u16>)
    ensures
        decode_utf16(encode_char(c) + rest) == seq![c] + decode_utf16(rest),
{
    let value = c as u32;
    let units = encode_char(c) + rest;
    if value < 0x10000 {
        assert(units[0] == value as u16);
        assert(units.skip(1) =~= rest);
        assert(units[0] as char == c);
    } else {
        let high = (0xD800 + (value - 0x10000) / 0x400) as u16;
        let low = (0xDC00 + (value - 0x10000) % 0x400) as u16;
        assert(units[0] == high);
        assert(units[1] == low);
        assert(units.skip(2) =~= rest);
        assert(pair_value(high, low) == value);
        assert(pair_value(high, low) as char == c);
    }
}

/// Decoding the code units of a text gives the text back.
pub proof fn lemma_decode_encode(text: Seq<char>)
    ensures
        decode_utf16(encode_utf16(text)) == text,
    decreases text.len(),
{
    if text.len() > 0 {
        lemma_decode_encode(text.skip(1));
        lemma_decode_encoded_char(text[0], encode_utf16(text.skip(1)));
        assert(seq![text[0]] + text.skip(1) =~= text);
    }
}

/// The code units of a character other than U+0000 hold no NUL.
proof fn lemma_encode_char_keeps_nul_out(c: char)
    requires
        c != '\0',
    ensures
        forall|i: int| 0 <= i < encode_char(c).len() ==> encode_char(c)[i] != 0,
{
    assert(c as u32 != 0);
}

/// The code units of a text hold a NUL only where the text holds U+0000.
pub proof fn lemma_encode_keeps_nul_out(text: Seq<char>)
    requires
        !text.contains('\0'),
    ensures
        !encode_utf16(text).contains(0u16),
    decreases text.len(),
{
    let units = encode_utf16(text);
    if text.len() > 0 {
        let rest = text.skip(1);
        assert forall|i: int| 0 <= i < rest.len() implies rest[i] != '\0' by {
            assert(rest[i] == text[i + 1]);
            assert(text.contains(text[i + 1]));
        }
        lemma_encode_keeps_nul_out(rest);
        assert(text.contains(text[0]));
        let first = encode_char(text[0]);
        lemma_encode_char_keeps_nul_out(text[0]);
        assert forall|i: int| 0 <= i < units.len() implies units[i] != 0 by {
            if i >= first.len() {
                assert(units[i] == encode_utf16(rest)[i - first.len()]);
                assert(encode_utf16(rest).contains(units[i]));
            } else {
                assert(units[i] == first[i]);
            }
        }
    }
}

/// A buffer that holds the code units of a text, then a NUL, then anything
/// has those code units as its text units, as long as the text itself holds
/// no U+0000. So has a buffer that holds the code units and nothing more.
pub proof fn lemma_text_units_of_encoded(text: Seq<char>, rest: Seq<u16>)
    requires
        !text.contains('\0'),
    ensures
        text_units(encode_utf16(text) + seq![0u16] + rest) == encode_utf16(text),
        text_units(encode_utf16(text)) == encode_utf16(text),
{
    let units = encode_utf16(text);
    lemma_encode_keeps_nul_out(text);
    assert forall|i: int| 0 <= i < units.len() implies units[i] != 0 by {
        assert(units.contains(units[i]));
    }
    let buffer = units + seq![0u16] + rest;
    lemma_text_units_is_prefix(buffer, units.len() as int);
    assert(buffer.take(units.len() as int) =~= units);
    lemma_text_units_is_prefix(units, units.len() as int);
    assert(units.take(units.len() as int) =~= units);
}

/// Decodes UTF-16 code units into a string, putting U+FFFD in place of each
/// surrogate that has no partner.
pub fn string_from_utf16(units: &[u16]) -> (text: String)
    ensures
        text@ == decode_utf16(units@),
{
    let mut text = String::new();
    let mut at: usize = 0;
    assert(units@.skip(0) =~= units@);
    while at < units.len()
        invariant
            at <= units.len(),
            decode_utf16(units@) == text@ + decode_utf16(units@.skip(at as int)),
        decreases units.len() - at,
    {
        let unit: u16 = units[at];
        let paired: bool = 0xD800 <= unit && unit <= 0xDBFF && at + 1 < units.len() && 0xDC00
            <= units[at + 1] && units[at + 1] <= 0xDFFF;
        let c: char = if unit < 0xD800 || unit > 0xDFFF {
            char::from_u32(unit as u32).unwrap()
        } else if paired {
            let low: u16 = units[at + 1];
            let value: u32 = 0x10000 + (unit as u32 - 0xD800) * 0x400 + (low as u32 - 0xDC00);
            char::from_u32(value).unwrap()
        } else {
            REPLACEMENT
        };
        let width: usize = if paired {
            2
        } else {
            1
        };
        proof {
            lemma_decode_step(units@, at as int);
            let rest = decode_utf16(units@.skip(at + width));
            assert(text@.push(c) + rest =~= text@ + (seq![c] + rest));
        }
        text.push(c);
        at = at + width;
    }
    assert(units@.skip(at as int) =~= Seq::<u16>::empty());
    assert(text@ + Seq::<char>::empty() =~= text@);
    text
}

/// The number of code units before the terminator of a buffer.
pub fn text_len(buffer: &[u16]) -> (end: usize)
    ensures
        end <= buffer.len(),
        buffer@.take(end as int) == text_units(buffer@),
{
    let mut end: usize = 0;
    while end < buffer.len() && buffer[end] != 0
        invariant
            end <= buffer.len(),
            forall|i: int| 0 <= i < end ==> buffer[i] != 0,
        decreases buffer.len() - end,
    {
        end = end + 1;
    }
    proof {
        lemma_text_units_is_prefix(buffer@, end as int);
    }
    end
}

/// A raw wide string: null, or a buffer of UTF-16 code units that the
/// receiver owns.
#[derive(Debug)]
pub struct WideString {
    units: Option<Vec<u16>>,
}

impl View for WideString {
    type V = Option<Seq<u16>>;

    closed spec fn view(&self) -> Option<Seq<u16>> {
        match self.units {
            Some(units) => Some(units@),
            None => None,
        }
    }
}

impl WideString {
    /// The text that the raw string holds: nothing for null, otherwise what
    /// the code units before the terminator decode to.
    pub open spec fn text(self) -> Seq<char> {
        match self@ {
            Some(buffer) => decode_utf16(text_units(buffer)),
            None => Seq::empty(),
        }
    }

    /// A raw string whose buffer holds the code units of a text, then a
    /// NUL, then anything, has that text, as long as the text itself holds
    /// no U+0000.
    pub proof fn lemma_text_of_encoded(self, text: Seq<char>, rest: Seq<u16>)
        requires
            !text.contains('\0'),
            self@ == Some(encode_utf16(text) + seq![0u16] + rest),
        ensures
            self.text() == text,
    {
        lemma_text_units_of_encoded(text, rest);
        lemma_decode_encode(text);
    }

    /// The null string.
    pub fn null() -> (raw: WideString)
        ensures
            raw@ is None,
    {
        WideString { units: None }
    }

    /// The raw string that owns the given buffer.
    pub fn from_units(units: Vec<u16>) -> (raw: WideString)
        ensures
            raw@ == Some(units@),
    {
        WideString { units: Some(units) }
    }

    /// Whether the raw string is null.
    pub fn is_null(&self) -> (null: bool)
        ensures
            null == (self@ is None),
    {
        self.units.is_none()
    }

    /// Takes the raw string and decodes its text. The buffer is given up
    /// here and is gone when the call returns.
    pub fn into_string(self) -> (text: String)
        ensures
            text@ == self.text(),
    {
        match self.units {
            Some(units) => {
                let buffer = units.as_slice();
                let end: usize = text_len(buffer);
                assert(buffer@.subrange(0, end as int) =~= buffer@.take(end as int));
                string_from_utf16(slice_subrange(buffer, 0, end))
            },
            None => String::new(),
        }
    }
}

} // verus!
