//! Screenshots in the binary portable pixmap format, as the screenshot tools
//! write them: the format's magic, comment lines, the two dimensions, the
//! largest channel value, each on a line of its own, and then the pixels.

use vstd::prelude::*;
use vstd::slice::slice_subrange;

verus! {

/// Why some bytes are no screenshot.
#[derive(Debug, Clone, Copy, PartialEq, Eq, Structural)]
pub enum PpmError {
    /// No line ends after the magic.
    NoMagicLine,
    /// The first line is not the magic of the binary pixmap format.
    InvalidMagic,
    /// A line of the header does not end.
    UnexpectedEnd,
    /// The line of the dimensions does not hold two words.
    NoDimensions,
    /// The first word of the dimensions is not a number that fits 32 bits.
    InvalidWidth,
    /// The second word of the dimensions is not a number that fits 32 bits.
    InvalidHeight,
    /// The line of the largest channel value does not end.
    NoMaxValueLine,
    /// The largest channel value is not a number that fits 32 bits.
    InvalidMaxValue,
    /// The largest channel value is not 255: it is the value held.
    UnsupportedMaxValue(u32),
}

/// What the header of a screenshot says: the size of the image, and where in
/// the bytes its pixels start.
#[derive(Debug, Clone, Copy, PartialEq, Eq, Structural)]
pub struct PpmHeader {
    pub width: u32,
    pub height: u32,
    pub pixels_at: usize,
}

/// The two bytes that every binary pixmap starts with.
pub open spec fn magic() -> Seq<u8> {
    seq![80u8, 54u8]
}

/// Whether the three bytes are the UTF-8 form of a white space character that
/// takes three bytes.
pub open spec fn is_wide_space(first: u8, second: u8, third: u8) -> bool {
    ||| first == 0xE1 && second == 0x9A && third == 0x80
    ||| first == 0xE2 && second == 0x80 && (0x80 <= third <= 0x8A || third == 0xA8 || third
        == 0xA9 || third == 0xAF)
    ||| first == 0xE2 && second == 0x81 && third == 0x9F
    ||| first == 0xE3 && second == 0x80 && third == 0x80
}

/// The number of bytes of the white space character that starts at `at`, and
/// zero where none starts there. White space is what Unicode calls
/// White_Space, in UTF-8.
pub open spec fn white_space_len(bytes: Seq<u8>, at: int) -> int {
    if at < 0 || at >= bytes.len() {
        0
    } else if 9 <= bytes[at] <= 13 || bytes[at] == 32 {
        1
    } else if at + 1 < bytes.len() && bytes[at] == 0xC2 && (bytes[at + 1] == 0x85 || bytes[at + 1]
        == 0xA0) {
        2
    } else if at + 2 < bytes.len() && is_wide_space(bytes[at], bytes[at + 1], bytes[at + 2]) {
        3
    } else {
        0
    }
}

/// Where the white space that starts at `at` ends.
pub open spec fn after_white_space(bytes: Seq<u8>, at: int) -> int
    decreases bytes.len() - at,
{
    if 0 <= at < bytes.len() && white_space_len(bytes, at) > 0 {
        after_white_space(bytes, at + white_space_len(bytes, at))
    } else {
        at
    }
}

/// Where the word that starts at `at` ends: at the next white space, or at the
/// end of the bytes.
pub open spec fn word_end(bytes: Seq<u8>, at: int) -> int
    decreases bytes.len() - at,
{
    if 0 <= at < bytes.len() && white_space_len(bytes, at) == 0 {
        word_end(bytes, at + 1)
    } else {
        at
    }
}

/// The value of a word of decimal digits.
pub open spec fn digits_value(digits: Seq<u8>) -> nat
    decreases digits.len(),
{
    if digits.len() == 0 {
        0
    } else {
        digits_value(digits.drop_last()) * 10 + (digits.last() - 48) as nat
    }
}

/// Whether every byte of `digits` is a decimal digit.
pub open spec fn is_digits(digits: Seq<u8>) -> bool {
    forall|i: int| 0 <= i < digits.len() ==> 48 <= #[trigger] digits[i] <= 57
}

/// The digits of `word`: the word itself, or what follows its plus sign.
pub open spec fn digits_of(word: Seq<u8>) -> Seq<u8> {
    if word.len() > 0 && word[0] == 43 {
        word.drop_first()
    } else {
        word
    }
}

/// The number that `word` is: decimal digits, at least one, with or without
/// a plus sign before them, of a value that fits 32 bits.
pub open spec fn number_of(word: Seq<u8>) -> Option<u32> {
    let digits = digits_of(word);
    if digits.len() > 0 && is_digits(digits) && digits_value(digits) <= u32::MAX {
        Some(digits_value(digits) as u32)
    } else {
        None
    }
}

/// Where the first line feed at or after `from` stands, and the length of the
/// bytes where there is none.
pub open spec fn line_end(bytes: Seq<u8>, from: int) -> int
    decreases bytes.len() - from,
{
    if from < 0 || from >= bytes.len() {
        bytes.len() as int
    } else if bytes[from] == 10 {
        from
    } else {
        line_end(bytes, from + 1)
    }
}

/// The dimensions that a line holds: its two words, where it has exactly two
/// and both are numbers.
pub open spec fn dimensions_of(line: Seq<u8>) -> Result<(u32, u32), PpmError> {
    let first = after_white_space(line, 0);
    let first_end = word_end(line, first);
    let second = after_white_space(line, first_end);
    let second_end = word_end(line, second);
    let rest = after_white_space(line, second_end);
    if first >= line.len() || second >= line.len() || rest < line.len() {
        Err(PpmError::NoDimensions)
    } else {
        match number_of(line.subrange(first, first_end)) {
            None => Err(PpmError::InvalidWidth),
            Some(width) => match number_of(line.subrange(second, second_end)) {
                None => Err(PpmError::InvalidHeight),
                Some(height) => Ok((width, height)),
            },
        }
    }
}

/// The largest channel value that a line holds: its one word, where it has
/// exactly one and that is a number.
pub open spec fn max_value_of(line: Seq<u8>) -> Result<u32, PpmError> {
    let first = after_white_space(line, 0);
    let first_end = word_end(line, first);
    let rest = after_white_space(line, first_end);
    if first >= line.len() || rest < line.len() {
        Err(PpmError::InvalidMaxValue)
    } else {
        match number_of(line.subrange(first, first_end)) {
            None => Err(PpmError::InvalidMaxValue),
            Some(value) => Ok(value),
        }
    }
}

/// The dimensions of the header whose lines after the magic start at `from`,
/// and where the line after them starts: comment lines, which start with `#`,
/// are passed over, and the first other line holds the dimensions. A header
/// that ends before such a line has dimensions of zero.
pub open spec fn dimensions_from(bytes: Seq<u8>, from: int) -> Result<(u32, u32, int), PpmError>
    decreases bytes.len() - from,
{
    if from < 0 || from >= bytes.len() {
        Ok((0u32, 0u32, from))
    } else {
        let end = line_end(bytes, from);
        if end >= bytes.len() {
            Err(PpmError::UnexpectedEnd)
        } else if end > from && bytes[from] == 35 {
            dimensions_from(bytes, end + 1)
        } else {
            match dimensions_of(bytes.subrange(from, end)) {
                Err(error) => Err(error),
                Ok((width, height)) => Ok((width, height, end + 1)),
            }
        }
    }
}

/// The header of the screenshot that `bytes` hold.
pub open spec fn header_of(bytes: Seq<u8>) -> Result<PpmHeader, PpmError> {
    let magic_end = line_end(bytes, 0);
    if magic_end >= bytes.len() {
        Err(PpmError::NoMagicLine)
    } else if bytes.subrange(0, magic_end) != magic() {
        Err(PpmError::InvalidMagic)
    } else {
        match dimensions_from(bytes, magic_end + 1) {
            Err(error) => Err(error),
            Ok((width, height, next)) => {
                let max_end = line_end(bytes, next);
                if max_end >= bytes.len() {
                    Err(PpmError::NoMaxValueLine)
                } else {
                    match max_value_of(bytes.subrange(next, max_end)) {
                        Err(error) => Err(error),
                        Ok(max_value) => if max_value != 255 {
                            Err(PpmError::UnsupportedMaxValue(max_value))
                        } else {
                            Ok(PpmHeader { width, height, pixels_at: (max_end + 1) as usize })
                        },
                    }
                }
            },
        }
    }
}

fn find_line_end(bytes: &[u8], from: usize) -> (end: usize)
    requires
        from <= bytes@.len(),
    ensures
        end == line_end(bytes@, from as int),
        from <= end <= bytes@.len(),
{
    let mut at: usize = from;
    while at < bytes.len() && bytes[at] != 10
        invariant
            from <= at <= bytes@.len(),
            line_end(bytes@, from as int) == line_end(bytes@, at as int),
        decreases bytes@.len() - at,
    {
        at += 1;
    }
    at
}

fn white_space_at(bytes: &[u8], at: usize) -> (len: usize)
    ensures
        len == white_space_len(bytes@, at as int),
        len <= 3,
        at + len <= bytes@.len() || len == 0,
{
    let total = bytes.len();
    if at >= total {
        return 0;
    }
    let first = bytes[at];
    if (9 <= first && first <= 13) || first == 32 {
        return 1;
    }
    if total - at >= 2 && first == 0xC2 && (bytes[at + 1] == 0x85 || bytes[at + 1] == 0xA0) {
        return 2;
    }
    if total - at >= 3 {
        let second = bytes[at + 1];
        let third = bytes[at + 2];
        let wide = (first == 0xE1 && second == 0x9A && third == 0x80) || (first == 0xE2 && second
            == 0x80 && ((0x80 <= third && third <= 0x8A) || third == 0xA8 || third == 0xA9 || third
            == 0xAF)) || (first == 0xE2 && second == 0x81 && third == 0x9F) || (first == 0xE3
            && second == 0x80 && third == 0x80);
        if wide {
            return 3;
        }
    }
    0
}

fn skip_white_space(bytes: &[u8], from: usize) -> (at: usize)
    requires
        from <= bytes@.len(),
    ensures
        at == after_white_space(bytes@, from as int),
        from <= at <= bytes@.len(),
        at < bytes@.len() ==> white_space_len(bytes@, at as int) == 0,
{
    let total = bytes.len();
    let mut at: usize = from;
    loop
        invariant
            total == bytes@.len(),
            from <= at <= bytes@.len(),
            after_white_space(bytes@, from as int) == after_white_space(bytes@, at as int),
        ensures
            from <= at <= bytes@.len(),
            at == after_white_space(bytes@, from as int),
            at < bytes@.len() ==> white_space_len(bytes@, at as int) == 0,
        decreases bytes@.len() - at,
    {
        let len = white_space_at(bytes, at);
        if len == 0 {
            break;
        }
        at += len;
    }
    at
}

fn find_word_end(bytes: &[u8], from: usize) -> (at: usize)
    requires
        from <= bytes@.len(),
    ensures
        at == word_end(bytes@, from as int),
        from <= at <= bytes@.len(),
{
    let mut at: usize = from;
    while at < bytes.len() && white_space_at(bytes, at) == 0
        invariant
            from <= at <= bytes@.len(),
            word_end(bytes@, from as int) == word_end(bytes@, at as int),
        decreases bytes@.len() - at,
    {
        at += 1;
    }
    at
}

proof fn lemma_digits_value_grows(digits: Seq<u8>)
    requires
        digits.len() > 0,
        is_digits(digits),
    ensures
        digits_value(digits) >= digits_value(digits.drop_last()) * 10,
        digits_value(digits) <= digits_value(digits.drop_last()) * 10 + 9,
{
}

/// A word of digits whose start is already above 32 bits is itself above 32
/// bits.
proof fn lemma_digits_value_prefix(digits: Seq<u8>, upto: int)
    requires
        is_digits(digits),
        0 <= upto <= digits.len(),
    ensures
        digits_value(digits.subrange(0, upto)) <= digits_value(digits),
    decreases digits.len() - upto,
{
    if upto < digits.len() {
        let longer = digits.subrange(0, upto + 1);
        assert(longer.drop_last() =~= digits.subrange(0, upto));
        assert(is_digits(longer));
        lemma_digits_value_grows(longer);
        lemma_digits_value_prefix(digits, upto + 1);
    } else {
        assert(digits.subrange(0, upto) =~= digits);
    }
}

fn parse_number(word: &[u8]) -> (number: Option<u32>)
    ensures
        number == number_of(word@),
{
    let total = word.len();
    let start: usize = if total > 0 && word[0] == 43 {
        1
    } else {
        0
    };
    let ghost digits = digits_of(word@);
    assert(digits =~= word@.subrange(start as int, total as int));
    if start >= total {
        return None;
    }
    let mut value: u64 = 0;
    let mut at: usize = start;
    assert(digits.subrange(0, 0) =~= Seq::<u8>::empty());
    while at < total
        invariant
            start <= at <= total,
            total == word@.len(),
            digits == digits_of(word@),
            digits == word@.subrange(start as int, total as int),
            is_digits(digits.subrange(0, at - start)),
            value == digits_value(digits.subrange(0, at - start)),
            value <= u32::MAX,
        decreases total - at,
    {
        let byte = word[at];
        let ghost seen = digits.subrange(0, at - start + 1);
        assert(seen.drop_last() =~= digits.subrange(0, at - start));
        assert(seen.last() == byte);
        if byte < 48 || byte > 57 {
            assert(!is_digits(digits)) by {
                assert(digits[at - start] == byte);
            }
            return None;
        }
        assert(is_digits(seen)) by {
            assert forall|i: int| 0 <= i < seen.len() implies 48 <= #[trigger] seen[i] <= 57 by {
                if i < seen.len() - 1 {
                    assert(seen[i] == digits.subrange(0, at - start)[i]);
                }
            }
        }
        let next: u64 = value * 10 + (byte - 48) as u64;
        if next > u32::MAX as u64 {
            proof {
                if is_digits(digits) {
                    lemma_digits_value_prefix(digits, at - start + 1);
                }
            }
            return None;
        }
        value = next;
        at += 1;
    }
    assert(digits.subrange(0, total - start) =~= digits);
    Some(value as u32)
}

fn parse_dimensions(line: &[u8]) -> (dimensions: Result<(u32, u32), PpmError>)
    ensures
        dimensions == dimensions_of(line@),
{
    let total = line.len();
    let first = skip_white_space(line, 0);
    let first_end = find_word_end(line, first);
    let second = skip_white_space(line, first_end);
    let second_end = find_word_end(line, second);
    let rest = skip_white_space(line, second_end);
    if first >= total || second >= total || rest < total {
        return Err(PpmError::NoDimensions);
    }
    let width = match parse_number(slice_subrange(line, first, first_end)) {
        None => {
            return Err(PpmError::InvalidWidth);
        },
        Some(width) => width,
    };
    match parse_number(slice_subrange(line, second, second_end)) {
        None => Err(PpmError::InvalidHeight),
        Some(height) => Ok((width, height)),
    }
}

fn parse_max_value(line: &[u8]) -> (max_value: Result<u32, PpmError>)
    ensures
        max_value == max_value_of(line@),
{
    let total = line.len();
    let first = skip_white_space(line, 0);
    let first_end = find_word_end(line, first);
    let rest = skip_white_space(line, first_end);
    if first >= total || rest < total {
        return Err(PpmError::InvalidMaxValue);
    }
    match parse_number(slice_subrange(line, first, first_end)) {
        None => Err(PpmError::InvalidMaxValue),
        Some(value) => Ok(value),
    }
}

/// Reads the header of a screenshot.
pub fn parse_header(bytes: &[u8]) -> (header: Result<PpmHeader, PpmError>)
    ensures
        header == header_of(bytes@),
        header matches Ok(read) ==> read.pixels_at <= bytes@.len(),
{
    let total = bytes.len();
    let magic_end = find_line_end(bytes, 0);
    if magic_end >= total {
        return Err(PpmError::NoMagicLine);
    }
    let magic = slice_subrange(bytes, 0, magic_end);
    if !(magic.len() == 2 && magic[0] == 80 && magic[1] == 54) {
        assert(magic@ != seq![80u8, 54u8]) by {
            if magic@ == seq![80u8, 54u8] {
                assert(seq![80u8, 54u8].len() == 2);
                assert(seq![80u8, 54u8][0] == 80);
                assert(seq![80u8, 54u8][1] == 54);
            }
        }
        return Err(PpmError::InvalidMagic);
    }
    assert(magic@ =~= seq![80u8, 54u8]);
    let mut at: usize = magic_end + 1;
    let mut width: u32 = 0;
    let mut height: u32 = 0;
    loop
        invariant_except_break
            dimensions_from(bytes@, magic_end + 1) == dimensions_from(bytes@, at as int),
        invariant
            at <= total,
            total == bytes@.len(),
            magic_end == line_end(bytes@, 0),
            magic_end < total,
            bytes@.subrange(0, magic_end as int) == seq![80u8, 54u8],
        ensures
            at <= total,
            dimensions_from(bytes@, magic_end + 1) == Ok::<(u32, u32, int), PpmError>(
                (width, height, at as int),
            ),
        decreases total - at,
    {
        if at >= total {
            width = 0;
            height = 0;
            break;
        }
        let end = find_line_end(bytes, at);
        if end >= total {
            return Err(PpmError::UnexpectedEnd);
        }
        if end > at && bytes[at] == 35 {
            at = end + 1;
            continue;
        }
        match parse_dimensions(slice_subrange(bytes, at, end)) {
            Err(error) => {
                return Err(error);
            },
            Ok((w, h)) => {
                width = w;
                height = h;
                at = end + 1;
                break;
            },
        }
    }
    let max_end = find_line_end(bytes, at);
    if max_end >= total {
        return Err(PpmError::NoMaxValueLine);
    }
    match parse_max_value(slice_subrange(bytes, at, max_end)) {
        Err(error) => Err(error),
        Ok(max_value) => {
            if max_value != 255 {
                Err(PpmError::UnsupportedMaxValue(max_value))
            } else {
                Ok(PpmHeader { width, height, pixels_at: max_end + 1 })
            }
        },
    }
}

} // verus!
