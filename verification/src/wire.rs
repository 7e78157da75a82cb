//! Frames and errors as lines of output: JSON objects without white space,
//! each on one line.

use crate::text::{decimal, decimal_digits, digit_char, push_char, push_decimal, push_unsigned};
use crate::types::{
    color_data_of, grid_view, hex_code, hex_text, rgb, row_view, ColorData, ColorDataView,
    ErrorResponse, PixelData, PixelDataView,
};
use vstd::prelude::*;
use vstd::string::StringExecFns;

verus! {

/// The lowercase hexadecimal digit for `nibble` (0 to 15).
pub open spec fn low_hex_char(nibble: int) -> char {
    if nibble < 10 {
        ((48 + nibble) as u8) as char
    } else {
        ((87 + nibble) as u8) as char
    }
}

/// How one character stands inside a JSON string: a quote and a backslash
/// behind a backslash, the control characters in their short form where JSON
/// has one and as `\u00XX` where it has none, and every other character as it
/// is.
pub open spec fn escaped_char(c: char) -> Seq<char> {
    if c == '"' {
        seq!['\\', '"']
    } else if c == '\\' {
        seq!['\\', '\\']
    } else if c == '\u{08}' {
        seq!['\\', 'b']
    } else if c == '\t' {
        seq!['\\', 't']
    } else if c == '\n' {
        seq!['\\', 'n']
    } else if c == '\u{0c}' {
        seq!['\\', 'f']
    } else if c == '\r' {
        seq!['\\', 'r']
    } else if (c as u32) < 0x20 {
        seq!['\\', 'u', '0', '0', low_hex_char(c as int / 16), low_hex_char(c as int % 16)]
    } else {
        seq![c]
    }
}

/// The characters of `text` as they stand inside a JSON string.
pub open spec fn escaped(text: Seq<char>) -> Seq<char>
    decreases text.len(),
{
    if text.len() == 0 {
        seq![]
    } else {
        escaped(text.drop_last()) + escaped_char(text.last())
    }
}

/// `text` as a JSON string.
pub open spec fn quoted(text: Seq<char>) -> Seq<char> {
    seq!['"'] + escaped(text) + seq!['"']
}

/// A colour as a JSON object.
pub open spec fn color_json(color: ColorDataView) -> Seq<char> {
    "{\"r\":"@ + decimal(color.r as int) + ",\"g\":"@ + decimal(color.g as int) + ",\"b\":"@
        + decimal(color.b as int) + ",\"hex\":"@ + quoted(color.hex) + "}"@
}

/// The colours `row`, each as a JSON object, with a comma between two.
pub open spec fn colors_json(row: Seq<ColorDataView>) -> Seq<char>
    decreases row.len(),
{
    if row.len() == 0 {
        seq![]
    } else if row.len() == 1 {
        color_json(row[0])
    } else {
        colors_json(row.drop_last()) + seq![','] + color_json(row.last())
    }
}

/// A row of the grid as a JSON array.
pub open spec fn row_json(row: Seq<ColorDataView>) -> Seq<char> {
    seq!['['] + colors_json(row) + seq![']']
}

/// The rows `grid`, each as a JSON array, with a comma between two.
pub open spec fn rows_json(grid: Seq<Seq<ColorDataView>>) -> Seq<char>
    decreases grid.len(),
{
    if grid.len() == 0 {
        seq![]
    } else if grid.len() == 1 {
        row_json(grid[0])
    } else {
        rows_json(grid.drop_last()) + seq![','] + row_json(grid.last())
    }
}

/// A grid as a JSON array of arrays.
pub open spec fn grid_json(grid: Seq<Seq<ColorDataView>>) -> Seq<char> {
    seq!['['] + rows_json(grid) + seq![']']
}

/// A frame as one JSON object: the cursor, the centre colour, the grid and
/// the timestamp, in this order and without white space.
pub open spec fn frame_json(frame: PixelDataView) -> Seq<char> {
    "{\"cursor\":{\"x\":"@ + decimal(frame.cursor.x as int) + ",\"y\":"@ + decimal(
        frame.cursor.y as int,
    ) + "},\"center\":"@ + color_json(frame.center) + ",\"grid\":"@ + grid_json(frame.grid)
        + ",\"timestamp\":"@ + decimal(frame.timestamp as int) + "}"@
}

/// An error as one JSON object.
pub open spec fn error_json(message: Seq<char>) -> Seq<char> {
    "{\"error\":"@ + quoted(message) + "}"@
}

/// Whether every character of `text` stands in a JSON string as it is.
pub open spec fn is_plain(text: Seq<char>) -> bool {
    forall|i: int| 0 <= i < text.len() ==> escaped_char(#[trigger] text[i]) == seq![text[i]]
}

/// A text of plain characters is written between its quotes as it is.
pub proof fn lemma_plain_text_is_written_as_it_is(text: Seq<char>)
    requires
        is_plain(text),
    ensures
        escaped(text) == text,
        quoted(text) == seq!['"'] + text + seq!['"'],
    decreases text.len(),
{
    if text.len() > 0 {
        let front = text.drop_last();
        assert(is_plain(front)) by {
            assert forall|i: int| 0 <= i < front.len() implies escaped_char(#[trigger] front[i])
                == seq![front[i]] by {
                assert(front[i] == text[i]);
            }
        }
        lemma_plain_text_is_written_as_it_is(front);
        assert(escaped_char(text.last()) == seq![text.last()]);
        assert(escaped(text) =~= text);
    } else {
        assert(escaped(text) =~= text);
    }
}

/// A canonical colour goes out with its channels and the text `#RRGGBB`,
/// written as it is: `{"r":R,"g":G,"b":B,"hex":"#RRGGBB"}`.
pub proof fn lemma_canonical_colour_on_the_wire(r: u8, g: u8, b: u8)
    ensures
        color_data_of(rgb(r, g, b)) == (ColorDataView { r, g, b, hex: hex_text(r, g, b) }),
        is_plain(hex_text(r, g, b)),
        color_json(color_data_of(rgb(r, g, b))) == "{\"r\":"@ + decimal(r as int) + ",\"g\":"@
            + decimal(g as int) + ",\"b\":"@ + decimal(b as int) + ",\"hex\":"@ + (seq!['"']
            + hex_text(r, g, b) + seq!['"']) + "}"@,
{
    let text = hex_text(r, g, b);
    assert(rgb(r, g, b).hex@ =~= hex_code(r, g, b));
    assert(rgb(r, g, b).is_canonical());
    assert forall|i: int| 0 <= i < text.len() implies escaped_char(#[trigger] text[i]) == seq![
        text[i],
    ] by {
        let code = hex_code(r, g, b)[i];
        assert(text[i] == code as char);
        assert(code == 35 || 48 <= code <= 57 || 65 <= code <= 70);
    }
    lemma_plain_text_is_written_as_it_is(text);
}

/// Whether `text` holds no line feed.
pub open spec fn is_one_line(text: Seq<char>) -> bool {
    forall|i: int| 0 <= i < text.len() ==> #[trigger] text[i] != '\n'
}

proof fn lemma_joined_is_one_line(first: Seq<char>, second: Seq<char>)
    requires
        is_one_line(first),
        is_one_line(second),
    ensures
        is_one_line(first + second),
{
    assert forall|i: int| 0 <= i < (first + second).len() implies #[trigger] (first + second)[i]
        != '\n' by {
        if i < first.len() {
            assert((first + second)[i] == first[i]);
        } else {
            assert((first + second)[i] == second[i - first.len()]);
        }
    }
}

proof fn lemma_digits_are_one_line(n: nat)
    ensures
        is_one_line(decimal_digits(n)),
    decreases n,
{
    if n >= 10 {
        lemma_digits_are_one_line(n / 10);
        lemma_joined_is_one_line(decimal_digits(n / 10), seq![digit_char((n % 10) as int)]);
        assert(decimal_digits(n / 10).push(digit_char((n % 10) as int)) =~= decimal_digits(n / 10)
            + seq![digit_char((n % 10) as int)]);
    }
}

proof fn lemma_decimal_is_one_line(n: int)
    ensures
        is_one_line(decimal(n)),
{
    if n < 0 {
        lemma_digits_are_one_line((-n) as nat);
        lemma_joined_is_one_line(seq!['-'], decimal_digits((-n) as nat));
    } else {
        lemma_digits_are_one_line(n as nat);
    }
}

proof fn lemma_escaped_char_is_one_line(c: char)
    ensures
        is_one_line(escaped_char(c)),
{
    let out = escaped_char(c);
    assert forall|i: int| 0 <= i < out.len() implies #[trigger] out[i] != '\n' by {
        if c == '"' || c == '\\' || c == '\u{08}' || c == '\t' || c == '\n' || c == '\u{0c}' || c
            == '\r' {
            assert(out.len() == 2);
        } else if (c as u32) < 0x20 {
            assert(out.len() == 6);
            assert(low_hex_char(c as int / 16) != '\n');
            assert(low_hex_char(c as int % 16) != '\n');
        } else {
            assert(out.len() == 1);
        }
    }
}

proof fn lemma_quoted_is_one_line(text: Seq<char>)
    ensures
        is_one_line(escaped(text)),
        is_one_line(quoted(text)),
    decreases text.len(),
{
    if text.len() > 0 {
        lemma_quoted_is_one_line(text.drop_last());
        lemma_escaped_char_is_one_line(text.last());
        lemma_joined_is_one_line(escaped(text.drop_last()), escaped_char(text.last()));
    }
    lemma_joined_is_one_line(seq!['"'], escaped(text));
    lemma_joined_is_one_line(seq!['"'] + escaped(text), seq!['"']);
}

proof fn lemma_color_is_one_line(color: ColorDataView)
    ensures
        is_one_line(color_json(color)),
{
    reveal_strlit("{\"r\":");
    reveal_strlit(",\"g\":");
    reveal_strlit(",\"b\":");
    reveal_strlit(",\"hex\":");
    reveal_strlit("}");
    lemma_decimal_is_one_line(color.r as int);
    lemma_decimal_is_one_line(color.g as int);
    lemma_decimal_is_one_line(color.b as int);
    lemma_quoted_is_one_line(color.hex);
    let a = "{\"r\":"@ + decimal(color.r as int);
    lemma_joined_is_one_line("{\"r\":"@, decimal(color.r as int));
    let b = a + ",\"g\":"@;
    lemma_joined_is_one_line(a, ",\"g\":"@);
    let c = b + decimal(color.g as int);
    lemma_joined_is_one_line(b, decimal(color.g as int));
    let d = c + ",\"b\":"@;
    lemma_joined_is_one_line(c, ",\"b\":"@);
    let e = d + decimal(color.b as int);
    lemma_joined_is_one_line(d, decimal(color.b as int));
    let f = e + ",\"hex\":"@;
    lemma_joined_is_one_line(e, ",\"hex\":"@);
    let g = f + quoted(color.hex);
    lemma_joined_is_one_line(f, quoted(color.hex));
    lemma_joined_is_one_line(g, "}"@);
}

proof fn lemma_colors_are_one_line(row: Seq<ColorDataView>)
    ensures
        is_one_line(colors_json(row)),
        is_one_line(row_json(row)),
    decreases row.len(),
{
    if row.len() == 1 {
        lemma_color_is_one_line(row[0]);
    } else if row.len() > 1 {
        lemma_colors_are_one_line(row.drop_last());
        lemma_color_is_one_line(row.last());
        lemma_joined_is_one_line(colors_json(row.drop_last()), seq![',']);
        lemma_joined_is_one_line(colors_json(row.drop_last()) + seq![','], color_json(row.last()));
    }
    lemma_joined_is_one_line(seq!['['], colors_json(row));
    lemma_joined_is_one_line(seq!['['] + colors_json(row), seq![']']);
}

proof fn lemma_rows_are_one_line(grid: Seq<Seq<ColorDataView>>)
    ensures
        is_one_line(rows_json(grid)),
        is_one_line(grid_json(grid)),
    decreases grid.len(),
{
    if grid.len() == 1 {
        lemma_colors_are_one_line(grid[0]);
    } else if grid.len() > 1 {
        lemma_rows_are_one_line(grid.drop_last());
        lemma_colors_are_one_line(grid.last());
        lemma_joined_is_one_line(rows_json(grid.drop_last()), seq![',']);
        lemma_joined_is_one_line(rows_json(grid.drop_last()) + seq![','], row_json(grid.last()));
    }
    lemma_joined_is_one_line(seq!['['], rows_json(grid));
    lemma_joined_is_one_line(seq!['['] + rows_json(grid), seq![']']);
}

/// A frame is written as one line: whatever it holds, its JSON has no line
/// feed in it.
pub proof fn lemma_frame_is_one_line(frame: PixelDataView)
    ensures
        is_one_line(frame_json(frame)),
{
    reveal_strlit("{\"cursor\":{\"x\":");
    reveal_strlit(",\"y\":");
    reveal_strlit("},\"center\":");
    reveal_strlit(",\"grid\":");
    reveal_strlit(",\"timestamp\":");
    reveal_strlit("}");
    lemma_decimal_is_one_line(frame.cursor.x as int);
    lemma_decimal_is_one_line(frame.cursor.y as int);
    lemma_decimal_is_one_line(frame.timestamp as int);
    lemma_color_is_one_line(frame.center);
    lemma_rows_are_one_line(frame.grid);
    let a = "{\"cursor\":{\"x\":"@ + decimal(frame.cursor.x as int);
    lemma_joined_is_one_line("{\"cursor\":{\"x\":"@, decimal(frame.cursor.x as int));
    let b = a + ",\"y\":"@;
    lemma_joined_is_one_line(a, ",\"y\":"@);
    let c = b + decimal(frame.cursor.y as int);
    lemma_joined_is_one_line(b, decimal(frame.cursor.y as int));
    let d = c + "},\"center\":"@;
    lemma_joined_is_one_line(c, "},\"center\":"@);
    let e = d + color_json(frame.center);
    lemma_joined_is_one_line(d, color_json(frame.center));
    let f = e + ",\"grid\":"@;
    lemma_joined_is_one_line(e, ",\"grid\":"@);
    let g = f + grid_json(frame.grid);
    lemma_joined_is_one_line(f, grid_json(frame.grid));
    let h = g + ",\"timestamp\":"@;
    lemma_joined_is_one_line(g, ",\"timestamp\":"@);
    let i = h + decimal(frame.timestamp as int);
    lemma_joined_is_one_line(h, decimal(frame.timestamp as int));
    lemma_joined_is_one_line(i, "}"@);
}

/// An error is written as one line: whatever its message, its JSON has no
/// line feed in it.
pub proof fn lemma_error_is_one_line(message: Seq<char>)
    ensures
        is_one_line(error_json(message)),
{
    reveal_strlit("{\"error\":");
    reveal_strlit("}");
    lemma_quoted_is_one_line(message);
    lemma_joined_is_one_line("{\"error\":"@, quoted(message));
    lemma_joined_is_one_line("{\"error\":"@ + quoted(message), "}"@);
}

fn low_hex_of(nibble: u8) -> (c: char)
    requires
        nibble < 16,
    ensures
        c == low_hex_char(nibble as int),
{
    if nibble < 10 {
        (48 + nibble) as char
    } else {
        (87 + nibble) as char
    }
}

fn push_escaped_char(out: &mut String, c: char)
    ensures
        final(out)@ == old(out)@ + escaped_char(c),
{
    if c == '"' {
        push_char(out, '\\');
        push_char(out, '"');
    } else if c == '\\' {
        push_char(out, '\\');
        push_char(out, '\\');
    } else if c == '\u{08}' {
        push_char(out, '\\');
        push_char(out, 'b');
    } else if c == '\t' {
        push_char(out, '\\');
        push_char(out, 't');
    } else if c == '\n' {
        push_char(out, '\\');
        push_char(out, 'n');
    } else if c == '\u{0c}' {
        push_char(out, '\\');
        push_char(out, 'f');
    } else if c == '\r' {
        push_char(out, '\\');
        push_char(out, 'r');
    } else if (c as u32) < 0x20 {
        let code: u8 = c as u8;
        push_char(out, '\\');
        push_char(out, 'u');
        push_char(out, '0');
        push_char(out, '0');
        push_char(out, low_hex_of(code / 16));
        push_char(out, low_hex_of(code % 16));
    } else {
        push_char(out, c);
    }
    assert(out@ =~= old(out)@ + escaped_char(c));
}

/// Appends `text` as a JSON string.
pub fn push_quoted(out: &mut String, text: &str)
    ensures
        final(out)@ == old(out)@ + quoted(text@),
{
    push_char(out, '"');
    let length = text.unicode_len();
    let mut index: usize = 0;
    assert(text@.subrange(0, 0) =~= Seq::<char>::empty());
    while index < length
        invariant
            length == text@.len(),
            index <= length,
            out@ == old(out)@ + seq!['"'] + escaped(text@.subrange(0, index as int)),
        decreases length - index,
    {
        let c = text.get_char(index);
        push_escaped_char(out, c);
        proof {
            let done = text@.subrange(0, index + 1);
            assert(done.drop_last() =~= text@.subrange(0, index as int));
            assert(done.last() == c);
        }
        index += 1;
    }
    push_char(out, '"');
    assert(text@.subrange(0, length as int) =~= text@);
    assert(out@ =~= old(out)@ + quoted(text@));
}

fn push_color(out: &mut String, color: &ColorData)
    ensures
        final(out)@ == old(out)@ + color_json(color@),
{
    out.append("{\"r\":");
    push_unsigned(out, color.r as u128);
    out.append(",\"g\":");
    push_unsigned(out, color.g as u128);
    out.append(",\"b\":");
    push_unsigned(out, color.b as u128);
    out.append(",\"hex\":");
    push_quoted(out, color.hex.as_str());
    out.append("}");
    assert(out@ =~= old(out)@ + color_json(color@));
}

fn push_row(out: &mut String, row: &Vec<ColorData>)
    ensures
        final(out)@ == old(out)@ + row_json(row_view(row@)),
{
    let ghost cells = row_view(row@);
    push_char(out, '[');
    let mut index: usize = 0;
    assert(cells.subrange(0, 0) =~= Seq::<ColorDataView>::empty());
    while index < row.len()
        invariant
            index <= row@.len(),
            cells == row_view(row@),
            out@ == old(out)@ + seq!['['] + colors_json(cells.subrange(0, index as int)),
        decreases row@.len() - index,
    {
        let ghost before = out@;
        if index > 0 {
            push_char(out, ',');
        }
        push_color(out, &row[index]);
        proof {
            let done = cells.subrange(0, index + 1);
            assert(done.drop_last() =~= cells.subrange(0, index as int));
            assert(done.last() == row@[index as int]@);
            if index == 0 {
                assert(done[0] == row@[0]@);
                assert(colors_json(cells.subrange(0, 0)) =~= Seq::<char>::empty());
            }
            assert(out@ =~= old(out)@ + seq!['['] + colors_json(done));
        }
        index += 1;
    }
    push_char(out, ']');
    assert(cells.subrange(0, row@.len() as int) =~= cells);
    assert(out@ =~= old(out)@ + row_json(cells));
}

fn push_grid(out: &mut String, grid: &Vec<Vec<ColorData>>)
    ensures
        final(out)@ == old(out)@ + grid_json(grid_view(grid@)),
{
    let ghost rows = grid_view(grid@);
    push_char(out, '[');
    let mut index: usize = 0;
    assert(rows.subrange(0, 0) =~= Seq::<Seq<ColorDataView>>::empty());
    while index < grid.len()
        invariant
            index <= grid@.len(),
            rows == grid_view(grid@),
            out@ == old(out)@ + seq!['['] + rows_json(rows.subrange(0, index as int)),
        decreases grid@.len() - index,
    {
        if index > 0 {
            push_char(out, ',');
        }
        push_row(out, &grid[index]);
        proof {
            let done = rows.subrange(0, index + 1);
            assert(done.drop_last() =~= rows.subrange(0, index as int));
            assert(done.last() == row_view(grid@[index as int]@));
            if index == 0 {
                assert(done[0] == row_view(grid@[0]@));
                assert(rows_json(rows.subrange(0, 0)) =~= Seq::<char>::empty());
            }
            assert(out@ =~= old(out)@ + seq!['['] + rows_json(done));
        }
        index += 1;
    }
    push_char(out, ']');
    assert(rows.subrange(0, grid@.len() as int) =~= rows);
    assert(out@ =~= old(out)@ + grid_json(rows));
}

impl ColorData {
    /// The colour as a JSON object.
    pub fn to_json(&self) -> (json: String)
        ensures
            json@ == color_json(self@),
    {
        let mut out = String::new();
        push_color(&mut out, self);
        assert(out@ =~= color_json(self@));
        out
    }
}

impl PixelData {
    /// The frame as one line of output, without the line's end.
    pub fn to_json(&self) -> (json: String)
        ensures
            json@ == frame_json(self@),
    {
        let mut out = "{\"cursor\":{\"x\":".to_owned();
        push_decimal(&mut out, self.cursor.x as i64);
        out.append(",\"y\":");
        push_decimal(&mut out, self.cursor.y as i64);
        out.append("},\"center\":");
        push_color(&mut out, &self.center);
        out.append(",\"grid\":");
        push_grid(&mut out, &self.grid);
        out.append(",\"timestamp\":");
        push_unsigned(&mut out, self.timestamp as u128);
        out.append("}");
        assert(out@ =~= frame_json(self@));
        out
    }
}

impl ErrorResponse {
    /// The error as one line of output, without the line's end.
    pub fn to_json(&self) -> (json: String)
        ensures
            json@ == error_json(self.error@),
    {
        let mut out = "{\"error\":".to_owned();
        push_quoted(&mut out, self.error.as_str());
        out.append("}");
        assert(out@ =~= error_json(self.error@));
        out
    }
}

} // verus!
