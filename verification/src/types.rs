//! The data model: colours, points, frames and commands, and the capability
//! that every capture backend offers.

use vstd::prelude::*;
use vstd::utf8::*;

verus! {

/// The ASCII code of the uppercase hexadecimal digit for `nibble` (0 to 15).
pub open spec fn hex_digit(nibble: int) -> u8 {
    if nibble < 10 {
        (48 + nibble) as u8
    } else {
        (55 + nibble) as u8
    }
}

/// The seven bytes `#RRGGBB` of a colour's channels, in uppercase hexadecimal.
pub open spec fn hex_code(r: u8, g: u8, b: u8) -> Seq<u8> {
    seq![
        35u8,
        hex_digit(r as int / 16),
        hex_digit(r as int % 16),
        hex_digit(g as int / 16),
        hex_digit(g as int % 16),
        hex_digit(b as int / 16),
        hex_digit(b as int % 16),
    ]
}

/// The text `#RRGGBB` of a colour's channels.
pub open spec fn hex_text(r: u8, g: u8, b: u8) -> Seq<char> {
    Seq::new(7, |i: int| hex_code(r, g, b)[i] as char)
}

/// The value of an uppercase hexadecimal digit, and -1 for any other character.
pub open spec fn hex_value(digit: char) -> int {
    if '0' <= digit <= '9' {
        digit as int - 48
    } else if 'A' <= digit <= 'F' {
        digit as int - 55
    } else {
        -1
    }
}

/// The text that lossy UTF-8 decoding makes of `bytes`: each ill-formed part
/// stands as U+FFFD.
pub uninterp spec fn lossy_text(bytes: Seq<u8>) -> Seq<char>;

/// `String::from_utf8_lossy`: well-formed UTF-8 is decoded as it stands, and
/// any other input gives the text named `lossy_text`.
#[verifier::external_body]
fn text_from_utf8_lossy(bytes: &[u8]) -> (s: String)
    ensures
        s@ == lossy_text(bytes@),
        valid_utf8(bytes@) ==> s@ == decode_utf8(bytes@),
{
    String::from_utf8_lossy(bytes).into_owned()
}

/// The bytes `#RRGGBB` are well-formed UTF-8 and decode to the text `#RRGGBB`.
pub proof fn lemma_hex_code_decodes(r: u8, g: u8, b: u8)
    ensures
        valid_utf8(hex_code(r, g, b)),
        decode_utf8(hex_code(r, g, b)) == hex_text(r, g, b),
{
    let text = hex_text(r, g, b);
    assert(is_ascii_chars(text));
    is_ascii_chars_encode_utf8(text);
    assert(encode_utf8(text) =~= hex_code(r, g, b));
    encode_utf8_valid_utf8(text);
    encode_utf8_decode_utf8(text);
}

/// The hex text of a colour is `#` and six uppercase hexadecimal digits, two
/// for each channel, the high one first: the channels can be read back from it.
pub proof fn lemma_hex_text_reads_back(r: u8, g: u8, b: u8)
    ensures
        hex_text(r, g, b).len() == 7,
        hex_text(r, g, b)[0] == '#',
        forall|i: int| 1 <= i < 7 ==> 0 <= hex_value(#[trigger] hex_text(r, g, b)[i]) < 16,
        16 * hex_value(hex_text(r, g, b)[1]) + hex_value(hex_text(r, g, b)[2]) == r,
        16 * hex_value(hex_text(r, g, b)[3]) + hex_value(hex_text(r, g, b)[4]) == g,
        16 * hex_value(hex_text(r, g, b)[5]) + hex_value(hex_text(r, g, b)[6]) == b,
{
    let text = hex_text(r, g, b);
    assert(text[1] == hex_digit(r as int / 16) as char);
    assert(text[2] == hex_digit(r as int % 16) as char);
    assert(text[3] == hex_digit(g as int / 16) as char);
    assert(text[4] == hex_digit(g as int % 16) as char);
    assert(text[5] == hex_digit(b as int / 16) as char);
    assert(text[6] == hex_digit(b as int % 16) as char);
}

/// One pixel: three 8-bit channels and their `#RRGGBB` form.
#[derive(Debug, Clone, Copy)]
pub struct Color {
    pub r: u8,
    pub g: u8,
    pub b: u8,
    pub hex: [u8; 7],
}

/// The colour with channels `r`, `g`, `b` and the matching `hex`.
pub open spec fn rgb(r: u8, g: u8, b: u8) -> Color {
    Color {
        r,
        g,
        b,
        hex: [
            35u8,
            hex_digit(r as int / 16),
            hex_digit(r as int % 16),
            hex_digit(g as int / 16),
            hex_digit(g as int % 16),
            hex_digit(b as int / 16),
            hex_digit(b as int % 16),
        ],
    }
}

/// The neutral gray that stands in for every pixel that cannot be had.
pub open spec fn gray() -> Color {
    rgb(128, 128, 128)
}

fn digit_of(nibble: u8) -> (d: u8)
    requires
        nibble < 16,
    ensures
        d == hex_digit(nibble as int),
{
    if nibble < 10 {
        48 + nibble
    } else {
        55 + nibble
    }
}

impl Color {
    /// Whether `hex` is the uppercase encoding of the three channels.
    pub open spec fn is_canonical(&self) -> bool {
        self.hex@ == hex_code(self.r, self.g, self.b)
    }

    /// The colour with the given channels; its `hex` is derived from them.
    pub fn new(r: u8, g: u8, b: u8) -> (c: Color)
        ensures
            c == rgb(r, g, b),
            c.hex@ == hex_code(r, g, b),
    {
        let hex: [u8; 7] = [
            35,
            digit_of(r / 16),
            digit_of(r % 16),
            digit_of(g / 16),
            digit_of(g % 16),
            digit_of(b / 16),
            digit_of(b % 16),
        ];
        assert(hex@ =~= hex_code(r, g, b));
        assert(rgb(r, g, b).hex@ =~= hex_code(r, g, b));
        Color { r, g, b, hex }
    }

    /// The `hex` bytes as text. For a canonical colour this is `#RRGGBB`.
    pub fn hex_string(&self) -> (s: String)
        ensures
            s@ == lossy_text(self.hex@),
            self.is_canonical() ==> s@ == hex_text(self.r, self.g, self.b),
    {
        proof {
            lemma_hex_code_decodes(self.r, self.g, self.b);
        }
        text_from_utf8_lossy(self.hex.as_slice())
    }
}

/// The neutral gray, (128, 128, 128).
pub fn neutral_gray() -> (c: Color)
    ensures
        c == gray(),
{
    Color::new(128, 128, 128)
}

/// A point on the screen. Either coordinate may be negative.
#[derive(Debug, Clone)]
pub struct Point {
    pub x: i32,
    pub y: i32,
}

/// A colour as it goes out on the wire.
#[derive(Debug)]
pub struct ColorData {
    pub r: u8,
    pub g: u8,
    pub b: u8,
    pub hex: String,
}

/// What a `ColorData` holds, with its text as a sequence of characters.
pub struct ColorDataView {
    pub r: u8,
    pub g: u8,
    pub b: u8,
    pub hex: Seq<char>,
}

impl View for ColorData {
    type V = ColorDataView;

    open spec fn view(&self) -> ColorDataView {
        ColorDataView { r: self.r, g: self.g, b: self.b, hex: self.hex@ }
    }
}

/// The wire form of `color`: its channels, and its `hex` as text. For a
/// canonical colour the text is `#RRGGBB`; for any other it is what lossy
/// decoding makes of the `hex` bytes.
pub open spec fn color_data_of(color: Color) -> ColorDataView {
    ColorDataView {
        r: color.r,
        g: color.g,
        b: color.b,
        hex: if color.is_canonical() {
            hex_text(color.r, color.g, color.b)
        } else {
            lossy_text(color.hex@)
        },
    }
}

impl From<Color> for ColorData {
    /// The wire form of a colour. For a canonical colour the text is `#RRGGBB`.
    fn from(color: Color) -> (data: ColorData)
        ensures
            data@ == color_data_of(color),
            color.is_canonical() ==> data.hex@ == hex_text(color.r, color.g, color.b),
    {
        ColorData { r: color.r, g: color.g, b: color.b, hex: color.hex_string() }
    }
}

impl vstd::std_specs::convert::FromSpecImpl<Color> for ColorData {
    open spec fn obeys_from_spec() -> bool {
        false
    }

    open spec fn from_spec(color: Color) -> ColorData {
        arbitrary()
    }
}

/// One output frame: where the cursor is, the colour under it, the grid
/// around it, and when it was taken (milliseconds since the Unix epoch).
#[derive(Debug)]
pub struct PixelData {
    pub cursor: Point,
    pub center: ColorData,
    pub grid: Vec<Vec<ColorData>>,
    pub timestamp: u64,
}

/// What a `PixelData` holds.
pub struct PixelDataView {
    pub cursor: Point,
    pub center: ColorDataView,
    pub grid: Seq<Seq<ColorDataView>>,
    pub timestamp: u64,
}

/// A row of wire colours, each by its view.
pub open spec fn row_view(row: Seq<ColorData>) -> Seq<ColorDataView> {
    Seq::new(row.len(), |col: int| row[col]@)
}

/// A grid of wire colours, each by its view.
pub open spec fn grid_view(grid: Seq<Vec<ColorData>>) -> Seq<Seq<ColorDataView>> {
    Seq::new(grid.len(), |row: int| row_view(grid[row]@))
}

impl View for PixelData {
    type V = PixelDataView;

    open spec fn view(&self) -> PixelDataView {
        PixelDataView {
            cursor: self.cursor,
            center: self.center@,
            grid: grid_view(self.grid@),
            timestamp: self.timestamp,
        }
    }
}

/// A control command.
#[derive(Debug)]
pub enum Command {
    Start { grid_size: usize, sample_rate: u64 },
    UpdateGrid { grid_size: usize },
    Stop,
}

/// An error as it goes out on the wire.
#[derive(Debug)]
pub struct ErrorResponse {
    pub error: String,
}

/// The display scale that a caller passes along with a grid request, in
/// hundredths: 100 stands for a scale of one.
#[derive(Debug, Clone, Copy)]
pub struct ScaleHint {
    pub percent: u32,
}

impl ScaleHint {
    /// A scale of one.
    pub fn unity() -> (hint: ScaleHint)
        ensures
            hint.percent == 100,
    {
        ScaleHint { percent: 100 }
    }
}

/// Whether `samples` is a square grid of side `size`.
pub open spec fn is_square(samples: Seq<Vec<Color>>, size: nat) -> bool {
    &&& samples.len() == size
    &&& forall|row: int| 0 <= row < size ==> (#[trigger] samples[row])@.len() == size
}

/// The screen coordinate of the grid cell with the given index, along one
/// axis, in a grid of side `size` around `center`.
pub open spec fn cell_coordinate(center: i32, index: int, size: usize) -> int {
    center + index - (size / 2) as int
}

/// Whether `v` is a coordinate that a pixel query can be made with.
pub open spec fn is_coordinate(v: int) -> bool {
    i32::MIN <= v <= i32::MAX
}

/// The colour of a sample, and gray where there is none.
pub open spec fn color_or_gray(sample: Option<Color>) -> Color {
    match sample {
        Some(color) => color,
        None => gray(),
    }
}

/// Whether the outcome of a pixel query is the one that `expected` describes:
/// the colour itself, or a failure where there is none.
pub open spec fn sample_matches(sample: Result<Color, String>, expected: Option<Color>) -> bool {
    match expected {
        Some(color) => sample == Ok::<Color, String>(color),
        None => sample is Err,
    }
}

/// Whether the outcome of a cursor query is the one that `expected` describes:
/// the position itself, or a failure where there is none.
pub open spec fn reading_matches(position: Result<Point, String>, expected: Option<Point>) -> bool {
    match expected {
        Some(point) => position == Ok::<Point, String>(point),
        None => position is Err,
    }
}

/// The colour that the grid around (`center_x`, `center_y`) has at (`row`,
/// `col`) when the sampler holds `pixel`: the sampler's pixel at that cell's
/// coordinate, and gray where the sampler has none or the coordinate is none.
pub open spec fn grid_cell(
    pixel: spec_fn(int, int) -> Option<Color>,
    center_x: i32,
    center_y: i32,
    size: usize,
    row: int,
    col: int,
) -> Color {
    let x = cell_coordinate(center_x, col, size);
    let y = cell_coordinate(center_y, row, size);
    if is_coordinate(x) && is_coordinate(y) {
        color_or_gray(pixel(x, y))
    } else {
        gray()
    }
}

/// Whether `samples` is the grid of side `size` around (`center_x`,
/// `center_y`) of a sampler that holds `pixel`.
pub open spec fn is_grid_of(
    samples: Seq<Vec<Color>>,
    pixel: spec_fn(int, int) -> Option<Color>,
    center_x: i32,
    center_y: i32,
    size: usize,
) -> bool {
    &&& is_square(samples, size as nat)
    &&& forall|row: int, col: int|
        0 <= row < size && 0 <= col < size ==> #[trigger] samples[row]@[col] == grid_cell(
            pixel,
            center_x,
            center_y,
            size,
            row,
            col,
        )
}

/// In a grid around (`center_x`, `center_y`), the cell at (`row`, `col`) is the
/// sampler's pixel at (`center_x + col - size / 2`, `center_y + row - size /
/// 2`), and gray where the sampler has none there.
pub proof fn lemma_grid_cell_is_pixel(
    samples: Seq<Vec<Color>>,
    pixel: spec_fn(int, int) -> Option<Color>,
    center_x: i32,
    center_y: i32,
    size: usize,
    row: int,
    col: int,
)
    requires
        is_grid_of(samples, pixel, center_x, center_y, size),
        0 <= row < size,
        0 <= col < size,
        is_coordinate(center_x + col - size / 2),
        is_coordinate(center_y + row - size / 2),
    ensures
        samples[row]@[col] == color_or_gray(
            pixel(center_x + col - size / 2, center_y + row - size / 2),
        ),
{
}

/// The middle cell of a grid is the sampler's pixel at the grid's centre.
pub proof fn lemma_grid_centre_is_centre_pixel(
    samples: Seq<Vec<Color>>,
    pixel: spec_fn(int, int) -> Option<Color>,
    center_x: i32,
    center_y: i32,
    size: usize,
)
    requires
        is_grid_of(samples, pixel, center_x, center_y, size),
        size > 0,
    ensures
        samples[size as int / 2]@[size as int / 2] == color_or_gray(
            pixel(center_x as int, center_y as int),
        ),
{
    lemma_grid_cell_is_pixel(
        samples,
        pixel,
        center_x,
        center_y,
        size,
        (size / 2) as int,
        (size / 2) as int,
    );
}

/// A grid is gray wherever the sampler has no pixel, and gray all over where
/// it has none at all: the grid is there whatever fails.
pub proof fn lemma_grid_without_pixels_is_gray(
    samples: Seq<Vec<Color>>,
    pixel: spec_fn(int, int) -> Option<Color>,
    center_x: i32,
    center_y: i32,
    size: usize,
)
    requires
        is_grid_of(samples, pixel, center_x, center_y, size),
        forall|x: int, y: int| #[trigger] pixel(x, y) is None,
    ensures
        is_square(samples, size as nat),
        forall|row: int, col: int|
            0 <= row < size && 0 <= col < size ==> #[trigger] samples[row]@[col] == gray(),
{
    assert forall|row: int, col: int| 0 <= row < size && 0 <= col < size implies #[trigger] samples[row]@[col]
        == gray() by {
        let x = cell_coordinate(center_x, col, size);
        let y = cell_coordinate(center_y, row, size);
        assert(samples[row]@[col] == grid_cell(pixel, center_x, center_y, size, row, col));
        if is_coordinate(x) && is_coordinate(y) {
            assert(pixel(x, y) is None);
        }
    }
}

/// The capability of a capture backend: the colour of one pixel, the cursor's
/// position, and a square grid of colours around a point.
///
/// A sampler that answers from a fixed image says so with `steady`, and says
/// with `pixel` what it holds. Of such a sampler the contracts below state what
/// each query returns. Of any other sampler they state only that a grid which
/// is returned is square.
pub trait PixelSampler {
    /// Whether this sampler answers from a fixed image, so that a query
    /// neither fails by chance nor changes what later queries return.
    open spec fn steady(&self) -> bool {
        false
    }

    /// What a steady sampler holds at (`x`, `y`): the colour that a query there
    /// returns, or `None` where a query there fails.
    open spec fn pixel(&self, x: int, y: int) -> Option<Color> {
        None
    }

    /// The colour of the pixel at (`x`, `y`).
    fn sample_pixel(&mut self, x: i32, y: i32) -> (sample: Result<Color, String>)
        ensures
            old(self).steady() ==> {
                &&& final(self).steady()
                &&& forall|a: int, b: int| #[trigger]
                    final(self).pixel(a, b) == old(self).pixel(a, b)
                &&& final(self).cursor() == old(self).cursor()
                &&& sample_matches(sample, old(self).pixel(x as int, y as int))
            },
    ;

    /// Where a steady sampler holds the cursor to be, or `None` where a query
    /// for it fails.
    open spec fn cursor(&self) -> Option<Point> {
        None
    }

    /// Where the cursor is.
    fn get_cursor_position(&self) -> (position: Result<Point, String>)
        ensures
            self.steady() ==> reading_matches(position, self.cursor()),
    ;

    /// The grid of side `grid_size` around (`center_x`, `center_y`), row by
    /// row from the top, each row from the left. Unless a backend has a faster
    /// way, each cell is one pixel query, and gray where that query fails. A
    /// grid that is returned is square, whatever the sampler.
    fn sample_grid(
        &mut self,
        center_x: i32,
        center_y: i32,
        grid_size: usize,
        scale_hint: ScaleHint,
    ) -> (samples: Result<Vec<Vec<Color>>, String>)
        ensures
            samples matches Ok(cells) ==> is_square(cells@, grid_size as nat),
            old(self).steady() ==> {
                &&& final(self).steady()
                &&& forall|a: int, b: int| #[trigger]
                    final(self).pixel(a, b) == old(self).pixel(a, b)
                &&& final(self).cursor() == old(self).cursor()
                &&& samples is Ok
                &&& is_grid_of(
                    samples->Ok_0@,
                    |a: int, b: int| old(self).pixel(a, b),
                    center_x,
                    center_y,
                    grid_size,
                )
            },
    {
        let ghost held = |a: int, b: int| old(self).pixel(a, b);
        let mut samples: Vec<Vec<Color>> = Vec::new();
        let mut row: usize = 0;
        while row < grid_size
            invariant
                row <= grid_size,
                samples@.len() == row,
                forall|r: int| 0 <= r < row ==> (#[trigger] samples@[r])@.len() == grid_size,
                held == |a: int, b: int| old(self).pixel(a, b),
                old(self).steady() ==> {
                    &&& self.steady()
                    &&& self.cursor() == old(self).cursor()
                    &&& forall|a: int, b: int| #[trigger] self.pixel(a, b) == held(a, b)
                    &&& forall|r: int, c: int|
                        0 <= r < row && 0 <= c < grid_size ==> #[trigger] samples@[r]@[c]
                            == grid_cell(held, center_x, center_y, grid_size, r, c)
                },
            decreases grid_size - row,
        {
            let mut row_pixels: Vec<Color> = Vec::new();
            let mut col: usize = 0;
            while col < grid_size
                invariant
                    row < grid_size,
                    col <= grid_size,
                    row_pixels@.len() == col,
                    held == |a: int, b: int| old(self).pixel(a, b),
                    old(self).steady() ==> {
                        &&& self.steady()
                        &&& self.cursor() == old(self).cursor()
                        &&& forall|a: int, b: int| #[trigger] self.pixel(a, b) == held(a, b)
                        &&& forall|c: int|
                            0 <= c < col ==> #[trigger] row_pixels@[c] == grid_cell(
                                held,
                                center_x,
                                center_y,
                                grid_size,
                                row as int,
                                c,
                            )
                    },
                decreases grid_size - col,
            {
                let color = match (
                    cell_target(center_x, col, grid_size),
                    cell_target(center_y, row, grid_size),
                ) {
                    (Some(x), Some(y)) => cell_from_sample(self.sample_pixel(x, y)),
                    _ => neutral_gray(),
                };
                row_pixels.push(color);
                col += 1;
            }
            samples.push(row_pixels);
            row += 1;
        }
        Ok(samples)
    }
}

/// Whether (`x`, `y`) lies on a screen that is `width` wide and `height` high.
pub open spec fn on_screen(x: int, y: int, width: i32, height: i32) -> bool {
    0 <= x < width && 0 <= y < height
}

/// What a grid around (`center_x`, `center_y`) shows at (`row`, `col`) on a
/// screen that is `width` wide and `height` high, where the capture has
/// `color` there: the colour itself where the cell lies on the screen, and
/// gray where it lies outside.
pub open spec fn screened_cell(
    color: Color,
    center_x: i32,
    center_y: i32,
    size: usize,
    row: int,
    col: int,
    width: i32,
    height: i32,
) -> Color {
    if on_screen(
        cell_coordinate(center_x, col, size),
        cell_coordinate(center_y, row, size),
        width,
        height,
    ) {
        color
    } else {
        gray()
    }
}

/// Whether (`x`, `y`) lies on a screen that is `width` wide and `height` high.
pub fn is_on_screen(x: i32, y: i32, width: i32, height: i32) -> (inside: bool)
    ensures
        inside == on_screen(x as int, y as int, width, height),
{
    0 <= x && x < width && 0 <= y && y < height
}

/// The cells of a captured grid around (`center_x`, `center_y`), with gray in
/// place of every cell that lies outside a screen that is `width` wide and
/// `height` high. The shape of the grid stays as it is.
pub fn gray_off_screen(
    cells: &Vec<Vec<Color>>,
    center_x: i32,
    center_y: i32,
    grid_size: usize,
    width: i32,
    height: i32,
) -> (samples: Vec<Vec<Color>>)
    ensures
        samples@.len() == cells@.len(),
        forall|row: int|
            0 <= row < cells@.len() ==> (#[trigger] samples@[row])@.len() == cells@[row]@.len(),
        forall|row: int, col: int|
            0 <= row < cells@.len() && 0 <= col < cells@[row]@.len() ==> #[trigger] samples@[row]@[col]
                == screened_cell(
                cells@[row]@[col],
                center_x,
                center_y,
                grid_size,
                row,
                col,
                width,
                height,
            ),
{
    let half: i128 = (grid_size / 2) as i128;
    let mut samples: Vec<Vec<Color>> = Vec::new();
    let mut row: usize = 0;
    while row < cells.len()
        invariant
            row <= cells@.len(),
            half == grid_size / 2,
            samples@.len() == row,
            forall|r: int| 0 <= r < row ==> (#[trigger] samples@[r])@.len() == cells@[r]@.len(),
            forall|r: int, c: int|
                0 <= r < row && 0 <= c < cells@[r]@.len() ==> #[trigger] samples@[r]@[c]
                    == screened_cell(
                    cells@[r]@[c],
                    center_x,
                    center_y,
                    grid_size,
                    r,
                    c,
                    width,
                    height,
                ),
        decreases cells@.len() - row,
    {
        let y: i128 = center_y as i128 + row as i128 - half;
        let mut row_pixels: Vec<Color> = Vec::new();
        let mut col: usize = 0;
        while col < cells[row].len()
            invariant
                row < cells@.len(),
                col <= cells@[row as int]@.len(),
                half == grid_size / 2,
                y == cell_coordinate(center_y, row as int, grid_size),
                row_pixels@.len() == col,
                forall|c: int|
                    0 <= c < col ==> #[trigger] row_pixels@[c] == screened_cell(
                        cells@[row as int]@[c],
                        center_x,
                        center_y,
                        grid_size,
                        row as int,
                        c,
                        width,
                        height,
                    ),
            decreases cells@[row as int]@.len() - col,
        {
            let x: i128 = center_x as i128 + col as i128 - half;
            let inside = 0 <= x && x < width as i128 && 0 <= y && y < height as i128;
            let color = if inside {
                cells[row][col]
            } else {
                neutral_gray()
            };
            row_pixels.push(color);
            col += 1;
        }
        samples.push(row_pixels);
        row += 1;
    }
    samples
}

/// The coordinate of a grid cell along one axis, where it is one that a pixel
/// query can be made with.
pub fn cell_target(center: i32, index: usize, grid_size: usize) -> (target: Option<i32>)
    requires
        index < grid_size,
    ensures
        target is Some <==> is_coordinate(cell_coordinate(center, index as int, grid_size)),
        target matches Some(v) ==> v == cell_coordinate(center, index as int, grid_size),
{
    let wide: i128 = center as i128 + index as i128 - (grid_size / 2) as i128;
    if wide < i32::MIN as i128 || wide > i32::MAX as i128 {
        None
    } else {
        Some(wide as i32)
    }
}

/// The colour that a grid cell takes from the outcome of its pixel query: the
/// sampled colour, and gray where the query failed.
pub fn cell_from_sample(sample: Result<Color, String>) -> (color: Color)
    ensures
        color == match sample {
            Ok(sampled) => sampled,
            Err(_) => gray(),
        },
{
    match sample {
        Ok(sampled) => sampled,
        Err(_) => neutral_gray(),
    }
}

/// The grid of side `grid_size` around (`center_x`, `center_y`), one pixel
/// query for each cell whose coordinate is one, in row-major order. A cell
/// whose query fails, or whose coordinate is none, is gray: the grid is square
/// whatever the sampler does.
pub fn sample_grid_by_pixel<S: PixelSampler + ?Sized>(
    sampler: &mut S,
    center_x: i32,
    center_y: i32,
    grid_size: usize,
) -> (samples: Vec<Vec<Color>>)
    ensures
        is_square(samples@, grid_size as nat),
        old(sampler).steady() ==> {
            &&& final(sampler).steady()
            &&& forall|a: int, b: int| #[trigger]
                final(sampler).pixel(a, b) == old(sampler).pixel(a, b)
            &&& final(sampler).cursor() == old(sampler).cursor()
            &&& is_grid_of(
                samples@,
                |a: int, b: int| old(sampler).pixel(a, b),
                center_x,
                center_y,
                grid_size,
            )
        },
{
    let ghost held = |a: int, b: int| old(sampler).pixel(a, b);
    let mut samples: Vec<Vec<Color>> = Vec::new();
    let mut row: usize = 0;
    while row < grid_size
        invariant
            row <= grid_size,
            samples@.len() == row,
            forall|r: int| 0 <= r < row ==> (#[trigger] samples@[r])@.len() == grid_size,
            held == |a: int, b: int| old(sampler).pixel(a, b),
            old(sampler).steady() ==> {
                &&& sampler.steady()
                &&& sampler.cursor() == old(sampler).cursor()
                &&& forall|a: int, b: int| #[trigger] sampler.pixel(a, b) == held(a, b)
                &&& forall|r: int, c: int|
                    0 <= r < row && 0 <= c < grid_size ==> #[trigger] samples@[r]@[c] == grid_cell(
                        held,
                        center_x,
                        center_y,
                        grid_size,
                        r,
                        c,
                    )
            },
        decreases grid_size - row,
    {
        let mut row_pixels: Vec<Color> = Vec::new();
        let mut col: usize = 0;
        while col < grid_size
            invariant
                row < grid_size,
                col <= grid_size,
                row_pixels@.len() == col,
                held == |a: int, b: int| old(sampler).pixel(a, b),
                old(sampler).steady() ==> {
                    &&& sampler.steady()
                    &&& sampler.cursor() == old(sampler).cursor()
                    &&& forall|a: int, b: int| #[trigger] sampler.pixel(a, b) == held(a, b)
                    &&& forall|c: int|
                        0 <= c < col ==> #[trigger] row_pixels@[c] == grid_cell(
                            held,
                            center_x,
                            center_y,
                            grid_size,
                            row as int,
                            c,
                        )
                },
            decreases grid_size - col,
        {
            let color = match (
                cell_target(center_x, col, grid_size),
                cell_target(center_y, row, grid_size),
            ) {
                (Some(x), Some(y)) => cell_from_sample(sampler.sample_pixel(x, y)),
                _ => neutral_gray(),
            };
            row_pixels.push(color);
            col += 1;
        }
        samples.push(row_pixels);
        row += 1;
    }
    samples
}

} // verus!
