//! The device-context backend: coordinates between the logical space that
//! callers use and the physical space of the drawing surface, colour values in
//! the surface's reversed channel order, and grids read from one block copy.

use crate::text::{decimal, push_decimal};
use crate::types::{
    gray, gray_off_screen, is_on_screen, is_square, neutral_gray, on_screen, rgb, screened_cell,
    Color, Point,
};
use vstd::arithmetic::div_mod::{
    lemma_div_by_multiple, lemma_div_is_ordered, lemma_fundamental_div_mod, lemma_mod_pos_bound,
};
use vstd::prelude::*;
use vstd::string::StringExecFns;

verus! {

/// The dots per inch at which logical and physical pixels are the same.
pub const STANDARD_DPI: i32 = 96;

/// The value that a per-pixel query returns where it has no colour.
pub const CLR_INVALID: u32 = 0xFFFF_FFFF;

/// `a / b` rounded towards zero, for a positive `b`.
pub open spec fn quotient_towards_zero(a: int, b: int) -> int {
    if a >= 0 {
        a / b
    } else {
        -((-a) / b)
    }
}

/// `v`, or the nearest coordinate where `v` is none.
pub open spec fn nearest_coordinate(v: int) -> int {
    if v < i32::MIN {
        i32::MIN as int
    } else if v > i32::MAX {
        i32::MAX as int
    } else {
        v
    }
}

/// `value * numerator / denominator`, rounded towards zero, as a coordinate.
pub open spec fn rescaled(value: int, numerator: int, denominator: int) -> int {
    nearest_coordinate(quotient_towards_zero(value * numerator, denominator))
}

/// At the standard dots per inch, logical and physical coordinates are the
/// same.
pub proof fn lemma_standard_dpi_changes_nothing(value: i32)
    ensures
        rescaled(value as int, STANDARD_DPI as int, STANDARD_DPI as int) == value,
{
    if value >= 0 {
        lemma_div_by_multiple(value as int, 96);
    } else {
        lemma_div_by_multiple(-value as int, 96);
        assert(-(value * 96) == (-value) * 96);
    }
}

/// The two directions undo each other: a logical coordinate that is taken to
/// the surface and back is itself, or, where the scale lost a fraction on the
/// way, the coordinate next to it towards zero. This holds at the standard
/// dots per inch and above, for coordinates whose physical form fits.
pub proof fn lemma_scaling_round_trip(dpi: int, logical: int)
    requires
        dpi >= 96,
        0 <= logical,
        logical * dpi / 96 <= i32::MAX,
    ensures
        logical - 1 <= rescaled(rescaled(logical, dpi, 96), 96, dpi) <= logical,
{
    let product = logical * dpi;
    assert(product >= 0) by (nonlinear_arith)
        requires
            product == logical * dpi,
            logical >= 0,
            dpi >= 96,
    ;
    let physical = product / 96;
    lemma_fundamental_div_mod(product, 96);
    lemma_mod_pos_bound(product, 96);
    assert(0 <= physical) by {
        vstd::arithmetic::div_mod::lemma_div_pos_is_pos(product, 96);
    }
    assert(rescaled(logical, dpi, 96) == physical);
    // 96 * physical <= product < 96 * physical + 96
    let back = physical * 96;
    assert(back == 96 * physical) by (nonlinear_arith)
        requires
            back == physical * 96,
    ;
    assert(back >= 0);
    assert(back <= product);
    lemma_div_is_ordered(back, product, dpi);
    lemma_div_by_multiple(logical, dpi);
    assert(back / dpi <= logical);
    if logical >= 1 {
        let lower = (logical - 1) * dpi;
        assert(lower <= back) by (nonlinear_arith)
            requires
                lower == (logical - 1) * dpi,
                product == logical * dpi,
                back > product - 96,
                dpi >= 96,
        ;
        lemma_div_is_ordered(lower, back, dpi);
        lemma_div_by_multiple(logical - 1, dpi);
    } else {
        vstd::arithmetic::div_mod::lemma_div_pos_is_pos(back, dpi);
    }
    assert(logical - 1 <= back / dpi <= logical);
    // The way back stays within the coordinates: it ends at or below where it began.
    let least = logical * 96;
    assert(least <= product) by (nonlinear_arith)
        requires
            least == logical * 96,
            product == logical * dpi,
            logical >= 0,
            dpi >= 96,
    ;
    lemma_div_is_ordered(least, product, 96);
    lemma_div_by_multiple(logical, 96);
    assert(logical <= physical);
    vstd::arithmetic::div_mod::lemma_div_pos_is_pos(back, dpi);
    assert(rescaled(physical, 96, dpi) == back / dpi);
}

fn rescale(value: i32, numerator: i32, denominator: i32) -> (scaled: i32)
    requires
        numerator > 0,
        denominator > 0,
    ensures
        scaled == rescaled(value as int, numerator as int, denominator as int),
{
    assert(-0x8000_0000 * 0x7fff_ffff <= value * numerator <= 0x7fff_ffff * 0x7fff_ffff)
        by (nonlinear_arith)
        requires
            -0x8000_0000 <= value <= 0x7fff_ffff,
            0 < numerator <= 0x7fff_ffff,
    ;
    let product: i64 = (value as i64) * (numerator as i64);
    let quotient: i64 = if product >= 0 {
        product / (denominator as i64)
    } else {
        -((-product) / (denominator as i64))
    };
    if quotient < i32::MIN as i64 {
        i32::MIN
    } else if quotient > i32::MAX as i64 {
        i32::MAX
    } else {
        quotient as i32
    }
}

/// The part of the drawing surface that one grid is copied from: a square of
/// `side` physical pixels with its top left corner at (`x_start`, `y_start`).
#[derive(Debug, Clone, Copy, PartialEq, Eq, Structural)]
pub struct CaptureRegion {
    pub x_start: i32,
    pub y_start: i32,
    pub side: i32,
}

/// The colour of a raw value in the surface's order 0x00BBGGRR.
pub open spec fn colorref_color(value: u32) -> Color {
    rgb((value % 256) as u8, (value / 256 % 256) as u8, (value / 65536 % 256) as u8)
}

/// The message of a per-pixel query that failed at (`x`, `y`).
pub open spec fn pixel_failure_text(x: i32, y: i32) -> Seq<char> {
    "Failed to get pixel at ("@ + decimal(x as int) + ", "@ + decimal(y as int) + ")"@
}

/// The colour of cell (`row`, `col`) in a block copy of a grid of side
/// `grid_size`: four bytes to a cell in the order blue, green, red, alpha, rows
/// from the top, and gray where `buffer` ends before the cell does.
pub open spec fn block_cell(buffer: Seq<u8>, grid_size: usize, row: int, col: int) -> Color {
    let offset = (row * grid_size + col) * 4;
    if offset + 3 < buffer.len() {
        rgb(buffer[offset + 2], buffer[offset + 1], buffer[offset])
    } else {
        gray()
    }
}

/// Whether `samples` is the grid of side `grid_size` that `buffer` holds.
pub open spec fn is_block_grid(samples: Seq<Vec<Color>>, buffer: Seq<u8>, grid_size: usize) -> bool {
    &&& is_square(samples, grid_size as nat)
    &&& forall|row: int, col: int|
        0 <= row < grid_size && 0 <= col < grid_size ==> #[trigger] samples[row]@[col]
            == block_cell(buffer, grid_size, row, col)
}

/// What the device-context backend knows of the display: the size of the
/// virtual screen, in the coordinates that callers use, and the dots per
/// inch, both read once at the start.
#[derive(Debug, Clone, Copy)]
pub struct WindowsSampler {
    pub screen_width: i32,
    pub screen_height: i32,
    pub dpi: i32,
}

impl WindowsSampler {
    /// Whether the dots per inch are a number that coordinates can be scaled by.
    pub open spec fn is_valid(&self) -> bool {
        self.dpi > 0
    }

    /// The backend for a display of the given size and dots per inch. It
    /// cannot start without a device context, nor with dots per inch that are
    /// not positive.
    pub fn new(device_context_valid: bool, screen_width: i32, screen_height: i32, dpi: i32) -> (sampler:
        Result<WindowsSampler, String>)
        ensures
            !device_context_valid ==> sampler is Err && sampler->Err_0@
                == "Failed to get device context"@,
            device_context_valid && dpi <= 0 ==> sampler is Err && sampler->Err_0@
                == "Failed to query display DPI"@,
            device_context_valid && dpi > 0 ==> sampler == Ok::<WindowsSampler, String>(
                WindowsSampler { screen_width, screen_height, dpi },
            ),
    {
        if !device_context_valid {
            Err("Failed to get device context".to_owned())
        } else if dpi <= 0 {
            Err("Failed to query display DPI".to_owned())
        } else {
            Ok(WindowsSampler { screen_width, screen_height, dpi })
        }
    }

    /// The logical coordinate of a physical one: scaled by 96 over the dots
    /// per inch.
    pub fn to_logical(&self, physical: i32) -> (logical: i32)
        requires
            self.is_valid(),
        ensures
            logical == rescaled(physical as int, STANDARD_DPI as int, self.dpi as int),
    {
        rescale(physical, STANDARD_DPI, self.dpi)
    }

    /// The physical coordinate of a logical one: scaled by the dots per inch
    /// over 96.
    pub fn to_physical(&self, logical: i32) -> (physical: i32)
        requires
            self.is_valid(),
        ensures
            physical == rescaled(logical as int, self.dpi as int, STANDARD_DPI as int),
    {
        rescale(logical, self.dpi, STANDARD_DPI)
    }

    /// The cursor's position as callers see it, from the physical position
    /// that the platform reports.
    pub fn cursor_from_physical(&self, x: i32, y: i32) -> (cursor: Point)
        requires
            self.is_valid(),
        ensures
            cursor.x == rescaled(x as int, STANDARD_DPI as int, self.dpi as int),
            cursor.y == rescaled(y as int, STANDARD_DPI as int, self.dpi as int),
    {
        Point { x: self.to_logical(x), y: self.to_logical(y) }
    }

    /// The point of the drawing surface that a query at the logical point
    /// (`x`, `y`) reads.
    pub fn surface_point(&self, x: i32, y: i32) -> (point: Point)
        requires
            self.is_valid(),
        ensures
            point.x == rescaled(x as int, self.dpi as int, STANDARD_DPI as int),
            point.y == rescaled(y as int, self.dpi as int, STANDARD_DPI as int),
    {
        Point { x: self.to_physical(x), y: self.to_physical(y) }
    }

    /// Whether the logical point (`x`, `y`) lies on the virtual screen. A
    /// point outside has no pixel to query: its sample is gray.
    pub fn is_on_screen(&self, x: i32, y: i32) -> (inside: bool)
        ensures
            inside == on_screen(x as int, y as int, self.screen_width, self.screen_height),
    {
        is_on_screen(x, y, self.screen_width, self.screen_height)
    }

    /// The sample at the logical point (`x`, `y`), where the per-pixel query
    /// returned `value`: gray outside the screen, whatever the value; inside,
    /// a failure for the value that stands for "no colour", and else the
    /// colour of the value.
    pub open spec fn sample_of(&self, value: u32, x: i32, y: i32) -> Result<Color, Seq<char>> {
        if !on_screen(x as int, y as int, self.screen_width, self.screen_height) {
            Ok(gray())
        } else if value == CLR_INVALID {
            Err(pixel_failure_text(x, y))
        } else {
            Ok(colorref_color(value))
        }
    }

    /// The sample at the logical point (`x`, `y`) from the raw value that the
    /// per-pixel query returned there. For a point outside the screen the
    /// query need not be made: any value gives gray.
    pub fn pixel_from_colorref(&self, value: u32, x: i32, y: i32) -> (sample: Result<Color, String>)
        ensures
            match self.sample_of(value, x, y) {
                Ok(color) => sample == Ok::<Color, String>(color),
                Err(text) => sample is Err && sample->Err_0@ == text,
            },
    {
        if !self.is_on_screen(x, y) {
            Ok(neutral_gray())
        } else if value == CLR_INVALID {
            let mut message = "Failed to get pixel at (".to_owned();
            push_decimal(&mut message, x as i64);
            message.append(", ");
            push_decimal(&mut message, y as i64);
            message.append(")");
            Err(message)
        } else {
            Ok(
                Color::new(
                    (value % 256) as u8,
                    (value / 256 % 256) as u8,
                    (value / 65536 % 256) as u8,
                ),
            )
        }
    }

    /// The square of the drawing surface to copy for the grid of side
    /// `grid_size` around the logical point (`center_x`, `center_y`): one
    /// physical pixel for each cell, around the physical centre. There is none
    /// where the side is zero or the square does not fit the coordinates; the
    /// grid is then sampled pixel by pixel.
    pub fn capture_region(&self, center_x: i32, center_y: i32, grid_size: usize) -> (region: Option<
        CaptureRegion,
    >)
        requires
            self.is_valid(),
        ensures
            region is Some <==> {
                &&& 0 < grid_size <= i32::MAX
                &&& i32::MIN <= rescaled(center_x as int, self.dpi as int, STANDARD_DPI as int)
                    - grid_size / 2
                &&& i32::MIN <= rescaled(center_y as int, self.dpi as int, STANDARD_DPI as int)
                    - grid_size / 2
            },
            region matches Some(square) ==> {
                &&& square.side == grid_size
                &&& square.x_start == rescaled(
                    center_x as int,
                    self.dpi as int,
                    STANDARD_DPI as int,
                ) - grid_size / 2
                &&& square.y_start == rescaled(
                    center_y as int,
                    self.dpi as int,
                    STANDARD_DPI as int,
                ) - grid_size / 2
            },
    {
        if grid_size == 0 || grid_size > i32::MAX as usize {
            return None;
        }
        let side: i32 = grid_size as i32;
        let half: i32 = side / 2;
        let x = self.to_physical(center_x);
        let y = self.to_physical(center_y);
        if (x as i64) - (half as i64) < i32::MIN as i64 || (y as i64) - (half as i64)
            < i32::MIN as i64 {
            return None;
        }
        Some(CaptureRegion { x_start: x - half, y_start: y - half, side })
    }

    /// The number of bytes that the block copy of a grid of side `grid_size`
    /// takes, four to a cell, where that number fits.
    pub fn block_size(grid_size: usize) -> (size: Option<usize>)
        ensures
            size is Some <==> 4 * grid_size * grid_size <= usize::MAX,
            size matches Some(bytes) ==> bytes == 4 * grid_size * grid_size,
    {
        match grid_size.checked_mul(grid_size) {
            Some(cells) => {
                assert(4 * grid_size * grid_size == 4 * (grid_size * grid_size)) by (nonlinear_arith);
                cells.checked_mul(4)
            },
            None => {
                assert(4 * grid_size * grid_size >= grid_size * grid_size) by (nonlinear_arith);
                None
            },
        }
    }

    /// The grid of side `grid_size` around the logical point (`center_x`,
    /// `center_y`) from one block copy: `blit_ok` says whether the copy
    /// succeeded, `scan_lines` how many rows were then read into `buffer`.
    /// Where the copy failed or no row was read there is no grid, and the
    /// caller samples pixel by pixel. Cells outside the screen are gray,
    /// whatever the copy holds for them.
    pub fn grid_from_capture(
        &self,
        center_x: i32,
        center_y: i32,
        blit_ok: bool,
        scan_lines: i32,
        buffer: &[u8],
        grid_size: usize,
    ) -> (samples: Option<Vec<Vec<Color>>>)
        ensures
            samples is Some <==> blit_ok && scan_lines != 0,
            samples matches Some(cells) ==> {
                &&& is_square(cells@, grid_size as nat)
                &&& forall|row: int, col: int|
                    0 <= row < grid_size && 0 <= col < grid_size ==> #[trigger] cells@[row]@[col]
                        == screened_cell(
                        block_cell(buffer@, grid_size, row, col),
                        center_x,
                        center_y,
                        grid_size,
                        row,
                        col,
                        self.screen_width,
                        self.screen_height,
                    )
            },
    {
        if !blit_ok || scan_lines == 0 {
            return None;
        }
        let copied = block_grid(buffer, grid_size);
        Some(
            gray_off_screen(
                &copied,
                center_x,
                center_y,
                grid_size,
                self.screen_width,
                self.screen_height,
            ),
        )
    }
}

/// The grid of side `grid_size` that a block copy holds, cell by cell as the
/// copy has it.
pub fn block_grid(buffer: &[u8], grid_size: usize) -> (samples: Vec<Vec<Color>>)
    ensures
        is_block_grid(samples@, buffer@, grid_size),
{
    let mut samples: Vec<Vec<Color>> = Vec::new();
    let mut row: usize = 0;
    while row < grid_size
        invariant
            row <= grid_size,
            samples@.len() == row,
            forall|r: int| 0 <= r < row ==> (#[trigger] samples@[r])@.len() == grid_size,
            forall|r: int, c: int|
                0 <= r < row && 0 <= c < grid_size ==> #[trigger] samples@[r]@[c] == block_cell(
                    buffer@,
                    grid_size,
                    r,
                    c,
                ),
        decreases grid_size - row,
    {
        let mut row_pixels: Vec<Color> = Vec::new();
        let mut col: usize = 0;
        while col < grid_size
            invariant
                row < grid_size,
                col <= grid_size,
                row_pixels@.len() == col,
                forall|c: int|
                    0 <= c < col ==> #[trigger] row_pixels@[c] == block_cell(
                        buffer@,
                        grid_size,
                        row as int,
                        c,
                    ),
            decreases grid_size - col,
        {
            row_pixels.push(block_color(buffer, grid_size, row, col));
            col += 1;
        }
        samples.push(row_pixels);
        row += 1;
    }
    samples
}

/// Outside the screen every sample is gray and none is a failure: the raw
/// value does not matter there.
pub proof fn lemma_off_screen_pixel_is_gray(sampler: WindowsSampler, value: u32, x: i32, y: i32)
    requires
        x < 0 || y < 0 || x >= sampler.screen_width || y >= sampler.screen_height,
    ensures
        sampler.sample_of(value, x, y) == Ok::<Color, Seq<char>>(gray()),
{
}

fn block_color(buffer: &[u8], grid_size: usize, row: usize, col: usize) -> (color: Color)
    requires
        row < grid_size,
        col < grid_size,
    ensures
        color == block_cell(buffer@, grid_size, row as int, col as int),
{
    assert(row * grid_size + col < 0x1_0000_0000_0000_0000 * 0x1_0000_0000_0000_0000)
        by (nonlinear_arith)
        requires
            0 <= row < grid_size,
            0 <= col < grid_size,
            grid_size <= 0xffff_ffff_ffff_ffff,
    ;
    let length: usize = buffer.len();
    let cell: u128 = (row as u128) * (grid_size as u128) + (col as u128);
    if cell >= 0x4000_0000_0000_0000 {
        return neutral_gray();
    }
    let offset: u128 = cell * 4;
    if offset + 3 < length as u128 {
        let at: usize = offset as usize;
        Color::new(buffer[at + 2], buffer[at + 1], buffer[at])
    } else {
        neutral_gray()
    }
}

} // verus!
