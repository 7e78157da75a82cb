//! The window-list backend: colours read from the images that the platform
//! captures, one pixel or one region at a time, in the order blue, green, red.

use crate::types::{
    gray, gray_off_screen, is_on_screen, is_square, neutral_gray, on_screen, rgb, screened_cell,
    Color, Point, ScaleHint,
};
use vstd::prelude::*;

verus! {

/// An image as the platform captured it.
#[derive(Debug)]
pub struct CapturedImage {
    pub data: Vec<u8>,
    pub bytes_per_row: usize,
    pub width: usize,
    pub height: usize,
    pub bits_per_pixel: usize,
}

/// The square of the screen to capture for one grid: `side` points wide and
/// high, with its top left corner at (`x_start`, `y_start`).
#[derive(Debug, Clone, Copy, PartialEq, Eq, Structural)]
pub struct GridRegion {
    pub x_start: i128,
    pub y_start: i128,
    pub side: usize,
}

impl CapturedImage {
    /// The bytes that one pixel takes.
    pub open spec fn bytes_per_pixel(&self) -> int {
        self.bits_per_pixel as int / 8
    }

    /// Where the pixel for cell (`row`, `col`) of a grid of side `grid_size`
    /// starts in the data. The image may hold several pixels for each point of
    /// the screen: each cell reads the first pixel of its point.
    pub open spec fn cell_offset(&self, grid_size: usize, row: int, col: int) -> int {
        let scale_x = self.width as int / grid_size as int;
        let scale_y = self.height as int / grid_size as int;
        row * scale_y * self.bytes_per_row + col * scale_x * self.bytes_per_pixel()
    }

    /// The colour of cell (`row`, `col`) of a grid of side `grid_size`: the
    /// red, green and blue bytes of the cell's pixel, and gray where the data
    /// ends before the pixel does.
    pub open spec fn cell(&self, grid_size: usize, row: int, col: int) -> Color {
        let offset = self.cell_offset(grid_size, row, col);
        if offset + self.bytes_per_pixel() <= self.data@.len() && offset + 3 <= self.data@.len() {
            rgb(self.data@[offset + 2], self.data@[offset + 1], self.data@[offset])
        } else {
            gray()
        }
    }

    /// Whether `samples` is the grid of side `grid_size` that the image holds.
    pub open spec fn is_grid(&self, samples: Seq<Vec<Color>>, grid_size: usize) -> bool {
        &&& is_square(samples, grid_size as nat)
        &&& forall|row: int, col: int|
            0 <= row < grid_size && 0 <= col < grid_size ==> #[trigger] samples[row]@[col]
                == self.cell(grid_size, row, col)
    }

    fn cell_color(&self, grid_size: usize, row: usize, col: usize) -> (color: Color)
        requires
            row < grid_size,
            col < grid_size,
        ensures
            color == self.cell(grid_size, row as int, col as int),
    {
        let scale_x: usize = self.width / grid_size;
        let scale_y: usize = self.height / grid_size;
        let pixel_bytes: usize = self.bits_per_pixel / 8;
        let length: usize = self.data.len();
        proof {
            lemma_scaled_index(row as int, grid_size as int, self.height as int);
            lemma_scaled_index(col as int, grid_size as int, self.width as int);
        }
        let pixel_row: usize = row * scale_y;
        let pixel_col: usize = col * scale_x;
        assert(0 <= pixel_row * self.bytes_per_row <= 0xffff_ffff_ffff_ffff * 0xffff_ffff_ffff_ffff
            && 0 <= pixel_col * pixel_bytes <= 0xffff_ffff_ffff_ffff * 0xffff_ffff_ffff_ffff)
            by (nonlinear_arith)
            requires
                0 <= pixel_row <= 0xffff_ffff_ffff_ffff,
                0 <= pixel_col <= 0xffff_ffff_ffff_ffff,
                0 <= self.bytes_per_row <= 0xffff_ffff_ffff_ffff,
                0 <= pixel_bytes <= 0xffff_ffff_ffff_ffff,
        ;
        let row_start: u128 = (pixel_row as u128) * (self.bytes_per_row as u128);
        let col_start: u128 = (pixel_col as u128) * (pixel_bytes as u128);
        if row_start > length as u128 || col_start > length as u128 {
            return neutral_gray();
        }
        let offset: u128 = row_start + col_start;
        if offset + (pixel_bytes as u128) <= length as u128 && offset + 3 <= length as u128 {
            let at: usize = offset as usize;
            Color::new(self.data[at + 2], self.data[at + 1], self.data[at])
        } else {
            neutral_gray()
        }
    }

    /// The grid of side `grid_size` that the image of a captured region
    /// holds.
    pub fn grid(&self, grid_size: usize) -> (samples: Vec<Vec<Color>>)
        ensures
            self.is_grid(samples@, grid_size),
    {
        let mut samples: Vec<Vec<Color>> = Vec::new();
        let mut row: usize = 0;
        while row < grid_size
            invariant
                row <= grid_size,
                samples@.len() == row,
                forall|r: int| 0 <= r < row ==> (#[trigger] samples@[r])@.len() == grid_size,
                forall|r: int, c: int|
                    0 <= r < row && 0 <= c < grid_size ==> #[trigger] samples@[r]@[c] == self.cell(
                        grid_size,
                        r,
                        c,
                    ),
            decreases grid_size - row,
        {
            let mut row_pixels: Vec<Color> = Vec::new();
            let mut col: usize = 0;
            while col < grid_size
                invariant
                    row < grid_size,
                    col <= grid_size,
                    row_pixels@.len() == col,
                    forall|c: int|
                        0 <= c < col ==> #[trigger] row_pixels@[c] == self.cell(
                            grid_size,
                            row as int,
                            c,
                        ),
                decreases grid_size - col,
            {
                row_pixels.push(self.cell_color(grid_size, row, col));
                col += 1;
            }
            samples.push(row_pixels);
            row += 1;
        }
        samples
    }
}

/// The first pixel of point `index` of `points` along an image of `pixels`
/// pixels lies within the image.
proof fn lemma_scaled_index(index: int, points: int, pixels: int)
    requires
        0 <= index < points,
        0 <= pixels,
    ensures
        0 <= index * (pixels / points) <= pixels,
{
    let scale = pixels / points;
    assert(0 <= scale && scale * points <= pixels) by (nonlinear_arith)
        requires
            scale == pixels / points,
            points > 0,
            pixels >= 0,
    ;
    assert(0 <= index * scale <= scale * points) by (nonlinear_arith)
        requires
            0 <= index < points,
            0 <= scale,
    ;
}

/// The state of the window-list backend: the display's scale and the size of
/// its bounds, in the points that callers use, both read once at the start.
#[derive(Debug, Clone, Copy)]
pub struct MacOSSampler {
    pub scale: ScaleHint,
    pub screen_width: i32,
    pub screen_height: i32,
}

/// The scale of a display whose mode is `mode_width` pixels wide on bounds of
/// `bounds_width` points, in hundredths, and a scale of one where either is
/// unknown.
pub open spec fn display_scale_percent(mode_width: Option<u64>, bounds_width: u64) -> int {
    match mode_width {
        Some(pixels) => if bounds_width == 0 {
            100
        } else if pixels * 100 / (bounds_width as int) > u32::MAX {
            u32::MAX as int
        } else {
            pixels * 100 / (bounds_width as int)
        },
        None => 100,
    }
}

impl MacOSSampler {
    /// The backend for the main display, whose mode is `mode_width` pixels
    /// wide, where the mode is known, on bounds of `bounds_width` by
    /// `bounds_height` points.
    pub fn new(mode_width: Option<u64>, bounds_width: u64, bounds_height: u64) -> (sampler: Result<
        MacOSSampler,
        String,
    >)
        ensures
            sampler is Ok,
            sampler->Ok_0.scale.percent == display_scale_percent(mode_width, bounds_width),
            sampler->Ok_0.screen_width == if bounds_width > i32::MAX {
                i32::MAX as int
            } else {
                bounds_width as int
            },
            sampler->Ok_0.screen_height == if bounds_height > i32::MAX {
                i32::MAX as int
            } else {
                bounds_height as int
            },
    {
        let percent: u32 = match mode_width {
            Some(pixels) => {
                if bounds_width == 0 {
                    100
                } else {
                    let scaled: u128 = (pixels as u128) * 100 / (bounds_width as u128);
                    if scaled > u32::MAX as u128 {
                        u32::MAX
                    } else {
                        scaled as u32
                    }
                }
            },
            None => 100,
        };
        let screen_width: i32 = if bounds_width > i32::MAX as u64 {
            i32::MAX
        } else {
            bounds_width as i32
        };
        let screen_height: i32 = if bounds_height > i32::MAX as u64 {
            i32::MAX
        } else {
            bounds_height as i32
        };
        Ok(MacOSSampler { scale: ScaleHint { percent }, screen_width, screen_height })
    }

    /// Whether the point (`x`, `y`) lies on the display. A point outside has
    /// no pixel to capture: its sample is gray.
    pub fn is_on_screen(&self, x: i32, y: i32) -> (inside: bool)
        ensures
            inside == on_screen(x as int, y as int, self.screen_width, self.screen_height),
    {
        is_on_screen(x, y, self.screen_width, self.screen_height)
    }

    /// The sample at (`x`, `y`) from the capture of that one pixel: `capture`
    /// holds the bytes of the image, or nothing where the capture failed or
    /// was not made. Outside the display the sample is gray, whatever the
    /// capture. Inside, the image must hold the four bytes of a pixel.
    pub fn pixel_from_capture(&self, x: i32, y: i32, capture: Option<&[u8]>) -> (sample: Result<
        Color,
        String,
    >)
        ensures
            !on_screen(x as int, y as int, self.screen_width, self.screen_height) ==> sample
                == Ok::<Color, String>(gray()),
            on_screen(x as int, y as int, self.screen_width, self.screen_height) ==> {
                &&& capture is None ==> sample is Err && sample->Err_0@
                    == "Failed to capture screen pixel"@
                &&& capture matches Some(data) ==> {
                    &&& data@.len() < 4 ==> sample is Err && sample->Err_0@
                        == "Insufficient image data"@
                    &&& data@.len() >= 4 ==> sample == Ok::<Color, String>(
                        rgb(data@[2], data@[1], data@[0]),
                    )
                }
            },
    {
        if !self.is_on_screen(x, y) {
            return Ok(neutral_gray());
        }
        match capture {
            None => Err("Failed to capture screen pixel".to_owned()),
            Some(data) => {
                if data.len() < 4 {
                    Err("Insufficient image data".to_owned())
                } else {
                    Ok(Color::new(data[2], data[1], data[0]))
                }
            },
        }
    }

    /// The square to capture for the grid of side `grid_size` around
    /// (`center_x`, `center_y`).
    pub fn grid_region(center_x: i32, center_y: i32, grid_size: usize) -> (region: GridRegion)
        ensures
            region.x_start == center_x - grid_size / 2,
            region.y_start == center_y - grid_size / 2,
            region.side == grid_size,
    {
        let half: i128 = (grid_size / 2) as i128;
        GridRegion {
            x_start: (center_x as i128) - half,
            y_start: (center_y as i128) - half,
            side: grid_size,
        }
    }

    /// The grid of side `grid_size` around (`center_x`, `center_y`) from the
    /// capture of its region: `capture` holds the image of the region, or
    /// nothing where the capture failed. Cells outside the display are gray,
    /// whatever the image holds for them.
    pub fn grid_from_capture(
        &self,
        center_x: i32,
        center_y: i32,
        capture: Option<&CapturedImage>,
        grid_size: usize,
    ) -> (samples: Result<Vec<Vec<Color>>, String>)
        ensures
            capture is None ==> samples is Err && samples->Err_0@
                == "Failed to capture screen region"@,
            capture matches Some(image) ==> samples is Ok && {
                let cells = samples->Ok_0;
                &&& is_square(cells@, grid_size as nat)
                &&& forall|row: int, col: int|
                    0 <= row < grid_size && 0 <= col < grid_size ==> #[trigger] cells@[row]@[col]
                        == screened_cell(
                        image.cell(grid_size, row, col),
                        center_x,
                        center_y,
                        grid_size,
                        row,
                        col,
                        self.screen_width,
                        self.screen_height,
                    )
            },
    {
        match capture {
            None => Err("Failed to capture screen region".to_owned()),
            Some(image) => {
                let captured = image.grid(grid_size);
                Ok(
                    gray_off_screen(
                        &captured,
                        center_x,
                        center_y,
                        grid_size,
                        self.screen_width,
                        self.screen_height,
                    ),
                )
            },
        }
    }

    /// The cursor's position from the event that reports it: `event_created`
    /// says whether the platform gave an event, (`x`, `y`) where it puts the
    /// cursor.
    pub fn cursor_from_event(event_created: bool, x: i32, y: i32) -> (position: Result<Point, String>)
        ensures
            !event_created ==> position is Err && position->Err_0@ == "Failed to create CG event"@,
            event_created ==> position == Ok::<Point, String>(Point { x, y }),
    {
        if event_created {
            Ok(Point { x, y })
        } else {
            Err("Failed to create CG event".to_owned())
        }
    }
}

} // verus!
