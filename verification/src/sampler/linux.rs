//! The framebuffer backend: pixels of any depth brought to three 8-bit
//! channels by the display's channel masks, the captured screen kept for a
//! short while, and the pixels read from it.

use crate::sampler::ppm::{header_of, parse_header, PpmError};
use crate::types::{
    cell_target, gray, grid_cell, neutral_gray, rgb, Color, PixelSampler, Point, ScaleHint,
};
use vstd::prelude::*;
use vstd::slice::{slice_subrange, slice_to_vec};

verus! {

/// The number of zero bits below the lowest set bit of `mask`; 64 for zero.
pub open spec fn trailing_zeros(mask: u64) -> nat
    decreases mask,
{
    if mask == 0 {
        64
    } else if mask % 2 == 1 {
        0
    } else {
        1 + trailing_zeros(mask / 2)
    }
}

/// The number of set bits of `mask`.
pub open spec fn set_bits(mask: u64) -> nat
    decreases mask,
{
    if mask == 0 {
        0
    } else {
        (mask % 2) as nat + set_bits(mask / 2)
    }
}

/// Two to the power `n`.
pub open spec fn two_to(n: nat) -> nat
    decreases n,
{
    if n == 0 {
        1
    } else {
        2 * two_to((n - 1) as nat)
    }
}

/// The bits of `pixel` that `mask` selects, moved down to bit zero.
pub open spec fn raw_channel(pixel: u64, mask: u64) -> nat {
    ((pixel & mask) as nat) / two_to(trailing_zeros(mask))
}

/// The largest value of a channel with as many bits as `mask` has set.
pub open spec fn channel_max(mask: u64) -> nat {
    (two_to(set_bits(mask)) - 1) as nat
}

/// The 8-bit value of the channel that `mask` selects in `pixel`: the selected
/// bits, scaled from the channel's own range to 0..=255, and the low eight bits
/// of that. A channel without a mask is zero.
pub open spec fn channel_value(pixel: u64, mask: u64) -> u8 {
    if mask == 0 {
        0
    } else {
        ((raw_channel(pixel, mask) * 255 / channel_max(mask)) % 256) as u8
    }
}

/// The channel masks of a display: which bits of a pixel hold red, green and
/// blue.
#[derive(Debug, Clone, Copy, PartialEq, Eq, Structural)]
pub struct ChannelMasks {
    pub red: u64,
    pub green: u64,
    pub blue: u64,
}

proof fn lemma_two_to_positive(n: nat)
    ensures
        two_to(n) >= 1,
        n >= 1 ==> two_to(n) >= 2,
    decreases n,
{
    if n > 0 {
        lemma_two_to_positive((n - 1) as nat);
    }
}

proof fn lemma_two_to_add(a: nat, b: nat)
    ensures
        two_to(a + b) == two_to(a) * two_to(b),
    decreases b,
{
    if b == 0 {
        assert(two_to(a) * 1 == two_to(a)) by (nonlinear_arith);
    } else {
        lemma_two_to_add(a, (b - 1) as nat);
        assert(two_to(a + b) == 2 * two_to((a + b - 1) as nat));
        assert(2 * (two_to(a) * two_to((b - 1) as nat)) == two_to(a) * (2 * two_to(
            (b - 1) as nat,
        ))) by (nonlinear_arith);
    }
}

proof fn lemma_two_to_64()
    ensures
        two_to(64) == 0x1_0000_0000_0000_0000,
{
    assert(two_to(8) == 256) by {
        reveal_with_fuel(two_to, 9);
    }
    lemma_two_to_add(8, 8);
    lemma_two_to_add(16, 16);
    lemma_two_to_add(32, 32);
    assert(256 * 256 == 65536) by (nonlinear_arith);
    assert(65536 * 65536 == 0x1_0000_0000) by (nonlinear_arith);
    assert(0x1_0000_0000 * 0x1_0000_0000 == 0x1_0000_0000_0000_0000) by (nonlinear_arith);
}

proof fn lemma_two_to_bounds(n: nat)
    requires
        n <= 64,
    ensures
        1 <= two_to(n) <= 0x1_0000_0000_0000_0000,
        n >= 1 ==> two_to(n) >= 2,
{
    lemma_two_to_positive(n);
    lemma_two_to_positive((64 - n) as nat);
    lemma_two_to_add(n, (64 - n) as nat);
    lemma_two_to_64();
    assert(two_to(n) <= two_to(n) * two_to((64 - n) as nat)) by (nonlinear_arith)
        requires
            two_to(n) >= 1,
            two_to((64 - n) as nat) >= 1,
    ;
}

/// The bits of a value below two to the power `n` are at most `n`, and its
/// lowest set bit, if it has one, is below position `n`.
proof fn lemma_width_bound(mask: u64, n: nat)
    requires
        mask < two_to(n),
    ensures
        set_bits(mask) <= n,
        mask != 0 ==> trailing_zeros(mask) < n,
    decreases n,
{
    if mask != 0 {
        if n == 0 {
            assert(two_to(0) == 1);
        } else {
            assert(two_to(n) == 2 * two_to((n - 1) as nat));
            lemma_width_bound(mask / 2, (n - 1) as nat);
        }
    }
}

proof fn lemma_bit_counts(mask: u64)
    ensures
        set_bits(mask) <= 64,
        mask != 0 ==> set_bits(mask) >= 1 && trailing_zeros(mask) < 64,
    decreases mask,
{
    lemma_two_to_64();
    lemma_width_bound(mask, 64);
    if mask != 0 {
        lemma_bit_counts(mask / 2);
    }
}

fn count_trailing_zeros(mask: u64) -> (shift: (u32, u128))
    requires
        mask != 0,
    ensures
        shift.0 == trailing_zeros(mask),
        shift.1 == two_to(trailing_zeros(mask)),
        shift.1 >= 1,
{
    let mut rest: u64 = mask;
    let mut zeros: u32 = 0;
    let mut power: u128 = 1;
    proof {
        lemma_two_to_64();
        lemma_width_bound(mask, 64);
    }
    while rest % 2 == 0
        invariant
            rest != 0,
            zeros + trailing_zeros(rest) == trailing_zeros(mask),
            trailing_zeros(mask) < 64,
            power == two_to(zeros as nat),
            zeros < 64,
        decreases rest,
    {
        proof {
            lemma_two_to_bounds((zeros + 1) as nat);
        }
        rest = rest / 2;
        zeros = zeros + 1;
        power = power * 2;
    }
    proof {
        lemma_two_to_positive(zeros as nat);
    }
    (zeros, power)
}

fn count_set_bits(mask: u64) -> (count: (u32, u128))
    ensures
        count.0 == set_bits(mask),
        count.1 == two_to(set_bits(mask)),
{
    let mut rest: u64 = mask;
    let mut ones: u32 = 0;
    let mut power: u128 = 1;
    proof {
        lemma_two_to_64();
        lemma_width_bound(mask, 64);
    }
    while rest != 0
        invariant
            ones + set_bits(rest) == set_bits(mask),
            set_bits(mask) <= 64,
            power == two_to(ones as nat),
        decreases rest,
    {
        if rest % 2 == 1 {
            proof {
                lemma_two_to_bounds((ones + 1) as nat);
            }
            ones = ones + 1;
            power = power * 2;
        }
        rest = rest / 2;
    }
    (ones, power)
}

/// The 8-bit value of the channel that `mask` selects in `pixel`.
pub fn extract_channel(pixel: u64, mask: u64) -> (value: u8)
    ensures
        value == channel_value(pixel, mask),
{
    if mask == 0 {
        return 0;
    }
    proof {
        lemma_bit_counts(mask);
        lemma_two_to_bounds(set_bits(mask));
    }
    let (_, divisor) = count_trailing_zeros(mask);
    let (_, range) = count_set_bits(mask);
    let raw: u128 = ((pixel & mask) as u128) / divisor;
    let max: u128 = range - 1;
    assert(raw <= 0xffff_ffff_ffff_ffff) by (nonlinear_arith)
        requires
            raw == ((pixel & mask) as u128) / divisor,
            divisor >= 1,
            (pixel & mask) as u128 <= 0xffff_ffff_ffff_ffff,
    ;
    ((raw * 255 / max) % 256) as u8
}

/// The colour of a raw pixel under the display's channel masks.
pub open spec fn masked_color(pixel: u64, masks: ChannelMasks) -> Color {
    rgb(
        channel_value(pixel, masks.red),
        channel_value(pixel, masks.green),
        channel_value(pixel, masks.blue),
    )
}

/// Whether `data` holds the pixels `pixels` under `masks`, three bytes to a
/// pixel in the order red, green, blue.
pub open spec fn is_rgb_of(data: Seq<u8>, pixels: Seq<u64>, masks: ChannelMasks) -> bool {
    &&& data.len() == 3 * pixels.len()
    &&& forall|i: int|
        0 <= i < pixels.len() ==> {
            &&& data[3 * i] == channel_value(#[trigger] pixels[i], masks.red)
            &&& data[3 * i + 1] == channel_value(pixels[i], masks.green)
            &&& data[3 * i + 2] == channel_value(pixels[i], masks.blue)
        }
}

/// The raw pixels of a capture, in row-major order, as three bytes each: red,
/// green and blue, each brought to 8 bits whatever the depth of the display.
pub fn rgb_from_pixels(pixels: &[u64], masks: ChannelMasks) -> (data: Vec<u8>)
    ensures
        is_rgb_of(data@, pixels@, masks),
{
    let mut data: Vec<u8> = Vec::new();
    let mut index: usize = 0;
    while index < pixels.len()
        invariant
            index <= pixels@.len(),
            data@.len() == 3 * index,
            forall|i: int|
                0 <= i < index ==> {
                    &&& data@[3 * i] == channel_value(#[trigger] pixels@[i], masks.red)
                    &&& data@[3 * i + 1] == channel_value(pixels@[i], masks.green)
                    &&& data@[3 * i + 2] == channel_value(pixels@[i], masks.blue)
                },
        decreases pixels@.len() - index,
    {
        let pixel = pixels[index];
        data.push(extract_channel(pixel, masks.red));
        data.push(extract_channel(pixel, masks.green));
        data.push(extract_channel(pixel, masks.blue));
        index += 1;
    }
    data
}

/// How long a captured screen is served before it is taken again, in
/// milliseconds.
pub const CACHE_WINDOW_MILLIS: u128 = 50;

/// One captured screen: three bytes to a pixel in the order red, green, blue,
/// row after row without padding, and the time of the capture on the driver's
/// clock, in milliseconds.
#[derive(Debug)]
pub struct ScreenshotCache {
    pub data: Vec<u8>,
    pub width: u32,
    pub height: u32,
    pub timestamp: u128,
}

impl ScreenshotCache {
    /// The colour that the capture has at (`x`, `y`): gray outside the
    /// capture and where the data ends before the pixel does.
    pub open spec fn pixel(&self, x: int, y: int) -> Color {
        let index = (y * self.width + x) * 3;
        if x < 0 || y < 0 || x >= self.width || y >= self.height {
            gray()
        } else if index + 2 >= self.data@.len() {
            gray()
        } else {
            rgb(self.data@[index], self.data@[index + 1], self.data@[index + 2])
        }
    }

    /// Whether the capture holds every pixel of the size it claims.
    pub open spec fn is_whole(&self) -> bool {
        self.data@.len() == 3 * self.width * self.height
    }

    /// Whether the capture is older at `now_millis` than `window_millis`.
    pub open spec fn is_older_than(&self, now_millis: u128, window_millis: u128) -> bool {
        now_millis - self.timestamp > window_millis
    }

    /// The colour at (`x`, `y`).
    pub fn color_at(&self, x: i32, y: i32) -> (color: Color)
        ensures
            color == self.pixel(x as int, y as int),
    {
        if x < 0 || y < 0 {
            return neutral_gray();
        }
        if x as u32 >= self.width || y as u32 >= self.height {
            return neutral_gray();
        }
        assert(0 <= y * self.width <= 0x7fff_ffff * 0xffff_ffff) by (nonlinear_arith)
            requires
                0 <= y <= 0x7fff_ffff,
                0 <= self.width <= 0xffff_ffff,
        ;
        let index: u128 = ((y as u128) * (self.width as u128) + (x as u128)) * 3;
        if index + 2 >= self.data.len() as u128 {
            return neutral_gray();
        }
        let at: usize = index as usize;
        Color::new(self.data[at], self.data[at + 1], self.data[at + 2])
    }

    /// Whether the capture is too old to serve at `now_millis`.
    pub fn is_stale(&self, now_millis: u128, window_millis: u128) -> (stale: bool)
        ensures
            stale == self.is_older_than(now_millis, window_millis),
    {
        now_millis > self.timestamp && now_millis - self.timestamp > window_millis
    }
}

/// No capture has a pixel outside its own size: what is asked for there is
/// gray.
pub proof fn lemma_outside_capture_is_gray(cache: ScreenshotCache, x: int, y: int)
    requires
        x < 0 || y < 0 || x >= cache.width || y >= cache.height,
    ensures
        cache.pixel(x, y) == gray(),
{
}

/// A whole capture holds every pixel of its size: what is asked for inside is
/// the pixel's own red, green and blue.
pub proof fn lemma_inside_capture_is_pixel(cache: ScreenshotCache, x: int, y: int)
    requires
        cache.is_whole(),
        0 <= x < cache.width,
        0 <= y < cache.height,
    ensures
        (y * cache.width + x) * 3 + 2 < cache.data@.len(),
        cache.pixel(x, y) == rgb(
            cache.data@[(y * cache.width + x) * 3],
            cache.data@[(y * cache.width + x) * 3 + 1],
            cache.data@[(y * cache.width + x) * 3 + 2],
        ),
{
    assert((y * cache.width + x) * 3 + 2 < 3 * cache.width * cache.height) by (nonlinear_arith)
        requires
            0 <= x < cache.width,
            0 <= y < cache.height,
    ;
}

/// A capture that was made of the raw pixels of a whole rectangle has, at
/// each place inside the rectangle, the colour of the raw pixel of that place
/// under the display's channel masks.
pub proof fn lemma_captured_pixel_is_masked(
    cache: ScreenshotCache,
    pixels: Seq<u64>,
    masks: ChannelMasks,
    x: int,
    y: int,
)
    requires
        is_rgb_of(cache.data@, pixels, masks),
        pixels.len() == cache.width * cache.height,
        0 <= x < cache.width,
        0 <= y < cache.height,
    ensures
        0 <= y * cache.width + x < pixels.len(),
        cache.pixel(x, y) == masked_color(pixels[y * cache.width + x], masks),
{
    let at = y * cache.width + x;
    assert(0 <= at < cache.width * cache.height) by (nonlinear_arith)
        requires
            at == y * cache.width + x,
            0 <= x < cache.width,
            0 <= y < cache.height,
    ;
    assert((y * cache.width + x) * 3 == 3 * at);
    assert(cache.data@[3 * at] == channel_value(pixels[at], masks.red));
}

/// What a capture of the screen came to: the display server's error handler
/// must not have been called, and there must be an image.
pub fn capture_outcome(error_flagged: bool, image_present: bool) -> (outcome: Result<(), String>)
    ensures
        outcome is Ok <==> !error_flagged && image_present,
        outcome is Err ==> outcome->Err_0@ == "X11 capture failed"@,
{
    if !error_flagged && image_present {
        Ok(())
    } else {
        Err("X11 capture failed".to_owned())
    }
}

/// The position that a pointer query gave, and a failure where its status is
/// zero.
pub fn pointer_from_query(status: i32, root_x: i32, root_y: i32) -> (position: Result<Point, String>)
    ensures
        status != 0 ==> position == Ok::<Point, String>(Point { x: root_x, y: root_y }),
        status == 0 ==> position is Err && position->Err_0@ == "Failed to query pointer"@,
{
    if status == 0 {
        Err("Failed to query pointer".to_owned())
    } else {
        Ok(Point { x: root_x, y: root_y })
    }
}

/// A rectangle of the screen to capture.
#[derive(Debug, Clone, Copy, PartialEq, Eq, Structural)]
pub struct CaptureRect {
    pub x: i32,
    pub y: i32,
    pub width: u32,
    pub height: u32,
}

/// The state of the framebuffer backend: the size of the screen, read once at
/// the start, the captured screen, the failure of the last capture if it
/// failed, and the last reading of the pointer.
#[derive(Debug)]
pub struct LinuxSampler {
    pub screen_width: i32,
    pub screen_height: i32,
    pub screenshot_cache: Option<ScreenshotCache>,
    pub capture_error: Option<String>,
    pub pointer: Option<Point>,
}

impl LinuxSampler {
    /// The backend for a screen of the given size. It cannot start unless the
    /// display was opened and the trial of its capture path went well: `probe`
    /// holds the failure of that trial where it failed.
    pub fn new(display_opened: bool, screen_width: i32, screen_height: i32, probe: Result<(), String>) -> (sampler:
        Result<LinuxSampler, String>)
        ensures
            !display_opened ==> sampler is Err && sampler->Err_0@ == "Failed to open X11 display"@,
            display_opened && probe is Err ==> sampler is Err && sampler->Err_0 == probe->Err_0,
            display_opened && probe is Ok ==> sampler is Ok && {
                let made = sampler->Ok_0;
                &&& made.screen_width == screen_width
                &&& made.screen_height == screen_height
                &&& made.screenshot_cache is None
                &&& made.capture_error is None
                &&& made.pointer is None
            },
    {
        if !display_opened {
            return Err("Failed to open X11 display".to_owned());
        }
        match probe {
            Err(message) => Err(message),
            Ok(()) => Ok(
                LinuxSampler {
                    screen_width,
                    screen_height,
                    screenshot_cache: None,
                    capture_error: None,
                    pointer: None,
                },
            ),
        }
    }

    /// Whether the screen must be captured before the next sample: there is
    /// no capture, or it is more than 50 ms old.
    pub fn needs_refresh(&self, now_millis: u128) -> (refresh: bool)
        ensures
            refresh == match self.screenshot_cache {
                None => true,
                Some(cache) => cache.is_older_than(now_millis, CACHE_WINDOW_MILLIS),
            },
    {
        match &self.screenshot_cache {
            None => true,
            Some(cache) => cache.is_stale(now_millis, CACHE_WINDOW_MILLIS),
        }
    }

    /// The rectangle to capture: the whole screen.
    pub fn capture_rect(&self) -> (rect: CaptureRect)
        ensures
            rect.x == 0,
            rect.y == 0,
            rect.width == if self.screen_width > 0 {
                self.screen_width as int
            } else {
                0
            },
            rect.height == if self.screen_height > 0 {
                self.screen_height as int
            } else {
                0
            },
    {
        CaptureRect {
            x: 0,
            y: 0,
            width: if self.screen_width > 0 {
                self.screen_width as u32
            } else {
                0
            },
            height: if self.screen_height > 0 {
                self.screen_height as u32
            } else {
                0
            },
        }
    }

    /// Takes in a capture: the raw pixels of a rectangle `width` wide and
    /// `height` high, row after row, with the display's channel masks, taken
    /// at `now_millis`. It replaces the earlier capture whole, and clears the
    /// failure of an earlier capture.
    pub fn store_capture(
        &mut self,
        pixels: &[u64],
        masks: ChannelMasks,
        width: u32,
        height: u32,
        now_millis: u128,
    )
        ensures
            final(self).screenshot_cache is Some,
            is_rgb_of(final(self).screenshot_cache->Some_0.data@, pixels@, masks),
            final(self).screenshot_cache->Some_0.width == width,
            final(self).screenshot_cache->Some_0.height == height,
            final(self).screenshot_cache->Some_0.timestamp == now_millis,
            pixels@.len() == width * height ==> final(self).screenshot_cache->Some_0.is_whole(),
            final(self).capture_error is None,
            final(self).screen_width == old(self).screen_width,
            final(self).screen_height == old(self).screen_height,
            final(self).pointer == old(self).pointer,
    {
        let data = rgb_from_pixels(pixels, masks);
        assert(pixels@.len() == width * height ==> data@.len() == 3 * width * height)
            by (nonlinear_arith)
            requires
                data@.len() == 3 * pixels@.len(),
        ;
        self.screenshot_cache = Some(ScreenshotCache { data, width, height, timestamp: now_millis });
        self.capture_error = None;
    }

    /// Takes in a screen that was captured by other means, in place of the
    /// earlier capture, and clears the failure of an earlier capture.
    pub fn store_screenshot(&mut self, screenshot: ScreenshotCache)
        ensures
            final(self).screenshot_cache == Some(screenshot),
            final(self).capture_error is None,
            final(self).screen_width == old(self).screen_width,
            final(self).screen_height == old(self).screen_height,
            final(self).pointer == old(self).pointer,
    {
        self.screenshot_cache = Some(screenshot);
        self.capture_error = None;
    }

    /// Takes in a screenshot that a screenshot tool wrote in the portable
    /// pixmap format, taken at `now_millis`: the header gives the size, and the
    /// bytes after it are the pixels. Bytes that are no such screenshot change
    /// nothing.
    pub fn parse_ppm_screenshot(&mut self, data: &[u8], now_millis: u128) -> (outcome: Result<
        (),
        PpmError,
    >)
        ensures
            header_of(data@) matches Err(error) ==> outcome == Err::<(), PpmError>(error)
                && *final(self) == *old(self),
            header_of(data@) matches Ok(header) ==> {
                &&& outcome is Ok
                &&& final(self).screenshot_cache is Some
                &&& final(self).screenshot_cache->Some_0.width == header.width
                &&& final(self).screenshot_cache->Some_0.height == header.height
                &&& final(self).screenshot_cache->Some_0.data@ == data@.subrange(
                    header.pixels_at as int,
                    data@.len() as int,
                )
                &&& final(self).screenshot_cache->Some_0.timestamp == now_millis
                &&& final(self).capture_error is None
                &&& final(self).screen_width == old(self).screen_width
                &&& final(self).screen_height == old(self).screen_height
                &&& final(self).pointer == old(self).pointer
            },
    {
        match parse_header(data) {
            Err(error) => Err(error),
            Ok(header) => {
                let pixels = slice_to_vec(slice_subrange(data, header.pixels_at, data.len()));
                self.screenshot_cache = Some(
                    ScreenshotCache {
                        data: pixels,
                        width: header.width,
                        height: header.height,
                        timestamp: now_millis,
                    },
                );
                self.capture_error = None;
                Ok(())
            },
        }
    }

    /// Takes in the failure of a capture. The earlier capture stays, but
    /// samples fail with `message` until a capture goes well.
    pub fn capture_failed(&mut self, message: String)
        ensures
            final(self).capture_error == Some(message),
            final(self).screenshot_cache == old(self).screenshot_cache,
            final(self).screen_width == old(self).screen_width,
            final(self).screen_height == old(self).screen_height,
            final(self).pointer == old(self).pointer,
    {
        self.capture_error = Some(message);
    }

    /// Takes in a reading of the pointer: the status of the query and the
    /// position it gave. A status of zero means that the query failed.
    pub fn record_pointer(&mut self, status: i32, root_x: i32, root_y: i32)
        ensures
            final(self).pointer == (if status == 0 {
                None
            } else {
                Some(Point { x: root_x, y: root_y })
            }),
            final(self).screenshot_cache == old(self).screenshot_cache,
            final(self).capture_error == old(self).capture_error,
            final(self).screen_width == old(self).screen_width,
            final(self).screen_height == old(self).screen_height,
    {
        if status == 0 {
            self.pointer = None;
        } else {
            self.pointer = Some(Point { x: root_x, y: root_y });
        }
    }
}

impl PixelSampler for LinuxSampler {
    /// With a capture, and no failure since, the backend answers every query
    /// from that capture.
    open spec fn steady(&self) -> bool {
        self.capture_error is None && self.screenshot_cache is Some
    }

    open spec fn pixel(&self, x: int, y: int) -> Option<Color> {
        match self.screenshot_cache {
            Some(cache) => Some(cache.pixel(x, y)),
            None => None,
        }
    }

    open spec fn cursor(&self) -> Option<Point> {
        self.pointer
    }

    /// The capture's colour at (`x`, `y`), gray outside the capture. The
    /// query fails after a failed capture and without a capture.
    fn sample_pixel(&mut self, x: i32, y: i32) -> (sample: Result<Color, String>)
        ensures
            *final(self) == *old(self),
            old(self).capture_error matches Some(message) ==> sample is Err && sample->Err_0
                == message,
            old(self).capture_error is None && old(self).screenshot_cache is None ==> sample is Err
                && sample->Err_0@ == "No screenshot cached"@,
            old(self).capture_error is None && old(self).screenshot_cache is Some ==> sample
                == Ok::<Color, String>(
                old(self).screenshot_cache->Some_0.pixel(x as int, y as int),
            ),
    {
        if let Some(message) = &self.capture_error {
            return Err(message.clone());
        }
        match &self.screenshot_cache {
            Some(cache) => Ok(cache.color_at(x, y)),
            None => Err("No screenshot cached".to_owned()),
        }
    }

    /// The last reading of the pointer.
    fn get_cursor_position(&self) -> (position: Result<Point, String>)
        ensures
            self.pointer matches Some(point) ==> position == Ok::<Point, String>(point),
            self.pointer is None ==> position is Err && position->Err_0@
                == "Failed to query pointer"@,
    {
        match &self.pointer {
            Some(point) => Ok(Point { x: point.x, y: point.y }),
            None => Err("Failed to query pointer".to_owned()),
        }
    }

    /// The grid around (`center_x`, `center_y`), read from the capture. The
    /// query fails after a failed capture and without a capture.
    fn sample_grid(
        &mut self,
        center_x: i32,
        center_y: i32,
        grid_size: usize,
        scale_hint: ScaleHint,
    ) -> (samples: Result<Vec<Vec<Color>>, String>)
        ensures
            *final(self) == *old(self),
            old(self).capture_error matches Some(message) ==> samples is Err && samples->Err_0
                == message,
            old(self).capture_error is None && old(self).screenshot_cache is None
                ==> samples is Err && samples->Err_0@ == "No screenshot cached"@,
    {
        if let Some(message) = &self.capture_error {
            return Err(message.clone());
        }
        match &self.screenshot_cache {
            None => Err("No screenshot cached".to_owned()),
            Some(cache) => {
                let ghost held = |a: int, b: int| old(self).pixel(a, b);
                let mut samples: Vec<Vec<Color>> = Vec::new();
                let mut row: usize = 0;
                while row < grid_size
                    invariant
                        row <= grid_size,
                        samples@.len() == row,
                        held == |a: int, b: int| Some(cache.pixel(a, b)),
                        forall|r: int|
                            0 <= r < row ==> (#[trigger] samples@[r])@.len() == grid_size,
                        forall|r: int, c: int|
                            0 <= r < row && 0 <= c < grid_size ==> #[trigger] samples@[r]@[c]
                                == grid_cell(held, center_x, center_y, grid_size, r, c),
                    decreases grid_size - row,
                {
                    let mut row_pixels: Vec<Color> = Vec::new();
                    let mut col: usize = 0;
                    while col < grid_size
                        invariant
                            row < grid_size,
                            col <= grid_size,
                            row_pixels@.len() == col,
                            held == |a: int, b: int| Some(cache.pixel(a, b)),
                            forall|c: int|
                                0 <= c < col ==> #[trigger] row_pixels@[c] == grid_cell(
                                    held,
                                    center_x,
                                    center_y,
                                    grid_size,
                                    row as int,
                                    c,
                                ),
                        decreases grid_size - col,
                    {
                        let color = match (
                            cell_target(center_x, col, grid_size),
                            cell_target(center_y, row, grid_size),
                        ) {
                            (Some(x), Some(y)) => cache.color_at(x, y),
                            _ => neutral_gray(),
                        };
                        row_pixels.push(color);
                        col += 1;
                    }
                    samples.push(row_pixels);
                    row += 1;
                }
                Ok(samples)
            },
        }
    }
}

/// The ways to capture the screen, in the order in which they are preferred.
#[derive(Debug, Clone, Copy, PartialEq, Eq, Structural)]
pub enum CaptureMethod {
    /// Read the framebuffer from the display server.
    X11Direct,
    /// Run `grim`.
    Grim,
    /// Run `scrot`.
    Scrot,
    /// Run ImageMagick's `import`.
    ImageMagick,
}

impl CaptureMethod {
    /// The name of the method, as diagnostics show it.
    pub fn name(&self) -> (name: String)
        ensures
            name@ == match self {
                CaptureMethod::X11Direct => "X11Direct"@,
                CaptureMethod::Grim => "Grim"@,
                CaptureMethod::Scrot => "Scrot"@,
                CaptureMethod::ImageMagick => "ImageMagick"@,
            },
    {
        match self {
            CaptureMethod::X11Direct => "X11Direct".to_owned(),
            CaptureMethod::Grim => "Grim".to_owned(),
            CaptureMethod::Scrot => "Scrot".to_owned(),
            CaptureMethod::ImageMagick => "ImageMagick".to_owned(),
        }
    }
}

/// The capture method for a system on which the direct capture works or not,
/// and on which each of the three screenshot tools is installed or not: the
/// first that is there, and the direct capture where none is.
pub fn detect_capture_method(x11_direct: bool, grim: bool, scrot: bool, import: bool) -> (method:
    CaptureMethod)
    ensures
        method == if x11_direct {
            CaptureMethod::X11Direct
        } else if grim {
            CaptureMethod::Grim
        } else if scrot {
            CaptureMethod::Scrot
        } else if import {
            CaptureMethod::ImageMagick
        } else {
            CaptureMethod::X11Direct
        },
{
    if x11_direct {
        CaptureMethod::X11Direct
    } else if grim {
        CaptureMethod::Grim
    } else if scrot {
        CaptureMethod::Scrot
    } else if import {
        CaptureMethod::ImageMagick
    } else {
        CaptureMethod::X11Direct
    }
}

/// Whether the backend can start with the capture method `method`, after a
/// trial of the direct capture that came out as `trial` says: the direct
/// capture must have worked, and a screenshot tool stands in for it where one
/// is there.
pub fn capture_probe(trial: Result<(), String>, method: CaptureMethod) -> (probe: Result<(), String>)
    ensures
        method == CaptureMethod::X11Direct ==> probe == trial,
        method != CaptureMethod::X11Direct ==> probe is Ok,
{
    match method {
        CaptureMethod::X11Direct => trial,
        _ => Ok(()),
    }
}

} // verus!
