//! The compositor portal backend: frames that arrive over a video stream in
//! BGRA order, the permission that the stream needs, and the pixels read from
//! the one frame that is kept.

use crate::types::{cell_target, gray, neutral_gray, rgb, Color, PixelSampler, Point, ScaleHint};
use vstd::prelude::*;
use vstd::slice::{slice_subrange, slice_to_vec};

verus! {

/// What is known of the frames of a video stream: their size in pixels and
/// the number of bytes from one row to the next.
#[derive(Debug, Clone, Copy)]
pub struct VideoFormat {
    pub width: u32,
    pub height: u32,
    pub stride: u64,
}

impl VideoFormat {
    /// The format of frames of the given size whose rows follow each other
    /// without padding, four bytes to a pixel.
    pub fn packed(width: u32, height: u32) -> (format: VideoFormat)
        ensures
            format.width == width,
            format.height == height,
            format.stride == 4 * width,
    {
        VideoFormat { width, height, stride: 4 * (width as u64) }
    }
}

/// One captured frame: rows of pixels, each pixel four bytes in the order
/// blue, green, red, alpha, and `stride` bytes from one row to the next.
#[derive(Debug)]
pub struct FrameBuffer {
    pub data: Vec<u8>,
    pub width: u32,
    pub height: u32,
    pub stride: u64,
}

impl FrameBuffer {
    /// The colour that the frame has at (`x`, `y`): gray outside the frame and
    /// where the data ends before the pixel does, else the pixel's red, green
    /// and blue bytes.
    pub open spec fn pixel(&self, x: int, y: int) -> Color {
        let offset = y * self.stride + x * 4;
        if x < 0 || y < 0 || x >= self.width || y >= self.height {
            gray()
        } else if offset + 3 >= self.data@.len() {
            gray()
        } else {
            rgb(self.data@[offset + 2], self.data@[offset + 1], self.data@[offset])
        }
    }

    /// The colour at (`x`, `y`).
    pub fn color_at(&self, x: i32, y: i32) -> (color: Color)
        ensures
            color == self.pixel(x as int, y as int),
    {
        if x < 0 || y < 0 {
            return neutral_gray();
        }
        if x as u32 >= self.width || y as u32 >= self.height {
            return neutral_gray();
        }
        assert(y * self.stride <= 0x7fff_ffff * 0xffff_ffff_ffff_ffff) by (nonlinear_arith)
            requires
                0 <= y <= 0x7fff_ffff,
                0 <= self.stride <= 0xffff_ffff_ffff_ffff,
        ;
        let offset: u128 = (y as u128) * (self.stride as u128) + (x as u128) * 4;
        if offset + 3 >= self.data.len() as u128 {
            return neutral_gray();
        }
        let at: usize = offset as usize;
        Color::new(self.data[at + 2], self.data[at + 1], self.data[at])
    }
}

/// No frame has a pixel outside its own size: what is asked for there is
/// gray.
pub proof fn lemma_outside_frame_is_gray(frame: FrameBuffer, x: int, y: int)
    requires
        x < 0 || y < 0 || x >= frame.width || y >= frame.height,
    ensures
        frame.pixel(x, y) == gray(),
{
}

/// The format of a frame of `chunk_size` bytes: the one that the stream
/// announced, or, where it announced none, unpadded rows of the size that is
/// estimated from the number of pixels.
pub fn format_or_estimate(format: Option<VideoFormat>, chunk_size: usize) -> (resolved: VideoFormat)
    ensures
        format matches Some(announced) ==> resolved == announced,
        format is None ==> exists|index: int| #[trigger]
            is_estimate(index, chunk_size as int / 4) && resolved.width == common_resolutions()[index].0
                && resolved.height == common_resolutions()[index].1 && resolved.stride == 4
                * resolved.width,
{
    match format {
        Some(announced) => announced,
        None => {
            let (width, height) = estimate_dimensions(chunk_size / 4);
            VideoFormat::packed(width, height)
        },
    }
}

/// Whether a chunk of `chunk_size` bytes, mapped as `mapped_len` bytes and
/// described by `format`, is a frame to keep: it is not empty, it is mapped
/// whole, and its format is known and has no side of zero.
pub open spec fn is_usable_chunk(mapped_len: nat, chunk_size: usize, format: Option<VideoFormat>) -> bool {
    &&& chunk_size != 0
    &&& mapped_len >= chunk_size
    &&& format matches Some(known)
    &&& known.width > 0
    &&& known.height > 0
}

/// The frame that a chunk of a stream's buffer holds: the first `chunk_size`
/// of the mapped bytes under the given format, and none where the chunk is not
/// usable.
pub fn frame_from_chunk(mapped: &[u8], chunk_size: usize, format: Option<VideoFormat>) -> (frame:
    Option<FrameBuffer>)
    ensures
        frame is Some <==> is_usable_chunk(mapped@.len(), chunk_size, format),
        frame matches Some(kept) ==> {
            &&& kept.data@ == mapped@.subrange(0, chunk_size as int)
            &&& kept.width == format->Some_0.width
            &&& kept.height == format->Some_0.height
            &&& kept.stride == format->Some_0.stride
        },
{
    if chunk_size == 0 || mapped.len() < chunk_size {
        return None;
    }
    match format {
        Some(known) => {
            if known.width > 0 && known.height > 0 {
                let data = slice_to_vec(slice_subrange(mapped, 0, chunk_size));
                Some(
                    FrameBuffer {
                        data,
                        width: known.width,
                        height: known.height,
                        stride: known.stride,
                    },
                )
            } else {
                None
            }
        },
        None => None,
    }
}

/// What the portal backend asks of its driver before pixels can be had.
#[derive(Debug)]
pub enum PermissionStep {
    /// The stream is known: nothing to ask.
    Granted,
    /// Ask the permission broker for a stream, with the token of an earlier
    /// grant where there is one.
    Ask { restore_token: Option<String> },
}

/// What the portal backend asks of its driver before it samples.
#[derive(Debug, Clone, Copy, PartialEq, Eq, Structural)]
pub enum CaptureStep {
    /// The session's frame has been taken: sample from it.
    Ready,
    /// Take one frame from the stream of the given node.
    Capture { node_id: u32 },
}

/// The state of the portal backend: the stream that the permission broker
/// granted, the token that lets the grant be renewed without a prompt, the one
/// frame that all samples of the session are read from, and the last reading of
/// the pointer.
#[derive(Debug)]
pub struct WaylandPortalSampler {
    pub screenshot_buffer: Option<FrameBuffer>,
    pub pipewire_node_id: Option<u32>,
    pub restore_token: Option<String>,
    pub screenshot_captured: bool,
    pub pointer: Option<Point>,
}

impl WaylandPortalSampler {
    /// A backend without permission and without a frame, which holds the
    /// restore token that was found in local state, if one was.
    pub fn new(restore_token: Option<String>) -> (sampler: WaylandPortalSampler)
        ensures
            sampler.screenshot_buffer is None,
            sampler.pipewire_node_id is None,
            sampler.restore_token == restore_token,
            !sampler.screenshot_captured,
            sampler.pointer is None,
    {
        WaylandPortalSampler {
            screenshot_buffer: None,
            pipewire_node_id: None,
            restore_token,
            screenshot_captured: false,
            pointer: None,
        }
    }

    /// Whether the broker must be asked, and with which token.
    pub fn request_permission(&self) -> (step: PermissionStep)
        ensures
            self.pipewire_node_id is Some ==> step is Granted,
            self.pipewire_node_id is None ==> step is Ask && (self.restore_token is None
                <==> step->restore_token is None) && (self.restore_token matches Some(token)
                ==> step->restore_token->Some_0@ == token@),
    {
        match self.pipewire_node_id {
            Some(_) => PermissionStep::Granted,
            None => {
                let restore_token = match &self.restore_token {
                    Some(token) => Some(token.clone()),
                    None => None,
                };
                PermissionStep::Ask { restore_token }
            },
        }
    }

    /// Takes in the broker's answer: the nodes of the streams it granted, and
    /// the new restore token where it gave one. With no stream the grant fails
    /// and nothing changes. Otherwise the first stream is kept, a new token
    /// replaces the old one, and the token to write to local state, if any, is
    /// returned.
    pub fn permission_granted(&mut self, stream_nodes: &Vec<u32>, new_token: Option<String>) -> (saved:
        Result<Option<String>, String>)
        ensures
            stream_nodes@.len() == 0 ==> saved is Err && saved->Err_0@
                == "No PipeWire streams available"@ && *final(self) == *old(self),
            stream_nodes@.len() > 0 ==> {
                &&& saved is Ok
                &&& final(self).pipewire_node_id == Some(stream_nodes@[0])
                &&& final(self).screenshot_buffer == old(self).screenshot_buffer
                &&& final(self).screenshot_captured == old(self).screenshot_captured
                &&& final(self).pointer == old(self).pointer
                &&& new_token is None ==> saved->Ok_0 is None && final(self).restore_token == old(
                    self,
                ).restore_token
                &&& new_token matches Some(token) ==> saved->Ok_0 is Some && saved->Ok_0->Some_0@
                    == token@ && final(self).restore_token == Some(token)
            },
    {
        if stream_nodes.len() == 0 {
            return Err("No PipeWire streams available".to_owned());
        }
        let node_id = stream_nodes[0];
        self.pipewire_node_id = Some(node_id);
        match new_token {
            Some(token) => {
                let copy = token.clone();
                self.restore_token = Some(token);
                Ok(Some(copy))
            },
            None => Ok(None),
        }
    }

    /// Whether a frame must be taken before sampling, and from which node. It
    /// cannot be taken before permission was granted.
    pub fn capture_step(&self) -> (step: Result<CaptureStep, String>)
        ensures
            self.screenshot_captured ==> step == Ok::<CaptureStep, String>(CaptureStep::Ready),
            !self.screenshot_captured && self.pipewire_node_id is Some ==> step == Ok::<
                CaptureStep,
                String,
            >(CaptureStep::Capture { node_id: self.pipewire_node_id->Some_0 }),
            !self.screenshot_captured && self.pipewire_node_id is None ==> step is Err
                && step->Err_0@
                == "Screen capture not initialized - call request_permission first"@,
    {
        if self.screenshot_captured {
            return Ok(CaptureStep::Ready);
        }
        match self.pipewire_node_id {
            Some(node_id) => Ok(CaptureStep::Capture { node_id }),
            None => Err(
                "Screen capture not initialized - call request_permission first".to_owned(),
            ),
        }
    }

    /// Keeps `frame` as the session's frame, in place of any earlier one.
    pub fn store_frame(&mut self, frame: FrameBuffer)
        ensures
            final(self).screenshot_buffer == Some(frame),
            final(self).screenshot_captured,
            final(self).pipewire_node_id == old(self).pipewire_node_id,
            final(self).restore_token == old(self).restore_token,
            final(self).pointer == old(self).pointer,
    {
        self.screenshot_buffer = Some(frame);
        self.screenshot_captured = true;
    }

    /// Takes in a reading of the pointer: the status of the query and the
    /// position it gave. A status of zero means that the query failed.
    pub fn record_pointer(&mut self, status: i32, root_x: i32, root_y: i32)
        ensures
            final(self).pointer == pointer_reading(status, root_x, root_y),
            final(self).screenshot_buffer == old(self).screenshot_buffer,
            final(self).screenshot_captured == old(self).screenshot_captured,
            final(self).pipewire_node_id == old(self).pipewire_node_id,
            final(self).restore_token == old(self).restore_token,
    {
        if status == 0 {
            self.pointer = None;
        } else {
            self.pointer = Some(Point { x: root_x, y: root_y });
        }
    }
}

/// The position that a pointer query gave, and none where its status says
/// that it failed.
pub open spec fn pointer_reading(status: i32, root_x: i32, root_y: i32) -> Option<Point> {
    if status == 0 {
        None
    } else {
        Some(Point { x: root_x, y: root_y })
    }
}

impl PixelSampler for WaylandPortalSampler {
    /// With a frame the backend answers every query from it.
    open spec fn steady(&self) -> bool {
        self.screenshot_buffer is Some
    }

    open spec fn pixel(&self, x: int, y: int) -> Option<Color> {
        match self.screenshot_buffer {
            Some(frame) => Some(frame.pixel(x, y)),
            None => None,
        }
    }

    open spec fn cursor(&self) -> Option<Point> {
        self.pointer
    }

    /// The frame's colour at (`x`, `y`), gray outside the frame. Without a
    /// frame the query fails.
    fn sample_pixel(&mut self, x: i32, y: i32) -> (sample: Result<Color, String>)
        ensures
            *final(self) == *old(self),
            old(self).screenshot_buffer matches Some(frame) ==> sample == Ok::<Color, String>(
                frame.pixel(x as int, y as int),
            ),
            old(self).screenshot_buffer is None ==> sample is Err && sample->Err_0@
                == "No screenshot available"@,
    {
        match &self.screenshot_buffer {
            Some(frame) => Ok(frame.color_at(x, y)),
            None => Err("No screenshot available".to_owned()),
        }
    }

    /// The last reading of the pointer.
    fn get_cursor_position(&self) -> (position: Result<Point, String>)
        ensures
            self.pointer matches Some(point) ==> position == Ok::<Point, String>(point),
            self.pointer is None ==> position is Err && position->Err_0@
                == "Failed to query pointer"@,
    {
        match &self.pointer {
            Some(point) => Ok(Point { x: point.x, y: point.y }),
            None => Err("Failed to query pointer".to_owned()),
        }
    }

    /// The grid around (`center_x`, `center_y`), read from the frame. Without
    /// a frame the query fails.
    fn sample_grid(
        &mut self,
        center_x: i32,
        center_y: i32,
        grid_size: usize,
        scale_hint: ScaleHint,
    ) -> (samples: Result<Vec<Vec<Color>>, String>)
        ensures
            *final(self) == *old(self),
            old(self).screenshot_buffer is None ==> samples is Err && samples->Err_0@
                == "No screenshot available"@,
    {
        match &self.screenshot_buffer {
            None => Err("No screenshot available".to_owned()),
            Some(frame) => {
                let ghost held = |a: int, b: int| old(self).pixel(a, b);
                let mut samples: Vec<Vec<Color>> = Vec::new();
                let mut row: usize = 0;
                while row < grid_size
                    invariant
                        row <= grid_size,
                        samples@.len() == row,
                        held == |a: int, b: int| Some(frame.pixel(a, b)),
                        forall|r: int|
                            0 <= r < row ==> (#[trigger] samples@[r])@.len() == grid_size,
                        forall|r: int, c: int|
                            0 <= r < row && 0 <= c < grid_size ==> #[trigger] samples@[r]@[c]
                                == crate::types::grid_cell(
                                held,
                                center_x,
                                center_y,
                                grid_size,
                                r,
                                c,
                            ),
                    decreases grid_size - row,
                {
                    let mut row_pixels: Vec<Color> = Vec::new();
                    let mut col: usize = 0;
                    while col < grid_size
                        invariant
                            row < grid_size,
                            col <= grid_size,
                            row_pixels@.len() == col,
                            held == |a: int, b: int| Some(frame.pixel(a, b)),
                            forall|c: int|
                                0 <= c < col ==> #[trigger] row_pixels@[c]
                                    == crate::types::grid_cell(
                                    held,
                                    center_x,
                                    center_y,
                                    grid_size,
                                    row as int,
                                    c,
                                ),
                        decreases grid_size - col,
                    {
                        let color = match (
                            cell_target(center_x, col, grid_size),
                            cell_target(center_y, row, grid_size),
                        ) {
                            (Some(x), Some(y)) => frame.color_at(x, y),
                            _ => neutral_gray(),
                        };
                        row_pixels.push(color);
                        col += 1;
                    }
                    samples.push(row_pixels);
                    row += 1;
                }
                Ok(samples)
            },
        }
    }
}

/// What to do next while waiting for the one frame of a capture.
#[derive(Debug, Clone, Copy, PartialEq, Eq, Structural)]
pub enum WaitStep {
    /// The frame is there.
    Done,
    /// No frame came in time: the capture fails.
    TimedOut,
    /// Let the stream run a little longer.
    Iterate,
}

/// How long a capture waits for its frame, in nanoseconds: five seconds.
pub const FRAME_WAIT_NANOS: u128 = 5_000_000_000;

/// The next step of the wait for a frame, `elapsed_nanos` after the stream was
/// connected.
pub fn wait_step(frame_captured: bool, elapsed_nanos: u128) -> (step: WaitStep)
    ensures
        step == if frame_captured {
            WaitStep::Done
        } else if elapsed_nanos > FRAME_WAIT_NANOS {
            WaitStep::TimedOut
        } else {
            WaitStep::Iterate
        },
{
    if frame_captured {
        WaitStep::Done
    } else if elapsed_nanos > FRAME_WAIT_NANOS {
        WaitStep::TimedOut
    } else {
        WaitStep::Iterate
    }
}

/// The screen sizes that a frame without format information is matched
/// against, largest first.
pub open spec fn common_resolutions() -> Seq<(u32, u32)> {
    seq![
        (3840u32, 2160u32),
        (2560u32, 1440u32),
        (1920u32, 1080u32),
        (1680u32, 1050u32),
        (1600u32, 900u32),
        (1440u32, 900u32),
        (1366u32, 768u32),
        (1280u32, 1024u32),
        (1280u32, 800u32),
        (1280u32, 720u32),
        (1024u32, 768u32),
    ]
}

/// Whether `root` is the square root of `n`, rounded down.
pub open spec fn is_integer_sqrt(root: int, n: int) -> bool {
    0 <= root && root * root <= n < (root + 1) * (root + 1)
}

/// A number has one square root, rounded down, and no other.
pub proof fn lemma_integer_sqrt_is_unique(first: int, second: int, n: int)
    requires
        is_integer_sqrt(first, n),
        is_integer_sqrt(second, n),
    ensures
        first == second,
{
    assert(first == second) by (nonlinear_arith)
        requires
            0 <= first,
            0 <= second,
            first * first <= n,
            n < (first + 1) * (first + 1),
            second * second <= n,
            n < (second + 1) * (second + 1),
    ;
}

/// Whether a screen of size `resolution` has `pixel_count` pixels, the count
/// taken modulo 2^32.
pub open spec fn has_pixel_count(resolution: (u32, u32), pixel_count: int) -> bool {
    resolution.0 * resolution.1 == pixel_count % 0x1_0000_0000
}

/// How far the width of `resolution` is from `root`.
pub open spec fn width_gap(resolution: (u32, u32), root: int) -> int {
    if resolution.0 >= root {
        resolution.0 - root
    } else {
        root - resolution.0
    }
}

/// Whether `index` is the first of the common resolutions with `pixel_count`
/// pixels.
pub open spec fn is_first_exact(index: int, pixel_count: int) -> bool {
    &&& 0 <= index < common_resolutions().len()
    &&& has_pixel_count(common_resolutions()[index], pixel_count)
    &&& forall|j: int| 0 <= j < index ==> !has_pixel_count(#[trigger] common_resolutions()[j], pixel_count)
}

/// Whether `index` is the first of the common resolutions whose width is
/// nearest to `root`.
pub open spec fn is_first_nearest(index: int, root: int) -> bool {
    &&& 0 <= index < common_resolutions().len()
    &&& forall|j: int|
        0 <= j < common_resolutions().len() ==> width_gap(
            #[trigger] common_resolutions()[j],
            root,
        ) >= width_gap(common_resolutions()[index], root)
    &&& forall|j: int|
        0 <= j < index ==> width_gap(#[trigger] common_resolutions()[j], root) > width_gap(
            common_resolutions()[index],
            root,
        )
}

/// Whether `index` is the common resolution that stands for a frame of
/// `pixel_count` pixels: the first with exactly that many pixels, or, where
/// none has, the first whose width is nearest to the square root of the count.
pub open spec fn is_estimate(index: int, pixel_count: int) -> bool {
    ||| is_first_exact(index, pixel_count)
    ||| {
        &&& forall|j: int|
            0 <= j < common_resolutions().len() ==> !has_pixel_count(
                #[trigger] common_resolutions()[j],
                pixel_count,
            )
        &&& exists|root: int| is_integer_sqrt(root, pixel_count) && is_first_nearest(index, root)
    }
}

fn resolution_at(index: usize) -> (resolution: (u32, u32))
    requires
        index < 11,
    ensures
        resolution == common_resolutions()[index as int],
{
    if index == 0 {
        (3840, 2160)
    } else if index == 1 {
        (2560, 1440)
    } else if index == 2 {
        (1920, 1080)
    } else if index == 3 {
        (1680, 1050)
    } else if index == 4 {
        (1600, 900)
    } else if index == 5 {
        (1440, 900)
    } else if index == 6 {
        (1366, 768)
    } else if index == 7 {
        (1280, 1024)
    } else if index == 8 {
        (1280, 800)
    } else if index == 9 {
        (1280, 720)
    } else {
        (1024, 768)
    }
}

/// The square root of `n`, rounded down.
pub fn integer_sqrt(n: u64) -> (root: u32)
    ensures
        is_integer_sqrt(root as int, n as int),
{
    let mut low: u64 = 0;
    let mut high: u64 = 0x1_0000_0000;
    while high - low > 1
        invariant
            low < high <= 0x1_0000_0000,
            low * low <= n < high * high,
        decreases high - low,
    {
        let mid: u64 = low + (high - low) / 2;
        assert(mid * mid <= 0xffff_ffff * 0xffff_ffff) by (nonlinear_arith)
            requires
                0 <= mid <= 0xffff_ffff,
        ;
        if mid * mid <= n {
            low = mid;
        } else {
            high = mid;
        }
    }
    low as u32
}

/// The screen size taken for a frame of `pixel_count` pixels that came without
/// format information.
pub fn estimate_dimensions(pixel_count: usize) -> (dimensions: (u32, u32))
    ensures
        exists|index: int| #[trigger]
            is_estimate(index, pixel_count as int) && dimensions == common_resolutions()[index],
{
    let count: u64 = (pixel_count as u64) % 0x1_0000_0000;
    let mut index: usize = 0;
    while index < 11
        invariant
            index <= 11,
            count == pixel_count as int % 0x1_0000_0000,
            forall|j: int|
                0 <= j < index ==> !has_pixel_count(
                    #[trigger] common_resolutions()[j],
                    pixel_count as int,
                ),
        decreases 11 - index,
    {
        let (w, h) = resolution_at(index);
        assert(w * h <= 3840 * 2160) by (nonlinear_arith)
            requires
                0 <= w <= 3840,
                0 <= h <= 2160,
        ;
        if (w as u64) * (h as u64) == count {
            assert(is_first_exact(index as int, pixel_count as int));
            assert(is_estimate(index as int, pixel_count as int));
            return (w, h);
        }
        index += 1;
    }
    let root: u32 = integer_sqrt(pixel_count as u64);
    let mut best: usize = 0;
    let mut best_gap: u32 = gap_to(resolution_at(0).0, root);
    let mut next: usize = 1;
    while next < 11
        invariant
            1 <= next <= 11,
            best < next,
            best_gap == width_gap(common_resolutions()[best as int], root as int),
            forall|j: int|
                0 <= j < next ==> width_gap(#[trigger] common_resolutions()[j], root as int)
                    >= best_gap,
            forall|j: int|
                0 <= j < best ==> width_gap(#[trigger] common_resolutions()[j], root as int)
                    > best_gap,
        decreases 11 - next,
    {
        let gap = gap_to(resolution_at(next).0, root);
        if gap < best_gap {
            best = next;
            best_gap = gap;
        }
        next += 1;
    }
    assert(is_first_nearest(best as int, root as int));
    assert(is_estimate(best as int, pixel_count as int));
    resolution_at(best)
}

fn gap_to(width: u32, root: u32) -> (gap: u32)
    ensures
        gap == width_gap((width, 0u32), root as int),
{
    if width >= root {
        width - root
    } else {
        root - width
    }
}

} // verus!
