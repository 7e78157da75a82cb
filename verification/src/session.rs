//! The sampling session: what one tick of the fixed-rate loop makes of the
//! backend's answers, how the loop reacts to control messages, and how long it
//! sleeps. The loop itself, with its clock and its output stream, belongs to
//! the driver.

use crate::types::{
    cell_from_sample, color_data_of, color_or_gray, gray, grid_cell, is_grid_of, is_square,
    neutral_gray, Color, ColorData, ColorDataView, Command, PixelData, PixelSampler, Point,
    ScaleHint,
};
use vstd::prelude::*;

verus! {

/// What the loop found when it looked for a control message.
#[derive(Debug)]
pub enum ControlPoll {
    /// A command was waiting.
    Message(Command),
    /// Nothing was waiting.
    Empty,
    /// The sender is gone: no command will ever come.
    Disconnected,
}

/// What a control message does to the session.
#[derive(Debug, Clone, Copy, PartialEq, Eq, Structural)]
pub enum ControlOutcome {
    /// Nothing was waiting: go on sampling.
    Continue,
    /// The grid size for the next tick was replaced: go on sampling.
    GridUpdated,
    /// A start came while sampling: it is ignored.
    StartIgnored,
    /// A stop came: the session ends.
    Stopped,
    /// The sender is gone: the session ends as on a stop.
    Disconnected,
}

impl ControlOutcome {
    /// Whether the session ends.
    pub open spec fn ends_session(self) -> bool {
        self == ControlOutcome::Stopped || self == ControlOutcome::Disconnected
    }

    /// Whether the session ends.
    pub fn is_final(&self) -> (ends: bool)
        ensures
            ends == self.ends_session(),
    {
        match self {
            ControlOutcome::Stopped => true,
            ControlOutcome::Disconnected => true,
            _ => false,
        }
    }
}

/// How the loop spends the rest of a tick.
#[derive(Debug, Clone, Copy, PartialEq, Eq, Structural)]
pub enum Pacing {
    /// The tick was quick: sleep for the rest of the period, in nanoseconds.
    Sleep { nanos: u128 },
    /// The tick took the whole period or more: do not sleep. `warn` says
    /// whether this slow frame is one to mention on the diagnostic channel.
    Overrun { warn: bool },
}

/// What the loop reports after a tick.
#[derive(Debug, Clone, Copy, PartialEq, Eq, Structural)]
pub struct TickReport {
    /// Whether the rate summary is due on the diagnostic channel.
    pub summary_due: bool,
    /// The slow frames to mention in that summary; zero where there is
    /// nothing to mention.
    pub slow_frames: u64,
    /// Sleep or go on.
    pub pacing: Pacing,
}

/// The state of one sampling session.
#[derive(Debug)]
pub struct SamplingSession {
    /// The side of the grid that the next tick samples.
    pub grid_size: usize,
    /// Samples per second, above zero.
    pub sample_rate: u64,
    /// The last cursor position that a tick used; (-1, -1) before the first.
    pub last_cursor: Point,
    /// Ticks so far.
    pub sample_count: u64,
    /// Slow frames since the last summary that mentioned them.
    pub slow_frame_count: u64,
}

/// The ticks between two rate summaries.
pub const SUMMARY_EVERY: u64 = 120;

/// The slow frames between two warnings, after the first.
pub const WARN_EVERY: u64 = 30;

/// The period of a loop at `sample_rate` samples per second, in microseconds.
pub open spec fn period_micros(sample_rate: u64) -> int {
    1_000_000int / (sample_rate as int)
}

/// `count + 1`, starting again at zero after the largest count.
pub open spec fn next_count(count: u64) -> u64 {
    if count == u64::MAX {
        0
    } else {
        (count + 1) as u64
    }
}

/// The wire form of a row of colours.
pub open spec fn wire_row(row: Seq<Color>) -> Seq<ColorDataView> {
    Seq::new(row.len(), |col: int| color_data_of(row[col]))
}

/// The wire form of a grid of colours.
pub open spec fn wire_grid(samples: Seq<Vec<Color>>) -> Seq<Seq<ColorDataView>> {
    Seq::new(samples.len(), |row: int| wire_row(samples[row]@))
}

/// Whether `samples` is the grid of side `size` that is gray all over.
pub open spec fn is_gray_grid(samples: Seq<Vec<Color>>, size: usize) -> bool {
    &&& is_square(samples, size as nat)
    &&& forall|row: int, col: int|
        0 <= row < size && 0 <= col < size ==> #[trigger] samples[row]@[col] == gray()
}

/// The cursor that a tick uses: the backend's reading, or the last known
/// position where the reading failed.
pub open spec fn cursor_or_last(reading: Option<Point>, last: Point) -> Point {
    match reading {
        Some(point) => point,
        None => last,
    }
}

/// The grid of side `size` that is gray all over.
pub fn gray_grid(size: usize) -> (samples: Vec<Vec<Color>>)
    ensures
        is_gray_grid(samples@, size),
{
    let mut samples: Vec<Vec<Color>> = Vec::new();
    let mut row: usize = 0;
    while row < size
        invariant
            row <= size,
            samples@.len() == row,
            forall|r: int| 0 <= r < row ==> (#[trigger] samples@[r])@.len() == size,
            forall|r: int, c: int|
                0 <= r < row && 0 <= c < size ==> #[trigger] samples@[r]@[c] == gray(),
        decreases size - row,
    {
        let mut row_pixels: Vec<Color> = Vec::new();
        let mut col: usize = 0;
        while col < size
            invariant
                col <= size,
                row_pixels@.len() == col,
                forall|c: int| 0 <= c < col ==> #[trigger] row_pixels@[c] == gray(),
            decreases size - col,
        {
            row_pixels.push(neutral_gray());
            col += 1;
        }
        samples.push(row_pixels);
        row += 1;
    }
    samples
}

/// Whether the backend's answer to a grid query is a grid to use: it did not
/// fail, and it is a square of side `size`.
pub open spec fn is_usable_grid(samples: Result<Vec<Vec<Color>>, String>, size: usize) -> bool {
    samples matches Ok(cells) && is_square(cells@, size as nat)
}

/// Whether `samples` is a square grid of side `size`.
pub fn is_square_grid(samples: &Vec<Vec<Color>>, size: usize) -> (square: bool)
    ensures
        square == is_square(samples@, size as nat),
{
    if samples.len() != size {
        return false;
    }
    let mut row: usize = 0;
    while row < size
        invariant
            row <= size,
            samples@.len() == size,
            forall|r: int| 0 <= r < row ==> (#[trigger] samples@[r])@.len() == size,
        decreases size - row,
    {
        if samples[row].len() != size {
            return false;
        }
        row += 1;
    }
    true
}

/// The grid that a tick uses: the backend's grid where it is a square of side
/// `grid_size`, and else, where the backend failed or answered with another
/// shape, the gray grid of side `grid_size`.
pub fn grid_or_gray(samples: Result<Vec<Vec<Color>>, String>, grid_size: usize) -> (grid: Vec<
    Vec<Color>,
>)
    ensures
        is_square(grid@, grid_size as nat),
        is_usable_grid(samples, grid_size) ==> grid == samples->Ok_0,
        !is_usable_grid(samples, grid_size) ==> is_gray_grid(grid@, grid_size),
{
    match samples {
        Ok(cells) => {
            if is_square_grid(&cells, grid_size) {
                cells
            } else {
                gray_grid(grid_size)
            }
        },
        Err(_) => gray_grid(grid_size),
    }
}

/// What one tick sampled: the cursor it used, the colour under the cursor,
/// and the grid around it.
#[derive(Debug)]
pub struct TickSamples {
    pub cursor: Point,
    pub center: Color,
    pub grid: Vec<Vec<Color>>,
}

impl TickSamples {
    /// The tick's frame, stamped with `timestamp`.
    pub fn into_frame(self, timestamp: u64) -> (frame: PixelData)
        ensures
            frame.cursor == self.cursor,
            frame.center@ == color_data_of(self.center),
            frame@.grid == wire_grid(self.grid@),
            frame.timestamp == timestamp,
    {
        assemble_frame(self.cursor, self.center, self.grid, timestamp)
    }
}

/// The frame of one tick, from what the tick sampled.
pub fn assemble_frame(cursor: Point, center: Color, samples: Vec<Vec<Color>>, timestamp: u64) -> (frame:
    PixelData)
    ensures
        frame.cursor == cursor,
        frame.center@ == color_data_of(center),
        frame@.grid == wire_grid(samples@),
        frame.timestamp == timestamp,
{
    let mut grid: Vec<Vec<ColorData>> = Vec::new();
    let mut row: usize = 0;
    while row < samples.len()
        invariant
            row <= samples@.len(),
            grid@.len() == row,
            forall|r: int|
                0 <= r < row ==> crate::types::row_view((#[trigger] grid@[r])@) == wire_row(
                    samples@[r]@,
                ),
        decreases samples@.len() - row,
    {
        let mut wire: Vec<ColorData> = Vec::new();
        let mut col: usize = 0;
        while col < samples[row].len()
            invariant
                row < samples@.len(),
                col <= samples@[row as int]@.len(),
                wire@.len() == col,
                forall|c: int|
                    0 <= c < col ==> (#[trigger] wire@[c])@ == color_data_of(
                        samples@[row as int]@[c],
                    ),
            decreases samples@[row as int]@.len() - col,
        {
            wire.push(ColorData::from(samples[row][col]));
            col += 1;
        }
        assert(crate::types::row_view(wire@) =~= wire_row(samples@[row as int]@));
        grid.push(wire);
        row += 1;
    }
    let frame = PixelData { cursor, center: ColorData::from(center), grid, timestamp };
    assert(frame@.grid =~= wire_grid(samples@));
    frame
}

impl SamplingSession {
    /// Whether the session can pace itself: its rate is above zero.
    pub open spec fn is_valid(&self) -> bool {
        self.sample_rate > 0
    }

    /// A session that samples grids of side `grid_size`, `sample_rate` times a
    /// second. A rate of zero has no period: such a session is refused.
    pub fn start(grid_size: usize, sample_rate: u64) -> (session: Result<SamplingSession, String>)
        ensures
            sample_rate == 0 ==> session is Err && session->Err_0@
                == "Sample rate must be greater than zero"@,
            sample_rate > 0 ==> session == Ok::<SamplingSession, String>(
                SamplingSession {
                    grid_size,
                    sample_rate,
                    last_cursor: Point { x: -1i32, y: -1i32 },
                    sample_count: 0,
                    slow_frame_count: 0,
                },
            ),
    {
        if sample_rate == 0 {
            Err("Sample rate must be greater than zero".to_owned())
        } else {
            Ok(
                SamplingSession {
                    grid_size,
                    sample_rate,
                    last_cursor: Point { x: -1, y: -1 },
                    sample_count: 0,
                    slow_frame_count: 0,
                },
            )
        }
    }

    /// The target period of a tick, in microseconds.
    pub fn interval_micros(&self) -> (micros: u64)
        requires
            self.is_valid(),
        ensures
            micros == period_micros(self.sample_rate),
    {
        1_000_000 / self.sample_rate
    }

    /// The session after a look for a control message: an update replaces the
    /// grid size, and nothing else changes anything.
    pub open spec fn after_poll(self, poll: ControlPoll) -> SamplingSession {
        match poll {
            ControlPoll::Message(Command::UpdateGrid { grid_size }) => SamplingSession {
                grid_size,
                ..self
            },
            _ => self,
        }
    }

    /// What a look for a control message means for the loop.
    pub open spec fn outcome_of(poll: ControlPoll) -> ControlOutcome {
        match poll {
            ControlPoll::Message(Command::UpdateGrid { .. }) => ControlOutcome::GridUpdated,
            ControlPoll::Message(Command::Stop) => ControlOutcome::Stopped,
            ControlPoll::Message(Command::Start { .. }) => ControlOutcome::StartIgnored,
            ControlPoll::Disconnected => ControlOutcome::Disconnected,
            ControlPoll::Empty => ControlOutcome::Continue,
        }
    }

    /// Takes in what the loop found on the control channel at the top of a
    /// tick.
    pub fn on_control(&mut self, poll: ControlPoll) -> (outcome: ControlOutcome)
        ensures
            *final(self) == old(self).after_poll(poll),
            outcome == Self::outcome_of(poll),
    {
        match poll {
            ControlPoll::Message(Command::UpdateGrid { grid_size }) => {
                self.grid_size = grid_size;
                ControlOutcome::GridUpdated
            },
            ControlPoll::Message(Command::Stop) => ControlOutcome::Stopped,
            ControlPoll::Message(Command::Start { .. }) => ControlOutcome::StartIgnored,
            ControlPoll::Disconnected => ControlOutcome::Disconnected,
            ControlPoll::Empty => ControlOutcome::Continue,
        }
    }

    /// The cursor for this tick: the backend's reading, or the last known
    /// position where the reading failed. It becomes the last known position.
    pub fn resolve_cursor(&mut self, reading: Result<Point, String>) -> (cursor: Point)
        ensures
            cursor == match reading {
                Ok(point) => point,
                Err(_) => old(self).last_cursor,
            },
            *final(self) == (SamplingSession { last_cursor: cursor, ..*old(self) }),
    {
        let cursor = match reading {
            Ok(point) => point,
            Err(_) => Point { x: self.last_cursor.x, y: self.last_cursor.y },
        };
        self.last_cursor = Point { x: cursor.x, y: cursor.y };
        cursor
    }

    /// One tick's samples: the cursor is read, then the pixel under it, then
    /// the grid around it, each failure made good as the loop's rules say: a
    /// cursor that cannot be read is the last known one, a pixel that cannot
    /// be sampled is gray, a grid that cannot be sampled, or that comes in
    /// another shape than was asked for, is gray all over.
    /// Whatever the backend does, the grid is square with the session's grid
    /// size, the cursor becomes the last known position, and nothing else of
    /// the session changes. Of a steady backend every sample is stated.
    pub fn sample_tick<S: PixelSampler + ?Sized>(&mut self, sampler: &mut S) -> (samples: TickSamples)
        ensures
            *final(self) == (SamplingSession { last_cursor: samples.cursor, ..*old(self) }),
            is_square(samples.grid@, old(self).grid_size as nat),
            old(sampler).steady() ==> {
                &&& final(sampler).steady()
                &&& forall|a: int, b: int| #[trigger]
                    final(sampler).pixel(a, b) == old(sampler).pixel(a, b)
                &&& final(sampler).cursor() == old(sampler).cursor()
                &&& samples.cursor == cursor_or_last(old(sampler).cursor(), old(self).last_cursor)
                &&& samples.center == color_or_gray(
                    old(sampler).pixel(samples.cursor.x as int, samples.cursor.y as int),
                )
                &&& is_grid_of(
                    samples.grid@,
                    |a: int, b: int| old(sampler).pixel(a, b),
                    samples.cursor.x,
                    samples.cursor.y,
                    old(self).grid_size,
                )
            },
    {
        let reading = sampler.get_cursor_position();
        let cursor = self.resolve_cursor(reading);
        let center = cell_from_sample(sampler.sample_pixel(cursor.x, cursor.y));
        let cells = sampler.sample_grid(cursor.x, cursor.y, self.grid_size, ScaleHint::unity());
        let grid = grid_or_gray(cells, self.grid_size);
        TickSamples { cursor, center, grid }
    }

    /// One tick's frame: the tick's samples in their wire form, with
    /// `timestamp`.
    pub fn sample_frame<S: PixelSampler + ?Sized>(&mut self, sampler: &mut S, timestamp: u64) -> (frame:
        PixelData)
        ensures
            frame.timestamp == timestamp,
            *final(self) == (SamplingSession { last_cursor: frame.cursor, ..*old(self) }),
            frame@.grid.len() == old(self).grid_size,
            forall|row: int|
                0 <= row < old(self).grid_size ==> (#[trigger] frame@.grid[row]).len() == old(
                    self,
                ).grid_size,
            old(sampler).steady() ==> {
                &&& final(sampler).steady()
                &&& forall|a: int, b: int| #[trigger]
                    final(sampler).pixel(a, b) == old(sampler).pixel(a, b)
                &&& frame.cursor == cursor_or_last(old(sampler).cursor(), old(self).last_cursor)
                &&& frame.center@ == color_data_of(
                    color_or_gray(old(sampler).pixel(frame.cursor.x as int, frame.cursor.y as int)),
                )
                &&& forall|row: int, col: int|
                    0 <= row < old(self).grid_size && 0 <= col < old(self).grid_size
                        ==> #[trigger] frame@.grid[row][col] == color_data_of(
                        grid_cell(
                            |a: int, b: int| old(sampler).pixel(a, b),
                            frame.cursor.x,
                            frame.cursor.y,
                            old(self).grid_size,
                            row,
                            col,
                        ),
                    )
            },
    {
        let samples = self.sample_tick(sampler);
        samples.into_frame(timestamp)
    }

    /// The session after a tick that took `elapsed_nanos`: one more sample,
    /// the slow frames cleared by a summary that mentions them, and one more
    /// slow frame where the tick filled its period.
    pub open spec fn after_tick(self, elapsed_nanos: u128) -> SamplingSession {
        let count = next_count(self.sample_count);
        let kept = if count % SUMMARY_EVERY == 0 {
            0
        } else {
            self.slow_frame_count
        };
        let slow = if elapsed_nanos < period_micros(self.sample_rate) * 1000 {
            kept
        } else {
            next_count(kept)
        };
        SamplingSession { sample_count: count, slow_frame_count: slow, ..self }
    }

    /// What the loop does after a tick that took `elapsed_nanos`: the summary
    /// is due every 120 ticks and mentions the slow frames counted until then;
    /// a quick tick sleeps for the rest of its period; a slow one does not
    /// sleep, and warns at the first slow frame and at each thirtieth.
    pub open spec fn report_of(self, elapsed_nanos: u128) -> TickReport {
        let count = next_count(self.sample_count);
        let due = count % SUMMARY_EVERY == 0;
        let period = period_micros(self.sample_rate) * 1000;
        let slow = self.after_tick(elapsed_nanos).slow_frame_count;
        TickReport {
            summary_due: due,
            slow_frames: if due {
                self.slow_frame_count
            } else {
                0
            },
            pacing: if elapsed_nanos < period {
                Pacing::Sleep { nanos: (period - elapsed_nanos) as u128 }
            } else {
                Pacing::Overrun { warn: slow == 1 || slow % WARN_EVERY == 0 }
            },
        }
    }

    /// Closes a tick that took `elapsed_nanos` from its start to the moment
    /// its frame was written.
    pub fn finish_tick(&mut self, elapsed_nanos: u128) -> (report: TickReport)
        requires
            old(self).is_valid(),
        ensures
            *final(self) == old(self).after_tick(elapsed_nanos),
            report == old(self).report_of(elapsed_nanos),
    {
        self.sample_count = self.sample_count.wrapping_add(1);
        let summary_due = self.sample_count % SUMMARY_EVERY == 0;
        let mut slow_frames: u64 = 0;
        if summary_due {
            slow_frames = self.slow_frame_count;
            self.slow_frame_count = 0;
        }
        let period: u128 = (self.interval_micros() as u128) * 1000;
        let pacing = if elapsed_nanos < period {
            Pacing::Sleep { nanos: period - elapsed_nanos }
        } else {
            self.slow_frame_count = self.slow_frame_count.wrapping_add(1);
            Pacing::Overrun {
                warn: self.slow_frame_count == 1 || self.slow_frame_count % WARN_EVERY == 0,
            }
        };
        TickReport { summary_due, slow_frames, pacing }
    }
}

/// A grid update changes the size of the grids that later ticks sample, and
/// nothing but a grid update does: the frames before it have the old size, the
/// frames after it the new one.
pub proof fn lemma_grid_size_follows_updates(session: SamplingSession, poll: ControlPoll)
    ensures
        poll matches ControlPoll::Message(Command::UpdateGrid { grid_size }) ==> session.after_poll(
            poll,
        ).grid_size == grid_size,
        !(poll matches ControlPoll::Message(Command::UpdateGrid { .. })) ==> session.after_poll(
            poll,
        ) == session,
        session.after_poll(poll).last_cursor == session.last_cursor,
        session.after_poll(poll).sample_rate == session.sample_rate,
{
}

/// A session ends on a stop and when the sender is gone, and on nothing else.
pub proof fn lemma_session_ends_on_stop(poll: ControlPoll)
    ensures
        SamplingSession::outcome_of(poll).ends_session() <==> (poll matches ControlPoll::Message(
            Command::Stop,
        ) || poll is Disconnected),
{
}

/// A tick neither sleeps longer than one period nor sleeps at all once the
/// period is used up.
pub proof fn lemma_sleep_is_within_period(session: SamplingSession, elapsed_nanos: u128)
    requires
        session.is_valid(),
    ensures
        session.report_of(elapsed_nanos).pacing matches Pacing::Sleep { nanos } ==> 0 < nanos
            <= period_micros(session.sample_rate) * 1000 && nanos + elapsed_nanos == period_micros(
            session.sample_rate,
        ) * 1000,
        session.report_of(elapsed_nanos).pacing is Sleep <==> elapsed_nanos < period_micros(
            session.sample_rate,
        ) * 1000,
        session.after_tick(elapsed_nanos).grid_size == session.grid_size,
        session.after_tick(elapsed_nanos).last_cursor == session.last_cursor,
{
    assert(0 <= period_micros(session.sample_rate) <= 1_000_000) by (nonlinear_arith)
        requires
            session.sample_rate > 0,
            period_micros(session.sample_rate) == 1_000_000int / (session.sample_rate as int),
    ;
}

} // verus!
