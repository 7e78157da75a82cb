//! The screenshot-portal backend: whole screenshots that the compositor's
//! portal hands over as image files, decoded to red, green and blue bytes and
//! served for a short while.

use crate::sampler::linux::ScreenshotCache;
use crate::types::{Color, PixelSampler, Point};
use vstd::prelude::*;
use vstd::string::StringExecFns;

verus! {

/// How long a screenshot is served before the next is asked for, in
/// milliseconds.
pub const SCREENSHOT_WINDOW_MILLIS: u128 = 100;

/// The state of the screenshot-portal backend: the last screenshot, the
/// failure of the last request if it failed, and the last reading of the
/// pointer.
#[derive(Debug)]
pub struct WaylandSampler {
    pub screenshot_cache: Option<ScreenshotCache>,
    pub capture_error: Option<String>,
    pub pointer: Option<Point>,
}

impl WaylandSampler {
    /// The backend. It cannot start unless the display was opened, for the
    /// pointer, and the runtime for the portal's requests was built:
    /// `runtime_failure` holds the reason where it was not.
    pub fn new(display_opened: bool, runtime_failure: Option<String>) -> (sampler: Result<
        WaylandSampler,
        String,
    >)
        ensures
            !display_opened ==> sampler is Err && sampler->Err_0@
                == "Failed to open X11 display for cursor tracking"@,
            display_opened && runtime_failure is Some ==> sampler is Err && sampler->Err_0@
                == "Failed to create tokio runtime: "@ + runtime_failure->Some_0@,
            display_opened && runtime_failure is None ==> sampler is Ok && {
                let made = sampler->Ok_0;
                &&& made.screenshot_cache is None
                &&& made.capture_error is None
                &&& made.pointer is None
            },
    {
        if !display_opened {
            return Err("Failed to open X11 display for cursor tracking".to_owned());
        }
        match runtime_failure {
            Some(reason) => {
                let mut message = "Failed to create tokio runtime: ".to_owned();
                message.append(reason.as_str());
                Err(message)
            },
            None => Ok(WaylandSampler { screenshot_cache: None, capture_error: None, pointer: None }),
        }
    }

    /// Whether a screenshot must be asked for before the next sample: there
    /// is none, or it is more than 100 ms old.
    pub fn needs_refresh(&self, now_millis: u128) -> (refresh: bool)
        ensures
            refresh == match self.screenshot_cache {
                None => true,
                Some(cache) => cache.is_older_than(now_millis, SCREENSHOT_WINDOW_MILLIS),
            },
    {
        match &self.screenshot_cache {
            None => true,
            Some(cache) => cache.is_stale(now_millis, SCREENSHOT_WINDOW_MILLIS),
        }
    }

    /// Takes in a screenshot: its red, green and blue bytes, row after row,
    /// and its size, taken at `now_millis`. It replaces the earlier one whole,
    /// and clears the failure of an earlier request.
    pub fn store_screenshot(&mut self, data: Vec<u8>, width: u32, height: u32, now_millis: u128)
        ensures
            final(self).screenshot_cache == Some(
                ScreenshotCache { data, width, height, timestamp: now_millis },
            ),
            final(self).capture_error is None,
            final(self).pointer == old(self).pointer,
    {
        self.screenshot_cache = Some(ScreenshotCache { data, width, height, timestamp: now_millis });
        self.capture_error = None;
    }

    /// Takes in the failure of a request. The earlier screenshot stays, but
    /// samples fail with `message` until a request goes well.
    pub fn capture_failed(&mut self, message: String)
        ensures
            final(self).capture_error == Some(message),
            final(self).screenshot_cache == old(self).screenshot_cache,
            final(self).pointer == old(self).pointer,
    {
        self.capture_error = Some(message);
    }

    /// Takes in a reading of the pointer: the status of the query and the
    /// position it gave. A status of zero means that the query failed.
    pub fn record_pointer(&mut self, status: i32, root_x: i32, root_y: i32)
        ensures
            final(self).pointer == (if status == 0 {
                None
            } else {
                Some(Point { x: root_x, y: root_y })
            }),
            final(self).screenshot_cache == old(self).screenshot_cache,
            final(self).capture_error == old(self).capture_error,
    {
        if status == 0 {
            self.pointer = None;
        } else {
            self.pointer = Some(Point { x: root_x, y: root_y });
        }
    }
}

impl PixelSampler for WaylandSampler {
    /// With a screenshot, and no failure since, the backend answers every
    /// query from that screenshot.
    open spec fn steady(&self) -> bool {
        self.capture_error is None && self.screenshot_cache is Some
    }

    open spec fn pixel(&self, x: int, y: int) -> Option<Color> {
        match self.screenshot_cache {
            Some(cache) => Some(cache.pixel(x, y)),
            None => None,
        }
    }

    open spec fn cursor(&self) -> Option<Point> {
        self.pointer
    }

    /// The screenshot's colour at (`x`, `y`), gray outside the screenshot.
    /// The query fails after a failed request and without a screenshot.
    fn sample_pixel(&mut self, x: i32, y: i32) -> (sample: Result<Color, String>)
        ensures
            *final(self) == *old(self),
            old(self).capture_error matches Some(message) ==> sample is Err && sample->Err_0
                == message,
            old(self).capture_error is None && old(self).screenshot_cache is None ==> sample is Err
                && sample->Err_0@ == "No screenshot cached"@,
            old(self).capture_error is None && old(self).screenshot_cache is Some ==> sample
                == Ok::<Color, String>(
                old(self).screenshot_cache->Some_0.pixel(x as int, y as int),
            ),
    {
        if let Some(message) = &self.capture_error {
            return Err(message.clone());
        }
        match &self.screenshot_cache {
            Some(cache) => Ok(cache.color_at(x, y)),
            None => Err("No screenshot cached".to_owned()),
        }
    }

    /// The last reading of the pointer.
    fn get_cursor_position(&self) -> (position: Result<Point, String>)
        ensures
            self.pointer matches Some(point) ==> position == Ok::<Point, String>(point),
            self.pointer is None ==> position is Err && position->Err_0@
                == "Failed to query pointer"@,
    {
        match &self.pointer {
            Some(point) => Ok(Point { x: point.x, y: point.y }),
            None => Err("Failed to query pointer".to_owned()),
        }
    }
}

} // verus!
