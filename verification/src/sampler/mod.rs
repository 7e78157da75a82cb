//! The capture backends: what each makes of the raw captures that the platform
//! hands it, and which backend a platform gets.

pub mod linux;
pub mod macos;
pub mod ppm;
pub mod wayland;
pub mod wayland_portal;
pub mod windows;

use vstd::prelude::*;

verus! {

/// The platform that the process runs on, with the capture paths that the
/// build has for it.
#[derive(Debug, Clone, Copy, PartialEq, Eq, Structural)]
pub enum Platform {
    MacOS,
    /// `x11` and `wayland` say which of the two capture paths were built in.
    Linux { x11: bool, wayland: bool },
    Windows,
    /// Any other platform: there is no backend for it.
    Other,
}

/// A capture backend.
#[derive(Debug, Clone, Copy, PartialEq, Eq, Structural)]
pub enum BackendKind {
    /// Images of the window list.
    MacOS,
    /// Direct reads of the framebuffer.
    X11,
    /// The compositor's portal and its video stream.
    WaylandPortal,
    /// Block copies from the desktop's device context.
    Windows,
}

/// How the start of a backend went.
#[derive(Debug)]
pub enum InitOutcome {
    /// It is ready to sample.
    Ready,
    /// It could not be constructed: the capability is not there.
    Unavailable(String),
    /// It was constructed, and was then refused the permission to capture.
    Denied(String),
}

/// What the selector does next.
#[derive(Debug)]
pub enum Selection {
    /// Start this backend and report how it went.
    Try(BackendKind),
    /// This backend is the one: it serves for the life of the process.
    Use(BackendKind),
    /// No backend can be had.
    Fail(String),
}

/// A `Selection` with its message as a sequence of characters.
pub enum SelectionView {
    Try(BackendKind),
    Use(BackendKind),
    Fail(Seq<char>),
}

impl View for Selection {
    type V = SelectionView;

    open spec fn view(&self) -> SelectionView {
        match self {
            Selection::Try(kind) => SelectionView::Try(*kind),
            Selection::Use(kind) => SelectionView::Use(*kind),
            Selection::Fail(message) => SelectionView::Fail(message@),
        }
    }
}

/// The message of a Linux build on which no capture path is left.
pub open spec fn no_method_text() -> Seq<char> {
    "No screen capture method available. Build with --features x11 or --features wayland"@
}

/// The message for a platform without a backend.
pub open spec fn unsupported_text() -> Seq<char> {
    "Unsupported platform"@
}

/// The first step of the selection on `platform`: the backend to try first,
/// or the failure where the platform has none.
pub open spec fn first_selection(platform: Platform) -> SelectionView {
    match platform {
        Platform::MacOS => SelectionView::Try(BackendKind::MacOS),
        Platform::Windows => SelectionView::Try(BackendKind::Windows),
        Platform::Linux { x11, wayland } => if x11 {
            SelectionView::Try(BackendKind::X11)
        } else if wayland {
            SelectionView::Try(BackendKind::WaylandPortal)
        } else {
            SelectionView::Fail(no_method_text())
        },
        Platform::Other => SelectionView::Fail(unsupported_text()),
    }
}

/// The step after the backend `tried` started as `outcome` says. A backend
/// that is ready is used. On Linux a framebuffer backend that is not ready
/// gives way to the portal backend where that was built in; a portal backend
/// that could not be constructed leaves no method, and one that was refused
/// permission fails with the refusal. On the other platforms the one backend's
/// failure is the failure of the selection.
pub open spec fn next_selection(platform: Platform, tried: BackendKind, outcome: InitOutcome) -> SelectionView {
    match outcome {
        InitOutcome::Ready => SelectionView::Use(tried),
        InitOutcome::Unavailable(message) => match (platform, tried) {
            (Platform::Linux { wayland, .. }, BackendKind::X11) => if wayland {
                SelectionView::Try(BackendKind::WaylandPortal)
            } else {
                SelectionView::Fail(no_method_text())
            },
            (Platform::Linux { .. }, BackendKind::WaylandPortal) => SelectionView::Fail(
                no_method_text(),
            ),
            _ => SelectionView::Fail(message@),
        },
        InitOutcome::Denied(message) => match (platform, tried) {
            (Platform::Linux { wayland, .. }, BackendKind::X11) => if wayland {
                SelectionView::Try(BackendKind::WaylandPortal)
            } else {
                SelectionView::Fail(no_method_text())
            },
            _ => SelectionView::Fail(message@),
        },
    }
}

/// Begins the selection of a backend on `platform`.
pub fn create_sampler(platform: Platform) -> (step: Selection)
    ensures
        step@ == first_selection(platform),
{
    match platform {
        Platform::MacOS => Selection::Try(BackendKind::MacOS),
        Platform::Windows => Selection::Try(BackendKind::Windows),
        Platform::Linux { x11, wayland } => {
            if x11 {
                Selection::Try(BackendKind::X11)
            } else if wayland {
                Selection::Try(BackendKind::WaylandPortal)
            } else {
                Selection::Fail(
                    "No screen capture method available. Build with --features x11 or --features wayland".to_owned(),
                )
            }
        },
        Platform::Other => Selection::Fail("Unsupported platform".to_owned()),
    }
}

/// Goes on with the selection after the backend `tried` started as `outcome`
/// says.
pub fn after_init(platform: Platform, tried: BackendKind, outcome: InitOutcome) -> (step: Selection)
    ensures
        step@ == next_selection(platform, tried, outcome),
{
    match outcome {
        InitOutcome::Ready => Selection::Use(tried),
        InitOutcome::Unavailable(message) => match (platform, tried) {
            (Platform::Linux { x11: _, wayland }, BackendKind::X11) => {
                if wayland {
                    Selection::Try(BackendKind::WaylandPortal)
                } else {
                    Selection::Fail(
                        "No screen capture method available. Build with --features x11 or --features wayland".to_owned(),
                    )
                }
            },
            (Platform::Linux { x11: _, wayland: _ }, BackendKind::WaylandPortal) => Selection::Fail(
                "No screen capture method available. Build with --features x11 or --features wayland".to_owned(),
            ),
            _ => Selection::Fail(message),
        },
        InitOutcome::Denied(message) => match (platform, tried) {
            (Platform::Linux { x11: _, wayland }, BackendKind::X11) => {
                if wayland {
                    Selection::Try(BackendKind::WaylandPortal)
                } else {
                    Selection::Fail(
                        "No screen capture method available. Build with --features x11 or --features wayland".to_owned(),
                    )
                }
            },
            _ => Selection::Fail(message),
        },
    }
}

/// A backend is used only when it has reported that it is ready, and it is
/// then the one that was tried.
pub proof fn lemma_used_backend_is_ready(platform: Platform, tried: BackendKind, outcome: InitOutcome)
    ensures
        next_selection(platform, tried, outcome) is Use <==> outcome is Ready,
        next_selection(platform, tried, outcome) matches SelectionView::Use(kind) ==> kind
            == tried,
{
}

/// The selection never goes back: the backend to try after another is the
/// portal backend after the framebuffer backend on Linux, and nothing else.
pub proof fn lemma_selection_moves_down(platform: Platform, tried: BackendKind, outcome: InitOutcome)
    ensures
        next_selection(platform, tried, outcome) matches SelectionView::Try(next) ==> {
            &&& platform matches Platform::Linux { wayland, .. }
            &&& wayland
            &&& tried == BackendKind::X11
            &&& next == BackendKind::WaylandPortal
        },
{
}

} // verus!
