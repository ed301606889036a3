//! The traits that decouple the switcher from any concrete compositor or
//! transport, and the event types it emits toward a visualizer.

use vstd::prelude::*;
use std::sync::mpsc::Sender;
use crate::command::{Command, MonitorInfo, WindowInfo};

verus! {

/// Abstraction over a window manager that can switch workspaces and move
/// windows.
///
/// An implementation might talk to a compositor over IPC, or be a no-op
/// stub used in tests.  Every method may fail; the failure text is
/// surfaced by the switcher as its single window-manager error kind.
pub trait WindowManager {
    /// The list of monitors the window manager knows about.
    fn monitors(&self) -> Result<Vec<MonitorInfo>, String>;

    /// Switch `monitor` to the workspace with the given id.
    fn switch_workspace(&self, monitor: &str, workspace_id: i32) -> Result<(), String>;

    /// Move the currently focused window to `workspace_id` and switch the
    /// active monitor to that workspace so the user follows the window.
    fn move_window_to_workspace(&self, workspace_id: i32) -> Result<(), String>;

    /// Move the currently focused window to the given monitor.
    fn move_window_to_monitor(&self, monitor: &str) -> Result<(), String>;

    /// The name of the currently focused monitor, if any.
    fn active_monitor(&self) -> Result<Option<String>, String>;

    /// Information about the currently focused window, if any.
    fn active_window(&self) -> Result<Option<WindowInfo>, String>;
}

/// A source of [`Command`]s.
///
/// Implementations listen on some transport — a Unix socket, a
/// compositor's event stream, an in-memory queue — and forward each parsed
/// command into the provided sender exactly once, in arrival order.
/// `run` blocks until the source is exhausted or fails.
pub trait CommandSource: Send {
    /// Start listening and forward every incoming command into `sink`.
    fn run(&mut self, sink: Sender<Command>) -> Result<(), String>;
}

// ---------------------------------------------------------------------
// Visualizer events
// ---------------------------------------------------------------------

/// A snapshot of the grid state a visualizer needs in order to render.
/// Offsets are in thousandths of a cell.
#[derive(Debug, Clone, PartialEq, Eq)]
pub struct VisualizerState {
    /// Total columns in the grid.
    pub cols: usize,
    /// Total rows in the grid.
    pub rows: usize,
    /// Current column position (0-indexed).
    pub col: usize,
    /// Current row position (0-indexed).
    pub row: usize,
    /// Gesture offset on the X axis in thousandths of a cell; `0` when no
    /// gesture is active.
    pub offset_x: i64,
    /// Gesture offset on the Y axis in thousandths of a cell.
    pub offset_y: i64,
    /// The cell the gesture would commit to, set only once the offset
    /// reaches the commit threshold.
    pub target_cell: Option<(usize, usize)>,
}

impl VisualizerState {
    /// Build a snapshot from grid dimensions, position and gesture
    /// offsets, with no commit target.
    pub fn new(
        cols: usize,
        rows: usize,
        col: usize,
        row: usize,
        offset_x: i64,
        offset_y: i64,
    ) -> (r: Self)
        ensures
            r == (VisualizerState { cols, rows, col, row, offset_x, offset_y, target_cell: None }),
    {
        VisualizerState { cols, rows, col, row, offset_x, offset_y, target_cell: None }
    }
}

/// Payload for visualizer events that show the overlay: grid state plus
/// the monitor information needed to position it.
#[derive(Debug, Clone)]
pub struct VisualizerShowPayload {
    /// The grid snapshot to render.
    pub state: VisualizerState,
    /// Name of the currently focused monitor, if known.
    pub active_monitor_name: Option<String>,
    /// The window manager's monitor list.
    pub monitors: Vec<MonitorInfo>,
}

/// Events sent from the switcher to an external visualizer.
///
/// The visualizer owns its visibility state machine; the switcher only
/// describes *why* the overlay should be shown or hidden.
#[derive(Debug, Clone)]
pub enum VisualizerEvent {
    /// Show (or update) the overlay automatically, in response to a
    /// navigation or gesture event; a later [`VisualizerEvent::Hide`]
    /// fades it out.
    ShowAuto(VisualizerShowPayload),
    /// Toggle a manually pinned overlay for the given grid state.
    ToggleManual(VisualizerShowPayload),
    /// Request that the overlay be hidden.
    Hide,
}

// ---------------------------------------------------------------------
// The visualizer channel
// ---------------------------------------------------------------------

#[verifier::external_type_specification]
#[verifier::external_body]
#[verifier::reject_recursive_types(T)]
pub struct ExSender<T>(Sender<T>);

/// Relies on std's `mpsc::Sender::send`.  The send is fire-and-forget: a
/// disconnected receiver only makes `send` return an error value, which is
/// deliberately swallowed — a full or closed channel must never block or
/// fail command handling.  Nothing is promised about the channel.
#[verifier::external_body]
pub(crate) fn send_event(tx: &Sender<VisualizerEvent>, event: VisualizerEvent) {
    let _ = tx.send(event);
}

// ---------------------------------------------------------------------
// A no-op window manager
// ---------------------------------------------------------------------

/// A [`WindowManager`] that performs no real work: it reports one fixed
/// debug monitor and accepts every call.  Useful for running the switcher
/// without a compositor.
#[derive(Debug, Clone, Copy, PartialEq, Eq, Structural)]
pub struct NoopWm;

/// The error type of [`NoopWm`]; never actually produced.
#[derive(Debug, Clone, Copy, PartialEq, Eq, Structural)]
pub struct NoopWmError;

impl WindowManager for NoopWm {
    fn monitors(&self) -> Result<Vec<MonitorInfo>, String> {
        let mut v: Vec<MonitorInfo> = Vec::new();
        v.push(
            MonitorInfo {
                name: String::from_str("DEBUG-1"),
                width: 1920,
                height: 1080,
                x: 0,
                y: 0,
            },
        );
        Ok(v)
    }

    fn switch_workspace(&self, _monitor: &str, _workspace_id: i32) -> Result<(), String> {
        Ok(())
    }

    fn move_window_to_workspace(&self, _workspace_id: i32) -> Result<(), String> {
        Ok(())
    }

    fn move_window_to_monitor(&self, _monitor: &str) -> Result<(), String> {
        Ok(())
    }

    fn active_monitor(&self) -> Result<Option<String>, String> {
        Ok(Some(String::from_str("DEBUG-1")))
    }

    fn active_window(&self) -> Result<Option<WindowInfo>, String> {
        Ok(None)
    }
}

} // verus!
