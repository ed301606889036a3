use std::cell::RefCell;
use std::sync::mpsc;

use hyprgrd::command::{Command, Direction, MonitorIndex, MonitorInfo, SwitchToTarget, WindowInfo};
use hyprgrd::gestures::GestureConfig;
use hyprgrd::switcher::{compute_workspace_id, GridSwitcher, SwitcherError};
use hyprgrd::traits::{VisualizerEvent, WindowManager};

/// Record-keeping mock window manager.
#[derive(Debug, Default)]
struct RecorderWm {
    switches: RefCell<Vec<(String, i32)>>,
    moves: RefCell<Vec<i32>>,
    monitor_moves: RefCell<Vec<String>>,
    /// Tracks which monitor is currently "focused" in the mock, i.e. where
    /// the mouse cursor would be.  We model the compositor behaviour where
    /// `switch_workspace` focuses the target monitor.
    focused_monitor: RefCell<Option<String>>,
}

impl WindowManager for RecorderWm {
    fn monitors(&self) -> Result<Vec<MonitorInfo>, String> {
        Ok(vec![
            MonitorInfo {
                name: "DP-1".into(),
                width: 2560,
                height: 1440,
                x: 0,
                y: 0,
            },
            MonitorInfo {
                name: "HDMI-A-1".into(),
                width: 1920,
                height: 1080,
                x: 2560,
                y: 0,
            },
        ])
    }

    fn switch_workspace(&self, mon: &str, ws: i32) -> Result<(), String> {
        self.switches.borrow_mut().push((mon.into(), ws));
        // Simulate the compositor: switching a workspace on a monitor also
        // focuses that monitor.
        *self.focused_monitor.borrow_mut() = Some(mon.into());
        Ok(())
    }

    fn move_window_to_workspace(&self, ws: i32) -> Result<(), String> {
        self.moves.borrow_mut().push(ws);
        Ok(())
    }

    fn move_window_to_monitor(&self, monitor: &str) -> Result<(), String> {
        self.monitor_moves.borrow_mut().push(monitor.into());
        Ok(())
    }

    fn active_monitor(&self) -> Result<Option<String>, String> {
        Ok(self
            .focused_monitor
            .borrow()
            .clone()
            .or_else(|| Some("DP-1".into())))
    }

    fn active_window(&self) -> Result<Option<WindowInfo>, String> {
        // The active window is always reported on the currently focused
        // monitor.  Default to "DP-1" if nothing has focused yet.
        let monitor = self
            .focused_monitor
            .borrow()
            .clone()
            .unwrap_or_else(|| "DP-1".to_string());
        Ok(Some(WindowInfo {
            address: "0xbeef".into(),
            title: "test".into(),
            monitor,
        }))
    }
}

/// Window manager that enforces that the active monitor is queried before
/// `move_window_to_workspace`: `MoveWindowAndGo` must take the focused
/// monitor into account when deciding which workspace id to move the
/// window to.
#[derive(Debug, Default)]
struct OrderCheckingWm {
    switches: RefCell<Vec<(String, i32)>>,
    moves: RefCell<Vec<i32>>,
    active_monitor_queried_before_move: RefCell<bool>,
}

impl WindowManager for OrderCheckingWm {
    fn monitors(&self) -> Result<Vec<MonitorInfo>, String> {
        Ok(vec![
            MonitorInfo {
                name: "DP-1".into(),
                width: 2560,
                height: 1440,
                x: 0,
                y: 0,
            },
            MonitorInfo {
                name: "HDMI-A-1".into(),
                width: 1920,
                height: 1080,
                x: 2560,
                y: 0,
            },
        ])
    }

    fn switch_workspace(&self, mon: &str, ws: i32) -> Result<(), String> {
        self.switches.borrow_mut().push((mon.into(), ws));
        Ok(())
    }

    fn move_window_to_workspace(&self, ws: i32) -> Result<(), String> {
        // Fail if the active monitor has not been queried yet:
        // `MoveWindowAndGo` must know which monitor is focused before
        // choosing a workspace id.
        if !*self.active_monitor_queried_before_move.borrow() {
            return Err("window moved before the active monitor was queried".into());
        }
        self.moves.borrow_mut().push(ws);
        Ok(())
    }

    fn move_window_to_monitor(&self, _monitor: &str) -> Result<(), String> {
        Ok(())
    }

    fn active_monitor(&self) -> Result<Option<String>, String> {
        *self.active_monitor_queried_before_move.borrow_mut() = true;
        Ok(Some("DP-1".into()))
    }

    fn active_window(&self) -> Result<Option<WindowInfo>, String> {
        Ok(Some(WindowInfo {
            address: "0xbeef".into(),
            title: "order-check".into(),
            monitor: "DP-1".into(),
        }))
    }
}

fn make_switcher() -> GridSwitcher<RecorderWm> {
    GridSwitcher::new(RecorderWm::default(), vec!["DP-1".into(), "HDMI-A-1".into()])
}

#[test]
fn go_right_switches_both_monitors() {
    let mut s = make_switcher();
    s.handle(Command::Go(Direction::Right)).unwrap();
    // Grid starts 1x1 at (0,0) with 2 monitors: after Go(Right) the shared
    // position is (1,0) and the grid grew to 2x1.
    assert_eq!(s.position(), (1, 0));
    assert_eq!(s.grid().dimensions(), (2, 1));
    let switches = s.wm_ref().switches.borrow();
    // Two monitors should each have received a switch call
    assert_eq!(switches.len(), 2);
    // They should reference the same pair of workspace ids (from cell (1,0))
    let ids: Vec<i32> = switches.iter().map(|(_, id)| *id).collect();
    assert_eq!(ids.len(), 2);
    // Ids are different (one per monitor)
    assert_ne!(ids[0], ids[1]);
}

#[test]
fn go_keeps_focused_monitor_on_original_display() {
    let mut s = make_switcher();
    // Initially, the active window is on DP-1.
    let initial = s.wm_ref().active_window().unwrap().unwrap();
    assert_eq!(initial.monitor, "DP-1");
    // Moving in the grid with a plain Go command switches workspaces on
    // multiple monitors.
    s.handle(Command::Go(Direction::Right)).unwrap();
    // After switching, the "focused" monitor (where the cursor is) should
    // still be the original one.
    let after = s.wm_ref().active_window().unwrap().unwrap();
    assert_eq!(after.monitor, "DP-1");
}

/// Same as `go_keeps_focused_monitor_on_original_display`, but starting
/// from the secondary monitor: the cursor must not jump to a different
/// monitor on plain `Go` commands.
#[test]
fn go_from_secondary_monitor_keeps_focus_on_that_monitor() {
    let mut s = make_switcher();
    // Pretend the user currently has the cursor on HDMI-A-1.
    *s.wm_ref().focused_monitor.borrow_mut() = Some("HDMI-A-1".into());
    let initial = s.wm_ref().active_window().unwrap().unwrap();
    assert_eq!(initial.monitor, "HDMI-A-1");

    s.handle(Command::Go(Direction::Right)).unwrap();

    // After switching workspaces, focus should remain on HDMI-A-1.
    let after = s.wm_ref().active_window().unwrap().unwrap();
    assert_eq!(after.monitor, "HDMI-A-1");
}

/// `MoveWindowAndGo` both moves the focused window and switches workspaces
/// on all monitors; the "focused" monitor must stay on the same display as
/// before the move.
#[test]
fn move_window_and_go_keeps_focused_monitor_on_original_display() {
    let mut s = make_switcher();
    // Initially, the active window is on DP-1.
    let initial = s.wm_ref().active_window().unwrap().unwrap();
    assert_eq!(initial.monitor, "DP-1");

    // Perform a move+switch operation.
    s.handle(Command::MoveWindowAndGo(Direction::Right)).unwrap();

    // After the operation, the focused monitor should remain DP-1.
    let after = s.wm_ref().active_window().unwrap().unwrap();
    assert_eq!(after.monitor, "DP-1");
}

// --- Visualizer integration

/// Attach a visualizer channel to the switcher and collect all events it
/// emits while handling `cmd`.
fn collect_vis_events(cmd: Command) -> Vec<VisualizerEvent> {
    let mut s = make_switcher();
    let (tx, rx) = mpsc::channel();
    s.set_visualizer(tx);
    s.handle(cmd).unwrap();
    rx.try_iter().collect()
}

#[test]
fn go_emits_show_and_hide_events() {
    let events = collect_vis_events(Command::Go(Direction::Right));
    assert!(
        matches!(
            events.as_slice(),
            [VisualizerEvent::ShowAuto(_), VisualizerEvent::Hide]
        ),
        "Go should emit a Show followed by Hide, got: {events:#?}"
    );
}

#[test]
fn move_window_and_go_emits_show_and_hide_events() {
    let events = collect_vis_events(Command::MoveWindowAndGo(Direction::Right));
    assert!(
        matches!(
            events.as_slice(),
            [VisualizerEvent::ShowAuto(_), VisualizerEvent::Hide]
        ),
        "MoveWindowAndGo should emit a Show followed by Hide, got: {events:#?}"
    );
}

#[test]
fn toggle_visualizer_pins_and_unpins_overlay() {
    let mut s = make_switcher();
    let (tx, rx) = mpsc::channel();
    s.set_visualizer(tx);

    // First toggle: should emit a ToggleManual with the current grid state.
    s.handle(Command::ToggleVisualizer).unwrap();
    let events1: Vec<VisualizerEvent> = rx.try_iter().collect();
    assert!(
        matches!(events1.as_slice(), [VisualizerEvent::ToggleManual(_)]),
        "first ToggleVisualizer should emit a single ToggleManual, got: {events1:#?}"
    );

    // Second toggle: should emit another ToggleManual (the visualizer turns
    // this into an instant hide based on its own internal state).
    s.handle(Command::ToggleVisualizer).unwrap();
    let events2: Vec<VisualizerEvent> = rx.try_iter().collect();
    assert!(
        matches!(events2.as_slice(), [VisualizerEvent::ToggleManual(_)]),
        "second ToggleVisualizer should emit a single ToggleManual, got: {events2:#?}"
    );
}

#[test]
fn switch_to_absolute() {
    let mut s = make_switcher();
    s.handle(Command::SwitchTo(SwitchToTarget { x: 2, y: 1 }))
        .unwrap();
    assert_eq!(s.position(), (2, 1));
    assert_eq!(s.grid().dimensions(), (3, 2));
}

#[test]
fn move_window_and_go_records_move() {
    let mut s = make_switcher();
    s.handle(Command::MoveWindowAndGo(Direction::Right)).unwrap();
    let moves = s.wm_ref().moves.borrow();
    assert_eq!(moves.len(), 1, "should have moved one window");
    assert_eq!(s.position(), (1, 0));
}

/// `MoveWindowAndGo` must determine the active monitor *before* deciding
/// which workspace id to move the window to.  If it queried the active
/// monitor only after moving, the chosen workspace could belong to a
/// different monitor, causing the window to jump displays.
#[test]
fn move_window_and_go_queries_active_before_moving_window() {
    let wm = OrderCheckingWm::default();
    let mut s = GridSwitcher::new(wm, vec!["DP-1".into(), "HDMI-A-1".into()]);
    // The order-checking backend fails the window move unless the active
    // monitor was resolved first, so this call succeeds exactly when the
    // ordering is right.
    s.handle(Command::MoveWindowAndGo(Direction::Right))
        .expect("MoveWindowAndGo must query the active monitor before moving");
}

#[test]
fn prepare_move_does_not_change_grid() {
    let mut s = make_switcher();
    s.handle(Command::PrepareMove { dx: 500, dy: 0 }).unwrap();
    assert_eq!(s.position(), (0, 0), "grid should not move");
}

#[test]
fn cancel_move_does_not_change_grid() {
    let mut s = make_switcher();
    s.handle(Command::CancelMove).unwrap();
    assert_eq!(s.position(), (0, 0));
}

#[test]
fn commit_move_advances_grid() {
    let mut s = make_switcher();
    s.handle(Command::CommitMove(Direction::Down)).unwrap();
    assert_eq!(s.position(), (0, 1));
}

#[test]
fn full_command_sequence() {
    let mut s = make_switcher();
    s.handle(Command::Go(Direction::Right)).unwrap();
    s.handle(Command::Go(Direction::Down)).unwrap();
    s.handle(Command::Go(Direction::Left)).unwrap();
    s.handle(Command::Go(Direction::Up)).unwrap();
    assert_eq!(s.position(), (0, 0));
    assert_eq!(s.grid().dimensions(), (2, 2));
}

// --- MoveWindowToMonitor tests

#[test]
fn move_window_to_monitor_right() {
    let mut s = make_switcher();
    // RecorderWm: DP-1 at (0,0) 2560x1440, HDMI-A-1 at (2560,0) 1920x1080;
    // active_window() reports monitor "DP-1".
    s.handle(Command::MoveWindowToMonitor(Direction::Right))
        .unwrap();
    let monitor_moves = s.wm_ref().monitor_moves.borrow();
    assert_eq!(monitor_moves.len(), 1);
    assert_eq!(monitor_moves[0], "HDMI-A-1");
}

#[test]
fn move_window_to_monitor_no_target_is_noop() {
    let mut s = make_switcher();
    // active_window() reports monitor "DP-1"; no monitor to the left of DP-1
    s.handle(Command::MoveWindowToMonitor(Direction::Left))
        .unwrap();
    let monitor_moves = s.wm_ref().monitor_moves.borrow();
    assert_eq!(monitor_moves.len(), 0, "should be no-op");
}

#[test]
fn move_window_to_monitor_does_not_change_grid() {
    let mut s = make_switcher();
    s.handle(Command::MoveWindowToMonitor(Direction::Right))
        .unwrap();
    assert_eq!(s.position(), (0, 0), "grid should not move");
}

// --- MoveWindowToMonitorIndex tests

#[test]
fn move_window_to_monitor_index_valid() {
    let mut s = make_switcher();
    s.handle(Command::MoveWindowToMonitorIndex(MonitorIndex(1)))
        .unwrap();
    let monitor_moves = s.wm_ref().monitor_moves.borrow();
    assert_eq!(monitor_moves.len(), 1);
    assert_eq!(monitor_moves[0], "HDMI-A-1");
}

#[test]
fn move_window_to_monitor_index_zero() {
    let mut s = make_switcher();
    s.handle(Command::MoveWindowToMonitorIndex(MonitorIndex(0)))
        .unwrap();
    let monitor_moves = s.wm_ref().monitor_moves.borrow();
    assert_eq!(monitor_moves.len(), 1);
    assert_eq!(monitor_moves[0], "DP-1");
}

#[test]
fn move_window_to_monitor_index_out_of_range() {
    let mut s = make_switcher();
    let result = s.handle(Command::MoveWindowToMonitorIndex(MonitorIndex(5)));
    assert!(result.is_err());
    // Against a 2-monitor backend the command issues zero calls.
    assert_eq!(s.wm_ref().monitor_moves.borrow().len(), 0);
    assert_eq!(s.wm_ref().moves.borrow().len(), 0);
    assert_eq!(s.wm_ref().switches.borrow().len(), 0);
    let SwitcherError::WindowManager(msg) = result.unwrap_err();
    assert_eq!(msg, "monitor index 5 out of range (have 2)");
}

#[test]
fn move_window_to_monitor_index_does_not_change_grid() {
    let mut s = make_switcher();
    s.handle(Command::MoveWindowToMonitorIndex(MonitorIndex(1)))
        .unwrap();
    assert_eq!(s.position(), (0, 0), "grid should not move");
}

// --- swipe-driven navigation

fn gesture_config(commit_while: Option<i64>) -> GestureConfig {
    GestureConfig {
        sensitivity: 200_000,
        commit_threshold: 300,
        commit_while_dragging_threshold: commit_while,
        switch_fingers: 3,
        move_fingers: 4,
        natural_swiping: false,
    }
}

#[test]
fn swipe_sequence_commits_on_release() {
    let mut s = make_switcher();
    s.set_gesture_config(gesture_config(None));
    s.handle(Command::SwipeBegin { fingers: 3 }).unwrap();
    for _ in 0..10 {
        s.handle(Command::SwipeUpdate {
            fingers: 3,
            dx: 25_000,
            dy: 2_000,
        })
        .unwrap();
        assert_eq!(s.position(), (0, 0), "previews must not move the grid");
    }
    s.handle(Command::SwipeEnd).unwrap();
    // 250 px right at sensitivity 200 is a full cell: commit to (1,0).
    assert_eq!(s.position(), (1, 0));
    assert_eq!(s.grid().dimensions(), (2, 1));
}

#[test]
fn swipe_below_threshold_snaps_back() {
    let mut s = make_switcher();
    s.set_gesture_config(gesture_config(None));
    s.handle(Command::SwipeBegin { fingers: 3 }).unwrap();
    s.handle(Command::SwipeUpdate {
        fingers: 3,
        dx: 10_000,
        dy: 0,
    })
    .unwrap();
    s.handle(Command::SwipeEnd).unwrap();
    assert_eq!(s.position(), (0, 0));
}

#[test]
fn swipe_with_wrong_finger_count_is_ignored() {
    let mut s = make_switcher();
    s.set_gesture_config(gesture_config(None));
    s.handle(Command::SwipeBegin { fingers: 2 }).unwrap();
    s.handle(Command::SwipeUpdate {
        fingers: 2,
        dx: 500_000,
        dy: 0,
    })
    .unwrap();
    s.handle(Command::SwipeEnd).unwrap();
    assert_eq!(s.position(), (0, 0));
}

#[test]
fn swipe_early_commit_while_dragging() {
    let mut s = make_switcher();
    s.set_gesture_config(gesture_config(Some(800)));
    s.handle(Command::SwipeBegin { fingers: 3 }).unwrap();
    // 200 px right reaches the 0.8 drag threshold: commit without release.
    s.handle(Command::SwipeUpdate {
        fingers: 3,
        dx: 200_000,
        dy: 0,
    })
    .unwrap();
    assert_eq!(s.position(), (1, 0));
    // The accumulator is gone: the lift is a no-op.
    s.handle(Command::SwipeEnd).unwrap();
    assert_eq!(s.position(), (1, 0));
}

#[test]
fn natural_swiping_inverts_commit_direction() {
    let mut s = make_switcher();
    let mut cfg = gesture_config(None);
    cfg.natural_swiping = true;
    s.set_gesture_config(cfg);
    s.handle(Command::SwipeBegin { fingers: 3 }).unwrap();
    s.handle(Command::SwipeUpdate {
        fingers: 3,
        dx: 250_000,
        dy: 0,
    })
    .unwrap();
    s.handle(Command::SwipeEnd).unwrap();
    // A rightward swipe with natural swiping moves the grid left; at the
    // origin the leftward step clamps in place.
    assert_eq!(s.position(), (0, 0));
}

// --- workspace id allocation

#[test]
fn workspace_ids_start_at_one_per_cell_block() {
    assert_eq!(compute_workspace_id(0, 0, 0, 2), 1);
    assert_eq!(compute_workspace_id(0, 0, 1, 2), 2);
    // Cell (1,0) pairs to 1, so its block starts right after.
    assert_eq!(compute_workspace_id(1, 0, 0, 2), 3);
    assert_eq!(compute_workspace_id(0, 1, 0, 2), 5);
}

#[test]
fn workspace_ids_are_pairwise_distinct_on_a_sample() {
    let mc = 3;
    let mut seen = std::collections::HashSet::new();
    for col in 0..20 {
        for row in 0..20 {
            for idx in 0..mc {
                let id = compute_workspace_id(col, row, idx, mc);
                assert!(seen.insert(id), "duplicate workspace id {id}");
            }
        }
    }
}

#[test]
fn workspace_ids_saturate_instead_of_overflowing() {
    let id = compute_workspace_id(usize::MAX, usize::MAX, 0, 1);
    assert_eq!(id, i32::MAX);
}

#[test]
fn visualizer_state_reports_target_cell_at_threshold() {
    let s = make_switcher();
    let below = s.visualizer_state(100, 0);
    assert_eq!(below.target_cell, None);
    assert_eq!((below.cols, below.rows, below.col, below.row), (1, 1, 0, 0));
    let over = s.visualizer_state(1000, 0);
    assert_eq!(over.target_cell, Some((1, 0)));
    assert_eq!(over.offset_x, 1000);
}

#[test]
fn switcher_error_message_is_descriptive() {
    let e = SwitcherError::WindowManager("boom".to_string());
    assert_eq!(e.message(), "window manager error: boom");
}

/// Workspace switches touch the focused monitor last, so the backend's
/// focus-follows-last-touched behaviour keeps the user's focus in place.
#[test]
fn go_switches_focused_monitor_last() {
    let mut s = make_switcher();
    *s.wm_ref().focused_monitor.borrow_mut() = Some("DP-1".into());
    s.handle(Command::Go(Direction::Right)).unwrap();
    let switches = s.wm_ref().switches.borrow();
    assert_eq!(switches.len(), 2);
    assert_eq!(switches[0].0, "HDMI-A-1");
    assert_eq!(switches[1].0, "DP-1");
}

// --- backend failure paths

/// A backend whose switch calls always fail and that reports no focused
/// monitor.
#[derive(Debug, Default)]
struct FailingWm {
    moves: RefCell<Vec<i32>>,
}

impl WindowManager for FailingWm {
    fn monitors(&self) -> Result<Vec<MonitorInfo>, String> {
        Ok(vec![MonitorInfo {
            name: "DP-1".into(),
            width: 1920,
            height: 1080,
            x: 0,
            y: 0,
        }])
    }

    fn switch_workspace(&self, _mon: &str, _ws: i32) -> Result<(), String> {
        Err("switch refused".into())
    }

    fn move_window_to_workspace(&self, ws: i32) -> Result<(), String> {
        self.moves.borrow_mut().push(ws);
        Ok(())
    }

    fn move_window_to_monitor(&self, _monitor: &str) -> Result<(), String> {
        Ok(())
    }

    fn active_monitor(&self) -> Result<Option<String>, String> {
        Ok(None)
    }

    fn active_window(&self) -> Result<Option<WindowInfo>, String> {
        Ok(None)
    }
}

/// The switcher is optimistic: on a backend failure the grid state has
/// already advanced and is not rolled back.
#[test]
fn go_advances_grid_even_when_backend_fails() {
    let mut s = GridSwitcher::new(FailingWm::default(), vec!["DP-1".into()]);
    let result = s.handle(Command::Go(Direction::Right));
    assert!(result.is_err());
    assert_eq!(s.position(), (1, 0));
    assert_eq!(s.grid().dimensions(), (2, 1));
}

/// `SwitchTo` treats the backend as best-effort: the failure is swallowed
/// and the attempted state stands.
#[test]
fn switch_to_succeeds_even_when_backend_fails() {
    let mut s = GridSwitcher::new(FailingWm::default(), vec!["DP-1".into()]);
    s.handle(Command::SwitchTo(SwitchToTarget { x: 2, y: 1 }))
        .unwrap();
    assert_eq!(s.position(), (2, 1));
    assert_eq!(s.grid().dimensions(), (3, 2));
}

/// `MoveWindowAndGo` strictly requires a focused monitor: without one it
/// reports an error before moving anything.
#[test]
fn move_window_and_go_without_active_monitor_is_an_error() {
    let wm = FailingWm::default();
    let mut s = GridSwitcher::new(wm, vec!["DP-1".into()]);
    let result = s.handle(Command::MoveWindowAndGo(Direction::Right));
    assert!(result.is_err());
    assert_eq!(s.position(), (0, 0), "nothing may move on this error");
    assert_eq!(s.grid().dimensions(), (1, 1));
    assert_eq!(s.wm_ref().moves.borrow().len(), 0);
}
