use std::sync::mpsc;

use hyprgrd::command::{Command, Direction, MonitorInfo, SwitchToTarget, WindowInfo};
use hyprgrd::config::{Config, VisualizerConfig};
use hyprgrd::traits::{CommandSource, NoopWm, VisualizerState, WindowManager};

// --- Mock WindowManager

/// A test double that records every call made to it.
#[derive(Debug, Default)]
struct MockWm {
    switch_log: std::cell::RefCell<Vec<(String, i32)>>,
    move_log: std::cell::RefCell<Vec<i32>>,
}

impl WindowManager for MockWm {
    fn monitors(&self) -> Result<Vec<MonitorInfo>, String> {
        Ok(vec![MonitorInfo {
            name: "MOCK-1".into(),
            width: 1920,
            height: 1080,
            x: 0,
            y: 0,
        }])
    }

    fn switch_workspace(&self, monitor: &str, ws: i32) -> Result<(), String> {
        self.switch_log.borrow_mut().push((monitor.to_string(), ws));
        Ok(())
    }

    fn move_window_to_workspace(&self, ws: i32) -> Result<(), String> {
        self.move_log.borrow_mut().push(ws);
        Ok(())
    }

    fn move_window_to_monitor(&self, _monitor: &str) -> Result<(), String> {
        Ok(())
    }

    fn active_monitor(&self) -> Result<Option<String>, String> {
        Ok(Some("MOCK-1".into()))
    }

    fn active_window(&self) -> Result<Option<WindowInfo>, String> {
        Ok(Some(WindowInfo {
            address: "0xdead".into(),
            title: "mock".into(),
            monitor: "MOCK-1".into(),
        }))
    }
}

#[test]
fn mock_wm_records_switches() {
    let wm = MockWm::default();
    wm.switch_workspace("MOCK-1", 42).unwrap();
    assert_eq!(wm.switch_log.borrow().len(), 1);
    assert_eq!(wm.switch_log.borrow()[0], ("MOCK-1".into(), 42));
}

// --- Mock CommandSource

/// A test double that emits a fixed sequence of commands.
struct MockSource {
    commands: Vec<Command>,
}

impl CommandSource for MockSource {
    fn run(&mut self, sink: mpsc::Sender<Command>) -> Result<(), String> {
        for cmd in self.commands.drain(..) {
            let _ = sink.send(cmd);
        }
        Ok(())
    }
}

#[test]
fn mock_source_emits_commands() {
    let mut src = MockSource {
        commands: vec![
            Command::Go(Direction::Right),
            Command::SwitchTo(SwitchToTarget { x: 2, y: 1 }),
        ],
    };
    let (tx, rx) = mpsc::channel();
    src.run(tx).unwrap();
    let cmds: Vec<Command> = rx.try_iter().collect();
    assert_eq!(cmds.len(), 2);
    assert_eq!(cmds[0], Command::Go(Direction::Right));
    assert_eq!(cmds[1], Command::SwitchTo(SwitchToTarget { x: 2, y: 1 }));
}

// --- NoopWm and configuration defaults

#[test]
fn noop_wm_reports_one_debug_monitor() {
    let wm = NoopWm;
    let mons = wm.monitors().unwrap();
    assert_eq!(mons.len(), 1);
    assert_eq!(mons[0].name, "DEBUG-1");
    assert_eq!(wm.active_monitor().unwrap(), Some("DEBUG-1".to_string()));
    assert_eq!(wm.active_window().unwrap(), None);
    assert!(wm.switch_workspace("DEBUG-1", 1).is_ok());
    assert!(wm.move_window_to_workspace(1).is_ok());
    assert!(wm.move_window_to_monitor("DEBUG-1").is_ok());
}

#[test]
fn visualizer_state_new_has_no_target() {
    let st = VisualizerState::new(3, 2, 1, 0, 250, -100);
    assert_eq!((st.cols, st.rows, st.col, st.row), (3, 2, 1, 0));
    assert_eq!((st.offset_x, st.offset_y), (250, -100));
    assert_eq!(st.target_cell, None);
}

#[test]
fn config_defaults_match_documented_values() {
    let cfg = Config::default();
    assert_eq!(cfg.gestures.sensitivity, 200_000);
    assert_eq!(cfg.gestures.commit_threshold, 300);
    assert_eq!(cfg.visualizer.cursor_animation_ms, 80);
    assert_eq!(cfg.visualizer.linger_ms, 300);
    assert_eq!(cfg.visualizer.fade_out_ms, 200);
    let vd = VisualizerConfig::default();
    assert_eq!(cfg.visualizer, vd);
}
