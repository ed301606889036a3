use hyprgrd::command::{Command, Direction};
use hyprgrd::gestures::{
    clamp_unit, dominant_direction, normalised_swipe_offset, parse_event_line, GestureConfig,
    GestureRecognizer,
};
use hyprgrd::text::{parse_milli, parse_u32, parse_usize, trim_ascii, usize_to_string};

// Offsets are integers in thousandths of a unit: 500 is 0.5 of a cell.

#[test]
fn clamp_unit_works() {
    assert_eq!(clamp_unit(500), 500);
    assert_eq!(clamp_unit(1500), 1000);
    assert_eq!(clamp_unit(-2000), -1000);
    assert_eq!(clamp_unit(0), 0);
}

#[test]
fn dominant_direction_right() {
    assert_eq!(dominant_direction(500, 100, 300), Some(Direction::Right));
}

#[test]
fn dominant_direction_left() {
    assert_eq!(dominant_direction(-600, 200, 300), Some(Direction::Left));
}

#[test]
fn dominant_direction_down() {
    assert_eq!(dominant_direction(100, 800, 300), Some(Direction::Down));
}

#[test]
fn dominant_direction_up() {
    assert_eq!(dominant_direction(-100, -500, 300), Some(Direction::Up));
}

#[test]
fn dominant_direction_below_threshold_is_none() {
    assert_eq!(dominant_direction(100, 100, 300), None);
}

#[test]
fn dominant_direction_exactly_at_threshold() {
    assert_eq!(dominant_direction(300, 0, 300), Some(Direction::Right));
}

#[test]
fn dominant_direction_diagonals() {
    let t = 300;
    assert_eq!(dominant_direction(500, 500, t), Some(Direction::DownRight));
    assert_eq!(dominant_direction(500, -500, t), Some(Direction::UpRight));
    assert_eq!(dominant_direction(-500, 500, t), Some(Direction::DownLeft));
    assert_eq!(dominant_direction(-500, -500, t), Some(Direction::UpLeft));
    assert_eq!(dominant_direction(200, 200, t), None);
}

#[test]
fn default_config_values() {
    let cfg = GestureConfig::default();
    assert_eq!(cfg.sensitivity, 200_000);
    assert_eq!(cfg.commit_threshold, 300);
    assert_eq!(cfg.commit_while_dragging_threshold, None);
    assert_eq!(cfg.switch_fingers, 3);
    assert_eq!(cfg.move_fingers, 4);
    assert!(cfg.natural_swiping);
}

#[test]
fn normalised_offset_scales_clamps_and_inverts() {
    // 100 px at 200 px per cell is half a cell.
    assert_eq!(normalised_swipe_offset(100_000, 0, 200_000, false), (500, 0));
    // Saturation at one full cell.
    assert_eq!(
        normalised_swipe_offset(500_000, -500_000, 200_000, false),
        (1000, -1000)
    );
    // Natural swiping inverts both axes.
    assert_eq!(
        normalised_swipe_offset(100_000, 50_000, 200_000, true),
        (-500, -250)
    );
}

#[test]
fn parse_event_line_valid() {
    assert_eq!(parse_event_line("swipebegin>>3"), Some(("swipebegin", "3")));
    assert_eq!(
        parse_event_line("swipeupdate>>3,10.5,-2.3"),
        Some(("swipeupdate", "3,10.5,-2.3"))
    );
}

#[test]
fn parse_event_line_no_separator() {
    assert_eq!(parse_event_line("garbage"), None);
}

// --- the recognizer ----------------------------------------------------

#[test]
fn handle_event_swipe_begin_activates_state() {
    let mut rec = GestureRecognizer::with_defaults();
    let out = rec.handle_event("swipebegin", "3");
    assert_eq!(out, None);
    assert!(rec.is_active());
    assert_eq!(rec.fingers(), 3);
}

#[test]
fn handle_event_swipe_begin_ignores_wrong_finger_count() {
    let mut rec = GestureRecognizer::with_defaults();
    rec.handle_event("swipebegin", "2");
    assert!(!rec.is_active());
}

#[test]
fn handle_event_swipe_update_accumulates_and_emits() {
    let mut rec = GestureRecognizer::with_defaults();
    rec.handle_event("swipebegin", "3");

    let out = rec.handle_event("swipeupdate", "3,50.0,10.0");
    assert_eq!(rec.accumulated(), (50_000, 10_000));

    // 50 px / 200 px per cell = 0.25 of a cell; 10 px = 0.05.
    assert_eq!(out, Some(Command::PrepareMove { dx: 250, dy: 50 }));
}

#[test]
fn handle_event_swipe_end_commits_right() {
    let mut rec = GestureRecognizer::with_defaults();
    rec.handle_event("swipebegin", "3");
    rec.handle_event("swipeupdate", "3,250.0,10.0");

    let out = rec.handle_event("swipeend", "3");
    assert_eq!(out, Some(Command::CommitMove(Direction::Right)));
    assert!(!rec.is_active());
}

#[test]
fn handle_event_swipe_end_cancels_small_gesture() {
    let mut rec = GestureRecognizer::with_defaults();
    rec.handle_event("swipebegin", "3");
    rec.handle_event("swipeupdate", "3,10.0,5.0");

    let out = rec.handle_event("swipeend", "3");
    assert_eq!(out, Some(Command::CancelMove));
}

#[test]
fn handle_event_four_finger_swipe_moves_window() {
    let mut rec = GestureRecognizer::with_defaults();
    rec.handle_event("swipebegin", "4");
    rec.handle_event("swipeupdate", "4,-300.0,10.0");

    let out = rec.handle_event("swipeend", "4");
    assert_eq!(out, Some(Command::MoveWindowAndGo(Direction::Left)));
}

/// End-to-end simulation: begin, ten updates, end.
#[test]
fn full_gesture_simulation() {
    let mut rec = GestureRecognizer::with_defaults();
    let mut cmds: Vec<Command> = Vec::new();

    // Begin
    rec.handle_event("swipebegin", "3");
    assert!(rec.is_active());

    // Simulate 10 incremental rightward updates (25px each)
    for _ in 0..10 {
        if let Some(cmd) = rec.handle_event("swipeupdate", "3,25.0,2.0") {
            cmds.push(cmd);
        }
    }

    // End
    if let Some(cmd) = rec.handle_event("swipeend", "3") {
        cmds.push(cmd);
    }

    // 10 PrepareMove + 1 CommitMove
    assert_eq!(cmds.len(), 11);

    // All intermediate commands are PrepareMove
    for cmd in &cmds[..10] {
        assert!(matches!(cmd, Command::PrepareMove { .. }));
    }

    // Accumulated dx of 250 px at sensitivity 200 normalises to a full
    // cell; the final command commits rightward.
    assert_eq!(cmds[10], Command::CommitMove(Direction::Right));
}

/// Unknown events are silently ignored.
#[test]
fn unknown_events_ignored() {
    let mut rec = GestureRecognizer::with_defaults();
    assert_eq!(rec.handle_event("workspace", "2"), None);
    assert_eq!(rec.handle_event("activewindow", "kitty,~"), None);
    assert!(!rec.is_active());
}

#[test]
fn swipe_update_without_begin_is_ignored() {
    let mut rec = GestureRecognizer::with_defaults();
    assert_eq!(rec.handle_event("swipeupdate", "3,50.0,10.0"), None);
    assert_eq!(rec.handle_event("swipeend", "3"), None);
}

#[test]
fn malformed_update_payload_is_ignored() {
    let mut rec = GestureRecognizer::with_defaults();
    rec.handle_event("swipebegin", "3");
    assert_eq!(rec.handle_event("swipeupdate", "3,50.0"), None);
    assert_eq!(rec.handle_event("swipeupdate", "3,a,b"), None);
    assert_eq!(rec.handle_event("swipeupdate", "3,1,2,3"), None);
    assert_eq!(rec.accumulated(), (0, 0));
}

// --- text helpers ------------------------------------------------------

#[test]
fn parse_u32_accepts_plain_numbers() {
    assert_eq!(parse_u32("3"), Some(3));
    assert_eq!(parse_u32("+42"), Some(42));
    assert_eq!(parse_u32("4294967295"), Some(u32::MAX));
    assert_eq!(parse_u32("4294967296"), None);
    assert_eq!(parse_u32(""), None);
    assert_eq!(parse_u32("-1"), None);
    assert_eq!(parse_u32("1x"), None);
}

#[test]
fn parse_usize_accepts_plain_numbers() {
    assert_eq!(parse_usize("0"), Some(0));
    assert_eq!(parse_usize("12345"), Some(12345));
    assert_eq!(parse_usize("+7"), Some(7));
    assert_eq!(parse_usize("7.0"), None);
}

#[test]
fn parse_milli_reads_decimals_in_thousandths() {
    assert_eq!(parse_milli("10.5"), Some(10_500));
    assert_eq!(parse_milli("-2.3"), Some(-2_300));
    assert_eq!(parse_milli("25.0"), Some(25_000));
    assert_eq!(parse_milli("0"), Some(0));
    assert_eq!(parse_milli(".5"), Some(500));
    assert_eq!(parse_milli("3."), Some(3_000));
    assert_eq!(parse_milli("+1.25"), Some(1_250));
    // The fraction is truncated toward zero after three digits.
    assert_eq!(parse_milli("1.2345"), Some(1_234));
    assert_eq!(parse_milli("-1.2345"), Some(-1_234));
    assert_eq!(parse_milli(""), None);
    assert_eq!(parse_milli("."), None);
    assert_eq!(parse_milli("1.2.3"), None);
    assert_eq!(parse_milli("abc"), None);
}

#[test]
fn trim_ascii_strips_blanks() {
    assert_eq!(trim_ascii("  a b  "), "a b");
    assert_eq!(trim_ascii("\t3\n"), "3");
    assert_eq!(trim_ascii("   "), "");
    assert_eq!(trim_ascii(""), "");
}

#[test]
fn usize_to_string_renders_decimals() {
    assert_eq!(usize_to_string(0), "0");
    assert_eq!(usize_to_string(7), "7");
    assert_eq!(usize_to_string(42), "42");
    assert_eq!(usize_to_string(120304), "120304");
}
