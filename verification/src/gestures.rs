//! Gesture recognition: turning raw touchpad swipe events into commands.
//!
//! The compositor emits three event types for touchpad swipes over its
//! event socket, in the `EVENT>>DATA` line format:
//!
//! | Event         | Payload               | Meaning                        |
//! |---------------|-----------------------|--------------------------------|
//! | `swipebegin`  | `<fingers>`           | A multi-finger swipe started   |
//! | `swipeupdate` | `<fingers>,<dx>,<dy>` | Incremental movement (pixels)  |
//! | `swipeend`    | `<fingers>`           | Fingers lifted                 |
//!
//! [`GestureRecognizer`] consumes those events and decides what, if
//! anything, to emit: a [`Command::PrepareMove`] preview for every update,
//! and on finger lift either a commit (in the dominant direction) or a
//! cancel.  All quantities are integers in thousandths: a pixel delta of
//! `10.5` arrives as `10500`, a normalised offset of `1.0` is `1000`.

use vstd::prelude::*;
use vstd::string::StrSliceExecFns;
use crate::command::{Command, Direction};
use crate::text::{
    char_idx_from,
    find_char,
    parse_milli,
    parse_milli_spec,
    parse_u32,
    parse_u32_spec,
    str_eq,
    trim_ascii,
    trim_spec,
};

verus! {

// ---------------------------------------------------------------------
// Configuration
// ---------------------------------------------------------------------

/// Tuning knobs for gesture recognition, all in thousandths.
///
/// `sensitivity` is how many thousandths of a pixel of finger travel
/// correspond to one full grid cell; a higher value makes the gesture
/// feel "heavier".  `commit_threshold` is the normalised distance (in
/// thousandths of a cell) the gesture must reach before the workspace
/// switches on finger lift.  `commit_while_dragging_threshold`, when set,
/// commits as soon as the gesture reaches that fraction of a cell without
/// waiting for release.  `natural_swiping` inverts the gesture direction
/// (swipe right moves the grid left, like natural scrolling).
#[derive(Debug, Clone, Copy, PartialEq, Eq)]
pub struct GestureConfig {
    /// Thousandths of a pixel of travel per grid cell.  Default: `200_000`
    /// (200 pixels).
    pub sensitivity: i64,
    /// Normalised commit threshold on finger lift, in thousandths of a
    /// cell.  Default: `300` (0.3 of a cell).
    pub commit_threshold: i64,
    /// If set, commit as soon as the gesture reaches this fraction (in
    /// thousandths of a cell) toward the next cell.  Default: `None`.
    pub commit_while_dragging_threshold: Option<i64>,
    /// Number of fingers for a plain workspace switch.  Default: `3`.
    pub switch_fingers: u32,
    /// Number of fingers for move-window-and-switch.  Default: `4`.
    pub move_fingers: u32,
    /// Invert gesture direction (natural swiping).  Default: `true`.
    pub natural_swiping: bool,
}

impl GestureConfig {
    /// A usable configuration: positive sensitivity and thresholds within
    /// one cell.
    pub open spec fn wf(self) -> bool {
        &&& 1 <= self.sensitivity
        &&& 0 <= self.commit_threshold <= 1000
        &&& self.commit_while_dragging_threshold matches Some(t) ==> 0 <= t <= 1000
    }
}

impl Default for GestureConfig {
    /// The default configuration: 200 px per cell, commit at 0.3 of a
    /// cell on release only, 3 fingers to switch, 4 to move, natural
    /// swiping on.
    fn default() -> (r: Self)
        ensures
            r == (GestureConfig {
                sensitivity: 200_000,
                commit_threshold: 300,
                commit_while_dragging_threshold: None,
                switch_fingers: 3,
                move_fingers: 4,
                natural_swiping: true,
            }),
            r.wf(),
    {
        GestureConfig {
            sensitivity: 200_000,
            commit_threshold: 300,
            commit_while_dragging_threshold: None,
            switch_fingers: 3,
            move_fingers: 4,
            natural_swiping: true,
        }
    }
}

// ---------------------------------------------------------------------
// Pure gesture math
// ---------------------------------------------------------------------

/// Absolute value.
pub open spec fn abs_spec(v: int) -> int {
    if v >= 0 {
        v
    } else {
        -v
    }
}

/// Clamp to one cell: `[-1000, 1000]` thousandths.
pub open spec fn clamp_unit_spec(v: int) -> int {
    if v > 1000 {
        1000
    } else if v < -1000 {
        -1000
    } else {
        v
    }
}

/// Clamp `value` (thousandths of a cell) to `[-1000, 1000]`.
pub fn clamp_unit(value: i64) -> (r: i64)
    ensures
        r == clamp_unit_spec(value as int),
{
    if value > 1000 {
        1000
    } else if value < -1000 {
        -1000
    } else {
        value
    }
}

/// `d / sens` in thousandths, truncated toward zero.
pub open spec fn scale_div(d: int, sens: int) -> int {
    if d >= 0 {
        (d * 1000) / sens
    } else {
        -((-d * 1000) / sens)
    }
}

/// One normalised axis: divide the accumulated delta by the sensitivity
/// and clamp to one cell.
pub open spec fn norm_axis_spec(d: int, sens: int) -> int {
    clamp_unit_spec(scale_div(d, sens))
}

/// Both normalised axes, negated when `natural` swiping is on.
pub open spec fn normalised_offset_spec(dx: int, dy: int, sens: int, natural: bool) -> (int, int) {
    let nx = norm_axis_spec(dx, sens);
    let ny = norm_axis_spec(dy, sens);
    if natural {
        (-nx, -ny)
    } else {
        (nx, ny)
    }
}

/// One normalised axis, executable.
fn norm_axis(d: i64, sens: i64) -> (r: i64)
    requires
        sens >= 1,
    ensures
        r == norm_axis_spec(d as int, sens as int),
        -1000 <= r <= 1000,
{
    let neg = d < 0;
    let mag: i128 = if neg {
        -(d as i128)
    } else {
        d as i128
    };
    let q: i128 = (mag * 1000) / (sens as i128);
    let q: i128 = if q > 1000 {
        1000
    } else {
        q
    };
    if neg {
        -(q as i64)
    } else {
        q as i64
    }
}

/// Normalised swipe offset: scale by sensitivity, clamp each axis to one
/// cell, and invert both axes iff `natural_swiping` is set.  Pure in the
/// accumulated sums: the result does not depend on how the deltas were
/// accumulated.
pub fn normalised_swipe_offset(dx: i64, dy: i64, sensitivity: i64, natural_swiping: bool) -> (r: (
    i64,
    i64,
))
    requires
        sensitivity >= 1,
    ensures
        (r.0 as int, r.1 as int) == normalised_offset_spec(
            dx as int,
            dy as int,
            sensitivity as int,
            natural_swiping,
        ),
        -1000 <= r.0 <= 1000,
        -1000 <= r.1 <= 1000,
{
    let nx = norm_axis(dx, sensitivity);
    let ny = norm_axis(dy, sensitivity);
    if natural_swiping {
        (-nx, -ny)
    } else {
        (nx, ny)
    }
}

/// The single direction that best represents an accumulated 2D offset.
///
/// When both axes reach `threshold` (inclusive), the result is the
/// diagonal matching the two signs — this test comes first.  Otherwise
/// the stronger axis wins if it reaches the threshold, with ties going to
/// the x axis.  Otherwise there is no decision yet.
pub open spec fn dominant_direction_spec(dx: int, dy: int, threshold: int) -> Option<Direction> {
    let ax = abs_spec(dx);
    let ay = abs_spec(dy);
    let over_x = ax >= threshold;
    let over_y = ay >= threshold;
    if over_x && over_y {
        if dx > 0 {
            if dy > 0 {
                Some(Direction::DownRight)
            } else {
                Some(Direction::UpRight)
            }
        } else {
            if dy > 0 {
                Some(Direction::DownLeft)
            } else {
                Some(Direction::UpLeft)
            }
        }
    } else if ax >= ay && over_x {
        if dx > 0 {
            Some(Direction::Right)
        } else {
            Some(Direction::Left)
        }
    } else if ay > ax && over_y {
        if dy > 0 {
            Some(Direction::Down)
        } else {
            Some(Direction::Up)
        }
    } else {
        None
    }
}

/// Determine the dominant direction from normalised deltas (thousandths).
pub fn dominant_direction(norm_dx: i64, norm_dy: i64, threshold: i64) -> (r: Option<Direction>)
    ensures
        r == dominant_direction_spec(norm_dx as int, norm_dy as int, threshold as int),
{
    let ax: i128 = if norm_dx < 0 {
        -(norm_dx as i128)
    } else {
        norm_dx as i128
    };
    let ay: i128 = if norm_dy < 0 {
        -(norm_dy as i128)
    } else {
        norm_dy as i128
    };
    let t = threshold as i128;
    let over_x = ax >= t;
    let over_y = ay >= t;
    if over_x && over_y {
        Some(
            if norm_dx > 0 {
                if norm_dy > 0 {
                    Direction::DownRight
                } else {
                    Direction::UpRight
                }
            } else {
                if norm_dy > 0 {
                    Direction::DownLeft
                } else {
                    Direction::UpLeft
                }
            },
        )
    } else if ax >= ay && over_x {
        Some(
            if norm_dx > 0 {
                Direction::Right
            } else {
                Direction::Left
            },
        )
    } else if ay > ax && over_y {
        Some(
            if norm_dy > 0 {
                Direction::Down
            } else {
                Direction::Up
            },
        )
    } else {
        None
    }
}

/// For offsets already clamped to one cell, the gesture classifier makes
/// no decision exactly when both axes are below the threshold.
pub proof fn lemma_dominant_none_iff_below(dx: int, dy: int, threshold: int)
    requires
        -1000 <= dx <= 1000,
        -1000 <= dy <= 1000,
    ensures
        dominant_direction_spec(dx, dy, threshold) is None <==> (abs_spec(dx) < threshold
            && abs_spec(dy) < threshold),
{
}

// ---------------------------------------------------------------------
// Event line parsing
// ---------------------------------------------------------------------

/// First index `>= i` where `">>"` starts; `-1` when absent.
pub open spec fn sep_idx_from(s: Seq<char>, i: int) -> int
    decreases s.len() - i,
{
    if i < 0 || i + 2 > s.len() {
        -1
    } else if s[i] == '>' && s[i + 1] == '>' {
        i
    } else {
        sep_idx_from(s, i + 1)
    }
}

/// What `parse_event_line` returns: the text before the first `">>"` and
/// the text after it.
pub open spec fn parse_event_line_spec(s: Seq<char>) -> Option<(Seq<char>, Seq<char>)> {
    let k = sep_idx_from(s, 0);
    if k == -1 {
        None
    } else {
        Some((s.take(k), s.skip(k + 2)))
    }
}

/// Split an `EVENT>>DATA` line at the first `">>"`.
pub fn parse_event_line<'a>(line: &'a str) -> (r: Option<(&'a str, &'a str)>)
    ensures
        r is Some <==> parse_event_line_spec(line@) is Some,
        r matches Some((ev, data)) ==> Some((ev@, data@)) == parse_event_line_spec(line@),
{
    let n = line.unicode_len();
    if n < 2 {
        return None;
    }
    let mut i: usize = 0;
    while i < n - 1
        invariant
            n == line@.len(),
            2 <= n,
            i <= n - 1,
            sep_idx_from(line@, 0) == sep_idx_from(line@, i as int),
        decreases n - i,
    {
        if line.get_char(i) == '>' && line.get_char(i + 1) == '>' {
            let ev = line.substring_char(0, i);
            let data = line.substring_char(i + 2, n);
            proof {
                assert(ev@ =~= line@.take(i as int));
                assert(data@ =~= line@.skip(i + 2));
            }
            return Some((ev, data));
        }
        i = i + 1;
    }
    None
}

/// Split a comma-separated triple `a,b,c`; `None` unless there are
/// exactly two commas.
pub open spec fn split3_spec(s: Seq<char>) -> Option<(Seq<char>, Seq<char>, Seq<char>)> {
    let c1 = char_idx_from(s, ',', 0);
    if c1 == -1 {
        None
    } else {
        let c2 = char_idx_from(s, ',', c1 + 1);
        if c2 == -1 {
            None
        } else if char_idx_from(s, ',', c2 + 1) != -1 {
            None
        } else {
            Some((s.take(c1), s.subrange(c1 + 1, c2), s.skip(c2 + 1)))
        }
    }
}

/// Split `a,b,c` at its two commas.
fn split3<'a>(s: &'a str) -> (r: Option<(&'a str, &'a str, &'a str)>)
    ensures
        r is Some <==> split3_spec(s@) is Some,
        r matches Some((a, b, c)) ==> Some((a@, b@, c@)) == split3_spec(s@),
{
    let n = s.unicode_len();
    let c1 = match find_char(s, ',', 0) {
        None => {
            return None;
        }
        Some(i) => i,
    };
    let c2 = match find_char(s, ',', c1 + 1) {
        None => {
            return None;
        }
        Some(i) => i,
    };
    match find_char(s, ',', c2 + 1) {
        Some(_) => None,
        None => {
            let a = s.substring_char(0, c1);
            let b = s.substring_char(c1 + 1, c2);
            let c = s.substring_char(c2 + 1, n);
            proof {
                assert(a@ =~= s@.take(c1 as int));
                assert(b@ =~= s@.subrange(c1 + 1, c2 as int));
                assert(c@ =~= s@.skip(c2 + 1));
            }
            Some((a, b, c))
        }
    }
}

// ---------------------------------------------------------------------
// The recognizer
// ---------------------------------------------------------------------

/// Accumulator for an in-flight swipe gesture; deltas in thousandths of a
/// pixel.
#[derive(Debug, Clone, Copy, PartialEq, Eq, Structural)]
pub struct SwipeState {
    pub active: bool,
    pub fingers: u32,
    pub dx: i64,
    pub dy: i64,
}

/// The idle accumulator.
pub open spec fn idle_state() -> SwipeState {
    SwipeState { active: false, fingers: 0, dx: 0, dy: 0 }
}

/// Saturating 64-bit addition.
pub open spec fn sat_add(a: int, b: int) -> int {
    if a + b > i64::MAX {
        i64::MAX as int
    } else if a + b < i64::MIN {
        i64::MIN as int
    } else {
        a + b
    }
}

/// Saturating 64-bit addition, executable.
pub(crate) fn sat_add_i64(a: i64, b: i64) -> (r: i64)
    ensures
        r as int == sat_add(a as int, b as int),
{
    match a.checked_add(b) {
        Some(v) => v,
        None => {
            if b > 0 {
                i64::MAX
            } else {
                i64::MIN
            }
        }
    }
}

/// The full event transition: what one `EVENT>>DATA` line does to the
/// accumulator and which command, if any, it emits.
///
/// * `swipebegin` with a matching finger count starts a fresh accumulator.
/// * `swipeupdate` during an active swipe adds the deltas and emits a
///   [`Command::PrepareMove`] preview of the normalised offset.
/// * `swipeend` during an active swipe classifies the accumulated offset:
///   dominant direction with the move-finger count emits
///   [`Command::MoveWindowAndGo`], with the switch-finger count
///   [`Command::CommitMove`], and no dominant direction emits
///   [`Command::CancelMove`].  The accumulator is cleared.
/// * Anything else is ignored.
pub open spec fn gesture_step(
    cfg: GestureConfig,
    st: SwipeState,
    event: Seq<char>,
    data: Seq<char>,
) -> (SwipeState, Option<Command>) {
    if event == "swipebegin"@ {
        match parse_u32_spec(trim_spec(data)) {
            Some(f) => if f == cfg.switch_fingers || f == cfg.move_fingers {
                (SwipeState { active: true, fingers: f, dx: 0, dy: 0 }, None)
            } else {
                (st, None)
            },
            None => (st, None),
        }
    } else if event == "swipeupdate"@ {
        if !st.active {
            (st, None)
        } else {
            match split3_spec(trim_spec(data)) {
                Some((_f, p1, p2)) => match (parse_milli_spec(p1), parse_milli_spec(p2)) {
                    (Some(ddx), Some(ddy)) => {
                        let ndx = sat_add(st.dx as int, ddx as int);
                        let ndy = sat_add(st.dy as int, ddy as int);
                        let nx = norm_axis_spec(ndx, cfg.sensitivity as int);
                        let ny = norm_axis_spec(ndy, cfg.sensitivity as int);
                        (
                            SwipeState {
                                active: st.active,
                                fingers: st.fingers,
                                dx: ndx as i64,
                                dy: ndy as i64,
                            },
                            Some(Command::PrepareMove { dx: nx as i64, dy: ny as i64 }),
                        )
                    },
                    _ => (st, None),
                },
                None => (st, None),
            }
        }
    } else if event == "swipeend"@ {
        if !st.active {
            (st, None)
        } else {
            let nx = norm_axis_spec(st.dx as int, cfg.sensitivity as int);
            let ny = norm_axis_spec(st.dy as int, cfg.sensitivity as int);
            let cmd = match dominant_direction_spec(nx, ny, cfg.commit_threshold as int) {
                Some(d) => if st.fingers == cfg.move_fingers {
                    Command::MoveWindowAndGo(d)
                } else {
                    Command::CommitMove(d)
                },
                None => Command::CancelMove,
            };
            (SwipeState { active: false, fingers: st.fingers, dx: 0, dy: 0 }, Some(cmd))
        }
    } else {
        (st, None)
    }
}

/// Turns raw compositor swipe events into grid commands.
///
/// Feed it the parsed `(event, data)` pairs of the compositor's event
/// stream; it owns the in-flight accumulator and decides when a gesture
/// previews, commits or cancels.
#[derive(Debug, Clone)]
pub struct GestureRecognizer {
    config: GestureConfig,
    state: SwipeState,
}

impl GestureRecognizer {
    /// The configuration the recognizer was built with.
    pub closed spec fn spec_config(&self) -> GestureConfig {
        self.config
    }

    /// The current accumulator.
    pub closed spec fn spec_state(&self) -> SwipeState {
        self.state
    }

    /// A usable recognizer carries a usable configuration.
    pub open spec fn wf(&self) -> bool {
        self.spec_config().wf()
    }

    /// Create a recognizer with the given configuration and an idle
    /// accumulator.
    pub fn new(config: GestureConfig) -> (r: Self)
        requires
            config.wf(),
        ensures
            r.wf(),
            r.spec_config() == config,
            r.spec_state() == idle_state(),
    {
        GestureRecognizer { config, state: SwipeState { active: false, fingers: 0, dx: 0, dy: 0 } }
    }

    /// Create a recognizer with default settings.
    pub fn with_defaults() -> (r: Self)
        ensures
            r.wf(),
            r.spec_config() == (GestureConfig {
                sensitivity: 200_000,
                commit_threshold: 300,
                commit_while_dragging_threshold: None,
                switch_fingers: 3,
                move_fingers: 4,
                natural_swiping: true,
            }),
            r.spec_state() == idle_state(),
    {
        Self::new(GestureConfig::default())
    }

    /// Whether a swipe is currently being accumulated.
    pub fn is_active(&self) -> (r: bool)
        ensures
            r == self.spec_state().active,
    {
        self.state.active
    }

    /// The finger count of the active swipe.
    pub fn fingers(&self) -> (r: u32)
        ensures
            r == self.spec_state().fingers,
    {
        self.state.fingers
    }

    /// The accumulated `(dx, dy)` in thousandths of a pixel.
    pub fn accumulated(&self) -> (r: (i64, i64))
        ensures
            r == (self.spec_state().dx, self.spec_state().dy),
    {
        (self.state.dx, self.state.dy)
    }

    /// Process one `(event, data)` pair and return the command to emit,
    /// if any.
    pub fn handle_event(&mut self, event: &str, data: &str) -> (r: Option<Command>)
        requires
            old(self).wf(),
        ensures
            final(self).wf(),
            final(self).spec_config() == old(self).spec_config(),
            (final(self).spec_state(), r) == gesture_step(
                old(self).spec_config(),
                old(self).spec_state(),
                event@,
                data@,
            ),
    {
        if str_eq(event, "swipebegin") {
            let t = trim_ascii(data);
            match parse_u32(t) {
                Some(f) => {
                    if f == self.config.switch_fingers || f == self.config.move_fingers {
                        self.state = SwipeState { active: true, fingers: f, dx: 0, dy: 0 };
                    }
                }
                None => {}
            }
            None
        } else if str_eq(event, "swipeupdate") {
            if !self.state.active {
                return None;
            }
            let t = trim_ascii(data);
            match split3(t) {
                Some((_f, p1, p2)) => {
                    match (parse_milli(p1), parse_milli(p2)) {
                        (Some(ddx), Some(ddy)) => {
                            let ndx = sat_add_i64(self.state.dx, ddx);
                            let ndy = sat_add_i64(self.state.dy, ddy);
                            self.state = SwipeState {
                                active: self.state.active,
                                fingers: self.state.fingers,
                                dx: ndx,
                                dy: ndy,
                            };
                            let nx = norm_axis(ndx, self.config.sensitivity);
                            let ny = norm_axis(ndy, self.config.sensitivity);
                            Some(Command::PrepareMove { dx: nx, dy: ny })
                        }
                        _ => None,
                    }
                }
                None => None,
            }
        } else if str_eq(event, "swipeend") {
            if !self.state.active {
                return None;
            }
            let nx = norm_axis(self.state.dx, self.config.sensitivity);
            let ny = norm_axis(self.state.dy, self.config.sensitivity);
            let cmd = match dominant_direction(nx, ny, self.config.commit_threshold) {
                Some(d) => {
                    if self.state.fingers == self.config.move_fingers {
                        Command::MoveWindowAndGo(d)
                    } else {
                        Command::CommitMove(d)
                    }
                }
                None => Command::CancelMove,
            };
            self.state = SwipeState {
                active: false,
                fingers: self.state.fingers,
                dx: 0,
                dy: 0,
            };
            Some(cmd)
        } else {
            None
        }
    }
}

/// Error from the gesture event source.
#[derive(Debug, Clone, PartialEq, Eq)]
pub struct HyprlandGestureError(pub String);

impl HyprlandGestureError {
    /// The error text.
    pub fn message(&self) -> (r: String)
        ensures
            r@ == self.0@,
    {
        self.0.clone()
    }
}

} // verus!
