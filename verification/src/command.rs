//! The shared command vocabulary.
//!
//! [`Command`] describes every action the switcher can perform, and
//! [`Direction`] / [`MonitorInfo`] / [`WindowInfo`] provide the supporting
//! data types.  Gesture offsets are carried in thousandths of a grid cell,
//! so a `dx` of `500` means "half a cell to the right".

use vstd::prelude::*;
use vstd::string::StrSliceExecFns;

verus! {

/// Direction for grid navigation (cardinal and diagonal).
#[derive(Debug, Clone, Copy, PartialEq, Eq, Hash, Structural)]
pub enum Direction {
    Left,
    Right,
    Up,
    Down,
    UpLeft,
    UpRight,
    DownLeft,
    DownRight,
}

/// The canonical lower-case spelling of a direction.
pub open spec fn direction_name_spec(d: Direction) -> Seq<char> {
    match d {
        Direction::Left => seq!['l', 'e', 'f', 't'],
        Direction::Right => seq!['r', 'i', 'g', 'h', 't'],
        Direction::Up => seq!['u', 'p'],
        Direction::Down => seq!['d', 'o', 'w', 'n'],
        Direction::UpLeft => seq!['u', 'p', '-', 'l', 'e', 'f', 't'],
        Direction::UpRight => seq!['u', 'p', '-', 'r', 'i', 'g', 'h', 't'],
        Direction::DownLeft => seq!['d', 'o', 'w', 'n', '-', 'l', 'e', 'f', 't'],
        Direction::DownRight => seq!['d', 'o', 'w', 'n', '-', 'r', 'i', 'g', 'h', 't'],
    }
}

impl Direction {
    /// The canonical lower-case spelling, e.g. `"up-left"`.
    pub fn name(&self) -> (r: String)
        ensures
            r@ == direction_name_spec(*self),
    {
        match self {
            Direction::Left => {
                let s = String::from_str("left");
                proof {
                    reveal_strlit("left");
                    assert(s@ =~= direction_name_spec(*self));
                }
                s
            }
            Direction::Right => {
                let s = String::from_str("right");
                proof {
                    reveal_strlit("right");
                    assert(s@ =~= direction_name_spec(*self));
                }
                s
            }
            Direction::Up => {
                let s = String::from_str("up");
                proof {
                    reveal_strlit("up");
                    assert(s@ =~= direction_name_spec(*self));
                }
                s
            }
            Direction::Down => {
                let s = String::from_str("down");
                proof {
                    reveal_strlit("down");
                    assert(s@ =~= direction_name_spec(*self));
                }
                s
            }
            Direction::UpLeft => {
                let s = String::from_str("up-left");
                proof {
                    reveal_strlit("up-left");
                    assert(s@ =~= direction_name_spec(*self));
                }
                s
            }
            Direction::UpRight => {
                let s = String::from_str("up-right");
                proof {
                    reveal_strlit("up-right");
                    assert(s@ =~= direction_name_spec(*self));
                }
                s
            }
            Direction::DownLeft => {
                let s = String::from_str("down-left");
                proof {
                    reveal_strlit("down-left");
                    assert(s@ =~= direction_name_spec(*self));
                }
                s
            }
            Direction::DownRight => {
                let s = String::from_str("down-right");
                proof {
                    reveal_strlit("down-right");
                    assert(s@ =~= direction_name_spec(*self));
                }
                s
            }
        }
    }
}

// ---------------------------------------------------------------------
// Direction parsing
// ---------------------------------------------------------------------

/// Characters dropped before matching a direction word: ASCII whitespace
/// and underscores.
pub open spec fn is_skippable(c: char) -> bool {
    c == ' ' || c == '\t' || c == '\n' || c == '\r' || c == '_'
}

/// ASCII lower-casing of a single character.
pub open spec fn lower_char_spec(c: char) -> char {
    match c {
        'A' => 'a',
        'B' => 'b',
        'C' => 'c',
        'D' => 'd',
        'E' => 'e',
        'F' => 'f',
        'G' => 'g',
        'H' => 'h',
        'I' => 'i',
        'J' => 'j',
        'K' => 'k',
        'L' => 'l',
        'M' => 'm',
        'N' => 'n',
        'O' => 'o',
        'P' => 'p',
        'Q' => 'q',
        'R' => 'r',
        'S' => 's',
        'T' => 't',
        'U' => 'u',
        'V' => 'v',
        'W' => 'w',
        'X' => 'x',
        'Y' => 'y',
        'Z' => 'z',
        _ => c,
    }
}

/// The first `i` characters of `s`, with skippable characters removed and
/// the rest lower-cased.
pub open spec fn normalize_prefix(s: Seq<char>, i: int) -> Seq<char>
    decreases i,
{
    if i <= 0 {
        Seq::empty()
    } else {
        let p = normalize_prefix(s, i - 1);
        if is_skippable(s[i - 1]) {
            p
        } else {
            p.push(lower_char_spec(s[i - 1]))
        }
    }
}

/// Separator- and case-normalisation of a whole direction string.
pub open spec fn normalize_spec(s: Seq<char>) -> Seq<char> {
    normalize_prefix(s, s.len() as int)
}

/// What `parse_direction` accepts: the normalised input, matched against
/// the eight direction words (diagonals with or without a dash).
pub open spec fn parse_direction_spec(s: Seq<char>) -> Option<Direction> {
    let n = normalize_spec(s);
    if n == "left"@ {
        Some(Direction::Left)
    } else if n == "right"@ {
        Some(Direction::Right)
    } else if n == "up"@ {
        Some(Direction::Up)
    } else if n == "down"@ {
        Some(Direction::Down)
    } else if n == "upleft"@ || n == "up-left"@ {
        Some(Direction::UpLeft)
    } else if n == "upright"@ || n == "up-right"@ {
        Some(Direction::UpRight)
    } else if n == "downleft"@ || n == "down-left"@ {
        Some(Direction::DownLeft)
    } else if n == "downright"@ || n == "down-right"@ {
        Some(Direction::DownRight)
    } else {
        None
    }
}

/// ASCII lower-casing of a single character.
fn lower_char(c: char) -> (r: char)
    ensures
        r == lower_char_spec(c),
{
    match c {
        'A' => 'a',
        'B' => 'b',
        'C' => 'c',
        'D' => 'd',
        'E' => 'e',
        'F' => 'f',
        'G' => 'g',
        'H' => 'h',
        'I' => 'i',
        'J' => 'j',
        'K' => 'k',
        'L' => 'l',
        'M' => 'm',
        'N' => 'n',
        'O' => 'o',
        'P' => 'p',
        'Q' => 'q',
        'R' => 'r',
        'S' => 's',
        'T' => 't',
        'U' => 'u',
        'V' => 'v',
        'W' => 'w',
        'X' => 'x',
        'Y' => 'y',
        'Z' => 'z',
        _ => c,
    }
}

/// Content equality between a character buffer and a string slice.
fn chars_is(v: &Vec<char>, s: &str) -> (r: bool)
    ensures
        r == (v@ == s@),
{
    let n = s.unicode_len();
    if v.len() != n {
        return false;
    }
    let mut i: usize = 0;
    while i < n
        invariant
            n == s@.len(),
            v@.len() == n,
            i <= n,
            forall|j: int| 0 <= j < i ==> v@[j] == s@[j],
        decreases n - i,
    {
        if v[i] != s.get_char(i) {
            return false;
        }
        i = i + 1;
    }
    proof {
        assert(v@ =~= s@);
    }
    true
}

/// Parse a direction string, case-insensitively (ASCII) and ignoring
/// whitespace and underscores: `"right"`, `"up-left"`, `"Up_Left"`, …
pub fn parse_direction(s: &str) -> (r: Option<Direction>)
    ensures
        r == parse_direction_spec(s@),
{
    let n = s.unicode_len();
    let mut v: Vec<char> = Vec::new();
    let mut i: usize = 0;
    while i < n
        invariant
            n == s@.len(),
            i <= n,
            v@ == normalize_prefix(s@, i as int),
        decreases n - i,
    {
        let c = s.get_char(i);
        if !(c == ' ' || c == '\t' || c == '\n' || c == '\r' || c == '_') {
            v.push(lower_char(c));
        }
        i = i + 1;
    }
    if chars_is(&v, "left") {
        Some(Direction::Left)
    } else if chars_is(&v, "right") {
        Some(Direction::Right)
    } else if chars_is(&v, "up") {
        Some(Direction::Up)
    } else if chars_is(&v, "down") {
        Some(Direction::Down)
    } else if chars_is(&v, "upleft") || chars_is(&v, "up-left") {
        Some(Direction::UpLeft)
    } else if chars_is(&v, "upright") || chars_is(&v, "up-right") {
        Some(Direction::UpRight)
    } else if chars_is(&v, "downleft") || chars_is(&v, "down-left") {
        Some(Direction::DownLeft)
    } else if chars_is(&v, "downright") || chars_is(&v, "down-right") {
        Some(Direction::DownRight)
    } else {
        None
    }
}

// ---------------------------------------------------------------------
// Command vocabulary
// ---------------------------------------------------------------------

/// Target of an absolute jump: grid column `x` and row `y`.
#[derive(Debug, Clone, Copy, PartialEq, Eq, Structural)]
pub struct SwitchToTarget {
    pub x: usize,
    pub y: usize,
}

/// A 0-based monitor index, in the order the window manager lists
/// monitors.
#[derive(Debug, Clone, Copy, PartialEq, Eq, Structural)]
pub struct MonitorIndex(pub usize);

/// Every action the grid switcher can perform.
///
/// Commands are produced by [`CommandSource`](crate::traits::CommandSource)
/// implementations and consumed by
/// [`GridSwitcher::handle`](crate::switcher::GridSwitcher::handle).
#[derive(Debug, Clone, Copy, PartialEq, Eq, Structural)]
pub enum Command {
    /// Switch all monitors to the workspace at absolute grid position
    /// `(x, y)`.
    SwitchTo(SwitchToTarget),
    /// Move one cell in the given direction, creating the column/row if
    /// needed.
    Go(Direction),
    /// Move the currently active window one cell in the given direction
    /// and follow it.
    MoveWindowAndGo(Direction),
    /// Move the focused window to the monitor in the given direction
    /// relative to the monitor it is currently on, comparing monitor
    /// center positions.  No candidate monitor is a no-op.
    MoveWindowToMonitor(Direction),
    /// Move the focused window to the monitor at the given index; an index
    /// out of range is an error.
    MoveWindowToMonitorIndex(MonitorIndex),
    /// Gesture-driven partial move.  `dx` and `dy` are in thousandths of a
    /// grid cell, each within `[-1000, 1000]`; the switcher shows a
    /// visualization tracking this offset and changes no grid state.
    PrepareMove { dx: i64, dy: i64 },
    /// Cancel an in-progress gesture, snapping the visualization back.
    CancelMove,
    /// Commit a gesture that crossed the threshold — same effect as
    /// [`Go`](Command::Go).
    CommitMove(Direction),
    /// Toggle a persistent visualizer overlay for the current grid state.
    ToggleVisualizer,
    /// A multi-finger swipe has started; `fingers` is the number of
    /// fingers on the touchpad.
    SwipeBegin { fingers: u32 },
    /// Incremental finger movement during a swipe.  `dx` / `dy` are raw
    /// touchpad deltas in thousandths of a pixel, **not** normalised; the
    /// switcher applies sensitivity scaling internally.
    SwipeUpdate { fingers: u32, dx: i64, dy: i64 },
    /// Fingers lifted — end of a swipe gesture.
    SwipeEnd,
}

/// Every direction's canonical name parses back to that direction.
pub proof fn lemma_direction_name_round_trip(d: Direction)
    ensures
        parse_direction_spec(direction_name_spec(d)) == Some(d),
{
    reveal_strlit("left");
    reveal_strlit("right");
    reveal_strlit("up");
    reveal_strlit("down");
    reveal_strlit("upleft");
    reveal_strlit("up-left");
    reveal_strlit("upright");
    reveal_strlit("up-right");
    reveal_strlit("downleft");
    reveal_strlit("down-left");
    reveal_strlit("downright");
    reveal_strlit("down-right");
    reveal_with_fuel(normalize_prefix, 11);
    let s = direction_name_spec(d);
    assert(normalize_spec(s) =~= s);
    match d {
        Direction::Left => {
            assert(s =~= "left"@);
        }
        Direction::Right => {
            assert(s =~= "right"@);
        }
        Direction::Up => {
            assert(s =~= "up"@);
        }
        Direction::Down => {
            assert(s =~= "down"@);
        }
        Direction::UpLeft => {
            assert(s =~= "up-left"@);
        }
        Direction::UpRight => {
            assert(s =~= "up-right"@);
        }
        Direction::DownLeft => {
            assert(s =~= "down-left"@);
        }
        Direction::DownRight => {
            assert(s =~= "down-right"@);
        }
    }
}

// ---------------------------------------------------------------------
// Wire forms of the command payloads
// ---------------------------------------------------------------------

/// What the `"col row"` wire form of an absolute jump accepts: exactly two
/// whitespace-separated non-negative integers.
pub open spec fn parse_switch_to_spec(s: Seq<char>) -> Option<SwitchToTarget> {
    let a1 = crate::text::skip_ws_from(s, 0);
    let b1 = crate::text::skip_nonws_from(s, a1);
    let a2 = crate::text::skip_ws_from(s, b1);
    let b2 = crate::text::skip_nonws_from(s, a2);
    if a1 >= s.len() || a2 >= s.len() || crate::text::skip_ws_from(s, b2) != s.len() {
        None
    } else {
        match (crate::text::parse_usize_spec(s.subrange(a1, b1)), crate::text::parse_usize_spec(
            s.subrange(a2, b2),
        )) {
            (Some(x), Some(y)) => Some(SwitchToTarget { x, y }),
            _ => None,
        }
    }
}

/// Parse the `"col row"` wire form of an absolute jump.
pub fn parse_switch_to_target(s: &str) -> (r: Option<SwitchToTarget>)
    ensures
        r == parse_switch_to_spec(s@),
{
    let n = s.unicode_len();
    let a1 = crate::text::skip_ws(s, 0);
    let b1 = crate::text::skip_nonws(s, a1);
    let a2 = crate::text::skip_ws(s, b1);
    let b2 = crate::text::skip_nonws(s, a2);
    if a1 >= n || a2 >= n {
        return None;
    }
    let rest = crate::text::skip_ws(s, b2);
    if rest != n {
        return None;
    }
    let t1 = s.substring_char(a1, b1);
    let t2 = s.substring_char(a2, b2);
    match (crate::text::parse_usize(t1), crate::text::parse_usize(t2)) {
        (Some(x), Some(y)) => Some(SwitchToTarget { x, y }),
        _ => None,
    }
}

/// What the string wire form of a monitor index accepts: a non-negative
/// integer, surrounded by optional whitespace.
pub open spec fn parse_monitor_index_spec(s: Seq<char>) -> Option<MonitorIndex> {
    match crate::text::parse_usize_spec(crate::text::trim_spec(s)) {
        Some(n) => Some(MonitorIndex(n)),
        None => None,
    }
}

/// Parse the string wire form of a monitor index.
pub fn parse_monitor_index(s: &str) -> (r: Option<MonitorIndex>)
    ensures
        r == parse_monitor_index_spec(s@),
{
    let t = crate::text::trim_ascii(s);
    match crate::text::parse_usize(t) {
        Some(n) => Some(MonitorIndex(n)),
        None => None,
    }
}

// ---------------------------------------------------------------------
// Monitor and window descriptions
// ---------------------------------------------------------------------

/// Static information about a monitor known to the window manager.
#[derive(Debug, Clone, PartialEq, Eq)]
pub struct MonitorInfo {
    /// Unique name the window manager uses for this monitor (e.g. `"DP-1"`).
    pub name: String,
    /// Horizontal resolution in pixels.
    pub width: u32,
    /// Vertical resolution in pixels.
    pub height: u32,
    /// X position on the virtual desktop (pixels).
    pub x: i32,
    /// Y position on the virtual desktop (pixels).
    pub y: i32,
}

/// Minimal information about the currently focused window.
#[derive(Debug, Clone, PartialEq, Eq)]
pub struct WindowInfo {
    /// Window manager address / id.
    pub address: String,
    /// Human-readable title.
    pub title: String,
    /// Name of the monitor the window is on (e.g. `"DP-1"`).
    pub monitor: String,
}

// ---------------------------------------------------------------------
// Monitor geometry
// ---------------------------------------------------------------------

/// Twice the x coordinate of a monitor's center point.
pub open spec fn center2_x(m: MonitorInfo) -> int {
    2 * m.x + m.width
}

/// Twice the y coordinate of a monitor's center point.
pub open spec fn center2_y(m: MonitorInfo) -> int {
    2 * m.y + m.height
}

/// The center of `m` lies in direction `d` from the center of `cur`
/// (diagonals require strictly both half-planes).
pub open spec fn in_direction(m: MonitorInfo, cur: MonitorInfo, d: Direction) -> bool {
    match d {
        Direction::Right => center2_x(m) > center2_x(cur),
        Direction::Left => center2_x(m) < center2_x(cur),
        Direction::Down => center2_y(m) > center2_y(cur),
        Direction::Up => center2_y(m) < center2_y(cur),
        Direction::UpRight => center2_x(m) > center2_x(cur) && center2_y(m) < center2_y(cur),
        Direction::UpLeft => center2_x(m) < center2_x(cur) && center2_y(m) < center2_y(cur),
        Direction::DownRight => center2_x(m) > center2_x(cur) && center2_y(m) > center2_y(cur),
        Direction::DownLeft => center2_x(m) < center2_x(cur) && center2_y(m) > center2_y(cur),
    }
}

/// Squared Euclidean distance between the (doubled) center points.
pub open spec fn center_dist2(m: MonitorInfo, cur: MonitorInfo) -> int {
    (center2_x(m) - center2_x(cur)) * (center2_x(m) - center2_x(cur)) + (center2_y(m) - center2_y(
        cur,
    )) * (center2_y(m) - center2_y(cur))
}

/// First index whose monitor carries `name`, scanning from `i`; `-1` when
/// absent.
pub open spec fn name_idx_from(s: Seq<MonitorInfo>, name: Seq<char>, i: int) -> int
    decreases s.len() - i,
{
    if i < 0 || i >= s.len() {
        -1
    } else if s[i].name@ == name {
        i
    } else {
        name_idx_from(s, name, i + 1)
    }
}

/// A monitor other than the current one whose center lies in direction
/// `d`.
pub open spec fn is_candidate(
    m: MonitorInfo,
    cur_name: Seq<char>,
    cur: MonitorInfo,
    d: Direction,
) -> bool {
    m.name@ != cur_name && in_direction(m, cur, d)
}

/// Index of the best candidate among the first `i` monitors: smallest
/// squared center distance, later index on ties; `-1` when none.
pub open spec fn best_upto(
    s: Seq<MonitorInfo>,
    cur_name: Seq<char>,
    cur: MonitorInfo,
    d: Direction,
    i: int,
) -> int
    decreases i,
{
    if i <= 0 {
        -1
    } else {
        let prev = best_upto(s, cur_name, cur, d, i - 1);
        let k = i - 1;
        if !is_candidate(s[k], cur_name, cur, d) {
            prev
        } else if prev == -1 {
            k
        } else if center_dist2(s[k], cur) <= center_dist2(s[prev], cur) {
            k
        } else {
            prev
        }
    }
}

/// The best candidate really is one, and no candidate beats it.
pub proof fn lemma_best_upto_minimal(
    s: Seq<MonitorInfo>,
    cur_name: Seq<char>,
    cur: MonitorInfo,
    d: Direction,
    i: int,
)
    requires
        0 <= i <= s.len(),
    ensures
        ({
            let b = best_upto(s, cur_name, cur, d, i);
            &&& b == -1 <==> forall|j: int|
                0 <= j < i ==> !is_candidate(#[trigger] s[j], cur_name, cur, d)
            &&& b != -1 ==> 0 <= b < i && is_candidate(s[b], cur_name, cur, d)
            &&& b != -1 ==> forall|j: int|
                0 <= j < i && is_candidate(#[trigger] s[j], cur_name, cur, d) ==> center_dist2(
                    s[b],
                    cur,
                ) <= center_dist2(s[j], cur)
        }),
    decreases i,
{
    if i > 0 {
        lemma_best_upto_minimal(s, cur_name, cur, d, i - 1);
    }
}

/// Find the monitor in the given direction relative to the current one.
///
/// Compares monitor center points and returns the closest monitor whose
/// center lies in the requested direction (on equal distances, the one
/// listed last).  Returns `None` if no monitor lies in that direction or
/// if `current_monitor` is not in the list.
pub fn find_monitor_in_direction<'a>(
    monitors: &'a Vec<MonitorInfo>,
    current_monitor: &str,
    direction: Direction,
) -> (r: Option<&'a MonitorInfo>)
    ensures
        ({
            let ci = name_idx_from(monitors@, current_monitor@, 0);
            if ci == -1 {
                r is None
            } else {
                let b = best_upto(
                    monitors@,
                    current_monitor@,
                    monitors@[ci],
                    direction,
                    monitors@.len() as int,
                );
                if b == -1 {
                    r is None
                } else {
                    r matches Some(m) && *m == monitors@[b]
                }
            }
        }),
{
    let n = monitors.len();

    // Find the current monitor (first occurrence of the name).
    let ci = match find_name_index(monitors, current_monitor) {
        Some(i) => i,
        None => {
            return None;
        }
    };
    let ghost cur = monitors@[ci as int];

    // Scan for the closest candidate in the requested direction.
    let mut best: usize = 0;
    let mut have_best = false;
    let mut i: usize = 0;
    while i < n
        invariant
            n == monitors@.len(),
            ci < n,
            cur == monitors@[ci as int],
            i <= n,
            !have_best ==> best_upto(monitors@, current_monitor@, cur, direction, i as int) == -1,
            have_best ==> best < n && best_upto(
                monitors@,
                current_monitor@,
                cur,
                direction,
                i as int,
            ) == best,
        decreases n - i,
    {
        let is_cand = !crate::text::str_eq(monitors[i].name.as_str(), current_monitor)
            && monitor_in_direction(&monitors[i], &monitors[ci], direction);
        if is_cand {
            if !have_best {
                best = i;
                have_best = true;
            } else {
                let di = center_distance2(&monitors[i], &monitors[ci]);
                let db = center_distance2(&monitors[best], &monitors[ci]);
                if di <= db {
                    best = i;
                }
            }
        }
        i = i + 1;
    }
    if have_best {
        Some(&monitors[best])
    } else {
        None
    }
}

/// Index of the first monitor named `name`, if any.
fn find_name_index(monitors: &Vec<MonitorInfo>, name: &str) -> (r: Option<usize>)
    ensures
        r is None <==> name_idx_from(monitors@, name@, 0) == -1,
        r matches Some(i) ==> i == name_idx_from(monitors@, name@, 0) && i < monitors@.len(),
{
    let n = monitors.len();
    let mut i: usize = 0;
    while i < n
        invariant
            n == monitors@.len(),
            i <= n,
            name_idx_from(monitors@, name@, 0) == name_idx_from(monitors@, name@, i as int),
        decreases n - i,
    {
        if crate::text::str_eq(monitors[i].name.as_str(), name) {
            return Some(i);
        }
        i = i + 1;
    }
    None
}

/// Twice the x center coordinate, exactly.
fn center2_x_exec(m: &MonitorInfo) -> (r: i64)
    ensures
        r == center2_x(*m),
{
    2 * (m.x as i64) + (m.width as i64)
}

/// Twice the y center coordinate, exactly.
fn center2_y_exec(m: &MonitorInfo) -> (r: i64)
    ensures
        r == center2_y(*m),
{
    2 * (m.y as i64) + (m.height as i64)
}

/// Whether `m`'s center lies in direction `d` from `cur`'s center.
fn monitor_in_direction(m: &MonitorInfo, cur: &MonitorInfo, d: Direction) -> (r: bool)
    ensures
        r == in_direction(*m, *cur, d),
{
    let mx = center2_x_exec(m);
    let my = center2_y_exec(m);
    let cx = center2_x_exec(cur);
    let cy = center2_y_exec(cur);
    match d {
        Direction::Right => mx > cx,
        Direction::Left => mx < cx,
        Direction::Down => my > cy,
        Direction::Up => my < cy,
        Direction::UpRight => mx > cx && my < cy,
        Direction::UpLeft => mx < cx && my < cy,
        Direction::DownRight => mx > cx && my > cy,
        Direction::DownLeft => mx < cx && my > cy,
    }
}

/// Squared center distance, exactly.
fn center_distance2(m: &MonitorInfo, cur: &MonitorInfo) -> (r: i128)
    ensures
        r == center_dist2(*m, *cur),
{
    let dx = (center2_x_exec(m) as i128) - (center2_x_exec(cur) as i128);
    let dy = (center2_y_exec(m) as i128) - (center2_y_exec(cur) as i128);
    proof {
        assert(dx * dx + dy * dy < i128::MAX && dx * dx >= 0 && dy * dy >= 0) by (nonlinear_arith)
            requires
                -20000000000 < dx < 20000000000,
                -20000000000 < dy < 20000000000,
        ;
    }
    dx * dx + dy * dy
}

} // verus!
